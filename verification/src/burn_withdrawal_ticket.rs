//! Redeeming a withdrawal ticket, for approved users only.
use vstd::prelude::*;
use crate::account::{accounts_view, Account, AccountView};
use crate::error::ProgramError;
use crate::gate::{gated_call, gated_call_spec, proof_view, VaultCall, VaultCallView, VaultInstruction};

verus! {

/// Number of accounts of a redemption that comes with a proof; one that
/// comes without names the user's record as one more.
pub const BURN_WITHDRAWAL_TICKET_ACCOUNTS: usize = 15;

/// The outcome of a redemption. The accounts are, in order: vault
/// configuration, vault, vault's token account, share mint, staker,
/// staker's token account, withdrawal ticket, the ticket's token account,
/// vault's fee account, program's fee account, token program, system
/// program, configuration, whitelist, then the user's record where no
/// proof was sent, then the vault program. The staker is the user that
/// must be approved. The call names the accounts from the vault
/// configuration to the program's fee account, then the whitelist as the
/// signer of the burn.
pub open spec fn burn_withdrawal_ticket_outcome(
    program_id: Seq<u8>,
    vault_program_id: Seq<u8>,
    accounts: Seq<AccountView>,
    proof: Option<Seq<Seq<u8>>>,
) -> Result<VaultCallView, ProgramError> {
    gated_call_spec(
        program_id,
        vault_program_id,
        accounts,
        proof,
        15,
        12,
        13,
        1,
        4,
        seq![0usize, 1usize, 2usize, 3usize, 4usize, 5usize, 6usize, 7usize, 8usize, 9usize],
        VaultInstruction::BurnWithdrawalTicket,
    )
}

/// Decides on a redemption and, where the staker is approved, makes the
/// call to the vault program that the whitelist signs.
pub fn process_burn_withdrawal_ticket(
    program_id: &[u8; 32],
    vault_program_id: &[u8; 32],
    accounts: &[Account],
    proof: Option<Vec<[u8; 32]>>,
) -> (result: Result<VaultCall, ProgramError>)
    ensures
        match result {
            Ok(call) => burn_withdrawal_ticket_outcome(
                program_id@,
                vault_program_id@,
                accounts_view(accounts@),
                proof_view(proof),
            ) == Ok::<VaultCallView, ProgramError>(call@),
            Err(e) => burn_withdrawal_ticket_outcome(
                program_id@,
                vault_program_id@,
                accounts_view(accounts@),
                proof_view(proof),
            ) == Err::<VaultCallView, ProgramError>(e),
        },
{
    let called: [usize; 10] = [0, 1, 2, 3, 4, 5, 6, 7, 8, 9];
    assert(called@ =~= seq![
        0usize,
        1usize,
        2usize,
        3usize,
        4usize,
        5usize,
        6usize,
        7usize,
        8usize,
        9usize,
    ]);
    gated_call(
        program_id,
        vault_program_id,
        accounts,
        &proof,
        BURN_WITHDRAWAL_TICKET_ACCOUNTS,
        12,
        13,
        1,
        4,
        called.as_slice(),
        VaultInstruction::BurnWithdrawalTicket,
    )
}

} // verus!
