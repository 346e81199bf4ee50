//! Queuing a withdrawal from a vault, for approved users only.
use vstd::prelude::*;
use crate::account::{accounts_view, Account, AccountView};
use crate::error::ProgramError;
use crate::gate::{gated_call, gated_call_spec, proof_view, VaultCall, VaultCallView, VaultInstruction};

verus! {

/// Number of accounts of a withdrawal request that comes with a proof; one
/// that comes without names the user's record as one more.
pub const ENQUEUE_WITHDRAWAL_ACCOUNTS: usize = 12;

/// The outcome of a withdrawal request. The accounts are, in order: vault
/// configuration, vault, withdrawal ticket, the ticket's token account,
/// staker, staker's share account, base, token program, system program,
/// configuration, whitelist, then the user's record where no proof was
/// sent, then the vault program. The staker is the user that must be
/// approved. The call names the accounts from the vault configuration to
/// the base, then the whitelist as the signer of the burn.
pub open spec fn enqueue_withdrawal_outcome(
    program_id: Seq<u8>,
    vault_program_id: Seq<u8>,
    accounts: Seq<AccountView>,
    proof: Option<Seq<Seq<u8>>>,
    vrt_amount: u64,
) -> Result<VaultCallView, ProgramError> {
    gated_call_spec(
        program_id,
        vault_program_id,
        accounts,
        proof,
        12,
        9,
        10,
        1,
        4,
        seq![0usize, 1usize, 2usize, 3usize, 4usize, 5usize, 6usize],
        VaultInstruction::EnqueueWithdrawal { amount: vrt_amount },
    )
}

/// Decides on a withdrawal request and, where the staker is approved, makes
/// the call to the vault program that the whitelist signs.
pub fn process_enqueue_withdrawal(
    program_id: &[u8; 32],
    vault_program_id: &[u8; 32],
    accounts: &[Account],
    proof: Option<Vec<[u8; 32]>>,
    vrt_amount: u64,
) -> (result: Result<VaultCall, ProgramError>)
    ensures
        match result {
            Ok(call) => enqueue_withdrawal_outcome(
                program_id@,
                vault_program_id@,
                accounts_view(accounts@),
                proof_view(proof),
                vrt_amount,
            ) == Ok::<VaultCallView, ProgramError>(call@),
            Err(e) => enqueue_withdrawal_outcome(
                program_id@,
                vault_program_id@,
                accounts_view(accounts@),
                proof_view(proof),
                vrt_amount,
            ) == Err::<VaultCallView, ProgramError>(e),
        },
{
    let called: [usize; 7] = [0, 1, 2, 3, 4, 5, 6];
    assert(called@ =~= seq![0usize, 1usize, 2usize, 3usize, 4usize, 5usize, 6usize]);
    gated_call(
        program_id,
        vault_program_id,
        accounts,
        &proof,
        ENQUEUE_WITHDRAWAL_ACCOUNTS,
        9,
        10,
        1,
        4,
        called.as_slice(),
        VaultInstruction::EnqueueWithdrawal { amount: vrt_amount },
    )
}

} // verus!
