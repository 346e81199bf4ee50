//! Minting shares of a vault, for approved users only.
use vstd::prelude::*;
use crate::account::{accounts_view, Account, AccountView};
use crate::error::ProgramError;
use crate::gate::{gated_call, gated_call_spec, proof_view, VaultCall, VaultCallView, VaultInstruction};

verus! {

/// Number of accounts of a mint that comes with a proof; one that comes
/// without names the user's record as one more.
pub const MINT_ACCOUNTS: usize = 12;

/// The outcome of a mint. The accounts are, in order: configuration, vault
/// configuration, vault, share mint, depositor, depositor's token account,
/// vault's token account, depositor's share account, fee account,
/// whitelist, then the user's record where no proof was sent, then the
/// vault program and the token program. The depositor is the user that
/// must be approved. The call names the accounts from the vault
/// configuration to the fee account, then the whitelist as the signer of
/// the mint.
pub open spec fn mint_outcome(
    program_id: Seq<u8>,
    vault_program_id: Seq<u8>,
    accounts: Seq<AccountView>,
    proof: Option<Seq<Seq<u8>>>,
    amount_in: u64,
    min_amount_out: u64,
) -> Result<VaultCallView, ProgramError> {
    gated_call_spec(
        program_id,
        vault_program_id,
        accounts,
        proof,
        12,
        0,
        9,
        2,
        4,
        seq![1usize, 2usize, 3usize, 4usize, 5usize, 6usize, 7usize, 8usize],
        VaultInstruction::MintTo { amount_in, min_amount_out },
    )
}

/// Decides on a mint and, where the depositor is approved, makes the call
/// to the vault program that the whitelist signs.
pub fn process_mint(
    program_id: &[u8; 32],
    vault_program_id: &[u8; 32],
    accounts: &[Account],
    proof: Option<Vec<[u8; 32]>>,
    amount_in: u64,
    min_amount_out: u64,
) -> (result: Result<VaultCall, ProgramError>)
    ensures
        match result {
            Ok(call) => mint_outcome(
                program_id@,
                vault_program_id@,
                accounts_view(accounts@),
                proof_view(proof),
                amount_in,
                min_amount_out,
            ) == Ok::<VaultCallView, ProgramError>(call@),
            Err(e) => mint_outcome(
                program_id@,
                vault_program_id@,
                accounts_view(accounts@),
                proof_view(proof),
                amount_in,
                min_amount_out,
            ) == Err::<VaultCallView, ProgramError>(e),
        },
{
    let called: [usize; 8] = [1, 2, 3, 4, 5, 6, 7, 8];
    assert(called@ =~= seq![1usize, 2usize, 3usize, 4usize, 5usize, 6usize, 7usize, 8usize]);
    gated_call(
        program_id,
        vault_program_id,
        accounts,
        &proof,
        MINT_ACCOUNTS,
        0,
        9,
        2,
        4,
        called.as_slice(),
        VaultInstruction::MintTo { amount_in, min_amount_out },
    )
}

} // verus!
