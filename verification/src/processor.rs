//! The entry of the program: from the bytes of an operation to its
//! outcome.
use vstd::prelude::*;
use crate::account::{accounts_view, same_key, Account, AccountView};
use crate::add_to_whitelist::{add_to_whitelist_outcome, process_add_to_whitelist};
use crate::burn_withdrawal_ticket::{
    burn_withdrawal_ticket_outcome, process_burn_withdrawal_ticket,
};
use crate::close_whitelist::{close_whitelist_outcome, process_close_whitelist};
use crate::enqueue_withdrawal::{enqueue_withdrawal_outcome, process_enqueue_withdrawal};
use crate::error::ProgramError;
use crate::gate::{proof_view, VaultCall, VaultCallView};
use crate::initialize_config::{initialize_config_outcome, process_initialize_config};
use crate::initialize_whitelist::{initialize_whitelist_outcome, process_initialize_whitelist};
use crate::instruction::{well_formed, VaultWhitelistInstruction};
use crate::mint::{mint_outcome, process_mint};
use crate::remove_from_whitelist::{process_remove_from_whitelist, remove_from_whitelist_outcome};
use crate::set_meta_merkle_root::{process_set_meta_merkle_root, set_meta_merkle_root_outcome};
use crate::set_mint_burn_admin::{process_set_mint_burn_admin, set_mint_burn_admin_outcome};

verus! {

/// What an operation leaves behind: the accounts as they are afterwards,
/// and the call to the vault program that is to be made, where there is
/// one.
pub struct Outcome {
    pub accounts: Seq<AccountView>,
    pub call: Option<VaultCallView>,
}

/// An outcome that changes accounts and makes no call.
pub open spec fn changed(result: Result<Seq<AccountView>, ProgramError>) -> Result<
    Outcome,
    ProgramError,
> {
    match result {
        Ok(accounts) => Ok(Outcome { accounts, call: None }),
        Err(e) => Err(e),
    }
}

/// An outcome that makes a call and changes no account.
pub open spec fn forwarded(
    accounts: Seq<AccountView>,
    result: Result<VaultCallView, ProgramError>,
) -> Result<Outcome, ProgramError> {
    match result {
        Ok(call) => Ok(Outcome { accounts, call: Some(call) }),
        Err(e) => Err(e),
    }
}

/// The outcome of an operation on a list of accounts.
pub open spec fn dispatch_outcome(
    program_id: Seq<u8>,
    vault_program_id: Seq<u8>,
    accounts: Seq<AccountView>,
    instruction: VaultWhitelistInstruction,
) -> Result<Outcome, ProgramError> {
    match instruction {
        VaultWhitelistInstruction::InitializeConfig => changed(
            initialize_config_outcome(program_id, accounts),
        ),
        VaultWhitelistInstruction::InitializeWhitelist { meta_merkle_root } => changed(
            initialize_whitelist_outcome(program_id, vault_program_id, accounts, meta_merkle_root@),
        ),
        VaultWhitelistInstruction::SetMintBurnAdmin => forwarded(
            accounts,
            set_mint_burn_admin_outcome(program_id, vault_program_id, accounts),
        ),
        VaultWhitelistInstruction::SetMetaMerkleRoot { meta_merkle_root } => changed(
            set_meta_merkle_root_outcome(program_id, vault_program_id, accounts, meta_merkle_root@),
        ),
        VaultWhitelistInstruction::AddToWhitelist => changed(
            add_to_whitelist_outcome(program_id, vault_program_id, accounts),
        ),
        VaultWhitelistInstruction::RemoveFromWhitelist => changed(
            remove_from_whitelist_outcome(program_id, vault_program_id, accounts),
        ),
        VaultWhitelistInstruction::Mint { proof: presented, amount_in, min_amount_out } => forwarded(
            accounts,
            mint_outcome(
                program_id,
                vault_program_id,
                accounts,
                proof_view(presented),
                amount_in,
                min_amount_out,
            ),
        ),
        VaultWhitelistInstruction::EnqueueWithdrawal { proof: presented, amount } => forwarded(
            accounts,
            enqueue_withdrawal_outcome(
                program_id,
                vault_program_id,
                accounts,
                proof_view(presented),
                amount,
            ),
        ),
        VaultWhitelistInstruction::BurnWithdrawalTicket { proof: presented } => forwarded(
            accounts,
            burn_withdrawal_ticket_outcome(
                program_id,
                vault_program_id,
                accounts,
                proof_view(presented),
            ),
        ),
        VaultWhitelistInstruction::CloseWhitelist => match close_whitelist_outcome(
            program_id,
            vault_program_id,
            accounts,
        ) {
            Ok((after, call)) => Ok(Outcome { accounts: after, call: Some(call) }),
            Err(e) => Err(e),
        },
    }
}

/// Whether what a run handed back and left behind is the outcome
/// `expected`: the same error and no account changed, or the same
/// accounts and the same call.
pub open spec fn is_outcome(
    expected: Result<Outcome, ProgramError>,
    result: Result<Option<VaultCall>, ProgramError>,
    before: Seq<Account>,
    after: Seq<Account>,
) -> bool {
    match result {
        Err(e) => expected == Err::<Outcome, ProgramError>(e) && after == before,
        Ok(call) => expected == Ok::<Outcome, ProgramError>(
            Outcome {
                accounts: accounts_view(after),
                call: match call {
                    Some(made) => Some(made@),
                    None => None,
                },
            },
        ),
    }
}

/// Performs one operation on the accounts. On refusal no account is
/// changed.
pub fn dispatch(
    program_id: &[u8; 32],
    vault_program_id: &[u8; 32],
    accounts: &mut Vec<Account>,
    instruction: VaultWhitelistInstruction,
) -> (result: Result<Option<VaultCall>, ProgramError>)
    ensures
        is_outcome(
            dispatch_outcome(
                program_id@,
                vault_program_id@,
                accounts_view(old(accounts)@),
                instruction,
            ),
            result,
            old(accounts)@,
            final(accounts)@,
        ),
{
    match instruction {
        VaultWhitelistInstruction::InitializeConfig => {
            match process_initialize_config(program_id, accounts) {
                Ok(()) => Ok(None),
                Err(e) => Err(e),
            }
        },
        VaultWhitelistInstruction::InitializeWhitelist { meta_merkle_root } => {
            match process_initialize_whitelist(
                program_id,
                vault_program_id,
                accounts,
                &meta_merkle_root,
            ) {
                Ok(()) => Ok(None),
                Err(e) => Err(e),
            }
        },
        VaultWhitelistInstruction::SetMintBurnAdmin => {
            match process_set_mint_burn_admin(program_id, vault_program_id, accounts.as_slice()) {
                Ok(call) => Ok(Some(call)),
                Err(e) => Err(e),
            }
        },
        VaultWhitelistInstruction::SetMetaMerkleRoot { meta_merkle_root } => {
            match process_set_meta_merkle_root(
                program_id,
                vault_program_id,
                accounts,
                &meta_merkle_root,
            ) {
                Ok(()) => Ok(None),
                Err(e) => Err(e),
            }
        },
        VaultWhitelistInstruction::AddToWhitelist => {
            match process_add_to_whitelist(program_id, vault_program_id, accounts) {
                Ok(()) => Ok(None),
                Err(e) => Err(e),
            }
        },
        VaultWhitelistInstruction::RemoveFromWhitelist => {
            match process_remove_from_whitelist(program_id, vault_program_id, accounts) {
                Ok(()) => Ok(None),
                Err(e) => Err(e),
            }
        },
        VaultWhitelistInstruction::Mint { proof: presented, amount_in, min_amount_out } => {
            match process_mint(
                program_id,
                vault_program_id,
                accounts.as_slice(),
                presented,
                amount_in,
                min_amount_out,
            ) {
                Ok(call) => Ok(Some(call)),
                Err(e) => Err(e),
            }
        },
        VaultWhitelistInstruction::EnqueueWithdrawal { proof: presented, amount } => {
            match process_enqueue_withdrawal(
                program_id,
                vault_program_id,
                accounts.as_slice(),
                presented,
                amount,
            ) {
                Ok(call) => Ok(Some(call)),
                Err(e) => Err(e),
            }
        },
        VaultWhitelistInstruction::BurnWithdrawalTicket { proof: presented } => {
            match process_burn_withdrawal_ticket(
                program_id,
                vault_program_id,
                accounts.as_slice(),
                presented,
            ) {
                Ok(call) => Ok(Some(call)),
                Err(e) => Err(e),
            }
        },
        VaultWhitelistInstruction::CloseWhitelist => {
            match process_close_whitelist(program_id, vault_program_id, accounts) {
                Ok(call) => Ok(Some(call)),
                Err(e) => Err(e),
            }
        },
    }
}

/// The two addresses that a deployment is made with.
#[derive(Debug, Clone, Copy, PartialEq, Eq)]
pub struct Deployment {
    /// The address of this program.
    pub program_id: [u8; 32],
    /// The address of the vault program that operations are forwarded to.
    pub vault_program_id: [u8; 32],
}

/// Performs the operation that `instruction_data` encodes. A call under
/// another address than the deployment's is refused, and so are bytes that
/// encode no operation. On refusal no account is changed.
pub fn process_instruction(
    deployment: &Deployment,
    program_id: &[u8; 32],
    accounts: &mut Vec<Account>,
    instruction_data: &[u8],
) -> (result: Result<Option<VaultCall>, ProgramError>)
    ensures
        program_id@ != deployment.program_id@ ==> result == Err::<
            Option<VaultCall>,
            ProgramError,
        >(ProgramError::IncorrectProgramId) && final(accounts)@ == old(accounts)@,
        program_id@ == deployment.program_id@ && !well_formed(instruction_data@) ==> result
            == Err::<Option<VaultCall>, ProgramError>(ProgramError::BorshIoError)
            && final(accounts)@ == old(accounts)@,
        program_id@ == deployment.program_id@ && well_formed(instruction_data@) ==> exists|
            instruction: VaultWhitelistInstruction,
        |
            instruction.encoded() == instruction_data@ && instruction.fits() && is_outcome(
                dispatch_outcome(
                    program_id@,
                    deployment.vault_program_id@,
                    accounts_view(old(accounts)@),
                    instruction,
                ),
                result,
                old(accounts)@,
                final(accounts)@,
            ),
{
    if !same_key(program_id, &deployment.program_id) {
        return Err(ProgramError::IncorrectProgramId);
    }
    let instruction = match VaultWhitelistInstruction::try_from_slice(instruction_data) {
        Err(e) => {
            return Err(e);
        },
        Ok(instruction) => instruction,
    };
    let ghost decoded = instruction;
    let result = dispatch(program_id, &deployment.vault_program_id, accounts, instruction);
    proof {
        assert(decoded.encoded() == instruction_data@ && decoded.fits() && is_outcome(
            dispatch_outcome(
                program_id@,
                deployment.vault_program_id@,
                accounts_view(old(accounts)@),
                decoded,
            ),
            result,
            old(accounts)@,
            accounts@,
        ));
    }
    result
}

} // verus!
