//! Making a whitelist the account that may mint and burn a vault's shares.
use vstd::prelude::*;
use crate::account::{accounts_view, load_signer, load_signer_spec, Account, AccountView};
use crate::config::Config;
use crate::error::ProgramError;
use crate::gate::{admin_call, admin_call_spec, VaultCall, VaultCallView};
use crate::vault::{
    check_vault_admin, check_vault_admin_spec, check_vault_config, check_vault_config_spec,
};
use crate::whitelist::Whitelist;

verus! {

/// The outcome of handing the vault's minting and burning to its
/// whitelist. The accounts are, in order: the configuration, the vault
/// program's configuration, the whitelist, the vault, the vault's
/// administrator, the vault program. Both configurations and the
/// whitelist must be what they are named as, the vault must be a writable
/// vault whose recorded administrator is the one named, and the
/// administrator must have signed. The call then names the whitelist.
pub open spec fn set_mint_burn_admin_outcome(
    program_id: Seq<u8>,
    vault_program_id: Seq<u8>,
    accounts: Seq<AccountView>,
) -> Result<VaultCallView, ProgramError> {
    if accounts.len() != 6 {
        Err(ProgramError::NotEnoughAccountKeys)
    } else if Config::load_spec(program_id, accounts[0], false) is Err {
        Err(Config::load_spec(program_id, accounts[0], false)->Err_0)
    } else if check_vault_config_spec(vault_program_id, accounts[1], false) is Err {
        Err(check_vault_config_spec(vault_program_id, accounts[1], false)->Err_0)
    } else if Whitelist::load_spec(program_id, accounts[2], accounts[3].key, false) is Err {
        Err(Whitelist::load_spec(program_id, accounts[2], accounts[3].key, false)->Err_0)
    } else if check_vault_admin_spec(vault_program_id, accounts[3], accounts[4].key, true) is Err {
        Err(check_vault_admin_spec(vault_program_id, accounts[3], accounts[4].key, true)->Err_0)
    } else if load_signer_spec(accounts[4], false) is Err {
        Err(load_signer_spec(accounts[4], false)->Err_0)
    } else {
        Ok(
            admin_call_spec(
                accounts[5].key,
                accounts[1].key,
                accounts[3].key,
                accounts[4].key,
                accounts[2].key,
            ),
        )
    }
}

/// Decides on handing the vault's minting and burning to its whitelist,
/// and makes the call to the vault program.
pub fn process_set_mint_burn_admin(
    program_id: &[u8; 32],
    vault_program_id: &[u8; 32],
    accounts: &[Account],
) -> (result: Result<VaultCall, ProgramError>)
    ensures
        match result {
            Ok(call) => set_mint_burn_admin_outcome(
                program_id@,
                vault_program_id@,
                accounts_view(accounts@),
            ) == Ok::<VaultCallView, ProgramError>(call@),
            Err(e) => set_mint_burn_admin_outcome(
                program_id@,
                vault_program_id@,
                accounts_view(accounts@),
            ) == Err::<VaultCallView, ProgramError>(e),
        },
{
    if accounts.len() != 6 {
        return Err(ProgramError::NotEnoughAccountKeys);
    }
    match Config::load(program_id, &accounts[0], false) {
        Err(e) => {
            return Err(e);
        },
        Ok(()) => {},
    }
    match check_vault_config(vault_program_id, &accounts[1], false) {
        Err(e) => {
            return Err(e);
        },
        Ok(()) => {},
    }
    match Whitelist::load(program_id, &accounts[2], &accounts[3].key, false) {
        Err(e) => {
            return Err(e);
        },
        Ok(()) => {},
    }
    match check_vault_admin(vault_program_id, &accounts[3], &accounts[4].key, true) {
        Err(e) => {
            return Err(e);
        },
        Ok(()) => {},
    }
    match load_signer(&accounts[4], false) {
        Err(e) => {
            return Err(e);
        },
        Ok(()) => {},
    }
    Ok(
        admin_call(
            &accounts[5].key,
            &accounts[1].key,
            &accounts[3].key,
            &accounts[4].key,
            &accounts[2].key,
        ),
    )
}

} // verus!
