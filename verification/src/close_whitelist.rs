//! Closing the whitelist of a vault, for good.
use vstd::prelude::*;
use crate::account::{
    accounts_view, load_signer, load_signer_spec, rewrite_account, rewritten, Account,
    AccountView, SYSTEM_PROGRAM_ID,
};
use crate::config::Config;
use crate::error::ProgramError;
use crate::gate::{admin_call, admin_call_spec, VaultCall, VaultCallView};
use crate::vault::{check_vault_admin, check_vault_admin_spec};
use crate::whitelist::Whitelist;

verus! {

/// The outcome of closing a whitelist. The accounts are, in order: the
/// configuration, the vault program's configuration, the whitelist, the
/// vault, the vault's administrator, the vault program, the system
/// program. The whitelist must be the vault's, and writable, the vault
/// must be a vault whose recorded administrator is the one named, and the
/// administrator must have signed, writably. The call then takes the
/// minting and burning from the whitelist by naming the all-zero address,
/// and the whitelist gives up its storage. Its account stays the
/// program's: no whitelist can be created at its address again.
pub open spec fn close_whitelist_outcome(
    program_id: Seq<u8>,
    vault_program_id: Seq<u8>,
    accounts: Seq<AccountView>,
) -> Result<(Seq<AccountView>, VaultCallView), ProgramError> {
    if accounts.len() != 7 {
        Err(ProgramError::NotEnoughAccountKeys)
    } else if Config::load_spec(program_id, accounts[0], false) is Err {
        Err(Config::load_spec(program_id, accounts[0], false)->Err_0)
    } else if Whitelist::load_spec(program_id, accounts[2], accounts[3].key, true) is Err {
        Err(Whitelist::load_spec(program_id, accounts[2], accounts[3].key, true)->Err_0)
    } else if check_vault_admin_spec(vault_program_id, accounts[3], accounts[4].key, false) is Err {
        Err(check_vault_admin_spec(vault_program_id, accounts[3], accounts[4].key, false)->Err_0)
    } else if load_signer_spec(accounts[4], true) is Err {
        Err(load_signer_spec(accounts[4], true)->Err_0)
    } else {
        Ok(
            (
                accounts.update(2, rewritten(accounts[2], accounts[2].owner, Seq::empty())),
                admin_call_spec(
                    accounts[5].key,
                    accounts[1].key,
                    accounts[3].key,
                    accounts[4].key,
                    SYSTEM_PROGRAM_ID@,
                ),
            ),
        )
    }
}

/// Closes a whitelist and makes the call that takes the vault's minting
/// and burning from it. On refusal no account is changed.
pub fn process_close_whitelist(
    program_id: &[u8; 32],
    vault_program_id: &[u8; 32],
    accounts: &mut Vec<Account>,
) -> (result: Result<VaultCall, ProgramError>)
    ensures
        match result {
            Ok(call) => close_whitelist_outcome(
                program_id@,
                vault_program_id@,
                accounts_view(old(accounts)@),
            ) == Ok::<(Seq<AccountView>, VaultCallView), ProgramError>(
                (accounts_view(final(accounts)@), call@),
            ),
            Err(e) => close_whitelist_outcome(
                program_id@,
                vault_program_id@,
                accounts_view(old(accounts)@),
            ) == Err::<(Seq<AccountView>, VaultCallView), ProgramError>(e) && final(accounts)@
                == old(accounts)@,
        },
{
    if accounts.len() != 7 {
        return Err(ProgramError::NotEnoughAccountKeys);
    }
    match Config::load(program_id, &accounts[0], false) {
        Err(e) => {
            return Err(e);
        },
        Ok(()) => {},
    }
    match Whitelist::load(program_id, &accounts[2], &accounts[3].key, true) {
        Err(e) => {
            return Err(e);
        },
        Ok(()) => {},
    }
    match check_vault_admin(vault_program_id, &accounts[3], &accounts[4].key, false) {
        Err(e) => {
            return Err(e);
        },
        Ok(()) => {},
    }
    match load_signer(&accounts[4], true) {
        Err(e) => {
            return Err(e);
        },
        Ok(()) => {},
    }
    let new_admin = SYSTEM_PROGRAM_ID;
    let call = admin_call(
        &accounts[5].key,
        &accounts[1].key,
        &accounts[3].key,
        &accounts[4].key,
        &new_admin,
    );
    let owner = accounts[2].owner;
    let data: Vec<u8> = Vec::new();
    assert(data@ =~= Seq::<u8>::empty());
    rewrite_account(accounts, 2, owner, data);
    Ok(call)
}

} // verus!
