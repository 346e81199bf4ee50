//! Rotating the root of a whitelist.
use vstd::prelude::*;
use crate::account::{
    accounts_view, load_signer, load_signer_spec, rewrite_account, rewritten, Account, AccountView,
};
use crate::config::Config;
use crate::error::ProgramError;
use crate::record::{bump_field, first_field, holds_record, record_data, reserved_field};
use crate::vault::{check_vault_admin, check_vault_admin_spec};
use crate::whitelist::{Whitelist, WHITELIST_DISCRIMINATOR};

verus! {

/// The storage of a whitelist after its root was replaced by `root`: every
/// other field as before.
pub open spec fn with_root(data: Seq<u8>, root: Seq<u8>) -> Seq<u8> {
    record_data(
        WHITELIST_DISCRIMINATOR,
        first_field(data),
        root,
        bump_field(data),
        reserved_field(data),
    )
}

/// The outcome of rotating the root to `meta_merkle_root`. The accounts
/// are, in order: the configuration, the vault, the whitelist, the vault's
/// administrator. The vault must be a vault whose recorded administrator
/// is the one named, the whitelist must be the vault's, and writable, and
/// the administrator must have signed, writably. The whitelist then holds
/// the new root and nothing of the old one.
pub open spec fn set_meta_merkle_root_outcome(
    program_id: Seq<u8>,
    vault_program_id: Seq<u8>,
    accounts: Seq<AccountView>,
    meta_merkle_root: Seq<u8>,
) -> Result<Seq<AccountView>, ProgramError> {
    if accounts.len() != 4 {
        Err(ProgramError::NotEnoughAccountKeys)
    } else if Config::load_spec(program_id, accounts[0], false) is Err {
        Err(Config::load_spec(program_id, accounts[0], false)->Err_0)
    } else if check_vault_admin_spec(vault_program_id, accounts[1], accounts[3].key, false) is Err {
        Err(check_vault_admin_spec(vault_program_id, accounts[1], accounts[3].key, false)->Err_0)
    } else if Whitelist::load_spec(program_id, accounts[2], accounts[1].key, true) is Err {
        Err(Whitelist::load_spec(program_id, accounts[2], accounts[1].key, true)->Err_0)
    } else if !holds_record(WHITELIST_DISCRIMINATOR, accounts[2].data) {
        Err(ProgramError::InvalidAccountData)
    } else if load_signer_spec(accounts[3], true) is Err {
        Err(load_signer_spec(accounts[3], true)->Err_0)
    } else {
        Ok(
            accounts.update(
                2,
                rewritten(
                    accounts[2],
                    accounts[2].owner,
                    with_root(accounts[2].data, meta_merkle_root),
                ),
            ),
        )
    }
}

/// Rotates the root of a whitelist. On refusal no account is changed.
pub fn process_set_meta_merkle_root(
    program_id: &[u8; 32],
    vault_program_id: &[u8; 32],
    accounts: &mut Vec<Account>,
    meta_merkle_root: &[u8; 32],
) -> (result: Result<(), ProgramError>)
    ensures
        match result {
            Ok(()) => set_meta_merkle_root_outcome(
                program_id@,
                vault_program_id@,
                accounts_view(old(accounts)@),
                meta_merkle_root@,
            ) == Ok::<Seq<AccountView>, ProgramError>(accounts_view(final(accounts)@)),
            Err(e) => set_meta_merkle_root_outcome(
                program_id@,
                vault_program_id@,
                accounts_view(old(accounts)@),
                meta_merkle_root@,
            ) == Err::<Seq<AccountView>, ProgramError>(e) && final(accounts)@ == old(accounts)@,
        },
{
    if accounts.len() != 4 {
        return Err(ProgramError::NotEnoughAccountKeys);
    }
    match Config::load(program_id, &accounts[0], false) {
        Err(e) => {
            return Err(e);
        },
        Ok(()) => {},
    }
    match check_vault_admin(vault_program_id, &accounts[1], &accounts[3].key, false) {
        Err(e) => {
            return Err(e);
        },
        Ok(()) => {},
    }
    match Whitelist::load(program_id, &accounts[2], &accounts[1].key, true) {
        Err(e) => {
            return Err(e);
        },
        Ok(()) => {},
    }
    let mut whitelist = match Whitelist::try_from_slice_unchecked(accounts[2].data.as_slice()) {
        Err(e) => {
            return Err(e);
        },
        Ok(whitelist) => whitelist,
    };
    match load_signer(&accounts[3], true) {
        Err(e) => {
            return Err(e);
        },
        Ok(()) => {},
    }
    whitelist.set_meta_merkle_root(meta_merkle_root);
    let data = whitelist.to_account_data();
    let owner = accounts[2].owner;
    rewrite_account(accounts, 2, owner, data);
    Ok(())
}

} // verus!
