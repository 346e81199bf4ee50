//! Approving one user explicitly.
use vstd::prelude::*;
use crate::account::{
    accounts_view, load_signer, load_signer_spec, load_system_account, load_system_account_spec,
    rewrite_account, rewritten, same_key, Account, AccountView,
};
use crate::config::Config;
use crate::error::{ProgramError, VaultWhitelistError};
use crate::gate::custom;
use crate::pda::derived_address;
use crate::record::{first_field, holds_record, record_data, zeros, RESERVED_SPACE_LEN};
use crate::vault::{check_vault_admin, check_vault_admin_spec};
use crate::whitelist::{Whitelist, WHITELIST_DISCRIMINATOR};
use crate::whitelist_user::{WhitelistUser, WHITELIST_USER_DISCRIMINATOR};

verus! {

/// The checks that adding and removing a user share. The accounts are, in
/// order: the configuration, the vault, the whitelist, the user's record,
/// the vault's administrator, the user, the system program. The vault
/// must be a vault whose recorded administrator is the one named, the
/// whitelist must be the vault's own record, and the administrator must
/// have signed, writably.
pub open spec fn membership_change_checks(
    program_id: Seq<u8>,
    vault_program_id: Seq<u8>,
    accounts: Seq<AccountView>,
) -> Result<(), ProgramError> {
    if accounts.len() != 7 {
        Err(ProgramError::NotEnoughAccountKeys)
    } else if Config::load_spec(program_id, accounts[0], false) is Err {
        Err(Config::load_spec(program_id, accounts[0], false)->Err_0)
    } else if check_vault_admin_spec(vault_program_id, accounts[1], accounts[4].key, false) is Err {
        Err(check_vault_admin_spec(vault_program_id, accounts[1], accounts[4].key, false)->Err_0)
    } else if Whitelist::load_spec(program_id, accounts[2], accounts[1].key, false) is Err {
        Err(Whitelist::load_spec(program_id, accounts[2], accounts[1].key, false)->Err_0)
    } else if !holds_record(WHITELIST_DISCRIMINATOR, accounts[2].data) {
        Err(ProgramError::InvalidAccountData)
    } else if first_field(accounts[2].data) != accounts[1].key {
        Err(custom(VaultWhitelistError::InvalidVault))
    } else {
        load_signer_spec(accounts[4], true)
    }
}

/// The outcome of approving a user. After the shared checks the record's
/// account must be unclaimed and writable, and stand at the address
/// derived from the whitelist and the user. It then becomes the program's,
/// and holds the whitelist, the user and the bump seed.
pub open spec fn add_to_whitelist_outcome(
    program_id: Seq<u8>,
    vault_program_id: Seq<u8>,
    accounts: Seq<AccountView>,
) -> Result<Seq<AccountView>, ProgramError> {
    if membership_change_checks(program_id, vault_program_id, accounts) is Err {
        Err(membership_change_checks(program_id, vault_program_id, accounts)->Err_0)
    } else if load_system_account_spec(accounts[3], true) is Err {
        Err(load_system_account_spec(accounts[3], true)->Err_0)
    } else {
        match derived_address(
            WhitelistUser::seeds_spec(accounts[2].key, accounts[5].key),
            program_id,
        ) {
            None => Err(ProgramError::InvalidSeeds),
            Some((address, bump)) => if address != accounts[3].key {
                Err(ProgramError::InvalidAccountData)
            } else {
                Ok(
                    accounts.update(
                        3,
                        rewritten(
                            accounts[3],
                            program_id,
                            record_data(
                                WHITELIST_USER_DISCRIMINATOR,
                                accounts[2].key,
                                accounts[5].key,
                                bump,
                                zeros(RESERVED_SPACE_LEN as nat),
                            ),
                        ),
                    ),
                )
            },
        }
    }
}

/// Runs the checks that adding and removing a user share.
pub fn check_membership_change(
    program_id: &[u8; 32],
    vault_program_id: &[u8; 32],
    accounts: &Vec<Account>,
) -> (result: Result<(), ProgramError>)
    ensures
        result == membership_change_checks(
            program_id@,
            vault_program_id@,
            accounts_view(accounts@),
        ),
{
    if accounts.len() != 7 {
        return Err(ProgramError::NotEnoughAccountKeys);
    }
    match Config::load(program_id, &accounts[0], false) {
        Err(e) => {
            return Err(e);
        },
        Ok(()) => {},
    }
    match check_vault_admin(vault_program_id, &accounts[1], &accounts[4].key, false) {
        Err(e) => {
            return Err(e);
        },
        Ok(()) => {},
    }
    match Whitelist::load(program_id, &accounts[2], &accounts[1].key, false) {
        Err(e) => {
            return Err(e);
        },
        Ok(()) => {},
    }
    let whitelist = match Whitelist::try_from_slice_unchecked(accounts[2].data.as_slice()) {
        Err(e) => {
            return Err(e);
        },
        Ok(whitelist) => whitelist,
    };
    match whitelist.check_vault(&accounts[1].key) {
        Err(e) => {
            return Err(ProgramError::from(e));
        },
        Ok(()) => {},
    }
    load_signer(&accounts[4], true)
}

/// Approves a user by creating the user's record. On refusal no account is
/// changed.
pub fn process_add_to_whitelist(
    program_id: &[u8; 32],
    vault_program_id: &[u8; 32],
    accounts: &mut Vec<Account>,
) -> (result: Result<(), ProgramError>)
    ensures
        match result {
            Ok(()) => add_to_whitelist_outcome(
                program_id@,
                vault_program_id@,
                accounts_view(old(accounts)@),
            ) == Ok::<Seq<AccountView>, ProgramError>(accounts_view(final(accounts)@)),
            Err(e) => add_to_whitelist_outcome(
                program_id@,
                vault_program_id@,
                accounts_view(old(accounts)@),
            ) == Err::<Seq<AccountView>, ProgramError>(e) && final(accounts)@ == old(accounts)@,
        },
{
    match check_membership_change(program_id, vault_program_id, accounts) {
        Err(e) => {
            return Err(e);
        },
        Ok(()) => {},
    }
    match load_system_account(&accounts[3], true) {
        Err(e) => {
            return Err(e);
        },
        Ok(()) => {},
    }
    let (address, bump) = match WhitelistUser::find_program_address(
        program_id,
        &accounts[2].key,
        &accounts[5].key,
    ) {
        None => {
            return Err(ProgramError::InvalidSeeds);
        },
        Some((address, bump, _)) => (address, bump),
    };
    if !same_key(&address, &accounts[3].key) {
        return Err(ProgramError::InvalidAccountData);
    }
    let record = WhitelistUser::new(accounts[2].key, accounts[5].key, bump);
    let data = record.to_account_data();
    proof {
        assert(record.reserved@ =~= zeros(RESERVED_SPACE_LEN as nat));
    }
    rewrite_account(accounts, 3, *program_id, data);
    Ok(())
}

} // verus!
