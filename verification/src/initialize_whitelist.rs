//! Creating the whitelist of a vault, once.
use vstd::prelude::*;
use crate::account::{
    accounts_view, load_signer, load_signer_spec, load_system_account, load_system_account_spec,
    load_system_program, load_system_program_spec, rewrite_account, rewritten, same_key, Account,
    AccountView,
};
use crate::config::Config;
use crate::error::ProgramError;
use crate::pda::derived_address;
use crate::record::{record_data, zeros, RESERVED_SPACE_LEN};
use crate::vault::{check_vault_admin, check_vault_admin_spec};
use crate::whitelist::{Whitelist, WHITELIST_DISCRIMINATOR};

verus! {

/// The outcome of creating a whitelist with the root `meta_merkle_root`.
/// The accounts are, in order: the configuration, the whitelist, the
/// vault, the vault's administrator, the system program. The
/// configuration must exist, the whitelist's account must be unclaimed and
/// writable, the vault must be a vault whose recorded administrator is the
/// one named, who must have signed, writably, and the whitelist's account
/// must stand at the address derived from the vault. It then becomes the
/// program's, and holds the vault, the root and the bump seed.
pub open spec fn initialize_whitelist_outcome(
    program_id: Seq<u8>,
    vault_program_id: Seq<u8>,
    accounts: Seq<AccountView>,
    meta_merkle_root: Seq<u8>,
) -> Result<Seq<AccountView>, ProgramError> {
    if accounts.len() != 5 {
        Err(ProgramError::NotEnoughAccountKeys)
    } else if Config::load_spec(program_id, accounts[0], false) is Err {
        Err(Config::load_spec(program_id, accounts[0], false)->Err_0)
    } else if load_system_account_spec(accounts[1], true) is Err {
        Err(load_system_account_spec(accounts[1], true)->Err_0)
    } else if check_vault_admin_spec(vault_program_id, accounts[2], accounts[3].key, false) is Err {
        Err(check_vault_admin_spec(vault_program_id, accounts[2], accounts[3].key, false)->Err_0)
    } else if load_signer_spec(accounts[3], true) is Err {
        Err(load_signer_spec(accounts[3], true)->Err_0)
    } else if load_system_program_spec(accounts[4]) is Err {
        Err(load_system_program_spec(accounts[4])->Err_0)
    } else {
        match derived_address(Whitelist::seeds_spec(accounts[2].key), program_id) {
            None => Err(ProgramError::InvalidSeeds),
            Some((address, bump)) => if address != accounts[1].key {
                Err(ProgramError::InvalidAccountData)
            } else {
                Ok(
                    accounts.update(
                        1,
                        rewritten(
                            accounts[1],
                            program_id,
                            record_data(
                                WHITELIST_DISCRIMINATOR,
                                accounts[2].key,
                                meta_merkle_root,
                                bump,
                                zeros(RESERVED_SPACE_LEN as nat),
                            ),
                        ),
                    ),
                )
            },
        }
    }
}

/// Creates the whitelist of a vault. On refusal no account is changed.
pub fn process_initialize_whitelist(
    program_id: &[u8; 32],
    vault_program_id: &[u8; 32],
    accounts: &mut Vec<Account>,
    meta_merkle_root: &[u8; 32],
) -> (result: Result<(), ProgramError>)
    ensures
        match result {
            Ok(()) => initialize_whitelist_outcome(
                program_id@,
                vault_program_id@,
                accounts_view(old(accounts)@),
                meta_merkle_root@,
            ) == Ok::<Seq<AccountView>, ProgramError>(accounts_view(final(accounts)@)),
            Err(e) => initialize_whitelist_outcome(
                program_id@,
                vault_program_id@,
                accounts_view(old(accounts)@),
                meta_merkle_root@,
            ) == Err::<Seq<AccountView>, ProgramError>(e) && final(accounts)@ == old(accounts)@,
        },
{
    if accounts.len() != 5 {
        return Err(ProgramError::NotEnoughAccountKeys);
    }
    match Config::load(program_id, &accounts[0], false) {
        Err(e) => {
            return Err(e);
        },
        Ok(()) => {},
    }
    match load_system_account(&accounts[1], true) {
        Err(e) => {
            return Err(e);
        },
        Ok(()) => {},
    }
    match check_vault_admin(vault_program_id, &accounts[2], &accounts[3].key, false) {
        Err(e) => {
            return Err(e);
        },
        Ok(()) => {},
    }
    match load_signer(&accounts[3], true) {
        Err(e) => {
            return Err(e);
        },
        Ok(()) => {},
    }
    match load_system_program(&accounts[4]) {
        Err(e) => {
            return Err(e);
        },
        Ok(()) => {},
    }
    let (address, bump) = match Whitelist::find_program_address(program_id, &accounts[2].key) {
        None => {
            return Err(ProgramError::InvalidSeeds);
        },
        Some((address, bump, _)) => (address, bump),
    };
    if !same_key(&address, &accounts[1].key) {
        return Err(ProgramError::InvalidAccountData);
    }
    let whitelist = Whitelist::new(accounts[2].key, *meta_merkle_root, bump);
    let data = whitelist.to_account_data();
    proof {
        assert(whitelist.reserved@ =~= zeros(RESERVED_SPACE_LEN as nat));
    }
    rewrite_account(accounts, 1, *program_id, data);
    Ok(())
}

} // verus!
