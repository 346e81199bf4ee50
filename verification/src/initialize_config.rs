//! Creating the deployment's configuration, once.
use vstd::prelude::*;
use crate::account::{
    accounts_view, load_signer, load_signer_spec, load_system_account, load_system_account_spec,
    load_system_program, load_system_program_spec, rewrite_account, rewritten, same_key, Account,
    AccountView,
};
use crate::config::{Config, CONFIG_DISCRIMINATOR};
use crate::error::ProgramError;
use crate::pda::derived_address;
use crate::record::{record_data, zeros, RESERVED_SPACE_LEN};

verus! {

/// The outcome of creating the configuration. The accounts are, in order:
/// the configuration, the administrator, the vault program, the system
/// program. The configuration's account must be unclaimed and writable,
/// the administrator must have signed, writably, and the account must
/// stand at the configuration's derived address. It then becomes the
/// program's, and holds the administrator, the vault program and the bump
/// seed.
pub open spec fn initialize_config_outcome(program_id: Seq<u8>, accounts: Seq<AccountView>) -> Result<
    Seq<AccountView>,
    ProgramError,
> {
    if accounts.len() != 4 {
        Err(ProgramError::NotEnoughAccountKeys)
    } else if load_system_account_spec(accounts[0], true) is Err {
        Err(load_system_account_spec(accounts[0], true)->Err_0)
    } else if load_signer_spec(accounts[1], true) is Err {
        Err(load_signer_spec(accounts[1], true)->Err_0)
    } else if load_system_program_spec(accounts[3]) is Err {
        Err(load_system_program_spec(accounts[3])->Err_0)
    } else {
        match derived_address(Config::seeds_spec(), program_id) {
            None => Err(ProgramError::InvalidSeeds),
            Some((address, bump)) => if address != accounts[0].key {
                Err(ProgramError::InvalidAccountData)
            } else {
                Ok(
                    accounts.update(
                        0,
                        rewritten(
                            accounts[0],
                            program_id,
                            record_data(
                                CONFIG_DISCRIMINATOR,
                                accounts[1].key,
                                accounts[2].key,
                                bump,
                                zeros(RESERVED_SPACE_LEN as nat),
                            ),
                        ),
                    ),
                )
            },
        }
    }
}

/// Creates the configuration. On refusal no account is changed.
pub fn process_initialize_config(program_id: &[u8; 32], accounts: &mut Vec<Account>) -> (result:
    Result<(), ProgramError>)
    ensures
        match result {
            Ok(()) => initialize_config_outcome(program_id@, accounts_view(old(accounts)@)) == Ok::<
                Seq<AccountView>,
                ProgramError,
            >(accounts_view(final(accounts)@)),
            Err(e) => initialize_config_outcome(program_id@, accounts_view(old(accounts)@))
                == Err::<Seq<AccountView>, ProgramError>(e) && final(accounts)@ == old(accounts)@,
        },
{
    if accounts.len() != 4 {
        return Err(ProgramError::NotEnoughAccountKeys);
    }
    match load_system_account(&accounts[0], true) {
        Err(e) => {
            return Err(e);
        },
        Ok(()) => {},
    }
    match load_signer(&accounts[1], true) {
        Err(e) => {
            return Err(e);
        },
        Ok(()) => {},
    }
    match load_system_program(&accounts[3]) {
        Err(e) => {
            return Err(e);
        },
        Ok(()) => {},
    }
    let (address, bump) = match Config::find_program_address(program_id) {
        None => {
            return Err(ProgramError::InvalidSeeds);
        },
        Some((address, bump, _)) => (address, bump),
    };
    if !same_key(&address, &accounts[0].key) {
        return Err(ProgramError::InvalidAccountData);
    }
    let config = Config::new(accounts[1].key, accounts[2].key, bump);
    let data = config.to_account_data();
    proof {
        assert(config.reserved@ =~= zeros(RESERVED_SPACE_LEN as nat));
    }
    rewrite_account(accounts, 0, *program_id, data);
    Ok(())
}

} // verus!
