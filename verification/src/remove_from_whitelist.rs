//! Withdrawing the explicit approval of one user.
use vstd::prelude::*;
use crate::account::{
    accounts_view, load_system_program, load_system_program_spec, rewrite_account, rewritten,
    Account, AccountView, SYSTEM_PROGRAM_ID,
};
use crate::add_to_whitelist::{check_membership_change, membership_change_checks};
use crate::error::{ProgramError, VaultWhitelistError};
use crate::gate::custom;
use crate::record::{first_field, holds_record, second_field};
use crate::whitelist_user::{WhitelistUser, WHITELIST_USER_DISCRIMINATOR};

verus! {

/// The outcome of removing a user. After the checks shared with adding,
/// the system program must be the one named, and the record must be the
/// user's own record under this whitelist, and writable. Its account then
/// goes back to the system program, without storage: the user may be
/// approved anew.
pub open spec fn remove_from_whitelist_outcome(
    program_id: Seq<u8>,
    vault_program_id: Seq<u8>,
    accounts: Seq<AccountView>,
) -> Result<Seq<AccountView>, ProgramError> {
    if membership_change_checks(program_id, vault_program_id, accounts) is Err {
        Err(membership_change_checks(program_id, vault_program_id, accounts)->Err_0)
    } else if load_system_program_spec(accounts[6]) is Err {
        Err(load_system_program_spec(accounts[6])->Err_0)
    } else if WhitelistUser::load_spec(
        program_id,
        accounts[3],
        accounts[2].key,
        accounts[5].key,
        true,
    ) is Err {
        Err(
            WhitelistUser::load_spec(
                program_id,
                accounts[3],
                accounts[2].key,
                accounts[5].key,
                true,
            )->Err_0,
        )
    } else if !holds_record(WHITELIST_USER_DISCRIMINATOR, accounts[3].data) {
        Err(ProgramError::InvalidAccountData)
    } else if first_field(accounts[3].data) != accounts[2].key {
        Err(custom(VaultWhitelistError::InvalidWhitelist))
    } else if second_field(accounts[3].data) != accounts[5].key {
        Err(custom(VaultWhitelistError::InvalidWhitelistUser))
    } else {
        Ok(accounts.update(3, rewritten(accounts[3], SYSTEM_PROGRAM_ID@, Seq::empty())))
    }
}

/// Removes a user by giving up the user's record. On refusal no account is
/// changed.
pub fn process_remove_from_whitelist(
    program_id: &[u8; 32],
    vault_program_id: &[u8; 32],
    accounts: &mut Vec<Account>,
) -> (result: Result<(), ProgramError>)
    ensures
        match result {
            Ok(()) => remove_from_whitelist_outcome(
                program_id@,
                vault_program_id@,
                accounts_view(old(accounts)@),
            ) == Ok::<Seq<AccountView>, ProgramError>(accounts_view(final(accounts)@)),
            Err(e) => remove_from_whitelist_outcome(
                program_id@,
                vault_program_id@,
                accounts_view(old(accounts)@),
            ) == Err::<Seq<AccountView>, ProgramError>(e) && final(accounts)@ == old(accounts)@,
        },
{
    match check_membership_change(program_id, vault_program_id, accounts) {
        Err(e) => {
            return Err(e);
        },
        Ok(()) => {},
    }
    match load_system_program(&accounts[6]) {
        Err(e) => {
            return Err(e);
        },
        Ok(()) => {},
    }
    match WhitelistUser::load(
        program_id,
        &accounts[3],
        &accounts[2].key,
        &accounts[5].key,
        true,
    ) {
        Err(e) => {
            return Err(e);
        },
        Ok(()) => {},
    }
    let record = match WhitelistUser::try_from_slice_unchecked(accounts[3].data.as_slice()) {
        Err(e) => {
            return Err(e);
        },
        Ok(record) => record,
    };
    match record.check_whitelist(&accounts[2].key) {
        Err(e) => {
            return Err(ProgramError::from(e));
        },
        Ok(()) => {},
    }
    match record.check_user(&accounts[5].key) {
        Err(e) => {
            return Err(ProgramError::from(e));
        },
        Ok(()) => {},
    }
    let data: Vec<u8> = Vec::new();
    assert(data@ =~= Seq::<u8>::empty());
    rewrite_account(accounts, 3, SYSTEM_PROGRAM_ID, data);
    Ok(())
}

} // verus!
