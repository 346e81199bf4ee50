//! What the checks read of a ledger account, and the checks on accounts
//! that belong to no record of this program.
use vstd::prelude::*;
use crate::error::ProgramError;
use crate::hash::hash_eq;

verus! {

/// Address of the system program, the owner of every account that no
/// program has claimed: 32 zero bytes.
pub const SYSTEM_PROGRAM_ID: [u8; 32] = [
    0, 0, 0, 0, 0, 0, 0, 0, 0, 0, 0, 0, 0, 0, 0, 0, 0, 0, 0, 0, 0, 0, 0, 0, 0, 0, 0, 0, 0, 0, 0, 0,
];

/// An account as an operation sees it.
#[derive(Debug, Clone, PartialEq, Eq)]
pub struct Account {
    /// The account's address.
    pub key: [u8; 32],
    /// The program that owns the account.
    pub owner: [u8; 32],
    /// Whether the account signed the operation.
    pub is_signer: bool,
    /// Whether the operation may change the account.
    pub is_writable: bool,
    /// The account's storage.
    pub data: Vec<u8>,
}

/// The mathematical content of an account.
pub struct AccountView {
    pub key: Seq<u8>,
    pub owner: Seq<u8>,
    pub is_signer: bool,
    pub is_writable: bool,
    pub data: Seq<u8>,
}

impl View for Account {
    type V = AccountView;

    open spec fn view(&self) -> AccountView {
        AccountView {
            key: self.key@,
            owner: self.owner@,
            is_signer: self.is_signer,
            is_writable: self.is_writable,
            data: self.data@,
        }
    }
}

/// The contents of a list of accounts.
pub open spec fn accounts_view(accounts: Seq<Account>) -> Seq<AccountView> {
    Seq::new(accounts.len(), |i: int| accounts[i]@)
}

/// An account must have signed, and be writable where that is expected.
pub open spec fn load_signer_spec(info: AccountView, expect_writable: bool) -> Result<
    (),
    ProgramError,
> {
    if !info.is_signer {
        Err(ProgramError::MissingRequiredSignature)
    } else if expect_writable && !info.is_writable {
        Err(ProgramError::InvalidAccountData)
    } else {
        Ok(())
    }
}

/// An account must be the system program.
pub open spec fn load_system_program_spec(info: AccountView) -> Result<(), ProgramError> {
    if info.key != SYSTEM_PROGRAM_ID@ {
        Err(ProgramError::IncorrectProgramId)
    } else {
        Ok(())
    }
}

/// An account must be unclaimed: owned by the system program, without
/// storage, and writable where that is expected.
pub open spec fn load_system_account_spec(info: AccountView, is_writable: bool) -> Result<
    (),
    ProgramError,
> {
    if info.owner != SYSTEM_PROGRAM_ID@ {
        Err(ProgramError::InvalidAccountOwner)
    } else if info.data.len() != 0 {
        Err(ProgramError::AccountAlreadyInitialized)
    } else if is_writable && !info.is_writable {
        Err(ProgramError::InvalidAccountData)
    } else {
        Ok(())
    }
}

/// Tells whether two addresses are the same.
pub fn same_key(a: &[u8; 32], b: &[u8; 32]) -> (same: bool)
    ensures
        same == (a@ == b@),
        same == (*a == *b),
{
    let same = hash_eq(a, b);
    proof {
        if same {
            assert(*a =~= *b);
        }
    }
    same
}

/// Checks that an account signed, and is writable where expected.
pub fn load_signer(info: &Account, expect_writable: bool) -> (result: Result<(), ProgramError>)
    ensures
        result == load_signer_spec(info@, expect_writable),
{
    if !info.is_signer {
        return Err(ProgramError::MissingRequiredSignature);
    }
    if expect_writable && !info.is_writable {
        return Err(ProgramError::InvalidAccountData);
    }
    Ok(())
}

/// Checks that an account is the system program.
pub fn load_system_program(info: &Account) -> (result: Result<(), ProgramError>)
    ensures
        result == load_system_program_spec(info@),
{
    let system = SYSTEM_PROGRAM_ID;
    if !same_key(&info.key, &system) {
        return Err(ProgramError::IncorrectProgramId);
    }
    Ok(())
}

/// Checks that an account is unclaimed, and writable where expected.
pub fn load_system_account(info: &Account, is_writable: bool) -> (result: Result<
    (),
    ProgramError,
>)
    ensures
        result == load_system_account_spec(info@, is_writable),
{
    let system = SYSTEM_PROGRAM_ID;
    if !same_key(&info.owner, &system) {
        return Err(ProgramError::InvalidAccountOwner);
    }
    if info.data.len() != 0 {
        return Err(ProgramError::AccountAlreadyInitialized);
    }
    if is_writable && !info.is_writable {
        return Err(ProgramError::InvalidAccountData);
    }
    Ok(())
}

/// The account `account` with another owner and other storage.
pub open spec fn rewritten(account: AccountView, owner: Seq<u8>, data: Seq<u8>) -> AccountView {
    AccountView {
        key: account.key,
        owner,
        is_signer: account.is_signer,
        is_writable: account.is_writable,
        data,
    }
}

/// Gives the account at `index` another owner and other storage, and
/// leaves every other account as it is.
pub fn rewrite_account(accounts: &mut Vec<Account>, index: usize, owner: [u8; 32], data: Vec<u8>)
    requires
        index < old(accounts)@.len(),
    ensures
        accounts_view(final(accounts)@) == accounts_view(old(accounts)@).update(
            index as int,
            rewritten(old(accounts)@[index as int]@, owner@, data@),
        ),
{
    let key = accounts[index].key;
    let is_signer = accounts[index].is_signer;
    let is_writable = accounts[index].is_writable;
    accounts.set(index, Account { key, owner, is_signer, is_writable, data });
    assert(accounts_view(accounts@) =~= accounts_view(old(accounts)@).update(
        index as int,
        rewritten(old(accounts)@[index as int]@, owner@, data@),
    ));
}

} // verus!
