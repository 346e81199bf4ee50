//! The vault that a whitelist protects, as far as this program reads it:
//! whether an account is a vault of the vault program, and who
//! administers it.
use jito_bytemuck::AccountDeserialize;
use solana_program::account_info::AccountInfo;
use solana_program::pubkey::Pubkey;
use vstd::prelude::*;
use crate::account::{same_key, Account, AccountView};
use crate::error::{ProgramError, VAULT_ADMIN_INVALID};
use crate::pda::{derived_address, seeds_view, try_find_program_address};
use crate::record::HEADER_LEN;

verus! {

/// The verdict of `Vault::load` of `jito_vault_core` on an account: nothing
/// where the account is a vault of the program `vault_program_id`, at the
/// address that the vault's own seeds derive, else the number of the
/// error.
pub uninterp spec fn vault_load_verdict(
    vault_program_id: Seq<u8>,
    key: Seq<u8>,
    owner: Seq<u8>,
    is_writable: bool,
    data: Seq<u8>,
    expect_writable: bool,
) -> Result<(), u64>;

/// The verdict of `Config::load` of `jito_vault_core` on an account:
/// nothing where the account is the configuration of the program
/// `vault_program_id` at its derived address, else the number of the
/// error.
pub uninterp spec fn vault_config_load_verdict(
    vault_program_id: Seq<u8>,
    key: Seq<u8>,
    owner: Seq<u8>,
    is_writable: bool,
    data: Seq<u8>,
    expect_writable: bool,
) -> Result<(), u64>;

/// The administrator that `jito_vault_core` reads from a vault's storage,
/// or the number of the error with which it refuses the storage.
pub uninterp spec fn vault_admin_of(data: Seq<u8>) -> Result<Seq<u8>, u64>;

/// Calls `Vault::load` of `jito_vault_core` on an account made of the given
/// parts. The verdict depends on the vault program's address, the
/// account's address, owner, writability and storage, and on whether
/// writability is expected. Storage of one to seven bytes is left out: the
/// outside function slices from the eighth byte on.
#[verifier::external_body]
pub(crate) fn vault_load(vault_program_id: &[u8; 32], account: &Account, expect_writable: bool) -> (verdict:
    Result<(), u64>)
    requires
        account.data@.len() == 0 || account.data@.len() >= HEADER_LEN,
    ensures
        verdict == vault_load_verdict(
            vault_program_id@,
            account.key@,
            account.owner@,
            account.is_writable,
            account.data@,
            expect_writable,
        ),
{
    let (key, owner) = (Pubkey::new_from_array(account.key), Pubkey::new_from_array(account.owner));
    let program = Pubkey::new_from_array(*vault_program_id);
    let (mut lamports, mut data) = (0u64, account.data.clone());
    let (signer, writable) = (account.is_signer, account.is_writable);
    let info = AccountInfo::new(&key, signer, writable, &mut lamports, &mut data, &owner, false, 0);
    jito_vault_core::vault::Vault::load(&program, &info, expect_writable).map_err(u64::from)
}

/// The seeds of the vault program's configuration: the ASCII bytes of
/// `config`.
pub open spec fn vault_config_seeds() -> Seq<Seq<u8>> {
    seq![seq![99u8, 111u8, 110u8, 102u8, 105u8, 103u8]]
}

/// Calls `Config::load` of `jito_vault_core` on an account made of the
/// given parts. The verdict depends on the vault program's address, the
/// account's address, owner, writability and storage, and on whether
/// writability is expected. A program for which no configuration address
/// can be derived is left out: the outside function does not return for
/// it.
#[verifier::external_body]
pub(crate) fn vault_config_load(
    vault_program_id: &[u8; 32],
    account: &Account,
    expect_writable: bool,
) -> (verdict: Result<(), u64>)
    requires
        derived_address(vault_config_seeds(), vault_program_id@) is Some,
    ensures
        verdict == vault_config_load_verdict(
            vault_program_id@,
            account.key@,
            account.owner@,
            account.is_writable,
            account.data@,
            expect_writable,
        ),
{
    let (key, owner) = (Pubkey::new_from_array(account.key), Pubkey::new_from_array(account.owner));
    let program = Pubkey::new_from_array(*vault_program_id);
    let (mut lamports, mut data) = (0u64, account.data.clone());
    let (signer, writable) = (account.is_signer, account.is_writable);
    let info = AccountInfo::new(&key, signer, writable, &mut lamports, &mut data, &owner, false, 0);
    jito_vault_core::config::Config::load(&program, &info, expect_writable).map_err(u64::from)
}

/// Calls `try_from_slice_unchecked`, which `jito_bytemuck` gives to the
/// `Vault` of `jito_vault_core`, and hands back the `admin` field of the
/// vault it finds. Storage of less than eight bytes is left out: the
/// outside function reads the first byte and slices from the eighth on.
#[verifier::external_body]
pub(crate) fn vault_admin(data: &[u8]) -> (admin: Result<[u8; 32], u64>)
    requires
        data@.len() >= HEADER_LEN,
    ensures
        match admin {
            Ok(key) => vault_admin_of(data@) == Ok::<Seq<u8>, u64>(key@),
            Err(code) => vault_admin_of(data@) == Err::<Seq<u8>, u64>(code),
        },
{
    jito_vault_core::vault::Vault::try_from_slice_unchecked(data).map(
        |vault| vault.admin.to_bytes(),
    ).map_err(u64::from)
}

/// Whether `admin` administers the vault, going by the administrator read
/// from the vault's storage: a reading that failed is reported by its
/// number, another administrator by the vault's own error.
pub open spec fn admin_verdict(recorded: Result<Seq<u8>, u64>, admin: Seq<u8>) -> Result<
    (),
    ProgramError,
> {
    match recorded {
        Err(code) => Err(ProgramError::of_code(code)),
        Ok(key) => if key != admin {
            Err(ProgramError::Custom(VAULT_ADMIN_INVALID))
        } else {
            Ok(())
        },
    }
}

/// The bytes of an administrator that was read.
pub open spec fn recorded_view(recorded: Result<[u8; 32], u64>) -> Result<Seq<u8>, u64> {
    match recorded {
        Ok(key) => Ok(key@),
        Err(code) => Err(code),
    }
}

/// What the checks learn of a vault account: whether it is a vault whose
/// recorded administrator is `admin`. Storage too short for a header is no
/// vault's.
pub open spec fn check_vault_admin_spec(
    vault_program_id: Seq<u8>,
    vault: AccountView,
    admin: Seq<u8>,
    expect_writable: bool,
) -> Result<(), ProgramError> {
    if 0 < vault.data.len() < HEADER_LEN {
        Err(ProgramError::InvalidAccountData)
    } else {
        match vault_load_verdict(
            vault_program_id,
            vault.key,
            vault.owner,
            vault.is_writable,
            vault.data,
            expect_writable,
        ) {
            Err(code) => Err(ProgramError::of_code(code)),
            Ok(()) => if vault.data.len() < HEADER_LEN {
                Err(ProgramError::InvalidAccountData)
            } else {
                admin_verdict(vault_admin_of(vault.data), admin)
            },
        }
    }
}

/// What the checks learn of the vault program's configuration account.
pub open spec fn check_vault_config_spec(
    vault_program_id: Seq<u8>,
    config: AccountView,
    expect_writable: bool,
) -> Result<(), ProgramError> {
    if derived_address(vault_config_seeds(), vault_program_id) is None {
        Err(ProgramError::InvalidSeeds)
    } else {
        vault_verdict(
            vault_config_load_verdict(
                vault_program_id,
                config.key,
                config.owner,
                config.is_writable,
                config.data,
                expect_writable,
            ),
        )
    }
}

/// A verdict of the vault's code, as this program reports it.
pub open spec fn vault_verdict(verdict: Result<(), u64>) -> Result<(), ProgramError> {
    match verdict {
        Ok(()) => Ok(()),
        Err(code) => Err(ProgramError::of_code(code)),
    }
}

/// Turns a verdict of the vault's code into this program's result.
pub fn report_verdict(verdict: Result<(), u64>) -> (result: Result<(), ProgramError>)
    ensures
        result == vault_verdict(verdict),
{
    match verdict {
        Ok(()) => Ok(()),
        Err(code) => Err(ProgramError::from_code(code)),
    }
}

/// Checks that `config` is the configuration of the vault program.
pub fn check_vault_config(vault_program_id: &[u8; 32], config: &Account, expect_writable: bool) -> (result:
    Result<(), ProgramError>)
    ensures
        result == check_vault_config_spec(vault_program_id@, config@, expect_writable),
{
    let name: Vec<u8> = vec![99u8, 111u8, 110u8, 102u8, 105u8, 103u8];
    let seeds: Vec<Vec<u8>> = vec![name];
    assert(seeds_view(seeds@) =~= vault_config_seeds()) by {
        assert(seeds@[0]@ =~= seq![99u8, 111u8, 110u8, 102u8, 105u8, 103u8]);
    }
    if try_find_program_address(&seeds, vault_program_id).is_none() {
        return Err(ProgramError::InvalidSeeds);
    }
    report_verdict(vault_config_load(vault_program_id, config, expect_writable))
}

/// Decides, from the administrator read from a vault's storage, whether
/// `admin` administers the vault.
pub fn check_admin(recorded: Result<[u8; 32], u64>, admin: &[u8; 32]) -> (result: Result<
    (),
    ProgramError,
>)
    ensures
        result == admin_verdict(recorded_view(recorded), admin@),
{
    match recorded {
        Err(code) => Err(ProgramError::from_code(code)),
        Ok(key) => {
            if !same_key(&key, admin) {
                Err(ProgramError::Custom(VAULT_ADMIN_INVALID))
            } else {
                Ok(())
            }
        },
    }
}

/// Checks that `vault` is a vault of the vault program and that `admin` is
/// its recorded administrator.
pub fn check_vault_admin(
    vault_program_id: &[u8; 32],
    vault: &Account,
    admin: &[u8; 32],
    expect_writable: bool,
) -> (result: Result<(), ProgramError>)
    ensures
        result == check_vault_admin_spec(vault_program_id@, vault@, admin@, expect_writable),
{
    let len = vault.data.len();
    if 0 < len && len < HEADER_LEN {
        return Err(ProgramError::InvalidAccountData);
    }
    match vault_load(vault_program_id, vault, expect_writable) {
        Err(code) => {
            return Err(ProgramError::from_code(code));
        },
        Ok(()) => {},
    }
    if len < HEADER_LEN {
        return Err(ProgramError::InvalidAccountData);
    }
    check_admin(vault_admin(vault.data.as_slice()), admin)
}

} // verus!
