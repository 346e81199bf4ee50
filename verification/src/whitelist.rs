//! The whitelist of one vault: the root that commits to its approved
//! users.
use vstd::prelude::*;
use crate::account::{same_key, Account};
use crate::error::{ProgramError, VaultWhitelistError};
use crate::pda::{derived_address, seeds_view, try_find_program_address};
use crate::record::{
    decode_record, encode_record, fields_of, holds_record, key_bytes, load_record,
    load_record_spec, record_bytes, RecordFields,
};

verus! {

/// Tag of a whitelist record.
pub const WHITELIST_DISCRIMINATOR: u8 = 1;

/// The whitelist of a vault.
#[derive(Debug, Clone, Copy, PartialEq, Eq)]
pub struct Whitelist {
    /// The vault that the whitelist protects.
    pub vault: [u8; 32],
    /// The root of the tree over the approved users.
    pub meta_merkle_root: [u8; 32],
    /// The bump seed of the record's address.
    pub bump: u8,
    /// Room for later fields.
    pub reserved: [u8; 263],
}

impl Whitelist {
    /// The seeds of the address of the whitelist of `vault`: the ASCII
    /// bytes of `whitelist`, then the vault's address.
    pub open spec fn seeds_spec(vault: Seq<u8>) -> Seq<Seq<u8>> {
        seq![seq![119u8, 104u8, 105u8, 116u8, 101u8, 108u8, 105u8, 115u8, 116u8], vault]
    }

    /// The record's fields in the order of its storage.
    pub open spec fn fields(self) -> RecordFields {
        RecordFields {
            first: self.vault,
            second: self.meta_merkle_root,
            bump: self.bump,
            reserved: self.reserved,
        }
    }

    /// The storage of the record.
    pub open spec fn bytes(self) -> Seq<u8> {
        record_bytes(WHITELIST_DISCRIMINATOR, self.fields())
    }

    /// Whether the storage `data` holds this record.
    pub open spec fn stored_in(self, data: Seq<u8>) -> bool {
        holds_record(WHITELIST_DISCRIMINATOR, data) && fields_of(data, self.fields())
    }

    /// The checks on the account that is to hold the whitelist of `vault`.
    pub open spec fn load_spec(
        program_id: Seq<u8>,
        account: crate::account::AccountView,
        vault: Seq<u8>,
        expect_writable: bool,
    ) -> Result<(), ProgramError> {
        load_record_spec(
            program_id,
            account,
            expect_writable,
            WHITELIST_DISCRIMINATOR,
            Self::seeds_spec(vault),
        )
    }

    /// A whitelist with nothing in its reserved bytes.
    pub fn new(vault: [u8; 32], meta_merkle_root: [u8; 32], bump: u8) -> (whitelist: Self)
        ensures
            whitelist.vault == vault,
            whitelist.meta_merkle_root == meta_merkle_root,
            whitelist.bump == bump,
            forall|i: int| 0 <= i < 263 ==> whitelist.reserved@[i] == 0u8,
    {
        Self { vault, meta_merkle_root, bump, reserved: [0u8; 263] }
    }

    /// Refuses a vault other than the one that the whitelist protects.
    pub fn check_vault(&self, vault: &[u8; 32]) -> (result: Result<(), VaultWhitelistError>)
        ensures
            result == (if self.vault@ == vault@ {
                Ok::<(), VaultWhitelistError>(())
            } else {
                Err(VaultWhitelistError::InvalidVault)
            }),
    {
        if !same_key(&self.vault, vault) {
            return Err(VaultWhitelistError::InvalidVault);
        }
        Ok(())
    }

    /// Replaces the root. Nothing of the old root is kept.
    pub fn set_meta_merkle_root(&mut self, meta_merkle_root: &[u8; 32])
        ensures
            final(self).meta_merkle_root == *meta_merkle_root,
            final(self).vault == old(self).vault,
            final(self).bump == old(self).bump,
            final(self).reserved == old(self).reserved,
    {
        self.meta_merkle_root = *meta_merkle_root;
    }

    /// The seeds of the address of the whitelist of `vault`.
    pub fn seeds(vault: &[u8; 32]) -> (seeds: Vec<Vec<u8>>)
        ensures
            seeds_view(seeds@) == Self::seeds_spec(vault@),
    {
        let name: Vec<u8> = vec![119u8, 104u8, 105u8, 116u8, 101u8, 108u8, 105u8, 115u8, 116u8];
        let seeds: Vec<Vec<u8>> = vec![name, key_bytes(vault)];
        assert(seeds_view(seeds@) =~= Self::seeds_spec(vault@)) by {
            assert(seeds@[0]@ =~= seq![
                119u8,
                104u8,
                105u8,
                116u8,
                101u8,
                108u8,
                105u8,
                115u8,
                116u8,
            ]);
        }
        seeds
    }

    /// The address of the whitelist of `vault` under the program
    /// `program_id`, with its bump seed and the seeds it was derived from;
    /// nothing where no address can be derived.
    pub fn find_program_address(program_id: &[u8; 32], vault: &[u8; 32]) -> (found: Option<
        ([u8; 32], u8, Vec<Vec<u8>>),
    >)
        ensures
            match found {
                Some((address, bump, seeds)) => derived_address(
                    Self::seeds_spec(vault@),
                    program_id@,
                ) == Some((address@, bump)) && seeds_view(seeds@) == Self::seeds_spec(vault@),
                None => derived_address(Self::seeds_spec(vault@), program_id@) is None,
            },
    {
        let seeds = Self::seeds(vault);
        match try_find_program_address(&seeds, program_id) {
            Some((address, bump)) => Some((address, bump, seeds)),
            None => None,
        }
    }

    /// Checks that `account` is the whitelist record of `vault`.
    pub fn load(
        program_id: &[u8; 32],
        account: &Account,
        vault: &[u8; 32],
        expect_writable: bool,
    ) -> (result: Result<(), ProgramError>)
        ensures
            result == Self::load_spec(program_id@, account@, vault@, expect_writable),
    {
        let seeds = Self::seeds(vault);
        load_record(program_id, account, expect_writable, WHITELIST_DISCRIMINATOR, &seeds)
    }

    /// Reads a whitelist from its storage.
    pub fn try_from_slice_unchecked(data: &[u8]) -> (result: Result<Self, ProgramError>)
        ensures
            holds_record(WHITELIST_DISCRIMINATOR, data@) ==> (result matches Ok(whitelist)
                && whitelist.stored_in(data@)),
            !holds_record(WHITELIST_DISCRIMINATOR, data@) ==> result == Err::<
                Self,
                ProgramError,
            >(ProgramError::InvalidAccountData),
    {
        match decode_record(WHITELIST_DISCRIMINATOR, data) {
            Ok(fields) => Ok(
                Self {
                    vault: fields.first,
                    meta_merkle_root: fields.second,
                    bump: fields.bump,
                    reserved: fields.reserved,
                },
            ),
            Err(e) => Err(e),
        }
    }

    /// Writes the whitelist into fresh storage.
    pub fn to_account_data(&self) -> (data: Vec<u8>)
        ensures
            data@ == self.bytes(),
            self.stored_in(data@),
    {
        let fields = RecordFields {
            first: self.vault,
            second: self.meta_merkle_root,
            bump: self.bump,
            reserved: self.reserved,
        };
        encode_record(WHITELIST_DISCRIMINATOR, &fields)
    }
}

} // verus!
