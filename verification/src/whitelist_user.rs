//! The record that approves one user explicitly: its existence is the
//! approval.
use vstd::prelude::*;
use crate::account::{same_key, Account};
use crate::error::{ProgramError, VaultWhitelistError};
use crate::pda::{derived_address, seeds_view, try_find_program_address};
use crate::record::{
    decode_record, encode_record, fields_of, holds_record, key_bytes, load_record,
    load_record_spec, record_bytes, RecordFields,
};

verus! {

/// Tag of a user record.
pub const WHITELIST_USER_DISCRIMINATOR: u8 = 2;

/// The approval of one user by one whitelist.
#[derive(Debug, Clone, Copy, PartialEq, Eq)]
pub struct WhitelistUser {
    /// The whitelist that approves.
    pub whitelist: [u8; 32],
    /// The user that is approved.
    pub user: [u8; 32],
    /// The bump seed of the record's address.
    pub bump: u8,
    /// Room for later fields.
    pub reserved: [u8; 263],
}

impl WhitelistUser {
    /// The seeds of the address of the record of `user` under `whitelist`:
    /// the ASCII bytes of `whitelist_user`, then the two addresses.
    pub open spec fn seeds_spec(whitelist: Seq<u8>, user: Seq<u8>) -> Seq<Seq<u8>> {
        seq![
            seq![
                119u8,
                104u8,
                105u8,
                116u8,
                101u8,
                108u8,
                105u8,
                115u8,
                116u8,
                95u8,
                117u8,
                115u8,
                101u8,
                114u8,
            ],
            whitelist,
            user,
        ]
    }

    /// The record's fields in the order of its storage.
    pub open spec fn fields(self) -> RecordFields {
        RecordFields {
            first: self.whitelist,
            second: self.user,
            bump: self.bump,
            reserved: self.reserved,
        }
    }

    /// The storage of the record.
    pub open spec fn bytes(self) -> Seq<u8> {
        record_bytes(WHITELIST_USER_DISCRIMINATOR, self.fields())
    }

    /// Whether the storage `data` holds this record.
    pub open spec fn stored_in(self, data: Seq<u8>) -> bool {
        holds_record(WHITELIST_USER_DISCRIMINATOR, data) && fields_of(data, self.fields())
    }

    /// The checks on the account that is to hold the record of `user`
    /// under `whitelist`.
    pub open spec fn load_spec(
        program_id: Seq<u8>,
        account: crate::account::AccountView,
        whitelist: Seq<u8>,
        user: Seq<u8>,
        expect_writable: bool,
    ) -> Result<(), ProgramError> {
        load_record_spec(
            program_id,
            account,
            expect_writable,
            WHITELIST_USER_DISCRIMINATOR,
            Self::seeds_spec(whitelist, user),
        )
    }

    /// A user record with nothing in its reserved bytes.
    pub fn new(whitelist: [u8; 32], user: [u8; 32], bump: u8) -> (record: Self)
        ensures
            record.whitelist == whitelist,
            record.user == user,
            record.bump == bump,
            forall|i: int| 0 <= i < 263 ==> record.reserved@[i] == 0u8,
    {
        Self { whitelist, user, bump, reserved: [0u8; 263] }
    }

    /// Refuses a whitelist other than the one that approved.
    pub fn check_whitelist(&self, whitelist: &[u8; 32]) -> (result: Result<
        (),
        VaultWhitelistError,
    >)
        ensures
            result == (if self.whitelist@ == whitelist@ {
                Ok::<(), VaultWhitelistError>(())
            } else {
                Err(VaultWhitelistError::InvalidWhitelist)
            }),
    {
        if !same_key(&self.whitelist, whitelist) {
            return Err(VaultWhitelistError::InvalidWhitelist);
        }
        Ok(())
    }

    /// Refuses a user other than the one that was approved.
    pub fn check_user(&self, user: &[u8; 32]) -> (result: Result<(), VaultWhitelistError>)
        ensures
            result == (if self.user@ == user@ {
                Ok::<(), VaultWhitelistError>(())
            } else {
                Err(VaultWhitelistError::InvalidWhitelistUser)
            }),
    {
        if !same_key(&self.user, user) {
            return Err(VaultWhitelistError::InvalidWhitelistUser);
        }
        Ok(())
    }

    /// The seeds of the address of the record of `user` under `whitelist`.
    pub fn seeds(whitelist: &[u8; 32], user: &[u8; 32]) -> (seeds: Vec<Vec<u8>>)
        ensures
            seeds_view(seeds@) == Self::seeds_spec(whitelist@, user@),
    {
        let name: Vec<u8> = vec![
            119u8,
            104u8,
            105u8,
            116u8,
            101u8,
            108u8,
            105u8,
            115u8,
            116u8,
            95u8,
            117u8,
            115u8,
            101u8,
            114u8,
        ];
        let seeds: Vec<Vec<u8>> = vec![name, key_bytes(whitelist), key_bytes(user)];
        assert(seeds_view(seeds@) =~= Self::seeds_spec(whitelist@, user@)) by {
            assert(seeds@[0]@ =~= Self::seeds_spec(whitelist@, user@)[0]);
        }
        seeds
    }

    /// The address of the record of `user` under `whitelist` and the
    /// program `program_id`, with its bump seed and the seeds it was
    /// derived from; nothing where no address can be derived.
    pub fn find_program_address(program_id: &[u8; 32], whitelist: &[u8; 32], user: &[u8; 32]) -> (found:
        Option<([u8; 32], u8, Vec<Vec<u8>>)>)
        ensures
            match found {
                Some((address, bump, seeds)) => derived_address(
                    Self::seeds_spec(whitelist@, user@),
                    program_id@,
                ) == Some((address@, bump)) && seeds_view(seeds@) == Self::seeds_spec(
                    whitelist@,
                    user@,
                ),
                None => derived_address(Self::seeds_spec(whitelist@, user@), program_id@) is None,
            },
    {
        let seeds = Self::seeds(whitelist, user);
        match try_find_program_address(&seeds, program_id) {
            Some((address, bump)) => Some((address, bump, seeds)),
            None => None,
        }
    }

    /// Checks that `account` is the record of `user` under `whitelist`.
    pub fn load(
        program_id: &[u8; 32],
        account: &Account,
        whitelist: &[u8; 32],
        user: &[u8; 32],
        expect_writable: bool,
    ) -> (result: Result<(), ProgramError>)
        ensures
            result == Self::load_spec(program_id@, account@, whitelist@, user@, expect_writable),
    {
        let seeds = Self::seeds(whitelist, user);
        load_record(program_id, account, expect_writable, WHITELIST_USER_DISCRIMINATOR, &seeds)
    }

    /// Reads a user record from its storage.
    pub fn try_from_slice_unchecked(data: &[u8]) -> (result: Result<Self, ProgramError>)
        ensures
            holds_record(WHITELIST_USER_DISCRIMINATOR, data@) ==> (result matches Ok(record)
                && record.stored_in(data@)),
            !holds_record(WHITELIST_USER_DISCRIMINATOR, data@) ==> result == Err::<
                Self,
                ProgramError,
            >(ProgramError::InvalidAccountData),
    {
        match decode_record(WHITELIST_USER_DISCRIMINATOR, data) {
            Ok(fields) => Ok(
                Self {
                    whitelist: fields.first,
                    user: fields.second,
                    bump: fields.bump,
                    reserved: fields.reserved,
                },
            ),
            Err(e) => Err(e),
        }
    }

    /// Writes the user record into fresh storage.
    pub fn to_account_data(&self) -> (data: Vec<u8>)
        ensures
            data@ == self.bytes(),
            self.stored_in(data@),
    {
        let fields = RecordFields {
            first: self.whitelist,
            second: self.user,
            bump: self.bump,
            reserved: self.reserved,
        };
        encode_record(WHITELIST_USER_DISCRIMINATOR, &fields)
    }
}

} // verus!
