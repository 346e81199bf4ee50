//! The one configuration record of a deployment.
use vstd::prelude::*;
use crate::account::Account;
use crate::error::ProgramError;
use crate::pda::{derived_address, seeds_view, try_find_program_address};
use crate::record::{
    decode_record, encode_record, fields_of, holds_record, load_record, load_record_spec,
    record_bytes, RecordFields,
};

verus! {

/// Tag of a configuration record.
pub const CONFIG_DISCRIMINATOR: u8 = 0;

/// The deployment's configuration: who administers it, and the one vault
/// program to which operations are forwarded.
#[derive(Debug, Clone, Copy, PartialEq, Eq)]
pub struct Config {
    /// The administrator of the deployment.
    pub admin: [u8; 32],
    /// The vault program that operations are forwarded to.
    pub vault_program: [u8; 32],
    /// The bump seed of the record's address.
    pub bump: u8,
    /// Room for later fields.
    pub reserved: [u8; 263],
}

impl Config {
    /// The seeds of the record's address: the ASCII bytes of `config`.
    pub open spec fn seeds_spec() -> Seq<Seq<u8>> {
        seq![seq![99u8, 111u8, 110u8, 102u8, 105u8, 103u8]]
    }

    /// The record's fields in the order of its storage.
    pub open spec fn fields(self) -> RecordFields {
        RecordFields {
            first: self.admin,
            second: self.vault_program,
            bump: self.bump,
            reserved: self.reserved,
        }
    }

    /// The storage of the record.
    pub open spec fn bytes(self) -> Seq<u8> {
        record_bytes(CONFIG_DISCRIMINATOR, self.fields())
    }

    /// Whether the storage `data` holds this record.
    pub open spec fn stored_in(self, data: Seq<u8>) -> bool {
        holds_record(CONFIG_DISCRIMINATOR, data) && fields_of(data, self.fields())
    }

    /// The checks on the account that is to hold the configuration.
    pub open spec fn load_spec(
        program_id: Seq<u8>,
        account: crate::account::AccountView,
        expect_writable: bool,
    ) -> Result<(), ProgramError> {
        load_record_spec(
            program_id,
            account,
            expect_writable,
            CONFIG_DISCRIMINATOR,
            Self::seeds_spec(),
        )
    }

    /// A configuration with nothing in its reserved bytes.
    pub fn new(admin: [u8; 32], vault_program: [u8; 32], bump: u8) -> (config: Self)
        ensures
            config.admin == admin,
            config.vault_program == vault_program,
            config.bump == bump,
            forall|i: int| 0 <= i < 263 ==> config.reserved@[i] == 0u8,
    {
        Self { admin, vault_program, bump, reserved: [0u8; 263] }
    }

    /// The seeds of the record's address.
    pub fn seeds() -> (seeds: Vec<Vec<u8>>)
        ensures
            seeds_view(seeds@) == Self::seeds_spec(),
    {
        let name: Vec<u8> = vec![99u8, 111u8, 110u8, 102u8, 105u8, 103u8];
        let seeds: Vec<Vec<u8>> = vec![name];
        assert(seeds_view(seeds@) =~= Self::seeds_spec()) by {
            assert(seeds@[0]@ =~= seq![99u8, 111u8, 110u8, 102u8, 105u8, 103u8]);
        }
        seeds
    }

    /// The record's address under the program `program_id`, with its bump
    /// seed and the seeds it was derived from; nothing where no address
    /// can be derived.
    pub fn find_program_address(program_id: &[u8; 32]) -> (found: Option<
        ([u8; 32], u8, Vec<Vec<u8>>),
    >)
        ensures
            match found {
                Some((address, bump, seeds)) => derived_address(Self::seeds_spec(), program_id@)
                    == Some((address@, bump)) && seeds_view(seeds@) == Self::seeds_spec(),
                None => derived_address(Self::seeds_spec(), program_id@) is None,
            },
    {
        let seeds = Self::seeds();
        match try_find_program_address(&seeds, program_id) {
            Some((address, bump)) => Some((address, bump, seeds)),
            None => None,
        }
    }

    /// Checks that `account` is the configuration record of the program.
    pub fn load(program_id: &[u8; 32], account: &Account, expect_writable: bool) -> (result:
        Result<(), ProgramError>)
        ensures
            result == Self::load_spec(program_id@, account@, expect_writable),
    {
        let seeds = Self::seeds();
        load_record(program_id, account, expect_writable, CONFIG_DISCRIMINATOR, &seeds)
    }

    /// Reads a configuration from its storage.
    pub fn try_from_slice_unchecked(data: &[u8]) -> (result: Result<Self, ProgramError>)
        ensures
            holds_record(CONFIG_DISCRIMINATOR, data@) ==> (result matches Ok(config)
                && config.stored_in(data@)),
            !holds_record(CONFIG_DISCRIMINATOR, data@) ==> result == Err::<Self, ProgramError>(
                ProgramError::InvalidAccountData,
            ),
    {
        match decode_record(CONFIG_DISCRIMINATOR, data) {
            Ok(fields) => Ok(
                Self {
                    admin: fields.first,
                    vault_program: fields.second,
                    bump: fields.bump,
                    reserved: fields.reserved,
                },
            ),
            Err(e) => Err(e),
        }
    }

    /// Writes the configuration into fresh storage.
    pub fn to_account_data(&self) -> (data: Vec<u8>)
        ensures
            data@ == self.bytes(),
            self.stored_in(data@),
    {
        let fields = RecordFields {
            first: self.admin,
            second: self.vault_program,
            bump: self.bump,
            reserved: self.reserved,
        };
        encode_record(CONFIG_DISCRIMINATOR, &fields)
    }
}

} // verus!
