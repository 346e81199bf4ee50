//! The shape that the three persisted records share: eight bytes of header
//! whose first byte is the kind's tag, two 32-byte fields, the bump seed,
//! and 263 reserved bytes.
use vstd::prelude::*;
use crate::account::{same_key, Account, AccountView};
use crate::error::{ProgramError, VaultWhitelistError};
use crate::pda::{derived_address, seeds_view, try_find_program_address};

verus! {

/// Number of bytes of the header that stands before every record; its
/// first byte is the kind's tag.
pub const HEADER_LEN: usize = 8;

/// Number of reserved bytes at the end of a record.
pub const RESERVED_SPACE_LEN: usize = 263;

/// Number of bytes of a record without its header.
pub const RECORD_LEN: usize = 328;

/// Number of bytes of a record's storage: header and record.
pub const ACCOUNT_LEN: usize = 336;

/// The fields of a record, not yet told apart by kind.
pub struct RecordFields {
    pub first: [u8; 32],
    pub second: [u8; 32],
    pub bump: u8,
    pub reserved: [u8; 263],
}

/// `len` zero bytes.
pub open spec fn zeros(len: nat) -> Seq<u8> {
    Seq::new(len, |i: int| 0u8)
}

/// The storage of a record of kind `tag` with the given fields: the tag,
/// seven zero bytes, then the fields in their order.
pub open spec fn record_data(
    tag: u8,
    first: Seq<u8>,
    second: Seq<u8>,
    bump: u8,
    reserved: Seq<u8>,
) -> Seq<u8> {
    seq![tag, 0u8, 0u8, 0u8, 0u8, 0u8, 0u8, 0u8] + first + second + seq![bump] + reserved
}

/// The storage of a record of kind `tag`.
pub open spec fn record_bytes(tag: u8, fields: RecordFields) -> Seq<u8> {
    record_data(tag, fields.first@, fields.second@, fields.bump, fields.reserved@)
}

/// The first 32-byte field of a record's storage.
pub open spec fn first_field(data: Seq<u8>) -> Seq<u8> {
    data.subrange(8, 40)
}

/// The second 32-byte field of a record's storage.
pub open spec fn second_field(data: Seq<u8>) -> Seq<u8> {
    data.subrange(40, 72)
}

/// The bump seed in a record's storage.
pub open spec fn bump_field(data: Seq<u8>) -> u8 {
    data[72]
}

/// The reserved bytes of a record's storage.
pub open spec fn reserved_field(data: Seq<u8>) -> Seq<u8> {
    data.subrange(73, 336)
}

/// What a record of digest-sized fields stores is what is read back from
/// its storage.
pub proof fn lemma_record_data_fields(
    tag: u8,
    first: Seq<u8>,
    second: Seq<u8>,
    bump: u8,
    reserved: Seq<u8>,
)
    requires
        first.len() == 32,
        second.len() == 32,
        reserved.len() == RESERVED_SPACE_LEN,
    ensures
        holds_record(tag, record_data(tag, first, second, bump, reserved)),
        first_field(record_data(tag, first, second, bump, reserved)) == first,
        second_field(record_data(tag, first, second, bump, reserved)) == second,
        bump_field(record_data(tag, first, second, bump, reserved)) == bump,
        reserved_field(record_data(tag, first, second, bump, reserved)) == reserved,
{
    let data = record_data(tag, first, second, bump, reserved);
    assert(data.subrange(8, 40) =~= first);
    assert(data.subrange(40, 72) =~= second);
    assert(data.subrange(73, 336) =~= reserved);
}

/// Whether `data` is the storage of some record of kind `tag`: it has the
/// length of one and begins with the tag.
pub open spec fn holds_record(tag: u8, data: Seq<u8>) -> bool {
    data.len() == ACCOUNT_LEN && data[0] == tag
}

/// Whether `fields` are what the storage `data` holds behind its header.
pub open spec fn fields_of(data: Seq<u8>, fields: RecordFields) -> bool {
    &&& fields.first@ == first_field(data)
    &&& fields.second@ == second_field(data)
    &&& fields.bump == bump_field(data)
    &&& fields.reserved@ == reserved_field(data)
}

/// The checks that every record of this program passes before it is read:
/// the program owns the account, the storage is there, the account is
/// writable where that is expected, the storage begins with the kind's
/// tag, and the account stands at the address derived from `seeds`.
pub open spec fn load_record_spec(
    program_id: Seq<u8>,
    account: AccountView,
    expect_writable: bool,
    tag: u8,
    seeds: Seq<Seq<u8>>,
) -> Result<(), ProgramError> {
    if account.owner != program_id {
        Err(ProgramError::InvalidAccountOwner)
    } else if account.data.len() == 0 {
        Err(ProgramError::InvalidAccountData)
    } else if expect_writable && !account.is_writable {
        Err(ProgramError::InvalidAccountData)
    } else if account.data[0] != tag {
        Err(ProgramError::InvalidAccountData)
    } else {
        match derived_address(seeds, program_id) {
            None => Err(ProgramError::InvalidSeeds),
            Some((address, _)) => if account.key != address {
                Err(ProgramError::InvalidAccountData)
            } else {
                Ok(())
            },
        }
    }
}

/// Number of bytes of storage for a record of `record_len` bytes: the
/// header and the record, or an overflow where that does not fit.
pub fn account_space(record_len: u64) -> (result: Result<u64, VaultWhitelistError>)
    ensures
        result == (if HEADER_LEN + record_len <= u64::MAX {
            Ok::<u64, VaultWhitelistError>((HEADER_LEN + record_len) as u64)
        } else {
            Err(VaultWhitelistError::ArithmeticOverflow)
        }),
{
    match (HEADER_LEN as u64).checked_add(record_len) {
        Some(space) => Ok(space),
        None => Err(VaultWhitelistError::ArithmeticOverflow),
    }
}

/// Writes a record of kind `tag` into fresh storage.
pub fn encode_record(tag: u8, fields: &RecordFields) -> (data: Vec<u8>)
    ensures
        data@ == record_bytes(tag, *fields),
        holds_record(tag, data@),
        fields_of(data@, *fields),
{
    let mut data: Vec<u8> = Vec::new();
    data.push(tag);
    let mut i: usize = 1;
    while i < HEADER_LEN
        invariant
            1 <= i <= HEADER_LEN,
            data@.len() == i,
            data@[0] == tag,
            forall|j: int| 1 <= j < i ==> data@[j] == 0u8,
        decreases HEADER_LEN - i,
    {
        data.push(0);
        i += 1;
    }
    assert(data@ =~= seq![tag, 0u8, 0u8, 0u8, 0u8, 0u8, 0u8, 0u8]);
    let ghost header = data@;
    i = 0;
    while i < 32
        invariant
            i <= 32,
            data@ == header + fields.first@.take(i as int),
        decreases 32 - i,
    {
        data.push(fields.first[i]);
        assert(data@ =~= header + fields.first@.take(i + 1));
        i += 1;
    }
    assert(fields.first@.take(32) =~= fields.first@);
    let ghost with_first = data@;
    i = 0;
    while i < 32
        invariant
            i <= 32,
            data@ == with_first + fields.second@.take(i as int),
        decreases 32 - i,
    {
        data.push(fields.second[i]);
        assert(data@ =~= with_first + fields.second@.take(i + 1));
        i += 1;
    }
    assert(fields.second@.take(32) =~= fields.second@);
    data.push(fields.bump);
    let ghost with_bump = data@;
    i = 0;
    while i < RESERVED_SPACE_LEN
        invariant
            i <= RESERVED_SPACE_LEN,
            data@ == with_bump + fields.reserved@.take(i as int),
        decreases RESERVED_SPACE_LEN - i,
    {
        data.push(fields.reserved[i]);
        assert(data@ =~= with_bump + fields.reserved@.take(i + 1));
        i += 1;
    }
    proof {
        assert(fields.reserved@.take(263) =~= fields.reserved@);
        assert(data@ =~= record_bytes(tag, *fields));
        assert(data@.subrange(8, 40) =~= fields.first@);
        assert(data@.subrange(40, 72) =~= fields.second@);
        assert(data@.subrange(73, 336) =~= fields.reserved@);
    }
    data
}

/// Reads the fields of a record of kind `tag` from its storage. Storage of
/// another length or with another first byte is refused.
pub fn decode_record(tag: u8, data: &[u8]) -> (result: Result<RecordFields, ProgramError>)
    ensures
        holds_record(tag, data@) ==> (result matches Ok(fields) && fields_of(data@, fields)),
        !holds_record(tag, data@) ==> result == Err::<RecordFields, ProgramError>(
            ProgramError::InvalidAccountData,
        ),
{
    if data.len() != ACCOUNT_LEN || data[0] != tag {
        return Err(ProgramError::InvalidAccountData);
    }
    let mut first = [0u8; 32];
    let mut second = [0u8; 32];
    let mut reserved = [0u8; 263];
    let mut i: usize = 0;
    while i < 32
        invariant
            i <= 32,
            data@.len() == ACCOUNT_LEN,
            forall|j: int| 0 <= j < i ==> first@[j] == data@[8 + j],
            forall|j: int| 0 <= j < i ==> second@[j] == data@[40 + j],
        decreases 32 - i,
    {
        first[i] = data[8 + i];
        second[i] = data[40 + i];
        i += 1;
    }
    i = 0;
    while i < RESERVED_SPACE_LEN
        invariant
            i <= RESERVED_SPACE_LEN,
            data@.len() == ACCOUNT_LEN,
            forall|j: int| 0 <= j < i ==> reserved@[j] == data@[73 + j],
        decreases RESERVED_SPACE_LEN - i,
    {
        reserved[i] = data[73 + i];
        i += 1;
    }
    let fields = RecordFields { first, second, bump: data[72], reserved };
    proof {
        assert(fields.first@ =~= data@.subrange(8, 40));
        assert(fields.second@ =~= data@.subrange(40, 72));
        assert(fields.reserved@ =~= data@.subrange(73, 336));
    }
    Ok(fields)
}

/// What is written is what is read back.
pub proof fn lemma_record_round_trip(tag: u8, fields: RecordFields, read: RecordFields)
    requires
        fields_of(record_bytes(tag, fields), read),
    ensures
        read == fields,
        holds_record(tag, record_bytes(tag, fields)),
{
    let data = record_bytes(tag, fields);
    assert(data.subrange(8, 40) =~= fields.first@);
    assert(data.subrange(40, 72) =~= fields.second@);
    assert(data.subrange(73, 336) =~= fields.reserved@);
    assert(read.first =~= fields.first);
    assert(read.second =~= fields.second);
    assert(read.reserved =~= fields.reserved);
}

/// Runs the checks that every record passes before it is read.
pub fn load_record(
    program_id: &[u8; 32],
    account: &Account,
    expect_writable: bool,
    tag: u8,
    seeds: &Vec<Vec<u8>>,
) -> (result: Result<(), ProgramError>)
    ensures
        result == load_record_spec(
            program_id@,
            account@,
            expect_writable,
            tag,
            seeds_view(seeds@),
        ),
{
    if !same_key(&account.owner, program_id) {
        return Err(ProgramError::InvalidAccountOwner);
    }
    if account.data.len() == 0 {
        return Err(ProgramError::InvalidAccountData);
    }
    if expect_writable && !account.is_writable {
        return Err(ProgramError::InvalidAccountData);
    }
    if account.data[0] != tag {
        return Err(ProgramError::InvalidAccountData);
    }
    match try_find_program_address(seeds, program_id) {
        None => Err(ProgramError::InvalidSeeds),
        Some((address, _)) => {
            if !same_key(&account.key, &address) {
                Err(ProgramError::InvalidAccountData)
            } else {
                Ok(())
            }
        },
    }
}

/// Makes a byte vector of the 32 bytes of an address.
pub fn key_bytes(key: &[u8; 32]) -> (bytes: Vec<u8>)
    ensures
        bytes@ == key@,
{
    vstd::slice::slice_to_vec(key.as_slice())
}

} // verus!
