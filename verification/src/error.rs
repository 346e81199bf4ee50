//! Error values of the library.
use vstd::prelude::*;

verus! {

/// Failures of tree construction and proof extraction.
#[derive(Debug, Clone, PartialEq, Eq)]
pub enum MerkleTreeError {
    /// The tree's own structure contradicted itself; the text says where.
    MerkleValidationError(String),
    /// No root exists, because the member list is empty.
    MerkleRootError,
    /// The identity asked for is not in the member list.
    NotFound,
}

/// First error number of this program.
pub const ERROR_BASE: u32 = 3000;

/// Error number with which the vault refuses an administrator that is not
/// the one it records.
pub const VAULT_ADMIN_INVALID: u32 = 1005;

/// Failures that are this program's own.
#[derive(Debug, Clone, Copy, PartialEq, Eq, Structural)]
pub enum VaultWhitelistError {
    ArithmeticOverflow,
    ArithmeticUnderflow,
    DivisionByZero,
    InvalidVault,
    InvalidWhitelist,
    InvalidWhitelistUser,
    InvalidProof,
}

impl VaultWhitelistError {
    /// The number under which the error is reported: 3000 for the first
    /// variant, one more for each that follows.
    pub open spec fn code(self) -> u32 {
        match self {
            VaultWhitelistError::ArithmeticOverflow => 3000,
            VaultWhitelistError::ArithmeticUnderflow => 3001,
            VaultWhitelistError::DivisionByZero => 3002,
            VaultWhitelistError::InvalidVault => 3003,
            VaultWhitelistError::InvalidWhitelist => 3004,
            VaultWhitelistError::InvalidWhitelistUser => 3005,
            VaultWhitelistError::InvalidProof => 3006,
        }
    }

    /// The error's name.
    pub fn name(&self) -> (text: String)
        ensures
            text@ == match *self {
                VaultWhitelistError::ArithmeticOverflow => "ArithmeticOverflow"@,
                VaultWhitelistError::ArithmeticUnderflow => "ArithmeticUnderflow"@,
                VaultWhitelistError::DivisionByZero => "DivisionByZero"@,
                VaultWhitelistError::InvalidVault => "InvalidVault"@,
                VaultWhitelistError::InvalidWhitelist => "InvalidWhitelist"@,
                VaultWhitelistError::InvalidWhitelistUser => "InvalidWhitelistUser"@,
                VaultWhitelistError::InvalidProof => "InvalidProof"@,
            },
    {
        match self {
            VaultWhitelistError::ArithmeticOverflow => "ArithmeticOverflow".to_string(),
            VaultWhitelistError::ArithmeticUnderflow => "ArithmeticUnderflow".to_string(),
            VaultWhitelistError::DivisionByZero => "DivisionByZero".to_string(),
            VaultWhitelistError::InvalidVault => "InvalidVault".to_string(),
            VaultWhitelistError::InvalidWhitelist => "InvalidWhitelist".to_string(),
            VaultWhitelistError::InvalidWhitelistUser => "InvalidWhitelistUser".to_string(),
            VaultWhitelistError::InvalidProof => "InvalidProof".to_string(),
        }
    }
}

impl From<VaultWhitelistError> for u32 {
    fn from(e: VaultWhitelistError) -> (ret: u32) {
        match e {
            VaultWhitelistError::ArithmeticOverflow => ERROR_BASE,
            VaultWhitelistError::ArithmeticUnderflow => ERROR_BASE + 1,
            VaultWhitelistError::DivisionByZero => ERROR_BASE + 2,
            VaultWhitelistError::InvalidVault => ERROR_BASE + 3,
            VaultWhitelistError::InvalidWhitelist => ERROR_BASE + 4,
            VaultWhitelistError::InvalidWhitelistUser => ERROR_BASE + 5,
            VaultWhitelistError::InvalidProof => ERROR_BASE + 6,
        }
    }
}

impl vstd::std_specs::convert::FromSpecImpl<VaultWhitelistError> for u32 {
    open spec fn obeys_from_spec() -> bool {
        true
    }

    open spec fn from_spec(e: VaultWhitelistError) -> u32 {
        e.code()
    }
}

impl From<VaultWhitelistError> for u64 {
    fn from(e: VaultWhitelistError) -> (ret: u64) {
        let code: u32 = u32::from(e);
        code as u64
    }
}

impl vstd::std_specs::convert::FromSpecImpl<VaultWhitelistError> for u64 {
    open spec fn obeys_from_spec() -> bool {
        true
    }

    open spec fn from_spec(e: VaultWhitelistError) -> u64 {
        e.code() as u64
    }
}

/// Reasons for which an operation is refused, with the numbers under which
/// the ledger reports them.
#[derive(Debug, Clone, Copy, PartialEq, Eq, Structural)]
pub enum ProgramError {
    /// An error of a program's own, by its number.
    Custom(u32),
    InvalidArgument,
    InvalidInstructionData,
    InvalidAccountData,
    AccountDataTooSmall,
    InsufficientFunds,
    IncorrectProgramId,
    MissingRequiredSignature,
    AccountAlreadyInitialized,
    UninitializedAccount,
    NotEnoughAccountKeys,
    AccountBorrowFailed,
    MaxSeedLengthExceeded,
    InvalidSeeds,
    BorshIoError,
    AccountNotRentExempt,
    UnsupportedSysvar,
    IllegalOwner,
    MaxAccountsDataAllocationsExceeded,
    InvalidRealloc,
    MaxInstructionTraceLengthExceeded,
    BuiltinProgramsMustConsumeComputeUnits,
    InvalidAccountOwner,
    ArithmeticOverflow,
    Immutable,
    IncorrectAuthority,
}

/// The number of the `index`-th built-in error: the index in the upper half
/// of 64 bits.
pub open spec fn builtin_code(index: u64) -> u64 {
    (index * 0x1_0000_0000) as u64
}

impl ProgramError {
    /// The place of a built-in error in the ledger's list, or 0 for an
    /// error of a program's own.
    pub open spec fn builtin_index(self) -> u64 {
        match self {
            ProgramError::Custom(_) => 0,
            ProgramError::InvalidArgument => 2,
            ProgramError::InvalidInstructionData => 3,
            ProgramError::InvalidAccountData => 4,
            ProgramError::AccountDataTooSmall => 5,
            ProgramError::InsufficientFunds => 6,
            ProgramError::IncorrectProgramId => 7,
            ProgramError::MissingRequiredSignature => 8,
            ProgramError::AccountAlreadyInitialized => 9,
            ProgramError::UninitializedAccount => 10,
            ProgramError::NotEnoughAccountKeys => 11,
            ProgramError::AccountBorrowFailed => 12,
            ProgramError::MaxSeedLengthExceeded => 13,
            ProgramError::InvalidSeeds => 14,
            ProgramError::BorshIoError => 15,
            ProgramError::AccountNotRentExempt => 16,
            ProgramError::UnsupportedSysvar => 17,
            ProgramError::IllegalOwner => 18,
            ProgramError::MaxAccountsDataAllocationsExceeded => 19,
            ProgramError::InvalidRealloc => 20,
            ProgramError::MaxInstructionTraceLengthExceeded => 21,
            ProgramError::BuiltinProgramsMustConsumeComputeUnits => 22,
            ProgramError::InvalidAccountOwner => 23,
            ProgramError::ArithmeticOverflow => 24,
            ProgramError::Immutable => 25,
            ProgramError::IncorrectAuthority => 26,
        }
    }

    /// The number under which the ledger reports the error: a built-in
    /// error by its place, an error of a program's own by its number, and
    /// the number 0 of a program's own as the built-in place 1.
    pub open spec fn code(self) -> u64 {
        match self {
            ProgramError::Custom(number) => if number == 0 {
                builtin_code(1)
            } else {
                number as u64
            },
            _ => builtin_code(self.builtin_index()),
        }
    }

    /// The error that the ledger means by `code`: the built-in error at
    /// that place, else the program's own error with the lower 32 bits as
    /// its number.
    pub open spec fn of_code(code: u64) -> ProgramError {
        if code == builtin_code(1) {
            ProgramError::Custom(0)
        } else if code == builtin_code(2) {
            ProgramError::InvalidArgument
        } else if code == builtin_code(3) {
            ProgramError::InvalidInstructionData
        } else if code == builtin_code(4) {
            ProgramError::InvalidAccountData
        } else if code == builtin_code(5) {
            ProgramError::AccountDataTooSmall
        } else if code == builtin_code(6) {
            ProgramError::InsufficientFunds
        } else if code == builtin_code(7) {
            ProgramError::IncorrectProgramId
        } else if code == builtin_code(8) {
            ProgramError::MissingRequiredSignature
        } else if code == builtin_code(9) {
            ProgramError::AccountAlreadyInitialized
        } else if code == builtin_code(10) {
            ProgramError::UninitializedAccount
        } else if code == builtin_code(11) {
            ProgramError::NotEnoughAccountKeys
        } else if code == builtin_code(12) {
            ProgramError::AccountBorrowFailed
        } else if code == builtin_code(13) {
            ProgramError::MaxSeedLengthExceeded
        } else if code == builtin_code(14) {
            ProgramError::InvalidSeeds
        } else if code == builtin_code(15) {
            ProgramError::BorshIoError
        } else if code == builtin_code(16) {
            ProgramError::AccountNotRentExempt
        } else if code == builtin_code(17) {
            ProgramError::UnsupportedSysvar
        } else if code == builtin_code(18) {
            ProgramError::IllegalOwner
        } else if code == builtin_code(19) {
            ProgramError::MaxAccountsDataAllocationsExceeded
        } else if code == builtin_code(20) {
            ProgramError::InvalidRealloc
        } else if code == builtin_code(21) {
            ProgramError::MaxInstructionTraceLengthExceeded
        } else if code == builtin_code(22) {
            ProgramError::BuiltinProgramsMustConsumeComputeUnits
        } else if code == builtin_code(23) {
            ProgramError::InvalidAccountOwner
        } else if code == builtin_code(24) {
            ProgramError::ArithmeticOverflow
        } else if code == builtin_code(25) {
            ProgramError::Immutable
        } else if code == builtin_code(26) {
            ProgramError::IncorrectAuthority
        } else {
            ProgramError::Custom((code % 0x1_0000_0000) as u32)
        }
    }

    /// The number under which the ledger reports the error.
    pub fn to_code(&self) -> (code: u64)
        ensures
            code == self.code(),
    {
        match self {
            ProgramError::Custom(number) => if *number == 0 {
                1 * 0x1_0000_0000
            } else {
                *number as u64
            },
            ProgramError::InvalidArgument => 2 * 0x1_0000_0000,
            ProgramError::InvalidInstructionData => 3 * 0x1_0000_0000,
            ProgramError::InvalidAccountData => 4 * 0x1_0000_0000,
            ProgramError::AccountDataTooSmall => 5 * 0x1_0000_0000,
            ProgramError::InsufficientFunds => 6 * 0x1_0000_0000,
            ProgramError::IncorrectProgramId => 7 * 0x1_0000_0000,
            ProgramError::MissingRequiredSignature => 8 * 0x1_0000_0000,
            ProgramError::AccountAlreadyInitialized => 9 * 0x1_0000_0000,
            ProgramError::UninitializedAccount => 10 * 0x1_0000_0000,
            ProgramError::NotEnoughAccountKeys => 11 * 0x1_0000_0000,
            ProgramError::AccountBorrowFailed => 12 * 0x1_0000_0000,
            ProgramError::MaxSeedLengthExceeded => 13 * 0x1_0000_0000,
            ProgramError::InvalidSeeds => 14 * 0x1_0000_0000,
            ProgramError::BorshIoError => 15 * 0x1_0000_0000,
            ProgramError::AccountNotRentExempt => 16 * 0x1_0000_0000,
            ProgramError::UnsupportedSysvar => 17 * 0x1_0000_0000,
            ProgramError::IllegalOwner => 18 * 0x1_0000_0000,
            ProgramError::MaxAccountsDataAllocationsExceeded => 19 * 0x1_0000_0000,
            ProgramError::InvalidRealloc => 20 * 0x1_0000_0000,
            ProgramError::MaxInstructionTraceLengthExceeded => 21 * 0x1_0000_0000,
            ProgramError::BuiltinProgramsMustConsumeComputeUnits => 22 * 0x1_0000_0000,
            ProgramError::InvalidAccountOwner => 23 * 0x1_0000_0000,
            ProgramError::ArithmeticOverflow => 24 * 0x1_0000_0000,
            ProgramError::Immutable => 25 * 0x1_0000_0000,
            ProgramError::IncorrectAuthority => 26 * 0x1_0000_0000,
        }
    }

    /// The error that the ledger means by `code`.
    pub fn from_code(code: u64) -> (error: ProgramError)
        ensures
            error == ProgramError::of_code(code),
    {
        let low: u64 = code % 0x1_0000_0000;
        let high: u64 = code / 0x1_0000_0000;
        if low != 0 || high == 0 || high > 26 {
            return ProgramError::Custom(low as u32);
        }
        match high {
            1 => ProgramError::Custom(0),
            2 => ProgramError::InvalidArgument,
            3 => ProgramError::InvalidInstructionData,
            4 => ProgramError::InvalidAccountData,
            5 => ProgramError::AccountDataTooSmall,
            6 => ProgramError::InsufficientFunds,
            7 => ProgramError::IncorrectProgramId,
            8 => ProgramError::MissingRequiredSignature,
            9 => ProgramError::AccountAlreadyInitialized,
            10 => ProgramError::UninitializedAccount,
            11 => ProgramError::NotEnoughAccountKeys,
            12 => ProgramError::AccountBorrowFailed,
            13 => ProgramError::MaxSeedLengthExceeded,
            14 => ProgramError::InvalidSeeds,
            15 => ProgramError::BorshIoError,
            16 => ProgramError::AccountNotRentExempt,
            17 => ProgramError::UnsupportedSysvar,
            18 => ProgramError::IllegalOwner,
            19 => ProgramError::MaxAccountsDataAllocationsExceeded,
            20 => ProgramError::InvalidRealloc,
            21 => ProgramError::MaxInstructionTraceLengthExceeded,
            22 => ProgramError::BuiltinProgramsMustConsumeComputeUnits,
            23 => ProgramError::InvalidAccountOwner,
            24 => ProgramError::ArithmeticOverflow,
            25 => ProgramError::Immutable,
            _ => ProgramError::IncorrectAuthority,
        }
    }

    /// Every error is the one that its own number means.
    pub proof fn lemma_code_round_trip(self)
        ensures
            ProgramError::of_code(self.code()) == self,
    {
    }
}

impl From<VaultWhitelistError> for ProgramError {
    fn from(e: VaultWhitelistError) -> (ret: ProgramError) {
        ProgramError::Custom(u32::from(e))
    }
}

impl vstd::std_specs::convert::FromSpecImpl<VaultWhitelistError> for ProgramError {
    open spec fn obeys_from_spec() -> bool {
        true
    }

    open spec fn from_spec(e: VaultWhitelistError) -> ProgramError {
        ProgramError::Custom(e.code())
    }
}

} // verus!
