//! Failures of the ownership check and the code that stands for each.

use vstd::prelude::*;

verus! {

/// A failure that the hosting environment reports for one lookup.
#[derive(Clone, Copy, Debug, PartialEq, Eq)]
pub enum SysError {
    /// The position asked for lies beyond the last item.
    IndexOutOfBound,
    /// The item exists but lacks the field asked for.
    ItemMissing,
    /// The buffer offered was too small; the payload is the length needed.
    LengthNotEnough(usize),
    /// The bytes returned do not decode as the structure asked for.
    Encoding,
    /// Any other failure, with the number the environment gave.
    Unknown(u64),
}

/// Why a validation ended in rejection.
#[derive(Clone, Copy, Debug, PartialEq, Eq)]
pub enum Error {
    /// A lookup failed in a way the check does not interpret.
    Environment(SysError),
    /// The script argument is absent or not exactly 32 bytes long.
    NoValidArgs,
    /// No input cell carries the type hash named by the script argument,
    /// or the cell or its witness could not be found when read.
    NoPuppetCellFound,
    /// More than one input cell carries that type hash.
    RequiredOnlyOnePuppet,
    /// The curve library's precomputed data could not be loaded.
    LoadPrefilledData,
    /// No public key could be recovered from the signature.
    RecoverPubkey,
    /// The recovered key does not hash to the committed public-key hash.
    WrongPublicKey,
    /// The puppet cell's data is not exactly 20 bytes long.
    WrongPubkeyHashLength,
    /// The witness could not be read as witness arguments.
    LoadWitnessArgs,
    /// The witness arguments carry no lock field.
    WitnessArgsEncoding,
    /// The lock field is too short to hold a recoverable signature.
    WitnessLockTooShort,
}

/// The code that stands for an unclassified environment failure.
pub const CODE_UNKNOWN: i8 = -1;

impl SysError {
    /// The number that stands for this environment failure.
    pub open spec fn spec_code(self) -> i8 {
        match self {
            SysError::IndexOutOfBound => 1,
            SysError::ItemMissing => 2,
            SysError::LengthNotEnough(_) => 3,
            SysError::Encoding => 4,
            SysError::Unknown(_) => CODE_UNKNOWN,
        }
    }

    /// The number that stands for this environment failure.
    pub fn code(&self) -> (c: i8)
        ensures
            c == self.spec_code(),
    {
        match self {
            SysError::IndexOutOfBound => 1,
            SysError::ItemMissing => 2,
            SysError::LengthNotEnough(_) => 3,
            SysError::Encoding => 4,
            SysError::Unknown(_) => CODE_UNKNOWN,
        }
    }

    /// Whether two environment failures are of the same kind, whatever
    /// length or number they carry.
    pub open spec fn same_kind(self, other: SysError) -> bool {
        match (self, other) {
            (SysError::IndexOutOfBound, SysError::IndexOutOfBound) => true,
            (SysError::ItemMissing, SysError::ItemMissing) => true,
            (SysError::LengthNotEnough(_), SysError::LengthNotEnough(_)) => true,
            (SysError::Encoding, SysError::Encoding) => true,
            (SysError::Unknown(_), SysError::Unknown(_)) => true,
            _ => false,
        }
    }
}

impl Error {
    /// The number that the environment is handed for this failure.
    pub open spec fn spec_code(self) -> i8 {
        match self {
            Error::Environment(e) => e.spec_code(),
            Error::NoValidArgs => 5,
            Error::NoPuppetCellFound => 6,
            Error::RequiredOnlyOnePuppet => 7,
            Error::LoadPrefilledData => 8,
            Error::RecoverPubkey => 9,
            Error::WrongPublicKey => 10,
            Error::WrongPubkeyHashLength => 11,
            Error::LoadWitnessArgs => 12,
            Error::WitnessArgsEncoding => 13,
            Error::WitnessLockTooShort => 14,
        }
    }

    /// The number that the environment is handed for this failure.
    pub fn code(&self) -> (c: i8)
        ensures
            c == self.spec_code(),
            c != 0,
    {
        match self {
            Error::Environment(e) => e.code(),
            Error::NoValidArgs => 5,
            Error::NoPuppetCellFound => 6,
            Error::RequiredOnlyOnePuppet => 7,
            Error::LoadPrefilledData => 8,
            Error::RecoverPubkey => 9,
            Error::WrongPublicKey => 10,
            Error::WrongPubkeyHashLength => 11,
            Error::LoadWitnessArgs => 12,
            Error::WitnessArgsEncoding => 13,
            Error::WitnessLockTooShort => 14,
        }
    }

    /// Whether two failures are of the same kind: the same variant, and for
    /// environment failures the same kind of environment failure.
    pub open spec fn same_kind(self, other: Error) -> bool {
        match (self, other) {
            (Error::Environment(a), Error::Environment(b)) => a.same_kind(b),
            (Error::Environment(_), _) => false,
            (_, Error::Environment(_)) => false,
            _ => self == other,
        }
    }
}

/// The number a finished validation hands to the environment: 0 for
/// acceptance, the failure's own number for rejection.
pub open spec fn spec_exit_code(verdict: Result<(), Error>) -> i8 {
    match verdict {
        Ok(_) => 0,
        Err(e) => e.spec_code(),
    }
}

/// The number a finished validation hands to the environment.
pub fn exit_code(verdict: &Result<(), Error>) -> (c: i8)
    ensures
        c == spec_exit_code(*verdict),
        c == 0 <==> verdict is Ok,
{
    match verdict {
        Ok(_) => 0,
        Err(e) => e.code(),
    }
}

/// Every kind of failure has a number of its own, and none of them is the
/// number of acceptance.
pub proof fn lemma_codes_distinct(a: Error, b: Error)
    ensures
        a.spec_code() == b.spec_code() <==> a.same_kind(b),
        a.spec_code() != 0,
{
}

} // verus!
