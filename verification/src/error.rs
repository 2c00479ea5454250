//! The failures a loader operation can report.
use vstd::prelude::*;

verus! {

/// Why an operation was refused.
///
/// Every failure aborts the call with exactly one of these, and leaves
/// every account as it was.
#[derive(Clone, Copy, Debug, PartialEq, Eq, Structural)]
pub enum LoaderV4Error {
    /// The account is not owned by the loader.
    WrongOwner,
    /// The account's buffer is too short to hold a header.
    BufferTooSmall,
    /// An account that the operation must change is not writable.
    NotWritable,
    /// An account that must authorize the operation did not sign.
    MissingSignature,
    /// The signing authority is not the one the header names.
    WrongAuthority,
    /// The account is finalized and can never change again.
    Immutable,
    /// The operation needs a retracted program.
    NotRetracted,
    /// The operation needs a deployed program.
    NotDeployed,
    /// Too few slots have passed since the last deployment.
    CooldownActive,
    /// The account's balance does not cover its new size.
    InsufficientFunds,
    /// A write would reach beyond the end of the payload.
    OutOfBounds,
    /// The new authority is the current one.
    NoChange,
    /// The instruction bytes are malformed or cut short.
    InvalidInstructionData,
    /// The header's status field holds no known ordinal.
    InvalidAccountData,
    /// Fewer accounts were passed than the operation takes.
    NotEnoughAccountKeys,
    /// A balance does not fit in sixty-four bits.
    ArithmeticOverflow,
}

impl LoaderV4Error {
    /// The number under which the host knows this failure; several
    /// failures share the host's "invalid argument".
    pub open spec fn spec_builtin_index(self) -> u64 {
        match self {
            LoaderV4Error::WrongOwner => 23,
            LoaderV4Error::BufferTooSmall => 5,
            LoaderV4Error::NotWritable => 2,
            LoaderV4Error::MissingSignature => 8,
            LoaderV4Error::WrongAuthority => 26,
            LoaderV4Error::Immutable => 25,
            LoaderV4Error::NotRetracted => 2,
            LoaderV4Error::NotDeployed => 2,
            LoaderV4Error::CooldownActive => 2,
            LoaderV4Error::InsufficientFunds => 6,
            LoaderV4Error::OutOfBounds => 5,
            LoaderV4Error::NoChange => 2,
            LoaderV4Error::InvalidInstructionData => 3,
            LoaderV4Error::InvalidAccountData => 4,
            LoaderV4Error::NotEnoughAccountKeys => 11,
            LoaderV4Error::ArithmeticOverflow => 24,
        }
    }

    /// The code the host receives: the builtin index in the upper
    /// thirty-two bits, the lower thirty-two clear.
    pub open spec fn spec_code(self) -> u64 {
        (self.spec_builtin_index() * 0x1_0000_0000) as u64
    }

    /// The code under which the failure is surfaced to the host.
    pub fn code(&self) -> (code: u64)
        ensures
            code == self.spec_code(),
            code != 0,
    {
        let index: u64 = match self {
            LoaderV4Error::WrongOwner => 23,
            LoaderV4Error::BufferTooSmall | LoaderV4Error::OutOfBounds => 5,
            LoaderV4Error::NotWritable
            | LoaderV4Error::NotRetracted
            | LoaderV4Error::NotDeployed
            | LoaderV4Error::CooldownActive
            | LoaderV4Error::NoChange => 2,
            LoaderV4Error::MissingSignature => 8,
            LoaderV4Error::WrongAuthority => 26,
            LoaderV4Error::Immutable => 25,
            LoaderV4Error::InsufficientFunds => 6,
            LoaderV4Error::InvalidInstructionData => 3,
            LoaderV4Error::InvalidAccountData => 4,
            LoaderV4Error::NotEnoughAccountKeys => 11,
            LoaderV4Error::ArithmeticOverflow => 24,
        };
        index * 0x1_0000_0000
    }
}

} // verus!
