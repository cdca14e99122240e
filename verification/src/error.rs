//! The rejection and failure taxonomy, and its 1:1 mapping to the stable
//! negative integer codes that callers round-trip through.

use vstd::prelude::*;

verus! {

/// Every way an evaluation, a settings access, or a generation can fail.
/// `UnknownError` is a forward-compatibility escape hatch for integer codes
/// outside the documented taxonomy; no documented condition produces it.
#[derive(Clone, Debug, PartialEq, Eq, Structural)]
pub enum Error {
    FatalFailure,
    Integer,
    CfgfileOpen,
    CfgfileMalformed,
    UnknownSetting,
    NonIntSetting,
    NonStrSetting,
    MemAlloc,
    TooSimilar,
    MinDigits,
    MinUppers,
    MinLowers,
    MinOthers,
    MinLength,
    Palindrome,
    CaseChangesOnly,
    Rotated,
    MinClasses,
    MaxConsecutive,
    EmptyPassword,
    SamePassword,
    CracklibCheck,
    Rng,
    GenerationFailed,
    UserCheck,
    GecosCheck,
    MaxClassRepeat,
    BadWords,
    MaxSequence,
    UnknownError(i32),
}

/// The numeric code of each error: a distinct negative integer for every
/// documented reason; `UnknownError` carries its code through unchanged.
pub open spec fn spec_error_code(e: Error) -> int {
    match e {
        Error::FatalFailure => -1,
        Error::Integer => -2,
        Error::CfgfileOpen => -3,
        Error::CfgfileMalformed => -4,
        Error::UnknownSetting => -5,
        Error::NonIntSetting => -6,
        Error::NonStrSetting => -7,
        Error::MemAlloc => -8,
        Error::TooSimilar => -9,
        Error::MinDigits => -10,
        Error::MinUppers => -11,
        Error::MinLowers => -12,
        Error::MinOthers => -13,
        Error::MinLength => -14,
        Error::Palindrome => -15,
        Error::CaseChangesOnly => -16,
        Error::Rotated => -17,
        Error::MinClasses => -18,
        Error::MaxConsecutive => -19,
        Error::EmptyPassword => -20,
        Error::SamePassword => -21,
        Error::CracklibCheck => -22,
        Error::Rng => -23,
        Error::GenerationFailed => -24,
        Error::UserCheck => -25,
        Error::GecosCheck => -26,
        Error::MaxClassRepeat => -27,
        Error::BadWords => -28,
        Error::MaxSequence => -29,
        Error::UnknownError(c) => c as int,
    }
}

/// The error denoted by a numeric code: the inverse of `spec_error_code` on
/// the documented range, `UnknownError` elsewhere.
pub open spec fn spec_error_from_code(i: int) -> Error {
    if i == -1 {
        Error::FatalFailure
    } else if i == -2 {
        Error::Integer
    } else if i == -3 {
        Error::CfgfileOpen
    } else if i == -4 {
        Error::CfgfileMalformed
    } else if i == -5 {
        Error::UnknownSetting
    } else if i == -6 {
        Error::NonIntSetting
    } else if i == -7 {
        Error::NonStrSetting
    } else if i == -8 {
        Error::MemAlloc
    } else if i == -9 {
        Error::TooSimilar
    } else if i == -10 {
        Error::MinDigits
    } else if i == -11 {
        Error::MinUppers
    } else if i == -12 {
        Error::MinLowers
    } else if i == -13 {
        Error::MinOthers
    } else if i == -14 {
        Error::MinLength
    } else if i == -15 {
        Error::Palindrome
    } else if i == -16 {
        Error::CaseChangesOnly
    } else if i == -17 {
        Error::Rotated
    } else if i == -18 {
        Error::MinClasses
    } else if i == -19 {
        Error::MaxConsecutive
    } else if i == -20 {
        Error::EmptyPassword
    } else if i == -21 {
        Error::SamePassword
    } else if i == -22 {
        Error::CracklibCheck
    } else if i == -23 {
        Error::Rng
    } else if i == -24 {
        Error::GenerationFailed
    } else if i == -25 {
        Error::UserCheck
    } else if i == -26 {
        Error::GecosCheck
    } else if i == -27 {
        Error::MaxClassRepeat
    } else if i == -28 {
        Error::BadWords
    } else if i == -29 {
        Error::MaxSequence
    } else {
        Error::UnknownError(i as i32)
    }
}

impl Error {
    /// Decodes a numeric result code into its symbolic error.
    pub fn from_int(i: i32) -> (r: Self)
        ensures
            r == spec_error_from_code(i as int),
    {
        match i {
            -1 => Error::FatalFailure,
            -2 => Error::Integer,
            -3 => Error::CfgfileOpen,
            -4 => Error::CfgfileMalformed,
            -5 => Error::UnknownSetting,
            -6 => Error::NonIntSetting,
            -7 => Error::NonStrSetting,
            -8 => Error::MemAlloc,
            -9 => Error::TooSimilar,
            -10 => Error::MinDigits,
            -11 => Error::MinUppers,
            -12 => Error::MinLowers,
            -13 => Error::MinOthers,
            -14 => Error::MinLength,
            -15 => Error::Palindrome,
            -16 => Error::CaseChangesOnly,
            -17 => Error::Rotated,
            -18 => Error::MinClasses,
            -19 => Error::MaxConsecutive,
            -20 => Error::EmptyPassword,
            -21 => Error::SamePassword,
            -22 => Error::CracklibCheck,
            -23 => Error::Rng,
            -24 => Error::GenerationFailed,
            -25 => Error::UserCheck,
            -26 => Error::GecosCheck,
            -27 => Error::MaxClassRepeat,
            -28 => Error::BadWords,
            -29 => Error::MaxSequence,
            _ => Error::UnknownError(i),
        }
    }

    /// Encodes this error as its numeric result code.
    pub fn to_int(&self) -> (r: i32)
        ensures
            r as int == spec_error_code(*self),
    {
        match *self {
            Error::FatalFailure => -1,
            Error::Integer => -2,
            Error::CfgfileOpen => -3,
            Error::CfgfileMalformed => -4,
            Error::UnknownSetting => -5,
            Error::NonIntSetting => -6,
            Error::NonStrSetting => -7,
            Error::MemAlloc => -8,
            Error::TooSimilar => -9,
            Error::MinDigits => -10,
            Error::MinUppers => -11,
            Error::MinLowers => -12,
            Error::MinOthers => -13,
            Error::MinLength => -14,
            Error::Palindrome => -15,
            Error::CaseChangesOnly => -16,
            Error::Rotated => -17,
            Error::MinClasses => -18,
            Error::MaxConsecutive => -19,
            Error::EmptyPassword => -20,
            Error::SamePassword => -21,
            Error::CracklibCheck => -22,
            Error::Rng => -23,
            Error::GenerationFailed => -24,
            Error::UserCheck => -25,
            Error::GecosCheck => -26,
            Error::MaxClassRepeat => -27,
            Error::BadWords => -28,
            Error::MaxSequence => -29,
            Error::UnknownError(c) => c,
        }
    }
}

/// Every documented rejection reason maps to a code in `[-29, -1]` and back
/// to itself without loss; in particular two distinct documented reasons
/// never share a code.
pub proof fn lemma_error_code_round_trip(e: Error)
    requires
        !(e matches Error::UnknownError(_)),
    ensures
        -29 <= spec_error_code(e) <= -1,
        spec_error_from_code(spec_error_code(e)) == e,
{
}

} // verus!
