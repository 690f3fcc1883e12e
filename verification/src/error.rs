//! The error that every decoder of this crate returns.
use vstd::prelude::*;

verus! {

/// Why a buffer was not decoded.
#[derive(Debug, Clone, Copy, PartialEq, Eq, Structural)]
pub enum DecodeError {
    /// The buffer holds fewer bytes than the record has.
    TooShort,
    /// The bytes of the record could not be taken as a record image.
    LayoutMismatch,
    /// The record's magic number is not the one of its format.
    InvalidMagic { observed: i64, expected: i64 },
    /// The record's format version is not the one this crate reads.
    InvalidVersion { observed: i64, expected: i64 },
}

} // verus!
