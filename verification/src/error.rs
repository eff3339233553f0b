//! The ways in which decoding a header chunk can fail.

use vstd::prelude::*;

verus! {

/// Why a header chunk was rejected. Each value names the first rule that the
/// input broke and carries what was expected and what was found.
#[derive(Debug, PartialEq, Eq)]
#[allow(inconsistent_fields)]
pub enum HeaderError {
    /// The input ended inside a field.
    UnexpectedEndOfFile,
    /// The chunk does not start with the header identifier.
    InvalidIdentifier { expected: String, actual: String },
    /// The chunk declares a length other than that of a header.
    InvalidHeaderLength { expected: u32, actual: u32 },
    /// The format code names none of the three file formats.
    InvalidFormatCode { actual: u16 },
    /// The header announces no track chunk.
    ZeroTrackChunks,
    /// The division field is zero.
    ZeroDivision,
}

/// The mathematical content of a `HeaderError`: texts become sequences of
/// characters and numbers become integers.
#[allow(inconsistent_fields)]
pub enum Fault {
    UnexpectedEndOfFile,
    InvalidIdentifier { expected: Seq<char>, actual: Seq<char> },
    InvalidHeaderLength { expected: int, actual: int },
    InvalidFormatCode { actual: int },
    ZeroTrackChunks,
    ZeroDivision,
}

impl View for HeaderError {
    type V = Fault;

    open spec fn view(&self) -> Fault {
        match *self {
            HeaderError::UnexpectedEndOfFile => Fault::UnexpectedEndOfFile,
            HeaderError::InvalidIdentifier { expected, actual } => Fault::InvalidIdentifier {
                expected: expected@,
                actual: actual@,
            },
            HeaderError::InvalidHeaderLength { expected, actual } => Fault::InvalidHeaderLength {
                expected: expected as int,
                actual: actual as int,
            },
            HeaderError::InvalidFormatCode { actual } => Fault::InvalidFormatCode {
                actual: actual as int,
            },
            HeaderError::ZeroTrackChunks => Fault::ZeroTrackChunks,
            HeaderError::ZeroDivision => Fault::ZeroDivision,
        }
    }
}

} // verus!
