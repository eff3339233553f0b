//! The header chunk: what it holds once decoded, which byte sequences are
//! headers, and what is wrong with those that are not.
//!
//! A header chunk is fourteen bytes, every number big-endian:
//!
//! | bytes  | field                                   |
//! |--------|-----------------------------------------|
//! | 0..4   | the identifier, the text `MThd`         |
//! | 4..8   | the length of what follows, always 6    |
//! | 8..10  | the format code, 0, 1 or 2              |
//! | 10..12 | the number of track chunks, at least 1  |
//! | 12..14 | the division, signed and not 0          |
//!
//! The fields are read and judged in this order, and the first one that is
//! cut short or breaks its rule decides the error.

use crate::encoding::{as_signed, be_dword, be_word, byte_text};
use crate::error::Fault;
use vstd::prelude::*;

verus! {

/// How the tracks of a file relate to one another.
#[derive(Debug, Clone, Copy, PartialEq, Eq, Structural)]
pub enum FileFormat {
    /// One track holds everything.
    SingleTrack,
    /// Several tracks that are played together.
    MultipleTrack,
    /// Several songs, each a track of its own.
    MultipleSong,
}

/// How the division field measures time.
#[derive(Debug, Clone, Copy, PartialEq, Eq, Structural)]
pub enum DivisionKind {
    /// A positive division counts ticks per beat.
    TicksPerBeat,
    /// A negative division is in SMPTE format.
    Smpte,
}

/// The three values that a valid header chunk declares.
#[derive(Debug, Clone, Copy, PartialEq, Eq, Structural)]
pub struct DecodedHeader {
    pub format: FileFormat,
    pub track_chunk_count: u16,
    pub division: i16,
}

impl DecodedHeader {
    /// What holds of every header that was decoded: it announces at least one
    /// track chunk and its division is not zero.
    pub open spec fn valid(self) -> bool {
        self.track_chunk_count >= 1 && self.division != 0
    }

    /// The reading of the division that its sign selects.
    pub open spec fn spec_division_kind(self) -> DivisionKind
        recommends
            self.valid(),
    {
        if self.division > 0 {
            DivisionKind::TicksPerBeat
        } else {
            DivisionKind::Smpte
        }
    }

    /// The reading of the division that its sign selects: ticks per beat where
    /// it is positive, SMPTE format where it is negative.
    #[verifier::when_used_as_spec(spec_division_kind)]
    pub fn division_kind(self) -> (kind: DivisionKind)
        ensures
            kind == self.spec_division_kind(),
    {
        if self.division > 0 {
            DivisionKind::TicksPerBeat
        } else {
            DivisionKind::Smpte
        }
    }
}

/// The number of bytes in a header chunk.
pub const HEADER_SIZE: usize = 14;

/// The length that a header chunk declares for itself.
pub const HEADER_LENGTH: u32 = 6;

/// The text that a header chunk starts with.
pub open spec fn header_identifier() -> Seq<char> {
    seq!['M', 'T', 'h', 'd']
}

/// The file format that a format code stands for.
pub open spec fn format_of_code(code: int) -> FileFormat
    recommends
        0 <= code <= 2,
{
    if code == 0 {
        FileFormat::SingleTrack
    } else if code == 1 {
        FileFormat::MultipleTrack
    } else {
        FileFormat::MultipleSong
    }
}

/// The identifier that `s` starts with, as text.
pub open spec fn identifier_field(s: Seq<u8>) -> Seq<char>
    recommends
        s.len() >= 4,
{
    byte_text(s.subrange(0, 4))
}

/// The length that the chunk at the start of `s` declares.
pub open spec fn length_field(s: Seq<u8>) -> int
    recommends
        s.len() >= 8,
{
    be_dword(s.subrange(4, 8))
}

/// The format code of the header at the start of `s`.
pub open spec fn format_field(s: Seq<u8>) -> int
    recommends
        s.len() >= 10,
{
    be_word(s.subrange(8, 10))
}

/// The number of track chunks that the header at the start of `s` announces.
pub open spec fn track_count_field(s: Seq<u8>) -> int
    recommends
        s.len() >= 12,
{
    be_word(s.subrange(10, 12))
}

/// The division of the header at the start of `s`, as the signed number it is.
pub open spec fn division_field(s: Seq<u8>) -> int
    recommends
        s.len() >= 14,
{
    as_signed(be_word(s.subrange(12, 14)) as u16)
}

/// What decoding the header chunk at the start of `s` gives: the header, or
/// the first thing that is wrong with `s`. Bytes after the header play no part.
pub open spec fn decode_header(s: Seq<u8>) -> Result<DecodedHeader, Fault> {
    if s.len() < 4 {
        Err(Fault::UnexpectedEndOfFile)
    } else if identifier_field(s) != header_identifier() {
        Err(Fault::InvalidIdentifier { expected: header_identifier(), actual: identifier_field(s) })
    } else if s.len() < 8 {
        Err(Fault::UnexpectedEndOfFile)
    } else if length_field(s) != HEADER_LENGTH {
        Err(Fault::InvalidHeaderLength { expected: HEADER_LENGTH as int, actual: length_field(s) })
    } else if s.len() < 10 {
        Err(Fault::UnexpectedEndOfFile)
    } else if format_field(s) > 2 {
        Err(Fault::InvalidFormatCode { actual: format_field(s) })
    } else if s.len() < 12 {
        Err(Fault::UnexpectedEndOfFile)
    } else if track_count_field(s) == 0 {
        Err(Fault::ZeroTrackChunks)
    } else if s.len() < 14 {
        Err(Fault::UnexpectedEndOfFile)
    } else if division_field(s) == 0 {
        Err(Fault::ZeroDivision)
    } else {
        Ok(
            DecodedHeader {
                format: format_of_code(format_field(s)),
                track_chunk_count: track_count_field(s) as u16,
                division: division_field(s) as i16,
            },
        )
    }
}

/// How many bytes of `s` are read before decoding ends. A field that is cut
/// short takes all that is left; a field that breaks its rule is the last one
/// read.
pub open spec fn bytes_consumed(s: Seq<u8>) -> nat {
    match decode_header(s) {
        Ok(_) => HEADER_SIZE as nat,
        Err(Fault::UnexpectedEndOfFile) => s.len(),
        Err(Fault::InvalidIdentifier { .. }) => 4,
        Err(Fault::InvalidHeaderLength { .. }) => 8,
        Err(Fault::InvalidFormatCode { .. }) => 10,
        Err(Fault::ZeroTrackChunks) => 12,
        Err(Fault::ZeroDivision) => 14,
    }
}

} // verus!
