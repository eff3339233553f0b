//! What holds of every input, proved from the definition of
//! `decode_header`.

use crate::error::Fault;
use crate::header::{bytes_consumed, decode_header, division_field, format_field, format_of_code,
    header_identifier, identifier_field, length_field, track_count_field, DecodedHeader,
    DivisionKind, FileFormat, HEADER_LENGTH, HEADER_SIZE};
use crate::midi_file::FileState;
use vstd::prelude::*;

verus! {

/// Every field that `s` holds whole passes its rule.
pub open spec fn whole_fields_pass(s: Seq<u8>) -> bool {
    &&& s.len() >= 4 ==> identifier_field(s) == header_identifier()
    &&& s.len() >= 8 ==> length_field(s) == HEADER_LENGTH
    &&& s.len() >= 10 ==> format_field(s) <= 2
    &&& s.len() >= 12 ==> track_count_field(s) != 0
    &&& s.len() >= 14 ==> division_field(s) != 0
}

/// The bytes that spell the header identifier.
pub open spec fn identifier_bytes() -> Seq<u8> {
    seq![0x4Du8, 0x54u8, 0x68u8, 0x64u8]
}

/// The format code that stands for a file format.
pub open spec fn code_of_format(format: FileFormat) -> int {
    match format {
        FileFormat::SingleTrack => 0,
        FileFormat::MultipleTrack => 1,
        FileFormat::MultipleSong => 2,
    }
}

/// The two bytes that spell `value`, the more significant first, a negative
/// value in two's complement.
pub open spec fn word_bytes(value: int) -> Seq<u8>
    recommends
        -0x8000 <= value < 0x1_0000,
{
    let unsigned = if value < 0 {
        value + 0x1_0000
    } else {
        value
    };
    seq![(unsigned / 0x100) as u8, (unsigned % 0x100) as u8]
}

/// The fourteen bytes that spell a header.
pub open spec fn header_bytes(header: DecodedHeader) -> Seq<u8> {
    identifier_bytes() + seq![0u8, 0u8, 0u8, 6u8] + word_bytes(code_of_format(header.format))
        + word_bytes(header.track_chunk_count as int) + word_bytes(header.division as int)
}

/// Reading never moves the position back and never takes it past the end:
/// an attempt to read a field leaves the position where it was or moves it
/// forward, by the width of the field where the field is there, and the bytes
/// and the header stay as they were.
pub proof fn position_only_advances(state: FileState, n: nat)
    requires
        state.in_bounds(),
    ensures
        state.after_read(n).in_bounds(),
        state.position <= state.after_read(n).position <= state.position + n,
        state.has(n) <==> state.after_read(n).position == state.position + n,
        state.after_read(n).bytes == state.bytes,
        state.after_read(n).header == state.header,
{
}

/// Decoding a header reads no more than fourteen bytes and none that is not
/// there.
pub proof fn decoding_reads_inside_the_input(s: Seq<u8>)
    ensures
        bytes_consumed(s) <= s.len(),
        bytes_consumed(s) <= HEADER_SIZE,
{
}

/// An input of fewer than fourteen bytes is never a header. It is reported as
/// ending unexpectedly exactly where every field that it holds whole passes
/// its rule, and the reading then stops at the end of the input. Where a whole
/// field breaks its rule, that field is reported instead.
pub proof fn truncated_input_is_rejected(s: Seq<u8>)
    requires
        s.len() < HEADER_SIZE,
    ensures
        decode_header(s) is Err,
        whole_fields_pass(s) <==> decode_header(s) == Err::<DecodedHeader, Fault>(
            Fault::UnexpectedEndOfFile,
        ),
        whole_fields_pass(s) ==> bytes_consumed(s) == s.len(),
{
}

/// An input of at least fourteen bytes whose fields all pass their rules is a
/// header, and the header decoded from it holds exactly what the fields spell.
pub proof fn valid_header_is_decoded(s: Seq<u8>)
    requires
        s.len() >= HEADER_SIZE,
        identifier_field(s) == header_identifier(),
        length_field(s) == HEADER_LENGTH,
        0 <= format_field(s) <= 2,
        track_count_field(s) >= 1,
        division_field(s) != 0,
    ensures
        decode_header(s) == Ok::<DecodedHeader, Fault>(
            DecodedHeader {
                format: format_of_code(format_field(s)),
                track_chunk_count: track_count_field(s) as u16,
                division: division_field(s) as i16,
            },
        ),
        decode_header(s)->Ok_0.track_chunk_count == track_count_field(s),
        decode_header(s)->Ok_0.division == division_field(s),
        bytes_consumed(s) == HEADER_SIZE,
{
}

/// Whatever decodes as a header is at least fourteen bytes long, passes every
/// rule, and gives a header that announces a track chunk and has a division
/// other than zero.
pub proof fn decoded_header_is_valid(s: Seq<u8>)
    requires
        decode_header(s) is Ok,
    ensures
        s.len() >= HEADER_SIZE,
        whole_fields_pass(s),
        decode_header(s)->Ok_0.valid(),
{
}

/// The bytes behind the header play no part in decoding it.
pub proof fn trailing_bytes_are_ignored(s: Seq<u8>)
    requires
        s.len() >= HEADER_SIZE,
    ensures
        decode_header(s) == decode_header(s.take(HEADER_SIZE as int)),
{
    let head = s.take(HEADER_SIZE as int);
    assert(head.subrange(0, 4) == s.subrange(0, 4));
    assert(head.subrange(4, 8) == s.subrange(4, 8));
    assert(head.subrange(8, 10) == s.subrange(8, 10));
    assert(head.subrange(10, 12) == s.subrange(10, 12));
    assert(head.subrange(12, 14) == s.subrange(12, 14));
}

/// The identifier of an input is the header identifier exactly where the
/// input starts with the bytes 4D 54 68 64.
pub proof fn identifier_is_four_bytes(s: Seq<u8>)
    requires
        s.len() >= 4,
    ensures
        identifier_field(s) == header_identifier() <==> s.subrange(0, 4) == identifier_bytes(),
{
    let text = identifier_field(s);
    let field = s.subrange(0, 4);
    assert(text.len() == 4);
    assert(text[0] == field[0] as char);
    assert(text[1] == field[1] as char);
    assert(text[2] == field[2] as char);
    assert(text[3] == field[3] as char);
    if field == identifier_bytes() {
        assert(text == header_identifier());
    }
    if text == header_identifier() {
        assert(field[0] == 0x4Du8);
        assert(field[1] == 0x54u8);
        assert(field[2] == 0x68u8);
        assert(field[3] == 0x64u8);
        assert(field == identifier_bytes());
    }
}

/// An input that starts with four bytes other than the header identifier is
/// reported as having an invalid identifier, with the identifier that was
/// expected and the four characters that were found.
pub proof fn identifier_mismatch_is_reported(s: Seq<u8>)
    requires
        s.len() >= 4,
        identifier_field(s) != header_identifier(),
    ensures
        decode_header(s) == Err::<DecodedHeader, Fault>(
            Fault::InvalidIdentifier { expected: header_identifier(), actual: identifier_field(s) },
        ),
        bytes_consumed(s) == 4,
{
}

/// A chunk with the header identifier that declares a length other than six
/// is reported as having an invalid header length, with the length that was
/// expected and the length that was declared.
pub proof fn wrong_length_is_reported(s: Seq<u8>)
    requires
        s.len() >= 8,
        identifier_field(s) == header_identifier(),
        length_field(s) != HEADER_LENGTH,
    ensures
        decode_header(s) == Err::<DecodedHeader, Fault>(
            Fault::InvalidHeaderLength { expected: 6, actual: length_field(s) },
        ),
        bytes_consumed(s) == 8,
{
}

/// A header whose format code is three or more is reported as having an
/// invalid format code, with that code. A format code of zero, one or two is
/// never reported, and a header that is decoded has the format that its code
/// stands for.
pub proof fn format_code_is_judged(s: Seq<u8>)
    requires
        s.len() >= 10,
        identifier_field(s) == header_identifier(),
        length_field(s) == HEADER_LENGTH,
    ensures
        format_field(s) >= 3 ==> decode_header(s) == Err::<DecodedHeader, Fault>(
            Fault::InvalidFormatCode { actual: format_field(s) },
        ),
        format_field(s) >= 3 ==> bytes_consumed(s) == 10,
        format_field(s) <= 2 ==> !(decode_header(s) matches Err(Fault::InvalidFormatCode { .. })),
        decode_header(s) matches Ok(header) ==> {
            &&& format_field(s) == 0 <==> header.format == FileFormat::SingleTrack
            &&& format_field(s) == 1 <==> header.format == FileFormat::MultipleTrack
            &&& format_field(s) == 2 <==> header.format == FileFormat::MultipleSong
        },
{
}

/// A header that announces no track chunk is reported as such whenever its
/// identifier, length and format code are in order, whatever its division is
/// and whether or not the division is there at all.
pub proof fn zero_track_chunks_is_reported(s: Seq<u8>)
    requires
        s.len() >= 12,
        identifier_field(s) == header_identifier(),
        length_field(s) == HEADER_LENGTH,
        format_field(s) <= 2,
        track_count_field(s) == 0,
    ensures
        decode_header(s) == Err::<DecodedHeader, Fault>(Fault::ZeroTrackChunks),
        bytes_consumed(s) == 12,
{
}

/// A header whose other fields are in order is reported as having a zero
/// division exactly where its division is zero. Any other division is
/// accepted, whatever its sign: a positive one counts ticks per beat and a
/// negative one is in SMPTE format.
pub proof fn division_is_judged(s: Seq<u8>)
    requires
        s.len() >= HEADER_SIZE,
        identifier_field(s) == header_identifier(),
        length_field(s) == HEADER_LENGTH,
        format_field(s) <= 2,
        track_count_field(s) != 0,
    ensures
        division_field(s) == 0 <==> decode_header(s) == Err::<DecodedHeader, Fault>(
            Fault::ZeroDivision,
        ),
        division_field(s) != 0 <==> decode_header(s) is Ok,
        division_field(s) > 0 ==> decode_header(s)->Ok_0.division_kind()
            == DivisionKind::TicksPerBeat,
        division_field(s) < 0 ==> decode_header(s)->Ok_0.division_kind() == DivisionKind::Smpte,
{
}

/// Decoding undoes spelling: the bytes that spell a valid header, followed by
/// any bytes at all, decode to that header.
pub proof fn decoding_inverts_spelling(header: DecodedHeader, rest: Seq<u8>)
    requires
        header.valid(),
    ensures
        decode_header(header_bytes(header) + rest) == Ok::<DecodedHeader, Fault>(header),
{
    let s = header_bytes(header) + rest;
    assert(s.subrange(0, 4) == identifier_bytes());
    identifier_is_four_bytes(s);
    assert(s.subrange(4, 8) == seq![0u8, 0u8, 0u8, 6u8]);
    assert(s.subrange(8, 10) == word_bytes(code_of_format(header.format)));
    assert(s.subrange(10, 12) == word_bytes(header.track_chunk_count as int));
    assert(s.subrange(12, 14) == word_bytes(header.division as int));
}

} // verus!
