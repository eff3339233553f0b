//! A MIDI file held in memory: its bytes, how far they have been read, and
//! the header that was decoded from them.

use crate::encoding::{be_dword, be_word, byte_text, join_dword, join_word, reinterpret_signed};
use crate::error::{Fault, HeaderError};
use crate::header::{bytes_consumed, decode_header, header_identifier, DecodedHeader, FileFormat,
    HEADER_LENGTH, HEADER_SIZE};
use vstd::prelude::*;
use vstd::string::StringExecFns;

verus! {

/// The mathematical content of a `MIDIFile`.
pub struct FileState {
    /// The bytes of the file, which never change.
    pub bytes: Seq<u8>,
    /// How many of them have been read.
    pub position: nat,
    /// The header that was decoded last.
    pub header: DecodedHeader,
}

impl FileState {
    /// The read position lies inside the bytes or just behind them.
    pub open spec fn in_bounds(self) -> bool {
        self.position <= self.bytes.len()
    }

    /// The bytes that have not been read yet.
    pub open spec fn remaining(self) -> Seq<u8> {
        self.bytes.skip(self.position as int)
    }

    /// Whether `n` more bytes can be read.
    pub open spec fn has(self, n: nat) -> bool {
        self.position + n <= self.bytes.len()
    }

    /// The next `n` bytes.
    pub open spec fn next(self, n: nat) -> Seq<u8>
        recommends
            self.has(n),
    {
        self.bytes.subrange(self.position as int, (self.position + n) as int)
    }

    /// The state with the read position at `position`.
    pub open spec fn at(self, position: nat) -> FileState {
        FileState { bytes: self.bytes, position, header: self.header }
    }

    /// The state after an attempt to read a field of `n` bytes: the position is
    /// behind the field where the field is there, and at the end where it is cut
    /// short.
    pub open spec fn after_read(self, n: nat) -> FileState {
        if self.has(n) {
            self.at(self.position + n)
        } else {
            self.at(self.bytes.len())
        }
    }
}

/// A MIDI file whose header chunk has been decoded.
#[derive(Debug)]
pub struct MIDIFile {
    buffer: Vec<u8>,
    pos: usize,
    header: DecodedHeader,
}

impl View for MIDIFile {
    type V = FileState;

    closed spec fn view(&self) -> FileState {
        FileState { bytes: self.buffer@, position: self.pos as nat, header: self.header }
    }
}

impl MIDIFile {
    #[verifier::type_invariant]
    spec fn position_is_inside(self) -> bool {
        self.pos <= self.buffer.len()
    }

    /// Takes the bytes of a file and decodes the header chunk that they start
    /// with. The file is returned only where the header is valid, with the read
    /// position just behind the header; otherwise the first thing that is wrong
    /// with the header is reported.
    pub fn new(buffer: Vec<u8>) -> (r: Result<MIDIFile, HeaderError>)
        ensures
            match r {
                Ok(file) => {
                    &&& decode_header(buffer@) == Ok::<DecodedHeader, Fault>(file@.header)
                    &&& file@.bytes == buffer@
                    &&& file@.position == HEADER_SIZE
                    &&& file@.in_bounds()
                    &&& file@.header.valid()
                },
                Err(e) => decode_header(buffer@) == Err::<DecodedHeader, Fault>(e@),
            },
    {
        // No caller sees this header: decoding replaces it, or the file is
        // dropped with the error.
        let mut file = MIDIFile {
            buffer,
            pos: 0,
            header: DecodedHeader {
                format: FileFormat::SingleTrack,
                track_chunk_count: 0,
                division: 0,
            },
        };
        assert(file@.remaining() == file@.bytes);
        match file.read_header() {
            Ok(()) => Ok(file),
            Err(e) => Err(e),
        }
    }

    /// Decodes the header chunk that starts at the read position. The fields are
    /// read in their order and the first one that is cut short or breaks its rule
    /// ends the reading: the error names it, the position stays behind what was
    /// read, and the header decoded before is kept. Only a header that passes
    /// every rule replaces it.
    pub fn read_header(&mut self) -> (r: Result<(), HeaderError>)
        ensures
            old(self)@.in_bounds(),
            final(self)@.in_bounds(),
            final(self)@.bytes == old(self)@.bytes,
            final(self)@.position == old(self)@.position + bytes_consumed(old(self)@.remaining()),
            match r {
                Ok(()) => {
                    &&& decode_header(old(self)@.remaining()) == Ok::<DecodedHeader, Fault>(
                        final(self)@.header,
                    )
                    &&& final(self)@.header.valid()
                },
                Err(e) => {
                    &&& decode_header(old(self)@.remaining()) == Err::<DecodedHeader, Fault>(e@)
                    &&& final(self)@.header == old(self)@.header
                },
            },
    {
        proof {
            use_type_invariant(&*self);
            lemma_fields_of_remaining(old(self)@);
            reveal_strlit("MThd");
            assert("MThd"@ == header_identifier());
        }
        let identifier = self.get_string(4)?;
        let expected = String::from_str("MThd");
        if !(identifier == expected) {
            return Err(HeaderError::InvalidIdentifier { expected, actual: identifier });
        }
        let length: u32 = self.get_dword()?;
        if length != HEADER_LENGTH {
            return Err(HeaderError::InvalidHeaderLength { expected: HEADER_LENGTH, actual: length });
        }
        let code: u16 = self.get_word()?;
        let format = match code {
            0 => FileFormat::SingleTrack,
            1 => FileFormat::MultipleTrack,
            2 => FileFormat::MultipleSong,
            _ => {
                return Err(HeaderError::InvalidFormatCode { actual: code });
            },
        };
        let track_chunk_count: u16 = self.get_word()?;
        if track_chunk_count == 0 {
            return Err(HeaderError::ZeroTrackChunks);
        }
        let division: i16 = reinterpret_signed(self.get_word()?);
        if division == 0 {
            return Err(HeaderError::ZeroDivision);
        }
        self.header = DecodedHeader { format, track_chunk_count, division };
        Ok(())
    }

    /// The header that was decoded last. Of every file the read position lies
    /// inside its bytes or just behind them.
    pub fn header(&self) -> (header: DecodedHeader)
        ensures
            header == self@.header,
            self@.in_bounds(),
    {
        proof {
            use_type_invariant(self);
        }
        self.header
    }

    /// Reads one byte and steps over it. Fails where no byte is left.
    pub fn get_byte(&mut self) -> (r: Result<u8, HeaderError>)
        ensures
            old(self)@.in_bounds(),
            final(self)@ == old(self)@.after_read(1),
            match r {
                Ok(b) => old(self)@.has(1) && b == old(self)@.bytes[old(self)@.position as int],
                Err(e) => !old(self)@.has(1) && e@ == Fault::UnexpectedEndOfFile,
            },
    {
        proof {
            use_type_invariant(&*self);
        }
        if self.pos == self.buffer.len() {
            return Err(HeaderError::UnexpectedEndOfFile);
        }
        let byte: u8 = self.buffer[self.pos];
        self.pos += 1;
        Ok(byte)
    }

    /// Reads `len` bytes as text, one character for each byte, the byte being the
    /// character's code. Fails where fewer than `len` bytes are left, and the
    /// bytes that were left are then read.
    pub fn get_string(&mut self, len: usize) -> (r: Result<String, HeaderError>)
        ensures
            old(self)@.in_bounds(),
            final(self)@ == old(self)@.after_read(len as nat),
            match r {
                Ok(text) => old(self)@.has(len as nat) && text@ == byte_text(
                    old(self)@.next(len as nat),
                ),
                Err(e) => !old(self)@.has(len as nat) && e@ == Fault::UnexpectedEndOfFile,
            },
    {
        proof {
            use_type_invariant(&*self);
        }
        let mut text = String::new();
        for i in 0..len
            invariant
                old(self)@.has(i as nat),
                self@ == old(self)@.at(old(self)@.position + i as nat),
                text@ == byte_text(old(self)@.next(i as nat)),
        {
            let byte: u8 = self.get_byte()?;
            text.push(byte as char);
            assert(text@ == byte_text(old(self)@.next((i + 1) as nat)));
        }
        Ok(text)
    }

    /// Reads a 16-bit number, the more significant byte first.
    pub fn get_word(&mut self) -> (r: Result<u16, HeaderError>)
        ensures
            old(self)@.in_bounds(),
            final(self)@ == old(self)@.after_read(2),
            match r {
                Ok(w) => old(self)@.has(2) && w == be_word(old(self)@.next(2)),
                Err(e) => !old(self)@.has(2) && e@ == Fault::UnexpectedEndOfFile,
            },
    {
        let hi: u8 = self.get_byte()?;
        let lo: u8 = self.get_byte()?;
        assert(old(self)@.next(2) == seq![hi, lo]);
        Ok(join_word(hi, lo))
    }

    /// Reads a 32-bit number, the most significant byte first.
    pub fn get_dword(&mut self) -> (r: Result<u32, HeaderError>)
        ensures
            old(self)@.in_bounds(),
            final(self)@ == old(self)@.after_read(4),
            match r {
                Ok(d) => old(self)@.has(4) && d == be_dword(old(self)@.next(4)),
                Err(e) => !old(self)@.has(4) && e@ == Fault::UnexpectedEndOfFile,
            },
    {
        let b0: u8 = self.get_byte()?;
        let b1: u8 = self.get_byte()?;
        let b2: u8 = self.get_byte()?;
        let b3: u8 = self.get_byte()?;
        assert(old(self)@.next(4) == seq![b0, b1, b2, b3]);
        Ok(join_dword(b0, b1, b2, b3))
    }
}

/// A field of the bytes that are left is the same field of all the bytes,
/// counted from the read position.
proof fn lemma_fields_of_remaining(state: FileState)
    requires
        state.in_bounds(),
    ensures
        state.remaining().len() == state.bytes.len() - state.position,
        forall|from: int, to: int|
            0 <= from <= to <= state.remaining().len() ==> #[trigger] state.remaining().subrange(
                from,
                to,
            ) == state.bytes.subrange(state.position + from, state.position + to),
{
}

/// `String::push` of the standard library appends one character to the end of
/// the string and leaves the rest of it as it was.
pub assume_specification[ String::push ](s: &mut String, ch: char)
    ensures
        final(s)@ == old(s)@.push(ch),
;

} // verus!
