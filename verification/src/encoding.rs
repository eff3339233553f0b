//! How the fields of a chunk are spelled in bytes: big-endian numbers and
//! one-byte characters.

use vstd::prelude::*;

verus! {

/// The number that two bytes spell, the more significant byte first.
pub open spec fn be_word(s: Seq<u8>) -> int
    recommends
        s.len() == 2,
{
    s[0] as int * 0x100 + s[1] as int
}

/// The number that four bytes spell, the most significant byte first.
pub open spec fn be_dword(s: Seq<u8>) -> int
    recommends
        s.len() == 4,
{
    s[0] as int * 0x100_0000 + s[1] as int * 0x1_0000 + s[2] as int * 0x100 + s[3] as int
}

/// The text that a run of bytes spells when every byte is the code of one
/// character.
pub open spec fn byte_text(s: Seq<u8>) -> Seq<char> {
    Seq::new(s.len(), |i: int| s[i] as char)
}

/// The two's-complement reading of a 16-bit word.
pub open spec fn as_signed(w: u16) -> int {
    if w < 0x8000 {
        w as int
    } else {
        w as int - 0x1_0000
    }
}

/// Joins two bytes into the word they spell.
pub fn join_word(hi: u8, lo: u8) -> (w: u16)
    ensures
        w == be_word(seq![hi, lo]),
{
    let w: u16 = (hi as u16) << 8 | (lo as u16);
    assert(((hi as u16) << 8 | (lo as u16)) == (hi as u16) * 0x100 + (lo as u16)) by (bit_vector);
    w
}

/// Joins four bytes into the double word they spell.
pub fn join_dword(b0: u8, b1: u8, b2: u8, b3: u8) -> (d: u32)
    ensures
        d == be_dword(seq![b0, b1, b2, b3]),
{
    let d: u32 = (b0 as u32) << 24 | (b1 as u32) << 16 | (b2 as u32) << 8 | (b3 as u32);
    assert(((b0 as u32) << 24 | (b1 as u32) << 16 | (b2 as u32) << 8 | (b3 as u32)) == (b0 as u32)
        * 0x100_0000 + (b1 as u32) * 0x1_0000 + (b2 as u32) * 0x100 + (b3 as u32)) by (bit_vector);
    d
}

/// Reads a word as a signed number without changing its bits.
pub fn reinterpret_signed(w: u16) -> (d: i16)
    ensures
        d == as_signed(w),
{
    let d: i16 = #[verifier::truncate] (w as i16);
    assert((w as i16) as int == (if w < 0x8000 { w as int } else { w as int - 0x1_0000 }))
        by (bit_vector);
    d
}

} // verus!
