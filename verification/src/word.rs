//! Interpretation of raw 16-bit register words.

use vstd::prelude::*;

verus! {

/// The word `w` with its two bytes exchanged.
pub open spec fn swapped(w: u16) -> u16 {
    ((w % 256) * 256 + w / 256) as u16
}

/// The two's-complement reading of a 16-bit word.
pub open spec fn signed16(w: u16) -> int {
    if w < 0x8000 {
        w as int
    } else {
        w as int - 0x1_0000
    }
}

/// The 32-bit value whose least significant half is `lo` and whose most
/// significant half is `hi`.
pub open spec fn combined(lo: u16, hi: u16) -> int {
    lo as int + hi as int * 0x1_0000
}

/// Exchanges the two bytes of a word.
pub fn swap_bytes(w: u16) -> (r: u16)
    ensures
        r == swapped(w),
        swapped(r) == w,
{
    let lo: u16 = w & 0xff;
    let hi: u16 = w >> 8;
    assert(lo == w % 256 && hi == w / 256 && lo < 256 && hi < 256) by (bit_vector)
        requires
            lo == w & 0xff,
            hi == w >> 8,
    ;
    let r: u16 = lo * 256 + hi;
    assert(r % 256 == hi && r / 256 == lo);
    r
}

/// Reads a word as a signed two's-complement number.
pub fn to_signed16(w: u16) -> (r: i16)
    ensures
        r as int == signed16(w),
{
    if w < 0x8000 {
        w as i16
    } else {
        let below: u16 = 0xffff - w;
        -1i16 - (below as i16)
    }
}

/// Joins two words into one unsigned 32-bit value; `lo` holds the least
/// significant sixteen bits.
pub fn combine_words(lo: u16, hi: u16) -> (r: u32)
    ensures
        r as int == combined(lo, hi),
        r == (lo as u32) | ((hi as u32) << 16),
{
    let r: u32 = (hi as u32) * 0x1_0000 + (lo as u32);
    assert(r == (lo as u32) | ((hi as u32) << 16)) by (bit_vector)
        requires
            r == (hi as u32) * 0x1_0000 + (lo as u32),
    ;
    r
}

} // verus!
