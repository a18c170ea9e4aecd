//! From the words of a reply to a scaled reading.

use vstd::prelude::*;
use crate::register::{Register, Scale, signed_word, unsigned_pair, unsigned_word};
use crate::word::{combine_words, combined, signed16, swap_bytes, swapped, to_signed16};

verus! {

/// A decoded quantity: the integer that the device sent and the factor that
/// turns it into the physical unit. The physical value is `raw` times the
/// factor; this crate keeps it exact, as a count of ten-thousandths.
#[derive(Clone, Copy, Debug, PartialEq, Eq, Structural)]
pub struct Reading {
    pub raw: i64,
    pub scale: Scale,
}

impl Reading {
    /// The raw integer is one that one or two register words can hold.
    pub open spec fn well_formed(self) -> bool {
        -0x8000 <= self.raw <= 0xffff_ffff
    }

    /// The physical value, in ten-thousandths of the unit.
    pub open spec fn value(self) -> int {
        self.raw * self.scale.ten_thousandths
    }

    /// The physical value, in ten-thousandths of the unit.
    pub fn ten_thousandths(&self) -> (v: i64)
        requires
            self.well_formed(),
        ensures
            v == self.value(),
    {
        let factor: i64 = self.scale.ten_thousandths as i64;
        assert(-0x8000 * 0x1_0000 <= self.raw * factor <= 0xffff_ffff * 0x1_0000)
            by (nonlinear_arith)
            requires
                -0x8000 <= self.raw <= 0xffff_ffff,
                0 <= factor < 0x1_0000,
        ;
        self.raw * factor
    }
}

/// The integer that the words of a reply stand for under the layout of `reg`.
/// One word is read plain or with its bytes exchanged, then as signed or
/// unsigned; of two words the first holds the low half.
pub open spec fn raw_value(reg: Register, words: Seq<u16>) -> int
    recommends
        reg.well_formed(),
        words.len() == reg.words,
{
    if reg.words == 2 {
        combined(words[0], words[1])
    } else {
        let w = if reg.byte_swapped {
            swapped(words[0])
        } else {
            words[0]
        };
        if reg.signed {
            signed16(w)
        } else {
            w as int
        }
    }
}

/// The reading that the words of a reply stand for.
pub open spec fn decoded(reg: Register, words: Seq<u16>) -> Reading
    recommends
        reg.well_formed(),
        words.len() == reg.words,
{
    Reading { raw: raw_value(reg, words) as i64, scale: reg.scale }
}

impl Register {
    /// Decodes the words of a reply to a read of this row.
    pub fn decode(&self, words: &Vec<u16>) -> (reading: Reading)
        requires
            self.well_formed(),
            words.len() == self.words,
        ensures
            reading == decoded(*self, words@),
            reading.raw == raw_value(*self, words@),
            reading.scale == self.scale,
            reading.value() == raw_value(*self, words@) * self.scale.ten_thousandths,
            reading.well_formed(),
    {
        let raw: i64 = if self.words == 2 {
            combine_words(words[0], words[1]) as i64
        } else {
            let w: u16 = if self.byte_swapped {
                swap_bytes(words[0])
            } else {
                words[0]
            };
            if self.signed {
                to_signed16(w) as i64
            } else {
                w as i64
            }
        };
        Reading { raw, scale: self.scale }
    }
}

/// A plain unsigned word `w` under the factor `scale` reads as `w` times the
/// factor.
pub proof fn unsigned_word_value(address: u16, scale: Scale, w: u16)
    ensures
        decoded(unsigned_word(address, scale), seq![w]).value() == w * scale.ten_thousandths,
{
}

/// A plain signed word `w` under the factor `scale` reads as its
/// two's-complement value times the factor.
pub proof fn signed_word_value(address: u16, scale: Scale, w: u16)
    ensures
        decoded(signed_word(address, scale), seq![w]).value() == signed16(w)
            * scale.ten_thousandths,
        w < 0x8000 ==> decoded(signed_word(address, scale), seq![w]).raw == w,
        w >= 0x8000 ==> decoded(signed_word(address, scale), seq![w]).raw == w - 0x1_0000,
{
}

/// Two words `[lo, hi]` under the factor `scale` read as `lo + (hi << 16)`
/// times the factor.
pub proof fn word_pair_value(address: u16, scale: Scale, lo: u16, hi: u16)
    ensures
        decoded(unsigned_pair(address, scale), seq![lo, hi]).value() == (lo + hi * 0x1_0000)
            * scale.ten_thousandths,
        decoded(unsigned_pair(address, scale), seq![lo, hi]).raw == ((lo as u32) | ((hi as u32)
            << 16)),
{
    assert((lo as u32) | ((hi as u32) << 16) == (hi as u32) * 0x1_0000 + (lo as u32))
        by (bit_vector);
}

/// A byte-swapped signed word reads as the plain signed word with the two
/// bytes exchanged would.
pub proof fn swapped_word_value(address: u16, scale: Scale, w: u16)
    ensures
        decoded(
            Register { address, words: 1, signed: true, byte_swapped: true, scale },
            seq![w],
        ) == decoded(signed_word(address, scale), seq![swapped(w)]),
{
}

} // verus!
