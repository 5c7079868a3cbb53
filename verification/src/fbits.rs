//! IEEE-754 binary32 scalars carried as raw bit patterns.
//!
//! The library never computes with floating-point values; each scalar is the
//! 32-bit pattern of a binary32 number, held in a `u32`. The few facts the
//! logic needs about such patterns are stated here: which patterns compare
//! equal to zero, the pattern of one, and how a word is laid out as bytes in
//! the encoded buffer.

use vstd::prelude::*;

verus! {

/// Bit pattern of binary32 `+0.0`.
pub const F32_POS_ZERO_BITS: u32 = 0x0000_0000;

/// Bit pattern of binary32 `-0.0`.
pub const F32_NEG_ZERO_BITS: u32 = 0x8000_0000;

/// Bit pattern of binary32 `1.0`.
pub const F32_ONE_BITS: u32 = 0x3f80_0000;

/// A binary32 value compares equal to `0.0` exactly when its pattern is the
/// one of `+0.0` or of `-0.0`.
pub open spec fn is_zero_bits(b: u32) -> bool {
    b == F32_POS_ZERO_BITS || b == F32_NEG_ZERO_BITS
}

/// Runtime test for `is_zero_bits`.
pub fn word_is_zero(b: u32) -> (r: bool)
    ensures
        r == is_zero_bits(b),
{
    b == F32_POS_ZERO_BITS || b == F32_NEG_ZERO_BITS
}

/// The four bytes of one 32-bit word, least significant first: the order in
/// which the encoded buffer stores every scalar.
pub open spec fn le_bytes_of_word(w: u32) -> Seq<u8> {
    seq![
        (w & 0xff) as u8,
        ((w >> 8) & 0xff) as u8,
        ((w >> 16) & 0xff) as u8,
        ((w >> 24) & 0xff) as u8,
    ]
}

/// The word read back from four bytes, least significant first.
pub open spec fn word_of_le_bytes(b0: u8, b1: u8, b2: u8, b3: u8) -> u32 {
    ((b0 as u32) | ((b1 as u32) << 8) | ((b2 as u32) << 16) | ((b3 as u32) << 24)) as u32
}

/// Appends the four little-endian bytes of `w` to `out`.
pub fn push_word_le(out: &mut Vec<u8>, w: u32)
    ensures
        final(out)@ == old(out)@ + le_bytes_of_word(w),
{
    let b0: u8 = (w & 0xff) as u8;
    let b1: u8 = ((w >> 8) & 0xff) as u8;
    let b2: u8 = ((w >> 16) & 0xff) as u8;
    let b3: u8 = ((w >> 24) & 0xff) as u8;
    out.push(b0);
    out.push(b1);
    out.push(b2);
    out.push(b3);
    assert(out@ =~= old(out)@ + le_bytes_of_word(w));
}

} // verus!
