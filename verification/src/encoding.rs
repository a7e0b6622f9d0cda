//! Numbers as bit patterns.
//!
//! Every measurement in this crate (a sample, a magnitude, an energy, a
//! tempo) is carried as the 32 bits of its IEEE 754 binary32 encoding, and
//! every time as the 64 bits of its binary64 encoding. This module orders
//! such patterns as the numbers they encode are ordered, which is all that
//! the rules of the pipeline need; arithmetic on them is left to the caller.
//! What speaks of the 64-bit patterns has `wide` in its name.

use vstd::prelude::*;

verus! {

/// The sign bit.
pub const SIGN: u32 = 0x8000_0000;

/// Positive infinity; every larger magnitude is not a number.
pub const INFINITY: u32 = 0x7f80_0000;

/// The encoding of 0.
pub const ZERO: u32 = 0x0000_0000;

/// The encoding of 0.001.
pub const THOUSANDTH: u32 = 0x3a83_126f;

/// The encoding of 0.5.
pub const HALF: u32 = 0x3f00_0000;

/// The encoding of 1.
pub const ONE: u32 = 0x3f80_0000;

/// The encoding of 2.
pub const TWO: u32 = 0x4000_0000;

/// The encoding of -1.
pub const MINUS_ONE: u32 = 0xbf80_0000;

/// The pattern without its sign bit.
pub open spec fn magnitude(bits: u32) -> int {
    if bits >= SIGN {
        bits - SIGN
    } else {
        bits as int
    }
}

/// Whether the pattern encodes no number at all.
pub open spec fn nan(bits: u32) -> bool {
    magnitude(bits) > INFINITY
}

/// Where the encoded number stands among all the others: a larger number has
/// a larger rank, and the two zeros share rank 0. Meaningful unless `nan`.
pub open spec fn rank(bits: u32) -> int {
    if bits >= SIGN {
        -magnitude(bits)
    } else {
        magnitude(bits)
    }
}

/// `a < b` between the encoded numbers; false as soon as one is not a number.
pub open spec fn lt(a: u32, b: u32) -> bool {
    !nan(a) && !nan(b) && rank(a) < rank(b)
}

/// `a <= b` between the encoded numbers; false as soon as one is not a number.
pub open spec fn le(a: u32, b: u32) -> bool {
    !nan(a) && !nan(b) && rank(a) <= rank(b)
}

/// `x` moved into `[lo, hi]`: a number below `lo` becomes `lo`, one above
/// `hi` becomes `hi`, and anything else, a pattern that is not a number
/// included, stays as it is.
pub open spec fn clamped(x: u32, lo: u32, hi: u32) -> u32 {
    if lt(x, lo) {
        lo
    } else if lt(hi, x) {
        hi
    } else {
        x
    }
}

/// Whether the pattern encodes no number at all.
pub fn is_nan(bits: u32) -> (r: bool)
    ensures
        r == nan(bits),
{
    if bits >= SIGN {
        bits - SIGN > INFINITY
    } else {
        bits > INFINITY
    }
}

/// The rank of a pattern.
fn rank_of(bits: u32) -> (r: i64)
    ensures
        r == rank(bits),
{
    if bits >= SIGN {
        let m: u32 = bits - SIGN;
        let wide: i64 = m as i64;
        -wide
    } else {
        bits as i64
    }
}

/// `a < b` between the encoded numbers.
pub fn less(a: u32, b: u32) -> (r: bool)
    ensures
        r == lt(a, b),
{
    !is_nan(a) && !is_nan(b) && rank_of(a) < rank_of(b)
}

/// `a <= b` between the encoded numbers.
pub fn less_eq(a: u32, b: u32) -> (r: bool)
    ensures
        r == le(a, b),
{
    !is_nan(a) && !is_nan(b) && rank_of(a) <= rank_of(b)
}

/// Moves `x` into `[lo, hi]`, which must not be empty.
pub fn clamp(x: u32, lo: u32, hi: u32) -> (r: u32)
    requires
        le(lo, hi),
    ensures
        r == clamped(x, lo, hi),
        nan(x) ==> r == x,
        !nan(x) ==> le(lo, r) && le(r, hi),
        le(lo, x) && le(x, hi) ==> r == x,
{
    if less(x, lo) {
        lo
    } else if less(hi, x) {
        hi
    } else {
        x
    }
}

/// The sign bit of a 64-bit pattern.
pub const WIDE_SIGN: u64 = 0x8000_0000_0000_0000;

/// Positive infinity in 64 bits.
pub const WIDE_INFINITY: u64 = 0x7ff0_0000_0000_0000;

/// The 64-bit encoding of 0.001.
pub const WIDE_THOUSANDTH: u64 = 0x3f50_624d_d2f1_a9fc;

/// The 64-bit pattern without its sign bit.
pub open spec fn wide_magnitude(bits: u64) -> int {
    if bits >= WIDE_SIGN {
        bits - WIDE_SIGN
    } else {
        bits as int
    }
}

/// Whether the 64-bit pattern encodes no number at all.
pub open spec fn wide_nan(bits: u64) -> bool {
    wide_magnitude(bits) > WIDE_INFINITY
}

/// Where the encoded number stands among all the others, as `rank` for 32
/// bits. A pattern that is not a number stands beyond the infinity of its
/// sign.
pub open spec fn wide_rank(bits: u64) -> int {
    if bits >= WIDE_SIGN {
        -wide_magnitude(bits)
    } else {
        wide_magnitude(bits)
    }
}

/// `a < b` between the encoded numbers; false as soon as one is not a number.
pub open spec fn wide_lt(a: u64, b: u64) -> bool {
    !wide_nan(a) && !wide_nan(b) && wide_rank(a) < wide_rank(b)
}

/// Whether the 64-bit pattern encodes no number at all.
pub fn is_wide_nan(bits: u64) -> (r: bool)
    ensures
        r == wide_nan(bits),
{
    if bits >= WIDE_SIGN {
        bits - WIDE_SIGN > WIDE_INFINITY
    } else {
        bits > WIDE_INFINITY
    }
}

/// Whether `a` stands before `b` by rank, or beside it.
pub fn wide_rank_le(a: u64, b: u64) -> (r: bool)
    ensures
        r == (wide_rank(a) <= wide_rank(b)),
{
    if a >= WIDE_SIGN {
        if b >= WIDE_SIGN {
            a >= b
        } else {
            true
        }
    } else {
        if b >= WIDE_SIGN {
            a == 0 && b == WIDE_SIGN
        } else {
            a <= b
        }
    }
}

/// `a < b` between the numbers that two 64-bit patterns encode.
pub fn wide_less(a: u64, b: u64) -> (r: bool)
    ensures
        r == wide_lt(a, b),
{
    !is_wide_nan(a) && !is_wide_nan(b) && !wide_rank_le(b, a)
}

/// Numbers are ordered as their ranks are: `lt` is irreflexive and
/// transitive, and of two numbers that differ in rank one is less than the
/// other.
pub proof fn lemma_lt_is_a_strict_order(a: u32, b: u32, c: u32)
    ensures
        !lt(a, a),
        lt(a, b) && lt(b, c) ==> lt(a, c),
        lt(a, b) ==> !lt(b, a),
        !nan(a) && !nan(b) ==> (lt(a, b) || lt(b, a) || rank(a) == rank(b)),
        le(a, b) <==> !nan(a) && !nan(b) && !lt(b, a),
{
}

/// Moving into a range settles: what lies in the range is not moved, and
/// what was moved once is not moved again.
pub proof fn lemma_clamped_settles(x: u32, lo: u32, hi: u32)
    requires
        le(lo, hi),
    ensures
        le(lo, x) && le(x, hi) ==> clamped(x, lo, hi) == x,
        clamped(clamped(x, lo, hi), lo, hi) == clamped(x, lo, hi),
        !nan(x) ==> le(lo, clamped(x, lo, hi)) && le(clamped(x, lo, hi), hi),
{
}

} // verus!
