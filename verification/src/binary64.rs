//! IEEE-754 binary64 values, carried as their bit patterns.
//!
//! The library stores and compares real-valued quantities without doing any
//! arithmetic on them. A value is held as the 64-bit pattern of its binary64
//! encoding, and the order of two values is read off their patterns.

use vstd::prelude::*;

verus! {

/// The bit pattern of positive infinity.
pub const INFINITY: u64 = 0x7FF0_0000_0000_0000;

/// The bit pattern of negative infinity.
pub const NEG_INFINITY: u64 = 0xFFF0_0000_0000_0000;

/// The bit that holds the sign.
pub const SIGN: u64 = 0x8000_0000_0000_0000;

/// The pattern without its sign bit: the encoding of the absolute value.
pub open spec fn magnitude(bits: u64) -> int {
    if bits >= SIGN {
        bits - SIGN
    } else {
        bits as int
    }
}

/// Whether the pattern encodes a NaN: all exponent bits set and a fraction
/// that is not zero.
pub open spec fn is_nan(bits: u64) -> bool {
    magnitude(bits) > INFINITY
}

/// The place of a pattern that is no NaN on the number line: patterns of
/// larger values have larger ranks, and both zeros have rank 0.
pub open spec fn rank(bits: u64) -> int {
    if bits >= SIGN {
        -magnitude(bits)
    } else {
        magnitude(bits)
    }
}

/// The comparison `a < b` of IEEE 754: false when either side is a NaN.
pub open spec fn less(a: u64, b: u64) -> bool {
    !is_nan(a) && !is_nan(b) && rank(a) < rank(b)
}

/// Tells whether the value with pattern `a` is less than the value with
/// pattern `b`.
pub fn lt(a: u64, b: u64) -> (r: bool)
    ensures
        r == less(a, b),
    no_unwind
{
    let a_neg = a >= SIGN;
    let b_neg = b >= SIGN;
    let a_mag: u64 = if a_neg { a - SIGN } else { a };
    let b_mag: u64 = if b_neg { b - SIGN } else { b };
    if a_mag > INFINITY || b_mag > INFINITY {
        false
    } else if a_neg && b_neg {
        b_mag < a_mag
    } else if a_neg {
        a_mag > 0 || b_mag > 0
    } else if b_neg {
        false
    } else {
        a_mag < b_mag
    }
}

} // verus!
