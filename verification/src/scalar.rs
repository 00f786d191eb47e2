//! Single-precision values held by their bit pattern.
//!
//! Coordinates and attribute values travel through this library as the 32-bit
//! pattern of an IEEE 754 binary32 number. Nothing here does arithmetic on
//! them: the library only carries, compares and classifies values, and all of
//! that is decided by the sign bit and the magnitude bits.

use vstd::prelude::*;

verus! {

/// The sign bit of a pattern.
pub const SIGN_BIT: u32 = 0x8000_0000;

/// Positive infinity. Larger magnitudes are NaN, smaller ones are finite.
pub const INFINITY_BITS: u32 = 0x7f80_0000;

/// Positive zero.
pub const ZERO_BITS: u32 = 0;

/// The value one.
pub const ONE_BITS: u32 = 0x3f80_0000;

/// The smallest divisor that a normalisation uses: two to the power of -23,
/// the distance from one to the next larger number.
pub const EPSILON_BITS: u32 = 0x3400_0000;

/// The largest finite value.
pub const LARGEST_BITS: u32 = 0x7f7f_ffff;

/// The smallest (most negative) finite value.
pub const SMALLEST_BITS: u32 = 0xff7f_ffff;

/// The magnitude bits of a pattern: everything but the sign.
pub open spec fn magnitude(b: u32) -> int {
    if b >= SIGN_BIT {
        b - SIGN_BIT
    } else {
        b as int
    }
}

/// The pattern is not a number.
pub open spec fn is_nan(b: u32) -> bool {
    magnitude(b) > INFINITY_BITS
}

/// The pattern is a number other than an infinity.
pub open spec fn is_finite(b: u32) -> bool {
    magnitude(b) < INFINITY_BITS
}

/// The place of a number on the number line, as an integer: numbers compare
/// as their ranks do. Both zeros have rank 0. Meaningless for NaN.
pub open spec fn rank(b: u32) -> int {
    if b >= SIGN_BIT {
        -magnitude(b)
    } else {
        magnitude(b)
    }
}

/// `a < b` as numbers; false whenever either side is NaN.
pub open spec fn less(a: u32, b: u32) -> bool {
    !is_nan(a) && !is_nan(b) && rank(a) < rank(b)
}

/// `a == b` as numbers; false whenever either side is NaN, true for the two zeros.
pub open spec fn same(a: u32, b: u32) -> bool {
    !is_nan(a) && !is_nan(b) && rank(a) == rank(b)
}

/// The smaller of two numbers; a NaN operand is ignored in favour of the other.
pub open spec fn lower_of(a: u32, b: u32) -> u32 {
    if is_nan(a) {
        b
    } else if less(b, a) {
        b
    } else {
        a
    }
}

/// The larger of two numbers; a NaN operand is ignored in favour of the other.
pub open spec fn upper_of(a: u32, b: u32) -> u32 {
    if is_nan(a) {
        b
    } else if less(a, b) {
        b
    } else {
        a
    }
}

fn rank_of(b: u32) -> (r: i64)
    ensures
        r == rank(b),
{
    if b >= SIGN_BIT {
        -((b - SIGN_BIT) as i64)
    } else {
        b as i64
    }
}

/// Tells whether the pattern is NaN.
pub fn nan(b: u32) -> (r: bool)
    ensures
        r == is_nan(b),
{
    let m: u32 = if b >= SIGN_BIT { b - SIGN_BIT } else { b };
    m > INFINITY_BITS
}

/// Tells whether the pattern is a finite number.
pub fn finite(b: u32) -> (r: bool)
    ensures
        r == is_finite(b),
{
    let m: u32 = if b >= SIGN_BIT { b - SIGN_BIT } else { b };
    m < INFINITY_BITS
}

/// Numeric `a < b`.
pub fn lt(a: u32, b: u32) -> (r: bool)
    ensures
        r == less(a, b),
{
    !nan(a) && !nan(b) && rank_of(a) < rank_of(b)
}

/// Numeric `a == b`.
pub fn eq(a: u32, b: u32) -> (r: bool)
    ensures
        r == same(a, b),
{
    !nan(a) && !nan(b) && rank_of(a) == rank_of(b)
}

/// The smaller of two numbers, ignoring a NaN operand.
pub fn min(a: u32, b: u32) -> (r: u32)
    ensures
        r == lower_of(a, b),
{
    if nan(a) || lt(b, a) {
        b
    } else {
        a
    }
}

/// The larger of two numbers, ignoring a NaN operand.
pub fn max(a: u32, b: u32) -> (r: u32)
    ensures
        r == upper_of(a, b),
{
    if nan(a) || lt(a, b) {
        b
    } else {
        a
    }
}

/// Numeric order is irreflexive and transitive, and two numbers are ordered
/// one way, the other way, or equal.
pub proof fn less_is_strict_order(a: u32, b: u32, c: u32)
    ensures
        !less(a, a),
        less(a, b) && less(b, c) ==> less(a, c),
        !is_nan(a) && !is_nan(b) ==> (less(a, b) || less(b, a) || same(a, b)),
        !(less(a, b) && less(b, a)),
{
}

} // verus!
