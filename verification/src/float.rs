//! The order of 64-bit binary floating-point numbers, read from their bit
//! patterns.
//!
//! A pattern has a sign bit, eleven exponent bits and fifty-two fraction bits.
//! Without the sign bit the patterns of the numbers that are not NaN ascend with
//! the numbers' absolute values, so the order of two numbers is the order of
//! their signed magnitudes. Both zeros have magnitude zero and compare equal. A
//! NaN compares with nothing, not even with itself.
use vstd::prelude::*;

verus! {

/// The sign bit of a pattern.
pub const SIGN_BIT: u64 = 0x8000_0000_0000_0000;

/// The pattern of positive infinity. Every larger magnitude is a NaN.
pub const INFINITY: u64 = 0x7ff0_0000_0000_0000;

/// The pattern of the largest finite number.
pub const MAX: u64 = 0x7fef_ffff_ffff_ffff;

/// The pattern of the smallest finite number, the negative of [`MAX`].
pub const MIN: u64 = 0xffef_ffff_ffff_ffff;

/// The pattern without its sign bit.
pub open spec fn magnitude(bits: u64) -> int {
    if bits >= SIGN_BIT {
        bits - SIGN_BIT
    } else {
        bits as int
    }
}

/// Whether the sign bit is set.
pub open spec fn is_negative(bits: u64) -> bool {
    bits >= SIGN_BIT
}

/// Whether the pattern is a NaN.
pub open spec fn is_nan(bits: u64) -> bool {
    magnitude(bits) > INFINITY
}

/// The signed magnitude: where neither pattern is a NaN, the numbers are
/// ordered as their ranks are.
pub open spec fn rank(bits: u64) -> int {
    if is_negative(bits) {
        -magnitude(bits)
    } else {
        magnitude(bits)
    }
}

/// `a < b` as numbers.
pub open spec fn lt(a: u64, b: u64) -> bool {
    !is_nan(a) && !is_nan(b) && rank(a) < rank(b)
}

/// `a > b` as numbers.
pub open spec fn gt(a: u64, b: u64) -> bool {
    lt(b, a)
}

/// `a <= b` as numbers.
pub open spec fn le(a: u64, b: u64) -> bool {
    !is_nan(a) && !is_nan(b) && rank(a) <= rank(b)
}

/// `a >= b` as numbers.
pub open spec fn ge(a: u64, b: u64) -> bool {
    le(b, a)
}

/// `a == b` as numbers: the two zeros are equal, a NaN equals nothing.
pub open spec fn eq(a: u64, b: u64) -> bool {
    !is_nan(a) && !is_nan(b) && rank(a) == rank(b)
}

/// Tells whether the pattern is a NaN.
pub fn nan(bits: u64) -> (r: bool)
    ensures
        r == is_nan(bits),
{
    if bits >= SIGN_BIT {
        bits - SIGN_BIT > INFINITY
    } else {
        bits > INFINITY
    }
}

/// Compares two patterns as numbers: `a < b`.
pub fn less(a: u64, b: u64) -> (r: bool)
    ensures
        r == lt(a, b),
{
    if nan(a) || nan(b) {
        return false;
    }
    if a >= SIGN_BIT {
        if b >= SIGN_BIT {
            a > b
        } else {
            a != SIGN_BIT || b != 0
        }
    } else {
        if b >= SIGN_BIT {
            false
        } else {
            a < b
        }
    }
}

/// Compares two patterns as numbers: `a > b`.
pub fn greater(a: u64, b: u64) -> (r: bool)
    ensures
        r == gt(a, b),
{
    less(b, a)
}

/// Compares two patterns as numbers: `a == b`.
pub fn equal(a: u64, b: u64) -> (r: bool)
    ensures
        r == eq(a, b),
{
    if nan(a) || nan(b) {
        return false;
    }
    a == b || ((a == 0 || a == SIGN_BIT) && (b == 0 || b == SIGN_BIT))
}

/// Patterns that are equal are equal as numbers, unless they are NaN; numbers
/// that are equal have equal patterns, unless they are zeros.
pub proof fn lemma_eq_bits(a: u64, b: u64)
    ensures
        a == b && !is_nan(a) ==> eq(a, b),
        eq(a, b) && rank(a) != 0 ==> a == b,
{
}

/// The order is that of a chain: of two numbers exactly one of `<`, `==`, `>`
/// holds, and `<=` is transitive.
pub proof fn lemma_order(a: u64, b: u64, c: u64)
    ensures
        !is_nan(a) && !is_nan(b) ==> (lt(a, b) || eq(a, b) || gt(a, b)),
        !(lt(a, b) && gt(a, b)),
        !(lt(a, b) && eq(a, b)),
        le(a, b) <==> (lt(a, b) || eq(a, b)),
        le(a, b) && le(b, c) ==> le(a, c),
{
}

/// No number lies above [`MAX`] but positive infinity, and none below [`MIN`]
/// but negative infinity.
pub proof fn lemma_extremes(a: u64)
    ensures
        !is_nan(MAX),
        !is_nan(MIN),
        !is_nan(a) && magnitude(a) != INFINITY ==> le(a, MAX) && le(MIN, a),
        rank(MIN) == -rank(MAX),
{
}

} // verus!
