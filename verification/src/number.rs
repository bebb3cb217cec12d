//! Double-precision numbers held by their bit patterns.
//!
//! A pattern has a sign bit and 63 bits of magnitude. The magnitudes above
//! that of infinity are the patterns that are not numbers. Among numbers the
//! order is that of the signed magnitudes, with the two zeros equal.

use vstd::prelude::*;

verus! {

/// The sign bit.
pub const SIGN: u64 = 0x8000_0000_0000_0000;

/// Positive infinity.
pub const INFINITY: u64 = 0x7FF0_0000_0000_0000;

/// Zero, with the sign bit clear.
pub const ZERO: u64 = 0;

/// The largest finite number.
pub const LARGEST: u64 = 0x7FEF_FFFF_FFFF_FFFF;

/// The pattern without its sign bit.
pub open spec fn magnitude(bits: u64) -> int {
    if bits >= SIGN {
        bits - SIGN
    } else {
        bits as int
    }
}

/// Whether the pattern is not a number.
pub open spec fn is_nan(bits: u64) -> bool {
    magnitude(bits) > INFINITY
}

/// The place of a number in the order of all numbers: its magnitude, negated
/// where the sign bit is set. Both zeros have rank 0.
pub open spec fn rank(bits: u64) -> int {
    if bits >= SIGN {
        -magnitude(bits)
    } else {
        magnitude(bits)
    }
}

/// Whether `a` is a number below the number `b`. False as soon as one of the
/// two is not a number.
pub open spec fn lt(a: u64, b: u64) -> bool {
    !is_nan(a) && !is_nan(b) && rank(a) < rank(b)
}

/// Whether the pattern is not a number.
pub fn not_a_number(bits: u64) -> (r: bool)
    ensures
        r == is_nan(bits),
{
    let m: u64 = if bits >= SIGN {
        bits - SIGN
    } else {
        bits
    };
    m > INFINITY
}

/// Whether `a` is a number below the number `b`.
pub fn less(a: u64, b: u64) -> (r: bool)
    ensures
        r == lt(a, b),
{
    if not_a_number(a) || not_a_number(b) {
        false
    } else if a >= SIGN {
        if b >= SIGN {
            a > b
        } else {
            a > SIGN || b > 0
        }
    } else {
        b < SIGN && a < b
    }
}

/// Whether `a` and `b` are the same number. The two zeros are the same
/// number, and what is not a number is the same as nothing, not even as
/// itself.
pub open spec fn eq(a: u64, b: u64) -> bool {
    !is_nan(a) && !is_nan(b) && rank(a) == rank(b)
}

/// Whether `a` and `b` are the same number.
pub fn same(a: u64, b: u64) -> (r: bool)
    ensures
        r == eq(a, b),
{
    if not_a_number(a) || not_a_number(b) {
        false
    } else {
        a == b || ((a == SIGN || a == ZERO) && (b == SIGN || b == ZERO))
    }
}

/// The number `x` brought into the range from zero to `high`: what is below
/// zero becomes zero, what is above `high` becomes `high`, and so does what is
/// not a number. A zero comes out with its sign bit clear.
pub open spec fn clamped(x: u64, high: u64) -> u64 {
    if is_nan(x) || lt(high, x) {
        high
    } else if rank(x) <= 0 {
        ZERO
    } else {
        x
    }
}

/// Brings `x` into the range from zero to `high`.
pub fn clamp(x: u64, high: u64) -> (r: u64)
    requires
        !is_nan(high),
        rank(high) >= 0,
    ensures
        r == clamped(x, high),
        !is_nan(r),
        0 <= rank(r) <= rank(high),
{
    if not_a_number(x) || less(high, x) {
        high
    } else if x >= SIGN || x == 0 {
        ZERO
    } else {
        x
    }
}

} // verus!
