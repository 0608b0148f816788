//! Relevance scores as IEEE-754 binary64 bit patterns and their ordering.
//!
//! A score is kept as the 64 bits of its binary64 encoding. Two scores are
//! compared the way the numeric values compare: a NaN is comparable with
//! nothing, and the two zeros are equal.

use vstd::prelude::*;

verus! {

/// The sign bit of a binary64 encoding.
pub const SIGN_BIT: u64 = 0x8000_0000_0000_0000;

/// Every bit of a binary64 encoding but the sign.
pub const MAGNITUDE_BITS: u64 = 0x7fff_ffff_ffff_ffff;

/// The encoding of positive infinity: the largest magnitude that is not a NaN.
pub const INFINITY_BITS: u64 = 0x7ff0_0000_0000_0000;

/// The encoding is a NaN: all exponent bits set and a nonzero fraction.
pub open spec fn is_nan(bits: u64) -> bool {
    bits & MAGNITUDE_BITS > INFINITY_BITS
}

/// A key whose unsigned order is the numeric order of non-NaN encodings.
///
/// Both zeros share one key; a negative value has its bits inverted, so that a
/// larger magnitude comes first; a positive value has its sign bit raised, so
/// that it comes after every negative value and after zero.
pub open spec fn order_key(bits: u64) -> u64 {
    if bits & MAGNITUDE_BITS == 0 {
        SIGN_BIT
    } else if bits & SIGN_BIT != 0 {
        !bits
    } else {
        bits | SIGN_BIT
    }
}

/// Score `a` is numerically greater than score `b`; false as soon as either
/// is a NaN, since such a pair has no numeric order.
pub open spec fn ranks_above(a: u64, b: u64) -> bool {
    !is_nan(a) && !is_nan(b) && order_key(a) > order_key(b)
}

/// Tells whether a score encoding is a NaN.
pub fn score_is_nan(bits: u64) -> (r: bool)
    ensures
        r == is_nan(bits),
{
    bits & MAGNITUDE_BITS > INFINITY_BITS
}

/// The ordering key of a score encoding.
pub fn score_order_key(bits: u64) -> (r: u64)
    ensures
        r == order_key(bits),
{
    if bits & MAGNITUDE_BITS == 0 {
        SIGN_BIT
    } else if bits & SIGN_BIT != 0 {
        !bits
    } else {
        bits | SIGN_BIT
    }
}

/// Whether score `a` is numerically greater than score `b`.
pub fn score_ranks_above(a: u64, b: u64) -> (r: bool)
    ensures
        r == ranks_above(a, b),
{
    !score_is_nan(a) && !score_is_nan(b) && score_order_key(a) > score_order_key(b)
}

} // verus!
