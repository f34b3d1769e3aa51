//! Mathematical model of IEEE-754 equality and partial ordering, stated over
//! bit patterns.
//!
//! A floating value is represented by its bit pattern, viewed as an unsigned
//! integer: a sign bit of weight `sign`, followed by the exponent and fraction
//! fields. Two facts about the encoding drive everything here:
//!
//! * a pattern encodes a not-a-number exactly when its magnitude (the pattern
//!   with the sign bit stripped) exceeds the pattern of positive infinity,
//!   `inf` (all exponent bits set, fraction zero);
//! * among patterns that are not not-a-number, the numeric order is the order
//!   of a simple integer key: the magnitude itself for non-negative patterns,
//!   its negation for negative ones. Both zeros share the key `0`, which makes
//!   `-0` and `+0` compare equal.
//!
//! The functions take the two layout constants `sign` and `inf` as arguments,
//! so the same model serves the single-width and the double-width encoding.

use vstd::prelude::*;
use core::cmp::Ordering;

verus! {

/// The pattern with its sign bit stripped: the magnitude of the encoded value.
pub open spec fn magnitude(b: int, sign: int) -> int {
    if b >= sign {
        b - sign
    } else {
        b
    }
}

/// Whether the pattern encodes a not-a-number: all exponent bits set and a
/// nonzero fraction, i.e. a magnitude beyond that of positive infinity.
pub open spec fn is_nan(b: int, sign: int, inf: int) -> bool {
    magnitude(b, sign) > inf
}

/// The ordering key of a pattern. Among patterns that are not not-a-number,
/// the encoded values are ordered exactly as these keys are: non-negative
/// patterns order by magnitude, negative ones by its negation, and the two
/// zero patterns share the key `0`.
pub open spec fn key(b: int, sign: int) -> int {
    if b >= sign {
        -(b - sign)
    } else {
        b
    }
}

/// IEEE-754 equality of two patterns: neither is a not-a-number and their
/// keys agree. Key agreement is bit equality except that `-0` equals `+0`;
/// a not-a-number equals nothing, itself included.
pub open spec fn ieee_eq(a: int, b: int, sign: int, inf: int) -> bool {
    &&& !is_nan(a, sign, inf)
    &&& !is_nan(b, sign, inf)
    &&& key(a, sign) == key(b, sign)
}

/// IEEE-754 partial comparison of two patterns: unordered (`None`) when
/// either is a not-a-number, otherwise the order of their keys.
pub open spec fn ieee_cmp(a: int, b: int, sign: int, inf: int) -> Option<Ordering> {
    if is_nan(a, sign, inf) || is_nan(b, sign, inf) {
        None
    } else if key(a, sign) < key(b, sign) {
        Some(Ordering::Less)
    } else if key(a, sign) > key(b, sign) {
        Some(Ordering::Greater)
    } else {
        Some(Ordering::Equal)
    }
}

} // verus!
