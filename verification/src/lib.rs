//! Common numeric types for an audio engine.
//!
//! Two wrapper types give the engine distinct names for its two precision
//! tiers: [`Math`] for infrequent, accuracy-sensitive work and [`Sample`] for
//! per-sample, speed-sensitive work. Both carry a value as its IEEE-754 bit
//! pattern — a double-width pattern in a `u64` for [`Math`], a single-width
//! pattern in a `u32` for [`Sample`] — so that their equality and ordering can
//! be stated and checked exactly: a not-a-number is equal to nothing and
//! ordered against nothing, the two zeros are equal, and everything else
//! follows the numeric order of the encoded values.
//!
//! [`SampleTrack`] names an ordered, resizable run of samples, the engine's
//! common currency for a block of audio.

use vstd::prelude::*;
use core::cmp::Ordering;

pub mod ieee;
pub mod laws;

verus! {

/// Weight of the sign bit in an accurate-precision (double-width) pattern.
pub const ACCURATE_SIGN_BIT: u64 = 0x8000_0000_0000_0000;

/// Accurate-precision pattern of positive infinity; a magnitude beyond it
/// encodes a not-a-number.
pub const ACCURATE_INF_BITS: u64 = 0x7FF0_0000_0000_0000;

/// Whether an accurate-precision pattern encodes a not-a-number.
pub open spec fn math_is_nan(b: u64) -> bool {
    ieee::is_nan(b as int, ACCURATE_SIGN_BIT as int, ACCURATE_INF_BITS as int)
}

/// IEEE-754 equality of two accurate-precision patterns.
pub open spec fn math_eq(a: u64, b: u64) -> bool {
    ieee::ieee_eq(a as int, b as int, ACCURATE_SIGN_BIT as int, ACCURATE_INF_BITS as int)
}

/// IEEE-754 partial comparison of two accurate-precision patterns.
pub open spec fn math_cmp(a: u64, b: u64) -> Option<Ordering> {
    ieee::ieee_cmp(a as int, b as int, ACCURATE_SIGN_BIT as int, ACCURATE_INF_BITS as int)
}

/// Type to perform infrequent mathematical operations with when accuracy is
/// needed. Holds the accurate-precision (double-width) IEEE-754 bit pattern
/// of its value.
#[derive(Debug, Clone, Copy)]
pub struct Math(pub u64);

impl From<u64> for Math {
    /// Wraps a raw accurate-precision bit pattern exactly.
    fn from(x: u64) -> (r: Self)
        ensures
            r == Math(x),
    {
        Math(x)
    }
}

impl vstd::std_specs::convert::FromSpecImpl<u64> for Math {
    open spec fn obeys_from_spec() -> bool {
        true
    }

    open spec fn from_spec(x: u64) -> Self {
        Math(x)
    }
}

impl From<Math> for u64 {
    /// Unwraps to the raw accurate-precision bit pattern exactly.
    fn from(m: Math) -> (r: u64)
        ensures
            r == m.0,
    {
        m.0
    }
}

impl vstd::std_specs::convert::FromSpecImpl<Math> for u64 {
    open spec fn obeys_from_spec() -> bool {
        true
    }

    open spec fn from_spec(m: Math) -> u64 {
        m.0
    }
}

impl Default for Math {
    /// The zero value: the all-zero pattern, which encodes `+0`.
    fn default() -> (r: Self)
        ensures
            r == Math(0u64),
    {
        Math(0)
    }
}

impl PartialEq for Math {
    /// IEEE-754 equality: a not-a-number operand makes the answer `false`,
    /// the two zero patterns are equal, and any other pair is equal exactly
    /// when the patterns coincide.
    fn eq(&self, other: &Self) -> (r: bool)
        ensures
            r == math_eq(self.0, other.0),
    {
        let a: u64 = self.0;
        let b: u64 = other.0;
        let mag_a: u64 = if a >= ACCURATE_SIGN_BIT { a - ACCURATE_SIGN_BIT } else { a };
        let mag_b: u64 = if b >= ACCURATE_SIGN_BIT { b - ACCURATE_SIGN_BIT } else { b };
        if mag_a > ACCURATE_INF_BITS || mag_b > ACCURATE_INF_BITS {
            false
        } else {
            a == b || (mag_a == 0 && mag_b == 0)
        }
    }
}

impl vstd::std_specs::cmp::PartialEqSpecImpl for Math {
    open spec fn obeys_eq_spec() -> bool {
        true
    }

    open spec fn eq_spec(&self, other: &Self) -> bool {
        math_eq(self.0, other.0)
    }
}

impl PartialOrd for Math {
    /// IEEE-754 partial comparison: `None` when either operand is a
    /// not-a-number, otherwise the numeric order of the encoded values,
    /// under which `-0` and `+0` are equal.
    fn partial_cmp(&self, other: &Self) -> (r: Option<Ordering>)
        ensures
            r == math_cmp(self.0, other.0),
    {
        let a: u64 = self.0;
        let b: u64 = other.0;
        let neg_a: bool = a >= ACCURATE_SIGN_BIT;
        let neg_b: bool = b >= ACCURATE_SIGN_BIT;
        let mag_a: u64 = if neg_a { a - ACCURATE_SIGN_BIT } else { a };
        let mag_b: u64 = if neg_b { b - ACCURATE_SIGN_BIT } else { b };
        if mag_a > ACCURATE_INF_BITS || mag_b > ACCURATE_INF_BITS {
            None
        } else if neg_a && neg_b {
            if mag_a > mag_b {
                Some(Ordering::Less)
            } else if mag_a < mag_b {
                Some(Ordering::Greater)
            } else {
                Some(Ordering::Equal)
            }
        } else if neg_a {
            if mag_a == 0 && mag_b == 0 {
                Some(Ordering::Equal)
            } else {
                Some(Ordering::Less)
            }
        } else if neg_b {
            if mag_a == 0 && mag_b == 0 {
                Some(Ordering::Equal)
            } else {
                Some(Ordering::Greater)
            }
        } else {
            if a < b {
                Some(Ordering::Less)
            } else if a > b {
                Some(Ordering::Greater)
            } else {
                Some(Ordering::Equal)
            }
        }
    }
}

impl vstd::std_specs::cmp::PartialOrdSpecImpl for Math {
    open spec fn obeys_partial_cmp_spec() -> bool {
        true
    }

    open spec fn partial_cmp_spec(&self, other: &Self) -> Option<Ordering> {
        math_cmp(self.0, other.0)
    }
}

/// Weight of the sign bit in a fast-precision (single-width) pattern.
pub const FAST_SIGN_BIT: u32 = 0x8000_0000;

/// Fast-precision pattern of positive infinity; a magnitude beyond it
/// encodes a not-a-number.
pub const FAST_INF_BITS: u32 = 0x7F80_0000;

/// Whether a fast-precision pattern encodes a not-a-number.
pub open spec fn sample_is_nan(b: u32) -> bool {
    ieee::is_nan(b as int, FAST_SIGN_BIT as int, FAST_INF_BITS as int)
}

/// IEEE-754 equality of two fast-precision patterns.
pub open spec fn sample_eq(a: u32, b: u32) -> bool {
    ieee::ieee_eq(a as int, b as int, FAST_SIGN_BIT as int, FAST_INF_BITS as int)
}

/// IEEE-754 partial comparison of two fast-precision patterns.
pub open spec fn sample_cmp(a: u32, b: u32) -> Option<Ordering> {
    ieee::ieee_cmp(a as int, b as int, FAST_SIGN_BIT as int, FAST_INF_BITS as int)
}

/// Type to calculate samples with. Holds one audio sample's amplitude as its
/// fast-precision (single-width) IEEE-754 bit pattern.
#[derive(Debug, Clone, Copy)]
pub struct Sample(pub u32);

impl From<u32> for Sample {
    /// Wraps a raw fast-precision bit pattern exactly.
    fn from(x: u32) -> (r: Self)
        ensures
            r == Sample(x),
    {
        Sample(x)
    }
}

impl vstd::std_specs::convert::FromSpecImpl<u32> for Sample {
    open spec fn obeys_from_spec() -> bool {
        true
    }

    open spec fn from_spec(x: u32) -> Self {
        Sample(x)
    }
}

impl From<Sample> for u32 {
    /// Unwraps to the raw fast-precision bit pattern exactly.
    fn from(s: Sample) -> (r: u32)
        ensures
            r == s.0,
    {
        s.0
    }
}

impl vstd::std_specs::convert::FromSpecImpl<Sample> for u32 {
    open spec fn obeys_from_spec() -> bool {
        true
    }

    open spec fn from_spec(s: Sample) -> u32 {
        s.0
    }
}

impl Default for Sample {
    /// The zero value: the all-zero pattern, which encodes `+0`.
    fn default() -> (r: Self)
        ensures
            r == Sample(0u32),
    {
        Sample(0)
    }
}

impl PartialEq for Sample {
    /// IEEE-754 equality: a not-a-number operand makes the answer `false`,
    /// the two zero patterns are equal, and any other pair is equal exactly
    /// when the patterns coincide.
    fn eq(&self, other: &Self) -> (r: bool)
        ensures
            r == sample_eq(self.0, other.0),
    {
        let a: u32 = self.0;
        let b: u32 = other.0;
        let mag_a: u32 = if a >= FAST_SIGN_BIT { a - FAST_SIGN_BIT } else { a };
        let mag_b: u32 = if b >= FAST_SIGN_BIT { b - FAST_SIGN_BIT } else { b };
        if mag_a > FAST_INF_BITS || mag_b > FAST_INF_BITS {
            false
        } else {
            a == b || (mag_a == 0 && mag_b == 0)
        }
    }
}

impl vstd::std_specs::cmp::PartialEqSpecImpl for Sample {
    open spec fn obeys_eq_spec() -> bool {
        true
    }

    open spec fn eq_spec(&self, other: &Self) -> bool {
        sample_eq(self.0, other.0)
    }
}

impl PartialOrd for Sample {
    /// IEEE-754 partial comparison: `None` when either operand is a
    /// not-a-number, otherwise the numeric order of the encoded values,
    /// under which `-0` and `+0` are equal.
    fn partial_cmp(&self, other: &Self) -> (r: Option<Ordering>)
        ensures
            r == sample_cmp(self.0, other.0),
    {
        let a: u32 = self.0;
        let b: u32 = other.0;
        let neg_a: bool = a >= FAST_SIGN_BIT;
        let neg_b: bool = b >= FAST_SIGN_BIT;
        let mag_a: u32 = if neg_a { a - FAST_SIGN_BIT } else { a };
        let mag_b: u32 = if neg_b { b - FAST_SIGN_BIT } else { b };
        if mag_a > FAST_INF_BITS || mag_b > FAST_INF_BITS {
            None
        } else if neg_a && neg_b {
            if mag_a > mag_b {
                Some(Ordering::Less)
            } else if mag_a < mag_b {
                Some(Ordering::Greater)
            } else {
                Some(Ordering::Equal)
            }
        } else if neg_a {
            if mag_a == 0 && mag_b == 0 {
                Some(Ordering::Equal)
            } else {
                Some(Ordering::Less)
            }
        } else if neg_b {
            if mag_a == 0 && mag_b == 0 {
                Some(Ordering::Equal)
            } else {
                Some(Ordering::Greater)
            }
        } else {
            if a < b {
                Some(Ordering::Less)
            } else if a > b {
                Some(Ordering::Greater)
            } else {
                Some(Ordering::Equal)
            }
        }
    }
}

impl vstd::std_specs::cmp::PartialOrdSpecImpl for Sample {
    open spec fn obeys_partial_cmp_spec() -> bool {
        true
    }

    open spec fn partial_cmp_spec(&self, other: &Self) -> Option<Ordering> {
        sample_cmp(self.0, other.0)
    }
}

/// Shorthand for a vector containing sample data: an ordered, resizable run
/// of [`Sample`] values, a track or processing block of audio.
pub type SampleTrack = Vec<Sample>;

} // verus!
