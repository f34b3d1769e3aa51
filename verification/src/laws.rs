//! The guarantees the wrapper types make, stated and proved once and for all.
//!
//! Each law is a public proof function over the spec functions that the
//! executable contracts use, so a caller can rely on it for every value, not
//! only for those a test happens to try.

use vstd::prelude::*;
use core::cmp::Ordering;
use vstd::std_specs::convert::FromSpec;

use crate::Math;
use crate::Sample;
use crate::math_cmp;
use crate::math_eq;
use crate::math_is_nan;
use crate::sample_cmp;
use crate::sample_eq;
use crate::sample_is_nan;

verus! {

/// Round trip for [`Math`]: wrapping a raw bit pattern and unwrapping it
/// again returns the pattern unchanged, for every pattern.
pub proof fn lemma_math_round_trip(x: u64)
    ensures
        <Math as FromSpec<u64>>::from_spec(x).0 == x,
        <u64 as FromSpec<Math>>::from_spec(Math(x)) == x,
{
}

/// Round trip for [`Sample`]: wrapping a raw bit pattern and unwrapping it
/// again returns the pattern unchanged, for every pattern.
pub proof fn lemma_sample_round_trip(x: u32)
    ensures
        <Sample as FromSpec<u32>>::from_spec(x).0 == x,
        <u32 as FromSpec<Sample>>::from_spec(Sample(x)) == x,
{
}

/// A not-a-number operand on either side makes [`Math`] values unequal —
/// a not-a-number is not even equal to itself.
pub proof fn lemma_math_nan_never_equal(a: u64, b: u64)
    requires
        math_is_nan(a) || math_is_nan(b),
    ensures
        !math_eq(a, b),
{
}

/// A not-a-number operand on either side makes [`Sample`] values unequal —
/// a not-a-number is not even equal to itself.
pub proof fn lemma_sample_nan_never_equal(a: u32, b: u32)
    requires
        sample_is_nan(a) || sample_is_nan(b),
    ensures
        !sample_eq(a, b),
{
}

/// [`Math`] equality is symmetric, and agrees with comparison: two patterns
/// are equal exactly when comparing them yields `Equal`.
pub proof fn lemma_math_eq_is_cmp_equal(a: u64, b: u64)
    ensures
        math_eq(a, b) == math_eq(b, a),
        math_eq(a, b) <==> math_cmp(a, b) == Some(Ordering::Equal),
{
}

/// [`Sample`] equality is symmetric, and agrees with comparison: two patterns
/// are equal exactly when comparing them yields `Equal`.
pub proof fn lemma_sample_eq_is_cmp_equal(a: u32, b: u32)
    ensures
        sample_eq(a, b) == sample_eq(b, a),
        sample_eq(a, b) <==> sample_cmp(a, b) == Some(Ordering::Equal),
{
}

/// A not-a-number operand on either side leaves [`Math`] values unordered:
/// comparison yields no result rather than a fallback order.
pub proof fn lemma_math_nan_unordered(a: u64, b: u64)
    requires
        math_is_nan(a) || math_is_nan(b),
    ensures
        math_cmp(a, b) is None,
{
}

/// A not-a-number operand on either side leaves [`Sample`] values unordered:
/// comparison yields no result rather than a fallback order.
pub proof fn lemma_sample_nan_unordered(a: u32, b: u32)
    requires
        sample_is_nan(a) || sample_is_nan(b),
    ensures
        sample_cmp(a, b) is None,
{
}

/// Conversely, [`Math`] comparison of two patterns that are not not-a-number
/// always yields a result: the order is partial only at not-a-number.
pub proof fn lemma_math_ordered_when_no_nan(a: u64, b: u64)
    requires
        !math_is_nan(a),
        !math_is_nan(b),
    ensures
        math_cmp(a, b) is Some,
{
}

/// Conversely, [`Sample`] comparison of two patterns that are not
/// not-a-number always yields a result: the order is partial only at
/// not-a-number.
pub proof fn lemma_sample_ordered_when_no_nan(a: u32, b: u32)
    requires
        !sample_is_nan(a),
        !sample_is_nan(b),
    ensures
        sample_cmp(a, b) is Some,
{
}

/// [`Math`] comparison is antisymmetric: swapping the operands turns `Less`
/// into `Greater` and back, and leaves `Equal` as it is.
pub proof fn lemma_math_cmp_antisymmetric(a: u64, b: u64)
    ensures
        math_cmp(a, b) == Some(Ordering::Less) <==> math_cmp(b, a) == Some(Ordering::Greater),
        math_cmp(a, b) == Some(Ordering::Equal) <==> math_cmp(b, a) == Some(Ordering::Equal),
{
}

/// [`Sample`] comparison is antisymmetric: swapping the operands turns `Less`
/// into `Greater` and back, and leaves `Equal` as it is.
pub proof fn lemma_sample_cmp_antisymmetric(a: u32, b: u32)
    ensures
        sample_cmp(a, b) == Some(Ordering::Less) <==> sample_cmp(b, a) == Some(Ordering::Greater),
        sample_cmp(a, b) == Some(Ordering::Equal) <==> sample_cmp(b, a) == Some(Ordering::Equal),
{
}

/// [`Math`] comparison is transitive: a chain of `Less` results carries
/// through to the endpoints.
pub proof fn lemma_math_cmp_transitive(a: u64, b: u64, c: u64)
    requires
        math_cmp(a, b) == Some(Ordering::Less),
        math_cmp(b, c) == Some(Ordering::Less),
    ensures
        math_cmp(a, c) == Some(Ordering::Less),
{
}

/// [`Sample`] comparison is transitive: a chain of `Less` results carries
/// through to the endpoints.
pub proof fn lemma_sample_cmp_transitive(a: u32, b: u32, c: u32)
    requires
        sample_cmp(a, b) == Some(Ordering::Less),
        sample_cmp(b, c) == Some(Ordering::Less),
    ensures
        sample_cmp(a, c) == Some(Ordering::Less),
{
}

/// The default value of both wrapper types is the all-zero pattern, which
/// encodes `+0` — and it equals the negative zero pattern as well.
pub proof fn lemma_default_is_zero()
    ensures
        math_eq(0u64, 0u64),
        math_eq(0u64, crate::ACCURATE_SIGN_BIT),
        sample_eq(0u32, 0u32),
        sample_eq(0u32, crate::FAST_SIGN_BIT),
{
}

} // verus!
