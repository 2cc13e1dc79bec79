//! The zero-baseline rule of percentage growth.
//!
//! Growth is the relative change `((current - previous) / previous) * 100`.
//! Against a baseline of zero that quotient is an infinity or a NaN, and the
//! rule replaces it by `0.0`: no baseline, no growth. The test is IEEE-754
//! equality with zero, not nearness to it.

use vstd::prelude::*;
use crate::double::{compares_equal_to_zero, is_non_finite, is_zero, lemma_non_finite_is_not_zero,
    NEGATIVE_ZERO, POSITIVE_ZERO};

verus! {

/// The growth over the baseline `previous`, given the relative change that
/// floating-point arithmetic found for it; all three are patterns of doubles.
pub open spec fn growth_of(previous: u64, relative_change: u64) -> u64 {
    if is_zero(previous) {
        POSITIVE_ZERO
    } else {
        relative_change
    }
}

/// Applies the zero-baseline rule to a relative change: `0.0` over a baseline
/// that compares equal to zero, the relative change itself over any other.
pub fn guarded_growth(previous: u64, relative_change: u64) -> (growth: u64)
    ensures
        growth == growth_of(previous, relative_change),
        is_zero(previous) ==> growth == POSITIVE_ZERO,
        !is_zero(previous) ==> growth == relative_change,
{
    if compares_equal_to_zero(previous) {
        POSITIVE_ZERO
    } else {
        relative_change
    }
}

/// Over a baseline of `0.0` growth is `0.0`, whatever the relative change:
/// also where it is a NaN or an infinity.
pub proof fn lemma_positive_zero_baseline(relative_change: u64)
    ensures
        growth_of(POSITIVE_ZERO, relative_change) == POSITIVE_ZERO,
{
}

/// Over a baseline of `-0.0` growth is `0.0` too, since `-0.0` compares equal
/// to zero.
pub proof fn lemma_negative_zero_baseline(relative_change: u64)
    ensures
        growth_of(NEGATIVE_ZERO, relative_change) == POSITIVE_ZERO,
{
}

/// Over a baseline that does not compare equal to zero growth is the relative
/// change itself, bit for bit.
pub proof fn lemma_nonzero_baseline(previous: u64, relative_change: u64)
    requires
        !is_zero(previous),
    ensures
        growth_of(previous, relative_change) == relative_change,
{
}

/// An infinite or NaN baseline is not zero: the relative change stands.
pub proof fn lemma_non_finite_baseline(previous: u64, relative_change: u64)
    requires
        is_non_finite(previous),
    ensures
        growth_of(previous, relative_change) == relative_change,
{
    lemma_non_finite_is_not_zero(previous);
}

/// Growth depends on the two patterns alone: equal inputs give the same
/// pattern.
pub proof fn lemma_growth_is_a_function(
    previous_a: u64,
    change_a: u64,
    previous_b: u64,
    change_b: u64,
)
    requires
        previous_a == previous_b,
        change_a == change_b,
    ensures
        growth_of(previous_a, change_a) == growth_of(previous_b, change_b),
{
}

} // verus!
