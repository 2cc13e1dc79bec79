//! The layout of an IEEE-754 double: one sign bit, eleven exponent bits and
//! fifty-two fraction bits, from the most significant bit down.

use vstd::prelude::*;

verus! {

/// The bit that holds the sign.
pub const SIGN_BIT: u64 = 0x8000_0000_0000_0000;

/// The bits that hold the biased exponent.
pub const EXPONENT_BITS: u64 = 0x7ff0_0000_0000_0000;

/// The bits that hold the fraction.
pub const FRACTION_BITS: u64 = 0x000f_ffff_ffff_ffff;

/// The pattern of the double `0.0`.
pub const POSITIVE_ZERO: u64 = 0;

/// The pattern of the double `-0.0`.
pub const NEGATIVE_ZERO: u64 = 0x8000_0000_0000_0000;

/// Whether `bits` is a double that compares equal to zero. Two patterns do:
/// that of `0.0` and that of `-0.0`.
pub open spec fn is_zero(bits: u64) -> bool {
    bits == POSITIVE_ZERO || bits == NEGATIVE_ZERO
}

/// Whether `bits` is an infinity or a NaN: the exponent field is all ones.
pub open spec fn is_non_finite(bits: u64) -> bool {
    bits & EXPONENT_BITS == EXPONENT_BITS
}

/// A double compares equal to zero exactly when its exponent field and its
/// fraction field are both zero, whatever its sign.
pub proof fn lemma_zero_fields(bits: u64)
    ensures
        is_zero(bits) <==> (bits & EXPONENT_BITS == 0 && bits & FRACTION_BITS == 0),
{
    assert((bits == 0 || bits == 0x8000_0000_0000_0000) <==> ((bits & 0x7ff0_0000_0000_0000) == 0
        && (bits & 0x000f_ffff_ffff_ffff) == 0)) by (bit_vector);
}

/// No infinity and no NaN compares equal to zero.
pub proof fn lemma_non_finite_is_not_zero(bits: u64)
    requires
        is_non_finite(bits),
    ensures
        !is_zero(bits),
{
    assert((bits & 0x7ff0_0000_0000_0000) == 0x7ff0_0000_0000_0000 ==> bits != 0 && bits
        != 0x8000_0000_0000_0000) by (bit_vector);
}

/// Tells whether the double with pattern `bits` compares equal to zero.
pub fn compares_equal_to_zero(bits: u64) -> (zero: bool)
    ensures
        zero == is_zero(bits),
{
    proof {
        assert(((bits & !0x8000_0000_0000_0000u64) == 0) <==> (bits == 0 || bits
            == 0x8000_0000_0000_0000)) by (bit_vector);
    }
    bits & !SIGN_BIT == 0
}

} // verus!
