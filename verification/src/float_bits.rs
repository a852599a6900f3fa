//! Single-precision numbers as their bit patterns.
//!
//! Scale and epsilon parameters reach the planning rules as the bits of an IEEE 754
//! binary32 number: one sign bit, eight exponent bits and twenty-three fraction bits.

use vstd::prelude::*;

verus! {

/// One for negative numbers.
pub open spec fn sign(bits: u32) -> int {
    bits as int / 0x8000_0000
}

pub open spec fn exponent(bits: u32) -> int {
    bits as int / 0x80_0000 % 0x100
}

pub open spec fn fraction(bits: u32) -> int {
    bits as int % 0x80_0000
}

/// Neither an infinity nor a NaN: these have all exponent bits set.
pub open spec fn finite(bits: u32) -> bool {
    exponent(bits) != 0xff
}

/// Zero has neither exponent nor fraction bits.
pub open spec fn zero(bits: u32) -> bool {
    exponent(bits) == 0 && fraction(bits) == 0
}

/// A finite number greater than zero.
pub open spec fn finite_and_positive(bits: u32) -> bool {
    finite(bits) && !zero(bits) && sign(bits) == 0
}

pub fn is_finite_and_positive(bits: u32) -> (yes: bool)
    ensures
        yes == finite_and_positive(bits),
{
    0 < bits && bits < 0x7f80_0000
}

/// The bits of the finite numbers above zero are exactly those between the bits of zero and
/// the bits of infinity.
pub proof fn law_finite_positive_numbers_lie_between_zero_and_infinity(bits: u32)
    ensures
        finite_and_positive(bits) <==> 0 < bits < 0x7f80_0000,
{
}

} // verus!
