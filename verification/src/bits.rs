//! Predicates on IEEE-754 binary32 values given by their bit patterns.
//!
//! Bit 31 is the sign, bits 23..=30 the biased exponent, and bits 0..=22 the
//! fraction. A value is infinite or NaN exactly when its exponent field is
//! all ones. Non-negative finite values order like their bit patterns.

use vstd::prelude::*;

verus! {

/// The biased exponent field of a binary32 bit pattern.
pub open spec fn exponent_field(bits: u32) -> u32 {
    ((bits / 0x80_0000) % 0x100) as u32
}

/// The binary32 value is neither infinite nor NaN.
pub open spec fn spec_is_finite(bits: u32) -> bool {
    exponent_field(bits) != 0xff
}

/// The finite binary32 value `v` satisfies `0.0 <= v && v <= 1.0`:
/// `+0.0` through `1.0` (`0x3f80_0000`) or `-0.0` (`0x8000_0000`).
pub open spec fn spec_in_unit_interval(bits: u32) -> bool {
    bits <= 0x3f80_0000 || bits == 0x8000_0000
}

/// Reports whether the binary32 value with bit pattern `bits` is finite.
pub fn is_finite(bits: u32) -> (finite: bool)
    ensures
        finite == spec_is_finite(bits),
{
    (bits / 0x80_0000) % 0x100 != 0xff
}

/// Reports whether the finite binary32 value with bit pattern `bits` lies in
/// the closed unit interval.
pub fn in_unit_interval(bits: u32) -> (inside: bool)
    ensures
        inside == spec_in_unit_interval(bits),
{
    bits <= 0x3f80_0000 || bits == 0x8000_0000
}

/// A binary32 value is NaN or infinite exactly when its eight exponent bits
/// (bits 23 through 30) are all ones, whatever its sign and fraction.
pub proof fn lemma_finite_is_exponent_not_all_ones(bits: u32)
    ensures
        spec_is_finite(bits) <==> (bits & 0x7f80_0000u32) != 0x7f80_0000u32,
{
    assert(((bits / 0x80_0000u32) % 0x100u32 != 0xffu32) <==> (bits & 0x7f80_0000u32)
        != 0x7f80_0000u32) by (bit_vector);
}

/// The unit interval holds every pattern from `+0.0` through `1.0`, and
/// `-0.0`; every other negative pattern and every positive pattern above
/// `1.0` lies outside.
pub proof fn lemma_unit_interval_bounds(bits: u32)
    ensures
        bits <= 0x3f80_0000u32 ==> spec_in_unit_interval(bits),
        bits == 0x8000_0000u32 ==> spec_in_unit_interval(bits),
        0x3f80_0000u32 < bits && bits < 0x8000_0000u32 ==> !spec_in_unit_interval(bits),
        bits > 0x8000_0000u32 ==> !spec_in_unit_interval(bits),
{
}

} // verus!
