use vstd::prelude::*;

use vstd::std_specs::cmp::PartialEqSpecImpl;

verus! {

/// Whether the bits of an IEEE-754 double encode a NaN: all exponent bits
/// set and a fraction that is not zero.
pub open spec fn is_nan_bits(bits: u64) -> bool {
    (bits & 0x7ff0_0000_0000_0000u64) == 0x7ff0_0000_0000_0000u64 && (bits
        & 0x000f_ffff_ffff_ffffu64) != 0u64
}

/// Whether the bits of an IEEE-754 double encode a zero, of either sign.
pub open spec fn is_zero_bits(bits: u64) -> bool {
    (bits & 0x7fff_ffff_ffff_ffffu64) == 0u64
}

/// IEEE-754 equality of two doubles given by their bits: a NaN equals
/// nothing, the two zeros are equal, and otherwise equal values have equal
/// bits.
pub open spec fn bits_equal(a: u64, b: u64) -> bool {
    !is_nan_bits(a) && !is_nan_bits(b) && (a == b || (is_zero_bits(a) && is_zero_bits(b)))
}

/// A real number held as the bit pattern of an IEEE-754 `f64`
/// (`f64::to_bits`). The library carries such numbers without arithmetic;
/// they compare as `f64` values do.
#[derive(Debug, Clone, Copy)]
pub struct F64Bits(pub u64);

impl PartialEq for F64Bits {
    fn eq(&self, other: &Self) -> (same: bool) {
        let a = self.0;
        let b = other.0;
        let a_nan = (a & 0x7ff0_0000_0000_0000u64) == 0x7ff0_0000_0000_0000u64 && (a
            & 0x000f_ffff_ffff_ffffu64) != 0u64;
        let b_nan = (b & 0x7ff0_0000_0000_0000u64) == 0x7ff0_0000_0000_0000u64 && (b
            & 0x000f_ffff_ffff_ffffu64) != 0u64;
        let both_zero = (a & 0x7fff_ffff_ffff_ffffu64) == 0u64 && (b & 0x7fff_ffff_ffff_ffffu64)
            == 0u64;
        !a_nan && !b_nan && (a == b || both_zero)
    }
}

impl PartialEqSpecImpl for F64Bits {
    open spec fn obeys_eq_spec() -> bool {
        true
    }

    open spec fn eq_spec(&self, other: &F64Bits) -> bool {
        bits_equal(self.0, other.0)
    }
}

} // verus!
