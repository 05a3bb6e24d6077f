//! The 64-bit binary format: one sign bit, eleven bits of exponent, fifty-two
//! of fraction.

use crate::float_bits::FloatBits;
use crate::value::{lemma_units_ordered_as_pattern, pattern, units, Value};
use vstd::arithmetic::power2::{lemma2_to64_rest, pow2};
use vstd::prelude::*;

verus! {

/// Every bit but the sign.
pub const MAGNITUDE_MASK: u64 = 0x7fff_ffff_ffff_ffff;

/// The magnitude pattern of infinity: the exponent field full, the fraction
/// empty. Larger magnitude patterns are not numbers.
pub const INFINITY_PATTERN: u64 = 0x7ff0_0000_0000_0000;

/// A 64-bit floating-point number, by its bits.
#[derive(Clone, Copy, Debug, PartialEq, Eq, Structural)]
pub struct Binary64 {
    pub bits: u64,
}

impl Binary64 {
    /// Whether the sign bit is set.
    pub open spec fn is_negative(self) -> bool {
        self.bits >> 63 == 1
    }

    /// The biased exponent field.
    pub open spec fn exponent(self) -> nat {
        ((self.bits >> 52) & 0x7ff) as nat
    }

    /// The fraction field.
    pub open spec fn fraction(self) -> nat {
        (self.bits & 0xf_ffff_ffff_ffff) as nat
    }

    /// The magnitude pattern is the exponent field above the fraction field.
    pub proof fn lemma_fields(self)
        ensures
            (self.bits & MAGNITUDE_MASK) == pattern(self.exponent(), self.fraction(), 52),
            self.fraction() < pow2(52),
            self.exponent() <= 2047,
            (self.bits & MAGNITUDE_MASK) <= INFINITY_PATTERN <==> !(self.exponent() == 2047
                && self.fraction() != 0),
            (self.bits & MAGNITUDE_MASK) == INFINITY_PATTERN <==> (self.exponent() == 2047
                && self.fraction() == 0),
    {
        let bits = self.bits;
        lemma2_to64_rest();
        assert((bits & 0x7fff_ffff_ffff_ffff) == ((bits >> 52) & 0x7ff) * 0x10_0000_0000_0000 + (
        bits & 0xf_ffff_ffff_ffff)) by (bit_vector);
        assert((bits & 0xf_ffff_ffff_ffff) < 0x10_0000_0000_0000) by (bit_vector);
        assert(((bits >> 52) & 0x7ff) <= 2047) by (bit_vector);
    }
}

impl FloatBits for Binary64 {
    open spec fn value(self) -> Value {
        if self.exponent() == 2047 {
            if self.fraction() != 0 {
                Value::NotANumber
            } else if self.is_negative() {
                Value::NegativeInfinity
            } else {
                Value::PositiveInfinity
            }
        } else if self.is_negative() {
            Value::Finite(-(units(self.exponent(), self.fraction(), 52) as int))
        } else {
            Value::Finite(units(self.exponent(), self.fraction(), 52) as int)
        }
    }

    open spec fn magnitude(self) -> Binary64 {
        Binary64 { bits: self.bits & MAGNITUDE_MASK }
    }

    proof fn lemma_magnitude_value(self) {
        let bits = self.bits;
        let cleared = bits & 0x7fff_ffff_ffff_ffff;
        assert(cleared >> 63 == 0) by (bit_vector)
            requires
                cleared == bits & 0x7fff_ffff_ffff_ffff,
        ;
        assert((cleared >> 52) & 0x7ff == (bits >> 52) & 0x7ff) by (bit_vector)
            requires
                cleared == bits & 0x7fff_ffff_ffff_ffff,
        ;
        assert(cleared & 0xf_ffff_ffff_ffff == bits & 0xf_ffff_ffff_ffff) by (bit_vector)
            requires
                cleared == bits & 0x7fff_ffff_ffff_ffff,
        ;
    }

    fn abs(self) -> (r: Binary64) {
        Binary64 { bits: self.bits & MAGNITUDE_MASK }
    }

    fn le(self, other: Binary64) -> (r: bool) {
        let a: u64 = self.bits & MAGNITUDE_MASK;
        let b: u64 = other.bits & MAGNITUDE_MASK;
        proof {
            self.lemma_fields();
            other.lemma_fields();
            lemma_units_ordered_as_pattern(
                self.exponent(),
                self.fraction(),
                other.exponent(),
                other.fraction(),
                52,
            );
            lemma_units_ordered_as_pattern(
                other.exponent(),
                other.fraction(),
                self.exponent(),
                self.fraction(),
                52,
            );
        }
        if a > INFINITY_PATTERN || b > INFINITY_PATTERN {
            false
        } else if self.bits >> 63 == 1 {
            if other.bits >> 63 == 1 {
                b <= a
            } else {
                true
            }
        } else if other.bits >> 63 == 1 {
            a == 0 && b == 0
        } else {
            a <= b
        }
    }
}

} // verus!
