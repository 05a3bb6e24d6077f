//! The 32-bit binary format: one sign bit, eight bits of exponent,
//! twenty-three of fraction.

use crate::float_bits::FloatBits;
use crate::value::{lemma_units_ordered_as_pattern, pattern, units, Value};
use vstd::arithmetic::power2::{lemma2_to64, pow2};
use vstd::prelude::*;

verus! {

/// Every bit but the sign.
pub const MAGNITUDE_MASK: u32 = 0x7fff_ffff;

/// The magnitude pattern of infinity: the exponent field full, the fraction
/// empty. Larger magnitude patterns are not numbers.
pub const INFINITY_PATTERN: u32 = 0x7f80_0000;

/// A 32-bit floating-point number, by its bits.
#[derive(Clone, Copy, Debug, PartialEq, Eq, Structural)]
pub struct Binary32 {
    pub bits: u32,
}

impl Binary32 {
    /// Whether the sign bit is set.
    pub open spec fn is_negative(self) -> bool {
        self.bits >> 31 == 1
    }

    /// The biased exponent field.
    pub open spec fn exponent(self) -> nat {
        ((self.bits >> 23) & 0xff) as nat
    }

    /// The fraction field.
    pub open spec fn fraction(self) -> nat {
        (self.bits & 0x7f_ffff) as nat
    }

    /// The magnitude pattern is the exponent field above the fraction field.
    pub proof fn lemma_fields(self)
        ensures
            (self.bits & MAGNITUDE_MASK) == pattern(self.exponent(), self.fraction(), 23),
            self.fraction() < pow2(23),
            self.exponent() <= 255,
            (self.bits & MAGNITUDE_MASK) <= INFINITY_PATTERN <==> !(self.exponent() == 255
                && self.fraction() != 0),
            (self.bits & MAGNITUDE_MASK) == INFINITY_PATTERN <==> (self.exponent() == 255
                && self.fraction() == 0),
    {
        let bits = self.bits;
        lemma2_to64();
        assert((bits & 0x7fff_ffff) == ((bits >> 23) & 0xff) * 0x80_0000 + (bits & 0x7f_ffff))
            by (bit_vector);
        assert((bits & 0x7f_ffff) < 0x80_0000) by (bit_vector);
        assert(((bits >> 23) & 0xff) <= 255) by (bit_vector);
    }
}

impl FloatBits for Binary32 {
    open spec fn value(self) -> Value {
        if self.exponent() == 255 {
            if self.fraction() != 0 {
                Value::NotANumber
            } else if self.is_negative() {
                Value::NegativeInfinity
            } else {
                Value::PositiveInfinity
            }
        } else if self.is_negative() {
            Value::Finite(-(units(self.exponent(), self.fraction(), 23) as int))
        } else {
            Value::Finite(units(self.exponent(), self.fraction(), 23) as int)
        }
    }

    open spec fn magnitude(self) -> Binary32 {
        Binary32 { bits: self.bits & MAGNITUDE_MASK }
    }

    proof fn lemma_magnitude_value(self) {
        let bits = self.bits;
        let cleared = bits & 0x7fff_ffff;
        assert(cleared >> 31 == 0) by (bit_vector)
            requires
                cleared == bits & 0x7fff_ffff,
        ;
        assert((cleared >> 23) & 0xff == (bits >> 23) & 0xff) by (bit_vector)
            requires
                cleared == bits & 0x7fff_ffff,
        ;
        assert(cleared & 0x7f_ffff == bits & 0x7f_ffff) by (bit_vector)
            requires
                cleared == bits & 0x7fff_ffff,
        ;
    }

    fn abs(self) -> (r: Binary32) {
        Binary32 { bits: self.bits & MAGNITUDE_MASK }
    }

    fn le(self, other: Binary32) -> (r: bool) {
        let a: u32 = self.bits & MAGNITUDE_MASK;
        let b: u32 = other.bits & MAGNITUDE_MASK;
        proof {
            self.lemma_fields();
            other.lemma_fields();
            lemma_units_ordered_as_pattern(
                self.exponent(),
                self.fraction(),
                other.exponent(),
                other.fraction(),
                23,
            );
            lemma_units_ordered_as_pattern(
                other.exponent(),
                other.fraction(),
                self.exponent(),
                self.fraction(),
                23,
            );
        }
        if a > INFINITY_PATTERN || b > INFINITY_PATTERN {
            false
        } else if self.bits >> 31 == 1 {
            if other.bits >> 31 == 1 {
                b <= a
            } else {
                true
            }
        } else if other.bits >> 31 == 1 {
            a == 0 && b == 0
        } else {
            a <= b
        }
    }
}

} // verus!
