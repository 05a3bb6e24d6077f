//! The numbers that a binary floating-point pattern can stand for, and their
//! order.
//!
//! A finite number is held as an integer count of the format's smallest
//! positive step, so that every finite pattern has an exact integer value and
//! no rounding enters the model.

use vstd::arithmetic::power2::{lemma_pow2_pos, lemma_pow2_strictly_increases, lemma_pow2_unfold, pow2};
use vstd::prelude::*;

verus! {

/// What a floating-point pattern stands for.
pub enum Value {
    /// Not a number: unordered against everything, itself included.
    NotANumber,
    /// Below every finite number.
    NegativeInfinity,
    /// A finite number, counted in units of the format's smallest positive
    /// step. Both zeros are `Finite(0)`.
    Finite(int),
    /// Above every finite number.
    PositiveInfinity,
}

impl Value {
    /// The absolute value: the sign is dropped, and not-a-number stays so.
    pub open spec fn magnitude(self) -> Value {
        match self {
            Value::NotANumber => Value::NotANumber,
            Value::NegativeInfinity | Value::PositiveInfinity => Value::PositiveInfinity,
            Value::Finite(units) => Value::Finite(
                if units < 0 {
                    -units
                } else {
                    units
                },
            ),
        }
    }

    /// The number with the opposite sign; not-a-number stays so.
    pub open spec fn negated(self) -> Value {
        match self {
            Value::NotANumber => Value::NotANumber,
            Value::NegativeInfinity => Value::PositiveInfinity,
            Value::PositiveInfinity => Value::NegativeInfinity,
            Value::Finite(units) => Value::Finite(-units),
        }
    }

    /// `self <= other` as floating-point comparison decides it: false as soon
    /// as either side is not a number, and the order of the extended reals
    /// otherwise.
    pub open spec fn le(self, other: Value) -> bool {
        match (self, other) {
            (Value::NotANumber, _) => false,
            (_, Value::NotANumber) => false,
            (Value::NegativeInfinity, _) => true,
            (_, Value::PositiveInfinity) => true,
            (Value::Finite(a), Value::Finite(b)) => a <= b,
            _ => false,
        }
    }
}

/// The integer value of the magnitude with biased exponent `exponent` and
/// fraction field `fraction`, in a format with `fraction_bits` bits of
/// fraction, in units of the format's smallest positive step.
///
/// With exponent 0 the pattern is subnormal (or zero) and the fraction is the
/// count itself; above that the hidden leading bit is added and each step of
/// the exponent doubles the value.
pub open spec fn units(exponent: nat, fraction: nat, fraction_bits: nat) -> nat {
    if exponent == 0 {
        fraction
    } else {
        (pow2(fraction_bits) + fraction) * pow2((exponent - 1) as nat)
    }
}

/// The magnitude pattern itself, read as an integer: the exponent field
/// stands above the fraction field.
pub open spec fn pattern(exponent: nat, fraction: nat, fraction_bits: nat) -> nat {
    exponent * pow2(fraction_bits) + fraction
}

/// Two magnitudes compare as their patterns do: the encoding is monotone.
pub proof fn lemma_units_ordered_as_pattern(
    e1: nat,
    f1: nat,
    e2: nat,
    f2: nat,
    fraction_bits: nat,
)
    requires
        f1 < pow2(fraction_bits),
        f2 < pow2(fraction_bits),
    ensures
        pattern(e1, f1, fraction_bits) <= pattern(e2, f2, fraction_bits) <==> units(
            e1,
            f1,
            fraction_bits,
        ) <= units(e2, f2, fraction_bits),
        pattern(e1, f1, fraction_bits) == 0 <==> units(e1, f1, fraction_bits) == 0,
{
    let p = pow2(fraction_bits) as int;
    lemma_pow2_pos(fraction_bits);
    if e1 < e2 {
        lemma_units_below_next_exponent(e1, f1, e2, f2, fraction_bits);
        assert(e1 * p + f1 < e2 * p + f2) by (nonlinear_arith)
            requires
                e1 < e2,
                0 <= f1 < p,
                0 <= f2,
        ;
    } else if e2 < e1 {
        lemma_units_below_next_exponent(e2, f2, e1, f1, fraction_bits);
        assert(e2 * p + f2 < e1 * p + f1) by (nonlinear_arith)
            requires
                e2 < e1,
                0 <= f2 < p,
                0 <= f1,
        ;
    } else if e1 > 0 {
        let s = pow2((e1 - 1) as nat) as int;
        lemma_pow2_pos((e1 - 1) as nat);
        assert(f1 <= f2 <==> (p + f1) * s <= (p + f2) * s) by (nonlinear_arith)
            requires
                s > 0,
        ;
    }
    if e1 > 0 {
        let s = pow2((e1 - 1) as nat) as int;
        lemma_pow2_pos((e1 - 1) as nat);
        assert((p + f1) * s > 0) by (nonlinear_arith)
            requires
                s > 0,
                p > 0,
                f1 >= 0,
        ;
        assert(e1 * p + f1 > 0) by (nonlinear_arith)
            requires
                e1 > 0,
                p > 0,
                f1 >= 0,
        ;
    }
}

/// A magnitude with the smaller exponent is the smaller one, whatever the
/// fractions are.
proof fn lemma_units_below_next_exponent(e1: nat, f1: nat, e2: nat, f2: nat, fraction_bits: nat)
    requires
        e1 < e2,
        f1 < pow2(fraction_bits),
    ensures
        units(e1, f1, fraction_bits) < units(e2, f2, fraction_bits),
{
    let p = pow2(fraction_bits) as int;
    let high = pow2((e2 - 1) as nat) as int;
    lemma_pow2_pos(fraction_bits);
    lemma_pow2_pos((e2 - 1) as nat);
    assert(p <= (p + f2) * high) by (nonlinear_arith)
        requires
            p > 0,
            f2 >= 0,
            high >= 1,
    ;
    if e1 > 0 {
        let low = pow2((e1 - 1) as nat) as int;
        lemma_pow2_pos((e1 - 1) as nat);
        lemma_pow2_unfold(e1);
        if e1 < e2 - 1 {
            lemma_pow2_strictly_increases(e1, (e2 - 1) as nat);
        }
        assert(pow2(e1) <= high);
        assert((p + f1) * low < (p + f2) * high) by (nonlinear_arith)
            requires
                0 <= f1 < p,
                f2 >= 0,
                low > 0,
                2 * low <= high,
        ;
    }
}

} // verus!
