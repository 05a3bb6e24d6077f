//! The comparison itself: is a difference within the tolerance, or beyond it.
//!
//! Both inputs are floating-point numbers that the caller has computed in one
//! format: the difference `left - right` of the two numbers under comparison,
//! and the tolerance, half a unit of the last decimal place that has to agree.
//! The magnitude of the first is the received difference, the second is the
//! expected one.

use crate::float_bits::FloatBits;
use crate::value::Value;
use vstd::prelude::*;

verus! {

/// The power of ten that is one unit of the decimal place `precision`: the
/// opposite of `precision`, held to the largest exponent where that does not
/// fit.
pub open spec fn unit_exponent_of(precision: i32) -> int {
    if precision == i32::MIN {
        i32::MAX as int
    } else {
        -precision
    }
}

/// The exponent to raise ten to for one unit of the decimal place
/// `precision`. Half of that power is the expected difference.
pub fn unit_exponent(precision: i32) -> (exponent: i32)
    ensures
        exponent == unit_exponent_of(precision),
{
    if precision == i32::MIN {
        i32::MAX
    } else {
        -precision
    }
}

/// A difference is close when its magnitude is at most the expected
/// difference. Not-a-number on either side is never close.
pub open spec fn is_close(difference: Value, expected_diff: Value) -> bool {
    difference.magnitude().le(expected_diff)
}

/// Far is whatever is not close, not-a-number included.
pub open spec fn is_far(difference: Value, expected_diff: Value) -> bool {
    !is_close(difference, expected_diff)
}

/// Decides whether `difference` is within `expected_diff`, and returns the
/// verdict with the expected and the received difference.
pub fn close_to<T: FloatBits>(difference: T, expected_diff: T) -> (r: (bool, T, T))
    ensures
        r.0 == is_close(difference.value(), expected_diff.value()),
        r.1 == expected_diff,
        r.2 == difference.magnitude(),
        r.2.value() == difference.value().magnitude(),
{
    let received_diff = difference.abs();
    proof {
        difference.lemma_magnitude_value();
    }
    (received_diff.le(expected_diff), expected_diff, received_diff)
}

/// Decides whether `difference` is beyond `expected_diff`, and returns the
/// verdict with the expected and the received difference.
pub fn far_from<T: FloatBits>(difference: T, expected_diff: T) -> (r: (bool, T, T))
    ensures
        r.0 == is_far(difference.value(), expected_diff.value()),
        r.1 == expected_diff,
        r.2 == difference.magnitude(),
        r.2.value() == difference.value().magnitude(),
{
    let (close, expected_diff, received_diff) = close_to(difference, expected_diff);
    (!close, expected_diff, received_diff)
}

/// What an assertion claimed of the two numbers.
#[derive(Clone, Copy, Debug, PartialEq, Eq, Structural)]
pub enum Expectation {
    /// That they are close.
    Close,
    /// That they are far apart.
    Far,
}

/// A failed assertion: what was claimed, and the two differences that refute
/// it.
#[derive(Debug, PartialEq, Eq)]
pub struct Mismatch<T> {
    pub expectation: Expectation,
    pub received_diff: T,
    pub expected_diff: T,
}

/// Succeeds exactly when `difference` is within `expected_diff`; otherwise
/// reports the two differences.
pub fn assert_close_to<T: FloatBits>(difference: T, expected_diff: T) -> (r: Result<
    (),
    Mismatch<T>,
>)
    ensures
        r is Ok <==> is_close(difference.value(), expected_diff.value()),
        r is Err ==> r->Err_0 == (Mismatch {
            expectation: Expectation::Close,
            received_diff: difference.magnitude(),
            expected_diff,
        }),
{
    let (close, expected_diff, received_diff) = close_to(difference, expected_diff);
    if close {
        Ok(())
    } else {
        Err(Mismatch { expectation: Expectation::Close, received_diff, expected_diff })
    }
}

/// Succeeds exactly when `difference` is beyond `expected_diff`; otherwise
/// reports the two differences.
pub fn assert_far_from<T: FloatBits>(difference: T, expected_diff: T) -> (r: Result<
    (),
    Mismatch<T>,
>)
    ensures
        r is Ok <==> is_far(difference.value(), expected_diff.value()),
        r is Err ==> r->Err_0 == (Mismatch {
            expectation: Expectation::Far,
            received_diff: difference.magnitude(),
            expected_diff,
        }),
{
    let (far, expected_diff, received_diff) = far_from(difference, expected_diff);
    if far {
        Ok(())
    } else {
        Err(Mismatch { expectation: Expectation::Far, received_diff, expected_diff })
    }
}

/// The comparison as methods of the difference.
pub trait CloseTo: FloatBits {
    /// As the free function `close_to`, with `self` for the difference.
    fn close_to(&self, expected_diff: Self) -> (r: (bool, Self, Self))
        ensures
            r.0 == is_close(self.value(), expected_diff.value()),
            r.1 == expected_diff,
            r.2 == self.magnitude(),
    ;

    /// As the free function `far_from`, with `self` for the difference.
    fn far_from(&self, expected_diff: Self) -> (r: (bool, Self, Self))
        ensures
            r.0 == is_far(self.value(), expected_diff.value()),
            r.1 == expected_diff,
            r.2 == self.magnitude(),
    ;
}

impl<T: FloatBits> CloseTo for T {
    fn close_to(&self, expected_diff: T) -> (r: (bool, T, T)) {
        close_to(*self, expected_diff)
    }

    fn far_from(&self, expected_diff: T) -> (r: (bool, T, T)) {
        far_from(*self, expected_diff)
    }
}

/// The assertions as methods of the difference.
pub trait AssertCloseTo: FloatBits {
    /// As the free function `assert_close_to`, with `self` for the difference.
    fn assert_close_to(&self, expected_diff: Self) -> (r: Result<(), Mismatch<Self>>)
        ensures
            r is Ok <==> is_close(self.value(), expected_diff.value()),
            r is Err ==> r->Err_0 == (Mismatch {
                expectation: Expectation::Close,
                received_diff: self.magnitude(),
                expected_diff,
            }),
    ;

    /// As the free function `assert_far_from`, with `self` for the difference.
    fn assert_far_from(&self, expected_diff: Self) -> (r: Result<(), Mismatch<Self>>)
        ensures
            r is Ok <==> is_far(self.value(), expected_diff.value()),
            r is Err ==> r->Err_0 == (Mismatch {
                expectation: Expectation::Far,
                received_diff: self.magnitude(),
                expected_diff,
            }),
    ;
}

impl<T: FloatBits> AssertCloseTo for T {
    fn assert_close_to(&self, expected_diff: T) -> (r: Result<(), Mismatch<T>>) {
        assert_close_to(*self, expected_diff)
    }

    fn assert_far_from(&self, expected_diff: T) -> (r: Result<(), Mismatch<T>>) {
        assert_far_from(*self, expected_diff)
    }
}

/// Asking for fewer decimal places never lowers the exponent of the unit.
pub proof fn lemma_fewer_places_raise_the_unit(looser: i32, tighter: i32)
    requires
        looser <= tighter,
    ensures
        unit_exponent_of(looser) >= unit_exponent_of(tighter),
{
}

/// Far and close are exact complements: of any two numbers, one of the two
/// verdicts holds and never both.
pub proof fn lemma_far_complements_close(difference: Value, expected_diff: Value)
    ensures
        is_far(difference, expected_diff) == !is_close(difference, expected_diff),
{
}

/// A difference of zero is close under every expected difference that is a
/// number and not below zero.
pub proof fn lemma_zero_difference_is_close(difference: Value, expected_diff: Value)
    requires
        difference == Value::Finite(0),
        Value::Finite(0).le(expected_diff),
    ensures
        is_close(difference, expected_diff),
{
}

/// Loosening never turns a pass into a fail: what is close under one expected
/// difference is close under every one that is at least as large.
pub proof fn lemma_looser_stays_close(difference: Value, tight: Value, loose: Value)
    requires
        is_close(difference, tight),
        tight.le(loose),
    ensures
        is_close(difference, loose),
{
}

/// The verdict does not depend on the sign of the difference, so it is the
/// same whichever of the two numbers was taken from the other.
pub proof fn lemma_sign_of_difference_is_ignored(difference: Value, expected_diff: Value)
    ensures
        is_close(difference.negated(), expected_diff) == is_close(difference, expected_diff),
{
}

} // verus!
