//! What the comparison needs of a floating-point format.

use crate::value::Value;
use vstd::prelude::*;

verus! {

/// A floating-point number held by its bit pattern.
///
/// The pattern is plain data; what it stands for is `value`. The two
/// operations are those of the format itself, decided on the bits.
pub trait FloatBits: Copy {
    /// The number that the pattern stands for.
    spec fn value(self) -> Value;

    /// The same pattern with its sign cleared.
    spec fn magnitude(self) -> Self;

    /// Clearing the sign of a pattern takes the absolute value of its number.
    proof fn lemma_magnitude_value(self)
        ensures
            self.magnitude().value() == self.value().magnitude(),
    ;

    /// The absolute value.
    fn abs(self) -> (r: Self)
        ensures
            r == self.magnitude(),
    ;

    /// Whether `self <= other`, which is false when either is not a number.
    fn le(self, other: Self) -> (r: bool)
        ensures
            r == self.value().le(other.value()),
    ;
}

} // verus!
