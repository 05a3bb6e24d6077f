//! Tolerance comparison of floating-point numbers, on their bit patterns.
//!
//! Two numbers agree to a number of decimal places when their difference is at
//! most half a unit of the last place. The caller forms the difference and
//! that half unit in one floating-point format and hands both over as bits;
//! the verdict is decided here, on the bits alone.

pub mod binary32;
pub mod binary64;
pub mod float_bits;
pub mod message;
pub mod tolerance;
pub mod value;

pub use crate::binary32::Binary32;
pub use crate::binary64::Binary64;
pub use crate::float_bits::FloatBits;
pub use crate::message::failure_message;
pub use crate::tolerance::{
    assert_close_to, assert_far_from, close_to, far_from, unit_exponent, AssertCloseTo, CloseTo,
    Expectation, Mismatch,
};
