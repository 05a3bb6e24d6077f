//! The wording of a failed assertion.

use crate::tolerance::Expectation;
use vstd::prelude::*;

verus! {

/// The first line and the label of the left number, which differ with what
/// was claimed.
pub open spec fn headline(expectation: Expectation) -> Seq<char> {
    match expectation {
        Expectation::Close => "assertion 'left ≈ right` failed\n left:  "@,
        Expectation::Far => "assertion 'left != right` failed\n left:  "@,
    }
}

/// The whole message: the claim that failed, then the two numbers and the two
/// differences, each under its label and on a line of its own.
pub open spec fn failure_text(
    expectation: Expectation,
    left: Seq<char>,
    right: Seq<char>,
    received_diff: Seq<char>,
    expected_diff: Seq<char>,
) -> Seq<char> {
    headline(expectation) + left + "\nright: "@ + right + "\nreceived_diff: "@ + received_diff
        + "\nexpected_diff: "@ + expected_diff
}

/// Builds the message of a failed assertion from the four values as the
/// caller has rendered them.
pub fn failure_message(
    expectation: Expectation,
    left: &str,
    right: &str,
    received_diff: &str,
    expected_diff: &str,
) -> (message: String)
    ensures
        message@ == failure_text(expectation, left@, right@, received_diff@, expected_diff@),
{
    let mut message = match expectation {
        Expectation::Close => String::from_str("assertion 'left ≈ right` failed\n left:  "),
        Expectation::Far => String::from_str("assertion 'left != right` failed\n left:  "),
    };
    message.append(left);
    message.append("\nright: ");
    message.append(right);
    message.append("\nreceived_diff: ");
    message.append(received_diff);
    message.append("\nexpected_diff: ");
    message.append(expected_diff);
    message
}

} // verus!
