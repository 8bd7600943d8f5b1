//! The confirm-or-skip decision read from the operator.

use vstd::prelude::*;

verus! {

/// Holds exactly of the operator inputs that approve labeling.
pub open spec fn approves(c: char) -> bool {
    c == 'y' || c == 'Y'
}

/// Decides whether one character of operator input approves applying
/// the suggested labels: `y` or `Y` approves, anything else declines.
pub fn is_affirmative(c: char) -> (r: bool)
    ensures
        r == approves(c),
{
    c == 'y' || c == 'Y'
}

} // verus!
