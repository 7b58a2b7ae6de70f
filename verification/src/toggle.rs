//! The toggle switch's state logic.
//!
//! The switch itself — allocating space, animating the knob, painting the
//! track — belongs to the paint layer; the decision it acts on is here: a
//! click flips the state, anything else leaves it.

use vstd::prelude::*;

verus! {

/// The state of a toggle switch after one frame: flipped exactly when its
/// area was clicked this frame, unchanged otherwise. The result differing
/// from `on` is also the "changed" signal the paint layer reports.
pub fn toggle_next(on: bool, clicked: bool) -> (r: bool)
    ensures
        r == (if clicked {
            !on
        } else {
            on
        }),
        (r != on) == clicked,
{
    if clicked {
        !on
    } else {
        on
    }
}

} // verus!
