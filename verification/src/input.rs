//! The input boundary: a snapshot, taken once per tick, of the four
//! directional keys' held state and the two action keys' rising edges.

use vstd::prelude::*;

verus! {

/// What the player is pressing this tick. `up`..`right` are held states;
/// `confirm` and `roar` are rising edges (just pressed, not held-repeat).
#[derive(Clone, Copy, PartialEq, Eq, Structural, Debug)]
pub struct InputState {
    pub up: bool,
    pub down: bool,
    pub left: bool,
    pub right: bool,
    pub confirm: bool,
    pub roar: bool,
}

impl InputState {
    /// A snapshot with nothing pressed.
    pub fn released() -> (r: InputState)
        ensures
            r == (InputState {
                up: false,
                down: false,
                left: false,
                right: false,
                confirm: false,
                roar: false,
            }),
    {
        InputState { up: false, down: false, left: false, right: false, confirm: false, roar: false }
    }
}

} // verus!
