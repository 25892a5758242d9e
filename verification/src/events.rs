//! Side-effect events emitted by the simulation for the presentation layer
//! (audio cues and auxiliary visuals); the core itself performs no I/O.

use vstd::prelude::*;

verus! {

/// One fire-and-forget notification produced by a tick.
#[derive(Clone, Copy, PartialEq, Eq, Structural, Debug)]
pub enum Event {
    /// The treasure became carried by the agent.
    PickedUp,
    /// The treasure was dropped and is free-standing again.
    Dropped,
    /// The roar state was entered.
    RoarStarted,
    /// The roar state ended because its timer elapsed.
    RoarEnded,
}

} // verus!
