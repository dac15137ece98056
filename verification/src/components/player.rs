//! What makes an entity the player's.

use vstd::prelude::*;

verus! {

/// The player's character: its speed in sub-units per millisecond.
#[derive(Clone, Copy, Debug, PartialEq, Eq)]
pub struct Player {
    pub speed: u32,
}

impl Player {
    /// The character can move.
    pub open spec fn wf(self) -> bool {
        self.speed >= 1
    }
}

} // verus!
