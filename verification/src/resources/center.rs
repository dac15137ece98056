//! The point that the camera and the enemies look at.

use vstd::prelude::*;
use crate::units::in_world;

verus! {

/// Where the player's character stood when the physics last moved it.
#[derive(Clone, Copy, Debug, PartialEq, Eq)]
pub struct Center(pub i64, pub i64);

impl Center {
    /// The point lies inside the world.
    pub open spec fn wf(self) -> bool {
        in_world(self.0 as int) && in_world(self.1 as int)
    }
}

impl Default for Center {
    fn default() -> (c: Center)
        ensures
            c == Center(0, 0),
    {
        Center(0, 0)
    }
}

} // verus!
