//! The length of the frame.

use vstd::prelude::*;

verus! {

/// Frames longer than this many milliseconds are passed over: the game
/// stands still rather than leap.
pub const LONGEST_FRAME: u16 = 200;

/// The milliseconds that have passed since the frame before: written once
/// per frame, read by every system.
#[derive(Clone, Copy, Debug, PartialEq, Eq)]
pub struct DeltaTime(pub u16);

impl DeltaTime {
    /// The length of a frame for which `elapsed` milliseconds have passed,
    /// unless the frame is too long to be run.
    pub fn from_elapsed(elapsed: u128) -> (dt: Option<DeltaTime>)
        ensures
            dt == (if elapsed <= LONGEST_FRAME {
                Some(DeltaTime(elapsed as u16))
            } else {
                None
            }),
    {
        if elapsed <= LONGEST_FRAME as u128 {
            Some(DeltaTime(elapsed as u16))
        } else {
            None
        }
    }
}

} // verus!
