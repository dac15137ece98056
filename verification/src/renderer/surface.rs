//! What to do when the surface fails to give a frame to draw on.

use vstd::prelude::*;

verus! {

/// Why the surface gave no frame.
#[derive(Clone, Copy, Debug, PartialEq, Eq, Hash, Structural)]
pub enum SurfaceFault {
    /// The surface is gone and has to be made anew.
    Lost,
    /// The surface no longer fits the window.
    Outdated,
    /// The GPU has no memory left.
    OutOfMemory,
    /// The frame did not come in time.
    Timeout,
}

/// What the application does about a frame that could not be drawn.
#[derive(Clone, Copy, Debug, PartialEq, Eq, Hash, Structural)]
pub enum Recovery {
    /// Skip the frame and configure the surface again.
    Reconfigure,
    /// Skip the frame and say so in the log.
    Skip,
    /// End the program.
    Exit,
}

/// What is done about a fault of the surface: a surface that is lost or
/// outdated is configured again, a frame that ran out of time is skipped,
/// and without memory the program ends.
pub open spec fn recovery_of(fault: SurfaceFault) -> Recovery {
    match fault {
        SurfaceFault::Lost => Recovery::Reconfigure,
        SurfaceFault::Outdated => Recovery::Reconfigure,
        SurfaceFault::OutOfMemory => Recovery::Exit,
        SurfaceFault::Timeout => Recovery::Skip,
    }
}

pub fn recover(fault: SurfaceFault) -> (recovery: Recovery)
    ensures
        recovery == recovery_of(fault),
{
    match fault {
        SurfaceFault::Lost => Recovery::Reconfigure,
        SurfaceFault::Outdated => Recovery::Reconfigure,
        SurfaceFault::OutOfMemory => Recovery::Exit,
        SurfaceFault::Timeout => Recovery::Skip,
    }
}

} // verus!
