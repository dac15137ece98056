//! The camera: the point that it looks at and the part of the world that
//! it shows.

use vstd::prelude::*;
use crate::units::{in_world, UNIT};

verus! {

/// A camera that looks straight at the ground. It shows the rectangle of
/// `extent` world units around the point that it tracks, on a viewport of
/// `viewport` pixels.
#[derive(Clone, Copy, Debug, PartialEq, Eq)]
pub struct Camera {
    pub position: [i64; 2],
    pub extent: [u32; 2],
    pub viewport: [u32; 2],
}

impl Camera {
    /// The camera looks at a point inside the world.
    pub open spec fn wf(self) -> bool {
        in_world(self.position[0] as int) && in_world(self.position[1] as int)
    }

    /// The camera after a move by `delta`.
    pub open spec fn moved(self, delta: [i64; 2]) -> Camera {
        Camera {
            position: [(self.position[0] + delta[0]) as i64, (self.position[1] + delta[1]) as i64],
            ..self
        }
    }

    /// The part of the world that the camera shows: its left, right, bottom
    /// and top edge, in sub-units.
    pub open spec fn shown(self) -> [i64; 4] {
        [
            (self.position[0] - self.extent[0] * (UNIT / 2)) as i64,
            (self.position[0] + self.extent[0] * (UNIT / 2)) as i64,
            (self.position[1] - self.extent[1] * (UNIT / 2)) as i64,
            (self.position[1] + self.extent[1] * (UNIT / 2)) as i64,
        ]
    }

    /// A camera at the origin that shows `width` by `height` world units.
    pub fn init_orthographic(width: u32, height: u32) -> (camera: Camera)
        ensures
            camera == (Camera { position: [0i64, 0i64], extent: [width, height], viewport: [width, height] }),
            camera.wf(),
    {
        Camera { position: [0, 0], extent: [width, height], viewport: [width, height] }
    }

    /// Moves the camera by `delta`, and tells where it looks now.
    pub fn move_camera(&mut self, delta: [i64; 2]) -> (position: [i64; 2])
        requires
            in_world(old(self).position[0] + delta[0]),
            in_world(old(self).position[1] + delta[1]),
        ensures
            *final(self) == old(self).moved(delta),
            position == final(self).position,
            final(self).wf(),
    {
        self.position = [self.position[0] + delta[0], self.position[1] + delta[1]];
        self.position
    }

    /// Takes in the new size of the viewport, in pixels.
    pub fn resize(&mut self, width: u32, height: u32)
        ensures
            *final(self) == (Camera { viewport: [width, height], ..*old(self) }),
    {
        self.viewport = [width, height];
    }

    /// The part of the world that the camera shows.
    pub fn get_view(&self) -> (rect: [i64; 4])
        requires
            self.wf(),
        ensures
            rect == self.shown(),
    {
        let half_width: i64 = self.extent[0] as i64 * (UNIT / 2);
        let half_height: i64 = self.extent[1] as i64 * (UNIT / 2);
        [
            self.position[0] - half_width,
            self.position[0] + half_width,
            self.position[1] - half_height,
            self.position[1] + half_height,
        ]
    }
}

} // verus!
