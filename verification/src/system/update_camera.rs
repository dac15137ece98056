//! The camera follows the player's character, and the ground follows the
//! camera.

use vstd::prelude::*;
use crate::resources::camera::Camera;
use crate::resources::center::Center;
use crate::resources::tile_map_storage::{visible, TileMapStorage};

verus! {

/// Moves the camera to the centre, and lets the ground choose its chunks
/// for it.
pub struct UpdateCamera;

impl UpdateCamera {
    /// Runs the system.
    pub fn run(&self, center: &Center, camera: &mut Camera, map: &mut TileMapStorage)
        requires
            center.wf(),
            old(camera).wf(),
            old(map).wf(),
        ensures
            *final(camera) == (Camera { position: [center.0, center.1], ..*old(camera) }),
            *final(camera) == old(camera).moved(
                [(center.0 - old(camera).position[0]) as i64, (center.1 - old(camera).position[1]) as i64],
            ),
            final(camera).wf(),
            old(map).near([center.0, center.1]) ==> *final(map) == *old(map),
            !old(map).near([center.0, center.1]) ==> {
                &&& final(map).atlas == old(map).atlas
                &&& final(map).tiles == old(map).tiles
                &&& final(map).chunk_size == old(map).chunk_size
                &&& final(map).camera_pos == [center.0, center.1]
                &&& final(map).meshes@ == visible(
                    old(map).tiles@,
                    old(map).anchor([center.0, center.1]),
                    3 * old(map).chunk_size,
                )
            },
            final(map).wf(),
    {
        let delta: [i64; 2] = [center.0 - camera.position[0], center.1 - camera.position[1]];
        let position = camera.move_camera(delta);
        assert(camera.position =~= [center.0, center.1]);
        map.update_tile_grid(position);
    }
}

} // verus!
