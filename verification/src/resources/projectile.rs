//! What every projectile has in common.

use vstd::prelude::*;
use crate::components::tile::Tile;

verus! {

/// The make of the projectiles: their sprite, of which each projectile shows
/// the cell of its direction; how long they last, in milliseconds; how fast
/// they fly, in sub-units per millisecond; and their box.
#[derive(Debug, PartialEq, Eq)]
pub struct ProjectileTemplate {
    pub tile: Tile,
    pub duration: u32,
    pub speed: u32,
    pub aabb_offset: [i32; 4],
}

impl ProjectileTemplate {
    /// The box is not inside out.
    pub open spec fn wf(self) -> bool {
        self.aabb_offset[0] <= self.aabb_offset[1] && self.aabb_offset[2] <= self.aabb_offset[3]
    }
}

impl Default for ProjectileTemplate {
    /// Projectiles from the atlas `projectiles`, which is eight cells wide
    /// and three high, that last a second, fly five units a second and are
    /// half a unit wide and high.
    fn default() -> (p: ProjectileTemplate)
        ensures
            p.tile.atlas@ == "projectiles"@,
            p.tile.uv_size == [125_000u32, 333_333u32],
            p.tile.tile_index == [0u8, 0u8],
            p.duration == 1_000,
            p.speed == 5_000,
            p.aabb_offset == [(-250_000i32), 250_000i32, (-250_000i32), 250_000i32],
            p.wf(),
    {
        ProjectileTemplate {
            tile: Tile {
                tile_index: [0, 0],
                uv_size: [125_000, 333_333],
                atlas: "projectiles".to_string(),
            },
            duration: 1_000,
            speed: 5_000,
            aabb_offset: [-250_000, 250_000, -250_000, 250_000],
        }
    }
}

} // verus!
