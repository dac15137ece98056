//! The rows of the instance buffers.

use vstd::prelude::*;
use crate::components::tile::Tile;
use crate::components::transform::Transform;

verus! {

/// One row of an instance buffer: the texture coordinates of the sprite's
/// cell, in millionths, and the model matrix, column by column, in
/// sub-units.
#[derive(Clone, Copy, Debug, PartialEq, Eq)]
pub struct InstanceTileRaw {
    pub uv: [u64; 2],
    pub model: [[i64; 4]; 4],
}

impl InstanceTileRaw {
    /// The row of a sprite at a place.
    pub open spec fn of(tile: Tile, transform: Transform) -> InstanceTileRaw {
        InstanceTileRaw { uv: [tile.uv().0 as u64, tile.uv().1 as u64], model: transform.matrix() }
    }

    /// The row of a sprite at a place.
    pub fn new(tile: &Tile, transform: &Transform) -> (row: InstanceTileRaw)
        ensures
            row == Self::of(*tile, *transform),
    {
        let uv = tile.get_uv();
        assert(uv =~= [tile.uv().0 as u64, tile.uv().1 as u64]);
        InstanceTileRaw { uv, model: transform.get_matrix() }
    }
}

} // verus!
