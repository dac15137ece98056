//! The sprite of an entity: one cell of an atlas.

use vstd::prelude::*;

verus! {

/// A cell of a texture atlas. The atlas is cut into cells of one size, given
/// in millionths of the atlas' width and height; the cell is named by its
/// column and row.
#[derive(Debug, PartialEq, Eq)]
pub struct Tile {
    pub tile_index: [u8; 2],
    pub uv_size: [u32; 2],
    pub atlas: String,
}

impl Tile {
    /// The texture coordinates of the cell's corner, in millionths of the
    /// atlas' width and height.
    pub open spec fn uv(self) -> (int, int) {
        (self.uv_size[0] * self.tile_index[0], self.uv_size[1] * self.tile_index[1])
    }

    pub fn get_uv(&self) -> (uv: [u64; 2])
        ensures
            uv[0] == self.uv().0,
            uv[1] == self.uv().1,
    {
        let w: u64 = self.uv_size[0] as u64;
        let h: u64 = self.uv_size[1] as u64;
        let column: u64 = self.tile_index[0] as u64;
        let row: u64 = self.tile_index[1] as u64;
        assert(w * column <= 0xffff_ffff * 0xff) by (nonlinear_arith)
            requires
                0 <= w <= 0xffff_ffff,
                0 <= column <= 0xff,
        ;
        assert(h * row <= 0xffff_ffff * 0xff) by (nonlinear_arith)
            requires
                0 <= h <= 0xffff_ffff,
                0 <= row <= 0xff,
        ;
        [w * column, h * row]
    }

    /// A tile of its own that equals this one.
    pub fn duplicate(&self) -> (copy: Tile)
        ensures
            copy == *self,
    {
        Tile { tile_index: self.tile_index, uv_size: self.uv_size, atlas: self.atlas.clone() }
    }
}

} // verus!
