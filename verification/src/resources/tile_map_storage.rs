//! The ground: chunks of tiles made once, of which those near the camera
//! are drawn.

use vstd::prelude::*;
use vstd::arithmetic::div_mod::lemma_fundamental_div_mod_converse;
use crate::components::direction::Direction;
use crate::components::transform::Transform;
use crate::renderer::mesh::InstanceTileRaw;
use crate::units::{abs, in_world, UNIT, WORLD_EDGE};

verus! {

/// Half the side of a chunk, in world units.
pub const MAP_SIZE: u16 = 10;

/// The chunks of the ground reach this many chunks to each side of the
/// origin.
pub const FULL_MAP_SIZE: u16 = 20;

/// No half side of a chunk is longer than this, in sub-units.
pub const CHUNK_SIZE_MAX: i64 = 65_535_000_000;

/// Two world units, in sub-units.
pub const DOUBLE_UNIT: i64 = 2 * UNIT;

/// The texture coordinates of the ground tile: the cell in column one, row
/// one of an atlas twelve cells wide and sixteen high.
pub const GROUND_UV: [u64; 2] = [83_333, 62_500];

/// A square of ground tiles around a centre, with the rows of its tiles.
#[derive(Debug, PartialEq, Eq)]
pub struct TileChunk {
    pub center_position: [i64; 2],
    pub meshes: Vec<InstanceTileRaw>,
}

/// The row of the ground tile at a place.
pub open spec fn ground_row(x: int, y: int) -> InstanceTileRaw {
    InstanceTileRaw {
        uv: GROUND_UV,
        model: (Transform {
            position: [x as i64, y as i64, 0i64],
            size: [UNIT, UNIT],
            direction: Direction::Left,
        }).matrix(),
    }
}

/// The `k`-th row of a chunk: the tiles lie one unit apart, column by
/// column, from `chunk_size` units left of and below the centre to one unit
/// short of as far right of and above it.
pub open spec fn chunk_row(center: [i64; 2], chunk_size: int, k: int) -> InstanceTileRaw {
    let side = 2 * chunk_size;
    ground_row(
        (k / side - chunk_size) * UNIT + center[0],
        (k % side - chunk_size) * UNIT + center[1],
    )
}

/// The rows of a chunk.
pub open spec fn chunk_rows(center: [i64; 2], chunk_size: int) -> Seq<InstanceTileRaw> {
    Seq::new(((2 * chunk_size) * (2 * chunk_size)) as nat, |k: int| chunk_row(center, chunk_size, k))
}

impl TileChunk {
    /// The centre lies so far inside the world that every tile does.
    pub open spec fn fits(center: [i64; 2]) -> bool {
        &&& in_world(center[0] - CHUNK_SIZE_MAX)
        &&& in_world(center[0] + CHUNK_SIZE_MAX)
        &&& in_world(center[1] - CHUNK_SIZE_MAX)
        &&& in_world(center[1] + CHUNK_SIZE_MAX)
    }

    /// The chunk around a centre whose side is twice `chunk_size` units.
    pub fn new(center_position: [i64; 2], chunk_size: u16) -> (chunk: TileChunk)
        requires
            Self::fits(center_position),
        ensures
            chunk.center_position == center_position,
            chunk.meshes@ == chunk_rows(center_position, chunk_size as int),
    {
        let half: i64 = chunk_size as i64;
        let side: i64 = 2 * half;
        let mut meshes: Vec<InstanceTileRaw> = Vec::new();
        let mut i: i64 = 0;
        while i < side
            invariant
                0 <= i <= side,
                side == 2 * half,
                half == chunk_size,
                Self::fits(center_position),
                meshes.len() == i * side,
                forall|k: int|
                    0 <= k < meshes.len() ==> #[trigger] meshes[k] == chunk_row(
                        center_position,
                        chunk_size as int,
                        k,
                    ),
            decreases side - i,
        {
            let mut j: i64 = 0;
            while j < side
                invariant
                    0 <= i < side,
                    0 <= j <= side,
                    side == 2 * half,
                    half == chunk_size,
                    Self::fits(center_position),
                    meshes.len() == i * side + j,
                    forall|k: int|
                        0 <= k < meshes.len() ==> #[trigger] meshes[k] == chunk_row(
                            center_position,
                            chunk_size as int,
                            k,
                        ),
                decreases side - j,
            {
                proof {
                    lemma_fundamental_div_mod_converse(i * side + j, side as int, i as int, j as int);
                }
                assert(-65_535_000_000 <= (i - half) * UNIT <= 65_535_000_000) by (nonlinear_arith)
                    requires
                        -65_535 <= i - half <= 65_535,
                        UNIT == 1_000_000,
                ;
                assert(-65_535_000_000 <= (j - half) * UNIT <= 65_535_000_000) by (nonlinear_arith)
                    requires
                        -65_535 <= j - half <= 65_535,
                        UNIT == 1_000_000,
                ;
                let x: i64 = (i - half) * UNIT + center_position[0];
                let y: i64 = (j - half) * UNIT + center_position[1];
                let transform = Transform::new([x, y, 0], [UNIT, UNIT]);
                meshes.push(InstanceTileRaw { uv: GROUND_UV, model: transform.get_matrix() });
                assert(i * side + j + 1 == i * side + (j + 1));
                j += 1;
            }
            assert((i + 1) * side == i * side + side) by (nonlinear_arith);
            i += 1;
        }
        assert(side * side == (2 * chunk_size) * (2 * chunk_size)) by (nonlinear_arith)
            requires
                side == 2 * chunk_size,
        ;
        assert(meshes@ =~= chunk_rows(center_position, chunk_size as int));
        TileChunk { center_position, meshes }
    }
}

impl Default for TileChunk {
    /// A chunk of one tile, two units wide and one high, at the origin.
    fn default() -> (chunk: TileChunk)
        ensures
            chunk.center_position == [0i64, 0i64],
            chunk.meshes@ == seq![
                InstanceTileRaw {
                    uv: GROUND_UV,
                    model: (Transform {
                        position: [0i64, 0i64, 0i64],
                        size: [DOUBLE_UNIT, UNIT],
                        direction: Direction::Left,
                    }).matrix(),
                },
            ],
    {
        let transform = Transform::new([0, 0, 0], [DOUBLE_UNIT, UNIT]);
        let mut meshes: Vec<InstanceTileRaw> = Vec::new();
        meshes.push(InstanceTileRaw { uv: GROUND_UV, model: transform.get_matrix() });
        assert(meshes@ =~= seq![
            InstanceTileRaw {
                uv: GROUND_UV,
                model: (Transform {
                    position: [0i64, 0i64, 0i64],
                    size: [DOUBLE_UNIT, UNIT],
                    direction: Direction::Left,
                }).matrix(),
            },
        ]);
        TileChunk { center_position: [0, 0], meshes }
    }
}

/// The multiple of `2 * half` that is nearest to `v`; of two that are as
/// near, the one farther from nought.
pub open spec fn snapped(v: int, half: int) -> int {
    if v >= 0 {
        ((v + half) / (2 * half)) * (2 * half)
    } else {
        -(((-v + half) / (2 * half)) * (2 * half))
    }
}

/// A snapped value is no farther than `half` from the value.
pub proof fn lemma_snapped_near(v: int, half: int)
    requires
        half > 0,
    ensures
        abs(snapped(v, half) - v) <= half,
{
    let a = abs(v) + half;
    let d = 2 * half;
    assert(a == d * (a / d) + a % d && 0 <= a % d < d) by (nonlinear_arith)
        requires
            d > 0,
            a >= 0,
    ;
    assert((a / d) * d == d * (a / d)) by (nonlinear_arith);
}

/// The name of the atlas of the ground, the chunks of the ground, the rows
/// of those that are drawn, and where the camera stood when they were last
/// chosen. `chunk_size` is half the side of a
/// chunk, in sub-units.
#[derive(Debug, PartialEq, Eq)]
pub struct TileMapStorage {
    pub atlas: String,
    pub tiles: Vec<TileChunk>,
    pub meshes: Vec<InstanceTileRaw>,
    pub chunk_size: i64,
    pub camera_pos: [i64; 2],
}

/// Whether two points are nearer than `d` to one another along both axes.
pub open spec fn within(a: [i64; 2], b: [i64; 2], d: int) -> bool {
    abs(a[0] - b[0]) < d && abs(a[1] - b[1]) < d
}

/// The rows of the chunks whose centres are within `reach` of a point, chunk
/// after chunk.
pub open spec fn visible(chunks: Seq<TileChunk>, reference: [i64; 2], reach: int) -> Seq<InstanceTileRaw>
    decreases chunks.len(),
{
    if chunks.len() == 0 {
        Seq::empty()
    } else if within(chunks.last().center_position, reference, reach) {
        visible(chunks.drop_last(), reference, reach) + chunks.last().meshes@
    } else {
        visible(chunks.drop_last(), reference, reach)
    }
}

/// The first chunks have no more rows than all.
pub proof fn lemma_total_rows_grows(chunks: Seq<TileChunk>, n: int)
    requires
        0 <= n <= chunks.len(),
    ensures
        total_rows(chunks.take(n)) <= total_rows(chunks),
    decreases chunks.len(),
{
    if n == chunks.len() {
        assert(chunks.take(n) == chunks);
    } else {
        assert(chunks.drop_last().take(n) == chunks.take(n));
        lemma_total_rows_grows(chunks.drop_last(), n);
    }
}

/// Whether a point lies where the centre of a chunk nearest to a camera
/// inside the world can lie.
pub open spec fn is_anchor(p: [i64; 2]) -> bool {
    &&& -(WORLD_EDGE + CHUNK_SIZE_MAX) <= p[0] <= WORLD_EDGE + CHUNK_SIZE_MAX
    &&& -(WORLD_EDGE + CHUNK_SIZE_MAX) <= p[1] <= WORLD_EDGE + CHUNK_SIZE_MAX
}

/// The centre of the `k`-th chunk of a ground that reaches `full_map_size`
/// chunks to each side of the origin: the chunks lie a side apart, column by
/// column.
pub open spec fn chunk_center(full_map_size: int, chunk_size: int, k: int) -> [i64; 2] {
    let side = 2 * full_map_size;
    [
        ((k / side - full_map_size) * (2 * chunk_size) * UNIT) as i64,
        ((k % side - full_map_size) * (2 * chunk_size) * UNIT) as i64,
    ]
}

/// The number of rows of some chunks together.
pub open spec fn total_rows(chunks: Seq<TileChunk>) -> int
    decreases chunks.len(),
{
    if chunks.len() == 0 {
        0
    } else {
        total_rows(chunks.drop_last()) + chunks.last().meshes.len()
    }
}

/// Chunks of `rows` rows each have `rows` rows for every chunk together.
pub proof fn lemma_total_rows_even(chunks: Seq<TileChunk>, rows: int)
    requires
        forall|i: int| 0 <= i < chunks.len() ==> (#[trigger] chunks[i]).meshes@.len() == rows,
    ensures
        total_rows(chunks) == chunks.len() * rows,
    decreases chunks.len(),
{
    if chunks.len() > 0 {
        let rest = chunks.drop_last();
        assert forall|i: int| 0 <= i < rest.len() implies (#[trigger] rest[i]).meshes@.len() == rows by {
            assert(rest[i] == chunks[i]);
        }
        lemma_total_rows_even(rest, rows);
        assert(chunks.last() == chunks[chunks.len() - 1]);
        assert((chunks.len() - 1) * rows + rows == chunks.len() * rows) by (nonlinear_arith);
    } else {
        assert(0 * rows == 0);
    }
}

/// No more rows are drawn than there are.
pub proof fn lemma_visible_len(chunks: Seq<TileChunk>, reference: [i64; 2], reach: int)
    ensures
        visible(chunks, reference, reach).len() <= total_rows(chunks),
    decreases chunks.len(),
{
    if chunks.len() > 0 {
        lemma_visible_len(chunks.drop_last(), reference, reach);
    }
}

impl TileMapStorage {
    /// The number of rows of all chunks, if it is no more than an instance
    /// buffer can hold.
    pub fn count_rows(&self) -> (total: Option<u32>)
        ensures
            match total {
                Some(n) => n == total_rows(self.tiles@),
                None => total_rows(self.tiles@) > u32::MAX,
            },
    {
        let mut total: u64 = 0;
        let mut i: usize = 0;
        while i < self.tiles.len()
            invariant
                0 <= i <= self.tiles.len(),
                total == total_rows(self.tiles@.take(i as int)),
                total <= u32::MAX,
            decreases self.tiles.len() - i,
        {
            assert(self.tiles@.take(i + 1).drop_last() == self.tiles@.take(i as int));
            let rows = self.tiles[i].meshes.len();
            if rows > u32::MAX as usize || total + rows as u64 > u32::MAX as u64 {
                proof {
                    lemma_total_rows_grows(self.tiles@, i + 1);
                }
                return None;
            }
            total = total + rows as u64;
            i += 1;
        }
        assert(self.tiles@.take(i as int) == self.tiles@);
        Some(total as u32)
    }

    /// The chunks have a size, all points lie where sums and differences of
    /// them can be told, and the rows that are drawn are those of the chunks
    /// chosen for the camera where it stood at the last choice.
    pub open spec fn wf(self) -> bool {
        &&& 0 < self.chunk_size <= CHUNK_SIZE_MAX
        &&& in_world(self.camera_pos[0] as int)
        &&& in_world(self.camera_pos[1] as int)
        &&& self.meshes@ == visible(self.tiles@, self.anchor(self.camera_pos), 3 * self.chunk_size)
        &&& forall|i: int| 0 <= i < self.tiles.len() ==> TileChunk::fits((#[trigger] self.tiles[i]).center_position)
    }

    /// Whether the ground is as it is first laid out: chunks whose side is
    /// twice `chunk_size` units reach `full_map_size` chunks to each side of
    /// the origin, column by column; each holds the rows of its tiles; and
    /// the chunks are chosen for a camera at the origin.
    pub open spec fn laid_out(self, full_map_size: int, chunk_size: int) -> bool {
        &&& self.atlas@ == "world"@
        &&& self.chunk_size == chunk_size * UNIT
        &&& self.camera_pos == [0i64, 0i64]
        &&& self.tiles.len() == (2 * full_map_size) * (2 * full_map_size)
        &&& total_rows(self.tiles@) == self.tiles.len() * ((2 * chunk_size) * (2 * chunk_size))
        &&& forall|k: int|
            0 <= k < self.tiles.len() ==> {
                &&& (#[trigger] self.tiles[k]).center_position == chunk_center(full_map_size, chunk_size, k)
                &&& self.tiles[k].meshes@ == chunk_rows(self.tiles[k].center_position, chunk_size)
            }
        &&& self.meshes@ == visible(self.tiles@, self.camera_pos, 3 * self.chunk_size)
    }

    /// Whether a camera at a point is so near to where it stood at the last
    /// choice that the choice stands: nearer than half the side of a chunk
    /// along both axes.
    pub open spec fn near(self, camera_pos: [i64; 2]) -> bool {
        within(self.camera_pos, camera_pos, self.chunk_size as int)
    }

    /// The point around which the chunks are chosen for a camera at a
    /// point: the nearest centre of a chunk.
    pub open spec fn anchor(self, camera_pos: [i64; 2]) -> [i64; 2] {
        [
            snapped(camera_pos[0] as int, self.chunk_size as int) as i64,
            snapped(camera_pos[1] as int, self.chunk_size as int) as i64,
        ]
    }

    /// A ground of chunks whose side is twice `chunk_size` units, reaching
    /// `full_map_size` chunks to each side of the origin, chosen for a
    /// camera at the origin.
    pub fn new(full_map_size: u16, chunk_size: u16) -> (map: TileMapStorage)
        requires
            chunk_size >= 1,
        ensures
            map.wf(),
            map.laid_out(full_map_size as int, chunk_size as int),
    {
        let reach: i64 = full_map_size as i64;
        let side: i64 = 2 * reach;
        let half: i64 = chunk_size as i64;
        assert(0 < half * UNIT <= CHUNK_SIZE_MAX) by (nonlinear_arith)
            requires
                1 <= half <= 65_535,
                UNIT == 1_000_000,
                CHUNK_SIZE_MAX == 65_535_000_000,
        ;
        let pitch: i64 = 2 * half * UNIT;
        let mut tiles: Vec<TileChunk> = Vec::new();
        let mut i: i64 = 0;
        while i < side
            invariant
                0 <= i <= side,
                side == 2 * reach,
                reach == full_map_size,
                half == chunk_size,
                pitch == 2 * half * UNIT,
                0 < pitch <= 2 * CHUNK_SIZE_MAX,
                tiles.len() == i * side,
                forall|k: int|
                    0 <= k < tiles.len() ==> {
                        &&& (#[trigger] tiles[k]).center_position == chunk_center(
                            full_map_size as int,
                            chunk_size as int,
                            k,
                        )
                        &&& tiles[k].meshes@ == chunk_rows(tiles[k].center_position, chunk_size as int)
                        &&& TileChunk::fits(tiles[k].center_position)
                    },
            decreases side - i,
        {
            let mut j: i64 = 0;
            while j < side
                invariant
                    0 <= i < side,
                    0 <= j <= side,
                    side == 2 * reach,
                    reach == full_map_size,
                    half == chunk_size,
                    pitch == 2 * half * UNIT,
                    0 < pitch <= 2 * CHUNK_SIZE_MAX,
                    tiles.len() == i * side + j,
                    forall|k: int|
                        0 <= k < tiles.len() ==> {
                            &&& (#[trigger] tiles[k]).center_position == chunk_center(
                                full_map_size as int,
                                chunk_size as int,
                                k,
                            )
                            &&& tiles[k].meshes@ == chunk_rows(tiles[k].center_position, chunk_size as int)
                            &&& TileChunk::fits(tiles[k].center_position)
                        },
                decreases side - j,
            {
                proof {
                    lemma_fundamental_div_mod_converse(i * side + j, side as int, i as int, j as int);
                }
                assert(-65_535 * 131_070_000_000 <= (i - reach) * pitch <= 65_535 * 131_070_000_000)
                    by (nonlinear_arith)
                    requires
                        -65_535 <= i - reach <= 65_535,
                        0 < pitch <= 131_070_000_000,
                ;
                assert(-65_535 * 131_070_000_000 <= (j - reach) * pitch <= 65_535 * 131_070_000_000)
                    by (nonlinear_arith)
                    requires
                        -65_535 <= j - reach <= 65_535,
                        0 < pitch <= 131_070_000_000,
                ;
                assert((i - reach) * pitch == (i - reach) * (2 * half) * UNIT) by (nonlinear_arith)
                    requires
                        pitch == 2 * half * UNIT,
                ;
                assert((j - reach) * pitch == (j - reach) * (2 * half) * UNIT) by (nonlinear_arith)
                    requires
                        pitch == 2 * half * UNIT,
                ;
                let center: [i64; 2] = [(i - reach) * pitch, (j - reach) * pitch];
                assert(center =~= chunk_center(
                    full_map_size as int,
                    chunk_size as int,
                    i * side + j,
                ));
                tiles.push(TileChunk::new(center, chunk_size));
                assert(i * side + j + 1 == i * side + (j + 1));
                j += 1;
            }
            assert((i + 1) * side == i * side + side) by (nonlinear_arith);
            i += 1;
        }
        assert(side * side == (2 * full_map_size) * (2 * full_map_size)) by (nonlinear_arith)
            requires
                side == 2 * full_map_size,
        ;
        let camera_pos: [i64; 2] = [0, 0];
        let meshes = Self::collect(&tiles, camera_pos, 3 * (half * UNIT));
        proof {
            lemma_total_rows_even(tiles@, (2 * chunk_size) * (2 * chunk_size));
            assert(snapped(0, half * UNIT) == 0) by (nonlinear_arith)
                requires
                    half * UNIT > 0,
            ;
        }
        let map = TileMapStorage {
            atlas: "world".to_string(),
            tiles,
            meshes,
            chunk_size: half * UNIT,
            camera_pos,
        };
        assert(map.anchor(map.camera_pos) =~= camera_pos);
        map
    }

    /// The rows that are drawn.
    pub fn get_meshes(&self) -> (rows: Vec<InstanceTileRaw>)
        ensures
            rows@ == self.meshes@,
    {
        self.meshes.clone()
    }

    /// The rows of the chunks within `reach` of a point.
    pub fn collect(tiles: &Vec<TileChunk>, reference: [i64; 2], reach: i64) -> (rows: Vec<InstanceTileRaw>)
        requires
            is_anchor(reference),
            0 <= reach <= 3 * CHUNK_SIZE_MAX,
            forall|i: int| 0 <= i < tiles.len() ==> TileChunk::fits((#[trigger] tiles[i]).center_position),
        ensures
            rows@ == visible(tiles@, reference, reach as int),
    {
        let mut rows: Vec<InstanceTileRaw> = Vec::new();
        let mut i: usize = 0;
        while i < tiles.len()
            invariant
                0 <= i <= tiles.len(),
                is_anchor(reference),
                0 <= reach <= 3 * CHUNK_SIZE_MAX,
                forall|j: int| 0 <= j < tiles.len() ==> TileChunk::fits((#[trigger] tiles[j]).center_position),
                rows@ == visible(tiles@.take(i as int), reference, reach as int),
            decreases tiles.len() - i,
        {
            assert(tiles@.take(i + 1).drop_last() == tiles@.take(i as int));
            let chunk = &tiles[i];
            let ghost before = rows@;
            if chunk.center_position[0] < reference[0] + reach && chunk.center_position[0] > reference[0]
                - reach && chunk.center_position[1] < reference[1] + reach && chunk.center_position[1]
                > reference[1] - reach {
                let mut k: usize = 0;
                while k < chunk.meshes.len()
                    invariant
                        0 <= k <= chunk.meshes.len(),
                        rows@ == before + chunk.meshes@.take(k as int),
                    decreases chunk.meshes.len() - k,
                {
                    rows.push(chunk.meshes[k]);
                    assert(rows@ =~= before + chunk.meshes@.take(k + 1));
                    k += 1;
                }
                assert(chunk.meshes@.take(k as int) == chunk.meshes@);
            }
            i += 1;
        }
        assert(tiles@.take(i as int) == tiles@);
        rows
    }

    /// The nearest multiple of twice `half` to `v`.
    pub fn snap(v: i64, half: i64) -> (s: i64)
        requires
            0 < half <= CHUNK_SIZE_MAX,
            in_world(v as int),
        ensures
            s == snapped(v as int, half as int),
            abs(s - v) <= half,
    {
        proof {
            lemma_snapped_near(v as int, half as int);
        }
        let step: i64 = 2 * half;
        if v >= 0 {
            let q: i64 = (v + half) / step;
            assert(0 <= q * step <= v + half) by (nonlinear_arith)
                requires
                    q == (v + half) / (step as int),
                    step > 0,
                    v + half >= 0,
            ;
            q * step
        } else {
            let q: i64 = (-v + half) / step;
            assert(0 <= q * step <= -v + half) by (nonlinear_arith)
                requires
                    q == (-v + half) / (step as int),
                    step > 0,
                    -v + half >= 0,
            ;
            -(q * step)
        }
    }

    /// Follows the camera. While the camera stays nearer than half the side
    /// of a chunk, along both axes, to where it stood at the last choice,
    /// nothing changes. Else the camera's place is noted, and the chunks are
    /// chosen anew around the centre of a chunk nearest to it: those whose
    /// centres are nearer to that centre than three half sides along both
    /// axes.
    pub fn update_tile_grid(&mut self, camera_pos: [i64; 2])
        requires
            old(self).wf(),
            in_world(camera_pos[0] as int),
            in_world(camera_pos[1] as int),
        ensures
            old(self).near(camera_pos) ==> *final(self) == *old(self),
            !old(self).near(camera_pos) ==> {
                &&& final(self).atlas == old(self).atlas
                &&& final(self).tiles == old(self).tiles
                &&& final(self).chunk_size == old(self).chunk_size
                &&& final(self).camera_pos == camera_pos
                &&& final(self).meshes@ == visible(
                    old(self).tiles@,
                    old(self).anchor(camera_pos),
                    3 * old(self).chunk_size,
                )
            },
            final(self).wf(),
    {
        if self.camera_pos[0] < camera_pos[0] + self.chunk_size && self.camera_pos[0] > camera_pos[0]
            - self.chunk_size && self.camera_pos[1] < camera_pos[1] + self.chunk_size
            && self.camera_pos[1] > camera_pos[1] - self.chunk_size {
            return ;
        }
        let anchor = self.get_anchor(camera_pos);
        self.camera_pos = camera_pos;
        self.meshes = Self::collect(&self.tiles, anchor, 3 * self.chunk_size);
    }

    /// The centre of a chunk nearest to a camera at a point.
    pub fn get_anchor(&self, camera_pos: [i64; 2]) -> (anchor: [i64; 2])
        requires
            0 < self.chunk_size <= CHUNK_SIZE_MAX,
            in_world(camera_pos[0] as int),
            in_world(camera_pos[1] as int),
        ensures
            anchor == self.anchor(camera_pos),
            is_anchor(anchor),
    {
        let anchor: [i64; 2] = [
            Self::snap(camera_pos[0], self.chunk_size),
            Self::snap(camera_pos[1], self.chunk_size),
        ];
        assert(anchor =~= self.anchor(camera_pos));
        anchor
    }
}

impl Default for TileMapStorage {
    /// A ground of forty by forty chunks of twenty by twenty tiles, chosen
    /// for a camera at the origin.
    fn default() -> (map: TileMapStorage)
        ensures
            map.wf(),
            map.laid_out(FULL_MAP_SIZE as int, MAP_SIZE as int),
            map.tiles.len() == 1_600,
            total_rows(map.tiles@) == 640_000,
    {
        let map = TileMapStorage::new(FULL_MAP_SIZE, MAP_SIZE);
        assert(map.tiles.len() == 1_600);
        assert(map.tiles.len() * ((2 * MAP_SIZE) * (2 * MAP_SIZE)) == 640_000) by (nonlinear_arith)
            requires
                map.tiles.len() == 1_600,
                MAP_SIZE == 10,
        ;
        map
    }
}

} // verus!
