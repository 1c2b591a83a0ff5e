//! Generation tiles: square groups of chunks solved together so that
//! prototype terrain stays continuous across chunk borders.

use vstd::prelude::*;
use crate::coord::{ChunkCoord, div_euclid_i32};

verus! {

/// Chunks along each edge of a generation tile.
pub const PROTOTYPE_CONTINUITY_TILE_EDGE_CHUNKS: i32 = 4;

/// Extra chunks solved around a tile's core.
pub const PROTOTYPE_CONTINUITY_HALO_CHUNKS: i32 = 0;

/// Width, in blocks, of the band along a tile border where border anchors apply.
pub const PROTOTYPE_BORDER_ANCHOR_BAND_BLOCKS: i32 = 4;

#[derive(Clone, Copy, Debug, PartialEq, Eq, Hash, Structural)]
pub struct GenerationTileCoord {
    pub x: i32,
    pub z: i32,
}

/// A tile's core chunk range and the (possibly haloed) range solved with it;
/// maxima are exclusive.
#[derive(Clone, Copy, Debug, PartialEq, Eq, Hash, Structural)]
pub struct GenerationTileBounds {
    pub coord: GenerationTileCoord,
    pub core_min_chunk_x: i32,
    pub core_min_chunk_z: i32,
    pub core_max_chunk_x_exclusive: i32,
    pub core_max_chunk_z_exclusive: i32,
    pub solve_min_chunk_x: i32,
    pub solve_min_chunk_z: i32,
    pub solve_max_chunk_x_exclusive: i32,
    pub solve_max_chunk_z_exclusive: i32,
}

/// Block coordinates of a tile's core stay within `i32`.
pub open spec fn tile_blocks_fit(tile: GenerationTileBounds) -> bool {
    &&& i32::MIN <= tile.core_min_chunk_x * 32 <= i32::MAX
    &&& i32::MIN <= tile.core_min_chunk_z * 32 <= i32::MAX
    &&& i32::MIN <= tile.core_max_chunk_x_exclusive * 32 <= i32::MAX
    &&& i32::MIN <= tile.core_max_chunk_z_exclusive * 32 <= i32::MAX
}


/// Distances, in blocks, from a world column to the tile core's four edge
/// columns, kept for the edges whose anchor band holds the column.
#[derive(Clone, Copy, Debug, PartialEq, Eq, Hash, Structural)]
pub struct BorderAnchorDistances {
    pub west: Option<i32>,
    pub east: Option<i32>,
    pub north: Option<i32>,
    pub south: Option<i32>,
}

/// A distance inside the border band: a border anchor applies there.
pub open spec fn in_anchor_band(distance: int, band: int) -> bool {
    0 <= distance < band
}

/// The distance, when it lies in `0..band`.
pub fn border_band_distance(distance_from_border_blocks: i32, band_blocks: i32) -> (kept: Option<i32>)
    ensures
        kept == if in_anchor_band(distance_from_border_blocks as int, band_blocks as int) {
            Some(distance_from_border_blocks)
        } else {
            None::<i32>
        },
{
    if distance_from_border_blocks < 0 || distance_from_border_blocks >= band_blocks {
        None
    } else {
        Some(distance_from_border_blocks)
    }
}

/// The kept distance of one edge.
pub open spec fn band_distance(distance: int) -> Option<i32> {
    if in_anchor_band(distance, 4) {
        Some(distance as i32)
    } else {
        None
    }
}

/// The tile whose core holds `chunk`: tiles are the 4 by 4 chunk squares
/// aligned on multiples of 4, solved without halo.
pub open spec fn spec_tile_for_chunk(chunk: ChunkCoord) -> GenerationTileBounds {
    let x = chunk.0 / 4;
    let z = chunk.2 / 4;
    GenerationTileBounds {
        coord: GenerationTileCoord { x: x as i32, z: z as i32 },
        core_min_chunk_x: (4 * x) as i32,
        core_min_chunk_z: (4 * z) as i32,
        core_max_chunk_x_exclusive: (4 * x + 4) as i32,
        core_max_chunk_z_exclusive: (4 * z + 4) as i32,
        solve_min_chunk_x: (4 * x) as i32,
        solve_min_chunk_z: (4 * z) as i32,
        solve_max_chunk_x_exclusive: (4 * x + 4) as i32,
        solve_max_chunk_z_exclusive: (4 * z + 4) as i32,
    }
}

/// Every chunk of a tile's core belongs to that same tile: the tiles
/// partition the chunk plane.
pub proof fn lemma_tile_core_chunks_share_tile(chunk: ChunkCoord, other: ChunkCoord)
    requires
        chunk.0 <= i32::MAX - 4,
        chunk.2 <= i32::MAX - 4,
        spec_tile_for_chunk(chunk).core_min_chunk_x <= other.0 < spec_tile_for_chunk(chunk).core_max_chunk_x_exclusive,
        spec_tile_for_chunk(chunk).core_min_chunk_z <= other.2 < spec_tile_for_chunk(chunk).core_max_chunk_z_exclusive,
    ensures
        spec_tile_for_chunk(other) == spec_tile_for_chunk(chunk),
{
    crate::coord::lemma_div_euclid_bounds(chunk.0 as int, 4);
    crate::coord::lemma_div_euclid_bounds(chunk.2 as int, 4);
    crate::coord::lemma_div_euclid_bounds(other.0 as int, 4);
    crate::coord::lemma_div_euclid_bounds(other.2 as int, 4);
    let x = chunk.0 / 4;
    let ox = other.0 / 4;
    assert(ox == x) by (nonlinear_arith)
        requires
            4 * x <= other.0 < 4 * x + 4,
            4 * ox <= other.0 < 4 * ox + 4,
    ;
    let z = chunk.2 / 4;
    let oz = other.2 / 4;
    assert(oz == z) by (nonlinear_arith)
        requires
            4 * z <= other.2 < 4 * z + 4,
            4 * oz <= other.2 < 4 * oz + 4,
    ;
}

impl GenerationTileBounds {
    /// The tile that contains `chunk`.
    pub fn for_chunk(chunk: ChunkCoord) -> (tile: Self)
        requires
            chunk.0 <= i32::MAX - 4,
            chunk.2 <= i32::MAX - 4,
        ensures
            tile == spec_tile_for_chunk(chunk),
            tile.coord.x == chunk.0 / 4,
            tile.coord.z == chunk.2 / 4,
            tile.core_min_chunk_x == 4 * tile.coord.x,
            tile.core_min_chunk_z == 4 * tile.coord.z,
            tile.core_max_chunk_x_exclusive == tile.core_min_chunk_x + 4,
            tile.core_max_chunk_z_exclusive == tile.core_min_chunk_z + 4,
            tile.solve_min_chunk_x == tile.core_min_chunk_x,
            tile.solve_min_chunk_z == tile.core_min_chunk_z,
            tile.solve_max_chunk_x_exclusive == tile.core_max_chunk_x_exclusive,
            tile.solve_max_chunk_z_exclusive == tile.core_max_chunk_z_exclusive,
            tile.core_min_chunk_x <= chunk.0 < tile.core_max_chunk_x_exclusive,
            tile.core_min_chunk_z <= chunk.2 < tile.core_max_chunk_z_exclusive,
    {
        let coord = GenerationTileCoord {
            x: div_euclid_i32(chunk.0, PROTOTYPE_CONTINUITY_TILE_EDGE_CHUNKS),
            z: div_euclid_i32(chunk.2, PROTOTYPE_CONTINUITY_TILE_EDGE_CHUNKS),
        };
        let core_min_chunk_x = coord.x * PROTOTYPE_CONTINUITY_TILE_EDGE_CHUNKS;
        let core_min_chunk_z = coord.z * PROTOTYPE_CONTINUITY_TILE_EDGE_CHUNKS;
        let core_max_chunk_x_exclusive = core_min_chunk_x + PROTOTYPE_CONTINUITY_TILE_EDGE_CHUNKS;
        let core_max_chunk_z_exclusive = core_min_chunk_z + PROTOTYPE_CONTINUITY_TILE_EDGE_CHUNKS;
        GenerationTileBounds {
            coord,
            core_min_chunk_x,
            core_min_chunk_z,
            core_max_chunk_x_exclusive,
            core_max_chunk_z_exclusive,
            solve_min_chunk_x: core_min_chunk_x - PROTOTYPE_CONTINUITY_HALO_CHUNKS,
            solve_min_chunk_z: core_min_chunk_z - PROTOTYPE_CONTINUITY_HALO_CHUNKS,
            solve_max_chunk_x_exclusive: core_max_chunk_x_exclusive + PROTOTYPE_CONTINUITY_HALO_CHUNKS,
            solve_max_chunk_z_exclusive: core_max_chunk_z_exclusive + PROTOTYPE_CONTINUITY_HALO_CHUNKS,
        }
    }

    pub fn core_min_world_x(self) -> (x: i32)
        requires
            tile_blocks_fit(self),
        ensures
            x == self.core_min_chunk_x * 32,
    {
        self.core_min_chunk_x * 32
    }

    pub fn core_min_world_z(self) -> (z: i32)
        requires
            tile_blocks_fit(self),
        ensures
            z == self.core_min_chunk_z * 32,
    {
        self.core_min_chunk_z * 32
    }

    pub fn core_max_world_x_exclusive(self) -> (x: i32)
        requires
            tile_blocks_fit(self),
        ensures
            x == self.core_max_chunk_x_exclusive * 32,
    {
        self.core_max_chunk_x_exclusive * 32
    }

    pub fn core_max_world_z_exclusive(self) -> (z: i32)
        requires
            tile_blocks_fit(self),
        ensures
            z == self.core_max_chunk_z_exclusive * 32,
    {
        self.core_max_chunk_z_exclusive * 32
    }

    /// Which core edges anchor the column `(world_x, world_z)`, with its
    /// distance to each: west and north measured from the first core column,
    /// east and south from the last.
    pub fn anchor_border_distances(self, world_x: i32, world_z: i32) -> (d: BorderAnchorDistances)
        requires
            tile_blocks_fit(self),
            i32::MIN <= world_x - self.core_min_chunk_x * 32 <= i32::MAX,
            i32::MIN < self.core_max_chunk_x_exclusive * 32,
            i32::MIN < self.core_max_chunk_z_exclusive * 32,
            i32::MIN <= self.core_max_chunk_x_exclusive * 32 - 1 - world_x <= i32::MAX,
            i32::MIN <= world_z - self.core_min_chunk_z * 32 <= i32::MAX,
            i32::MIN <= self.core_max_chunk_z_exclusive * 32 - 1 - world_z <= i32::MAX,
        ensures
            d.west == band_distance(world_x - self.core_min_chunk_x * 32),
            d.east == band_distance(self.core_max_chunk_x_exclusive * 32 - 1 - world_x),
            d.north == band_distance(world_z - self.core_min_chunk_z * 32),
            d.south == band_distance(self.core_max_chunk_z_exclusive * 32 - 1 - world_z),
    {
        let band = PROTOTYPE_BORDER_ANCHOR_BAND_BLOCKS;
        let west_distance = world_x - self.core_min_world_x();
        let east_distance = self.core_max_world_x_exclusive() - 1 - world_x;
        let north_distance = world_z - self.core_min_world_z();
        let south_distance = self.core_max_world_z_exclusive() - 1 - world_z;
        BorderAnchorDistances {
            west: border_band_distance(west_distance, band),
            east: border_band_distance(east_distance, band),
            north: border_band_distance(north_distance, band),
            south: border_band_distance(south_distance, band),
        }
    }

    /// Every chunk of the solve range at height 0, `z` major.
    pub fn solve_chunks(self) -> (chunks: Vec<ChunkCoord>)
        requires
            self.solve_min_chunk_x <= self.solve_max_chunk_x_exclusive,
            self.solve_min_chunk_z <= self.solve_max_chunk_z_exclusive,
            (self.solve_max_chunk_x_exclusive - self.solve_min_chunk_x) * (self.solve_max_chunk_z_exclusive
                - self.solve_min_chunk_z) <= usize::MAX,
        ensures
            chunks.len() == (self.solve_max_chunk_x_exclusive - self.solve_min_chunk_x) * (
            self.solve_max_chunk_z_exclusive - self.solve_min_chunk_z),
            forall|k: int|
                0 <= k < chunks.len() ==> #[trigger] chunks@[k] == ChunkCoord(
                    (self.solve_min_chunk_x + k % (self.solve_max_chunk_x_exclusive - self.solve_min_chunk_x)) as i32,
                    0,
                    (self.solve_min_chunk_z + k / (self.solve_max_chunk_x_exclusive - self.solve_min_chunk_x)) as i32,
                ),
    {
        let ghost w = self.solve_max_chunk_x_exclusive - self.solve_min_chunk_x;
        let ghost h = self.solve_max_chunk_z_exclusive - self.solve_min_chunk_z;
        let mut chunks: Vec<ChunkCoord> = Vec::new();
        let mut chunk_z: i32 = self.solve_min_chunk_z;
        while chunk_z < self.solve_max_chunk_z_exclusive
            invariant
                w == self.solve_max_chunk_x_exclusive - self.solve_min_chunk_x,
                h == self.solve_max_chunk_z_exclusive - self.solve_min_chunk_z,
                w >= 0,
                w * h <= usize::MAX,
                self.solve_min_chunk_z <= chunk_z <= self.solve_max_chunk_z_exclusive,
                chunks.len() == (chunk_z - self.solve_min_chunk_z) * w,
                forall|k: int|
                    0 <= k < chunks.len() ==> #[trigger] chunks@[k] == ChunkCoord(
                        (self.solve_min_chunk_x + k % w) as i32,
                        0,
                        (self.solve_min_chunk_z + k / w) as i32,
                    ),
            decreases self.solve_max_chunk_z_exclusive - chunk_z,
        {
            let mut chunk_x: i32 = self.solve_min_chunk_x;
            let ghost row = chunk_z - self.solve_min_chunk_z;
            proof {
                assert((row + 1) * w <= w * h) by (nonlinear_arith)
                    requires row + 1 <= h, w >= 0;
            }
            while chunk_x < self.solve_max_chunk_x_exclusive
                invariant
                    w == self.solve_max_chunk_x_exclusive - self.solve_min_chunk_x,
                    w >= 0,
                    row == chunk_z - self.solve_min_chunk_z,
                    (row + 1) * w <= usize::MAX,
                    self.solve_min_chunk_z <= chunk_z < self.solve_max_chunk_z_exclusive,
                    self.solve_min_chunk_x <= chunk_x <= self.solve_max_chunk_x_exclusive,
                    chunks.len() == row * w + (chunk_x - self.solve_min_chunk_x),
                    forall|k: int|
                        0 <= k < chunks.len() ==> #[trigger] chunks@[k] == ChunkCoord(
                            (self.solve_min_chunk_x + k % w) as i32,
                            0,
                            (self.solve_min_chunk_z + k / w) as i32,
                        ),
                decreases self.solve_max_chunk_x_exclusive - chunk_x,
            {
                proof {
                    let col = chunk_x - self.solve_min_chunk_x;
                    crate::atlas_fields::lemma_index_coords(col, row, w);
                    assert(row * w + col == chunks.len());
                    assert(row * w + col + 1 <= (row + 1) * w) by (nonlinear_arith)
                        requires col < w;
                }
                chunks.push(ChunkCoord(chunk_x, 0, chunk_z));
                chunk_x = chunk_x + 1;
            }
            proof {
                assert(row * w + w == (row + 1) * w) by (nonlinear_arith);
            }
            chunk_z = chunk_z + 1;
        }
        proof {
            assert(h * w == w * h) by (nonlinear_arith);
        }
        chunks
    }
}

} // verus!
