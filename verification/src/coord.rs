//! Block, chunk and atlas coordinates, and Euclidean division on `i32`.

use vstd::prelude::*;

verus! {

/// Number of blocks along each edge of a cubic chunk.
pub const CHUNK_EDGE: usize = 32;

/// [`CHUNK_EDGE`] as a signed block count.
pub const CHUNK_EDGE_I32: i32 = 32;

/// Euclidean quotient, the value `i32::div_euclid` computes for a positive divisor.
pub fn div_euclid_i32(value: i32, divisor: i32) -> (quotient: i32)
    requires
        divisor > 0,
    ensures
        quotient == value / divisor,
        divisor * quotient <= value < divisor * quotient + divisor,
{
    proof {
        lemma_div_euclid_bounds(value as int, divisor as int);
    }
    match value.checked_div_euclid(divisor) {
        Some(q) => q,
        None => 0,
    }
}

/// Euclidean remainder, the value `i32::rem_euclid` computes for a positive divisor.
pub fn rem_euclid_i32(value: i32, divisor: i32) -> (remainder: i32)
    requires
        divisor > 0,
    ensures
        remainder == value % divisor,
        0 <= remainder < divisor,
        value == divisor * (value / divisor) + remainder,
{
    proof {
        lemma_div_euclid_bounds(value as int, divisor as int);
    }
    match value.checked_rem_euclid(divisor) {
        Some(r) => r,
        None => 0,
    }
}

/// The Euclidean quotient of an `i32` by a positive divisor fits in an `i32`
/// and brackets the dividend.
pub proof fn lemma_div_euclid_bounds(value: int, divisor: int)
    requires
        divisor > 0,
        i32::MIN <= value <= i32::MAX,
    ensures
        i32::MIN <= value / divisor <= i32::MAX,
        divisor * (value / divisor) <= value < divisor * (value / divisor) + divisor,
        0 <= value % divisor < divisor,
        value == divisor * (value / divisor) + value % divisor,
{
    vstd::arithmetic::div_mod::lemma_fundamental_div_mod(value, divisor);
    vstd::arithmetic::div_mod::lemma_mod_bound(value, divisor);
    if value >= 0 {
        vstd::arithmetic::div_mod::lemma_div_pos_is_pos(value, divisor);
        vstd::arithmetic::div_mod::lemma_div_is_ordered_by_denominator(value, 1, divisor);
    } else {
        assert(divisor * (value / divisor) <= value);
        assert(value / divisor < 0) by {
            if value / divisor >= 0 {
                vstd::arithmetic::mul::lemma_mul_nonnegative(divisor, value / divisor);
            }
        }
        let q = value / divisor;
        assert(q >= value) by (nonlinear_arith)
            requires
                divisor >= 1,
                value < 0,
                value < divisor * q + divisor,
        {
            if q < value {
                assert(divisor * q + divisor <= divisor * value);
                assert(divisor * value <= value);
            }
        }
    }
}

/// A chunk position in chunk units: `(x, y, z)`.
#[derive(Clone, Copy, Debug, PartialEq, Eq, Hash, Structural)]
pub struct ChunkCoord(pub i32, pub i32, pub i32);

/// A block position in world block units: `(x, y, z)`.
#[derive(Clone, Copy, Debug, PartialEq, Eq, Hash, Structural)]
pub struct WorldBlockCoord(pub i32, pub i32, pub i32);

/// A block position inside its chunk, each axis in `0..CHUNK_EDGE`.
#[derive(Clone, Copy, Debug, PartialEq, Eq, Hash, Structural)]
pub struct LocalBlockCoord {
    pub x: u8,
    pub y: u8,
    pub z: u8,
}

/// A cell of the atlas grid.
#[derive(Clone, Copy, Debug, PartialEq, Eq, Hash, Structural)]
pub struct AtlasCoord {
    pub x: i32,
    pub z: i32,
}

impl AtlasCoord {
    pub fn new(x: i32, z: i32) -> (coord: Self)
        ensures
            coord.x == x,
            coord.z == z,
    {
        AtlasCoord { x, z }
    }
}

/// A meso-scale ownership region, a square block of meso guide cells.
#[derive(Clone, Copy, Debug, PartialEq, Eq, Hash, Structural)]
pub struct MesoRegionCoord {
    pub x: i32,
    pub z: i32,
}

impl MesoRegionCoord {
    pub fn new(x: i32, z: i32) -> (coord: Self)
        ensures
            coord.x == x,
            coord.z == z,
    {
        MesoRegionCoord { x, z }
    }
}

/// A rectangle of atlas cells: origin plus width and height.
#[derive(Clone, Copy, Debug, PartialEq, Eq, Hash, Structural)]
pub struct AtlasArea {
    pub origin: AtlasCoord,
    pub width: u32,
    pub height: u32,
}

/// Splits a world block position into its chunk and its position inside the chunk.
pub fn world_to_chunk_local(coord: WorldBlockCoord) -> (out: (ChunkCoord, LocalBlockCoord))
    ensures
        out.0.0 == coord.0 / 32,
        out.0.1 == coord.1 / 32,
        out.0.2 == coord.2 / 32,
        out.1.x as int == coord.0 % 32,
        out.1.y as int == coord.1 % 32,
        out.1.z as int == coord.2 % 32,
        coord.0 == 32 * out.0.0 + out.1.x,
        coord.1 == 32 * out.0.1 + out.1.y,
        coord.2 == 32 * out.0.2 + out.1.z,
{
    let cx = div_euclid_i32(coord.0, CHUNK_EDGE_I32);
    let cy = div_euclid_i32(coord.1, CHUNK_EDGE_I32);
    let cz = div_euclid_i32(coord.2, CHUNK_EDGE_I32);
    let lx = rem_euclid_i32(coord.0, CHUNK_EDGE_I32);
    let ly = rem_euclid_i32(coord.1, CHUNK_EDGE_I32);
    let lz = rem_euclid_i32(coord.2, CHUNK_EDGE_I32);
    (ChunkCoord(cx, cy, cz), LocalBlockCoord { x: lx as u8, y: ly as u8, z: lz as u8 })
}

/// The chunk (at height 0) that holds the world column `(world_x, world_z)`.
pub fn chunk_coord_for_world_xz(world_x: i32, world_z: i32) -> (chunk: ChunkCoord)
    ensures
        chunk.0 == world_x / 32,
        chunk.1 == 0,
        chunk.2 == world_z / 32,
        32 * chunk.0 <= world_x < 32 * chunk.0 + 32,
        32 * chunk.2 <= world_z < 32 * chunk.2 + 32,
{
    ChunkCoord(div_euclid_i32(world_x, CHUNK_EDGE_I32), 0, div_euclid_i32(world_z, CHUNK_EDGE_I32))
}

} // verus!
