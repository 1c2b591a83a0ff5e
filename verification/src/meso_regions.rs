//! Ownership of meso features: which meso regions own the guide cells that a
//! chunk can see, and the guide-cell bounds of a padded region.

use vstd::prelude::*;
use crate::coord::{AtlasCoord, ChunkCoord, MesoRegionCoord, div_euclid_i32};

verus! {

/// `value` is representable as an `i32`.
pub open spec fn fits_i32(value: int) -> bool {
    i32::MIN <= value <= i32::MAX
}

/// Inclusive bounds `(min_x, max_x, min_z, max_z)`.
pub type Bounds = (i32, i32, i32, i32);

pub open spec fn spec_bounds_contains(bounds: Bounds, coord: AtlasCoord) -> bool {
    bounds.0 <= coord.x <= bounds.1 && bounds.2 <= coord.z <= bounds.3
}

/// Whether `coord` lies within the inclusive `bounds`.
pub fn bounds_contains_coord(bounds: Bounds, coord: AtlasCoord) -> (inside: bool)
    ensures
        inside == spec_bounds_contains(bounds, coord),
{
    coord.x >= bounds.0 && coord.x <= bounds.1 && coord.z >= bounds.2 && coord.z <= bounds.3
}

/// The meso region that owns an atlas guide cell, for regions
/// `region_span_cells` guide cells wide.
pub fn owner_region_for_coord(coord: AtlasCoord, region_span_cells: i32) -> (region: MesoRegionCoord)
    requires
        region_span_cells > 0,
    ensures
        region.x == (coord.x as int) / (region_span_cells as int),
        region.z == (coord.z as int) / (region_span_cells as int),
{
    MesoRegionCoord::new(div_euclid_i32(coord.x, region_span_cells), div_euclid_i32(coord.z, region_span_cells))
}

pub open spec fn spec_guide_region_bounds(region: MesoRegionCoord, padding_regions: i32, region_span_cells: i32) -> (int, int, int, int) {
    (
        (region.x - padding_regions) * region_span_cells,
        (region.x + padding_regions + 1) * region_span_cells - 1,
        (region.z - padding_regions) * region_span_cells,
        (region.z + padding_regions + 1) * region_span_cells - 1,
    )
}

/// Guide-cell bounds of a region widened by `padding_regions` regions on every side.
pub fn guide_region_bounds(region: MesoRegionCoord, padding_regions: i32, region_span_cells: i32) -> (bounds: Bounds)
    requires
        region_span_cells > 0,
        fits_i32(region.x - padding_regions),
        fits_i32(region.x + padding_regions),
        fits_i32(region.x + padding_regions + 1),
        fits_i32(region.z - padding_regions),
        fits_i32(region.z + padding_regions),
        fits_i32(region.z + padding_regions + 1),
        fits_i32((region.x - padding_regions) * region_span_cells),
        fits_i32((region.x + padding_regions + 1) * region_span_cells),
        fits_i32((region.x + padding_regions + 1) * region_span_cells - 1),
        fits_i32((region.z - padding_regions) * region_span_cells),
        fits_i32((region.z + padding_regions + 1) * region_span_cells),
        fits_i32((region.z + padding_regions + 1) * region_span_cells - 1),
    ensures
        bounds.0 == spec_guide_region_bounds(region, padding_regions, region_span_cells).0,
        bounds.1 == spec_guide_region_bounds(region, padding_regions, region_span_cells).1,
        bounds.2 == spec_guide_region_bounds(region, padding_regions, region_span_cells).2,
        bounds.3 == spec_guide_region_bounds(region, padding_regions, region_span_cells).3,
{
    (
        (region.x - padding_regions) * region_span_cells,
        (region.x + padding_regions + 1) * region_span_cells - 1,
        (region.z - padding_regions) * region_span_cells,
        (region.z + padding_regions + 1) * region_span_cells - 1,
    )
}

pub open spec fn spec_owner_region_range(chunk: ChunkCoord, padding_regions: i32, region_span_blocks: i32) -> (int, int, int, int) {
    (
        (chunk.0 * 32) / (region_span_blocks as int) - padding_regions,
        ((chunk.0 + 1) * 32 - 1) / (region_span_blocks as int) + padding_regions,
        (chunk.2 * 32) / (region_span_blocks as int) - padding_regions,
        ((chunk.2 + 1) * 32 - 1) / (region_span_blocks as int) + padding_regions,
    )
}

/// Range `(min_x, max_x, min_z, max_z)` of owner regions, `region_span_blocks`
/// blocks wide, that cover a chunk, widened by `padding_regions`.
pub fn owner_region_range_for_chunk(chunk: ChunkCoord, padding_regions: i32, region_span_blocks: i32) -> (range: Bounds)
    requires
        region_span_blocks > 0,
        i32::MIN <= chunk.0 * 32,
        (chunk.0 + 1) * 32 <= i32::MAX,
        i32::MIN <= chunk.2 * 32,
        (chunk.2 + 1) * 32 <= i32::MAX,
        fits_i32((chunk.0 * 32) / (region_span_blocks as int) - padding_regions),
        fits_i32(((chunk.0 + 1) * 32 - 1) / (region_span_blocks as int) + padding_regions),
        fits_i32((chunk.2 * 32) / (region_span_blocks as int) - padding_regions),
        fits_i32(((chunk.2 + 1) * 32 - 1) / (region_span_blocks as int) + padding_regions),
    ensures
        range.0 == spec_owner_region_range(chunk, padding_regions, region_span_blocks).0,
        range.1 == spec_owner_region_range(chunk, padding_regions, region_span_blocks).1,
        range.2 == spec_owner_region_range(chunk, padding_regions, region_span_blocks).2,
        range.3 == spec_owner_region_range(chunk, padding_regions, region_span_blocks).3,
{
    let min_world_x: i32 = chunk.0 * 32;
    let max_world_x: i32 = (chunk.0 + 1) * 32 - 1;
    let min_world_z: i32 = chunk.2 * 32;
    let max_world_z: i32 = (chunk.2 + 1) * 32 - 1;
    (
        div_euclid_i32(min_world_x, region_span_blocks) - padding_regions,
        div_euclid_i32(max_world_x, region_span_blocks) + padding_regions,
        div_euclid_i32(min_world_z, region_span_blocks) - padding_regions,
        div_euclid_i32(max_world_z, region_span_blocks) + padding_regions,
    )
}

/// A guide cell lies inside the bounds of its own owner region, whatever
/// non-negative padding is applied.
pub proof fn lemma_owner_region_bounds_contain_coord(coord: AtlasCoord, padding_regions: int, region_span_cells: int)
    requires
        region_span_cells > 0,
        padding_regions >= 0,
    ensures
        ({
            let rx = (coord.x as int) / region_span_cells;
            let rz = (coord.z as int) / region_span_cells;
            &&& (rx - padding_regions) * region_span_cells <= coord.x <= (rx + padding_regions + 1)
                * region_span_cells - 1
            &&& (rz - padding_regions) * region_span_cells <= coord.z <= (rz + padding_regions + 1)
                * region_span_cells - 1
        }),
{
    let rx = (coord.x as int) / region_span_cells;
    let rz = (coord.z as int) / region_span_cells;
    crate::coord::lemma_div_euclid_bounds(coord.x as int, region_span_cells);
    crate::coord::lemma_div_euclid_bounds(coord.z as int, region_span_cells);
    assert((rx - padding_regions) * region_span_cells <= rx * region_span_cells) by (nonlinear_arith)
        requires padding_regions >= 0, region_span_cells > 0;
    assert(rx * region_span_cells + region_span_cells <= (rx + padding_regions + 1) * region_span_cells) by (nonlinear_arith)
        requires padding_regions >= 0, region_span_cells > 0;
    assert((rz - padding_regions) * region_span_cells <= rz * region_span_cells) by (nonlinear_arith)
        requires padding_regions >= 0, region_span_cells > 0;
    assert(rz * region_span_cells + region_span_cells <= (rz + padding_regions + 1) * region_span_cells) by (nonlinear_arith)
        requires padding_regions >= 0, region_span_cells > 0;
}

/// Every block of a chunk belongs to an owner region inside the chunk's owner
/// range, whatever non-negative padding is applied.
pub proof fn lemma_owner_range_covers_chunk(chunk: ChunkCoord, padding_regions: int, region_span_blocks: int, world_x: int, world_z: int)
    requires
        region_span_blocks > 0,
        padding_regions >= 0,
        chunk.0 * 32 <= world_x < (chunk.0 + 1) * 32,
        chunk.2 * 32 <= world_z < (chunk.2 + 1) * 32,
    ensures
        (chunk.0 * 32) / region_span_blocks - padding_regions <= world_x / region_span_blocks <= ((chunk.0 + 1) * 32
            - 1) / region_span_blocks + padding_regions,
        (chunk.2 * 32) / region_span_blocks - padding_regions <= world_z / region_span_blocks <= ((chunk.2 + 1) * 32
            - 1) / region_span_blocks + padding_regions,
{
    vstd::arithmetic::div_mod::lemma_div_is_ordered(chunk.0 * 32, world_x, region_span_blocks);
    vstd::arithmetic::div_mod::lemma_div_is_ordered(world_x, (chunk.0 + 1) * 32 - 1, region_span_blocks);
    vstd::arithmetic::div_mod::lemma_div_is_ordered(chunk.2 * 32, world_z, region_span_blocks);
    vstd::arithmetic::div_mod::lemma_div_is_ordered(world_z, (chunk.2 + 1) * 32 - 1, region_span_blocks);
}

} // verus!
