//! The world-space frame of a graph-first voxel plan: which blocks a chunk
//! range covers, its center, the graph regions it touches and how many
//! regions of padding the Voronoi patch around it needs.

use vstd::prelude::*;
use crate::graph::{GraphRegionArea, GraphRegionCoord, graph_region_for_world_block};
use crate::voxel::GraphFirstVoxelError;

verus! {

/// `|value|` on integers.
pub open spec fn abs_int(value: int) -> int {
    if value < 0 {
        -value
    } else {
        value
    }
}

pub open spec fn max_int(a: int, b: int) -> int {
    if a >= b {
        a
    } else {
        b
    }
}

/// Regions of padding that keep the whole area inside the graph patch around
/// `center`: one more than the farthest area edge, at least `minimum`.
pub open spec fn spec_required_padding_regions(center: GraphRegionCoord, area: GraphRegionArea, minimum: u32) -> u32 {
    let dx = max_int(abs_int(center.x - area.min.x), abs_int(area.max.x - center.x));
    let dz = max_int(abs_int(center.z - area.min.z), abs_int(area.max.z - center.z));
    let reach = max_int(dx, dz) + 1;
    let padding: int = if reach > i32::MAX {
        i32::MAX as int
    } else {
        reach
    };
    if padding >= minimum {
        padding as u32
    } else {
        minimum
    }
}

/// The four differences between the center and the area's edges fit an `i32`
/// and are not `i32::MIN`.
pub open spec fn padding_offsets_fit(center: GraphRegionCoord, area: GraphRegionArea) -> bool {
    &&& i32::MIN < center.x - area.min.x <= i32::MAX
    &&& i32::MIN < area.max.x - center.x <= i32::MAX
    &&& i32::MIN < center.z - area.min.z <= i32::MAX
    &&& i32::MIN < area.max.z - center.z <= i32::MAX
}

fn abs_i32(value: i32) -> (out: i32)
    requires
        value > i32::MIN,
    ensures
        out == abs_int(value as int),
{
    if value < 0 {
        -value
    } else {
        value
    }
}

/// Padding, in graph regions, that the Voronoi patch around `center` needs
/// to cover `area`: one more than the largest distance from the center to an
/// edge of the area, and never less than `minimum`.
pub fn required_padding_regions(center: GraphRegionCoord, area: GraphRegionArea, minimum: u32) -> (padding: u32)
    requires
        padding_offsets_fit(center, area),
    ensures
        padding == spec_required_padding_regions(center, area, minimum),
        padding >= minimum,
{
    let west = abs_i32(center.x - area.min.x);
    let east = abs_i32(area.max.x - center.x);
    let north = abs_i32(center.z - area.min.z);
    let south = abs_i32(area.max.z - center.z);
    let dx = if west >= east {
        west
    } else {
        east
    };
    let dz = if north >= south {
        north
    } else {
        south
    };
    let farthest = if dx >= dz {
        dx
    } else {
        dz
    };
    let reach: i32 = match farthest.checked_add(1) {
        Some(r) => r,
        None => i32::MAX,
    };
    let padding = reach as u32;
    if padding >= minimum {
        padding
    } else {
        minimum
    }
}

/// Regions never spread further apart than the blocks they own.
proof fn lemma_region_gap_at_most_block_gap(low: int, high: int, size: int, low_region: int, high_region: int)
    requires
        size > 0,
        low <= high,
        size * low_region <= low < size * low_region + size,
        size * high_region <= high < size * high_region + size,
    ensures
        0 <= high_region - low_region <= high - low,
{
    assert(low_region <= high_region) by (nonlinear_arith)
        requires
            size > 0,
            low <= high,
            size * low_region <= low,
            high < size * high_region + size,
    {
        if low_region > high_region {
            assert(size * high_region + size <= size * low_region);
        }
    }
    assert(high_region - low_region <= high - low) by (nonlinear_arith)
        requires
            size > 0,
            low <= high,
            size * high_region <= high,
            low < size * low_region + size,
    {
        if high_region - low_region > high - low {
            assert(size * (high_region - low_region) >= size * (high - low + 1));
            assert(size * (high - low + 1) >= high - low + size);
        }
    }
}

/// The block frame of a voxel plan over a chunk range.
#[derive(Clone, Copy, Debug, PartialEq, Eq, Hash, Structural)]
pub struct GraphFirstVoxelBounds {
    pub min_world_x: i32,
    pub min_world_z: i32,
    pub width: u32,
    pub height: u32,
    pub center_world_x: i32,
    pub center_world_z: i32,
    pub graph_area: GraphRegionArea,
    pub center_region: GraphRegionCoord,
    pub padding_regions: u32,
}

/// The chunk range is ordered, the graph spacings positive, and the range's
/// block edges fit an `i32`.
pub open spec fn voxel_range_valid(
    min_chunk_x: i32,
    max_chunk_x: i32,
    min_chunk_z: i32,
    max_chunk_z: i32,
    region_size_blocks: i32,
    site_spacing_blocks: i32,
) -> bool {
    &&& min_chunk_x <= max_chunk_x
    &&& min_chunk_z <= max_chunk_z
    &&& region_size_blocks > 0
    &&& site_spacing_blocks > 0
    &&& i32::MIN <= min_chunk_x * 32 <= i32::MAX
    &&& i32::MIN <= min_chunk_z * 32 <= i32::MAX
    &&& (max_chunk_x + 1) * 32 <= i32::MAX
    &&& (max_chunk_z + 1) * 32 <= i32::MAX
}

/// Block span of the range on each axis fits an `i32` (the arithmetic of the
/// frame stays in range for every valid range that satisfies this).
pub open spec fn voxel_range_span_fits(min_chunk_x: i32, max_chunk_x: i32, min_chunk_z: i32, max_chunk_z: i32) -> bool {
    &&& (max_chunk_x + 1) * 32 - min_chunk_x * 32 <= i32::MAX
    &&& (max_chunk_z + 1) * 32 - min_chunk_z * 32 <= i32::MAX
}

/// The frame a valid range yields.
pub open spec fn spec_voxel_bounds_matches(
    bounds: GraphFirstVoxelBounds,
    min_chunk_x: i32,
    max_chunk_x: i32,
    min_chunk_z: i32,
    max_chunk_z: i32,
    region_size_blocks: i32,
    minimum_padding: u32,
) -> bool {
    let min_x = min_chunk_x * 32;
    let min_z = min_chunk_z * 32;
    let width = (max_chunk_x + 1) * 32 - min_x;
    let height = (max_chunk_z + 1) * 32 - min_z;
    let size = region_size_blocks as int;
    &&& bounds.min_world_x == min_x
    &&& bounds.min_world_z == min_z
    &&& bounds.width == width
    &&& bounds.height == height
    &&& bounds.center_world_x == min_x + width / 2
    &&& bounds.center_world_z == min_z + height / 2
    &&& bounds.graph_area.min.x == min_x / size
    &&& bounds.graph_area.min.z == min_z / size
    &&& bounds.graph_area.max.x == (min_x + width - 1) / size
    &&& bounds.graph_area.max.z == (min_z + height - 1) / size
    &&& bounds.center_region.x == (min_x + width / 2) / size
    &&& bounds.center_region.z == (min_z + height / 2) / size
    &&& bounds.padding_regions == spec_required_padding_regions(bounds.center_region, bounds.graph_area, minimum_padding)
}

/// The block frame of a voxel plan over the chunks `min..=max` on each axis:
/// its block origin and size, its center, the graph regions it touches and
/// the patch padding those need (at least `minimum_padding`). An unordered
/// range, a non-positive graph spacing or block edges past `i32` are an
/// invalid chunk range.
pub fn graph_first_voxel_bounds(
    min_chunk_x: i32,
    max_chunk_x: i32,
    min_chunk_z: i32,
    max_chunk_z: i32,
    region_size_blocks: i32,
    site_spacing_blocks: i32,
    minimum_padding: u32,
) -> (bounds: Result<GraphFirstVoxelBounds, GraphFirstVoxelError>)
    requires
        voxel_range_valid(min_chunk_x, max_chunk_x, min_chunk_z, max_chunk_z, region_size_blocks, site_spacing_blocks)
            ==> voxel_range_span_fits(min_chunk_x, max_chunk_x, min_chunk_z, max_chunk_z),
    ensures
        bounds is Ok <==> voxel_range_valid(
            min_chunk_x,
            max_chunk_x,
            min_chunk_z,
            max_chunk_z,
            region_size_blocks,
            site_spacing_blocks,
        ),
        bounds matches Err(e) ==> e == GraphFirstVoxelError::InvalidChunkRange,
        bounds matches Ok(b) ==> spec_voxel_bounds_matches(
            b,
            min_chunk_x,
            max_chunk_x,
            min_chunk_z,
            max_chunk_z,
            region_size_blocks,
            minimum_padding,
        ),
{
    if min_chunk_x > max_chunk_x || min_chunk_z > max_chunk_z || region_size_blocks <= 0 || site_spacing_blocks <= 0 {
        return Err(GraphFirstVoxelError::InvalidChunkRange);
    }
    let min_world_x = match min_chunk_x.checked_mul(32) {
        Some(v) => v,
        None => return Err(GraphFirstVoxelError::InvalidChunkRange),
    };
    let min_world_z = match min_chunk_z.checked_mul(32) {
        Some(v) => v,
        None => return Err(GraphFirstVoxelError::InvalidChunkRange),
    };
    let max_world_x_exclusive = match max_chunk_x.checked_add(1) {
        Some(v) => match v.checked_mul(32) {
            Some(w) => w,
            None => return Err(GraphFirstVoxelError::InvalidChunkRange),
        },
        None => return Err(GraphFirstVoxelError::InvalidChunkRange),
    };
    let max_world_z_exclusive = match max_chunk_z.checked_add(1) {
        Some(v) => match v.checked_mul(32) {
            Some(w) => w,
            None => return Err(GraphFirstVoxelError::InvalidChunkRange),
        },
        None => return Err(GraphFirstVoxelError::InvalidChunkRange),
    };
    let span_x = max_world_x_exclusive - min_world_x;
    let span_z = max_world_z_exclusive - min_world_z;
    let width = span_x as u32;
    let height = span_z as u32;
    let center_world_x = min_world_x + span_x / 2;
    let center_world_z = min_world_z + span_z / 2;
    let max_world_x = max_world_x_exclusive - 1;
    let max_world_z = max_world_z_exclusive - 1;
    let low = graph_region_for_world_block(min_world_x, min_world_z, region_size_blocks);
    let high = graph_region_for_world_block(max_world_x, max_world_z, region_size_blocks);
    proof {
        crate::graph::lemma_graph_region_monotone(min_world_x as int, max_world_x as int, region_size_blocks as int);
        crate::graph::lemma_graph_region_monotone(min_world_z as int, max_world_z as int, region_size_blocks as int);
    }
    let graph_area = match GraphRegionArea::new(low, high) {
        Some(area) => area,
        None => return Err(GraphFirstVoxelError::InvalidChunkRange),
    };
    let center_region = graph_region_for_world_block(center_world_x, center_world_z, region_size_blocks);
    proof {
        let size = region_size_blocks as int;
        lemma_region_gap_at_most_block_gap(min_world_x as int, center_world_x as int, size, low.x as int, center_region.x as int);
        lemma_region_gap_at_most_block_gap(center_world_x as int, max_world_x as int, size, center_region.x as int, high.x as int);
        lemma_region_gap_at_most_block_gap(min_world_z as int, center_world_z as int, size, low.z as int, center_region.z as int);
        lemma_region_gap_at_most_block_gap(center_world_z as int, max_world_z as int, size, center_region.z as int, high.z as int);
    }
    let padding_regions = required_padding_regions(center_region, graph_area, minimum_padding);
    Ok(
        GraphFirstVoxelBounds {
            min_world_x,
            min_world_z,
            width,
            height,
            center_world_x,
            center_world_z,
            graph_area,
            center_region,
            padding_regions,
        },
    )
}

} // verus!
