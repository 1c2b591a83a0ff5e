//! Region coordinates of the Voronoi world graph.

use vstd::prelude::*;
use crate::coord::div_euclid_i32;

verus! {

/// Edge length, in blocks, of one graph region.
pub const DEFAULT_GRAPH_REGION_SIZE_BLOCKS: i32 = 1024;

/// Spacing, in blocks, between Voronoi sites.
pub const DEFAULT_SITE_SPACING_BLOCKS: i32 = 192;

#[derive(Clone, Copy, Debug, PartialEq, Eq, Hash, Structural)]
pub struct GraphRegionCoord {
    pub x: i32,
    pub z: i32,
}

impl GraphRegionCoord {
    pub fn new(x: i32, z: i32) -> (coord: Self)
        ensures
            coord.x == x,
            coord.z == z,
    {
        GraphRegionCoord { x, z }
    }
}

/// An inclusive rectangle of graph regions, `min` to `max` on both axes.
#[derive(Clone, Copy, Debug, PartialEq, Eq, Hash, Structural)]
pub struct GraphRegionArea {
    pub min: GraphRegionCoord,
    pub max: GraphRegionCoord,
}

impl GraphRegionArea {
    /// The area is non-empty on both axes.
    pub open spec fn wf(self) -> bool {
        self.min.x <= self.max.x && self.min.z <= self.max.z
    }

    pub open spec fn spec_contains(self, coord: GraphRegionCoord) -> bool {
        self.min.x <= coord.x <= self.max.x && self.min.z <= coord.z <= self.max.z
    }

    /// Number of regions along x, as the `u32` the area's arithmetic yields.
    pub open spec fn width_u32(self) -> u32 {
        (self.max.x - self.min.x + 1) as u32
    }

    pub open spec fn height_u32(self) -> u32 {
        (self.max.z - self.min.z + 1) as u32
    }

    pub open spec fn spec_region_count(self) -> u32 {
        let product = self.width_u32() as int * self.height_u32() as int;
        if product > u32::MAX { u32::MAX } else { product as u32 }
    }

    /// Builds the area from its two corners; `None` when `min` lies past `max` on an axis.
    pub fn new(min: GraphRegionCoord, max: GraphRegionCoord) -> (area: Option<Self>)
        ensures
            area is Some <==> (min.x <= max.x && min.z <= max.z),
            area matches Some(a) ==> a.min == min && a.max == max && a.wf(),
    {
        if min.x <= max.x && min.z <= max.z {
            Some(GraphRegionArea { min, max })
        } else {
            None
        }
    }

    /// Whether `coord` lies in the area, bounds included.
    pub fn contains(self, coord: GraphRegionCoord) -> (inside: bool)
        ensures
            inside == self.spec_contains(coord),
    {
        coord.x >= self.min.x && coord.x <= self.max.x && coord.z >= self.min.z && coord.z
            <= self.max.z
    }

    /// Number of regions in the area, saturating at `u32::MAX`.
    pub fn region_count(self) -> (count: u32)
        requires
            i32::MIN <= self.max.x - self.min.x,
            self.max.x - self.min.x + 1 <= i32::MAX,
            i32::MIN <= self.max.z - self.min.z,
            self.max.z - self.min.z + 1 <= i32::MAX,
        ensures
            count == self.spec_region_count(),
            self.wf() ==> count as int == if (self.max.x - self.min.x + 1) * (self.max.z
                - self.min.z + 1) > u32::MAX {
                u32::MAX as int
            } else {
                (self.max.x - self.min.x + 1) * (self.max.z - self.min.z + 1)
            },
    {
        let width = #[verifier::truncate] ((self.max.x - self.min.x + 1) as u32);
        let height = #[verifier::truncate] ((self.max.z - self.min.z + 1) as u32);
        match width.checked_mul(height) {
            Some(product) => product,
            None => u32::MAX,
        }
    }
}

#[derive(Clone, Copy, Debug, PartialEq, Eq, Hash, Structural)]
pub struct VoronoiSiteId(pub u64);

#[derive(Clone, Copy, Debug, PartialEq, Eq, Hash, Structural)]
pub struct VoronoiCornerId(pub u64);

#[derive(Clone, Copy, Debug, PartialEq, Eq, Hash, Structural)]
pub struct VoronoiEdgeId(pub u64);

/// The graph region that owns the world column `(world_x, world_z)`.
pub fn graph_region_for_world_block(world_x: i32, world_z: i32, region_size_blocks: i32) -> (region:
    GraphRegionCoord)
    requires
        region_size_blocks > 0,
    ensures
        region.x == world_x / region_size_blocks,
        region.z == world_z / region_size_blocks,
        region_size_blocks * region.x <= world_x < region_size_blocks * region.x
            + region_size_blocks,
        region_size_blocks * region.z <= world_z < region_size_blocks * region.z
            + region_size_blocks,
{
    GraphRegionCoord {
        x: div_euclid_i32(world_x, region_size_blocks),
        z: div_euclid_i32(world_z, region_size_blocks),
    }
}

/// Region ownership is monotone: a block further east (south) never belongs to a
/// region further west (north).
pub proof fn lemma_graph_region_monotone(a: int, b: int, size: int)
    requires
        size > 0,
        a <= b,
    ensures
        a / size <= b / size,
{
    vstd::arithmetic::div_mod::lemma_div_is_ordered(a, b, size);
}

/// Every block of a region maps back to that region: the blocks owned by region
/// `r` are exactly `size * r ..= size * r + size - 1`.
pub proof fn lemma_graph_region_exact(world: int, size: int, region: int)
    requires
        size > 0,
        size * region <= world < size * region + size,
    ensures
        world / size == region,
{
    vstd::arithmetic::div_mod::lemma_fundamental_div_mod(world, size);
    vstd::arithmetic::div_mod::lemma_mod_bound(world, size);
    let q = world / size;
    if q < region {
        assert(size * q + size <= size * region) by (nonlinear_arith)
            requires q < region, size > 0;
    } else if q > region {
        assert(size * region + size <= size * q) by (nonlinear_arith)
            requires q > region, size > 0;
    }
}

/// The regions of an area, row by row from `min`.
pub open spec fn area_regions(area: GraphRegionArea) -> Seq<GraphRegionCoord> {
    let w = area.max.x - area.min.x + 1;
    let h = area.max.z - area.min.z + 1;
    Seq::new(
        (w * h) as nat,
        |k: int| GraphRegionCoord { x: (area.min.x + k % w) as i32, z: (area.min.z + k / w) as i32 },
    )
}

/// The regions an area contains, as a set.
pub open spec fn contained_regions(area: GraphRegionArea) -> Set<GraphRegionCoord> {
    Set::new(|c: GraphRegionCoord| area.spec_contains(c))
}

/// An area contains exactly `width * height` regions, and `region_count`
/// counts them whenever that number fits a `u32`.
pub proof fn lemma_region_count_counts_contained_regions(area: GraphRegionArea)
    requires
        area.wf(),
        area.max.x - area.min.x + 1 <= i32::MAX,
        area.max.z - area.min.z + 1 <= i32::MAX,
    ensures
        contained_regions(area).finite(),
        contained_regions(area).len() == (area.max.x - area.min.x + 1) * (area.max.z - area.min.z + 1),
        (area.max.x - area.min.x + 1) * (area.max.z - area.min.z + 1) <= u32::MAX ==> area.spec_region_count()
            == contained_regions(area).len(),
{
    let w = area.max.x - area.min.x + 1;
    let h = area.max.z - area.min.z + 1;
    let regions = area_regions(area);
    assert(w * h >= 0) by (nonlinear_arith)
        requires w > 0, h > 0;
    assert forall|k: int| 0 <= k < regions.len() implies area.spec_contains(#[trigger] regions[k]) && regions[k].x
        == area.min.x + k % w && regions[k].z == area.min.z + k / w by {
        crate::atlas_fields::lemma_index_split(k, w);
        crate::atlas_fields::lemma_row_bound(k, w, h);
    }
    assert(regions.no_duplicates()) by {
        assert forall|a: int, b: int| 0 <= a < regions.len() && 0 <= b < regions.len() && a != b implies regions[a]
            != regions[b] by {
            crate::atlas_fields::lemma_index_split(a, w);
            crate::atlas_fields::lemma_index_split(b, w);
        }
    }
    regions.unique_seq_to_set();
    assert(regions.to_set() =~= contained_regions(area)) by {
        assert forall|c: GraphRegionCoord| #[trigger] contained_regions(area).contains(c) implies regions.to_set().contains(
            c,
        ) by {
            let x = c.x - area.min.x;
            let z = c.z - area.min.z;
            crate::atlas_fields::lemma_index_coords(x, z, w);
            crate::atlas_fields::lemma_index_in_grid(x, z, w, h);
            let k = z * w + x;
            assert(regions[k] == c);
        }
    }
}

} // verus!
