//! The graph-first voxel plan: one column plan per world column of a chunk
//! range, and the fill of a chunk's blocks from those column plans.

use vstd::prelude::*;
use rayon::iter::{IndexedParallelIterator, IntoParallelRefIterator, ParallelIterator};
use crate::coord::{ChunkCoord, LocalBlockCoord, WorldBlockCoord, world_to_chunk_local, CHUNK_EDGE, CHUNK_EDGE_I32};
use crate::graph::{GraphRegionArea, GraphRegionCoord, graph_region_for_world_block};
use crate::hashing::str_eq;
use crate::surface_plan::{SurfaceColumnPlan, SurfacePlanArea};

verus! {

/// Blocks in a cubic chunk.
pub const CHUNK_VOLUME: usize = 32768;

/// Identifier of a block type in a block registry.
#[derive(Clone, Copy, Debug, PartialEq, Eq, Hash, Structural)]
pub struct BlockId(pub u16);

/// Id of the empty block.
pub const AIR_BLOCK_ID: u16 = 0;

impl BlockId {
    /// The empty block.
    pub fn air() -> (id: BlockId)
        ensures
            id == BlockId(AIR_BLOCK_ID),
    {
        BlockId(AIR_BLOCK_ID)
    }
}

/// Block type lookup by key; the first entry with a matching key wins.
#[derive(Clone, Debug)]
pub struct BlockRegistry {
    pub entries: Vec<(&'static str, BlockId)>,
}

/// The id of the first registry entry whose key is `key`.
pub open spec fn spec_registry_lookup(entries: Seq<(&'static str, BlockId)>, key: Seq<char>) -> Option<BlockId>
    decreases entries.len(),
{
    if entries.len() == 0 {
        None
    } else if entries[0].0@ == key {
        Some(entries[0].1)
    } else {
        spec_registry_lookup(entries.drop_first(), key)
    }
}

impl BlockRegistry {
    pub fn block_id(&self, key: &str) -> (id: Option<BlockId>)
        ensures
            id == spec_registry_lookup(self.entries@, key@),
    {
        let mut index: usize = 0;
        proof {
            assert(self.entries@.subrange(0, self.entries.len() as int) =~= self.entries@);
        }
        while index < self.entries.len()
            invariant
                index <= self.entries.len(),
                spec_registry_lookup(self.entries@.subrange(index as int, self.entries.len() as int), key@)
                    == spec_registry_lookup(self.entries@, key@),
            decreases self.entries.len() - index,
        {
            let ghost rest = self.entries@.subrange(index as int, self.entries.len() as int);
            if str_eq(self.entries[index].0, key) {
                return Some(self.entries[index].1);
            }
            proof {
                assert(rest.drop_first() =~= self.entries@.subrange(index + 1, self.entries.len() as int));
            }
            index = index + 1;
        }
        None
    }
}

/// The blocks of one chunk, indexed `x + 32 * z + 1024 * y`.
#[derive(Clone, Debug)]
pub struct ChunkData {
    pub coord: ChunkCoord,
    pub blocks: Vec<BlockId>,
}

impl ChunkData {
    pub fn from_blocks(coord: ChunkCoord, blocks: Vec<BlockId>) -> (chunk: Self)
        ensures
            chunk.coord == coord,
            chunk.blocks@ == blocks@,
    {
        ChunkData { coord, blocks }
    }

    /// The block at a position inside the chunk.
    pub fn get_block(&self, local: LocalBlockCoord) -> (block: Option<BlockId>)
        ensures
            block == if local.x < 32 && local.y < 32 && local.z < 32 && spec_linear_index(local.x, local.y, local.z)
                < self.blocks.len() {
                Some(self.blocks@[spec_linear_index(local.x, local.y, local.z) as int])
            } else {
                None::<BlockId>
            },
    {
        if local.x >= 32 || local.y >= 32 || local.z >= 32 {
            return None;
        }
        let index = linear_index(local.x, local.y, local.z);
        if index < self.blocks.len() {
            Some(self.blocks[index])
        } else {
            None
        }
    }
}

pub open spec fn spec_linear_index(x: u8, y: u8, z: u8) -> nat {
    (x + z * 32 + y * 1024) as nat
}

/// Index of a block inside a chunk's block array.
pub fn linear_index(x: u8, y: u8, z: u8) -> (index: usize)
    requires
        x < 32,
        y < 32,
        z < 32,
    ensures
        index == spec_linear_index(x, y, z),
        index < CHUNK_VOLUME,
{
    (x as usize) + (z as usize) * CHUNK_EDGE + (y as usize) * CHUNK_EDGE * CHUNK_EDGE
}

/// Block keys used when the voxel fill has no surface plan.
#[derive(Clone, Copy, Debug, PartialEq, Eq)]
pub struct GraphFirstVoxelFillConfig {
    pub terrain_block_key: &'static str,
    pub water_block_key: &'static str,
}

impl Default for GraphFirstVoxelFillConfig {
    fn default() -> (fill: Self)
        ensures
            fill.terrain_block_key@ == "grass"@,
            fill.water_block_key@ == "water"@,
    {
        GraphFirstVoxelFillConfig { terrain_block_key: "grass", water_block_key: "water" }
    }
}

#[derive(Clone, Copy, Debug, PartialEq, Eq)]
pub struct GraphFirstVoxelColumnPlan {
    pub world_x: i32,
    pub world_z: i32,
    pub chunk_x: i32,
    pub chunk_z: i32,
    pub local_x: u8,
    pub local_z: u8,
    pub terrain_top_y: i32,
    pub water_top_y: Option<i32>,
    pub top_block_key: &'static str,
    pub subsurface_block_key: &'static str,
    pub base_block_key: &'static str,
    pub underwater_top_block_key: &'static str,
    pub water_block_key: &'static str,
    pub soil_depth_blocks: u8,
}

/// Highest non-air block of a column: its terrain top or its water surface.
pub open spec fn spec_top_non_air_y(column: GraphFirstVoxelColumnPlan) -> i32 {
    let water = match column.water_top_y {
        Some(w) => w,
        None => i32::MIN,
    };
    if column.terrain_top_y >= water {
        column.terrain_top_y
    } else {
        water
    }
}

impl GraphFirstVoxelColumnPlan {
    pub fn top_non_air_y(self) -> (y: i32)
        ensures
            y == spec_top_non_air_y(self),
    {
        let water = match self.water_top_y {
            Some(w) => w,
            None => i32::MIN,
        };
        if self.terrain_top_y >= water {
            self.terrain_top_y
        } else {
            water
        }
    }
}

/// The integer part of a pixelized world column that the voxel plan reads.
#[derive(Clone, Copy, Debug, PartialEq, Eq, Hash, Structural)]
pub struct PixelizedColumn {
    pub world_x: i32,
    pub world_z: i32,
    pub chunk_x: i32,
    pub chunk_z: i32,
    pub local_x: u8,
    pub local_z: u8,
    pub surface_y: i32,
    pub water_y: Option<i32>,
}

/// A row-major area of pixelized columns over a chunk range.
#[derive(Clone, Debug)]
pub struct PixelizedChunkArea {
    pub origin_world_x: i32,
    pub origin_world_z: i32,
    pub width: u32,
    pub height: u32,
    pub min_chunk_x: i32,
    pub max_chunk_x: i32,
    pub min_chunk_z: i32,
    pub max_chunk_z: i32,
    pub columns: Vec<PixelizedColumn>,
}

#[derive(Clone, Copy, Debug, PartialEq, Eq)]
pub enum GraphFirstVoxelError {
    InvalidChunkRange,
    MissingBlockKey(&'static str),
    MismatchedSurfacePlan,
}

/// A water surface that has a block below it.
pub open spec fn water_surface_in_range(water_y: Option<i32>) -> bool {
    match water_y {
        Some(w) => w > i32::MIN,
        None => true,
    }
}

/// The terrain top under a water surface sits at least one block below the water.
pub open spec fn spec_terrain_top_y(surface_y: i32, water_y: Option<i32>) -> i32 {
    match water_y {
        Some(w) => if w >= surface_y {
            if surface_y <= w - 1 {
                surface_y
            } else {
                (w - 1) as i32
            }
        } else {
            surface_y
        },
        None => surface_y,
    }
}

fn terrain_top_y(surface_y: i32, water_y: Option<i32>) -> (y: i32)
    requires
        water_y matches Some(w) ==> w > i32::MIN,
    ensures
        y == spec_terrain_top_y(surface_y, water_y),
{
    match water_y {
        Some(w) => if w >= surface_y {
            if surface_y <= w - 1 {
                surface_y
            } else {
                w - 1
            }
        } else {
            surface_y
        },
        None => surface_y,
    }
}

/// Column plan of a pixelized column with every layer of the terrain key.
pub open spec fn spec_column_from_pixelized(column: PixelizedColumn, fill: GraphFirstVoxelFillConfig) -> GraphFirstVoxelColumnPlan {
    GraphFirstVoxelColumnPlan {
        world_x: column.world_x,
        world_z: column.world_z,
        chunk_x: column.chunk_x,
        chunk_z: column.chunk_z,
        local_x: column.local_x,
        local_z: column.local_z,
        terrain_top_y: spec_terrain_top_y(column.surface_y, column.water_y),
        water_top_y: column.water_y,
        top_block_key: fill.terrain_block_key,
        subsurface_block_key: fill.terrain_block_key,
        base_block_key: fill.terrain_block_key,
        underwater_top_block_key: fill.terrain_block_key,
        water_block_key: fill.water_block_key,
        soil_depth_blocks: 0,
    }
}

pub fn graph_first_voxel_column_from_pixelized_column(column: PixelizedColumn, fill: GraphFirstVoxelFillConfig) -> (plan:
    GraphFirstVoxelColumnPlan)
    requires
        column.water_y matches Some(w) ==> w > i32::MIN,
    ensures
        plan == spec_column_from_pixelized(column, fill),
{
    GraphFirstVoxelColumnPlan {
        world_x: column.world_x,
        world_z: column.world_z,
        chunk_x: column.chunk_x,
        chunk_z: column.chunk_z,
        local_x: column.local_x,
        local_z: column.local_z,
        terrain_top_y: terrain_top_y(column.surface_y, column.water_y),
        water_top_y: column.water_y,
        top_block_key: fill.terrain_block_key,
        subsurface_block_key: fill.terrain_block_key,
        base_block_key: fill.terrain_block_key,
        underwater_top_block_key: fill.terrain_block_key,
        water_block_key: fill.water_block_key,
        soil_depth_blocks: 0,
    }
}

pub open spec fn column_ok(plan: GraphFirstVoxelColumnPlan) -> Result<GraphFirstVoxelColumnPlan, GraphFirstVoxelError> {
    Ok(plan)
}

pub open spec fn column_err(error: GraphFirstVoxelError) -> Result<GraphFirstVoxelColumnPlan, GraphFirstVoxelError> {
    Err(error)
}

pub open spec fn plan_err(error: GraphFirstVoxelError) -> Result<GraphFirstVoxelPlan, GraphFirstVoxelError> {
    Err(error)
}

/// The pixelized column and the surface plan describe the same world column.
pub open spec fn columns_match(column: PixelizedColumn, surface: SurfaceColumnPlan) -> bool {
    column.world_x == surface.world_x && column.world_z == surface.world_z && column.surface_y
        == surface.surface_y && column.water_y == surface.water_y
}

/// Column plan from a pixelized column and the surface plan of the same world column.
pub open spec fn spec_column_from_surface(
    column: PixelizedColumn,
    surface: SurfaceColumnPlan,
    fill: GraphFirstVoxelFillConfig,
) -> Result<GraphFirstVoxelColumnPlan, GraphFirstVoxelError> {
    if !columns_match(column, surface) {
        Err(GraphFirstVoxelError::MismatchedSurfacePlan)
    } else {
        Ok(
            GraphFirstVoxelColumnPlan {
                world_x: column.world_x,
                world_z: column.world_z,
                chunk_x: (column.world_x / 32) as i32,
                chunk_z: (column.world_z / 32) as i32,
                local_x: (column.world_x % 32) as u8,
                local_z: (column.world_z % 32) as u8,
                terrain_top_y: spec_terrain_top_y(surface.surface_y, surface.water_y),
                water_top_y: surface.water_y,
                top_block_key: surface.top_block,
                subsurface_block_key: surface.subsurface_block,
                base_block_key: surface.base_block,
                underwater_top_block_key: surface.underwater_top_block,
                water_block_key: fill.water_block_key,
                soil_depth_blocks: surface.soil_depth_blocks,
            },
        )
    }
}

pub fn graph_first_voxel_column_from_surface(
    column: PixelizedColumn,
    surface: SurfaceColumnPlan,
    fill: GraphFirstVoxelFillConfig,
) -> (plan: Result<GraphFirstVoxelColumnPlan, GraphFirstVoxelError>)
    requires
        surface.water_y matches Some(w) ==> w > i32::MIN,
    ensures
        plan == spec_column_from_surface(column, surface, fill),
{
    let same_water = match (column.water_y, surface.water_y) {
        (Some(a), Some(b)) => a == b,
        (None, None) => true,
        _ => false,
    };
    if column.world_x != surface.world_x || column.world_z != surface.world_z || column.surface_y
        != surface.surface_y || !same_water {
        return Err(GraphFirstVoxelError::MismatchedSurfacePlan);
    }
    let (chunk, local) = world_to_chunk_local(WorldBlockCoord(column.world_x, 0, column.world_z));
    Ok(
        GraphFirstVoxelColumnPlan {
            world_x: column.world_x,
            world_z: column.world_z,
            chunk_x: chunk.0,
            chunk_z: chunk.2,
            local_x: local.x,
            local_z: local.z,
            terrain_top_y: terrain_top_y(surface.surface_y, surface.water_y),
            water_top_y: surface.water_y,
            top_block_key: surface.top_block,
            subsurface_block_key: surface.subsurface_block,
            base_block_key: surface.base_block,
            underwater_top_block_key: surface.underwater_top_block,
            water_block_key: fill.water_block_key,
            soil_depth_blocks: surface.soil_depth_blocks,
        },
    )
}

/// Runs `graph_first_voxel_column_from_pixelized_column` over all columns on
/// rayon's thread pool. Claims that rayon's indexed `map` followed by
/// `collect` into a `Vec` yields one output per input, in input order; each
/// output is whatever the verified column function returns.
#[verifier::external_body]
fn par_columns_from_pixelized(columns: &Vec<PixelizedColumn>, fill: GraphFirstVoxelFillConfig) -> (plans: Vec<
    GraphFirstVoxelColumnPlan,
>)
    requires
        forall|i: int| 0 <= i < columns.len() ==> water_surface_in_range((#[trigger] columns@[i]).water_y),
    ensures
        plans.len() == columns.len(),
        forall|i: int| 0 <= i < columns.len() ==> #[trigger] plans@[i] == spec_column_from_pixelized(columns@[i], fill),
{
    columns.par_iter().map(|column| graph_first_voxel_column_from_pixelized_column(*column, fill)).collect()
}

/// Runs `graph_first_voxel_column_from_surface` over the zipped columns on
/// rayon's thread pool and collects into a `Result`. Claims that success keeps
/// one output per input in input order, and that a failure returns the error
/// of some failing pair (rayon does not say which when several fail).
#[verifier::external_body]
fn par_columns_from_surface(
    columns: &Vec<PixelizedColumn>,
    surfaces: &Vec<SurfaceColumnPlan>,
    fill: GraphFirstVoxelFillConfig,
) -> (plans: Result<Vec<GraphFirstVoxelColumnPlan>, GraphFirstVoxelError>)
    requires
        columns.len() == surfaces.len(),
        forall|i: int| 0 <= i < surfaces.len() ==> water_surface_in_range((#[trigger] surfaces@[i]).water_y),
    ensures
        plans matches Ok(v) ==> v.len() == columns.len() && forall|i: int|
            0 <= i < columns.len() ==> spec_column_from_surface(columns@[i], surfaces@[i], fill) == column_ok(#[trigger] v@[i]),
        plans matches Err(e) ==> exists|i: int|
            0 <= i < columns.len() && #[trigger] spec_column_from_surface(columns@[i], surfaces@[i], fill) == column_err(e),
{
    columns.par_iter().zip(surfaces.par_iter()).map(
        |(column, surface)| graph_first_voxel_column_from_surface(*column, *surface, fill),
    ).collect()
}

#[derive(Clone, Debug, PartialEq, Eq)]
pub struct GraphFirstVoxelPlan {
    pub min_chunk_x: i32,
    pub max_chunk_x: i32,
    pub min_chunk_z: i32,
    pub max_chunk_z: i32,
    pub width: u32,
    pub height: u32,
    pub columns: Vec<GraphFirstVoxelColumnPlan>,
    pub fill: GraphFirstVoxelFillConfig,
}

/// Plan of a pixelized area with every column filled from the fill keys.
pub fn build_graph_first_voxel_plan_from_pixelized_area(area: &PixelizedChunkArea, fill: GraphFirstVoxelFillConfig) -> (plan:
    GraphFirstVoxelPlan)
    requires
        forall|i: int| 0 <= i < area.columns.len() ==> water_surface_in_range((#[trigger] area.columns@[i]).water_y),
    ensures
        plan.min_chunk_x == area.min_chunk_x,
        plan.max_chunk_x == area.max_chunk_x,
        plan.min_chunk_z == area.min_chunk_z,
        plan.max_chunk_z == area.max_chunk_z,
        plan.width == area.width,
        plan.height == area.height,
        plan.fill == fill,
        plan.columns.len() == area.columns.len(),
        forall|i: int|
            0 <= i < area.columns.len() ==> #[trigger] plan.columns@[i] == spec_column_from_pixelized(
                area.columns@[i],
                fill,
            ),
{
    let columns = par_columns_from_pixelized(&area.columns, fill);
    GraphFirstVoxelPlan {
        min_chunk_x: area.min_chunk_x,
        max_chunk_x: area.max_chunk_x,
        min_chunk_z: area.min_chunk_z,
        max_chunk_z: area.max_chunk_z,
        width: area.width,
        height: area.height,
        columns,
        fill,
    }
}

/// Plan of a pixelized area with materials from the matching surface plan;
/// fails when the two areas differ in shape or in any column.
pub fn build_graph_first_voxel_plan_from_pixelized_area_and_surface(
    area: &PixelizedChunkArea,
    surface: &SurfacePlanArea,
    fill: GraphFirstVoxelFillConfig,
) -> (plan: Result<GraphFirstVoxelPlan, GraphFirstVoxelError>)
    requires
        forall|i: int| 0 <= i < surface.columns.len() ==> water_surface_in_range((#[trigger] surface.columns@[i]).water_y),
    ensures
        (area.width != surface.width || area.height != surface.height || area.columns.len()
            != surface.columns.len()) ==> plan == plan_err(
            GraphFirstVoxelError::MismatchedSurfacePlan,
        ),
        plan is Ok <==> (area.width == surface.width && area.height == surface.height && area.columns.len()
            == surface.columns.len() && forall|i: int|
            0 <= i < area.columns.len() ==> columns_match(#[trigger] area.columns@[i], surface.columns@[i])),
        plan matches Err(e) ==> e == GraphFirstVoxelError::MismatchedSurfacePlan,
        plan matches Ok(p) ==> {
            &&& p.min_chunk_x == area.min_chunk_x
            &&& p.max_chunk_x == area.max_chunk_x
            &&& p.min_chunk_z == area.min_chunk_z
            &&& p.max_chunk_z == area.max_chunk_z
            &&& p.width == area.width
            &&& p.height == area.height
            &&& p.fill == fill
            &&& p.columns.len() == area.columns.len()
            &&& forall|i: int|
                0 <= i < area.columns.len() ==> spec_column_from_surface(area.columns@[i], surface.columns@[i], fill)
                    == Ok::<GraphFirstVoxelColumnPlan, GraphFirstVoxelError>(#[trigger] p.columns@[i])
        },
{
    if area.width != surface.width || area.height != surface.height || area.columns.len() != surface.columns.len() {
        return Err(GraphFirstVoxelError::MismatchedSurfacePlan);
    }
    match par_columns_from_surface(&area.columns, &surface.columns, fill) {
        Ok(columns) => {
            proof {
                assert forall|i: int|
                    0 <= i < area.columns.len() implies columns_match(#[trigger] area.columns@[i], surface.columns@[i]) by {
                    assert(spec_column_from_surface(area.columns@[i], surface.columns@[i], fill) == column_ok(columns@[i]));
                }
            }
            Ok(
                GraphFirstVoxelPlan {
                    min_chunk_x: area.min_chunk_x,
                    max_chunk_x: area.max_chunk_x,
                    min_chunk_z: area.min_chunk_z,
                    max_chunk_z: area.max_chunk_z,
                    width: area.width,
                    height: area.height,
                    columns,
                    fill,
                },
            )
        },
        Err(e) => {
            proof {
                let i = choose|i: int|
                    0 <= i < area.columns.len() && #[trigger] spec_column_from_surface(area.columns@[i], surface.columns@[i], fill) == column_err(e);
                assert(!columns_match(area.columns@[i], surface.columns@[i]));
            }
            Err(e)
        },
    }
}

/// The column at `(x, z)` of the plan's row-major grid.
pub open spec fn spec_plan_column(plan: GraphFirstVoxelPlan, x: int, z: int) -> Option<GraphFirstVoxelColumnPlan> {
    if 0 <= x < plan.width && 0 <= z < plan.height && z * plan.width + x < plan.columns.len() {
        Some(plan.columns@[z * plan.width + x])
    } else {
        None
    }
}

/// Plan coordinates of a position inside a chunk of the plan's range.
pub open spec fn plan_x_for_chunk(plan: GraphFirstVoxelPlan, chunk_x: i32, local_x: u8) -> int {
    (chunk_x - plan.min_chunk_x) * 32 + local_x
}

pub open spec fn plan_z_for_chunk(plan: GraphFirstVoxelPlan, chunk_z: i32, local_z: u8) -> int {
    (chunk_z - plan.min_chunk_z) * 32 + local_z
}

pub open spec fn chunk_in_plan(plan: GraphFirstVoxelPlan, chunk_x: i32, chunk_z: i32) -> bool {
    plan.min_chunk_x <= chunk_x <= plan.max_chunk_x && plan.min_chunk_z <= chunk_z <= plan.max_chunk_z
}

/// The plan's column for a position inside a chunk, when the chunk lies in the plan.
pub open spec fn spec_column_for_chunk_local(
    plan: GraphFirstVoxelPlan,
    chunk_x: i32,
    chunk_z: i32,
    local_x: u8,
    local_z: u8,
) -> Option<GraphFirstVoxelColumnPlan> {
    if chunk_in_plan(plan, chunk_x, chunk_z) {
        spec_plan_column(plan, plan_x_for_chunk(plan, chunk_x, local_x), plan_z_for_chunk(plan, chunk_z, local_z))
    } else {
        None
    }
}

/// The plan's arithmetic on chunk positions stays in range: plan coordinates fit
/// a `u32` and row-major indices fit a `usize`.
pub open spec fn plan_indexable(plan: GraphFirstVoxelPlan) -> bool {
    &&& (plan.max_chunk_x - plan.min_chunk_x) * 32 + 31 <= u32::MAX
    &&& (plan.max_chunk_z - plan.min_chunk_z) * 32 + 31 <= u32::MAX
    &&& plan.width as int * plan.height as int <= usize::MAX
}

impl GraphFirstVoxelPlan {
    pub fn column(&self, x: u32, z: u32) -> (column: Option<GraphFirstVoxelColumnPlan>)
        requires
            z as int * self.width as int + x as int <= usize::MAX,
        ensures
            column == spec_plan_column(*self, x as int, z as int),
    {
        if x >= self.width || z >= self.height {
            return None;
        }
        let index: usize = z as usize * self.width as usize + x as usize;
        if index < self.columns.len() {
            Some(self.columns[index])
        } else {
            None
        }
    }

    pub fn column_for_chunk_local(&self, chunk_x: i32, chunk_z: i32, local_x: u8, local_z: u8) -> (column: Option<
        GraphFirstVoxelColumnPlan,
    >)
        requires
            plan_indexable(*self),
            local_x < 32,
            local_z < 32,
        ensures
            column == spec_column_for_chunk_local(*self, chunk_x, chunk_z, local_x, local_z),
    {
        if chunk_x < self.min_chunk_x || chunk_x > self.max_chunk_x || chunk_z < self.min_chunk_z || chunk_z
            > self.max_chunk_z {
            return None;
        }
        let x: u32 = ((chunk_x - self.min_chunk_x) as u32) * (CHUNK_EDGE as u32) + local_x as u32;
        let z: u32 = ((chunk_z - self.min_chunk_z) as u32) * (CHUNK_EDGE as u32) + local_z as u32;
        if x >= self.width || z >= self.height {
            return None;
        }
        proof {
            assert(z as int * self.width as int + x as int <= usize::MAX) by (nonlinear_arith)
                requires
                    z < self.height,
                    x < self.width,
                    self.width as int * self.height as int <= usize::MAX;
        }
        self.column(x, z)
    }

    /// The plan's columns of one chunk, `local_z` major, skipping positions the plan lacks.
    pub fn columns_for_chunk_xz(&self, chunk_x: i32, chunk_z: i32) -> (columns: Vec<GraphFirstVoxelColumnPlan>)
        requires
            plan_indexable(*self),
        ensures
            columns@ == spec_chunk_columns(*self, chunk_x, chunk_z, 1024),
    {
        let mut columns: Vec<GraphFirstVoxelColumnPlan> = Vec::new();
        let mut local_z: u8 = 0;
        while local_z < 32
            invariant
                plan_indexable(*self),
                local_z <= 32,
                columns@ == spec_chunk_columns(*self, chunk_x, chunk_z, (local_z * 32) as nat),
            decreases 32 - local_z,
        {
            let mut local_x: u8 = 0;
            while local_x < 32
                invariant
                    plan_indexable(*self),
                    local_z < 32,
                    local_x <= 32,
                    columns@ == spec_chunk_columns(*self, chunk_x, chunk_z, (local_z * 32 + local_x) as nat),
                decreases 32 - local_x,
            {
                let ghost k = (local_z * 32 + local_x) as nat;
                proof {
                    crate::atlas_fields::lemma_index_coords(local_x as int, local_z as int, 32);
                    assert(spec_chunk_columns(*self, chunk_x, chunk_z, k + 1) == spec_chunk_columns(
                        *self,
                        chunk_x,
                        chunk_z,
                        k,
                    ) + option_seq(spec_column_for_chunk_local(*self, chunk_x, chunk_z, local_x, local_z)));
                }
                match self.column_for_chunk_local(chunk_x, chunk_z, local_x, local_z) {
                    Some(column) => {
                        columns.push(column);
                    },
                    None => {},
                }
                proof {
                    assert(columns@ =~= spec_chunk_columns(*self, chunk_x, chunk_z, k + 1));
                }
                local_x = local_x + 1;
            }
            local_z = local_z + 1;
        }
        columns
    }
}

/// A present value as a one-element sequence, an absent one as the empty sequence.
pub open spec fn option_seq<T>(value: Option<T>) -> Seq<T> {
    match value {
        Some(v) => seq![v],
        None => Seq::empty(),
    }
}

/// The present columns among the first `count` chunk positions in `local_z`-major order.
pub open spec fn spec_chunk_columns(plan: GraphFirstVoxelPlan, chunk_x: i32, chunk_z: i32, count: nat) -> Seq<
    GraphFirstVoxelColumnPlan,
>
    decreases count,
{
    if count == 0 {
        Seq::empty()
    } else {
        let k = count - 1;
        spec_chunk_columns(plan, chunk_x, chunk_z, k as nat) + option_seq(
            spec_column_for_chunk_local(plan, chunk_x, chunk_z, (k % 32) as u8, (k / 32) as u8),
        )
    }
}

/// Block ids of the five materials of a column.
#[derive(Clone, Copy, Debug, PartialEq, Eq, Hash, Structural)]
pub struct VoxelColumnBlockIds {
    pub top: BlockId,
    pub subsurface: BlockId,
    pub base: BlockId,
    pub underwater_top: BlockId,
    pub water: BlockId,
}

/// All five block keys of a column are known to the registry.
pub open spec fn column_keys_registered(column: GraphFirstVoxelColumnPlan, registry: BlockRegistry) -> bool {
    &&& spec_registry_lookup(registry.entries@, column.top_block_key@) is Some
    &&& spec_registry_lookup(registry.entries@, column.subsurface_block_key@) is Some
    &&& spec_registry_lookup(registry.entries@, column.base_block_key@) is Some
    &&& spec_registry_lookup(registry.entries@, column.underwater_top_block_key@) is Some
    &&& spec_registry_lookup(registry.entries@, column.water_block_key@) is Some
}

pub open spec fn spec_resolve_ids(column: GraphFirstVoxelColumnPlan, registry: BlockRegistry) -> VoxelColumnBlockIds {
    VoxelColumnBlockIds {
        top: spec_registry_lookup(registry.entries@, column.top_block_key@).unwrap(),
        subsurface: spec_registry_lookup(registry.entries@, column.subsurface_block_key@).unwrap(),
        base: spec_registry_lookup(registry.entries@, column.base_block_key@).unwrap(),
        underwater_top: spec_registry_lookup(registry.entries@, column.underwater_top_block_key@).unwrap(),
        water: spec_registry_lookup(registry.entries@, column.water_block_key@).unwrap(),
    }
}

/// The registry id of `key`, or the error naming the missing key.
pub fn block_id(registry: &BlockRegistry, key: &'static str) -> (id: Result<BlockId, GraphFirstVoxelError>)
    ensures
        id == match spec_registry_lookup(registry.entries@, key@) {
            Some(b) => Ok::<BlockId, GraphFirstVoxelError>(b),
            None => Err(GraphFirstVoxelError::MissingBlockKey(key)),
        },
{
    match registry.block_id(key) {
        Some(id) => Ok(id),
        None => Err(GraphFirstVoxelError::MissingBlockKey(key)),
    }
}

/// The first of the column's keys, in the order top, subsurface, base,
/// underwater top, water, that the registry lacks.
pub open spec fn spec_first_missing_key(column: GraphFirstVoxelColumnPlan, registry: BlockRegistry) -> &'static str {
    if spec_registry_lookup(registry.entries@, column.top_block_key@) is None {
        column.top_block_key
    } else if spec_registry_lookup(registry.entries@, column.subsurface_block_key@) is None {
        column.subsurface_block_key
    } else if spec_registry_lookup(registry.entries@, column.base_block_key@) is None {
        column.base_block_key
    } else if spec_registry_lookup(registry.entries@, column.underwater_top_block_key@) is None {
        column.underwater_top_block_key
    } else {
        column.water_block_key
    }
}

impl VoxelColumnBlockIds {
    /// The column's five block ids; fails with the first missing key in the
    /// order top, subsurface, base, underwater top, water.
    pub fn resolve(column: GraphFirstVoxelColumnPlan, registry: &BlockRegistry) -> (ids: Result<Self, GraphFirstVoxelError>)
        ensures
            ids is Ok <==> column_keys_registered(column, *registry),
            ids matches Ok(v) ==> v == spec_resolve_ids(column, *registry),
            ids matches Err(e) ==> e == GraphFirstVoxelError::MissingBlockKey(spec_first_missing_key(column, *registry)),
    {
        let top = match block_id(registry, column.top_block_key) {
            Ok(v) => v,
            Err(e) => {
                return Err(e);
            },
        };
        let subsurface = match block_id(registry, column.subsurface_block_key) {
            Ok(v) => v,
            Err(e) => {
                return Err(e);
            },
        };
        let base = match block_id(registry, column.base_block_key) {
            Ok(v) => v,
            Err(e) => {
                return Err(e);
            },
        };
        let underwater_top = match block_id(registry, column.underwater_top_block_key) {
            Ok(v) => v,
            Err(e) => {
                return Err(e);
            },
        };
        let water = match block_id(registry, column.water_block_key) {
            Ok(v) => v,
            Err(e) => {
                return Err(e);
            },
        };
        Ok(VoxelColumnBlockIds { top, subsurface, base, underwater_top, water })
    }
}

/// The block at height `world_y` of a column: its top (or underwater top when
/// water covers it), soil below the top down to the soil depth, base below
/// that, water from above the terrain up to the water surface, air above.
pub open spec fn spec_block_for_world_y(world_y: int, column: GraphFirstVoxelColumnPlan, palette: VoxelColumnBlockIds) -> BlockId {
    if world_y <= column.terrain_top_y {
        if world_y == column.terrain_top_y {
            if column.water_top_y matches Some(w) && w > column.terrain_top_y {
                palette.underwater_top
            } else {
                palette.top
            }
        } else if world_y >= column.terrain_top_y - column.soil_depth_blocks {
            palette.subsurface
        } else {
            palette.base
        }
    } else if column.water_top_y matches Some(w) && world_y <= w {
        palette.water
    } else {
        BlockId(AIR_BLOCK_ID)
    }
}

pub fn block_for_world_y(world_y: i32, column: GraphFirstVoxelColumnPlan, palette: VoxelColumnBlockIds) -> (block: BlockId)
    ensures
        block == spec_block_for_world_y(world_y as int, column, palette),
{
    if world_y <= column.terrain_top_y {
        if world_y == column.terrain_top_y {
            let covered = match column.water_top_y {
                Some(w) => w > column.terrain_top_y,
                None => false,
            };
            if covered {
                palette.underwater_top
            } else {
                palette.top
            }
        } else if world_y as i64 >= column.terrain_top_y as i64 - column.soil_depth_blocks as i64 {
            palette.subsurface
        } else {
            palette.base
        }
    } else {
        let under_water = match column.water_top_y {
            Some(w) => world_y <= w,
            None => false,
        };
        if under_water {
            palette.water
        } else {
            BlockId::air()
        }
    }
}

/// The column at `(lx, lz)` of the chunk lacks a registry key, and every
/// column before it in `z`-major order has all of its keys.
pub open spec fn first_unregistered_column(
    plan: GraphFirstVoxelPlan,
    coord: ChunkCoord,
    registry: BlockRegistry,
    lx: u8,
    lz: u8,
) -> bool {
    &&& spec_column_for_chunk_local(plan, coord.0, coord.2, lx, lz) is Some
    &&& !column_keys_registered(spec_column_for_chunk_local(plan, coord.0, coord.2, lx, lz).unwrap(), registry)
    &&& forall|px: u8, pz: u8|
        px < 32 && (pz < lz || (pz == lz && px < lx)) && #[trigger] spec_column_for_chunk_local(
            plan,
            coord.0,
            coord.2,
            px,
            pz,
        ) is Some ==> column_keys_registered(spec_column_for_chunk_local(plan, coord.0, coord.2, px, pz).unwrap(), registry)
}

/// Fills a chunk from the plan's columns: air where the plan has no column.
/// Fails with the first missing key of the first column, in `z`-major order,
/// whose keys the registry lacks.
pub fn voxelize_graph_first_chunk(coord: ChunkCoord, plan: &GraphFirstVoxelPlan, registry: &BlockRegistry) -> (chunk:
    Result<ChunkData, GraphFirstVoxelError>)
    requires
        plan_indexable(*plan),
        coord.1 as int * 32 + 31 <= i32::MAX,
        coord.1 as int * 32 >= i32::MIN,
    ensures
        chunk is Ok <==> forall|lx: u8, lz: u8|
            lx < 32 && lz < 32 && #[trigger] spec_column_for_chunk_local(*plan, coord.0, coord.2, lx, lz) is Some
                ==> column_keys_registered(spec_column_for_chunk_local(*plan, coord.0, coord.2, lx, lz).unwrap(), *registry),
        chunk matches Ok(c) ==> {
            &&& c.coord == coord
            &&& c.blocks.len() == CHUNK_VOLUME
            &&& forall|lx: u8, ly: u8, lz: u8|
                lx < 32 && ly < 32 && lz < 32 ==> #[trigger] c.blocks@[spec_linear_index(lx, ly, lz) as int] == match spec_column_for_chunk_local(
                    *plan,
                    coord.0,
                    coord.2,
                    lx,
                    lz,
                ) {
                    Some(column) => spec_block_for_world_y(
                        coord.1 * 32 + ly,
                        column,
                        spec_resolve_ids(column, *registry),
                    ),
                    None => BlockId(AIR_BLOCK_ID),
                }
        },
        chunk matches Err(e) ==> exists|lx: u8, lz: u8|
            #![trigger spec_column_for_chunk_local(*plan, coord.0, coord.2, lx, lz)]
            lx < 32 && lz < 32 && first_unregistered_column(*plan, coord, *registry, lx, lz) && e
                == GraphFirstVoxelError::MissingBlockKey(
                spec_first_missing_key(spec_column_for_chunk_local(*plan, coord.0, coord.2, lx, lz).unwrap(), *registry),
            ),
{
    let chunk_min_y: i32 = coord.1 * CHUNK_EDGE_I32;
    let mut blocks: Vec<BlockId> = Vec::new();
    while blocks.len() < CHUNK_VOLUME
        invariant
            blocks.len() <= CHUNK_VOLUME,
            forall|k: int| 0 <= k < blocks.len() ==> #[trigger] blocks@[k] == BlockId(AIR_BLOCK_ID),
        decreases CHUNK_VOLUME - blocks.len(),
    {
        blocks.push(BlockId::air());
    }
    let mut local_z: u8 = 0;
    while local_z < 32
        invariant
            plan_indexable(*plan),
            chunk_min_y == coord.1 * 32,
            coord.1 as int * 32 + 31 <= i32::MAX,
            local_z <= 32,
            blocks.len() == CHUNK_VOLUME,
            forall|lx: u8, lz: u8|
                lx < 32 && lz < local_z && #[trigger] spec_column_for_chunk_local(*plan, coord.0, coord.2, lx, lz) is Some
                    ==> column_keys_registered(spec_column_for_chunk_local(*plan, coord.0, coord.2, lx, lz).unwrap(), *registry),
            forall|lx: u8, ly: u8, lz: u8|
                lx < 32 && ly < 32 && lz < 32 ==> #[trigger] blocks@[spec_linear_index(lx, ly, lz) as int] == if lz
                    < local_z {
                    match spec_column_for_chunk_local(*plan, coord.0, coord.2, lx, lz) {
                        Some(column) => spec_block_for_world_y(
                            coord.1 * 32 + ly,
                            column,
                            spec_resolve_ids(column, *registry),
                        ),
                        None => BlockId(AIR_BLOCK_ID),
                    }
                } else {
                    BlockId(AIR_BLOCK_ID)
                },
        decreases 32 - local_z,
    {
        let mut local_x: u8 = 0;
        while local_x < 32
            invariant
                plan_indexable(*plan),
                chunk_min_y == coord.1 * 32,
                coord.1 as int * 32 + 31 <= i32::MAX,
                local_z < 32,
                local_x <= 32,
                blocks.len() == CHUNK_VOLUME,
                forall|lx: u8, lz: u8|
                    ((lz < local_z && lx < 32) || (lz == local_z && lx < local_x)) && #[trigger] spec_column_for_chunk_local(
                        *plan,
                        coord.0,
                        coord.2,
                        lx,
                        lz,
                    ) is Some ==> column_keys_registered(
                        spec_column_for_chunk_local(*plan, coord.0, coord.2, lx, lz).unwrap(),
                        *registry,
                    ),
                forall|lx: u8, ly: u8, lz: u8|
                    lx < 32 && ly < 32 && lz < 32 ==> #[trigger] blocks@[spec_linear_index(lx, ly, lz) as int] == if lz
                        < local_z || (lz == local_z && lx < local_x) {
                        match spec_column_for_chunk_local(*plan, coord.0, coord.2, lx, lz) {
                            Some(column) => spec_block_for_world_y(
                                coord.1 * 32 + ly,
                                column,
                                spec_resolve_ids(column, *registry),
                            ),
                            None => BlockId(AIR_BLOCK_ID),
                        }
                    } else {
                        BlockId(AIR_BLOCK_ID)
                    },
            decreases 32 - local_x,
        {
            match plan.column_for_chunk_local(coord.0, coord.2, local_x, local_z) {
                Some(column) => {
                    let palette = match VoxelColumnBlockIds::resolve(column, registry) {
                        Ok(p) => p,
                        Err(e) => {
                            proof {
                                assert(first_unregistered_column(*plan, coord, *registry, local_x, local_z));
                            }
                            return Err(e);
                        },
                    };
                    let mut local_y: u8 = 0;
                    while local_y < 32
                        invariant
                            chunk_min_y == coord.1 * 32,
                            coord.1 as int * 32 + 31 <= i32::MAX,
                            local_z < 32,
                            local_x < 32,
                            local_y <= 32,
                            blocks.len() == CHUNK_VOLUME,
                            palette == spec_resolve_ids(column, *registry),
                            spec_column_for_chunk_local(*plan, coord.0, coord.2, local_x, local_z) == Some(column),
                            forall|lx: u8, ly: u8, lz: u8|
                                lx < 32 && ly < 32 && lz < 32 ==> #[trigger] blocks@[spec_linear_index(lx, ly, lz) as int]
                                    == if lz < local_z || (lz == local_z && lx < local_x) || (lz == local_z && lx
                                    == local_x && ly < local_y) {
                                    match spec_column_for_chunk_local(*plan, coord.0, coord.2, lx, lz) {
                                        Some(column) => spec_block_for_world_y(
                                            coord.1 * 32 + ly,
                                            column,
                                            spec_resolve_ids(column, *registry),
                                        ),
                                        None => BlockId(AIR_BLOCK_ID),
                                    }
                                } else {
                                    BlockId(AIR_BLOCK_ID)
                                },
                        decreases 32 - local_y,
                    {
                        let world_y: i32 = chunk_min_y + local_y as i32;
                        let index = linear_index(local_x, local_y, local_z);
                        let block = block_for_world_y(world_y, column, palette);
                        blocks.set(index, block);
                        proof {
                            assert forall|lx: u8, ly: u8, lz: u8|
                                lx < 32 && ly < 32 && lz < 32 && spec_linear_index(lx, ly, lz) == index implies lx == local_x
                                    && ly == local_y && lz == local_z by {}
                        }
                        local_y = local_y + 1;
                    }
                },
                None => {},
            }
            local_x = local_x + 1;
        }
        local_z = local_z + 1;
    }
    Ok(ChunkData::from_blocks(coord, blocks))
}

/// The layers of a column, bottom to top: base, then `soil_depth_blocks`
/// blocks of subsurface, then the top block at the terrain top (the
/// underwater top where water stands above it), then water up to the water
/// surface, then air.
pub proof fn lemma_column_layers(world_y: int, column: GraphFirstVoxelColumnPlan, palette: VoxelColumnBlockIds)
    ensures
        ({
            let t = column.terrain_top_y as int;
            let b = spec_block_for_world_y(world_y, column, palette);
            let covered = (column.water_top_y matches Some(w) && w > t);
            &&& world_y == t && covered ==> b == palette.underwater_top
            &&& world_y == t && !covered ==> b == palette.top
            &&& t - column.soil_depth_blocks <= world_y < t ==> b == palette.subsurface
            &&& world_y < t - column.soil_depth_blocks ==> b == palette.base
            &&& world_y > t && (column.water_top_y matches Some(w) && world_y <= w) ==> b == palette.water
            &&& world_y > t && (column.water_top_y matches Some(w) ==> world_y > w) ==> b == BlockId(AIR_BLOCK_ID)
        }),
{
}

} // verus!
