//! Stage markers and small helpers of the chunk generation pipeline:
//! scaffold stages, hydrology modes, river path ranks, region archetype
//! families, atlas clamping and the placeholder stage outputs.

use vstd::prelude::*;
use crate::coord::{AtlasArea, AtlasCoord, ChunkCoord, CHUNK_EDGE};
use crate::hashing::{seedless_splitmix64, spec_splitmix64, SPLITMIX_GAMMA};

verus! {

/// Stages of the chunk generation scaffold, in the order they complete.
#[derive(Clone, Copy, Debug, PartialEq, Eq, Structural)]
pub enum V2ScaffoldStage {
    AtlasInputsReady,
    RegionClassificationReady,
    RealizationFieldReady,
    CorridorWindowReady,
    PrototypeReady,
    MesoReady,
    SmoothingReady,
    HydrologyReady,
    MaterialReady,
    SeasonalReady,
}

/// What the hydrology solve decided a column is.
#[derive(Clone, Copy, Debug, PartialEq, Eq, Structural)]
pub enum HydrologyMode {
    Dry,
    Channel,
    Floodplain,
    Lake,
    Wetland,
}

/// Whether a river path is a trunk or one of its tributaries.
#[derive(Clone, Copy, Debug, PartialEq, Eq, Structural)]
pub enum RiverPathKind {
    Trunk,
    Tributary,
}

/// Sort rank of a river path kind: trunks before tributaries.
pub open spec fn spec_kind_rank(kind: RiverPathKind) -> u8 {
    match kind {
        RiverPathKind::Trunk => 0,
        RiverPathKind::Tributary => 1,
    }
}

/// Sort rank of a river path kind: trunks (0) sort before tributaries (1).
pub fn kind_rank(kind: RiverPathKind) -> (rank: u8)
    ensures
        rank == spec_kind_rank(kind),
        rank == 0 <==> kind == RiverPathKind::Trunk,
{
    match kind {
        RiverPathKind::Trunk => 0,
        RiverPathKind::Tributary => 1,
    }
}

/// Bits identifying a river branch: river id, Strahler order and kind rank.
pub open spec fn spec_branch_bits(river_id: u32, order: u8, kind: RiverPathKind) -> u64 {
    ((river_id as u64) << 16u64) ^ ((order as u64) << 8u64) ^ (spec_kind_rank(kind) as u64)
}

/// Noise seed of a river branch, the same for every chunk the branch crosses.
pub fn branch_noise_seed(river_id: u32, order: u8, kind: RiverPathKind) -> (seed: u64)
    ensures
        seed == spec_splitmix64(spec_branch_bits(river_id, order, kind) ^ SPLITMIX_GAMMA),
{
    let branch_bits = ((river_id as u64) << 16) ^ ((order as u64) << 8) ^ (kind_rank(kind) as u64);
    seedless_splitmix64(branch_bits ^ SPLITMIX_GAMMA)
}

/// Row-major index of a column inside a chunk.
pub fn column_index(local_x: i32, local_z: i32) -> (index: usize)
    requires
        0 <= local_x < 32,
        0 <= local_z < 32,
    ensures
        index == local_z * 32 + local_x,
        index < 32 * 32,
{
    let z: usize = local_z as usize;
    let x: usize = local_x as usize;
    z * CHUNK_EDGE + x
}

/// The atlas area is non-empty and its last cell has `i32` coordinates.
pub open spec fn area_clampable(area: AtlasArea) -> bool {
    &&& 1 <= area.width <= i32::MAX
    &&& 1 <= area.height <= i32::MAX
    &&& area.origin.x + area.width - 1 <= i32::MAX
    &&& area.origin.z + area.height - 1 <= i32::MAX
}

/// `value` clamped into `lo..=hi`.
pub open spec fn clamp_int(value: int, lo: int, hi: int) -> int {
    if value < lo {
        lo
    } else if value > hi {
        hi
    } else {
        value
    }
}

/// The cell of `area` nearest to `coord`, axis by axis.
pub fn clamp_atlas_coord_to_area(coord: AtlasCoord, area: AtlasArea) -> (clamped: AtlasCoord)
    requires
        area_clampable(area),
    ensures
        clamped.x == clamp_int(coord.x as int, area.origin.x as int, area.origin.x + area.width - 1),
        clamped.z == clamp_int(coord.z as int, area.origin.z as int, area.origin.z + area.height - 1),
        area.origin.x <= clamped.x < area.origin.x + area.width,
        area.origin.z <= clamped.z < area.origin.z + area.height,
        area.origin.x <= coord.x < area.origin.x + area.width && area.origin.z <= coord.z
            < area.origin.z + area.height ==> clamped == coord,
{
    let origin = area.origin;
    let max_x = origin.x + (area.width - 1) as i32;
    let max_z = origin.z + (area.height - 1) as i32;
    let x = if coord.x < origin.x {
        origin.x
    } else if coord.x > max_x {
        max_x
    } else {
        coord.x
    };
    let z = if coord.z < origin.z {
        origin.z
    } else if coord.z > max_z {
        max_z
    } else {
        coord.z
    };
    AtlasCoord::new(x, z)
}

/// A value per cell of an atlas area, stored row by row.
#[derive(Clone, Debug)]
pub struct AtlasGrid<T> {
    pub area: AtlasArea,
    pub cells: Vec<T>,
}

impl<T> AtlasGrid<T> {
    /// One cell per cell of the area.
    pub open spec fn wf(&self) -> bool {
        self.cells.len() == self.area.width * self.area.height
    }

    /// Row-major position of an in-area coordinate.
    pub open spec fn index_of(&self, coord: AtlasCoord) -> int {
        (coord.z - self.area.origin.z) * self.area.width + (coord.x - self.area.origin.x)
    }

    pub open spec fn contains(&self, coord: AtlasCoord) -> bool {
        &&& self.area.origin.x <= coord.x < self.area.origin.x + self.area.width
        &&& self.area.origin.z <= coord.z < self.area.origin.z + self.area.height
    }

    pub fn area(&self) -> (area: AtlasArea)
        ensures
            area == self.area,
    {
        self.area
    }

    /// The value at `coord`, or `None` outside the area.
    pub fn get(&self, coord: AtlasCoord) -> (cell: Option<&T>)
        requires
            self.wf(),
        ensures
            cell is Some <==> self.contains(coord),
            self.contains(coord) ==> 0 <= self.index_of(coord) < self.cells.len() && *cell->0
                == self.cells@[self.index_of(coord)],
    {
        let origin = self.area.origin;
        if coord.x < origin.x || coord.z < origin.z {
            return None;
        }
        let dx = (coord.x as i64 - origin.x as i64) as u64;
        let dz = (coord.z as i64 - origin.z as i64) as u64;
        if dx >= self.area.width as u64 || dz >= self.area.height as u64 {
            return None;
        }
        proof {
            crate::atlas_fields::lemma_index_coords(dx as int, dz as int, self.area.width as int);
            assert(dz * self.area.width + dx < self.area.width * self.area.height) by (nonlinear_arith)
                requires
                    dz < self.area.height,
                    dx < self.area.width,
            {
                assert(dz * self.area.width + dx < dz * self.area.width + self.area.width);
                assert(dz * self.area.width + self.area.width == (dz + 1) * self.area.width);
                assert((dz + 1) * self.area.width <= self.area.height * self.area.width);
            }
        }
        let index = (dz as usize) * (self.area.width as usize) + (dx as usize);
        Some(&self.cells[index])
    }
}

/// The grid's value at the in-area cell nearest to `coord`.
pub fn sample_region_cell<T: Copy>(regions: &AtlasGrid<T>, coord: AtlasCoord) -> (cell: T)
    requires
        regions.wf(),
        area_clampable(regions.area),
    ensures
        ({
            let area = regions.area;
            let clamped = AtlasCoord {
                x: clamp_int(coord.x as int, area.origin.x as int, area.origin.x + area.width - 1) as i32,
                z: clamp_int(coord.z as int, area.origin.z as int, area.origin.z + area.height - 1) as i32,
            };
            cell == regions.cells@[regions.index_of(clamped)]
        }),
{
    let area = regions.area();
    let clamped = clamp_atlas_coord_to_area(coord, area);
    match regions.get(clamped) {
        Some(cell) => *cell,
        None => {
            proof {
                assert(false);
            }
            regions.cells[0]
        },
    }
}

/// Broad terrain identity of an atlas region.
#[derive(Clone, Copy, Debug, PartialEq, Eq, Structural)]
pub enum RegionArchetype {
    OceanicShelf,
    SandyBeachPlain,
    CoastalCliffland,
    RockyShoreCoast,
    BarrierCoast,
    LagoonCoast,
    EstuaryLowland,
    CoastalDelta,
    MangroveLagoon,
    MangroveDelta,
    MonsoonDelta,
    FjordCoast,
    ColdWetLowland,
    TundraPlain,
    TropicalRainforestLowland,
    MarshFloodplain,
    SwampLowland,
    FloodedForestAlluvialLowland,
    FloodedForestFloodplain,
    TemperateBasin,
    TemperateBroadValley,
    BorealWetLowland,
    DesertBasin,
    MonsoonFloodplain,
    GlacialValley,
    TemperatePlain,
    SavannaPlain,
    TemperateRollingPlain,
    TemperateBroadleafPlain,
    BorealPlain,
    PolarBarrensPlain,
    TemperateHills,
    TropicalRainforestHills,
    SteppeHills,
    TemperateMixedHills,
    BorealHills,
    MediterraneanShrublandHills,
    SavannaHills,
    TropicalDryForestHills,
    SubalpineWoodedFront,
    DesertAlluvialFan,
    BorealRidgeCountry,
    AlpineRavineCountry,
    TemperatePlateau,
    TemperateEscarpmentUpland,
    MonsoonPlateau,
    DesertMesaCountry,
    SteppePlain,
    DesertPlain,
    SemiDesertPediment,
    DryShrublandBadlands,
    DryShrublandKarst,
    DesertDuneField,
    GlaciatedAlpine,
    AlpineMeadowMountain,
    CrevassedIcefield,
}

/// The family of base-heightfield parameters a region archetype starts from.
#[derive(Clone, Copy, Debug, PartialEq, Eq, Structural)]
pub enum PrototypePolicyFamily {
    MarineCoastalEdge,
    LowlandBasin,
    OpenPlain,
    HillCountry,
    PlateauEscarpment,
    AridPlain,
    DuneBody,
    AlpineHighRelief,
}

/// The policy family of each archetype.
pub open spec fn spec_policy_family(archetype: RegionArchetype) -> PrototypePolicyFamily {
    match archetype {
        RegionArchetype::OceanicShelf
        | RegionArchetype::SandyBeachPlain
        | RegionArchetype::CoastalCliffland
        | RegionArchetype::RockyShoreCoast
        | RegionArchetype::BarrierCoast
        | RegionArchetype::LagoonCoast
        | RegionArchetype::EstuaryLowland
        | RegionArchetype::CoastalDelta
        | RegionArchetype::MangroveLagoon
        | RegionArchetype::MangroveDelta
        | RegionArchetype::MonsoonDelta
        | RegionArchetype::FjordCoast => PrototypePolicyFamily::MarineCoastalEdge,
        RegionArchetype::ColdWetLowland
        | RegionArchetype::TundraPlain
        | RegionArchetype::TropicalRainforestLowland
        | RegionArchetype::MarshFloodplain
        | RegionArchetype::SwampLowland
        | RegionArchetype::FloodedForestAlluvialLowland
        | RegionArchetype::FloodedForestFloodplain
        | RegionArchetype::TemperateBasin
        | RegionArchetype::TemperateBroadValley
        | RegionArchetype::BorealWetLowland
        | RegionArchetype::DesertBasin
        | RegionArchetype::MonsoonFloodplain
        | RegionArchetype::GlacialValley => PrototypePolicyFamily::LowlandBasin,
        RegionArchetype::TemperatePlain
        | RegionArchetype::SavannaPlain
        | RegionArchetype::TemperateRollingPlain
        | RegionArchetype::TemperateBroadleafPlain
        | RegionArchetype::BorealPlain
        | RegionArchetype::PolarBarrensPlain => PrototypePolicyFamily::OpenPlain,
        RegionArchetype::TemperateHills
        | RegionArchetype::TropicalRainforestHills
        | RegionArchetype::SteppeHills
        | RegionArchetype::TemperateMixedHills
        | RegionArchetype::BorealHills
        | RegionArchetype::MediterraneanShrublandHills
        | RegionArchetype::SavannaHills
        | RegionArchetype::TropicalDryForestHills
        | RegionArchetype::SubalpineWoodedFront
        | RegionArchetype::DesertAlluvialFan
        | RegionArchetype::BorealRidgeCountry
        | RegionArchetype::AlpineRavineCountry => PrototypePolicyFamily::HillCountry,
        RegionArchetype::TemperatePlateau
        | RegionArchetype::TemperateEscarpmentUpland
        | RegionArchetype::MonsoonPlateau
        | RegionArchetype::DesertMesaCountry => PrototypePolicyFamily::PlateauEscarpment,
        RegionArchetype::SteppePlain
        | RegionArchetype::DesertPlain
        | RegionArchetype::SemiDesertPediment
        | RegionArchetype::DryShrublandBadlands
        | RegionArchetype::DryShrublandKarst => PrototypePolicyFamily::AridPlain,
        RegionArchetype::DesertDuneField => PrototypePolicyFamily::DuneBody,
        RegionArchetype::GlaciatedAlpine
        | RegionArchetype::AlpineMeadowMountain
        | RegionArchetype::CrevassedIcefield => PrototypePolicyFamily::AlpineHighRelief,
    }
}

/// The base-heightfield policy family a region archetype belongs to.
pub fn prototype_policy_family(archetype: RegionArchetype) -> (family: PrototypePolicyFamily)
    ensures
        family == spec_policy_family(archetype),
{
    match archetype {
        RegionArchetype::OceanicShelf
        | RegionArchetype::SandyBeachPlain
        | RegionArchetype::CoastalCliffland
        | RegionArchetype::RockyShoreCoast
        | RegionArchetype::BarrierCoast
        | RegionArchetype::LagoonCoast
        | RegionArchetype::EstuaryLowland
        | RegionArchetype::CoastalDelta
        | RegionArchetype::MangroveLagoon
        | RegionArchetype::MangroveDelta
        | RegionArchetype::MonsoonDelta
        | RegionArchetype::FjordCoast => PrototypePolicyFamily::MarineCoastalEdge,
        RegionArchetype::ColdWetLowland
        | RegionArchetype::TundraPlain
        | RegionArchetype::TropicalRainforestLowland
        | RegionArchetype::MarshFloodplain
        | RegionArchetype::SwampLowland
        | RegionArchetype::FloodedForestAlluvialLowland
        | RegionArchetype::FloodedForestFloodplain
        | RegionArchetype::TemperateBasin
        | RegionArchetype::TemperateBroadValley
        | RegionArchetype::BorealWetLowland
        | RegionArchetype::DesertBasin
        | RegionArchetype::MonsoonFloodplain
        | RegionArchetype::GlacialValley => PrototypePolicyFamily::LowlandBasin,
        RegionArchetype::TemperatePlain
        | RegionArchetype::SavannaPlain
        | RegionArchetype::TemperateRollingPlain
        | RegionArchetype::TemperateBroadleafPlain
        | RegionArchetype::BorealPlain
        | RegionArchetype::PolarBarrensPlain => PrototypePolicyFamily::OpenPlain,
        RegionArchetype::TemperateHills
        | RegionArchetype::TropicalRainforestHills
        | RegionArchetype::SteppeHills
        | RegionArchetype::TemperateMixedHills
        | RegionArchetype::BorealHills
        | RegionArchetype::MediterraneanShrublandHills
        | RegionArchetype::SavannaHills
        | RegionArchetype::TropicalDryForestHills
        | RegionArchetype::SubalpineWoodedFront
        | RegionArchetype::DesertAlluvialFan
        | RegionArchetype::BorealRidgeCountry
        | RegionArchetype::AlpineRavineCountry => PrototypePolicyFamily::HillCountry,
        RegionArchetype::TemperatePlateau
        | RegionArchetype::TemperateEscarpmentUpland
        | RegionArchetype::MonsoonPlateau
        | RegionArchetype::DesertMesaCountry => PrototypePolicyFamily::PlateauEscarpment,
        RegionArchetype::SteppePlain
        | RegionArchetype::DesertPlain
        | RegionArchetype::SemiDesertPediment
        | RegionArchetype::DryShrublandBadlands
        | RegionArchetype::DryShrublandKarst => PrototypePolicyFamily::AridPlain,
        RegionArchetype::DesertDuneField => PrototypePolicyFamily::DuneBody,
        RegionArchetype::GlaciatedAlpine
        | RegionArchetype::AlpineMeadowMountain
        | RegionArchetype::CrevassedIcefield => PrototypePolicyFamily::AlpineHighRelief,
    }
}

/// Output of the smoothing stage for one chunk.
#[derive(Clone, Copy, Debug, PartialEq, Eq, Structural)]
pub struct SmoothedPrototype {
    pub chunk: ChunkCoord,
    pub preserved_corridors: usize,
}

/// The smoothing result of a chunk before any corridor was preserved.
pub fn empty_smoothed_prototype(chunk: ChunkCoord) -> (prototype: SmoothedPrototype)
    ensures
        prototype.chunk == chunk,
        prototype.preserved_corridors == 0,
{
    SmoothedPrototype { chunk, preserved_corridors: 0 }
}

/// Material and seasonal policy keys chosen for voxelizing one chunk.
#[derive(Clone, Copy, Debug, PartialEq, Eq)]
pub struct VoxelizationPlan {
    pub chunk: ChunkCoord,
    pub material_policy_key: &'static str,
    pub seasonal_override_key: Option<&'static str>,
}

/// The plan of a chunk before any material policy was assigned: policy key
/// `"unassigned"`, no seasonal override.
pub fn default_voxelization_plan(chunk: ChunkCoord) -> (plan: VoxelizationPlan)
    ensures
        plan.chunk == chunk,
        plan.material_policy_key@ == "unassigned"@,
        plan.seasonal_override_key is None,
{
    VoxelizationPlan { chunk, material_policy_key: "unassigned", seasonal_override_key: None }
}

} // verus!
