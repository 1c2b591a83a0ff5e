//! Surface column plans and the noisy material breakup along material boundaries.

use vstd::prelude::*;
use vstd::string::StringSliceAdditionalSpecFns;
use vstd::wrapping::u64_specs::wrapping_mul;
use crate::graph::VoronoiSiteId;
use crate::hashing::{
    coord_bits, coord_to_bits, rotate_left_17, spec_rotate_left_17, spec_splitmix64,
    spec_stable_str_hash, splitmix64, stable_str_hash, str_eq,
};

verus! {

#[derive(Clone, Copy, Debug, PartialEq, Eq, Hash, Structural)]
pub enum SurfaceHydrologyRole {
    Ocean,
    Lake,
    River,
    Wetland,
    Coast,
    DryBasin,
    Ridge,
    Land,
}

#[derive(Clone, Copy, Debug, PartialEq, Eq)]
pub struct SurfaceBlockPalette {
    pub water: &'static str,
    pub ice: &'static str,
    pub default_top: &'static str,
    pub default_subsurface: &'static str,
    pub default_base: &'static str,
}

impl Default for SurfaceBlockPalette {
    fn default() -> (palette: Self)
        ensures
            palette.water@ == "water"@,
            palette.ice@ == "ice"@,
            palette.default_top@ == "grass"@,
            palette.default_subsurface@ == "dirt"@,
            palette.default_base@ == "stone"@,
    {
        SurfaceBlockPalette {
            water: "water",
            ice: "ice",
            default_top: "grass",
            default_subsurface: "dirt",
            default_base: "stone",
        }
    }
}

/// Integer settings of the surface planner: the seed, soil depths and the
/// boundary breakup radius and strength.
#[derive(Clone, Copy, Debug, PartialEq, Eq)]
pub struct SurfacePlanConfig {
    pub seed: u64,
    pub generator_version: u32,
    pub default_soil_depth_blocks: u8,
    pub shallow_soil_depth_blocks: u8,
    pub deep_soil_depth_blocks: u8,
    pub boundary_mix_radius_blocks: u8,
    pub boundary_mix_strength_percent: u8,
    pub palette: SurfaceBlockPalette,
}

impl SurfacePlanConfig {
    pub fn new(seed: u64, generator_version: u32) -> (config: Self)
        ensures
            config.seed == seed,
            config.generator_version == generator_version,
            config.default_soil_depth_blocks == 3,
            config.shallow_soil_depth_blocks == 1,
            config.deep_soil_depth_blocks == 5,
            config.boundary_mix_radius_blocks == 1,
            config.boundary_mix_strength_percent == 28,
            config.palette.water@ == "water"@,
            config.palette.ice@ == "ice"@,
            config.palette.default_top@ == "grass"@,
            config.palette.default_subsurface@ == "dirt"@,
            config.palette.default_base@ == "stone"@,
    {
        SurfacePlanConfig {
            seed,
            generator_version,
            default_soil_depth_blocks: 3,
            shallow_soil_depth_blocks: 1,
            deep_soil_depth_blocks: 5,
            boundary_mix_radius_blocks: 1,
            boundary_mix_strength_percent: 28,
            palette: SurfaceBlockPalette::default(),
        }
    }
}

impl Default for SurfacePlanConfig {
    /// Seed 0, generator version 1.
    fn default() -> (config: Self)
        ensures
            config.seed == 0,
            config.generator_version == 1,
            config.default_soil_depth_blocks == 3,
            config.shallow_soil_depth_blocks == 1,
            config.deep_soil_depth_blocks == 5,
            config.boundary_mix_radius_blocks == 1,
            config.boundary_mix_strength_percent == 28,
            config.palette.water@ == "water"@,
            config.palette.ice@ == "ice"@,
            config.palette.default_top@ == "grass"@,
            config.palette.default_subsurface@ == "dirt"@,
            config.palette.default_base@ == "stone"@,
    {
        SurfacePlanConfig::new(0, 1)
    }
}

#[derive(Clone, Copy, Debug, PartialEq, Eq)]
pub struct SurfaceColumnPlan {
    pub world_x: i32,
    pub world_z: i32,
    pub surface_y: i32,
    pub water_y: Option<i32>,
    pub hydrology_role: SurfaceHydrologyRole,
    pub top_block: &'static str,
    pub subsurface_block: &'static str,
    pub base_block: &'static str,
    pub underwater_top_block: &'static str,
    pub exposed_block: &'static str,
    pub sediment_block: &'static str,
    pub soil_depth_blocks: u8,
    pub vegetation_allowed: bool,
    pub cover_phase: u8,
}

/// The macro owner (nearest Voronoi site) of a surface column, when known.
#[derive(Clone, Copy, Debug, PartialEq, Eq)]
pub struct SurfaceMixSource {
    pub owner_site: Option<VoronoiSiteId>,
}

#[derive(Clone, Copy, Debug, PartialEq, Eq)]
pub struct SurfacePlanAreaStats {
    pub column_count: usize,
    pub ocean_column_count: usize,
    pub lake_column_count: usize,
    pub river_column_count: usize,
    pub wetland_column_count: usize,
    pub coast_column_count: usize,
    pub dry_basin_column_count: usize,
    pub ridge_column_count: usize,
    pub land_column_count: usize,
    pub water_column_count: usize,
    pub exposed_column_count: usize,
    pub vegetation_allowed_count: usize,
}

/// A row-major `width * height` area of surface column plans.
#[derive(Clone, Debug)]
pub struct SurfacePlanArea {
    pub width: u32,
    pub height: u32,
    pub columns: Vec<SurfaceColumnPlan>,
    pub stats: SurfacePlanAreaStats,
    pub config: SurfacePlanConfig,
}

impl SurfacePlanArea {
    /// The column at `(x, z)`, or `None` outside the area or past the stored columns.
    pub fn column(&self, x: u32, z: u32) -> (column: Option<&SurfaceColumnPlan>)
        requires
            z as int * self.width as int + x as int <= usize::MAX,
        ensures
            column == if x < self.width && z < self.height && z * self.width + x < self.columns.len() {
                Some(&self.columns@[z * self.width + x])
            } else {
                None::<&SurfaceColumnPlan>
            },
    {
        if x >= self.width || z >= self.height {
            return None;
        }
        let index: usize = z as usize * self.width as usize + x as usize;
        if index < self.columns.len() {
            Some(&self.columns[index])
        } else {
            None
        }
    }
}

/// The visual material fields of `target` replaced by those of `source`; soil
/// keeps the thinner depth and vegetation is allowed only where both allow it.
pub open spec fn spec_copy_visual(target: SurfaceColumnPlan, source: SurfaceColumnPlan) -> SurfaceColumnPlan {
    SurfaceColumnPlan {
        top_block: source.top_block,
        subsurface_block: source.subsurface_block,
        underwater_top_block: source.underwater_top_block,
        exposed_block: source.exposed_block,
        sediment_block: source.sediment_block,
        soil_depth_blocks: if target.soil_depth_blocks <= source.soil_depth_blocks {
            target.soil_depth_blocks
        } else {
            source.soil_depth_blocks
        },
        vegetation_allowed: target.vegetation_allowed && source.vegetation_allowed,
        cover_phase: source.cover_phase,
        ..target
    }
}

/// The visual material fields of `target` reset to those of `source`.
pub open spec fn spec_restore_visual(target: SurfaceColumnPlan, source: SurfaceColumnPlan) -> SurfaceColumnPlan {
    SurfaceColumnPlan {
        top_block: source.top_block,
        subsurface_block: source.subsurface_block,
        underwater_top_block: source.underwater_top_block,
        exposed_block: source.exposed_block,
        sediment_block: source.sediment_block,
        soil_depth_blocks: source.soil_depth_blocks,
        vegetation_allowed: source.vegetation_allowed,
        cover_phase: source.cover_phase,
        ..target
    }
}

pub fn copy_visual_material(target: &mut SurfaceColumnPlan, source: SurfaceColumnPlan)
    ensures
        *final(target) == spec_copy_visual(*old(target), source),
{
    target.top_block = source.top_block;
    target.subsurface_block = source.subsurface_block;
    target.underwater_top_block = source.underwater_top_block;
    target.exposed_block = source.exposed_block;
    target.sediment_block = source.sediment_block;
    if source.soil_depth_blocks < target.soil_depth_blocks {
        target.soil_depth_blocks = source.soil_depth_blocks;
    }
    target.vegetation_allowed = target.vegetation_allowed && source.vegetation_allowed;
    target.cover_phase = source.cover_phase;
}

pub fn restore_visual_material(target: &mut SurfaceColumnPlan, source: SurfaceColumnPlan)
    ensures
        *final(target) == spec_restore_visual(*old(target), source),
{
    target.top_block = source.top_block;
    target.subsurface_block = source.subsurface_block;
    target.underwater_top_block = source.underwater_top_block;
    target.exposed_block = source.exposed_block;
    target.sediment_block = source.sediment_block;
    target.soil_depth_blocks = source.soil_depth_blocks;
    target.vegetation_allowed = source.vegetation_allowed;
    target.cover_phase = source.cover_phase;
}

/// Open water columns (ocean, lake, river) only mix with columns of the same role.
pub open spec fn spec_protected_water_role(role: SurfaceHydrologyRole) -> bool {
    role == SurfaceHydrologyRole::Ocean || role == SurfaceHydrologyRole::Lake || role
        == SurfaceHydrologyRole::River
}

pub fn protected_water_role(role: SurfaceHydrologyRole) -> (protected: bool)
    ensures
        protected == spec_protected_water_role(role),
{
    match role {
        SurfaceHydrologyRole::Ocean | SurfaceHydrologyRole::Lake | SurfaceHydrologyRole::River => true,
        _ => false,
    }
}

/// A column with no water surface over it.
pub open spec fn spec_is_non_water_owner_surface_column(column: SurfaceColumnPlan) -> bool {
    column.water_y is None
}

pub fn is_non_water_owner_surface_column(column: SurfaceColumnPlan) -> (dry: bool)
    ensures
        dry == spec_is_non_water_owner_surface_column(column),
{
    column.water_y.is_none()
}

/// Seed and generator version folded into the high and low words of a hash input.
pub open spec fn config_bits(config: SurfacePlanConfig) -> u64 {
    config.seed ^ ((config.generator_version as u64) << 32u64)
}

fn config_to_bits(config: SurfacePlanConfig) -> (bits: u64)
    ensures
        bits == config_bits(config),
{
    config.seed ^ ((config.generator_version as u64) << 32u64)
}

/// Order key of a column: material may only step from a column to one whose
/// key is smaller, so two columns never trade materials with each other.
pub open spec fn spec_boundary_mix_endpoint_key(column: SurfaceColumnPlan, config: SurfacePlanConfig) -> u64 {
    spec_splitmix64(
        config_bits(config) ^ wrapping_mul(coord_bits(column.world_x), 0xD1B5_4A32_D192_ED03u64)
            ^ wrapping_mul(coord_bits(column.world_z), 0x94D0_49BB_1331_11EBu64) ^ spec_stable_str_hash(
            column.top_block,
        ) ^ spec_rotate_left_17(spec_stable_str_hash(column.subsurface_block))
            ^ 0xC6BC_2796_92B5_CC83u64,
    )
}

pub fn boundary_mix_endpoint_key(column: SurfaceColumnPlan, config: SurfacePlanConfig) -> (key: u64)
    ensures
        key == spec_boundary_mix_endpoint_key(column, config),
{
    splitmix64(
        config_to_bits(config) ^ coord_to_bits(column.world_x).wrapping_mul(0xD1B5_4A32_D192_ED03)
            ^ coord_to_bits(column.world_z).wrapping_mul(0x94D0_49BB_1331_11EB) ^ stable_str_hash(
            column.top_block,
        ) ^ rotate_left_17(stable_str_hash(column.subsurface_block)) ^ 0xC6BC_2796_92B5_CC83,
    )
}

pub open spec fn spec_boundary_mix_direction_allows(
    current: SurfaceColumnPlan,
    neighbor: SurfaceColumnPlan,
    config: SurfacePlanConfig,
) -> bool {
    spec_boundary_mix_endpoint_key(current, config) < spec_boundary_mix_endpoint_key(neighbor, config)
}

/// Material may flow into `current` from `neighbor` only when `current`'s key is the smaller.
pub fn boundary_mix_direction_allows(
    current: SurfaceColumnPlan,
    neighbor: SurfaceColumnPlan,
    config: SurfacePlanConfig,
) -> (allows: bool)
    ensures
        allows == spec_boundary_mix_direction_allows(current, neighbor, config),
{
    boundary_mix_endpoint_key(current, config) < boundary_mix_endpoint_key(neighbor, config)
}

/// Owner sites of two columns are both known and differ.
pub open spec fn sites_differ(a: Option<SurfaceMixSource>, b: Option<SurfaceMixSource>) -> bool {
    &&& a matches Some(sa) && sa.owner_site is Some
    &&& b matches Some(sb) && sb.owner_site is Some
    &&& a.unwrap().owner_site.unwrap() != b.unwrap().owner_site.unwrap()
}

/// `neighbor` may lend its material to `current`: the tops differ, the owner
/// sites do not (when both are known), both or neither are under water, and
/// open water only mixes with the same kind of open water.
pub open spec fn spec_mix_candidate_allowed_with_sources(
    current: SurfaceColumnPlan,
    neighbor: SurfaceColumnPlan,
    current_source: Option<SurfaceMixSource>,
    neighbor_source: Option<SurfaceMixSource>,
) -> bool {
    &&& current.top_block@ != neighbor.top_block@
    &&& !sites_differ(current_source, neighbor_source)
    &&& (current.water_y is Some) == (neighbor.water_y is Some)
    &&& (spec_protected_water_role(current.hydrology_role) || spec_protected_water_role(
        neighbor.hydrology_role,
    )) ==> current.hydrology_role == neighbor.hydrology_role
}

pub fn mix_candidate_allowed_with_sources(
    current: SurfaceColumnPlan,
    neighbor: SurfaceColumnPlan,
    current_source: Option<SurfaceMixSource>,
    neighbor_source: Option<SurfaceMixSource>,
) -> (allowed: bool)
    ensures
        allowed == spec_mix_candidate_allowed_with_sources(current, neighbor, current_source, neighbor_source),
{
    if str_eq(current.top_block, neighbor.top_block) {
        return false;
    }
    if let (Some(cs), Some(ns)) = (current_source, neighbor_source) {
        if let (Some(current_site), Some(neighbor_site)) = (cs.owner_site, ns.owner_site) {
            if current_site.0 != neighbor_site.0 {
                return false;
            }
        }
    }
    if current.water_y.is_some() != neighbor.water_y.is_some() {
        return false;
    }
    if protected_water_role(current.hydrology_role) || protected_water_role(neighbor.hydrology_role) {
        return current.hydrology_role == neighbor.hydrology_role;
    }
    true
}

/// Chance, in percent, that a column at Manhattan `distance` takes the candidate's
/// material: full strength next to the boundary, falling off linearly to the radius.
pub open spec fn spec_boundary_mix_strength(distance: usize, radius: usize, config: SurfacePlanConfig) -> u8 {
    let radius = if radius < 1 { 1int } else { radius as int };
    let reach = if distance < 1 { 0int } else { distance - 1 };
    let falloff_raw = if radius - reach < 0 { 0int } else { radius - reach };
    let falloff = if falloff_raw < 1 { 1int } else { falloff_raw };
    let strength = config.boundary_mix_strength_percent * falloff / radius;
    if strength < 1 {
        1
    } else if strength > 100 {
        100
    } else {
        strength as u8
    }
}

pub fn boundary_mix_strength(distance: usize, radius: usize, config: SurfacePlanConfig) -> (strength: u8)
    requires
        radius <= 255,
    ensures
        strength == spec_boundary_mix_strength(distance, radius, config),
        1 <= strength <= 100,
{
    let radius: usize = if radius < 1 { 1 } else { radius };
    let reach: usize = if distance < 1 { 0 } else { distance - 1 };
    let falloff_raw: usize = if radius < reach { 0 } else { radius - reach };
    let falloff: usize = if falloff_raw < 1 { 1 } else { falloff_raw };
    assert((config.boundary_mix_strength_percent as int) * (falloff as int) <= 255 * 255) by (nonlinear_arith)
        requires config.boundary_mix_strength_percent <= 255, falloff <= 255;
    let strength: u16 = (config.boundary_mix_strength_percent as u16) * (falloff as u16) / (radius as u16);
    if strength < 1 {
        1
    } else if strength > 100 {
        100
    } else {
        strength as u8
    }
}

/// Deterministic roll in `0..100` for the column at `(world_x, world_z)` taking `source_top_block`.
pub open spec fn spec_boundary_mix_roll(
    world_x: i32,
    world_z: i32,
    source_top_block: &str,
    config: SurfacePlanConfig,
) -> u8 {
    (spec_splitmix64(
        config_bits(config) ^ wrapping_mul(coord_bits(world_x), 0xD6E8_FD93_56A6_1C53u64)
            ^ wrapping_mul(coord_bits(world_z), 0xA076_1D64_78BD_642Fu64) ^ spec_stable_str_hash(
            source_top_block,
        ) ^ 0xB0B0_51A7_E5AA_1234u64,
    ) % 100) as u8
}

pub fn boundary_mix_roll(
    world_x: i32,
    world_z: i32,
    source_top_block: &'static str,
    config: SurfacePlanConfig,
) -> (roll: u8)
    ensures
        roll == spec_boundary_mix_roll(world_x, world_z, source_top_block, config),
        roll < 100,
{
    let value = config_to_bits(config) ^ coord_to_bits(world_x).wrapping_mul(0xD6E8_FD93_56A6_1C53)
        ^ coord_to_bits(world_z).wrapping_mul(0xA076_1D64_78BD_642F) ^ stable_str_hash(source_top_block)
        ^ 0xB0B0_51A7_E5AA_1234;
    (splitmix64(value) % 100) as u8
}

/// Tie breaker between equally distant candidates; the smaller value wins.
pub open spec fn spec_boundary_candidate_tie_breaker(
    current: SurfaceColumnPlan,
    neighbor: SurfaceColumnPlan,
    config: SurfacePlanConfig,
) -> u64 {
    spec_splitmix64(
        config_bits(config) ^ wrapping_mul(coord_bits(current.world_x), 0x94D0_49BB_1331_11EBu64)
            ^ wrapping_mul(coord_bits(current.world_z), 0xBF58_476D_1CE4_E5B9u64) ^ spec_stable_str_hash(
            neighbor.top_block,
        ),
    )
}

pub fn boundary_candidate_tie_breaker(
    current: SurfaceColumnPlan,
    neighbor: SurfaceColumnPlan,
    config: SurfacePlanConfig,
) -> (tie: u64)
    ensures
        tie == spec_boundary_candidate_tie_breaker(current, neighbor, config),
{
    splitmix64(
        config_to_bits(config) ^ coord_to_bits(current.world_x).wrapping_mul(0x94D0_49BB_1331_11EB)
            ^ coord_to_bits(current.world_z).wrapping_mul(0xBF58_476D_1CE4_E5B9) ^ stable_str_hash(
            neighbor.top_block,
        ),
    )
}

/// Deterministic variant in `0..100` of a material family at a column.
pub open spec fn spec_material_variant(world_x: i32, world_z: i32, config: SurfacePlanConfig, family: &str) -> u8 {
    (spec_splitmix64(
        config_bits(config) ^ wrapping_mul(coord_bits(world_x), 0x9E37_79B9_7F4A_7C15u64) ^ wrapping_mul(
            coord_bits(world_z),
            0xC2B2_AE3D_27D4_EB4Fu64,
        ) ^ spec_stable_str_hash(family),
    ) % 100) as u8
}

pub fn material_variant(world_x: i32, world_z: i32, config: SurfacePlanConfig, family: &'static str) -> (variant: u8)
    ensures
        variant == spec_material_variant(world_x, world_z, config, family),
        variant < 100,
{
    let value = config_to_bits(config) ^ coord_to_bits(world_x).wrapping_mul(0x9E37_79B9_7F4A_7C15)
        ^ coord_to_bits(world_z).wrapping_mul(0xC2B2_AE3D_27D4_EB4F) ^ stable_str_hash(family);
    (splitmix64(value) % 100) as u8
}

/// Owner source of column `i`, when sources are present for every column.
pub open spec fn source_at(sources: Option<Seq<SurfaceMixSource>>, i: int) -> Option<SurfaceMixSource> {
    match sources {
        Some(s) => if 0 <= i < s.len() {
            Some(s[i])
        } else {
            None
        },
        None => None,
    }
}

/// Sources are used only when there is one for every column.
pub open spec fn effective_sources(sources: Option<Seq<SurfaceMixSource>>, count: int) -> Option<Seq<SurfaceMixSource>> {
    match sources {
        Some(s) => if s.len() == count {
            Some(s)
        } else {
            None
        },
        None => None,
    }
}

pub open spec fn abs_diff(a: int, b: int) -> int {
    if a >= b {
        a - b
    } else {
        b - a
    }
}

/// Manhattan distance between cells `i` and `j` of a row-major grid `width` wide.
pub open spec fn grid_distance(i: int, j: int, width: int) -> int {
    abs_diff(i % width, j % width) + abs_diff(i / width, j / width)
}

/// Column `j` may lend its material to column `i`: a different cell of the
/// grid within the mixing radius, with the larger boundary key, and allowed by
/// the material, owner site, water and role rules.
pub open spec fn is_mix_candidate(
    original: Seq<SurfaceColumnPlan>,
    sources: Option<Seq<SurfaceMixSource>>,
    width: int,
    height: int,
    radius: int,
    config: SurfacePlanConfig,
    i: int,
    j: int,
) -> bool {
    &&& 0 <= j < width * height
    &&& j != i
    &&& grid_distance(i, j, width) <= radius
    &&& mix_rules_allow(original, sources, config, i, j)
}

/// The boundary key order and the mixing rules let column `j` lend to column `i`.
#[verifier::opaque]
pub open spec fn mix_rules_allow(
    original: Seq<SurfaceColumnPlan>,
    sources: Option<Seq<SurfaceMixSource>>,
    config: SurfacePlanConfig,
    i: int,
    j: int,
) -> bool {
    &&& spec_boundary_mix_direction_allows(original[i], original[j], config)
    &&& spec_mix_candidate_allowed_with_sources(
        original[i],
        original[j],
        source_at(sources, i),
        source_at(sources, j),
    )
}

/// Candidate `a` is preferred over candidate `b` for column `i`: nearer, then
/// smaller tie breaker, then earlier in row-major order.
pub open spec fn mix_candidate_precedes(
    original: Seq<SurfaceColumnPlan>,
    width: int,
    config: SurfacePlanConfig,
    i: int,
    a: int,
    b: int,
) -> bool {
    let da = grid_distance(i, a, width);
    let db = grid_distance(i, b, width);
    let ta = spec_boundary_candidate_tie_breaker(original[i], original[a], config);
    let tb = spec_boundary_candidate_tie_breaker(original[i], original[b], config);
    da < db || (da == db && ta < tb) || (da == db && ta == tb && a <= b)
}

/// `j` is the preferred candidate for column `i`.
pub open spec fn is_best_mix_candidate(
    original: Seq<SurfaceColumnPlan>,
    sources: Option<Seq<SurfaceMixSource>>,
    width: int,
    height: int,
    radius: int,
    config: SurfacePlanConfig,
    i: int,
    j: int,
) -> bool {
    &&& is_mix_candidate(original, sources, width, height, radius, config, i, j)
    &&& forall|m: int|
        #[trigger] is_mix_candidate(original, sources, width, height, radius, config, i, m)
            ==> mix_candidate_precedes(original, width, config, i, j, m)
}

/// There is at most one preferred candidate.
pub proof fn lemma_best_mix_candidate_unique(
    original: Seq<SurfaceColumnPlan>,
    sources: Option<Seq<SurfaceMixSource>>,
    width: int,
    height: int,
    radius: int,
    config: SurfacePlanConfig,
    i: int,
    a: int,
    b: int,
)
    requires
        is_best_mix_candidate(original, sources, width, height, radius, config, i, a),
        is_best_mix_candidate(original, sources, width, height, radius, config, i, b),
    ensures
        a == b,
{
    assert(mix_candidate_precedes(original, width, config, i, a, b));
    assert(mix_candidate_precedes(original, width, config, i, b, a));
}

/// Column `i` after the breakup pass, before owner swaps are undone: it takes
/// the material of its preferred candidate when the roll falls under the
/// strength for the candidate's distance, and keeps its own otherwise.
pub open spec fn spec_mixed_column(
    original: Seq<SurfaceColumnPlan>,
    sources: Option<Seq<SurfaceMixSource>>,
    width: int,
    height: int,
    config: SurfacePlanConfig,
    i: int,
) -> SurfaceColumnPlan {
    let radius = config.boundary_mix_radius_blocks as int;
    if 0 <= i < width * height && exists|j: int|
        is_best_mix_candidate(original, sources, width, height, radius, config, i, j) {
        let j = choose|j: int| is_best_mix_candidate(original, sources, width, height, radius, config, i, j);
        let strength = spec_boundary_mix_strength(grid_distance(i, j, width) as usize, radius as usize, config);
        let roll = spec_boundary_mix_roll(original[i].world_x, original[i].world_z, original[j].top_block, config);
        if roll < strength {
            spec_copy_visual(original[i], original[j])
        } else {
            original[i]
        }
    } else {
        original[i]
    }
}

/// Material of the columns at `a` and `b` is exchanged across an owner-site boundary.
pub open spec fn spec_cross_owner_swap(
    columns: Seq<SurfaceColumnPlan>,
    original: Seq<SurfaceColumnPlan>,
    sources: Seq<SurfaceMixSource>,
    a: int,
    b: int,
) -> bool {
    &&& sources[a].owner_site is Some
    &&& sources[b].owner_site is Some
    &&& sources[a].owner_site.unwrap() != sources[b].owner_site.unwrap()
    &&& original[a].top_block@ != original[b].top_block@
    &&& columns[a].top_block@ == original[b].top_block@
    &&& columns[b].top_block@ == original[a].top_block@
}

/// Undoes an exchange between `a` and `b`, if there is one.
pub open spec fn spec_restore_pair(
    columns: Seq<SurfaceColumnPlan>,
    original: Seq<SurfaceColumnPlan>,
    sources: Seq<SurfaceMixSource>,
    a: int,
    b: int,
) -> Seq<SurfaceColumnPlan> {
    if spec_cross_owner_swap(columns, original, sources, a, b) {
        columns.update(a, spec_restore_visual(columns[a], original[a])).update(
            b,
            spec_restore_visual(columns[b], original[b]),
        )
    } else {
        columns
    }
}

/// Checks cell `i` against its east and then its south neighbour.
pub open spec fn spec_restore_step(
    columns: Seq<SurfaceColumnPlan>,
    original: Seq<SurfaceColumnPlan>,
    sources: Seq<SurfaceMixSource>,
    width: int,
    height: int,
    i: int,
) -> Seq<SurfaceColumnPlan> {
    let east = if i % width + 1 < width {
        spec_restore_pair(columns, original, sources, i, i + 1)
    } else {
        columns
    };
    if i / width + 1 < height {
        spec_restore_pair(east, original, sources, i, i + width)
    } else {
        east
    }
}

/// The restore pass after it has visited cells `0..count` in row-major order.
pub open spec fn spec_restore_prefix(
    columns: Seq<SurfaceColumnPlan>,
    original: Seq<SurfaceColumnPlan>,
    sources: Seq<SurfaceMixSource>,
    width: int,
    height: int,
    count: nat,
) -> Seq<SurfaceColumnPlan>
    decreases count,
{
    if count == 0 {
        columns
    } else {
        spec_restore_step(
            spec_restore_prefix(columns, original, sources, width, height, (count - 1) as nat),
            original,
            sources,
            width,
            height,
            count - 1,
        )
    }
}

pub fn is_cross_owner_boundary_swap(
    columns: &Vec<SurfaceColumnPlan>,
    original: &Vec<SurfaceColumnPlan>,
    mix_sources: &Vec<SurfaceMixSource>,
    left_index: usize,
    right_index: usize,
) -> (swap: bool)
    requires
        left_index < columns.len(),
        right_index < columns.len(),
        left_index < original.len(),
        right_index < original.len(),
        left_index < mix_sources.len(),
        right_index < mix_sources.len(),
    ensures
        swap == spec_cross_owner_swap(columns@, original@, mix_sources@, left_index as int, right_index as int),
{
    let (left_site, right_site) = match (mix_sources[left_index].owner_site, mix_sources[right_index].owner_site) {
        (Some(l), Some(r)) => (l, r),
        _ => {
            return false;
        },
    };
    if left_site.0 == right_site.0 {
        return false;
    }
    let left_base = original[left_index];
    let right_base = original[right_index];
    if str_eq(left_base.top_block, right_base.top_block) {
        return false;
    }
    let left_final = columns[left_index];
    let right_final = columns[right_index];
    str_eq(left_final.top_block, right_base.top_block) && str_eq(right_final.top_block, left_base.top_block)
}

/// The sources a caller passes, as a sequence when present.
pub open spec fn sources_view(sources: Option<&Vec<SurfaceMixSource>>) -> Option<Seq<SurfaceMixSource>> {
    match sources {
        Some(v) => Some(v@),
        None => None,
    }
}

/// Cell `j` comes before position `(nx, nz)` in row-major scan order.
pub open spec fn scanned_before(j: int, width: int, nz: int, nx: int) -> bool {
    j / width < nz || (j / width == nz && j % width < nx)
}

/// The tie breaker of column `j` as a lender to `current`, or `None` when the
/// boundary key order or the mixing rules rule it out.
fn evaluate_mix_candidate(
    columns: &Vec<SurfaceColumnPlan>,
    mix_sources: Option<&Vec<SurfaceMixSource>>,
    current: SurfaceColumnPlan,
    current_source: Option<SurfaceMixSource>,
    config: SurfacePlanConfig,
    i: Ghost<int>,
    j: usize,
) -> (tie: Option<u64>)
    requires
        j < columns.len(),
        0 <= i@ < columns.len(),
        current == columns@[i@],
        current_source == source_at(sources_view(mix_sources), i@),
        mix_sources matches Some(v) ==> v.len() == columns.len(),
    ensures
        tie is Some <==> mix_rules_allow(columns@, sources_view(mix_sources), config, i@, j as int),
        tie matches Some(t) ==> t == spec_boundary_candidate_tie_breaker(current, columns@[j as int], config),
{
    reveal(mix_rules_allow);
    let neighbor = columns[j];
    let neighbor_source = match mix_sources {
        Some(sources) => Some(sources[j]),
        None => None,
    };
    if boundary_mix_direction_allows(current, neighbor, config) && mix_candidate_allowed_with_sources(
        current,
        neighbor,
        current_source,
        neighbor_source,
    ) {
        Some(boundary_candidate_tie_breaker(current, neighbor, config))
    } else {
        None
    }
}

/// The preferred column to lend material to the column at `(x, z)`, with its
/// Manhattan distance; `None` when no column within the radius qualifies.
pub fn nearest_mix_candidate(
    columns: &Vec<SurfaceColumnPlan>,
    mix_sources: Option<&Vec<SurfaceMixSource>>,
    width: usize,
    height: usize,
    x: usize,
    z: usize,
    radius: usize,
    current: SurfaceColumnPlan,
    current_source: Option<SurfaceMixSource>,
    config: SurfacePlanConfig,
) -> (best: Option<(SurfaceColumnPlan, usize)>)
    requires
        width * height <= columns.len(),
        x < width,
        z < height,
        radius <= 255,
        x + radius <= usize::MAX,
        z + radius <= usize::MAX,
        current == columns@[z * width + x],
        current_source == source_at(sources_view(mix_sources), z * width + x),
        mix_sources matches Some(v) ==> v.len() == columns.len(),
    ensures
        best is None <==> !exists|j: int|
            #[trigger] is_mix_candidate(
                columns@,
                sources_view(mix_sources),
                width as int,
                height as int,
                radius as int,
                config,
                z * width + x,
                j,
            ),
        best matches Some(b) ==> exists|j: int|
            #[trigger] is_best_mix_candidate(
                columns@,
                sources_view(mix_sources),
                width as int,
                height as int,
                radius as int,
                config,
                z * width + x,
                j,
            ) && b.0 == columns@[j] && b.1 == grid_distance(z * width + x, j, width as int),
{
    let ghost w = width as int;
    let ghost h = height as int;
    let ghost r = radius as int;
    let ghost srcs = sources_view(mix_sources);
    let ghost orig = columns@;
    let ghost i = z * width + x;
    proof {
        crate::atlas_fields::lemma_index_coords(x as int, z as int, w);
        crate::atlas_fields::lemma_index_in_grid(x as int, z as int, w, h);
    }
    let mut best: Option<(SurfaceColumnPlan, usize, u64)> = None;
    let ghost mut best_index: int = 0;
    let min_x: usize = if x >= radius { x - radius } else { 0 };
    let max_x: usize = if x + radius < width { x + radius } else { width - 1 };
    let min_z: usize = if z >= radius { z - radius } else { 0 };
    let max_z: usize = if z + radius < height { z + radius } else { height - 1 };
    let mut nz: usize = min_z;
    while nz <= max_z
        invariant
            width * height <= columns.len(),
            mix_sources matches Some(v) ==> v.len() == columns.len(),
            current == columns@[z * width + x],
            current_source == source_at(sources_view(mix_sources), z * width + x),
            w == width,
            h == height,
            r == radius,
            radius <= 255,
            srcs == sources_view(mix_sources),
            orig == columns@,
            i == z * width + x,
            i % w == x,
            i / w == z,
            0 <= i < w * h,
            x < width,
            z < height,
            min_z <= nz <= max_z + 1,
            max_z < height,
            max_x < width,
            min_x == if x >= radius { x - radius } else { 0 },
            max_x == if x + radius < width { x + radius } else { width - 1 },
            min_z == if z >= radius { z - radius } else { 0 },
            max_z == if z + radius < height { z + radius } else { height - 1 },
            best is None ==> forall|j: int|
                #[trigger] is_mix_candidate(orig, srcs, w, h, r, config, i, j) ==> !scanned_before(j, w, nz as int, 0),
            best matches Some(b) ==> {
                &&& is_mix_candidate(orig, srcs, w, h, r, config, i, best_index)
                &&& scanned_before(best_index, w, nz as int, 0)
                &&& b.0 == orig[best_index]
                &&& b.1 == grid_distance(i, best_index, w)
                &&& b.2 == spec_boundary_candidate_tie_breaker(orig[i], orig[best_index], config)
                &&& forall|m: int|
                    #[trigger] is_mix_candidate(orig, srcs, w, h, r, config, i, m) && scanned_before(m, w, nz as int, 0)
                        ==> mix_candidate_precedes(orig, w, config, i, best_index, m)
            },
        decreases max_z + 1 - nz,
    {
        let mut nx: usize = min_x;
        while nx <= max_x
            invariant
                width * height <= columns.len(),
                mix_sources matches Some(v) ==> v.len() == columns.len(),
                current == columns@[z * width + x],
                current_source == source_at(sources_view(mix_sources), z * width + x),
                w == width,
                h == height,
                r == radius,
                radius <= 255,
                srcs == sources_view(mix_sources),
                orig == columns@,
                i == z * width + x,
                i % w == x,
                i / w == z,
                0 <= i < w * h,
                x < width,
                z < height,
                min_z <= nz <= max_z,
                max_z < height,
                min_x <= nx <= max_x + 1,
                max_x < width,
                min_x == if x >= radius { x - radius } else { 0 },
                max_x == if x + radius < width { x + radius } else { width - 1 },
                min_z == if z >= radius { z - radius } else { 0 },
                max_z == if z + radius < height { z + radius } else { height - 1 },
                best is None ==> forall|j: int|
                    #[trigger] is_mix_candidate(orig, srcs, w, h, r, config, i, j) ==> !scanned_before(
                        j,
                        w,
                        nz as int,
                        nx as int,
                    ),
                best matches Some(b) ==> {
                    &&& is_mix_candidate(orig, srcs, w, h, r, config, i, best_index)
                    &&& scanned_before(best_index, w, nz as int, nx as int)
                    &&& b.0 == orig[best_index]
                    &&& b.1 == grid_distance(i, best_index, w)
                    &&& b.2 == spec_boundary_candidate_tie_breaker(orig[i], orig[best_index], config)
                    &&& forall|m: int|
                        #[trigger] is_mix_candidate(orig, srcs, w, h, r, config, i, m) && scanned_before(
                            m,
                            w,
                            nz as int,
                            nx as int,
                        ) ==> mix_candidate_precedes(orig, w, config, i, best_index, m)
                },
            decreases max_x + 1 - nx,
        {
            proof {
                crate::atlas_fields::lemma_index_coords(nx as int, nz as int, w);
                crate::atlas_fields::lemma_index_in_grid(nx as int, nz as int, w, h);
            }
            let j: usize = nz * width + nx;
            let ghost old_best = best;
            let ghost old_best_index = best_index;
            if nx != x || nz != z {
                let dx: usize = if nx >= x { nx - x } else { x - nx };
                let dz: usize = if nz >= z { nz - z } else { z - nz };
                let distance: usize = dx + dz;
                if distance != 0 && distance <= radius {
                    proof {
                        assert(grid_distance(i, j as int, w) == distance);
                    }
                    match evaluate_mix_candidate(columns, mix_sources, current, current_source, config, Ghost(i), j) {
                        Some(tie) => {
                            let replace = match best {
                                Some((_, best_distance, best_tie)) => distance < best_distance || (distance
                                    == best_distance && tie < best_tie),
                                None => true,
                            };
                            proof {
                                assert(is_mix_candidate(orig, srcs, w, h, r, config, i, j as int));
                                crate::atlas_fields::lemma_index_split(old_best_index, w);
                            }
                            if replace {
                                best = Some((columns[j], distance, tie));
                                proof {
                                    best_index = j as int;
                                    assert forall|m: int|
                                        #[trigger] is_mix_candidate(orig, srcs, w, h, r, config, i, m) && scanned_before(
                                            m,
                                            w,
                                            nz as int,
                                            nx + 1,
                                        ) implies mix_candidate_precedes(orig, w, config, i, best_index, m) by {
                                        crate::atlas_fields::lemma_index_split(m, w);
                                        if m != j {
                                            assert(scanned_before(m, w, nz as int, nx as int));
                                            assert(mix_candidate_precedes(orig, w, config, i, old_best_index, m));
                                        }
                                    }
                                }
                            } else {
                                proof {
                                    let q = old_best_index / w;
                                    let rem = old_best_index % w;
                                    assert(old_best_index == q * w + rem);
                                    assert(q < nz || (q == nz && rem < nx));
                                    assert(old_best_index < j) by (nonlinear_arith)
                                        requires
                                            old_best_index == q * w + rem,
                                            0 <= rem < w,
                                            q < nz || (q == nz && rem < nx),
                                            j == nz * w + nx;
                                    assert forall|m: int|
                                        #[trigger] is_mix_candidate(orig, srcs, w, h, r, config, i, m) && scanned_before(
                                            m,
                                            w,
                                            nz as int,
                                            nx + 1,
                                        ) implies mix_candidate_precedes(orig, w, config, i, best_index, m) by {
                                        crate::atlas_fields::lemma_index_split(m, w);
                                        if m != j {
                                            assert(scanned_before(m, w, nz as int, nx as int));
                                        }
                                    }
                                }
                            }
                        },
                        None => {
                            proof {
                                assert(!is_mix_candidate(orig, srcs, w, h, r, config, i, j as int));
                            }
                        },
                    }
                }
            }
            proof {
                assert(forall|m: int| #[trigger] scanned_before(m, w, nz as int, nx + 1) <==> (scanned_before(m, w, nz as int, nx as int) || m == j)) by {
                    assert forall|m: int| #[trigger] scanned_before(m, w, nz as int, nx + 1) <==> (scanned_before(m, w, nz as int, nx as int) || m == j) by {
                        crate::atlas_fields::lemma_index_split(m, w);
                    }
                }
            }
            nx = nx + 1;
        }
        proof {
            assert forall|m: int|
                #[trigger] is_mix_candidate(orig, srcs, w, h, r, config, i, m) implies (scanned_before(m, w, nz + 1, 0)
                    <==> scanned_before(m, w, nz as int, nx as int)) by {
                crate::atlas_fields::lemma_index_split(m, w);
            }
        }
        nz = nz + 1;
    }
    proof {
        assert forall|m: int|
            #[trigger] is_mix_candidate(orig, srcs, w, h, r, config, i, m) implies scanned_before(m, w, nz as int, 0) by {
            crate::atlas_fields::lemma_index_split(m, w);
            crate::atlas_fields::lemma_row_bound(m, w, h);
        }
        if best is Some {
            assert(is_best_mix_candidate(orig, srcs, w, h, r, config, i, best_index));
        }
    }
    match best {
        Some((neighbor, distance, _)) => Some((neighbor, distance)),
        None => None,
    }
}

/// Every column after the breakup pass, before owner swaps are undone.
pub open spec fn spec_mixed_columns(
    original: Seq<SurfaceColumnPlan>,
    sources: Option<Seq<SurfaceMixSource>>,
    width: int,
    height: int,
    config: SurfacePlanConfig,
) -> Seq<SurfaceColumnPlan> {
    Seq::new(original.len(), |i: int| spec_mixed_column(original, sources, width, height, config, i))
}

/// The mixing pass is skipped outright for empty input or a zero radius or strength.
pub open spec fn boundary_mixing_skipped(count: int, width: int, height: int, config: SurfacePlanConfig) -> bool {
    count == 0 || width == 0 || height == 0 || config.boundary_mix_radius_blocks == 0
        || config.boundary_mix_strength_percent == 0
}

/// The columns after the whole boundary breakup: the mixing pass and then,
/// when owner sources cover every column, the restore pass over the grid.
pub open spec fn spec_boundary_mixing(
    columns: Seq<SurfaceColumnPlan>,
    width: int,
    height: int,
    config: SurfacePlanConfig,
    sources: Option<Seq<SurfaceMixSource>>,
) -> Seq<SurfaceColumnPlan> {
    if boundary_mixing_skipped(columns.len() as int, width, height, config) {
        columns
    } else {
        let used = effective_sources(sources, columns.len() as int);
        let mixed = spec_mixed_columns(columns, used, width, height, config);
        match used {
            Some(s) => spec_restore_prefix(mixed, columns, s, width, height, (width * height) as nat),
            None => mixed,
        }
    }
}

/// Undoes every exchange of materials between edge-sharing columns that belong
/// to different owner sites, visiting the grid in row-major order.
pub fn restore_cross_owner_boundary_swaps(
    columns: &mut Vec<SurfaceColumnPlan>,
    original: &Vec<SurfaceColumnPlan>,
    width: usize,
    height: usize,
    mix_sources: Option<&Vec<SurfaceMixSource>>,
)
    requires
        effective_sources(sources_view(mix_sources), original.len() as int) is Some ==> width * height
            <= original.len() && width * height <= old(columns).len(),
    ensures
        final(columns)@ == match effective_sources(sources_view(mix_sources), original.len() as int) {
            Some(s) => spec_restore_prefix(old(columns)@, original@, s, width as int, height as int, (width
                * height) as nat),
            None => old(columns)@,
        },
{
    let sources = match mix_sources {
        Some(v) => if v.len() == original.len() {
            v
        } else {
            return ;
        },
        None => {
            return ;
        },
    };
    let ghost w = width as int;
    let ghost h = height as int;
    let ghost start = columns@;
    let ghost s = sources@;
    let count: usize = width * height;
    let mut index: usize = 0;
    while index < count
        invariant
            count == w * h,
            w == width,
            h == height,
            count <= original.len(),
            sources.len() == original.len(),
            s == sources@,
            columns.len() == start.len(),
            count <= start.len(),
            index <= count,
            columns@ == spec_restore_prefix(start, original@, s, w, h, index as nat),
        decreases count - index,
    {
        let x: usize = index % width;
        let z: usize = index / width;
        proof {
            crate::atlas_fields::lemma_index_split(index as int, w);
            crate::atlas_fields::lemma_row_bound(index as int, w, h);
        }
        let ghost before = columns@;
        if x + 1 < width {
            proof {
                crate::atlas_fields::lemma_index_in_grid(x + 1, z as int, w, h);
            }
            let east: usize = index + 1;
            if is_cross_owner_boundary_swap(columns, original, sources, index, east) {
                let mut left = columns[index];
                restore_visual_material(&mut left, original[index]);
                columns.set(index, left);
                let mut right = columns[east];
                restore_visual_material(&mut right, original[east]);
                columns.set(east, right);
            }
        }
        let ghost after_east = columns@;
        proof {
            assert(after_east == if (index as int) % w + 1 < w {
                spec_restore_pair(before, original@, s, index as int, index + 1)
            } else {
                before
            });
        }
        if z + 1 < height {
            proof {
                crate::atlas_fields::lemma_index_in_grid(x as int, z + 1, w, h);
                assert((z + 1) * w + x == index + w) by (nonlinear_arith)
                    requires index == z * w + x;
            }
            let south: usize = index + width;
            if is_cross_owner_boundary_swap(columns, original, sources, index, south) {
                let mut upper = columns[index];
                restore_visual_material(&mut upper, original[index]);
                columns.set(index, upper);
                let mut lower = columns[south];
                restore_visual_material(&mut lower, original[south]);
                columns.set(south, lower);
            }
        }
        proof {
            assert(columns@ =~= spec_restore_step(before, original@, s, w, h, index as int));
        }
        index = index + 1;
    }
}

/// Breaks up hard material boundaries: each column may take the visual
/// material of its preferred lender within the mixing radius with a chance
/// that falls off with distance, after which exchanges across owner-site
/// boundaries are undone. Heights, water and roles are never touched.
pub fn apply_noisy_boundary_mixing(
    columns: &mut Vec<SurfaceColumnPlan>,
    width: usize,
    height: usize,
    config: SurfacePlanConfig,
    mix_sources: Option<&Vec<SurfaceMixSource>>,
)
    requires
        !boundary_mixing_skipped(old(columns).len() as int, width as int, height as int, config) ==> {
            &&& width * height <= old(columns).len()
            &&& width + 255 <= usize::MAX
            &&& height + 255 <= usize::MAX
        },
    ensures
        final(columns)@ == spec_boundary_mixing(
            old(columns)@,
            width as int,
            height as int,
            config,
            sources_view(mix_sources),
        ),
{
    if columns.len() == 0 || width == 0 || height == 0 || config.boundary_mix_radius_blocks == 0
        || config.boundary_mix_strength_percent == 0 {
        return ;
    }
    let ghost w = width as int;
    let ghost h = height as int;
    let mut original: Vec<SurfaceColumnPlan> = Vec::new();
    let mut k: usize = 0;
    while k < columns.len()
        invariant
            k <= columns.len(),
            original@ =~= columns@.subrange(0, k as int),
        decreases columns.len() - k,
    {
        original.push(columns[k]);
        k = k + 1;
    }
    proof {
        assert(original@ =~= columns@);
    }
    let used: Option<&Vec<SurfaceMixSource>> = match mix_sources {
        Some(v) => if v.len() == original.len() {
            Some(v)
        } else {
            None
        },
        None => None,
    };
    let ghost srcs = sources_view(used);
    assert(srcs == effective_sources(sources_view(mix_sources), original.len() as int));
    let radius: usize = config.boundary_mix_radius_blocks as usize;
    let count: usize = width * height;
    let mut index: usize = 0;
    while index < count
        invariant
            count == w * h,
            w == width,
            h == height,
            w + 255 <= usize::MAX,
            h + 255 <= usize::MAX,
            count <= original.len(),
            columns.len() == original.len(),
            radius == config.boundary_mix_radius_blocks,
            used matches Some(v) ==> v.len() == original.len(),
            srcs == sources_view(used),
            index <= count,
            forall|q: int|
                0 <= q < index ==> #[trigger] columns@[q] == spec_mixed_column(original@, srcs, w, h, config, q),
            forall|q: int| index <= q < columns.len() ==> #[trigger] columns@[q] == original@[q],
        decreases count - index,
    {
        let x: usize = index % width;
        let z: usize = index / width;
        proof {
            crate::atlas_fields::lemma_index_split(index as int, w);
            crate::atlas_fields::lemma_row_bound(index as int, w, h);
        }
        let current = original[index];
        let current_source = match used {
            Some(v) => Some(v[index]),
            None => None,
        };
        let candidate = nearest_mix_candidate(
            &original,
            used,
            width,
            height,
            x,
            z,
            radius,
            current,
            current_source,
            config,
        );
        let ghost i = index as int;
        match candidate {
            Some((neighbor, distance)) => {
                let strength = boundary_mix_strength(distance, radius, config);
                let roll = boundary_mix_roll(current.world_x, current.world_z, neighbor.top_block, config);
                proof {
                    let j = choose|j: int|
                        #[trigger] is_best_mix_candidate(original@, srcs, w, h, radius as int, config, i, j)
                            && neighbor == original@[j] && distance == grid_distance(i, j, w);
                    let jj = choose|jj: int| is_best_mix_candidate(original@, srcs, w, h, radius as int, config, i, jj);
                    lemma_best_mix_candidate_unique(original@, srcs, w, h, radius as int, config, i, j, jj);
                }
                if roll < strength {
                    let mut mixed = columns[index];
                    copy_visual_material(&mut mixed, neighbor);
                    columns.set(index, mixed);
                }
            },
            None => {
                proof {
                    assert(!exists|j: int| is_best_mix_candidate(original@, srcs, w, h, radius as int, config, i, j));
                }
            },
        }
        index = index + 1;
    }
    proof {
        assert(columns@ =~= spec_mixed_columns(original@, srcs, w, h, config));
    }
    restore_cross_owner_boundary_swaps(columns, &original, width, height, used);
}

/// `after` agrees with `before` except that some columns had their visual
/// material reset to that of `original`.
pub open spec fn only_restored(
    before: Seq<SurfaceColumnPlan>,
    after: Seq<SurfaceColumnPlan>,
    original: Seq<SurfaceColumnPlan>,
) -> bool {
    &&& after.len() == before.len()
    &&& forall|k: int|
        0 <= k < after.len() ==> #[trigger] after[k] == before[k] || after[k] == spec_restore_visual(
            before[k],
            original[k],
        )
}

/// Position, height, water, role and base block of a column.
pub open spec fn same_layout(a: SurfaceColumnPlan, b: SurfaceColumnPlan) -> bool {
    &&& a.world_x == b.world_x
    &&& a.world_z == b.world_z
    &&& a.surface_y == b.surface_y
    &&& a.water_y == b.water_y
    &&& a.hydrology_role == b.hydrology_role
    &&& a.base_block == b.base_block
}

proof fn lemma_only_restored_trans(
    a: Seq<SurfaceColumnPlan>,
    b: Seq<SurfaceColumnPlan>,
    c: Seq<SurfaceColumnPlan>,
    original: Seq<SurfaceColumnPlan>,
)
    requires
        only_restored(a, b, original),
        only_restored(b, c, original),
    ensures
        only_restored(a, c, original),
{
    assert forall|k: int| 0 <= k < c.len() implies #[trigger] c[k] == a[k] || c[k] == spec_restore_visual(
        a[k],
        original[k],
    ) by {
        assert(b[k] == a[k] || b[k] == spec_restore_visual(a[k], original[k]));
    }
}

/// An exchange that is absent stays absent when columns are only reset.
proof fn lemma_no_swap_persists(
    before: Seq<SurfaceColumnPlan>,
    after: Seq<SurfaceColumnPlan>,
    original: Seq<SurfaceColumnPlan>,
    sources: Seq<SurfaceMixSource>,
    a: int,
    b: int,
)
    requires
        only_restored(before, after, original),
        0 <= a < before.len(),
        0 <= b < before.len(),
        !spec_cross_owner_swap(before, original, sources, a, b),
    ensures
        !spec_cross_owner_swap(after, original, sources, a, b),
{
    assert(after[a] == before[a] || after[a] == spec_restore_visual(before[a], original[a]));
    assert(after[b] == before[b] || after[b] == spec_restore_visual(before[b], original[b]));
}

proof fn lemma_restore_pair_effect(
    columns: Seq<SurfaceColumnPlan>,
    original: Seq<SurfaceColumnPlan>,
    sources: Seq<SurfaceMixSource>,
    a: int,
    b: int,
)
    requires
        0 <= a < columns.len(),
        0 <= b < columns.len(),
        a != b,
    ensures
        only_restored(columns, spec_restore_pair(columns, original, sources, a, b), original),
        !spec_cross_owner_swap(spec_restore_pair(columns, original, sources, a, b), original, sources, a, b),
{
}

/// After the restore pass has visited cells `0..count`, no visited cell has
/// exchanged material with its east or south neighbour across an owner boundary,
/// and the pass has done nothing but reset columns.
proof fn lemma_restore_prefix_no_swaps(
    columns: Seq<SurfaceColumnPlan>,
    original: Seq<SurfaceColumnPlan>,
    sources: Seq<SurfaceMixSource>,
    width: int,
    height: int,
    count: nat,
)
    requires
        width > 0,
        height >= 0,
        count <= width * height,
        width * height <= columns.len(),
    ensures
        only_restored(columns, spec_restore_prefix(columns, original, sources, width, height, count), original),
        forall|a: int, b: int|
            0 <= a < count && ((a % width + 1 < width && b == a + 1) || (a / width + 1 < height && b == a
                + width)) ==> !#[trigger] spec_cross_owner_swap(
                spec_restore_prefix(columns, original, sources, width, height, count),
                original,
                sources,
                a,
                b,
            ),
    decreases count,
{
    if count > 0 {
        let n = count - 1;
        lemma_restore_prefix_no_swaps(columns, original, sources, width, height, n as nat);
        let prev = spec_restore_prefix(columns, original, sources, width, height, n as nat);
        crate::atlas_fields::lemma_index_split(n, width);
        crate::atlas_fields::lemma_row_bound(n, width, height);
        let east = if n % width + 1 < width {
            crate::atlas_fields::lemma_index_in_grid(n % width + 1, n / width, width, height);
            lemma_restore_pair_effect(prev, original, sources, n, n + 1);
            spec_restore_pair(prev, original, sources, n, n + 1)
        } else {
            prev
        };
        assert(only_restored(prev, east, original));
        let next = if n / width + 1 < height {
            crate::atlas_fields::lemma_index_in_grid(n % width, n / width + 1, width, height);
            assert((n / width + 1) * width + n % width == n + width) by (nonlinear_arith)
                requires n == (n / width) * width + n % width;
            lemma_restore_pair_effect(east, original, sources, n, n + width);
            spec_restore_pair(east, original, sources, n, n + width)
        } else {
            east
        };
        assert(next == spec_restore_prefix(columns, original, sources, width, height, count));
        lemma_only_restored_trans(prev, east, next, original);
        lemma_only_restored_trans(columns, prev, next, original);
        assert forall|a: int, b: int|
            0 <= a < count && ((a % width + 1 < width && b == a + 1) || (a / width + 1 < height && b == a
                + width)) implies !#[trigger] spec_cross_owner_swap(next, original, sources, a, b) by {
            crate::atlas_fields::lemma_index_split(a, width);
            crate::atlas_fields::lemma_row_bound(a, width, height);
            if a % width + 1 < width && b == a + 1 {
                crate::atlas_fields::lemma_index_in_grid(a % width + 1, a / width, width, height);
            } else {
                crate::atlas_fields::lemma_index_in_grid(a % width, a / width + 1, width, height);
                assert((a / width + 1) * width + a % width == a + width) by (nonlinear_arith)
                    requires a == (a / width) * width + a % width;
            }
            if a < n {
                lemma_no_swap_persists(prev, next, original, sources, a, b);
            } else if a % width + 1 < width && b == a + 1 {
                lemma_no_swap_persists(east, next, original, sources, a, b);
            }
        }
    }
}

/// Boundary mixing never moves a column, changes its height, its water
/// surface, its hydrology role or its base block; every column either keeps
/// its own material or takes that of a lender within the mixing radius that
/// the owner-site, water and role rules allow.
pub proof fn lemma_boundary_mixing_keeps_layout(
    columns: Seq<SurfaceColumnPlan>,
    width: int,
    height: int,
    config: SurfacePlanConfig,
    sources: Option<Seq<SurfaceMixSource>>,
    i: int,
)
    requires
        0 <= i < columns.len(),
        width >= 0,
        height >= 0,
        width * height <= columns.len(),
    ensures
        spec_boundary_mixing(columns, width, height, config, sources).len() == columns.len(),
        same_layout(spec_boundary_mixing(columns, width, height, config, sources)[i], columns[i]),
        spec_boundary_mixing(columns, width, height, config, sources)[i] == columns[i] || exists|j: int|
            is_mix_candidate(
                columns,
                effective_sources(sources, columns.len() as int),
                width,
                height,
                config.boundary_mix_radius_blocks as int,
                config,
                i,
                j,
            ) && #[trigger] spec_boundary_mixing(columns, width, height, config, sources)[i] == spec_copy_visual(
                columns[i],
                columns[j],
            ),
{
    if !boundary_mixing_skipped(columns.len() as int, width, height, config) {
        let used = effective_sources(sources, columns.len() as int);
        let mixed = spec_mixed_columns(columns, used, width, height, config);
        let radius = config.boundary_mix_radius_blocks as int;
        assert(mixed[i] == columns[i] || exists|j: int|
            is_mix_candidate(columns, used, width, height, radius, config, i, j) && mixed[i]
                == spec_copy_visual(columns[i], columns[j]));
        if let Some(s) = used {
            lemma_restore_prefix_no_swaps(mixed, columns, s, width, height, (width * height) as nat);
            let fin = spec_restore_prefix(mixed, columns, s, width, height, (width * height) as nat);
            assert(fin[i] == mixed[i] || fin[i] == spec_restore_visual(mixed[i], columns[i]));
            if fin[i] != mixed[i] {
                assert(fin[i] == columns[i]);
            }
        }
    }
}

/// After boundary mixing with owner sources for every column, no two
/// edge-sharing columns of different owner sites have exchanged top materials.
pub proof fn lemma_boundary_mixing_no_cross_owner_swap(
    columns: Seq<SurfaceColumnPlan>,
    width: int,
    height: int,
    config: SurfacePlanConfig,
    sources: Seq<SurfaceMixSource>,
    a: int,
    b: int,
)
    requires
        sources.len() == columns.len(),
        width > 0,
        height > 0,
        width * height <= columns.len(),
        config.boundary_mix_radius_blocks > 0,
        config.boundary_mix_strength_percent > 0,
        0 <= a < width * height,
        (a % width + 1 < width && b == a + 1) || (a / width + 1 < height && b == a + width),
    ensures
        !spec_cross_owner_swap(
            spec_boundary_mixing(columns, width, height, config, Some(sources)),
            columns,
            sources,
            a,
            b,
        ),
{
    let mixed = spec_mixed_columns(columns, Some(sources), width, height, config);
    lemma_restore_prefix_no_swaps(mixed, columns, sources, width, height, (width * height) as nat);
}

/// Material never flows both ways: if `j` may lend to `i`, then `i` may not lend to `j`.
pub proof fn lemma_mix_candidates_one_way(
    original: Seq<SurfaceColumnPlan>,
    sources: Option<Seq<SurfaceMixSource>>,
    width: int,
    height: int,
    radius: int,
    config: SurfacePlanConfig,
    i: int,
    j: int,
)
    requires
        is_mix_candidate(original, sources, width, height, radius, config, i, j),
    ensures
        !is_mix_candidate(original, sources, width, height, radius, config, j, i),
{
    reveal(mix_rules_allow);
}

/// After the breakup, every column either keeps its materials or shows those
/// of a column within the mixing radius that has water exactly when it has,
/// with a different top, the larger boundary key, an owner site that is not
/// known to differ, and the same role wherever either is open water.
pub proof fn lemma_boundary_mixing_respects_rules(
    columns: Seq<SurfaceColumnPlan>,
    width: int,
    height: int,
    config: SurfacePlanConfig,
    sources: Option<Seq<SurfaceMixSource>>,
    i: int,
)
    requires
        0 <= i < columns.len(),
        width >= 0,
        height >= 0,
        width * height <= columns.len(),
    ensures
        ({
            let out = spec_boundary_mixing(columns, width, height, config, sources);
            let used = effective_sources(sources, columns.len() as int);
            out[i] == columns[i] || exists|j: int|
                #![trigger columns[j]]
                0 <= j < width * height && j != i && grid_distance(i, j, width)
                    <= config.boundary_mix_radius_blocks && (columns[j].water_y is Some) == (columns[i].water_y
                    is Some) && columns[j].top_block@ != columns[i].top_block@
                    && spec_boundary_mix_direction_allows(columns[i], columns[j], config) && !sites_differ(
                    source_at(used, i),
                    source_at(used, j),
                ) && ((spec_protected_water_role(columns[i].hydrology_role) || spec_protected_water_role(
                    columns[j].hydrology_role,
                )) ==> columns[i].hydrology_role == columns[j].hydrology_role) && out[i] == spec_copy_visual(
                    columns[i],
                    columns[j],
                )
        }),
{
    reveal(mix_rules_allow);
    lemma_boundary_mixing_keeps_layout(columns, width, height, config, sources, i);
}

/// `value` held in `1..=100`.
pub open spec fn percent_clamp(value: int) -> int {
    if value < 1 {
        1
    } else if value > 100 {
        100
    } else {
        value
    }
}

/// The chance a column takes a lender's material: the configured strength
/// (held in `1..=100`) next to the boundary, scaled down linearly by
/// `max(1, radius - (distance - 1)) / radius` further away, never above the
/// configured strength and never rising with distance.
pub proof fn lemma_mix_strength_falloff(distance: usize, far: usize, radius: usize, config: SurfacePlanConfig)
    requires
        distance <= far,
    ensures
        ({
            let p = config.boundary_mix_strength_percent as int;
            let r: int = if radius < 1 { 1 } else { radius as int };
            let f: int = if r - (distance - 1) < 1 { 1 } else { r - (distance - 1) };
            let s = spec_boundary_mix_strength(distance, radius, config) as int;
            &&& distance >= 1 ==> s == percent_clamp(p * f / r)
            &&& distance <= 1 ==> s == percent_clamp(p)
            &&& 1 <= s <= 100
            &&& s <= percent_clamp(p)
            &&& spec_boundary_mix_strength(far, radius, config) <= s
        }),
{
    let p = config.boundary_mix_strength_percent as int;
    let r: int = if radius < 1 { 1 } else { radius as int };
    let reach_d: int = if distance < 1 { 0 } else { distance - 1 };
    let reach_f: int = if far < 1 { 0 } else { far - 1 };
    let fd: int = if r - reach_d < 1 { 1 } else { r - reach_d };
    let ff: int = if r - reach_f < 1 { 1 } else { r - reach_f };
    assert(1 <= ff <= fd <= r);
    assert(p * ff <= p * fd) by (nonlinear_arith)
        requires 0 <= p, ff <= fd;
    assert(p * fd <= p * r) by (nonlinear_arith)
        requires 0 <= p, fd <= r;
    vstd::arithmetic::div_mod::lemma_div_is_ordered(p * ff, p * fd, r);
    vstd::arithmetic::div_mod::lemma_div_is_ordered(p * fd, p * r, r);
    vstd::arithmetic::div_mod::lemma_div_multiples_vanish(p, r);
    vstd::arithmetic::mul::lemma_mul_is_commutative(p, r);
    if distance <= 1 {
        assert(fd == r);
    }
}

/// A breakup pass changes a column only by copying its preferred lender, and
/// only when the column's roll for the lender's top falls below the
/// configured strength (held in `1..=100`).
pub proof fn lemma_mixed_column_needs_roll_under_strength(
    original: Seq<SurfaceColumnPlan>,
    sources: Option<Seq<SurfaceMixSource>>,
    width: int,
    height: int,
    config: SurfacePlanConfig,
    i: int,
)
    requires
        spec_mixed_column(original, sources, width, height, config, i) != original[i],
    ensures
        exists|j: int|
            is_best_mix_candidate(original, sources, width, height, config.boundary_mix_radius_blocks as int, config, i, j)
                && (spec_boundary_mix_roll(original[i].world_x, original[i].world_z, original[j].top_block, config) as int)
                < percent_clamp(config.boundary_mix_strength_percent as int) && spec_mixed_column(
                original,
                sources,
                width,
                height,
                config,
                i,
            ) == spec_copy_visual(original[i], original[j]),
{
    let radius = config.boundary_mix_radius_blocks as int;
    let j = choose|j: int| is_best_mix_candidate(original, sources, width, height, radius, config, i, j);
    let d = grid_distance(i, j, width) as usize;
    lemma_mix_strength_falloff(d, d, radius as usize, config);
}

} // verus!
