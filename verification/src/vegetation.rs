//! Placement of small rock props on sandy and riverside surface columns.

use vstd::prelude::*;
use crate::coord::WorldBlockCoord;
use crate::hashing::{rock_placement_seed, spec_rock_placement_seed, str_eq};
use crate::surface_plan::{SurfaceColumnPlan, SurfaceHydrologyRole, SurfacePlanArea};

verus! {

/// Counters of one placement pass.
#[derive(Clone, Copy, Debug, PartialEq, Eq, Structural)]
pub struct SurfaceFeaturePlanStats {
    pub candidate_column_count: usize,
    pub placement_count: usize,
    pub skipped_water_column_count: usize,
    pub skipped_non_target_surface_count: usize,
}

impl Default for SurfaceFeaturePlanStats {
    fn default() -> (stats: Self)
        ensures
            stats.candidate_column_count == 0,
            stats.placement_count == 0,
            stats.skipped_water_column_count == 0,
            stats.skipped_non_target_surface_count == 0,
    {
        SurfaceFeaturePlanStats {
            candidate_column_count: 0,
            placement_count: 0,
            skipped_water_column_count: 0,
            skipped_non_target_surface_count: 0,
        }
    }
}

/// What a placement puts down.
#[derive(Clone, Copy, Debug, PartialEq, Eq)]
pub enum SurfaceFeatureRef {
    Prop { prop_key: &'static str },
}

/// One placed surface feature.
#[derive(Clone, Copy, Debug, PartialEq, Eq)]
pub struct SurfaceFeaturePlacement {
    pub anchor: WorldBlockCoord,
    pub feature: SurfaceFeatureRef,
    pub footprint_radius_blocks: u8,
    pub placement_seed: u64,
    pub quarter_turns: u8,
}

/// The placements of a pass and its counters.
#[derive(Clone, Debug, PartialEq, Eq)]
pub struct SurfaceFeaturePlan {
    pub placements: Vec<SurfaceFeaturePlacement>,
    pub stats: SurfaceFeaturePlanStats,
}

/// Seed, density (percent of candidate columns) and prop choices of a rock pass.
#[derive(Clone, Debug, PartialEq, Eq)]
pub struct RockFeaturePlacementConfig {
    pub seed: u64,
    pub density_percent: u8,
    pub prop_keys: &'static [&'static str],
}

impl Default for RockFeaturePlacementConfig {
    fn default() -> (config: Self)
        ensures
            config.seed == 0,
            config.density_percent == 4,
            config.prop_keys@.len() == 4,
            config.prop_keys@[0]@ == "rock_pebble_1x1x1"@,
            config.prop_keys@[1]@ == "rock_flat_2x2x1"@,
            config.prop_keys@[2]@ == "rock_stacked_2x2x1_plus_1"@,
            config.prop_keys@[3]@ == "rock_low_cluster_4x3"@,
    {
        let prop_keys: &'static [&'static str] = &[
            "rock_pebble_1x1x1",
            "rock_flat_2x2x1",
            "rock_stacked_2x2x1_plus_1",
            "rock_low_cluster_4x3",
        ];
        RockFeaturePlacementConfig { seed: 0, density_percent: 4, prop_keys }
    }
}

/// Whether a column with this role, top and sediment may carry a rock prop.
pub open spec fn spec_is_rock_surface(role: SurfaceHydrologyRole, top: Seq<char>, sediment: Seq<char>) -> bool {
    match role {
        SurfaceHydrologyRole::Coast => top == "sand"@ || top == "wet_sand"@ || top == "gravel"@,
        SurfaceHydrologyRole::River => top == "sand"@ || top == "wet_sand"@ || top == "gravel"@ || top
            == "wet_gravel"@ || top == "silt"@ || sediment == "gravel"@ || sediment == "silt"@,
        SurfaceHydrologyRole::Land | SurfaceHydrologyRole::DryBasin => top == "sand"@ || top
            == "wet_sand"@ || top == "red_sand"@ || top == "gravel"@,
        SurfaceHydrologyRole::Ocean
        | SurfaceHydrologyRole::Lake
        | SurfaceHydrologyRole::Wetland
        | SurfaceHydrologyRole::Ridge => false,
    }
}

/// Coasts of sand or gravel, riverside sand, gravel or silt (top or sediment),
/// and dry land or basins topped with sand or gravel take rock props.
pub fn is_sandy_or_riverside_rock_surface(
    role: SurfaceHydrologyRole,
    top_block: &str,
    sediment_block: &str,
) -> (target: bool)
    ensures
        target == spec_is_rock_surface(role, top_block@, sediment_block@),
{
    match role {
        SurfaceHydrologyRole::Coast => str_eq(top_block, "sand") || str_eq(top_block, "wet_sand")
            || str_eq(top_block, "gravel"),
        SurfaceHydrologyRole::River => str_eq(top_block, "sand") || str_eq(top_block, "wet_sand")
            || str_eq(top_block, "gravel") || str_eq(top_block, "wet_gravel") || str_eq(
            top_block,
            "silt",
        ) || str_eq(sediment_block, "gravel") || str_eq(sediment_block, "silt"),
        SurfaceHydrologyRole::Land | SurfaceHydrologyRole::DryBasin => str_eq(top_block, "sand")
            || str_eq(top_block, "wet_sand") || str_eq(top_block, "red_sand") || str_eq(
            top_block,
            "gravel",
        ),
        SurfaceHydrologyRole::Ocean
        | SurfaceHydrologyRole::Lake
        | SurfaceHydrologyRole::Wetland
        | SurfaceHydrologyRole::Ridge => false,
    }
}

/// The density actually used: at most every column.
pub open spec fn effective_density(config: RockFeaturePlacementConfig) -> u8 {
    if config.density_percent > 100 {
        100
    } else {
        config.density_percent
    }
}

/// A dry column whose surface takes rock props.
pub open spec fn is_rock_candidate(column: SurfaceColumnPlan) -> bool {
    column.water_y is None && spec_is_rock_surface(
        column.hydrology_role,
        column.top_block@,
        column.sediment_block@,
    )
}

/// A column under water.
pub open spec fn is_water_column(column: SurfaceColumnPlan) -> bool {
    column.water_y.is_some()
}

/// A dry column whose surface takes no rock props.
pub open spec fn is_non_target_column(column: SurfaceColumnPlan) -> bool {
    column.water_y.is_none() && !is_rock_candidate(column)
}

/// A candidate column whose roll falls under the density.
pub open spec fn rolls_rock(column: SurfaceColumnPlan, config: RockFeaturePlacementConfig) -> bool {
    is_rock_candidate(column) && spec_rock_placement_seed(config.seed, column.world_x, column.world_z)
        % 100 < effective_density(config)
}

/// `value + 1`, held at `i32::MAX`.
pub open spec fn saturating_succ(value: i32) -> i32 {
    if value == i32::MAX {
        i32::MAX
    } else {
        (value + 1) as i32
    }
}

/// The prop placed on a column that rolled a rock: anchored on top of the
/// surface, prop chosen by seed bits 8 and up, quarter turns by bits 24-25.
pub open spec fn spec_rock_placement(column: SurfaceColumnPlan, config: RockFeaturePlacementConfig) -> SurfaceFeaturePlacement {
    let seed = spec_rock_placement_seed(config.seed, column.world_x, column.world_z);
    SurfaceFeaturePlacement {
        anchor: WorldBlockCoord(column.world_x, saturating_succ(column.surface_y), column.world_z),
        feature: SurfaceFeatureRef::Prop {
            prop_key: config.prop_keys@[(((seed as usize) >> 8usize) % (config.prop_keys@.len() as usize)) as int],
        },
        footprint_radius_blocks: 1,
        placement_seed: seed,
        quarter_turns: ((seed >> 24u64) & 3u64) as u8,
    }
}

/// Placements of the columns, in column order.
pub open spec fn spec_rock_placements(columns: Seq<SurfaceColumnPlan>, config: RockFeaturePlacementConfig) -> Seq<SurfaceFeaturePlacement>
    decreases columns.len(),
{
    if columns.len() == 0 {
        Seq::empty()
    } else {
        let before = spec_rock_placements(columns.drop_last(), config);
        if rolls_rock(columns.last(), config) {
            before.push(spec_rock_placement(columns.last(), config))
        } else {
            before
        }
    }
}

/// Number of columns that satisfy `pred`.
pub open spec fn count_columns(columns: Seq<SurfaceColumnPlan>, pred: spec_fn(SurfaceColumnPlan) -> bool) -> nat
    decreases columns.len(),
{
    if columns.len() == 0 {
        0
    } else {
        count_columns(columns.drop_last(), pred) + if pred(columns.last()) {
            1nat
        } else {
            0nat
        }
    }
}

/// Whether the pass is off: zero density or no props to choose from.
pub open spec fn rock_pass_disabled(config: RockFeaturePlacementConfig) -> bool {
    effective_density(config) == 0 || config.prop_keys@.len() == 0
}

/// The plan the pass produces for these columns.
pub open spec fn spec_rock_plan_matches(
    plan: SurfaceFeaturePlan,
    columns: Seq<SurfaceColumnPlan>,
    config: RockFeaturePlacementConfig,
) -> bool {
    if rock_pass_disabled(config) {
        &&& plan.placements@.len() == 0
        &&& plan.stats.candidate_column_count == 0
        &&& plan.stats.placement_count == 0
        &&& plan.stats.skipped_water_column_count == 0
        &&& plan.stats.skipped_non_target_surface_count == 0
    } else {
        &&& plan.placements@ == spec_rock_placements(columns, config)
        &&& plan.stats.placement_count == plan.placements@.len()
        &&& plan.stats.skipped_water_column_count == count_columns(
            columns,
            |c: SurfaceColumnPlan| is_water_column(c),
        )
        &&& plan.stats.skipped_non_target_surface_count == count_columns(
            columns,
            |c: SurfaceColumnPlan| is_non_target_column(c),
        )
        &&& plan.stats.candidate_column_count == count_columns(columns, |c: SurfaceColumnPlan| is_rock_candidate(c))
    }
}

proof fn lemma_count_bound(columns: Seq<SurfaceColumnPlan>, pred: spec_fn(SurfaceColumnPlan) -> bool)
    ensures
        count_columns(columns, pred) <= columns.len(),
    decreases columns.len(),
{
    if columns.len() > 0 {
        lemma_count_bound(columns.drop_last(), pred);
    }
}

/// Places rock props on the dry sandy, gravelly and riverside columns of an
/// area, each candidate independently with probability `density_percent`
/// (capped at 100) by its column seed.
pub fn generate_rock_feature_placements(
    area: &SurfacePlanArea,
    config: RockFeaturePlacementConfig,
) -> (plan: SurfaceFeaturePlan)
    ensures
        spec_rock_plan_matches(plan, area.columns@, config),
{
    let mut placements: Vec<SurfaceFeaturePlacement> = Vec::new();
    let mut stats = SurfaceFeaturePlanStats::default();
    let density: u8 = if config.density_percent > 100 {
        100
    } else {
        config.density_percent
    };
    if density == 0 || config.prop_keys.len() == 0 {
        return SurfaceFeaturePlan { placements, stats };
    }
    let ghost cols = area.columns@;
    let ghost is_water = |c: SurfaceColumnPlan| is_water_column(c);
    let ghost is_other = |c: SurfaceColumnPlan| is_non_target_column(c);
    let ghost is_candidate = |c: SurfaceColumnPlan| is_rock_candidate(c);
    let mut index: usize = 0;
    while index < area.columns.len()
        invariant
            cols == area.columns@,
            is_water == (|c: SurfaceColumnPlan| is_water_column(c)),
            is_other == (|c: SurfaceColumnPlan| is_non_target_column(c)),
            is_candidate == (|c: SurfaceColumnPlan| is_rock_candidate(c)),
            index <= cols.len(),
            density == effective_density(config),
            density > 0,
            config.prop_keys@.len() > 0,
            placements@ == spec_rock_placements(cols.take(index as int), config),
            stats.skipped_water_column_count == count_columns(cols.take(index as int), is_water),
            stats.skipped_non_target_surface_count == count_columns(cols.take(index as int), is_other),
            stats.candidate_column_count == count_columns(cols.take(index as int), is_candidate),
            stats.placement_count == 0,
        decreases cols.len() - index,
    {
        let column = &area.columns[index];
        let ghost prefix = cols.take(index as int);
        let ghost next = cols.take(index + 1);
        proof {
            assert(next.drop_last() =~= prefix);
            assert(next.last() == cols[index as int]);
            lemma_count_bound(prefix, is_water);
            lemma_count_bound(prefix, is_other);
            lemma_count_bound(prefix, is_candidate);
        }
        if column.water_y.is_some() {
            stats.skipped_water_column_count = stats.skipped_water_column_count.saturating_add(1);
        } else if !is_sandy_or_riverside_rock_surface(
            column.hydrology_role,
            column.top_block,
            column.sediment_block,
        ) {
            stats.skipped_non_target_surface_count = stats.skipped_non_target_surface_count.saturating_add(1);
        } else {
            stats.candidate_column_count = stats.candidate_column_count.saturating_add(1);
            let placement_seed = rock_placement_seed(config.seed, column.world_x, column.world_z);
            if ((placement_seed % 100) as u8) < density {
                let seed_bits: usize = #[verifier::truncate] (placement_seed as usize);
                let shifted: usize = seed_bits >> 8usize;
                let prop_index = shifted % config.prop_keys.len();
                let anchor_y = match column.surface_y.checked_add(1) {
                    Some(y) => y,
                    None => i32::MAX,
                };
                let quarter_turns: u8 = #[verifier::truncate] (((placement_seed >> 24) & 3) as u8);
                placements.push(
                    SurfaceFeaturePlacement {
                        anchor: WorldBlockCoord(column.world_x, anchor_y, column.world_z),
                        feature: SurfaceFeatureRef::Prop { prop_key: config.prop_keys[prop_index] },
                        footprint_radius_blocks: 1,
                        placement_seed,
                        quarter_turns,
                    },
                );
            }
        }
        index = index + 1;
    }
    proof {
        assert(cols.take(cols.len() as int) =~= cols);
    }
    stats.placement_count = placements.len();
    SurfaceFeaturePlan { placements, stats }
}

/// Every column is counted exactly once: under water, dry but not a rock
/// surface, or a candidate.
pub proof fn lemma_rock_counts_partition_columns(columns: Seq<SurfaceColumnPlan>)
    ensures
        count_columns(columns, |c: SurfaceColumnPlan| is_water_column(c)) + count_columns(
            columns,
            |c: SurfaceColumnPlan| is_non_target_column(c),
        ) + count_columns(columns, |c: SurfaceColumnPlan| is_rock_candidate(c)) == columns.len(),
    decreases columns.len(),
{
    if columns.len() > 0 {
        lemma_rock_counts_partition_columns(columns.drop_last());
    }
}

/// A pass that runs counts each column of the area once, and places at most
/// one prop per candidate.
pub proof fn lemma_rock_plan_counts(plan: SurfaceFeaturePlan, columns: Seq<SurfaceColumnPlan>, config: RockFeaturePlacementConfig)
    requires
        spec_rock_plan_matches(plan, columns, config),
        !rock_pass_disabled(config),
    ensures
        plan.stats.skipped_water_column_count + plan.stats.skipped_non_target_surface_count
            + plan.stats.candidate_column_count == columns.len(),
        plan.stats.placement_count <= plan.stats.candidate_column_count,
{
    lemma_rock_counts_partition_columns(columns);
    lemma_placements_bounded(columns, config);
}

proof fn lemma_placements_bounded(columns: Seq<SurfaceColumnPlan>, config: RockFeaturePlacementConfig)
    ensures
        spec_rock_placements(columns, config).len() <= count_columns(
            columns,
            |c: SurfaceColumnPlan| is_rock_candidate(c),
        ),
    decreases columns.len(),
{
    if columns.len() > 0 {
        lemma_placements_bounded(columns.drop_last(), config);
    }
}

/// Which surfaces take rock props. Coasts: sand, wet sand and gravel tops.
/// River banks: sand, wet sand, gravel, wet gravel and silt tops, or a gravel
/// or silt sediment under any top. Dry land and dry basins: sand, wet sand,
/// red sand and gravel tops. Ocean, lake, wetland and ridge columns never do,
/// and outside rivers the sediment plays no part.
pub proof fn lemma_rock_surfaces(role: SurfaceHydrologyRole, top: Seq<char>, sediment: Seq<char>, other: Seq<char>)
    ensures
        role == SurfaceHydrologyRole::Coast ==> (spec_is_rock_surface(role, "sand"@, sediment) && spec_is_rock_surface(
            role,
            "wet_sand"@,
            sediment,
        ) && spec_is_rock_surface(role, "gravel"@, sediment)),
        role == SurfaceHydrologyRole::River ==> (spec_is_rock_surface(role, "sand"@, sediment) && spec_is_rock_surface(
            role,
            "wet_sand"@,
            sediment,
        ) && spec_is_rock_surface(role, "gravel"@, sediment) && spec_is_rock_surface(role, "wet_gravel"@, sediment)
            && spec_is_rock_surface(role, "silt"@, sediment) && spec_is_rock_surface(role, top, "gravel"@)
            && spec_is_rock_surface(role, top, "silt"@)),
        role == SurfaceHydrologyRole::Land || role == SurfaceHydrologyRole::DryBasin ==> (spec_is_rock_surface(
            role,
            "sand"@,
            sediment,
        ) && spec_is_rock_surface(role, "wet_sand"@, sediment) && spec_is_rock_surface(role, "red_sand"@, sediment)
            && spec_is_rock_surface(role, "gravel"@, sediment)),
        role == SurfaceHydrologyRole::Ocean || role == SurfaceHydrologyRole::Lake || role
            == SurfaceHydrologyRole::Wetland || role == SurfaceHydrologyRole::Ridge ==> !spec_is_rock_surface(
            role,
            top,
            sediment,
        ),
        role != SurfaceHydrologyRole::River ==> spec_is_rock_surface(role, top, sediment) == spec_is_rock_surface(
            role,
            top,
            other,
        ),
{
}

/// At full density every candidate column gets exactly one prop: the pass
/// places as many props as there are candidates.
pub proof fn lemma_full_density_places_every_candidate(columns: Seq<SurfaceColumnPlan>, config: RockFeaturePlacementConfig)
    requires
        config.density_percent >= 100,
    ensures
        spec_rock_placements(columns, config).len() == count_columns(
            columns,
            |c: SurfaceColumnPlan| is_rock_candidate(c),
        ),
    decreases columns.len(),
{
    if columns.len() > 0 {
        lemma_full_density_places_every_candidate(columns.drop_last(), config);
        let c = columns.last();
        assert(spec_rock_placement_seed(config.seed, c.world_x, c.world_z) % 100 < 100);
    }
}

} // verus!
