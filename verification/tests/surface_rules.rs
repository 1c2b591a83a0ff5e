use std::collections::{BTreeMap, BTreeSet};

use worldgen::graph::VoronoiSiteId;
use worldgen::surface_plan::{SurfaceColumnPlan, SurfaceHydrologyRole, SurfacePlanConfig};
use worldgen::surface_rules::{
    biome_surface_policy, canonical_non_water_owner_top, generate_surface_plan_area, hydrology_role,
    normalize_non_water_owner_surface_materials, resolve_surface_column, surface_plan_stats,
    GraphBiomeContext, GraphBiomeKind, GraphBiomeWaterRole, HeightfieldHints, HeightfieldTerrainKind,
    HydrationBand, MacroFieldSample, SurfaceColumnInput, SurfaceConditionBand,
};

const RIVER_WATER_THRESHOLD: f32 = 0.88;
const COAST_THRESHOLD: f32 = 0.45;
const RIDGE_THRESHOLD: f32 = 0.55;

const ALL_BIOMES: &[GraphBiomeKind] = &[
    GraphBiomeKind::ShallowOcean,
    GraphBiomeKind::DeepOcean,
    GraphBiomeKind::Mangrove,
    GraphBiomeKind::EstuarineCoast,
    GraphBiomeKind::LagoonCoast,
    GraphBiomeKind::RockyCoast,
    GraphBiomeKind::SandyCoast,
    GraphBiomeKind::Lake,
    GraphBiomeKind::Marsh,
    GraphBiomeKind::Swamp,
    GraphBiomeKind::FloodedForest,
    GraphBiomeKind::Desert,
    GraphBiomeKind::SemiDesert,
    GraphBiomeKind::Steppe,
    GraphBiomeKind::DryShrubland,
    GraphBiomeKind::MediterraneanShrubland,
    GraphBiomeKind::PolarIce,
    GraphBiomeKind::PolarBarrens,
    GraphBiomeKind::Tundra,
    GraphBiomeKind::SubalpineWoodland,
    GraphBiomeKind::AlpineMeadow,
    GraphBiomeKind::BorealForest,
    GraphBiomeKind::TropicalRainforest,
    GraphBiomeKind::MonsoonForest,
    GraphBiomeKind::TropicalDryForest,
    GraphBiomeKind::Savanna,
    GraphBiomeKind::TemperateRainforest,
    GraphBiomeKind::TemperateMixedForest,
    GraphBiomeKind::TemperateBroadleafForest,
    GraphBiomeKind::TemperateGrassland,
];

const KNOWN_BLOCK_KEYS: &[&str] = &[
    "grass",
    "jungle_grass",
    "dirt",
    "stone",
    "sand",
    "gravel",
    "mud",
    "snow",
    "water",
    "coarse_dirt",
    "clay",
    "ice",
    "peat",
    "silt",
    "humus",
    "moss",
    "podzol",
    "thin_soil",
    "red_sand",
    "dry_grass",
    "wet_sand",
    "wet_gravel",
    "exposed_rock",
    "rock",
    "sandstone",
    "alpine_soil",
    "moraine",
    "laterite",
];

/// The continuous heightfield values of a test column.
#[derive(Clone, Copy)]
struct Heightfield {
    x: f32,
    z: f32,
    surface_y: i32,
    water_y: Option<i32>,
    terrain_kind: HeightfieldTerrainKind,
    ocean_mask: f32,
    lake_mask: f32,
    dry_basin_mask: f32,
    coast_mask: f32,
    ridge_influence: f32,
    terrain_ruggedness: f32,
    river_valley_strength: f32,
    river_flow_hint: f32,
    river_bed_depth_blocks: f32,
    river_bank_roughness_hint: f32,
    river_gravel_hint: f32,
    river_cutbank_hint: f32,
}

fn flag(kind: HeightfieldTerrainKind, wanted: HeightfieldTerrainKind) -> f32 {
    if kind == wanted {
        1.0
    } else {
        0.0
    }
}

fn column(x: f32, z: f32, terrain_kind: HeightfieldTerrainKind) -> Heightfield {
    let watered = matches!(
        terrain_kind,
        HeightfieldTerrainKind::Ocean | HeightfieldTerrainKind::Lake | HeightfieldTerrainKind::River
    );
    let river = terrain_kind == HeightfieldTerrainKind::River;
    Heightfield {
        x,
        z,
        surface_y: 0,
        water_y: if watered { Some(1) } else { None },
        terrain_kind,
        ocean_mask: flag(terrain_kind, HeightfieldTerrainKind::Ocean),
        lake_mask: flag(terrain_kind, HeightfieldTerrainKind::Lake),
        dry_basin_mask: flag(terrain_kind, HeightfieldTerrainKind::DryBasin),
        coast_mask: flag(terrain_kind, HeightfieldTerrainKind::Coast),
        ridge_influence: flag(terrain_kind, HeightfieldTerrainKind::Ridge),
        terrain_ruggedness: 0.0,
        river_valley_strength: if river { 1.0 } else { 0.0 },
        river_flow_hint: if river { 0.5 } else { 0.0 },
        river_bed_depth_blocks: 0.0,
        river_bank_roughness_hint: 0.0,
        river_gravel_hint: 0.0,
        river_cutbank_hint: 0.0,
    }
}

fn hints(h: &Heightfield) -> HeightfieldHints {
    HeightfieldHints {
        ocean_masked: h.ocean_mask > 0.5,
        lake_masked: h.lake_mask > 0.5,
        dry_basin_masked: h.dry_basin_mask > 0.5,
        river_water_valley: h.river_valley_strength >= RIVER_WATER_THRESHOLD && h.river_flow_hint > 0.0,
        ridge_dominant: h.ridge_influence >= RIDGE_THRESHOLD,
        coast_mudflat: h.coast_mask >= COAST_THRESHOLD * 1.6,
        river_mouth: h.river_flow_hint > 0.12
            && h.river_bed_depth_blocks > 0.0
            && h.river_valley_strength >= RIVER_WATER_THRESHOLD * 0.68,
        dry_river_bank: h.river_flow_hint > 0.12
            && h.river_valley_strength >= RIVER_WATER_THRESHOLD * 0.72
            && (h.river_bed_depth_blocks > 0.0
                || h.river_bank_roughness_hint > 0.48
                || h.river_gravel_hint > 0.32
                || h.river_cutbank_hint > 0.38),
        rugged_floor: h.terrain_ruggedness > 0.48,
        lake_gravel: h.river_gravel_hint > 0.55,
        river_gravel: h.river_gravel_hint > 0.45 || h.river_flow_hint > 0.58,
        water_column: matches!(h.water_y, Some(w) if w > h.surface_y),
    }
}

fn input(
    heightfield: Heightfield,
    biome: Option<GraphBiomeKind>,
    biome_context: Option<GraphBiomeContext>,
) -> SurfaceColumnInput {
    SurfaceColumnInput {
        world_x: heightfield.x.round() as i32,
        world_z: heightfield.z.round() as i32,
        surface_y: heightfield.surface_y,
        water_y: heightfield.water_y,
        terrain_kind: heightfield.terrain_kind,
        hints: hints(&heightfield),
        biome,
        biome_context,
        runtime_surface: None,
    }
}

fn sample(biome: GraphBiomeKind) -> MacroFieldSample {
    MacroFieldSample {
        nearest_site: None,
        biome: Some(biome),
        biome_context: Some(GraphBiomeContext {
            water_role: if biome == GraphBiomeKind::Lake {
                GraphBiomeWaterRole::Lake
            } else {
                GraphBiomeWaterRole::Land
            },
            hydration: HydrationBand::Moderate,
        }),
    }
}

fn area_inputs(columns: &[Heightfield], samples: &[MacroFieldSample]) -> Vec<SurfaceColumnInput> {
    columns
        .iter()
        .enumerate()
        .map(|(index, column)| {
            let sample = samples.get(index);
            input(*column, sample.and_then(|s| s.biome), sample.and_then(|s| s.biome_context))
        })
        .collect()
}

struct OwnerTopAudit {
    checked_column_count: usize,
    owner_count: usize,
    conflicting_owner_count: usize,
    conflict_representatives: Vec<String>,
}

fn audit_final_non_water_tops_by_owner(
    samples: &[MacroFieldSample],
    columns: &[SurfaceColumnPlan],
) -> OwnerTopAudit {
    let mut tops_by_site = BTreeMap::<u64, BTreeSet<&'static str>>::new();
    let mut checked_column_count = 0;
    for (sample, column) in samples.iter().zip(columns) {
        if column.water_y.is_some() {
            continue;
        }
        let Some(site) = sample.nearest_site else {
            continue;
        };
        checked_column_count += 1;
        tops_by_site.entry(site.0).or_default().insert(column.top_block);
    }
    OwnerTopAudit {
        checked_column_count,
        owner_count: tops_by_site.len(),
        conflicting_owner_count: tops_by_site.values().filter(|tops| tops.len() > 1).count(),
        conflict_representatives: tops_by_site
            .iter()
            .filter(|(_, tops)| tops.len() > 1)
            .map(|(site, tops)| format!("site={site} final_tops={tops:?}"))
            .collect(),
    }
}

#[test]
fn every_biome_policy_uses_known_block_keys() {
    for biome in ALL_BIOMES {
        let policy = biome_surface_policy(*biome);
        assert_eq!(policy.biome, *biome);
        for key in [
            policy.default_top,
            policy.dry_top,
            policy.wet_top,
            policy.frozen_top,
            policy.subsurface,
            policy.base,
            policy.exposed,
            policy.sediment,
        ] {
            assert!(KNOWN_BLOCK_KEYS.contains(&key), "unknown block key in surface policy: {key}");
        }
    }
}

#[test]
fn surface_resolve_preserves_surface_and_water_height() {
    let mut heightfield = column(10.0, 20.0, HeightfieldTerrainKind::River);
    heightfield.surface_y = 42;
    heightfield.water_y = Some(45);
    let plan = resolve_surface_column(
        input(heightfield, Some(GraphBiomeKind::TemperateGrassland), None),
        SurfacePlanConfig::new(12, 3),
    );

    assert_eq!(plan.surface_y, 42);
    assert_eq!(plan.water_y, Some(45));
}

#[test]
fn ocean_lake_and_river_roles_resolve_to_distinct_materials() {
    let ocean = resolve_surface_column(
        input(column(0.0, 0.0, HeightfieldTerrainKind::Ocean), Some(GraphBiomeKind::ShallowOcean), None),
        SurfacePlanConfig::default(),
    );
    let lake = resolve_surface_column(
        input(column(1.0, 0.0, HeightfieldTerrainKind::Lake), Some(GraphBiomeKind::Lake), None),
        SurfacePlanConfig::default(),
    );
    let river = resolve_surface_column(
        input(column(2.0, 0.0, HeightfieldTerrainKind::River), Some(GraphBiomeKind::TemperateGrassland), None),
        SurfacePlanConfig::default(),
    );

    assert_eq!(ocean.hydrology_role, SurfaceHydrologyRole::Ocean);
    assert_eq!(lake.hydrology_role, SurfaceHydrologyRole::Lake);
    assert_eq!(river.hydrology_role, SurfaceHydrologyRole::River);
    assert_ne!(ocean.hydrology_role, lake.hydrology_role);
    assert_ne!(lake.hydrology_role, river.hydrology_role);
}

#[test]
fn dry_land_with_moderate_river_valley_hint_keeps_biome_top() {
    let config = SurfacePlanConfig { boundary_mix_radius_blocks: 0, ..SurfacePlanConfig::default() };
    let mut heightfield = column(42.0, -17.0, HeightfieldTerrainKind::Land);
    heightfield.river_valley_strength = RIVER_WATER_THRESHOLD * 0.60;
    heightfield.river_flow_hint = 0.72;

    let plan = resolve_surface_column(input(heightfield, Some(GraphBiomeKind::TemperateGrassland), None), config);

    assert_eq!(plan.hydrology_role, SurfaceHydrologyRole::Land);
    assert_eq!(plan.top_block, "grass");
    assert_eq!(plan.sediment_block, "gravel");
}

#[test]
fn coast_mask_alone_does_not_turn_land_into_sand() {
    let config = SurfacePlanConfig { boundary_mix_radius_blocks: 0, ..SurfacePlanConfig::default() };
    let mut heightfield = column(11.0, -9.0, HeightfieldTerrainKind::Land);
    heightfield.coast_mask = 1.0;

    let plan = resolve_surface_column(input(heightfield, Some(GraphBiomeKind::TemperateGrassland), None), config);

    assert_eq!(plan.hydrology_role, SurfaceHydrologyRole::Land);
    assert_eq!(
        plan.top_block, "grass",
        "coast distance is diagnostic unless upstream biome/context says this column is coast"
    );
}

#[test]
fn active_river_core_still_resolves_river_sediment() {
    let mut heightfield = column(8.0, 3.0, HeightfieldTerrainKind::Land);
    heightfield.river_valley_strength = RIVER_WATER_THRESHOLD;
    heightfield.river_flow_hint = 0.72;
    heightfield.river_bed_depth_blocks = 4.0;

    let plan = resolve_surface_column(
        input(heightfield, Some(GraphBiomeKind::TemperateGrassland), None),
        SurfacePlanConfig::default(),
    );

    assert_eq!(plan.hydrology_role, SurfaceHydrologyRole::River);
    assert!(matches!(plan.top_block, "wet_gravel" | "mud" | "silt"));
    assert!(matches!(plan.sediment_block, "gravel" | "silt"));
    assert!(!plan.vegetation_allowed);
}

#[test]
fn dry_estuary_mouth_sediment_is_local_not_solid_patch() {
    let config = SurfacePlanConfig { boundary_mix_radius_blocks: 0, ..SurfacePlanConfig::new(41, 5) };
    let mut sediment_count = 0;
    let mut ordinary_count = 0;

    for x in 0..128 {
        let mut heightfield = column(x as f32, 5.0, HeightfieldTerrainKind::Land);
        heightfield.coast_mask = COAST_THRESHOLD;
        heightfield.river_valley_strength = RIVER_WATER_THRESHOLD * 0.74;
        heightfield.river_flow_hint = 0.44;
        heightfield.river_bed_depth_blocks = 3.0;
        let plan = resolve_surface_column(input(heightfield, Some(GraphBiomeKind::EstuarineCoast), None), config);

        assert_eq!(plan.hydrology_role, SurfaceHydrologyRole::Coast);
        if matches!(plan.top_block, "mud" | "silt") {
            sediment_count += 1;
        } else if matches!(plan.top_block, "sand" | "wet_sand") {
            ordinary_count += 1;
        }
    }

    assert!(sediment_count > 0, "selected mouth hints should still produce some local sediment");
    assert!(ordinary_count > 0, "dry mouth shoulders should not become a solid mud/silt patch");
}

#[test]
fn deterministic_variation_returns_same_result_for_same_input() {
    let heightfield = column(37.0, -91.0, HeightfieldTerrainKind::Coast);
    let input = input(heightfield, Some(GraphBiomeKind::SandyCoast), None);
    let config = SurfacePlanConfig::new(99, 7);

    assert_eq!(resolve_surface_column(input, config), resolve_surface_column(input, config));
}

#[test]
fn generate_surface_plan_area_preserves_row_major_column_count_and_order() {
    let columns = vec![
        column(0.0, 0.0, HeightfieldTerrainKind::Land),
        column(1.0, 0.0, HeightfieldTerrainKind::Land),
        column(0.0, 1.0, HeightfieldTerrainKind::Land),
        column(1.0, 1.0, HeightfieldTerrainKind::Land),
    ];
    let samples = vec![
        sample(GraphBiomeKind::Desert),
        sample(GraphBiomeKind::Lake),
        sample(GraphBiomeKind::TemperateGrassland),
        sample(GraphBiomeKind::RockyCoast),
    ];

    let area = generate_surface_plan_area(
        &area_inputs(&columns, &samples),
        2,
        2,
        Some(&samples),
        SurfacePlanConfig { boundary_mix_radius_blocks: 0, ..SurfacePlanConfig::default() },
    );

    assert_eq!(area.columns.len(), 4);
    assert_eq!(area.stats.column_count, 4);
    assert_eq!(area.columns[0].world_x, 0);
    assert_eq!(area.columns[0].world_z, 0);
    assert_eq!(area.columns[1].world_x, 1);
    assert_eq!(area.columns[1].world_z, 0);
    assert_eq!(area.columns[2].world_x, 0);
    assert_eq!(area.columns[2].world_z, 1);
    assert_eq!(area.columns[3].world_x, 1);
    assert_eq!(area.columns[3].world_z, 1);
    assert_eq!(area.columns[0].top_block, "sand");
    assert_eq!(area.columns[1].hydrology_role, SurfaceHydrologyRole::Lake);
}

#[test]
fn generate_surface_plan_area_normalizes_non_water_top_within_owner_site() {
    let columns = vec![
        column(-2322.0, -1280.0, HeightfieldTerrainKind::Coast),
        column(-2321.0, -1280.0, HeightfieldTerrainKind::Coast),
    ];
    let mut samples = vec![sample(GraphBiomeKind::SandyCoast), sample(GraphBiomeKind::SandyCoast)];
    for sample in &mut samples {
        sample.nearest_site = Some(VoronoiSiteId(107374182413));
        if let Some(context) = sample.biome_context.as_mut() {
            context.water_role = GraphBiomeWaterRole::Coast;
        }
    }

    let area = generate_surface_plan_area(
        &area_inputs(&columns, &samples),
        2,
        1,
        Some(&samples),
        SurfacePlanConfig::default(),
    );
    let audit = audit_final_non_water_tops_by_owner(&samples, &area.columns);

    assert_eq!(area.columns[0].top_block, "sand");
    assert_eq!(area.columns[1].top_block, "sand");
    assert_eq!(audit.conflicting_owner_count, 0);
}

#[test]
fn generate_surface_plan_area_keeps_noisy_owner_material_boundaries() {
    let columns = vec![
        column(-2322.0, -1280.0, HeightfieldTerrainKind::Land),
        column(-2321.0, -1280.0, HeightfieldTerrainKind::Land),
    ];
    let mut coast_owner = sample(GraphBiomeKind::SandyCoast);
    coast_owner.nearest_site = Some(VoronoiSiteId(107374182413));
    if let Some(context) = coast_owner.biome_context.as_mut() {
        context.water_role = GraphBiomeWaterRole::Coast;
    }
    let mut forest_owner = sample(GraphBiomeKind::TemperateMixedForest);
    forest_owner.nearest_site = Some(VoronoiSiteId(98784247821));
    let samples = vec![coast_owner, forest_owner];

    let area = generate_surface_plan_area(
        &area_inputs(&columns, &samples),
        2,
        1,
        Some(&samples),
        SurfacePlanConfig::default(),
    );
    let audit = audit_final_non_water_tops_by_owner(&samples, &area.columns);

    assert_eq!(area.columns[0].top_block, "sand");
    assert_eq!(area.columns[1].top_block, "grass");
    assert_eq!(audit.checked_column_count, 2);
    assert_eq!(audit.owner_count, 2);
    assert_eq!(audit.conflicting_owner_count, 0);
}

#[test]
fn rocky_coast_and_rugged_scalars_do_not_force_gravel() {
    let mut heightfield = column(1.0, 1.0, HeightfieldTerrainKind::Coast);
    heightfield.terrain_ruggedness = 0.95;
    heightfield.ridge_influence = 0.85;

    let plan = resolve_surface_column(
        input(heightfield, Some(GraphBiomeKind::RockyCoast), None),
        SurfacePlanConfig::new(23, 4),
    );

    assert_eq!(plan.hydrology_role, SurfaceHydrologyRole::Coast);
    assert!(matches!(plan.top_block, "sand" | "wet_sand"));
    assert!(
        !matches!(plan.top_block, "gravel" | "wet_gravel" | "rock" | "exposed_rock"),
        "coast/rugged/RockyCoast inputs should not force a rocky material"
    );
}

#[test]
fn rugged_land_and_ridge_inputs_keep_biome_top() {
    let mut land = column(3.0, 7.0, HeightfieldTerrainKind::Land);
    land.terrain_ruggedness = 0.95;
    land.river_bank_roughness_hint = 0.95;

    let land_plan = resolve_surface_column(
        input(land, Some(GraphBiomeKind::TemperateGrassland), None),
        SurfacePlanConfig::new(23, 4),
    );

    assert_eq!(land_plan.hydrology_role, SurfaceHydrologyRole::Land);
    assert_eq!(land_plan.top_block, "grass");
    assert!(land_plan.vegetation_allowed);

    let mut ridge = column(4.0, 7.0, HeightfieldTerrainKind::Ridge);
    ridge.terrain_ruggedness = 0.95;
    ridge.ridge_influence = 0.95;

    let ridge_plan = resolve_surface_column(
        input(ridge, Some(GraphBiomeKind::TemperateGrassland), None),
        SurfacePlanConfig::new(23, 4),
    );

    assert_eq!(ridge_plan.hydrology_role, SurfaceHydrologyRole::Ridge);
    assert_eq!(ridge_plan.top_block, "grass");
    assert!(ridge_plan.vegetation_allowed);
}

#[test]
fn active_water_and_river_cores_keep_sediment_materials() {
    let mut columns = Vec::new();
    for z in 0..3 {
        for x in 0..3 {
            let terrain_kind = if x == 1 && z == 1 {
                HeightfieldTerrainKind::River
            } else {
                HeightfieldTerrainKind::Ocean
            };
            let mut heightfield = column(x as f32, z as f32, terrain_kind);
            heightfield.surface_y = if x == 1 && z == 1 { -2 } else { -5 };
            heightfield.water_y = Some(0);
            heightfield.river_valley_strength = 1.0;
            heightfield.river_flow_hint = 0.8;
            heightfield.river_bed_depth_blocks = 2.0;
            columns.push(heightfield);
        }
    }
    let samples: Vec<MacroFieldSample> = (0..9).map(|_| sample(GraphBiomeKind::TemperateGrassland)).collect();

    let area = generate_surface_plan_area(
        &area_inputs(&columns, &samples),
        3,
        3,
        Some(&samples),
        SurfacePlanConfig { boundary_mix_radius_blocks: 0, ..SurfacePlanConfig::new(23, 4) },
    );
    let center = area.column(1, 1).unwrap();
    let ocean = area.column(0, 0).unwrap();

    assert_eq!(center.hydrology_role, SurfaceHydrologyRole::River);
    assert!(matches!(center.top_block, "wet_gravel" | "mud" | "silt"));
    assert!(matches!(center.sediment_block, "gravel" | "silt"));
    assert_eq!(ocean.hydrology_role, SurfaceHydrologyRole::Ocean);
    assert!(matches!(ocean.top_block, "silt" | "gravel"));
}

#[test]
fn hydrology_role_checks_evidence_in_priority_order() {
    // Ocean terrain wins over a lake biome; a wetland biome outranks coast terrain.
    let ocean = input(column(0.0, 0.0, HeightfieldTerrainKind::Ocean), Some(GraphBiomeKind::Lake), None);
    assert_eq!(hydrology_role(&ocean), SurfaceHydrologyRole::Ocean);
    let marsh = input(column(0.0, 0.0, HeightfieldTerrainKind::Coast), Some(GraphBiomeKind::Marsh), None);
    assert_eq!(hydrology_role(&marsh), SurfaceHydrologyRole::Wetland);
    let basin_context = GraphBiomeContext {
        water_role: GraphBiomeWaterRole::DryBasin,
        hydration: HydrationBand::Dry,
    };
    let basin = input(
        column(0.0, 0.0, HeightfieldTerrainKind::Ridge),
        Some(GraphBiomeKind::Desert),
        Some(basin_context),
    );
    assert_eq!(hydrology_role(&basin), SurfaceHydrologyRole::DryBasin);
    let deep = GraphBiomeContext { water_role: GraphBiomeWaterRole::DeepOcean, hydration: HydrationBand::Wet };
    let deep_land = input(column(0.0, 0.0, HeightfieldTerrainKind::Land), None, Some(deep));
    assert_eq!(hydrology_role(&deep_land), SurfaceHydrologyRole::Ocean);
    let plain = input(column(0.0, 0.0, HeightfieldTerrainKind::Land), None, None);
    assert_eq!(hydrology_role(&plain), SurfaceHydrologyRole::Land);
}

#[test]
fn runtime_snow_freezes_the_top_and_wetness_spares_water_beds() {
    let mut snowy = input(column(5.0, 5.0, HeightfieldTerrainKind::Land), Some(GraphBiomeKind::BorealForest), None);
    snowy.runtime_surface = Some(SurfaceConditionBand::Snowy);
    assert_eq!(resolve_surface_column(snowy, SurfacePlanConfig::default()).top_block, "snow");

    let mut wet = input(column(5.0, 5.0, HeightfieldTerrainKind::Land), Some(GraphBiomeKind::BorealForest), None);
    wet.runtime_surface = Some(SurfaceConditionBand::Wet);
    assert_eq!(resolve_surface_column(wet, SurfacePlanConfig::default()).top_block, "moss");

    let mut wet_lake = input(column(5.0, 5.0, HeightfieldTerrainKind::Lake), Some(GraphBiomeKind::Lake), None);
    wet_lake.runtime_surface = Some(SurfaceConditionBand::Wet);
    let lake = resolve_surface_column(wet_lake, SurfacePlanConfig::default());
    assert!(matches!(lake.top_block, "gravel" | "mud" | "silt"));
}

#[test]
fn role_decides_soil_depth_and_vegetation() {
    let config = SurfacePlanConfig::default();
    let ocean = resolve_surface_column(
        input(column(0.0, 0.0, HeightfieldTerrainKind::Ocean), Some(GraphBiomeKind::ShallowOcean), None),
        config,
    );
    assert_eq!(ocean.soil_depth_blocks, 1);
    assert!(!ocean.vegetation_allowed);
    let marsh = resolve_surface_column(
        input(column(0.0, 0.0, HeightfieldTerrainKind::Land), Some(GraphBiomeKind::Marsh), None),
        config,
    );
    assert_eq!(marsh.hydrology_role, SurfaceHydrologyRole::Wetland);
    assert_eq!(marsh.soil_depth_blocks, 5);
    assert!(marsh.vegetation_allowed);
    let land = resolve_surface_column(
        input(column(0.0, 0.0, HeightfieldTerrainKind::Land), Some(GraphBiomeKind::TemperateGrassland), None),
        config,
    );
    assert_eq!(land.soil_depth_blocks, 3);
    assert!(land.cover_phase < 4);
    assert_eq!(land.base_block, "stone");
    assert_eq!(land.exposed_block, "exposed_rock");
}

#[test]
fn canonical_owner_tops_follow_the_water_role() {
    let context = |water_role, hydration| Some(GraphBiomeContext { water_role, hydration });
    let owner = |biome, ctx| MacroFieldSample { nearest_site: None, biome, biome_context: ctx };
    assert_eq!(canonical_non_water_owner_top(owner(Some(GraphBiomeKind::Desert), None)), None);
    assert_eq!(
        canonical_non_water_owner_top(owner(
            Some(GraphBiomeKind::Desert),
            context(GraphBiomeWaterRole::Coast, HydrationBand::Dry)
        )),
        Some("sand")
    );
    assert_eq!(
        canonical_non_water_owner_top(owner(
            Some(GraphBiomeKind::Tundra),
            context(GraphBiomeWaterRole::Land, HydrationBand::Dry)
        )),
        Some("thin_soil")
    );
    assert_eq!(
        canonical_non_water_owner_top(owner(
            Some(GraphBiomeKind::Tundra),
            context(GraphBiomeWaterRole::Land, HydrationBand::Wet)
        )),
        Some("moss")
    );
    assert_eq!(
        canonical_non_water_owner_top(owner(None, context(GraphBiomeWaterRole::Land, HydrationBand::Moderate))),
        Some("grass")
    );
    assert_eq!(
        canonical_non_water_owner_top(owner(
            Some(GraphBiomeKind::SandyCoast),
            context(GraphBiomeWaterRole::Land, HydrationBand::Wet)
        )),
        Some("sand")
    );
}

#[test]
fn owner_tops_come_from_the_first_candidate_of_each_site() {
    let plan = |top| {
        with_top(
            resolve_surface_column(
                input(column(0.0, 0.0, HeightfieldTerrainKind::Land), Some(GraphBiomeKind::TemperateGrassland), None),
                SurfacePlanConfig::default(),
            ),
            top,
        )
    };
    let mut columns = vec![plan("grass"), plan("sand"), plan("mud")];
    columns[2].water_y = Some(9);
    let site = Some(VoronoiSiteId(5));
    let wet_tundra = GraphBiomeContext { water_role: GraphBiomeWaterRole::Land, hydration: HydrationBand::Wet };
    let samples = vec![
        MacroFieldSample { nearest_site: site, biome: Some(GraphBiomeKind::Tundra), biome_context: None },
        MacroFieldSample { nearest_site: site, biome: Some(GraphBiomeKind::Tundra), biome_context: Some(wet_tundra) },
        MacroFieldSample { nearest_site: site, biome: Some(GraphBiomeKind::Desert), biome_context: Some(wet_tundra) },
    ];
    normalize_non_water_owner_surface_materials(&mut columns, Some(&samples));
    // The first column has no canonical top, the second names moss, the third is under water.
    assert_eq!(columns[0].top_block, "moss");
    assert_eq!(columns[0].underwater_top_block, "moss");
    assert_eq!(columns[1].top_block, "moss");
    assert_eq!(columns[2].top_block, "mud");

    let mut short = vec![plan("grass")];
    normalize_non_water_owner_surface_materials(&mut short, Some(&samples));
    assert_eq!(short[0].top_block, "grass");
}

fn with_top(mut plan: SurfaceColumnPlan, top: &'static str) -> SurfaceColumnPlan {
    plan.top_block = top;
    plan.underwater_top_block = top;
    plan
}

#[test]
fn stats_count_roles_water_exposed_and_vegetation() {
    let config = SurfacePlanConfig::default();
    let mut columns = vec![
        resolve_surface_column(
            input(column(0.0, 0.0, HeightfieldTerrainKind::Ocean), Some(GraphBiomeKind::ShallowOcean), None),
            config,
        ),
        resolve_surface_column(
            input(column(1.0, 0.0, HeightfieldTerrainKind::Land), Some(GraphBiomeKind::TemperateGrassland), None),
            config,
        ),
    ];
    columns[1].top_block = columns[1].exposed_block;
    let stats = surface_plan_stats(&columns);
    assert_eq!(stats.column_count, 2);
    assert_eq!(stats.ocean_column_count, 1);
    assert_eq!(stats.land_column_count, 1);
    assert_eq!(stats.lake_column_count, 0);
    assert_eq!(stats.water_column_count, 1);
    assert_eq!(stats.exposed_column_count, 1);
    assert_eq!(stats.vegetation_allowed_count, 1);
}

fn test_plan(
    world_x: i32,
    world_z: i32,
    top_block: &'static str,
    hydrology_role: SurfaceHydrologyRole,
) -> SurfaceColumnPlan {
    SurfaceColumnPlan {
        world_x,
        world_z,
        surface_y: 4,
        water_y: None,
        hydrology_role,
        top_block,
        subsurface_block: "dirt",
        base_block: "stone",
        underwater_top_block: top_block,
        exposed_block: "exposed_rock",
        sediment_block: "gravel",
        soil_depth_blocks: 3,
        vegetation_allowed: true,
        cover_phase: 0,
    }
}

#[test]
fn final_owner_top_audit_ignores_active_water_and_flags_non_water_conflict() {
    let mut land_a = sample(GraphBiomeKind::TemperateGrassland);
    let mut land_b = sample(GraphBiomeKind::TemperateGrassland);
    let mut ocean = sample(GraphBiomeKind::ShallowOcean);
    let mut lake = sample(GraphBiomeKind::Lake);
    let mut river = sample(GraphBiomeKind::TemperateGrassland);
    for sample in [&mut land_a, &mut land_b, &mut ocean, &mut lake, &mut river] {
        sample.nearest_site = Some(VoronoiSiteId(7));
    }
    let mut columns = vec![
        test_plan(0, 0, "grass", SurfaceHydrologyRole::Land),
        test_plan(1, 0, "sand", SurfaceHydrologyRole::Land),
        test_plan(2, 0, "silt", SurfaceHydrologyRole::Ocean),
        test_plan(3, 0, "mud", SurfaceHydrologyRole::Lake),
        test_plan(4, 0, "wet_gravel", SurfaceHydrologyRole::River),
    ];
    for column in &mut columns[2..] {
        column.water_y = Some(column.surface_y + 1);
    }

    let audit = audit_final_non_water_tops_by_owner(&[land_a, land_b, ocean, lake, river], &columns);

    assert_eq!(audit.checked_column_count, 2);
    assert_eq!(audit.owner_count, 1);
    assert_eq!(audit.conflicting_owner_count, 1);
    assert!(
        audit.conflict_representatives[0].contains("grass")
            && audit.conflict_representatives[0].contains("sand")
    );
}

#[test]
fn unmixed_area_without_samples_is_its_resolved_columns() {
    let columns = vec![
        column(0.0, 0.0, HeightfieldTerrainKind::Land),
        column(1.0, 0.0, HeightfieldTerrainKind::Coast),
        column(2.0, 0.0, HeightfieldTerrainKind::River),
    ];
    let config = SurfacePlanConfig { boundary_mix_strength_percent: 0, ..SurfacePlanConfig::new(5, 2) };
    let inputs = area_inputs(&columns, &[]);
    let area = generate_surface_plan_area(&inputs, 3, 1, None, config);
    for (plan, input) in area.columns.iter().zip(inputs.iter()) {
        assert_eq!(*plan, resolve_surface_column(*input, config));
    }
}
