use worldgen::surface_plan::{
    SurfaceColumnPlan, SurfaceHydrologyRole, SurfacePlanArea, SurfacePlanAreaStats, SurfacePlanConfig,
};
use worldgen::vegetation::{
    generate_rock_feature_placements, is_sandy_or_riverside_rock_surface, RockFeaturePlacementConfig,
    SurfaceFeatureRef,
};

fn test_column(
    world_x: i32,
    world_z: i32,
    water_y: Option<i32>,
    hydrology_role: SurfaceHydrologyRole,
    top_block: &'static str,
    sediment_block: &'static str,
) -> SurfaceColumnPlan {
    SurfaceColumnPlan {
        world_x,
        world_z,
        surface_y: 10,
        water_y,
        hydrology_role,
        top_block,
        subsurface_block: "dirt",
        base_block: "stone",
        underwater_top_block: "silt",
        exposed_block: "rock",
        sediment_block,
        soil_depth_blocks: 3,
        vegetation_allowed: true,
        cover_phase: 0,
    }
}

fn empty_stats() -> SurfacePlanAreaStats {
    SurfacePlanAreaStats {
        column_count: 0,
        ocean_column_count: 0,
        lake_column_count: 0,
        river_column_count: 0,
        wetland_column_count: 0,
        coast_column_count: 0,
        dry_basin_column_count: 0,
        ridge_column_count: 0,
        land_column_count: 0,
        water_column_count: 0,
        exposed_column_count: 0,
        vegetation_allowed_count: 0,
    }
}

fn test_surface_area() -> SurfacePlanArea {
    SurfacePlanArea {
        width: 2,
        height: 2,
        columns: vec![
            test_column(0, 0, None, SurfaceHydrologyRole::Coast, "sand", "silt"),
            test_column(1, 0, Some(12), SurfaceHydrologyRole::Coast, "sand", "silt"),
            test_column(0, 1, None, SurfaceHydrologyRole::Land, "grass", "gravel"),
            test_column(1, 1, None, SurfaceHydrologyRole::River, "wet_gravel", "gravel"),
        ],
        stats: empty_stats(),
        config: SurfacePlanConfig::default(),
    }
}

#[test]
fn rock_feature_placements_are_deterministic_prop_refs() {
    let area = test_surface_area();
    let config = RockFeaturePlacementConfig {
        seed: 42,
        density_percent: 100,
        prop_keys: &["rock_pebble_1x1x1", "rock_flat_2x2x1"],
    };

    let a = generate_rock_feature_placements(&area, config.clone());
    let b = generate_rock_feature_placements(&area, config);

    assert_eq!(a, b);
    assert_eq!(a.stats.candidate_column_count, 2);
    assert_eq!(a.stats.skipped_water_column_count, 1);
    assert_eq!(a.stats.skipped_non_target_surface_count, 1);
    assert_eq!(a.placements.len(), 2);
    assert!(a.placements.iter().all(|placement| {
        matches!(placement.feature, SurfaceFeatureRef::Prop { .. }) && placement.anchor.1 == 11
    }));
}

#[test]
fn rock_placements_follow_the_column_seed() {
    let area = test_surface_area();
    let config = RockFeaturePlacementConfig {
        seed: 42,
        density_percent: 100,
        prop_keys: &["rock_pebble_1x1x1", "rock_flat_2x2x1"],
    };
    let plan = generate_rock_feature_placements(&area, config);
    // Seed 42 at (0, 0) is 0x8DD2_6EDF_8A3C_96E3 and at (1, 1) 0x90A6_73D5_7C83_6603.
    let first = plan.placements[0];
    assert_eq!(first.placement_seed, 0x8DD2_6EDF_8A3C_96E3);
    assert_eq!((first.anchor.0, first.anchor.2), (0, 0));
    assert_eq!(first.quarter_turns, 2);
    assert_eq!(first.footprint_radius_blocks, 1);
    assert_eq!(first.feature, SurfaceFeatureRef::Prop { prop_key: "rock_pebble_1x1x1" });
    let second = plan.placements[1];
    assert_eq!((second.anchor.0, second.anchor.2), (1, 1));
    assert_eq!(second.quarter_turns, 0);
    assert_eq!(plan.stats.placement_count, 2);
}

#[test]
fn density_below_the_roll_skips_the_candidate() {
    let area = test_surface_area();
    // Rolls are 99 at (0, 0) and 83 at (1, 1).
    let config = RockFeaturePlacementConfig { seed: 42, density_percent: 90, prop_keys: &["a"] };
    let plan = generate_rock_feature_placements(&area, config);
    assert_eq!(plan.placements.len(), 1);
    assert_eq!(plan.stats.candidate_column_count, 2);
    assert_eq!(plan.placements[0].feature, SurfaceFeatureRef::Prop { prop_key: "a" });
}

#[test]
fn zero_density_or_no_props_places_nothing_and_counts_nothing() {
    let area = test_surface_area();
    let config = RockFeaturePlacementConfig { seed: 42, density_percent: 0, prop_keys: &["a"] };
    let plan = generate_rock_feature_placements(&area, config);
    assert!(plan.placements.is_empty());
    assert_eq!(plan.stats.skipped_water_column_count, 0);
    let config = RockFeaturePlacementConfig { seed: 42, density_percent: 100, prop_keys: &[] };
    let plan = generate_rock_feature_placements(&area, config);
    assert!(plan.placements.is_empty());
    assert_eq!(plan.stats.candidate_column_count, 0);
}

#[test]
fn anchors_saturate_at_the_top_of_the_world() {
    let mut area = test_surface_area();
    area.columns[0].surface_y = i32::MAX;
    let config = RockFeaturePlacementConfig { seed: 42, density_percent: 200, prop_keys: &["a"] };
    let plan = generate_rock_feature_placements(&area, config);
    assert_eq!(plan.placements[0].anchor.1, i32::MAX);
}

#[test]
fn rock_surfaces_by_role() {
    assert!(is_sandy_or_riverside_rock_surface(SurfaceHydrologyRole::Coast, "gravel", "silt"));
    assert!(!is_sandy_or_riverside_rock_surface(SurfaceHydrologyRole::Coast, "mud", "gravel"));
    assert!(is_sandy_or_riverside_rock_surface(SurfaceHydrologyRole::River, "mud", "silt"));
    assert!(is_sandy_or_riverside_rock_surface(SurfaceHydrologyRole::DryBasin, "red_sand", "clay"));
    assert!(!is_sandy_or_riverside_rock_surface(SurfaceHydrologyRole::Land, "grass", "gravel"));
    assert!(!is_sandy_or_riverside_rock_surface(SurfaceHydrologyRole::Ridge, "sand", "sand"));
}

#[test]
fn default_rock_config_has_four_props() {
    let config = RockFeaturePlacementConfig::default();
    assert_eq!(config.seed, 0);
    assert_eq!(config.density_percent, 4);
    assert_eq!(config.prop_keys.len(), 4);
}
