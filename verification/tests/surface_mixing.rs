use worldgen::graph::VoronoiSiteId;
use worldgen::surface_plan::{
    apply_noisy_boundary_mixing, is_non_water_owner_surface_column, restore_cross_owner_boundary_swaps,
    SurfaceColumnPlan, SurfaceHydrologyRole, SurfaceMixSource, SurfacePlanConfig,
};

fn test_plan(
    world_x: i32,
    world_z: i32,
    top_block: &'static str,
    hydrology_role: SurfaceHydrologyRole,
) -> SurfaceColumnPlan {
    SurfaceColumnPlan {
        world_x,
        world_z,
        surface_y: 4,
        water_y: None,
        hydrology_role,
        top_block,
        subsurface_block: "dirt",
        base_block: "stone",
        underwater_top_block: top_block,
        exposed_block: "exposed_rock",
        sediment_block: "gravel",
        soil_depth_blocks: 3,
        vegetation_allowed: true,
        cover_phase: 0,
    }
}

fn full_strength(seed: u64, version: u32) -> SurfacePlanConfig {
    SurfacePlanConfig {
        boundary_mix_radius_blocks: 1,
        boundary_mix_strength_percent: 100,
        ..SurfacePlanConfig::new(seed, version)
    }
}

#[test]
fn default_noisy_boundary_mixing_is_one_block_sparse_support() {
    let config = SurfacePlanConfig::default();

    assert_eq!(config.boundary_mix_radius_blocks, 1);
    assert_eq!(config.boundary_mix_strength_percent, 28);
}

#[test]
fn noisy_boundary_mixing_steps_neighbor_materials_without_changing_height_or_role() {
    let config = full_strength(7, 2);
    let mut columns = vec![
        test_plan(0, 0, "sand", SurfaceHydrologyRole::Land),
        test_plan(1, 0, "grass", SurfaceHydrologyRole::Land),
        test_plan(2, 0, "grass", SurfaceHydrologyRole::Land),
    ];

    apply_noisy_boundary_mixing(&mut columns, 3, 1, config, None);

    assert_eq!(columns[0].surface_y, 4);
    assert_eq!(columns[0].water_y, None);
    assert_eq!(columns[0].hydrology_role, SurfaceHydrologyRole::Land);
    assert_eq!(columns[1].surface_y, 4);
    assert_eq!(columns[1].hydrology_role, SurfaceHydrologyRole::Land);
    assert!(
        columns[0].top_block == "grass" || columns[1].top_block == "sand",
        "at least one boundary-adjacent column should receive the neighbor material"
    );
    assert_eq!(columns[2].top_block, "grass");
}

#[test]
fn noisy_boundary_mixing_does_not_mutually_swap_adjacent_materials() {
    let config = full_strength(42, 1);
    let mut columns = vec![
        test_plan(0, 0, "sand", SurfaceHydrologyRole::Land),
        test_plan(1, 0, "wet_sand", SurfaceHydrologyRole::Land),
    ];

    apply_noisy_boundary_mixing(&mut columns, 2, 1, config, None);

    assert_ne!(
        (columns[0].top_block, columns[1].top_block),
        ("wet_sand", "sand"),
        "local breakup may step one side of a boundary, but adjacent columns must not exchange top materials"
    );
}

#[test]
fn noisy_boundary_mixing_does_not_jump_diagonal_corners() {
    let config = full_strength(7, 2);
    let mut columns = vec![
        test_plan(0, 0, "grass", SurfaceHydrologyRole::Land),
        test_plan(1, 0, "grass", SurfaceHydrologyRole::Land),
        test_plan(2, 0, "grass", SurfaceHydrologyRole::Land),
        test_plan(0, 1, "grass", SurfaceHydrologyRole::Land),
        test_plan(1, 1, "grass", SurfaceHydrologyRole::Land),
        test_plan(2, 1, "grass", SurfaceHydrologyRole::Land),
        test_plan(0, 2, "sand", SurfaceHydrologyRole::Land),
        test_plan(1, 2, "grass", SurfaceHydrologyRole::Land),
        test_plan(2, 2, "grass", SurfaceHydrologyRole::Land),
    ];

    apply_noisy_boundary_mixing(&mut columns, 3, 3, config, None);

    assert_eq!(
        columns[4].top_block, "grass",
        "diagonal-only contact must not create a square-corner material intrusion"
    );
}

#[test]
fn noisy_boundary_mixing_does_not_cross_macro_owner_sites() {
    let config = full_strength(7, 2);
    let mut columns = vec![
        test_plan(0, 0, "sand", SurfaceHydrologyRole::Land),
        test_plan(1, 0, "grass", SurfaceHydrologyRole::Land),
    ];
    let mix_sources = vec![
        SurfaceMixSource { owner_site: Some(VoronoiSiteId(1)) },
        SurfaceMixSource { owner_site: Some(VoronoiSiteId(2)) },
    ];

    apply_noisy_boundary_mixing(&mut columns, 2, 1, config, Some(&mix_sources));

    assert_eq!(
        columns[0].top_block, "sand",
        "local material breakup must not copy material across the macro owner boundary"
    );
    assert_eq!(
        columns[1].top_block, "grass",
        "local material breakup must not copy material across the macro owner boundary"
    );
}

#[test]
fn final_owner_top_audit_counts_dry_river_role_as_non_water_surface() {
    let dry_river = test_plan(0, 0, "wet_gravel", SurfaceHydrologyRole::River);
    let mut active_river = dry_river;
    active_river.water_y = Some(active_river.surface_y + 1);

    assert!(is_non_water_owner_surface_column(dry_river));
    assert!(!is_non_water_owner_surface_column(active_river));
}

#[test]
fn noisy_boundary_mixing_restores_mutual_cross_owner_top_swaps() {
    let mut columns = vec![
        test_plan(0, 0, "sand", SurfaceHydrologyRole::Coast),
        test_plan(1, 0, "wet_sand", SurfaceHydrologyRole::Coast),
    ];
    let original = vec![
        test_plan(0, 0, "wet_sand", SurfaceHydrologyRole::Coast),
        test_plan(1, 0, "sand", SurfaceHydrologyRole::Coast),
    ];
    let mix_sources = vec![
        SurfaceMixSource { owner_site: Some(VoronoiSiteId(1)) },
        SurfaceMixSource { owner_site: Some(VoronoiSiteId(2)) },
    ];

    restore_cross_owner_boundary_swaps(&mut columns, &original, 2, 1, Some(&mix_sources));

    assert_eq!(columns[0].top_block, "wet_sand");
    assert_eq!(columns[1].top_block, "sand");
}

#[test]
fn noisy_boundary_mixing_does_not_cross_active_water_boundaries() {
    let config = full_strength(7, 2);
    let mut columns = vec![
        test_plan(0, 0, "sand", SurfaceHydrologyRole::Ocean),
        test_plan(1, 0, "grass", SurfaceHydrologyRole::Land),
    ];
    columns[0].water_y = Some(5);

    apply_noisy_boundary_mixing(&mut columns, 2, 1, config, None);

    assert_eq!(columns[0].top_block, "sand");
    assert_eq!(columns[0].water_y, Some(5));
    assert_eq!(columns[1].top_block, "grass");
    assert_eq!(columns[1].water_y, None);
}

#[test]
fn zero_radius_or_strength_leaves_columns_untouched() {
    let before = vec![
        test_plan(0, 0, "sand", SurfaceHydrologyRole::Land),
        test_plan(1, 0, "grass", SurfaceHydrologyRole::Land),
    ];
    let mut columns = before.clone();
    let config = SurfacePlanConfig { boundary_mix_radius_blocks: 0, ..full_strength(7, 2) };
    apply_noisy_boundary_mixing(&mut columns, 2, 1, config, None);
    assert_eq!(columns, before);
    let config = SurfacePlanConfig { boundary_mix_strength_percent: 0, ..full_strength(7, 2) };
    apply_noisy_boundary_mixing(&mut columns, 2, 1, config, None);
    assert_eq!(columns, before);
}

#[test]
fn mixing_keeps_every_layout_field() {
    let mut columns = Vec::new();
    for z in 0..4 {
        for x in 0..4 {
            let top = if (x + z) % 2 == 0 { "sand" } else { "grass" };
            let mut plan = test_plan(x, z, top, SurfaceHydrologyRole::Land);
            plan.surface_y = x * 3 + z;
            columns.push(plan);
        }
    }
    let before = columns.clone();
    apply_noisy_boundary_mixing(&mut columns, 4, 4, full_strength(3, 9), None);
    for (after, original) in columns.iter().zip(before.iter()) {
        assert_eq!(after.world_x, original.world_x);
        assert_eq!(after.world_z, original.world_z);
        assert_eq!(after.surface_y, original.surface_y);
        assert_eq!(after.water_y, original.water_y);
        assert_eq!(after.hydrology_role, original.hydrology_role);
        assert_eq!(after.base_block, original.base_block);
    }
}
