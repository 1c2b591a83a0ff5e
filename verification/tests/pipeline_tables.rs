use worldgen::coord::{AtlasArea, AtlasCoord, ChunkCoord};
use worldgen::meso_catalog::{
    meso_catalog_entries, raw_classification_dimensions, resolved_classification_dimensions,
    MesoCatalogStatus, MESO_CATALOG_LEN,
};
use worldgen::pipeline::{
    branch_noise_seed, clamp_atlas_coord_to_area, column_index, default_voxelization_plan, empty_smoothed_prototype,
    kind_rank, prototype_policy_family, sample_region_cell, AtlasGrid, PrototypePolicyFamily,
    RegionArchetype, RiverPathKind,
};

#[test]
fn river_path_kinds_rank_trunks_first() {
    assert_eq!(kind_rank(RiverPathKind::Trunk), 0);
    assert_eq!(kind_rank(RiverPathKind::Tributary), 1);
}

#[test]
fn branch_noise_seeds_mix_id_order_and_kind() {
    assert_eq!(branch_noise_seed(0xA5A5_1357, 2, RiverPathKind::Tributary), 0x3175_BCEC_9F6B_2975);
    assert_eq!(branch_noise_seed(0, 0, RiverPathKind::Trunk), 0x6E78_9E6A_A1B9_65F4);
    assert_ne!(
        branch_noise_seed(7, 1, RiverPathKind::Trunk),
        branch_noise_seed(7, 1, RiverPathKind::Tributary)
    );
}

#[test]
fn column_index_is_row_major_in_a_chunk() {
    assert_eq!(column_index(0, 0), 0);
    assert_eq!(column_index(5, 2), 69);
    assert_eq!(column_index(31, 31), 1023);
}

#[test]
fn atlas_coords_clamp_into_the_area() {
    let area = AtlasArea { origin: AtlasCoord::new(-2, 3), width: 4, height: 2 };
    assert_eq!(clamp_atlas_coord_to_area(AtlasCoord::new(-10, 10), area), AtlasCoord::new(-2, 4));
    assert_eq!(clamp_atlas_coord_to_area(AtlasCoord::new(7, 0), area), AtlasCoord::new(1, 3));
    assert_eq!(clamp_atlas_coord_to_area(AtlasCoord::new(0, 4), area), AtlasCoord::new(0, 4));
}

#[test]
fn region_samples_clamp_to_the_nearest_cell() {
    let area = AtlasArea { origin: AtlasCoord::new(10, 20), width: 3, height: 2 };
    let grid = AtlasGrid { area, cells: vec![1u8, 2, 3, 4, 5, 6] };
    assert_eq!(sample_region_cell(&grid, AtlasCoord::new(11, 21)), 5);
    assert_eq!(sample_region_cell(&grid, AtlasCoord::new(0, 0)), 1);
    assert_eq!(sample_region_cell(&grid, AtlasCoord::new(99, 99)), 6);
    assert_eq!(grid.get(AtlasCoord::new(12, 20)), Some(&3));
    assert_eq!(grid.get(AtlasCoord::new(13, 20)), None);
}

#[test]
fn archetypes_map_to_policy_families() {
    assert_eq!(prototype_policy_family(RegionArchetype::FjordCoast), PrototypePolicyFamily::MarineCoastalEdge);
    assert_eq!(prototype_policy_family(RegionArchetype::GlacialValley), PrototypePolicyFamily::LowlandBasin);
    assert_eq!(prototype_policy_family(RegionArchetype::TemperatePlain), PrototypePolicyFamily::OpenPlain);
    assert_eq!(prototype_policy_family(RegionArchetype::AlpineRavineCountry), PrototypePolicyFamily::HillCountry);
    assert_eq!(prototype_policy_family(RegionArchetype::DesertMesaCountry), PrototypePolicyFamily::PlateauEscarpment);
    assert_eq!(prototype_policy_family(RegionArchetype::DryShrublandKarst), PrototypePolicyFamily::AridPlain);
    assert_eq!(prototype_policy_family(RegionArchetype::DesertDuneField), PrototypePolicyFamily::DuneBody);
    assert_eq!(prototype_policy_family(RegionArchetype::CrevassedIcefield), PrototypePolicyFamily::AlpineHighRelief);
}

#[test]
fn placeholder_stage_outputs_start_empty() {
    let chunk = ChunkCoord(3, 0, -4);
    let smoothed = empty_smoothed_prototype(chunk);
    assert_eq!(smoothed.chunk, chunk);
    assert_eq!(smoothed.preserved_corridors, 0);
    let plan = default_voxelization_plan(chunk);
    assert_eq!(plan.chunk, chunk);
    assert_eq!(plan.material_policy_key, "unassigned");
    assert_eq!(plan.seasonal_override_key, None);
}

#[test]
fn meso_catalog_lists_every_feature_under_its_module() {
    let entries = meso_catalog_entries();
    assert_eq!(entries.len(), MESO_CATALOG_LEN);
    assert_eq!(entries[0].key, "hill_cluster");
    assert_eq!(entries[0].status, MesoCatalogStatus::LaunchCandidate);
    assert_eq!(entries[entries.len() - 1].key, "natural_arch");
    assert_eq!(entries[entries.len() - 1].status, MesoCatalogStatus::Deferred);
    for entry in &entries {
        assert_eq!(entry.feature_path, format!("atlas/meso/features/{}", entry.key));
    }
    let mut keys: Vec<&str> = entries.iter().map(|e| e.key).collect();
    keys.sort();
    keys.dedup();
    assert_eq!(keys.len(), entries.len());
}

#[test]
fn classification_dimensions_are_listed_in_order() {
    let raw = raw_classification_dimensions();
    assert_eq!(raw.len(), 10);
    assert_eq!(raw[0].key, "temperature_mean");
    assert_eq!(raw[9].key, "freeze_thaw_tendency");
    let resolved = resolved_classification_dimensions();
    assert_eq!(resolved.len(), 7);
    assert_eq!(resolved[6].key, "climate_regime");
}
