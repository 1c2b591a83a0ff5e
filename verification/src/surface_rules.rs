//! Surface material rules: the per-biome block policy, the hydrology role of
//! a column, the material decision for one column, owner-site top
//! normalization and the surface plan of a whole area.
//!
//! Continuous inputs (masks, hints, hydration, runtime snow and wetness) reach
//! these rules already compared against their thresholds, as the flags and
//! bands of [`SurfaceColumnInput`] and [`GraphBiomeContext`].

use vstd::prelude::*;
use rayon::iter::{IntoParallelRefIterator, ParallelIterator};
use crate::graph::VoronoiSiteId;
use crate::surface_plan::{
    SurfaceColumnPlan, SurfaceHydrologyRole, SurfaceMixSource, SurfacePlanArea, SurfacePlanAreaStats,
    SurfacePlanConfig, apply_noisy_boundary_mixing, boundary_mixing_skipped,
    lemma_boundary_mixing_keeps_layout, material_variant, sources_view, spec_boundary_mixing,
    spec_material_variant,
};

verus! {

/// Biomes of the macro graph.
#[derive(Clone, Copy, Debug, PartialEq, Eq, Hash, Structural)]
pub enum GraphBiomeKind {
    ShallowOcean,
    DeepOcean,
    Mangrove,
    EstuarineCoast,
    LagoonCoast,
    RockyCoast,
    SandyCoast,
    Lake,
    Marsh,
    Swamp,
    FloodedForest,
    Desert,
    SemiDesert,
    Steppe,
    DryShrubland,
    MediterraneanShrubland,
    PolarIce,
    PolarBarrens,
    Tundra,
    SubalpineWoodland,
    AlpineMeadow,
    BorealForest,
    TropicalRainforest,
    MonsoonForest,
    TropicalDryForest,
    Savanna,
    TemperateRainforest,
    TemperateMixedForest,
    TemperateBroadleafForest,
    TemperateGrassland,
}

/// The block keys of a biome's surface: material family, the tops used by
/// default, when dry, when wet and when frozen, then subsurface, base,
/// exposed rock and sediment.
#[derive(Clone, Copy, Debug, PartialEq, Eq)]
pub struct BiomeSurfacePolicy {
    pub biome: GraphBiomeKind,
    pub family: &'static str,
    pub default_top: &'static str,
    pub dry_top: &'static str,
    pub wet_top: &'static str,
    pub frozen_top: &'static str,
    pub subsurface: &'static str,
    pub base: &'static str,
    pub exposed: &'static str,
    pub sediment: &'static str,
}

/// Block keys the block registry knows.
pub open spec fn is_known_block_key(key: Seq<char>) -> bool {
    key == "grass"@
        || key == "jungle_grass"@
        || key == "dirt"@
        || key == "stone"@
        || key == "sand"@
        || key == "gravel"@
        || key == "mud"@
        || key == "snow"@
        || key == "water"@
        || key == "coarse_dirt"@
        || key == "clay"@
        || key == "ice"@
        || key == "peat"@
        || key == "silt"@
        || key == "humus"@
        || key == "moss"@
        || key == "podzol"@
        || key == "thin_soil"@
        || key == "red_sand"@
        || key == "dry_grass"@
        || key == "wet_sand"@
        || key == "wet_gravel"@
        || key == "exposed_rock"@
        || key == "rock"@
        || key == "sandstone"@
        || key == "alpine_soil"@
        || key == "moraine"@
        || key == "laterite"@
}

/// Every block key of a policy is a known block key.
pub open spec fn policy_uses_known_keys(policy: BiomeSurfacePolicy) -> bool {
    &&& is_known_block_key(policy.default_top@)
    &&& is_known_block_key(policy.dry_top@)
    &&& is_known_block_key(policy.wet_top@)
    &&& is_known_block_key(policy.frozen_top@)
    &&& is_known_block_key(policy.subsurface@)
    &&& is_known_block_key(policy.base@)
    &&& is_known_block_key(policy.exposed@)
    &&& is_known_block_key(policy.sediment@)
}

/// The surface policy of each biome.
pub open spec fn spec_biome_surface_policy(biome: GraphBiomeKind) -> BiomeSurfacePolicy {
    match biome {
        GraphBiomeKind::ShallowOcean => BiomeSurfacePolicy { biome: GraphBiomeKind::ShallowOcean, family: "OceanicShelf", default_top: "sand", dry_top: "sand", wet_top: "silt", frozen_top: "ice", subsurface: "silt", base: "stone", exposed: "stone", sediment: "silt" },
        GraphBiomeKind::DeepOcean => BiomeSurfacePolicy { biome: GraphBiomeKind::DeepOcean, family: "DeepOceanFloor", default_top: "silt", dry_top: "silt", wet_top: "silt", frozen_top: "ice", subsurface: "clay", base: "stone", exposed: "stone", sediment: "silt" },
        GraphBiomeKind::Mangrove => BiomeSurfacePolicy { biome: GraphBiomeKind::Mangrove, family: "MangroveMudflat", default_top: "mud", dry_top: "mud", wet_top: "mud", frozen_top: "ice", subsurface: "peat", base: "dirt", exposed: "humus", sediment: "silt" },
        GraphBiomeKind::EstuarineCoast => BiomeSurfacePolicy { biome: GraphBiomeKind::EstuarineCoast, family: "EstuarineMudflat", default_top: "mud", dry_top: "mud", wet_top: "mud", frozen_top: "ice", subsurface: "silt", base: "clay", exposed: "wet_sand", sediment: "silt" },
        GraphBiomeKind::LagoonCoast => BiomeSurfacePolicy { biome: GraphBiomeKind::LagoonCoast, family: "LagoonMudflat", default_top: "mud", dry_top: "sand", wet_top: "wet_sand", frozen_top: "ice", subsurface: "silt", base: "clay", exposed: "sand", sediment: "silt" },
        GraphBiomeKind::RockyCoast => BiomeSurfacePolicy { biome: GraphBiomeKind::RockyCoast, family: "CoastalCliff", default_top: "gravel", dry_top: "gravel", wet_top: "wet_gravel", frozen_top: "snow", subsurface: "gravel", base: "stone", exposed: "rock", sediment: "wet_gravel" },
        GraphBiomeKind::SandyCoast => BiomeSurfacePolicy { biome: GraphBiomeKind::SandyCoast, family: "SandyBeach", default_top: "sand", dry_top: "sand", wet_top: "wet_sand", frozen_top: "snow", subsurface: "sand", base: "stone", exposed: "stone", sediment: "silt" },
        GraphBiomeKind::Lake => BiomeSurfacePolicy { biome: GraphBiomeKind::Lake, family: "InlandLakeShore", default_top: "silt", dry_top: "silt", wet_top: "mud", frozen_top: "ice", subsurface: "clay", base: "stone", exposed: "gravel", sediment: "silt" },
        GraphBiomeKind::Marsh => BiomeSurfacePolicy { biome: GraphBiomeKind::Marsh, family: "ColdWetland", default_top: "mud", dry_top: "mud", wet_top: "peat", frozen_top: "snow", subsurface: "clay", base: "dirt", exposed: "gravel", sediment: "silt" },
        GraphBiomeKind::Swamp => BiomeSurfacePolicy { biome: GraphBiomeKind::Swamp, family: "WarmSwamp", default_top: "peat", dry_top: "peat", wet_top: "mud", frozen_top: "ice", subsurface: "clay", base: "dirt", exposed: "humus", sediment: "silt" },
        GraphBiomeKind::FloodedForest => BiomeSurfacePolicy { biome: GraphBiomeKind::FloodedForest, family: "FloodedForestWetland", default_top: "mud", dry_top: "mud", wet_top: "peat", frozen_top: "snow", subsurface: "silt", base: "dirt", exposed: "humus", sediment: "silt" },
        GraphBiomeKind::Desert => BiomeSurfacePolicy { biome: GraphBiomeKind::Desert, family: "DesertSurface", default_top: "sand", dry_top: "sand", wet_top: "wet_sand", frozen_top: "sand", subsurface: "sand", base: "sandstone", exposed: "exposed_rock", sediment: "gravel" },
        GraphBiomeKind::SemiDesert => BiomeSurfacePolicy { biome: GraphBiomeKind::SemiDesert, family: "SemiDesertTransition", default_top: "red_sand", dry_top: "red_sand", wet_top: "wet_sand", frozen_top: "snow", subsurface: "coarse_dirt", base: "sandstone", exposed: "exposed_rock", sediment: "gravel" },
        GraphBiomeKind::Steppe => BiomeSurfacePolicy { biome: GraphBiomeKind::Steppe, family: "SteppeGrassland", default_top: "dry_grass", dry_top: "coarse_dirt", wet_top: "mud", frozen_top: "snow", subsurface: "dirt", base: "stone", exposed: "gravel", sediment: "gravel" },
        GraphBiomeKind::DryShrubland => BiomeSurfacePolicy { biome: GraphBiomeKind::DryShrubland, family: "DryShrublandRocky", default_top: "coarse_dirt", dry_top: "coarse_dirt", wet_top: "mud", frozen_top: "snow", subsurface: "dirt", base: "stone", exposed: "exposed_rock", sediment: "gravel" },
        GraphBiomeKind::MediterraneanShrubland => BiomeSurfacePolicy { biome: GraphBiomeKind::MediterraneanShrubland, family: "MediterraneanShrubland", default_top: "dry_grass", dry_top: "dry_grass", wet_top: "grass", frozen_top: "snow", subsurface: "coarse_dirt", base: "stone", exposed: "exposed_rock", sediment: "gravel" },
        GraphBiomeKind::PolarIce => BiomeSurfacePolicy { biome: GraphBiomeKind::PolarIce, family: "Icefield", default_top: "ice", dry_top: "ice", wet_top: "ice", frozen_top: "ice", subsurface: "snow", base: "stone", exposed: "rock", sediment: "moraine" },
        GraphBiomeKind::PolarBarrens => BiomeSurfacePolicy { biome: GraphBiomeKind::PolarBarrens, family: "TundraExposure", default_top: "thin_soil", dry_top: "thin_soil", wet_top: "moss", frozen_top: "snow", subsurface: "dirt", base: "stone", exposed: "gravel", sediment: "gravel" },
        GraphBiomeKind::Tundra => BiomeSurfacePolicy { biome: GraphBiomeKind::Tundra, family: "TundraExposure", default_top: "moss", dry_top: "thin_soil", wet_top: "moss", frozen_top: "snow", subsurface: "dirt", base: "stone", exposed: "gravel", sediment: "gravel" },
        GraphBiomeKind::SubalpineWoodland => BiomeSurfacePolicy { biome: GraphBiomeKind::SubalpineWoodland, family: "SubalpineWoodland", default_top: "moss", dry_top: "thin_soil", wet_top: "moss", frozen_top: "snow", subsurface: "thin_soil", base: "stone", exposed: "gravel", sediment: "gravel" },
        GraphBiomeKind::AlpineMeadow => BiomeSurfacePolicy { biome: GraphBiomeKind::AlpineMeadow, family: "AlpineMeadow", default_top: "alpine_soil", dry_top: "alpine_soil", wet_top: "gravel", frozen_top: "snow", subsurface: "moraine", base: "stone", exposed: "rock", sediment: "gravel" },
        GraphBiomeKind::BorealForest => BiomeSurfacePolicy { biome: GraphBiomeKind::BorealForest, family: "BorealForest", default_top: "podzol", dry_top: "podzol", wet_top: "moss", frozen_top: "snow", subsurface: "dirt", base: "stone", exposed: "gravel", sediment: "gravel" },
        GraphBiomeKind::TropicalRainforest => BiomeSurfacePolicy { biome: GraphBiomeKind::TropicalRainforest, family: "TropicalLowland", default_top: "jungle_grass", dry_top: "laterite", wet_top: "mud", frozen_top: "mud", subsurface: "humus", base: "dirt", exposed: "laterite", sediment: "silt" },
        GraphBiomeKind::MonsoonForest => BiomeSurfacePolicy { biome: GraphBiomeKind::MonsoonForest, family: "MonsoonForest", default_top: "jungle_grass", dry_top: "laterite", wet_top: "mud", frozen_top: "mud", subsurface: "humus", base: "dirt", exposed: "laterite", sediment: "silt" },
        GraphBiomeKind::TropicalDryForest => BiomeSurfacePolicy { biome: GraphBiomeKind::TropicalDryForest, family: "TropicalDryForest", default_top: "jungle_grass", dry_top: "laterite", wet_top: "mud", frozen_top: "mud", subsurface: "humus", base: "stone", exposed: "laterite", sediment: "gravel" },
        GraphBiomeKind::Savanna => BiomeSurfacePolicy { biome: GraphBiomeKind::Savanna, family: "SavannaGrassland", default_top: "dry_grass", dry_top: "dry_grass", wet_top: "grass", frozen_top: "dry_grass", subsurface: "dirt", base: "stone", exposed: "exposed_rock", sediment: "gravel" },
        GraphBiomeKind::TemperateRainforest => BiomeSurfacePolicy { biome: GraphBiomeKind::TemperateRainforest, family: "TemperateRainforest", default_top: "grass", dry_top: "grass", wet_top: "mud", frozen_top: "snow", subsurface: "humus", base: "stone", exposed: "exposed_rock", sediment: "silt" },
        GraphBiomeKind::TemperateMixedForest => BiomeSurfacePolicy { biome: GraphBiomeKind::TemperateMixedForest, family: "TemperateMixedForest", default_top: "grass", dry_top: "coarse_dirt", wet_top: "mud", frozen_top: "snow", subsurface: "dirt", base: "stone", exposed: "exposed_rock", sediment: "gravel" },
        GraphBiomeKind::TemperateBroadleafForest => BiomeSurfacePolicy { biome: GraphBiomeKind::TemperateBroadleafForest, family: "TemperateBroadleafForest", default_top: "grass", dry_top: "grass", wet_top: "mud", frozen_top: "snow", subsurface: "humus", base: "stone", exposed: "exposed_rock", sediment: "gravel" },
        GraphBiomeKind::TemperateGrassland => BiomeSurfacePolicy { biome: GraphBiomeKind::TemperateGrassland, family: "TemperateGrassland", default_top: "grass", dry_top: "coarse_dirt", wet_top: "mud", frozen_top: "snow", subsurface: "dirt", base: "stone", exposed: "exposed_rock", sediment: "gravel" },
    }
}

/// The block keys a biome's surface is built from. Each key is a known block key.
pub fn biome_surface_policy(biome: GraphBiomeKind) -> (policy: BiomeSurfacePolicy)
    ensures
        policy == spec_biome_surface_policy(biome),
        policy.biome == biome,
        policy_uses_known_keys(policy),
{
    match biome {
        GraphBiomeKind::ShallowOcean => BiomeSurfacePolicy { biome: GraphBiomeKind::ShallowOcean, family: "OceanicShelf", default_top: "sand", dry_top: "sand", wet_top: "silt", frozen_top: "ice", subsurface: "silt", base: "stone", exposed: "stone", sediment: "silt" },
        GraphBiomeKind::DeepOcean => BiomeSurfacePolicy { biome: GraphBiomeKind::DeepOcean, family: "DeepOceanFloor", default_top: "silt", dry_top: "silt", wet_top: "silt", frozen_top: "ice", subsurface: "clay", base: "stone", exposed: "stone", sediment: "silt" },
        GraphBiomeKind::Mangrove => BiomeSurfacePolicy { biome: GraphBiomeKind::Mangrove, family: "MangroveMudflat", default_top: "mud", dry_top: "mud", wet_top: "mud", frozen_top: "ice", subsurface: "peat", base: "dirt", exposed: "humus", sediment: "silt" },
        GraphBiomeKind::EstuarineCoast => BiomeSurfacePolicy { biome: GraphBiomeKind::EstuarineCoast, family: "EstuarineMudflat", default_top: "mud", dry_top: "mud", wet_top: "mud", frozen_top: "ice", subsurface: "silt", base: "clay", exposed: "wet_sand", sediment: "silt" },
        GraphBiomeKind::LagoonCoast => BiomeSurfacePolicy { biome: GraphBiomeKind::LagoonCoast, family: "LagoonMudflat", default_top: "mud", dry_top: "sand", wet_top: "wet_sand", frozen_top: "ice", subsurface: "silt", base: "clay", exposed: "sand", sediment: "silt" },
        GraphBiomeKind::RockyCoast => BiomeSurfacePolicy { biome: GraphBiomeKind::RockyCoast, family: "CoastalCliff", default_top: "gravel", dry_top: "gravel", wet_top: "wet_gravel", frozen_top: "snow", subsurface: "gravel", base: "stone", exposed: "rock", sediment: "wet_gravel" },
        GraphBiomeKind::SandyCoast => BiomeSurfacePolicy { biome: GraphBiomeKind::SandyCoast, family: "SandyBeach", default_top: "sand", dry_top: "sand", wet_top: "wet_sand", frozen_top: "snow", subsurface: "sand", base: "stone", exposed: "stone", sediment: "silt" },
        GraphBiomeKind::Lake => BiomeSurfacePolicy { biome: GraphBiomeKind::Lake, family: "InlandLakeShore", default_top: "silt", dry_top: "silt", wet_top: "mud", frozen_top: "ice", subsurface: "clay", base: "stone", exposed: "gravel", sediment: "silt" },
        GraphBiomeKind::Marsh => BiomeSurfacePolicy { biome: GraphBiomeKind::Marsh, family: "ColdWetland", default_top: "mud", dry_top: "mud", wet_top: "peat", frozen_top: "snow", subsurface: "clay", base: "dirt", exposed: "gravel", sediment: "silt" },
        GraphBiomeKind::Swamp => BiomeSurfacePolicy { biome: GraphBiomeKind::Swamp, family: "WarmSwamp", default_top: "peat", dry_top: "peat", wet_top: "mud", frozen_top: "ice", subsurface: "clay", base: "dirt", exposed: "humus", sediment: "silt" },
        GraphBiomeKind::FloodedForest => BiomeSurfacePolicy { biome: GraphBiomeKind::FloodedForest, family: "FloodedForestWetland", default_top: "mud", dry_top: "mud", wet_top: "peat", frozen_top: "snow", subsurface: "silt", base: "dirt", exposed: "humus", sediment: "silt" },
        GraphBiomeKind::Desert => BiomeSurfacePolicy { biome: GraphBiomeKind::Desert, family: "DesertSurface", default_top: "sand", dry_top: "sand", wet_top: "wet_sand", frozen_top: "sand", subsurface: "sand", base: "sandstone", exposed: "exposed_rock", sediment: "gravel" },
        GraphBiomeKind::SemiDesert => BiomeSurfacePolicy { biome: GraphBiomeKind::SemiDesert, family: "SemiDesertTransition", default_top: "red_sand", dry_top: "red_sand", wet_top: "wet_sand", frozen_top: "snow", subsurface: "coarse_dirt", base: "sandstone", exposed: "exposed_rock", sediment: "gravel" },
        GraphBiomeKind::Steppe => BiomeSurfacePolicy { biome: GraphBiomeKind::Steppe, family: "SteppeGrassland", default_top: "dry_grass", dry_top: "coarse_dirt", wet_top: "mud", frozen_top: "snow", subsurface: "dirt", base: "stone", exposed: "gravel", sediment: "gravel" },
        GraphBiomeKind::DryShrubland => BiomeSurfacePolicy { biome: GraphBiomeKind::DryShrubland, family: "DryShrublandRocky", default_top: "coarse_dirt", dry_top: "coarse_dirt", wet_top: "mud", frozen_top: "snow", subsurface: "dirt", base: "stone", exposed: "exposed_rock", sediment: "gravel" },
        GraphBiomeKind::MediterraneanShrubland => BiomeSurfacePolicy { biome: GraphBiomeKind::MediterraneanShrubland, family: "MediterraneanShrubland", default_top: "dry_grass", dry_top: "dry_grass", wet_top: "grass", frozen_top: "snow", subsurface: "coarse_dirt", base: "stone", exposed: "exposed_rock", sediment: "gravel" },
        GraphBiomeKind::PolarIce => BiomeSurfacePolicy { biome: GraphBiomeKind::PolarIce, family: "Icefield", default_top: "ice", dry_top: "ice", wet_top: "ice", frozen_top: "ice", subsurface: "snow", base: "stone", exposed: "rock", sediment: "moraine" },
        GraphBiomeKind::PolarBarrens => BiomeSurfacePolicy { biome: GraphBiomeKind::PolarBarrens, family: "TundraExposure", default_top: "thin_soil", dry_top: "thin_soil", wet_top: "moss", frozen_top: "snow", subsurface: "dirt", base: "stone", exposed: "gravel", sediment: "gravel" },
        GraphBiomeKind::Tundra => BiomeSurfacePolicy { biome: GraphBiomeKind::Tundra, family: "TundraExposure", default_top: "moss", dry_top: "thin_soil", wet_top: "moss", frozen_top: "snow", subsurface: "dirt", base: "stone", exposed: "gravel", sediment: "gravel" },
        GraphBiomeKind::SubalpineWoodland => BiomeSurfacePolicy { biome: GraphBiomeKind::SubalpineWoodland, family: "SubalpineWoodland", default_top: "moss", dry_top: "thin_soil", wet_top: "moss", frozen_top: "snow", subsurface: "thin_soil", base: "stone", exposed: "gravel", sediment: "gravel" },
        GraphBiomeKind::AlpineMeadow => BiomeSurfacePolicy { biome: GraphBiomeKind::AlpineMeadow, family: "AlpineMeadow", default_top: "alpine_soil", dry_top: "alpine_soil", wet_top: "gravel", frozen_top: "snow", subsurface: "moraine", base: "stone", exposed: "rock", sediment: "gravel" },
        GraphBiomeKind::BorealForest => BiomeSurfacePolicy { biome: GraphBiomeKind::BorealForest, family: "BorealForest", default_top: "podzol", dry_top: "podzol", wet_top: "moss", frozen_top: "snow", subsurface: "dirt", base: "stone", exposed: "gravel", sediment: "gravel" },
        GraphBiomeKind::TropicalRainforest => BiomeSurfacePolicy { biome: GraphBiomeKind::TropicalRainforest, family: "TropicalLowland", default_top: "jungle_grass", dry_top: "laterite", wet_top: "mud", frozen_top: "mud", subsurface: "humus", base: "dirt", exposed: "laterite", sediment: "silt" },
        GraphBiomeKind::MonsoonForest => BiomeSurfacePolicy { biome: GraphBiomeKind::MonsoonForest, family: "MonsoonForest", default_top: "jungle_grass", dry_top: "laterite", wet_top: "mud", frozen_top: "mud", subsurface: "humus", base: "dirt", exposed: "laterite", sediment: "silt" },
        GraphBiomeKind::TropicalDryForest => BiomeSurfacePolicy { biome: GraphBiomeKind::TropicalDryForest, family: "TropicalDryForest", default_top: "jungle_grass", dry_top: "laterite", wet_top: "mud", frozen_top: "mud", subsurface: "humus", base: "stone", exposed: "laterite", sediment: "gravel" },
        GraphBiomeKind::Savanna => BiomeSurfacePolicy { biome: GraphBiomeKind::Savanna, family: "SavannaGrassland", default_top: "dry_grass", dry_top: "dry_grass", wet_top: "grass", frozen_top: "dry_grass", subsurface: "dirt", base: "stone", exposed: "exposed_rock", sediment: "gravel" },
        GraphBiomeKind::TemperateRainforest => BiomeSurfacePolicy { biome: GraphBiomeKind::TemperateRainforest, family: "TemperateRainforest", default_top: "grass", dry_top: "grass", wet_top: "mud", frozen_top: "snow", subsurface: "humus", base: "stone", exposed: "exposed_rock", sediment: "silt" },
        GraphBiomeKind::TemperateMixedForest => BiomeSurfacePolicy { biome: GraphBiomeKind::TemperateMixedForest, family: "TemperateMixedForest", default_top: "grass", dry_top: "coarse_dirt", wet_top: "mud", frozen_top: "snow", subsurface: "dirt", base: "stone", exposed: "exposed_rock", sediment: "gravel" },
        GraphBiomeKind::TemperateBroadleafForest => BiomeSurfacePolicy { biome: GraphBiomeKind::TemperateBroadleafForest, family: "TemperateBroadleafForest", default_top: "grass", dry_top: "grass", wet_top: "mud", frozen_top: "snow", subsurface: "humus", base: "stone", exposed: "exposed_rock", sediment: "gravel" },
        GraphBiomeKind::TemperateGrassland => BiomeSurfacePolicy { biome: GraphBiomeKind::TemperateGrassland, family: "TemperateGrassland", default_top: "grass", dry_top: "coarse_dirt", wet_top: "mud", frozen_top: "snow", subsurface: "dirt", base: "stone", exposed: "exposed_rock", sediment: "gravel" },
    }
}

/// The water role the biome graph gives a column's region.
#[derive(Clone, Copy, Debug, PartialEq, Eq, Hash, Structural)]
pub enum GraphBiomeWaterRole {
    Land,
    ShallowOcean,
    DeepOcean,
    Lake,
    Wetland,
    Coast,
    DryBasin,
}

/// Hydration of a biome context: `Wet` above 0.66, `Dry` below 0.34,
/// `Moderate` between.
#[derive(Clone, Copy, Debug, PartialEq, Eq, Hash, Structural)]
pub enum HydrationBand {
    Dry,
    Moderate,
    Wet,
}

/// What the biome graph says of a column's surroundings.
#[derive(Clone, Copy, Debug, PartialEq, Eq, Hash, Structural)]
pub struct GraphBiomeContext {
    pub water_role: GraphBiomeWaterRole,
    pub hydration: HydrationBand,
}

/// Runtime surface state of a column: `Snowy` where snow is deeper than
/// 0.35, otherwise `Wet` where wetness is above 0.65, otherwise `Plain`.
#[derive(Clone, Copy, Debug, PartialEq, Eq, Hash, Structural)]
pub enum SurfaceConditionBand {
    Plain,
    Wet,
    Snowy,
}

/// Terrain class of a heightfield column.
#[derive(Clone, Copy, Debug, PartialEq, Eq, Hash, Structural)]
pub enum HeightfieldTerrainKind {
    Land,
    Ocean,
    Lake,
    River,
    Coast,
    DryBasin,
    Ridge,
}

/// The heightfield thresholds the surface rules test, each already decided.
#[derive(Clone, Copy, Debug, PartialEq, Eq, Hash, Structural)]
pub struct HeightfieldHints {
    /// Ocean mask above 0.5.
    pub ocean_masked: bool,
    /// Lake mask above 0.5.
    pub lake_masked: bool,
    /// Dry basin mask above 0.5.
    pub dry_basin_masked: bool,
    /// River valley strength at least the river water threshold, with some river flow.
    pub river_water_valley: bool,
    /// Ridge influence at least the ridge threshold.
    pub ridge_dominant: bool,
    /// Coast mask at least 1.6 times the coast threshold.
    pub coast_mudflat: bool,
    /// A river mouth: flow above 0.12, a carved bed, valley strength at least
    /// 0.68 of the river water threshold.
    pub river_mouth: bool,
    /// A dry river bank: flow above 0.12, valley strength at least 0.72 of the
    /// river water threshold, and a carved bed or rough, gravelly or cut banks.
    pub dry_river_bank: bool,
    /// Terrain ruggedness above 0.48.
    pub rugged_floor: bool,
    /// River gravel hint above 0.55.
    pub lake_gravel: bool,
    /// River gravel hint above 0.45 or river flow above 0.58.
    pub river_gravel: bool,
    /// The heightfield column holds water above its surface.
    pub water_column: bool,
}

/// Everything the material rules read of one column.
#[derive(Clone, Copy, Debug, PartialEq, Eq, Hash, Structural)]
pub struct SurfaceColumnInput {
    pub world_x: i32,
    pub world_z: i32,
    pub surface_y: i32,
    pub water_y: Option<i32>,
    pub terrain_kind: HeightfieldTerrainKind,
    pub hints: HeightfieldHints,
    pub biome: Option<GraphBiomeKind>,
    pub biome_context: Option<GraphBiomeContext>,
    pub runtime_surface: Option<SurfaceConditionBand>,
}

/// Marsh, swamp and flooded forest biomes, or a wetland biome context.
pub open spec fn spec_is_wetland(input: SurfaceColumnInput) -> bool {
    ||| input.biome == Some(GraphBiomeKind::Marsh)
    ||| input.biome == Some(GraphBiomeKind::Swamp)
    ||| input.biome == Some(GraphBiomeKind::FloodedForest)
    ||| input.biome_context matches Some(c) && c.water_role == GraphBiomeWaterRole::Wetland
}

pub fn is_wetland(input: &SurfaceColumnInput) -> (wetland: bool)
    ensures
        wetland == spec_is_wetland(*input),
{
    let wet_biome = match input.biome {
        Some(GraphBiomeKind::Marsh) | Some(GraphBiomeKind::Swamp) | Some(GraphBiomeKind::FloodedForest) => true,
        _ => false,
    };
    wet_biome || match input.biome_context {
        Some(context) => context.water_role == GraphBiomeWaterRole::Wetland,
        None => false,
    }
}

/// The five coastal biomes.
pub open spec fn spec_is_coast_biome(biome: Option<GraphBiomeKind>) -> bool {
    match biome {
        Some(GraphBiomeKind::Mangrove)
        | Some(GraphBiomeKind::EstuarineCoast)
        | Some(GraphBiomeKind::LagoonCoast)
        | Some(GraphBiomeKind::RockyCoast)
        | Some(GraphBiomeKind::SandyCoast) => true,
        _ => false,
    }
}

pub fn is_coast_biome(biome: Option<GraphBiomeKind>) -> (coast: bool)
    ensures
        coast == spec_is_coast_biome(biome),
{
    match biome {
        Some(GraphBiomeKind::Mangrove)
        | Some(GraphBiomeKind::EstuarineCoast)
        | Some(GraphBiomeKind::LagoonCoast)
        | Some(GraphBiomeKind::RockyCoast)
        | Some(GraphBiomeKind::SandyCoast) => true,
        _ => false,
    }
}

/// Whether the biome context has this water role.
pub open spec fn context_role_is(input: SurfaceColumnInput, role: GraphBiomeWaterRole) -> bool {
    input.biome_context matches Some(c) && c.water_role == role
}

/// The hydrology role of a column: the first of ocean, lake, river, wetland,
/// coast, dry basin and ridge whose evidence holds, else land.
pub open spec fn spec_hydrology_role(input: SurfaceColumnInput) -> SurfaceHydrologyRole {
    if input.terrain_kind == HeightfieldTerrainKind::Ocean || input.hints.ocean_masked {
        SurfaceHydrologyRole::Ocean
    } else if context_role_is(input, GraphBiomeWaterRole::ShallowOcean) || context_role_is(
        input,
        GraphBiomeWaterRole::DeepOcean,
    ) {
        SurfaceHydrologyRole::Ocean
    } else if input.terrain_kind == HeightfieldTerrainKind::Lake || input.hints.lake_masked
        || context_role_is(input, GraphBiomeWaterRole::Lake) || input.biome == Some(GraphBiomeKind::Lake) {
        SurfaceHydrologyRole::Lake
    } else if input.terrain_kind == HeightfieldTerrainKind::River || input.hints.river_water_valley {
        SurfaceHydrologyRole::River
    } else if spec_is_wetland(input) {
        SurfaceHydrologyRole::Wetland
    } else if input.terrain_kind == HeightfieldTerrainKind::Coast || context_role_is(
        input,
        GraphBiomeWaterRole::Coast,
    ) || spec_is_coast_biome(input.biome) {
        SurfaceHydrologyRole::Coast
    } else if input.terrain_kind == HeightfieldTerrainKind::DryBasin || input.hints.dry_basin_masked
        || context_role_is(input, GraphBiomeWaterRole::DryBasin) {
        SurfaceHydrologyRole::DryBasin
    } else if input.terrain_kind == HeightfieldTerrainKind::Ridge || input.hints.ridge_dominant {
        SurfaceHydrologyRole::Ridge
    } else {
        SurfaceHydrologyRole::Land
    }
}

fn context_has_role(input: &SurfaceColumnInput, role: GraphBiomeWaterRole) -> (has: bool)
    ensures
        has == context_role_is(*input, role),
{
    match input.biome_context {
        Some(context) => context.water_role == role,
        None => false,
    }
}

/// The hydrology role of a column.
pub fn hydrology_role(input: &SurfaceColumnInput) -> (role: SurfaceHydrologyRole)
    ensures
        role == spec_hydrology_role(*input),
{
    if input.terrain_kind == HeightfieldTerrainKind::Ocean || input.hints.ocean_masked {
        SurfaceHydrologyRole::Ocean
    } else if context_has_role(input, GraphBiomeWaterRole::ShallowOcean) || context_has_role(
        input,
        GraphBiomeWaterRole::DeepOcean,
    ) {
        SurfaceHydrologyRole::Ocean
    } else if input.terrain_kind == HeightfieldTerrainKind::Lake || input.hints.lake_masked
        || context_has_role(input, GraphBiomeWaterRole::Lake) || input.biome == Some(GraphBiomeKind::Lake) {
        SurfaceHydrologyRole::Lake
    } else if input.terrain_kind == HeightfieldTerrainKind::River || input.hints.river_water_valley {
        SurfaceHydrologyRole::River
    } else if is_wetland(input) {
        SurfaceHydrologyRole::Wetland
    } else if input.terrain_kind == HeightfieldTerrainKind::Coast || context_has_role(
        input,
        GraphBiomeWaterRole::Coast,
    ) || is_coast_biome(input.biome) {
        SurfaceHydrologyRole::Coast
    } else if input.terrain_kind == HeightfieldTerrainKind::DryBasin || input.hints.dry_basin_masked
        || context_has_role(input, GraphBiomeWaterRole::DryBasin) {
        SurfaceHydrologyRole::DryBasin
    } else if input.terrain_kind == HeightfieldTerrainKind::Ridge || input.hints.ridge_dominant {
        SurfaceHydrologyRole::Ridge
    } else {
        SurfaceHydrologyRole::Land
    }
}

/// A mangrove, estuary or lagoon coast column is a continuous mudflat where it
/// holds water, is coast terrain or lies deep in the coast mask.
pub open spec fn spec_continuous_coast_mudflat(input: SurfaceColumnInput) -> bool {
    input.water_y is Some || input.terrain_kind == HeightfieldTerrainKind::Coast || input.hints.coast_mudflat
}

pub fn should_apply_continuous_coast_mudflat(input: &SurfaceColumnInput) -> (mudflat: bool)
    ensures
        mudflat == spec_continuous_coast_mudflat(*input),
{
    input.water_y.is_some() || input.terrain_kind == HeightfieldTerrainKind::Coast || input.hints.coast_mudflat
}

/// Sediment spot at a river mouth: mud for low variants, silt for high ones.
pub open spec fn spec_river_mouth_sediment(hints: HeightfieldHints, variant: u8) -> Option<&'static str> {
    if !hints.river_mouth {
        None
    } else if variant < 12 {
        Some("mud")
    } else if variant > 84 {
        Some("silt")
    } else {
        None
    }
}

pub fn local_river_mouth_sediment(hints: HeightfieldHints, variant: u8) -> (sediment: Option<&'static str>)
    ensures
        sediment == spec_river_mouth_sediment(hints, variant),
{
    if !hints.river_mouth {
        return None;
    }
    if variant < 12 {
        Some("mud")
    } else if variant > 84 {
        Some("silt")
    } else {
        None
    }
}

/// Sediment spot on a dry river bank: gravel for high variants, the biome's
/// sediment for low ones.
pub open spec fn spec_dry_river_bank_sediment(
    hints: HeightfieldHints,
    policy: BiomeSurfacePolicy,
    variant: u8,
) -> Option<&'static str> {
    if !hints.dry_river_bank {
        None
    } else if variant > 86 {
        Some("gravel")
    } else if variant < 10 {
        Some(policy.sediment)
    } else {
        None
    }
}

pub fn local_dry_river_bank_sediment(
    hints: HeightfieldHints,
    policy: BiomeSurfacePolicy,
    variant: u8,
) -> (sediment: Option<&'static str>)
    ensures
        sediment == spec_dry_river_bank_sediment(hints, policy, variant),
{
    if !hints.dry_river_bank {
        return None;
    }
    if variant > 86 {
        Some("gravel")
    } else if variant < 10 {
        Some(policy.sediment)
    } else {
        None
    }
}

/// The material fields a column's role decides.
#[derive(Clone, Copy, Debug, PartialEq, Eq)]
pub struct SurfaceMaterials {
    pub top: &'static str,
    pub subsurface: &'static str,
    pub underwater_top: &'static str,
    pub sediment: &'static str,
    pub soil_depth: u8,
    pub vegetation_allowed: bool,
}

/// Top chosen by biome context hydration on ridges and dry land.
pub open spec fn spec_hydration_top(input: SurfaceColumnInput, policy: BiomeSurfacePolicy, variant: u8, top: &'static str) -> &'static str {
    match input.biome_context {
        Some(c) => if c.hydration == HydrationBand::Wet && variant > 50 {
            policy.wet_top
        } else if c.hydration == HydrationBand::Dry && variant > 45 {
            policy.dry_top
        } else {
            top
        },
        None => top,
    }
}

/// The coast top: mangrove, estuary and lagoon coasts are mudflats or river
/// mouths where they qualify, other coasts are sand, wet where watered.
pub open spec fn spec_coast_top(input: SurfaceColumnInput, biome: GraphBiomeKind, variant: u8) -> &'static str {
    if biome == GraphBiomeKind::Mangrove || biome == GraphBiomeKind::EstuarineCoast || biome
        == GraphBiomeKind::LagoonCoast {
        if spec_continuous_coast_mudflat(input) {
            if variant > 62 {
                "silt"
            } else {
                "mud"
            }
        } else if spec_river_mouth_sediment(input.hints, variant) is Some {
            spec_river_mouth_sediment(input.hints, variant).unwrap()
        } else if variant > 54 {
            "wet_sand"
        } else {
            "sand"
        }
    } else if input.water_y is Some || variant > 54 {
        "wet_sand"
    } else {
        "sand"
    }
}

/// Materials of a column by hydrology role, before runtime snow and wetness.
pub open spec fn spec_role_materials(
    input: SurfaceColumnInput,
    config: SurfacePlanConfig,
    role: SurfaceHydrologyRole,
    biome: GraphBiomeKind,
    policy: BiomeSurfacePolicy,
    variant: u8,
) -> SurfaceMaterials {
    let base = SurfaceMaterials {
        top: policy.default_top,
        subsurface: policy.subsurface,
        underwater_top: policy.sediment,
        sediment: policy.sediment,
        soil_depth: config.default_soil_depth_blocks,
        vegetation_allowed: true,
    };
    match role {
        SurfaceHydrologyRole::Ocean => {
            let top = if input.hints.rugged_floor || variant > 80 {
                "gravel"
            } else {
                policy.sediment
            };
            SurfaceMaterials {
                top,
                underwater_top: top,
                sediment: top,
                subsurface: if variant > 70 {
                    "clay"
                } else {
                    "silt"
                },
                soil_depth: config.shallow_soil_depth_blocks,
                vegetation_allowed: false,
            }
        },
        SurfaceHydrologyRole::Lake => {
            let top = if input.hints.lake_gravel || variant > 86 {
                "gravel"
            } else if variant < 28 {
                "mud"
            } else {
                "silt"
            };
            SurfaceMaterials {
                top,
                underwater_top: top,
                sediment: top,
                subsurface: "clay",
                soil_depth: config.shallow_soil_depth_blocks,
                vegetation_allowed: false,
            }
        },
        SurfaceHydrologyRole::River => {
            let gravelly = input.hints.river_gravel || variant > 64;
            let top = if gravelly {
                "wet_gravel"
            } else if variant < 24 {
                "mud"
            } else {
                "silt"
            };
            let sediment = if gravelly {
                "gravel"
            } else {
                "silt"
            };
            SurfaceMaterials {
                top,
                underwater_top: top,
                sediment,
                subsurface: sediment,
                soil_depth: config.shallow_soil_depth_blocks,
                vegetation_allowed: false,
            }
        },
        SurfaceHydrologyRole::Wetland => {
            let top = if variant < 38 {
                policy.wet_top
            } else if variant < 72 {
                "mud"
            } else {
                "peat"
            };
            let sediment = if variant > 76 {
                "clay"
            } else {
                "silt"
            };
            SurfaceMaterials {
                top,
                underwater_top: top,
                sediment,
                subsurface: sediment,
                soil_depth: config.deep_soil_depth_blocks,
                vegetation_allowed: !input.hints.water_column,
            }
        },
        SurfaceHydrologyRole::Coast => {
            let top = spec_coast_top(input, biome, variant);
            SurfaceMaterials {
                top,
                underwater_top: top,
                sediment: "silt",
                subsurface: policy.subsurface,
                soil_depth: config.shallow_soil_depth_blocks,
                vegetation_allowed: false,
            }
        },
        SurfaceHydrologyRole::DryBasin => {
            let top = if variant < 34 {
                "clay"
            } else if variant < 68 {
                "silt"
            } else {
                policy.dry_top
            };
            let sediment = if variant < 50 {
                "clay"
            } else {
                "silt"
            };
            SurfaceMaterials {
                top,
                underwater_top: top,
                sediment,
                subsurface: sediment,
                vegetation_allowed: false,
                ..base
            }
        },
        SurfaceHydrologyRole::Ridge => SurfaceMaterials {
            top: spec_hydration_top(input, policy, variant, policy.default_top),
            ..base
        },
        SurfaceHydrologyRole::Land => match spec_dry_river_bank_sediment(input.hints, policy, variant) {
            Some(bank) => SurfaceMaterials { top: bank, sediment: bank, ..base },
            None => SurfaceMaterials {
                top: spec_hydration_top(input, policy, variant, policy.default_top),
                ..base
            },
        },
    }
}

/// The top after runtime state: snow freezes any top; wetness wets tops other
/// than ocean, lake and river beds.
pub open spec fn spec_runtime_top(
    surface: Option<SurfaceConditionBand>,
    role: SurfaceHydrologyRole,
    policy: BiomeSurfacePolicy,
    top: &'static str,
) -> &'static str {
    match surface {
        Some(SurfaceConditionBand::Snowy) => policy.frozen_top,
        Some(SurfaceConditionBand::Wet) => if role == SurfaceHydrologyRole::Ocean || role
            == SurfaceHydrologyRole::Lake || role == SurfaceHydrologyRole::River {
            top
        } else {
            policy.wet_top
        },
        _ => top,
    }
}

/// The biome a column is planned with: its own, or temperate grassland.
pub open spec fn planned_biome(input: SurfaceColumnInput) -> GraphBiomeKind {
    match input.biome {
        Some(b) => b,
        None => GraphBiomeKind::TemperateGrassland,
    }
}

/// The surface plan of one column.
pub open spec fn spec_resolve_surface_column(input: SurfaceColumnInput, config: SurfacePlanConfig) -> SurfaceColumnPlan {
    let biome = planned_biome(input);
    let policy = spec_biome_surface_policy(biome);
    let role = spec_hydrology_role(input);
    let variant = spec_material_variant(input.world_x, input.world_z, config, policy.family);
    let m = spec_role_materials(input, config, role, biome, policy, variant);
    SurfaceColumnPlan {
        world_x: input.world_x,
        world_z: input.world_z,
        surface_y: input.surface_y,
        water_y: input.water_y,
        hydrology_role: role,
        top_block: spec_runtime_top(input.runtime_surface, role, policy, m.top),
        subsurface_block: m.subsurface,
        base_block: policy.base,
        underwater_top_block: m.underwater_top,
        exposed_block: policy.exposed,
        sediment_block: m.sediment,
        soil_depth_blocks: m.soil_depth,
        vegetation_allowed: m.vegetation_allowed,
        cover_phase: variant % 4,
    }
}

/// Every block key of a column plan is a known block key.
pub open spec fn plan_uses_known_keys(plan: SurfaceColumnPlan) -> bool {
    &&& is_known_block_key(plan.top_block@)
    &&& is_known_block_key(plan.subsurface_block@)
    &&& is_known_block_key(plan.base_block@)
    &&& is_known_block_key(plan.underwater_top_block@)
    &&& is_known_block_key(plan.exposed_block@)
    &&& is_known_block_key(plan.sediment_block@)
}

fn hydration_top(
    input: &SurfaceColumnInput,
    policy: BiomeSurfacePolicy,
    variant: u8,
    top: &'static str,
) -> (chosen: &'static str)
    ensures
        chosen == spec_hydration_top(*input, policy, variant, top),
{
    match input.biome_context {
        Some(context) => if context.hydration == HydrationBand::Wet && variant > 50 {
            policy.wet_top
        } else if context.hydration == HydrationBand::Dry && variant > 45 {
            policy.dry_top
        } else {
            top
        },
        None => top,
    }
}

fn coast_top(input: &SurfaceColumnInput, biome: GraphBiomeKind, variant: u8) -> (top: &'static str)
    ensures
        top == spec_coast_top(*input, biome, variant),
{
    if biome == GraphBiomeKind::Mangrove || biome == GraphBiomeKind::EstuarineCoast || biome
        == GraphBiomeKind::LagoonCoast {
        if should_apply_continuous_coast_mudflat(input) {
            if variant > 62 {
                "silt"
            } else {
                "mud"
            }
        } else {
            match local_river_mouth_sediment(input.hints, variant) {
                Some(mouth) => mouth,
                None => if variant > 54 {
                    "wet_sand"
                } else {
                    "sand"
                },
            }
        }
    } else if input.water_y.is_some() || variant > 54 {
        "wet_sand"
    } else {
        "sand"
    }
}

fn role_materials(
    input: &SurfaceColumnInput,
    config: SurfacePlanConfig,
    role: SurfaceHydrologyRole,
    biome: GraphBiomeKind,
    policy: BiomeSurfacePolicy,
    variant: u8,
) -> (materials: SurfaceMaterials)
    ensures
        materials == spec_role_materials(*input, config, role, biome, policy, variant),
{
    let base = SurfaceMaterials {
        top: policy.default_top,
        subsurface: policy.subsurface,
        underwater_top: policy.sediment,
        sediment: policy.sediment,
        soil_depth: config.default_soil_depth_blocks,
        vegetation_allowed: true,
    };
    match role {
        SurfaceHydrologyRole::Ocean => {
            let top = if input.hints.rugged_floor || variant > 80 {
                "gravel"
            } else {
                policy.sediment
            };
            SurfaceMaterials {
                top,
                underwater_top: top,
                sediment: top,
                subsurface: if variant > 70 {
                    "clay"
                } else {
                    "silt"
                },
                soil_depth: config.shallow_soil_depth_blocks,
                vegetation_allowed: false,
            }
        },
        SurfaceHydrologyRole::Lake => {
            let top = if input.hints.lake_gravel || variant > 86 {
                "gravel"
            } else if variant < 28 {
                "mud"
            } else {
                "silt"
            };
            SurfaceMaterials {
                top,
                underwater_top: top,
                sediment: top,
                subsurface: "clay",
                soil_depth: config.shallow_soil_depth_blocks,
                vegetation_allowed: false,
            }
        },
        SurfaceHydrologyRole::River => {
            let gravelly = input.hints.river_gravel || variant > 64;
            let top = if gravelly {
                "wet_gravel"
            } else if variant < 24 {
                "mud"
            } else {
                "silt"
            };
            let sediment = if gravelly {
                "gravel"
            } else {
                "silt"
            };
            SurfaceMaterials {
                top,
                underwater_top: top,
                sediment,
                subsurface: sediment,
                soil_depth: config.shallow_soil_depth_blocks,
                vegetation_allowed: false,
            }
        },
        SurfaceHydrologyRole::Wetland => {
            let top = if variant < 38 {
                policy.wet_top
            } else if variant < 72 {
                "mud"
            } else {
                "peat"
            };
            let sediment = if variant > 76 {
                "clay"
            } else {
                "silt"
            };
            SurfaceMaterials {
                top,
                underwater_top: top,
                sediment,
                subsurface: sediment,
                soil_depth: config.deep_soil_depth_blocks,
                vegetation_allowed: !input.hints.water_column,
            }
        },
        SurfaceHydrologyRole::Coast => {
            let top = coast_top(input, biome, variant);
            SurfaceMaterials {
                top,
                underwater_top: top,
                sediment: "silt",
                subsurface: policy.subsurface,
                soil_depth: config.shallow_soil_depth_blocks,
                vegetation_allowed: false,
            }
        },
        SurfaceHydrologyRole::DryBasin => {
            let top = if variant < 34 {
                "clay"
            } else if variant < 68 {
                "silt"
            } else {
                policy.dry_top
            };
            let sediment = if variant < 50 {
                "clay"
            } else {
                "silt"
            };
            SurfaceMaterials {
                top,
                underwater_top: top,
                sediment,
                subsurface: sediment,
                vegetation_allowed: false,
                ..base
            }
        },
        SurfaceHydrologyRole::Ridge => SurfaceMaterials {
            top: hydration_top(input, policy, variant, policy.default_top),
            ..base
        },
        SurfaceHydrologyRole::Land => match local_dry_river_bank_sediment(input.hints, policy, variant) {
            Some(bank) => SurfaceMaterials { top: bank, sediment: bank, ..base },
            None => SurfaceMaterials { top: hydration_top(input, policy, variant, policy.default_top), ..base },
        },
    }
}

/// Resolves the materials of one column from its biome policy, hydrology
/// role, deterministic variant and runtime surface state. Heights and water
/// pass through, and every block key of the result is a known block key.
pub fn resolve_surface_column(input: SurfaceColumnInput, config: SurfacePlanConfig) -> (plan: SurfaceColumnPlan)
    ensures
        plan == spec_resolve_surface_column(input, config),
        plan.surface_y == input.surface_y,
        plan.water_y == input.water_y,
        plan_uses_known_keys(plan),
{
    let biome = match input.biome {
        Some(b) => b,
        None => GraphBiomeKind::TemperateGrassland,
    };
    let policy = biome_surface_policy(biome);
    let role = hydrology_role(&input);
    let variant = material_variant(input.world_x, input.world_z, config, policy.family);
    let m = role_materials(&input, config, role, biome, policy, variant);
    let top = match input.runtime_surface {
        Some(SurfaceConditionBand::Snowy) => policy.frozen_top,
        Some(SurfaceConditionBand::Wet) => if role == SurfaceHydrologyRole::Ocean || role
            == SurfaceHydrologyRole::Lake || role == SurfaceHydrologyRole::River {
            m.top
        } else {
            policy.wet_top
        },
        _ => m.top,
    };
    SurfaceColumnPlan {
        world_x: input.world_x,
        world_z: input.world_z,
        surface_y: input.surface_y,
        water_y: input.water_y,
        hydrology_role: role,
        top_block: top,
        subsurface_block: m.subsurface,
        base_block: policy.base,
        underwater_top_block: m.underwater_top,
        exposed_block: policy.exposed,
        sediment_block: m.sediment,
        soil_depth_blocks: m.soil_depth,
        vegetation_allowed: m.vegetation_allowed,
        cover_phase: variant % 4,
    }
}


/// What the macro field holds for one column: its owner site, biome and biome context.
#[derive(Clone, Copy, Debug, PartialEq, Eq, Hash, Structural)]
pub struct MacroFieldSample {
    pub nearest_site: Option<VoronoiSiteId>,
    pub biome: Option<GraphBiomeKind>,
    pub biome_context: Option<GraphBiomeContext>,
}

/// The one top every dry column of an owner site should show, from the
/// site's biome and water role; none without a biome context.
pub open spec fn spec_canonical_owner_top(sample: MacroFieldSample) -> Option<&'static str> {
    let biome = match sample.biome {
        Some(b) => b,
        None => GraphBiomeKind::TemperateGrassland,
    };
    let policy = spec_biome_surface_policy(biome);
    match sample.biome_context {
        None => None,
        Some(context) => match context.water_role {
            GraphBiomeWaterRole::ShallowOcean
            | GraphBiomeWaterRole::DeepOcean
            | GraphBiomeWaterRole::Lake => Some(policy.default_top),
            GraphBiomeWaterRole::Coast => Some("sand"),
            GraphBiomeWaterRole::Wetland => Some(policy.wet_top),
            GraphBiomeWaterRole::DryBasin => Some(policy.dry_top),
            GraphBiomeWaterRole::Land => if spec_is_coast_biome(Some(biome)) {
                Some("sand")
            } else if context.hydration == HydrationBand::Wet {
                Some(policy.wet_top)
            } else if context.hydration == HydrationBand::Dry {
                Some(policy.dry_top)
            } else {
                Some(policy.default_top)
            },
        },
    }
}

/// The canonical non-water top of an owner site's sample.
pub fn canonical_non_water_owner_top(sample: MacroFieldSample) -> (top: Option<&'static str>)
    ensures
        top == spec_canonical_owner_top(sample),
        top matches Some(t) ==> is_known_block_key(t@),
{
    let biome = match sample.biome {
        Some(b) => b,
        None => GraphBiomeKind::TemperateGrassland,
    };
    let policy = biome_surface_policy(biome);
    let context = match sample.biome_context {
        Some(c) => c,
        None => return None,
    };
    match context.water_role {
        GraphBiomeWaterRole::ShallowOcean
        | GraphBiomeWaterRole::DeepOcean
        | GraphBiomeWaterRole::Lake => Some(policy.default_top),
        GraphBiomeWaterRole::Coast => Some("sand"),
        GraphBiomeWaterRole::Wetland => Some(policy.wet_top),
        GraphBiomeWaterRole::DryBasin => Some(policy.dry_top),
        GraphBiomeWaterRole::Land => if is_coast_biome(Some(biome)) {
            Some("sand")
        } else if context.hydration == HydrationBand::Wet {
            Some(policy.wet_top)
        } else if context.hydration == HydrationBand::Dry {
            Some(policy.dry_top)
        } else {
            Some(policy.default_top)
        },
    }
}

/// Column `i` is dry, has an owner site and that site's sample names a canonical top.
pub open spec fn owner_top_candidate(columns: Seq<SurfaceColumnPlan>, samples: Seq<MacroFieldSample>, i: int) -> bool {
    &&& columns[i].water_y is None
    &&& samples[i].nearest_site is Some
    &&& spec_canonical_owner_top(samples[i]) is Some
}

/// Owner site key of column `i`'s sample.
pub open spec fn site_key(samples: Seq<MacroFieldSample>, i: int) -> u64 {
    samples[i].nearest_site.unwrap().0
}

/// Canonical top of each owner site, taken from the site's first candidate
/// column among the first `n`.
pub open spec fn spec_site_tops(
    columns: Seq<SurfaceColumnPlan>,
    samples: Seq<MacroFieldSample>,
    n: nat,
) -> Map<u64, &'static str>
    decreases n,
{
    if n == 0 {
        Map::empty()
    } else {
        let before = spec_site_tops(columns, samples, (n - 1) as nat);
        let i = n - 1;
        if owner_top_candidate(columns, samples, i) && !before.contains_key(site_key(samples, i)) {
            before.insert(site_key(samples, i), spec_canonical_owner_top(samples[i]).unwrap())
        } else {
            before
        }
    }
}

/// Column `i` after normalization: a dry column of a site with a canonical
/// top takes that top, above and under water.
pub open spec fn spec_normalized_column(
    columns: Seq<SurfaceColumnPlan>,
    samples: Seq<MacroFieldSample>,
    tops: Map<u64, &'static str>,
    i: int,
) -> SurfaceColumnPlan {
    let column = columns[i];
    match samples[i].nearest_site {
        Some(site) => if column.water_y is None && tops.contains_key(site.0) {
            SurfaceColumnPlan { top_block: tops[site.0], underwater_top_block: tops[site.0], ..column }
        } else {
            column
        },
        None => column,
    }
}

/// The columns after owner-site top normalization; unchanged unless the
/// samples cover the columns one for one.
pub open spec fn spec_normalize_owner_tops(
    columns: Seq<SurfaceColumnPlan>,
    samples: Option<Seq<MacroFieldSample>>,
) -> Seq<SurfaceColumnPlan> {
    match samples {
        Some(s) => if s.len() == columns.len() {
            let tops = spec_site_tops(columns, s, columns.len());
            Seq::new(columns.len(), |i: int| spec_normalized_column(columns, s, tops, i))
        } else {
            columns
        },
        None => columns,
    }
}

pub open spec fn samples_view(samples: Option<&Vec<MacroFieldSample>>) -> Option<Seq<MacroFieldSample>> {
    match samples {
        Some(v) => Some(v@),
        None => None,
    }
}

proof fn lemma_site_tops_candidate(columns: Seq<SurfaceColumnPlan>, samples: Seq<MacroFieldSample>, n: nat, i: int)
    requires
        0 <= i < n <= columns.len(),
        n <= samples.len(),
        owner_top_candidate(columns, samples, i),
    ensures
        spec_site_tops(columns, samples, n).contains_key(site_key(samples, i)),
    decreases n,
{
    if i < n - 1 {
        lemma_site_tops_candidate(columns, samples, (n - 1) as nat, i);
    }
}

/// Gives every dry column of an owner site the canonical top of the site's
/// first dry column that has one, when the samples cover the columns one for one.
pub fn normalize_non_water_owner_surface_materials(
    columns: &mut Vec<SurfaceColumnPlan>,
    samples: Option<&Vec<MacroFieldSample>>,
)
    ensures
        final(columns)@ == spec_normalize_owner_tops(old(columns)@, samples_view(samples)),
{
    broadcast use vstd::std_specs::hash::group_hash_axioms;

    let tile = match samples {
        Some(t) => t,
        None => return ,
    };
    if tile.len() != columns.len() {
        return ;
    }
    let ghost cols = columns@;
    let ghost s = tile@;
    let mut tops: std::collections::HashMap<u64, &'static str> = std::collections::HashMap::new();
    let mut i: usize = 0;
    while i < columns.len()
        invariant
            columns@ == cols,
            tile@ == s,
            s.len() == cols.len(),
            i <= cols.len(),
            tops@ == spec_site_tops(cols, s, i as nat),
        decreases cols.len() - i,
    {
        let column = columns[i];
        let sample = tile[i];
        if column.water_y.is_none() {
            match sample.nearest_site {
                Some(site) => match canonical_non_water_owner_top(sample) {
                    Some(top) => {
                        if !tops.contains_key(&site.0) {
                            tops.insert(site.0, top);
                        }
                    },
                    None => {},
                },
                None => {},
            }
        }
        proof {
            assert(tops@ =~= spec_site_tops(cols, s, (i + 1) as nat));
        }
        i = i + 1;
    }
    let ghost all_tops = spec_site_tops(cols, s, cols.len());
    let mut j: usize = 0;
    while j < columns.len()
        invariant
            columns@.len() == cols.len(),
            tile@ == s,
            s.len() == cols.len(),
            j <= cols.len(),
            tops@ == all_tops,
            all_tops == spec_site_tops(cols, s, cols.len()),
            forall|k: int| 0 <= k < j ==> #[trigger] columns@[k] == spec_normalized_column(cols, s, all_tops, k),
            forall|k: int| j <= k < cols.len() ==> #[trigger] columns@[k] == cols[k],
        decreases cols.len() - j,
    {
        let sample = tile[j];
        if columns[j].water_y.is_none() {
            match sample.nearest_site {
                Some(site) => match tops.get(&site.0) {
                    Some(top) => {
                        let top: &'static str = *top;
                        let mut column = columns[j];
                        column.top_block = top;
                        column.underwater_top_block = top;
                        columns.set(j, column);
                    },
                    None => {},
                },
                None => {},
            }
        }
        j = j + 1;
    }
    proof {
        assert(columns@ =~= Seq::new(cols.len(), |k: int| spec_normalized_column(cols, s, all_tops, k)));
    }
}

/// Number of columns with this hydrology role.
pub open spec fn role_count(columns: Seq<SurfaceColumnPlan>, role: SurfaceHydrologyRole) -> nat
    decreases columns.len(),
{
    if columns.len() == 0 {
        0
    } else {
        role_count(columns.drop_last(), role) + if columns.last().hydrology_role == role {
            1nat
        } else {
            0nat
        }
    }
}

/// Number of columns that hold water.
pub open spec fn water_count(columns: Seq<SurfaceColumnPlan>) -> nat
    decreases columns.len(),
{
    if columns.len() == 0 {
        0
    } else {
        water_count(columns.drop_last()) + if columns.last().water_y is Some {
            1nat
        } else {
            0nat
        }
    }
}

/// Number of columns whose top is their exposed rock.
pub open spec fn exposed_count(columns: Seq<SurfaceColumnPlan>) -> nat
    decreases columns.len(),
{
    if columns.len() == 0 {
        0
    } else {
        exposed_count(columns.drop_last()) + if columns.last().top_block@ == columns.last().exposed_block@ {
            1nat
        } else {
            0nat
        }
    }
}

/// Number of columns that allow vegetation.
pub open spec fn vegetation_count(columns: Seq<SurfaceColumnPlan>) -> nat
    decreases columns.len(),
{
    if columns.len() == 0 {
        0
    } else {
        vegetation_count(columns.drop_last()) + if columns.last().vegetation_allowed {
            1nat
        } else {
            0nat
        }
    }
}

/// The counters of a set of columns.
pub open spec fn stats_match(stats: SurfacePlanAreaStats, columns: Seq<SurfaceColumnPlan>) -> bool {
    &&& stats.column_count == columns.len()
    &&& stats.ocean_column_count == role_count(columns, SurfaceHydrologyRole::Ocean)
    &&& stats.lake_column_count == role_count(columns, SurfaceHydrologyRole::Lake)
    &&& stats.river_column_count == role_count(columns, SurfaceHydrologyRole::River)
    &&& stats.wetland_column_count == role_count(columns, SurfaceHydrologyRole::Wetland)
    &&& stats.coast_column_count == role_count(columns, SurfaceHydrologyRole::Coast)
    &&& stats.dry_basin_column_count == role_count(columns, SurfaceHydrologyRole::DryBasin)
    &&& stats.ridge_column_count == role_count(columns, SurfaceHydrologyRole::Ridge)
    &&& stats.land_column_count == role_count(columns, SurfaceHydrologyRole::Land)
    &&& stats.water_column_count == water_count(columns)
    &&& stats.exposed_column_count == exposed_count(columns)
    &&& stats.vegetation_allowed_count == vegetation_count(columns)
}

proof fn lemma_counts_bounded(columns: Seq<SurfaceColumnPlan>)
    ensures
        forall|role: SurfaceHydrologyRole| #[trigger] role_count(columns, role) <= columns.len(),
        water_count(columns) <= columns.len(),
        exposed_count(columns) <= columns.len(),
        vegetation_count(columns) <= columns.len(),
    decreases columns.len(),
{
    if columns.len() > 0 {
        lemma_counts_bounded(columns.drop_last());
        assert forall|role: SurfaceHydrologyRole| #[trigger] role_count(columns, role) <= columns.len() by {
            assert(role_count(columns.drop_last(), role) <= columns.len() - 1);
        }
    }
}

/// Counts the columns by role, water, exposed tops and vegetation.
pub fn surface_plan_stats(columns: &Vec<SurfaceColumnPlan>) -> (stats: SurfacePlanAreaStats)
    ensures
        stats_match(stats, columns@),
{
    let mut stats = SurfacePlanAreaStats {
        column_count: columns.len(),
        ocean_column_count: 0,
        lake_column_count: 0,
        river_column_count: 0,
        wetland_column_count: 0,
        coast_column_count: 0,
        dry_basin_column_count: 0,
        ridge_column_count: 0,
        land_column_count: 0,
        water_column_count: 0,
        exposed_column_count: 0,
        vegetation_allowed_count: 0,
    };
    let ghost cols = columns@;
    let mut i: usize = 0;
    while i < columns.len()
        invariant
            cols == columns@,
            i <= cols.len(),
            stats.column_count == cols.len(),
            stats_match(SurfacePlanAreaStats { column_count: i, ..stats }, cols.take(i as int)),
        decreases cols.len() - i,
    {
        let column = columns[i];
        proof {
            let prefix = cols.take(i as int);
            assert(cols.take(i + 1).drop_last() =~= prefix);
            lemma_counts_bounded(prefix);
        }
        match column.hydrology_role {
            SurfaceHydrologyRole::Ocean => stats.ocean_column_count = stats.ocean_column_count + 1,
            SurfaceHydrologyRole::Lake => stats.lake_column_count = stats.lake_column_count + 1,
            SurfaceHydrologyRole::River => stats.river_column_count = stats.river_column_count + 1,
            SurfaceHydrologyRole::Wetland => stats.wetland_column_count = stats.wetland_column_count + 1,
            SurfaceHydrologyRole::Coast => stats.coast_column_count = stats.coast_column_count + 1,
            SurfaceHydrologyRole::DryBasin => stats.dry_basin_column_count = stats.dry_basin_column_count + 1,
            SurfaceHydrologyRole::Ridge => stats.ridge_column_count = stats.ridge_column_count + 1,
            SurfaceHydrologyRole::Land => stats.land_column_count = stats.land_column_count + 1,
        }
        if column.water_y.is_some() {
            stats.water_column_count = stats.water_column_count + 1;
        }
        if crate::hashing::str_eq(column.top_block, column.exposed_block) {
            stats.exposed_column_count = stats.exposed_column_count + 1;
        }
        if column.vegetation_allowed {
            stats.vegetation_allowed_count = stats.vegetation_allowed_count + 1;
        }
        i = i + 1;
    }
    proof {
        assert(cols.take(cols.len() as int) =~= cols);
    }
    stats
}


/// Resolves every input with `resolve_surface_column` on rayon's thread pool.
/// Claims that rayon's indexed `map` followed by `collect` into a `Vec` yields
/// one output per input, in input order; each output is whatever the verified
/// column function returns for its input.
#[verifier::external_body]
fn par_resolve_surface_columns(inputs: &Vec<SurfaceColumnInput>, config: SurfacePlanConfig) -> (columns: Vec<
    SurfaceColumnPlan,
>)
    ensures
        columns.len() == inputs.len(),
        forall|i: int| 0 <= i < inputs.len() ==> #[trigger] columns@[i] == spec_resolve_surface_column(inputs@[i], config),
{
    inputs.par_iter().map(|input| resolve_surface_column(*input, config)).collect()
}

/// The owner site of each column, where the samples reach it.
pub open spec fn spec_mix_sources(count: nat, samples: Option<Seq<MacroFieldSample>>) -> Option<Seq<SurfaceMixSource>> {
    match samples {
        Some(s) => Some(
            Seq::new(
                count,
                |i: int|
                    SurfaceMixSource {
                        owner_site: if i < s.len() {
                            s[i].nearest_site
                        } else {
                            None
                        },
                    },
            ),
        ),
        None => None,
    }
}

fn mix_sources_for(count: usize, samples: Option<&Vec<MacroFieldSample>>) -> (sources: Option<Vec<SurfaceMixSource>>)
    ensures
        sources_view(sources_as_ref(&sources)) == spec_mix_sources(count as nat, samples_view(samples)),
{
    match samples {
        None => None,
        Some(tile) => {
            let mut sources: Vec<SurfaceMixSource> = Vec::new();
            let mut index: usize = 0;
            while index < count
                invariant
                    index <= count,
                    sources@.len() == index,
                    forall|k: int|
                        0 <= k < index ==> (#[trigger] sources@[k]).owner_site == if k < tile@.len() {
                            tile@[k].nearest_site
                        } else {
                            None
                        },
                decreases count - index,
            {
                let owner_site = if index < tile.len() {
                    tile[index].nearest_site
                } else {
                    None
                };
                sources.push(SurfaceMixSource { owner_site });
                index = index + 1;
            }
            proof {
                assert(sources@ =~= spec_mix_sources(count as nat, samples_view(samples)).unwrap());
            }
            Some(sources)
        },
    }
}

pub open spec fn sources_as_ref(sources: &Option<Vec<SurfaceMixSource>>) -> Option<&Vec<SurfaceMixSource>> {
    match sources {
        Some(v) => Some(v),
        None => None,
    }
}

/// The columns of a surface plan area: each input resolved, the boundary
/// breakup applied over the `width * height` grid with the samples' owner
/// sites, then owner-site tops normalized.
pub open spec fn spec_surface_plan_columns(
    inputs: Seq<SurfaceColumnInput>,
    width: int,
    height: int,
    samples: Option<Seq<MacroFieldSample>>,
    config: SurfacePlanConfig,
) -> Seq<SurfaceColumnPlan> {
    let resolved = Seq::new(inputs.len(), |i: int| spec_resolve_surface_column(inputs[i], config));
    let mixed = spec_boundary_mixing(
        resolved,
        width,
        height,
        config,
        spec_mix_sources(inputs.len(), samples),
    );
    spec_normalize_owner_tops(mixed, samples)
}

/// The surface plan of an area: resolves each column, breaks up material
/// boundaries, gives each owner site one dry top and counts the result.
pub fn generate_surface_plan_area(
    inputs: &Vec<SurfaceColumnInput>,
    width: u32,
    height: u32,
    samples: Option<&Vec<MacroFieldSample>>,
    config: SurfacePlanConfig,
) -> (area: SurfacePlanArea)
    requires
        !boundary_mixing_skipped(inputs.len() as int, width as int, height as int, config) ==> {
            &&& width * height <= inputs.len()
            &&& width + 255 <= usize::MAX
            &&& height + 255 <= usize::MAX
        },
    ensures
        area.width == width,
        area.height == height,
        area.config == config,
        area.columns@ == spec_surface_plan_columns(inputs@, width as int, height as int, samples_view(samples), config),
        stats_match(area.stats, area.columns@),
{
    let mix_sources = mix_sources_for(inputs.len(), samples);
    let mut columns = par_resolve_surface_columns(inputs, config);
    proof {
        assert(columns@ =~= Seq::new(inputs@.len(), |i: int| spec_resolve_surface_column(inputs@[i], config)));
    }
    apply_noisy_boundary_mixing(&mut columns, width as usize, height as usize, config, mix_sources.as_ref());
    normalize_non_water_owner_surface_materials(&mut columns, samples);
    let stats = surface_plan_stats(&columns);
    SurfacePlanArea { width, height, columns, stats, config }
}

/// Within one owner site, every dry column whose site has a dry column with a
/// canonical top ends with that same top, above and under water.
pub proof fn lemma_owner_site_tops_agree(
    columns: Seq<SurfaceColumnPlan>,
    samples: Seq<MacroFieldSample>,
    candidate: int,
    i: int,
    j: int,
)
    requires
        samples.len() == columns.len(),
        0 <= candidate < columns.len(),
        0 <= i < columns.len(),
        0 <= j < columns.len(),
        owner_top_candidate(columns, samples, candidate),
        columns[i].water_y is None,
        columns[j].water_y is None,
        samples[i].nearest_site == samples[candidate].nearest_site,
        samples[j].nearest_site == samples[candidate].nearest_site,
    ensures
        ({
            let out = spec_normalize_owner_tops(columns, Some(samples));
            &&& out[i].top_block == out[j].top_block
            &&& out[i].underwater_top_block == out[i].top_block
            &&& out[j].underwater_top_block == out[j].top_block
        }),
{
    lemma_site_tops_candidate(columns, samples, columns.len(), candidate);
}

/// Normalization only rewrites the tops of dry columns: heights, water,
/// roles and every other material stay as they were.
pub proof fn lemma_owner_tops_touch_only_dry_tops(
    columns: Seq<SurfaceColumnPlan>,
    samples: Option<Seq<MacroFieldSample>>,
    i: int,
)
    requires
        0 <= i < columns.len(),
    ensures
        ({
            let out = spec_normalize_owner_tops(columns, samples);
            &&& out.len() == columns.len()
            &&& out[i] == SurfaceColumnPlan {
                top_block: out[i].top_block,
                underwater_top_block: out[i].underwater_top_block,
                ..columns[i]
            }
            &&& columns[i].water_y is Some ==> out[i] == columns[i]
        }),
{
}

/// In a generated area, two dry columns of the same owner site end with the
/// same top whenever some dry column of that site has a canonical top.
pub proof fn lemma_area_owner_site_tops_agree(
    inputs: Seq<SurfaceColumnInput>,
    width: int,
    height: int,
    samples: Seq<MacroFieldSample>,
    config: SurfacePlanConfig,
    candidate: int,
    i: int,
    j: int,
)
    requires
        samples.len() == inputs.len(),
        0 <= width,
        0 <= height,
        width * height <= inputs.len(),
        0 <= candidate < inputs.len(),
        0 <= i < inputs.len(),
        0 <= j < inputs.len(),
        inputs[candidate].water_y is None,
        inputs[i].water_y is None,
        inputs[j].water_y is None,
        samples[candidate].nearest_site is Some,
        spec_canonical_owner_top(samples[candidate]) is Some,
        samples[i].nearest_site == samples[candidate].nearest_site,
        samples[j].nearest_site == samples[candidate].nearest_site,
    ensures
        ({
            let out = spec_surface_plan_columns(inputs, width, height, Some(samples), config);
            out[i].top_block == out[j].top_block
        }),
{
    let resolved = Seq::new(inputs.len(), |k: int| spec_resolve_surface_column(inputs[k], config));
    let sources = spec_mix_sources(inputs.len(), Some(samples));
    let mixed = spec_boundary_mixing(resolved, width, height, config, sources);
    lemma_boundary_mixing_keeps_layout(resolved, width, height, config, sources, candidate);
    lemma_boundary_mixing_keeps_layout(resolved, width, height, config, sources, i);
    lemma_boundary_mixing_keeps_layout(resolved, width, height, config, sources, j);
    lemma_owner_site_tops_agree(mixed, samples, candidate, i, j);
}

/// The eight role counters of a stats record add up to its column count.
pub proof fn lemma_role_counts_cover_columns(stats: SurfacePlanAreaStats, columns: Seq<SurfaceColumnPlan>)
    requires
        stats_match(stats, columns),
    ensures
        stats.ocean_column_count + stats.lake_column_count + stats.river_column_count
            + stats.wetland_column_count + stats.coast_column_count + stats.dry_basin_column_count
            + stats.ridge_column_count + stats.land_column_count == stats.column_count,
{
    lemma_role_counts_sum(columns);
}

proof fn lemma_role_counts_sum(columns: Seq<SurfaceColumnPlan>)
    ensures
        role_count(columns, SurfaceHydrologyRole::Ocean) + role_count(columns, SurfaceHydrologyRole::Lake)
            + role_count(columns, SurfaceHydrologyRole::River) + role_count(columns, SurfaceHydrologyRole::Wetland)
            + role_count(columns, SurfaceHydrologyRole::Coast) + role_count(columns, SurfaceHydrologyRole::DryBasin)
            + role_count(columns, SurfaceHydrologyRole::Ridge) + role_count(columns, SurfaceHydrologyRole::Land)
            == columns.len(),
    decreases columns.len(),
{
    if columns.len() > 0 {
        lemma_role_counts_sum(columns.drop_last());
    }
}

/// A generated area keeps one column per input, in input order: each keeps
/// its input's position, surface and water heights, and the role its input
/// resolves to.
pub proof fn lemma_area_keeps_input_layout(
    inputs: Seq<SurfaceColumnInput>,
    width: int,
    height: int,
    samples: Option<Seq<MacroFieldSample>>,
    config: SurfacePlanConfig,
    i: int,
)
    requires
        0 <= width,
        0 <= height,
        width * height <= inputs.len(),
        0 <= i < inputs.len(),
    ensures
        ({
            let out = spec_surface_plan_columns(inputs, width, height, samples, config);
            &&& out.len() == inputs.len()
            &&& out[i].world_x == inputs[i].world_x
            &&& out[i].world_z == inputs[i].world_z
            &&& out[i].surface_y == inputs[i].surface_y
            &&& out[i].water_y == inputs[i].water_y
            &&& out[i].hydrology_role == spec_hydrology_role(inputs[i])
        }),
{
    let resolved = Seq::new(inputs.len(), |k: int| spec_resolve_surface_column(inputs[k], config));
    let sources = spec_mix_sources(inputs.len(), samples);
    let mixed = spec_boundary_mixing(resolved, width, height, config, sources);
    lemma_boundary_mixing_keeps_layout(resolved, width, height, config, sources, i);
    lemma_owner_tops_touch_only_dry_tops(mixed, samples, i);
}

/// Without macro samples and with the breakup switched off (zero radius or
/// zero strength), every column of the area is exactly its resolved input.
pub proof fn lemma_unmixed_area_is_resolved_inputs(
    inputs: Seq<SurfaceColumnInput>,
    width: int,
    height: int,
    config: SurfacePlanConfig,
    i: int,
)
    requires
        config.boundary_mix_radius_blocks == 0 || config.boundary_mix_strength_percent == 0,
        0 <= i < inputs.len(),
    ensures
        ({
            let out = spec_surface_plan_columns(inputs, width, height, None, config);
            &&& out.len() == inputs.len()
            &&& out[i] == spec_resolve_surface_column(inputs[i], config)
        }),
{
}

/// Runtime surface state only ever changes a column's top: snow freezes it to
/// the biome's frozen top; wetness wets it to the biome's wet top except on
/// ocean, lake and river beds, whose top stays what it is without runtime
/// state. Every other field, and the role, is what it is without runtime state.
pub proof fn lemma_runtime_surface_only_changes_top(input: SurfaceColumnInput, config: SurfacePlanConfig)
    ensures
        ({
            let plain = spec_resolve_surface_column(SurfaceColumnInput { runtime_surface: None, ..input }, config);
            let plan = spec_resolve_surface_column(input, config);
            let policy = spec_biome_surface_policy(planned_biome(input));
            let bed = plain.hydrology_role == SurfaceHydrologyRole::Ocean || plain.hydrology_role
                == SurfaceHydrologyRole::Lake || plain.hydrology_role == SurfaceHydrologyRole::River;
            &&& plan == SurfaceColumnPlan { top_block: plan.top_block, ..plain }
            &&& input.runtime_surface == Some(SurfaceConditionBand::Snowy) ==> plan.top_block == policy.frozen_top
            &&& input.runtime_surface == Some(SurfaceConditionBand::Wet) && bed ==> plan.top_block == plain.top_block
            &&& input.runtime_surface == Some(SurfaceConditionBand::Wet) && !bed ==> plan.top_block == policy.wet_top
            &&& input.runtime_surface != Some(SurfaceConditionBand::Snowy) && input.runtime_surface != Some(
                SurfaceConditionBand::Wet,
            ) ==> plan == plain
        }),
{
}

/// River beds are wet gravel, mud or silt, and lake beds gravel, mud or silt,
/// whatever the biome, unless snow covers them.
pub proof fn lemma_water_bed_tops(input: SurfaceColumnInput, config: SurfacePlanConfig)
    requires
        input.runtime_surface != Some(SurfaceConditionBand::Snowy),
    ensures
        ({
            let plan = spec_resolve_surface_column(input, config);
            &&& plan.hydrology_role == SurfaceHydrologyRole::River ==> plan.top_block@ == "wet_gravel"@
                || plan.top_block@ == "mud"@ || plan.top_block@ == "silt"@
            &&& plan.hydrology_role == SurfaceHydrologyRole::Lake ==> plan.top_block@ == "gravel"@
                || plan.top_block@ == "mud"@ || plan.top_block@ == "silt"@
            &&& plan.hydrology_role == SurfaceHydrologyRole::River ==> !plan.vegetation_allowed
        }),
{
}

} // verus!
