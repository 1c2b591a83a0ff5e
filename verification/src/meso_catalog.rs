//! The catalog of meso-scale terrain features and the classification
//! dimensions of atlas regions.

use vstd::prelude::*;

verus! {

/// How far a meso feature is from being generated.
#[derive(Clone, Copy, Debug, PartialEq, Eq, Structural)]
pub enum MesoCatalogStatus {
    LaunchCandidate,
    ExtendedCandidate,
    Deferred,
}

/// One feature of the catalog: its key, its status and the module that resolves it.
#[derive(Clone, Copy, Debug, PartialEq, Eq)]
pub struct MesoCatalogEntry {
    pub key: &'static str,
    pub status: MesoCatalogStatus,
    pub feature_path: &'static str,
}

/// Directory under which every catalogued feature's module lives.
pub open spec fn meso_feature_dir() -> Seq<char> {
    "atlas/meso/features/"@
}

/// Keys and statuses of the catalog, in catalog order.
pub open spec fn spec_meso_catalog() -> Seq<(Seq<char>, MesoCatalogStatus)> {
    seq![
        ("hill_cluster"@, MesoCatalogStatus::LaunchCandidate),
        ("rolling_hill_belt"@, MesoCatalogStatus::ExtendedCandidate),
        ("ridge_spur"@, MesoCatalogStatus::ExtendedCandidate),
        ("summit_group"@, MesoCatalogStatus::ExtendedCandidate),
        ("upland_knob_field"@, MesoCatalogStatus::ExtendedCandidate),
        ("mesa_island"@, MesoCatalogStatus::ExtendedCandidate),
        ("upland_terrace"@, MesoCatalogStatus::LaunchCandidate),
        ("escarpment_band"@, MesoCatalogStatus::LaunchCandidate),
        ("fault_scarp"@, MesoCatalogStatus::ExtendedCandidate),
        ("shoulder_shelf"@, MesoCatalogStatus::ExtendedCandidate),
        ("shallow_basin"@, MesoCatalogStatus::LaunchCandidate),
        ("closed_basin"@, MesoCatalogStatus::ExtendedCandidate),
        ("wet_basin"@, MesoCatalogStatus::ExtendedCandidate),
        ("sinkhole_field"@, MesoCatalogStatus::ExtendedCandidate),
        ("broad_valley"@, MesoCatalogStatus::ExtendedCandidate),
        ("narrow_valley"@, MesoCatalogStatus::ExtendedCandidate),
        ("ravine"@, MesoCatalogStatus::LaunchCandidate),
        ("canyon_reach"@, MesoCatalogStatus::ExtendedCandidate),
        ("gorge_cut"@, MesoCatalogStatus::ExtendedCandidate),
        ("cirque_basin"@, MesoCatalogStatus::ExtendedCandidate),
        ("creek_corridor"@, MesoCatalogStatus::ExtendedCandidate),
        ("secondary_channel_belt"@, MesoCatalogStatus::ExtendedCandidate),
        ("alluvial_fan"@, MesoCatalogStatus::ExtendedCandidate),
        ("terraced_floodplain"@, MesoCatalogStatus::ExtendedCandidate),
        ("levee_strip"@, MesoCatalogStatus::ExtendedCandidate),
        ("oxbow_lowland"@, MesoCatalogStatus::ExtendedCandidate),
        ("delta_lobe"@, MesoCatalogStatus::ExtendedCandidate),
        ("distributary_fan"@, MesoCatalogStatus::ExtendedCandidate),
        ("coastal_cliff_band"@, MesoCatalogStatus::LaunchCandidate),
        ("rocky_headland_chain"@, MesoCatalogStatus::ExtendedCandidate),
        ("cove_breakup"@, MesoCatalogStatus::ExtendedCandidate),
        ("barrier_spit"@, MesoCatalogStatus::ExtendedCandidate),
        ("lagoon_rim"@, MesoCatalogStatus::ExtendedCandidate),
        ("tidal_flat_bench"@, MesoCatalogStatus::ExtendedCandidate),
        ("backshore_dune_field"@, MesoCatalogStatus::ExtendedCandidate),
        ("wave_cut_shelf"@, MesoCatalogStatus::ExtendedCandidate),
        ("sea_stack_cluster"@, MesoCatalogStatus::Deferred),
        ("fjord_wall_breakup"@, MesoCatalogStatus::Deferred),
        ("dune_field"@, MesoCatalogStatus::LaunchCandidate),
        ("linear_dune_belt"@, MesoCatalogStatus::ExtendedCandidate),
        ("badlands_patch"@, MesoCatalogStatus::ExtendedCandidate),
        ("yardang_band"@, MesoCatalogStatus::ExtendedCandidate),
        ("dry_gully_network"@, MesoCatalogStatus::ExtendedCandidate),
        ("pediment_steps"@, MesoCatalogStatus::ExtendedCandidate),
        ("mesa_cluster"@, MesoCatalogStatus::ExtendedCandidate),
        ("eroded_butte_field"@, MesoCatalogStatus::ExtendedCandidate),
        ("glacial_trough"@, MesoCatalogStatus::ExtendedCandidate),
        ("moraine_belt"@, MesoCatalogStatus::ExtendedCandidate),
        ("crevasse_belt"@, MesoCatalogStatus::ExtendedCandidate),
        ("icefall_breakup"@, MesoCatalogStatus::Deferred),
        ("permafrost_pingo_field"@, MesoCatalogStatus::ExtendedCandidate),
        ("frost_heave_plain"@, MesoCatalogStatus::ExtendedCandidate),
        ("snow_basin"@, MesoCatalogStatus::ExtendedCandidate),
        ("glacial_bench"@, MesoCatalogStatus::ExtendedCandidate),
        ("crater"@, MesoCatalogStatus::LaunchCandidate),
        ("caldera"@, MesoCatalogStatus::ExtendedCandidate),
        ("lava_field"@, MesoCatalogStatus::ExtendedCandidate),
        ("cinder_cone_cluster"@, MesoCatalogStatus::Deferred),
        ("fissure_ridge"@, MesoCatalogStatus::ExtendedCandidate),
        ("volcanic_terrace"@, MesoCatalogStatus::ExtendedCandidate),
        ("marsh_flat"@, MesoCatalogStatus::ExtendedCandidate),
        ("peaty_hollow"@, MesoCatalogStatus::ExtendedCandidate),
        ("spring_basin"@, MesoCatalogStatus::ExtendedCandidate),
        ("wet_meadow_bowl"@, MesoCatalogStatus::ExtendedCandidate),
        ("natural_arch"@, MesoCatalogStatus::Deferred),
    ]
}

/// Number of catalogued meso features.
pub const MESO_CATALOG_LEN: usize = 65;

/// The whole meso feature catalog, in catalog order. Each feature's module
/// path is the feature directory followed by its key.
pub fn meso_catalog_entries() -> (entries: Vec<MesoCatalogEntry>)
    ensures
        entries.len() == MESO_CATALOG_LEN,
        entries.len() == spec_meso_catalog().len(),
        forall|i: int|
            0 <= i < entries.len() ==> (#[trigger] entries@[i]).key@ == spec_meso_catalog()[i].0
                && entries@[i].status == spec_meso_catalog()[i].1,
        forall|i: int|
            0 <= i < entries.len() ==> (#[trigger] entries@[i]).feature_path@ == meso_feature_dir()
                + entries@[i].key@,
{
    let mut entries: Vec<MesoCatalogEntry> = Vec::new();

    entries.push(MesoCatalogEntry { key: "hill_cluster", status: MesoCatalogStatus::LaunchCandidate, feature_path: "atlas/meso/features/hill_cluster" });
    entries.push(MesoCatalogEntry { key: "rolling_hill_belt", status: MesoCatalogStatus::ExtendedCandidate, feature_path: "atlas/meso/features/rolling_hill_belt" });
    entries.push(MesoCatalogEntry { key: "ridge_spur", status: MesoCatalogStatus::ExtendedCandidate, feature_path: "atlas/meso/features/ridge_spur" });
    entries.push(MesoCatalogEntry { key: "summit_group", status: MesoCatalogStatus::ExtendedCandidate, feature_path: "atlas/meso/features/summit_group" });
    entries.push(MesoCatalogEntry { key: "upland_knob_field", status: MesoCatalogStatus::ExtendedCandidate, feature_path: "atlas/meso/features/upland_knob_field" });
    entries.push(MesoCatalogEntry { key: "mesa_island", status: MesoCatalogStatus::ExtendedCandidate, feature_path: "atlas/meso/features/mesa_island" });
    entries.push(MesoCatalogEntry { key: "upland_terrace", status: MesoCatalogStatus::LaunchCandidate, feature_path: "atlas/meso/features/upland_terrace" });
    entries.push(MesoCatalogEntry { key: "escarpment_band", status: MesoCatalogStatus::LaunchCandidate, feature_path: "atlas/meso/features/escarpment_band" });
    entries.push(MesoCatalogEntry { key: "fault_scarp", status: MesoCatalogStatus::ExtendedCandidate, feature_path: "atlas/meso/features/fault_scarp" });
    entries.push(MesoCatalogEntry { key: "shoulder_shelf", status: MesoCatalogStatus::ExtendedCandidate, feature_path: "atlas/meso/features/shoulder_shelf" });
    entries.push(MesoCatalogEntry { key: "shallow_basin", status: MesoCatalogStatus::LaunchCandidate, feature_path: "atlas/meso/features/shallow_basin" });
    entries.push(MesoCatalogEntry { key: "closed_basin", status: MesoCatalogStatus::ExtendedCandidate, feature_path: "atlas/meso/features/closed_basin" });
    entries.push(MesoCatalogEntry { key: "wet_basin", status: MesoCatalogStatus::ExtendedCandidate, feature_path: "atlas/meso/features/wet_basin" });
    entries.push(MesoCatalogEntry { key: "sinkhole_field", status: MesoCatalogStatus::ExtendedCandidate, feature_path: "atlas/meso/features/sinkhole_field" });
    entries.push(MesoCatalogEntry { key: "broad_valley", status: MesoCatalogStatus::ExtendedCandidate, feature_path: "atlas/meso/features/broad_valley" });
    entries.push(MesoCatalogEntry { key: "narrow_valley", status: MesoCatalogStatus::ExtendedCandidate, feature_path: "atlas/meso/features/narrow_valley" });
    entries.push(MesoCatalogEntry { key: "ravine", status: MesoCatalogStatus::LaunchCandidate, feature_path: "atlas/meso/features/ravine" });
    entries.push(MesoCatalogEntry { key: "canyon_reach", status: MesoCatalogStatus::ExtendedCandidate, feature_path: "atlas/meso/features/canyon_reach" });
    entries.push(MesoCatalogEntry { key: "gorge_cut", status: MesoCatalogStatus::ExtendedCandidate, feature_path: "atlas/meso/features/gorge_cut" });
    entries.push(MesoCatalogEntry { key: "cirque_basin", status: MesoCatalogStatus::ExtendedCandidate, feature_path: "atlas/meso/features/cirque_basin" });
    entries.push(MesoCatalogEntry { key: "creek_corridor", status: MesoCatalogStatus::ExtendedCandidate, feature_path: "atlas/meso/features/creek_corridor" });
    entries.push(MesoCatalogEntry { key: "secondary_channel_belt", status: MesoCatalogStatus::ExtendedCandidate, feature_path: "atlas/meso/features/secondary_channel_belt" });
    entries.push(MesoCatalogEntry { key: "alluvial_fan", status: MesoCatalogStatus::ExtendedCandidate, feature_path: "atlas/meso/features/alluvial_fan" });
    entries.push(MesoCatalogEntry { key: "terraced_floodplain", status: MesoCatalogStatus::ExtendedCandidate, feature_path: "atlas/meso/features/terraced_floodplain" });
    entries.push(MesoCatalogEntry { key: "levee_strip", status: MesoCatalogStatus::ExtendedCandidate, feature_path: "atlas/meso/features/levee_strip" });
    entries.push(MesoCatalogEntry { key: "oxbow_lowland", status: MesoCatalogStatus::ExtendedCandidate, feature_path: "atlas/meso/features/oxbow_lowland" });
    entries.push(MesoCatalogEntry { key: "delta_lobe", status: MesoCatalogStatus::ExtendedCandidate, feature_path: "atlas/meso/features/delta_lobe" });
    entries.push(MesoCatalogEntry { key: "distributary_fan", status: MesoCatalogStatus::ExtendedCandidate, feature_path: "atlas/meso/features/distributary_fan" });
    entries.push(MesoCatalogEntry { key: "coastal_cliff_band", status: MesoCatalogStatus::LaunchCandidate, feature_path: "atlas/meso/features/coastal_cliff_band" });
    entries.push(MesoCatalogEntry { key: "rocky_headland_chain", status: MesoCatalogStatus::ExtendedCandidate, feature_path: "atlas/meso/features/rocky_headland_chain" });
    entries.push(MesoCatalogEntry { key: "cove_breakup", status: MesoCatalogStatus::ExtendedCandidate, feature_path: "atlas/meso/features/cove_breakup" });
    entries.push(MesoCatalogEntry { key: "barrier_spit", status: MesoCatalogStatus::ExtendedCandidate, feature_path: "atlas/meso/features/barrier_spit" });
    entries.push(MesoCatalogEntry { key: "lagoon_rim", status: MesoCatalogStatus::ExtendedCandidate, feature_path: "atlas/meso/features/lagoon_rim" });
    entries.push(MesoCatalogEntry { key: "tidal_flat_bench", status: MesoCatalogStatus::ExtendedCandidate, feature_path: "atlas/meso/features/tidal_flat_bench" });
    entries.push(MesoCatalogEntry { key: "backshore_dune_field", status: MesoCatalogStatus::ExtendedCandidate, feature_path: "atlas/meso/features/backshore_dune_field" });
    entries.push(MesoCatalogEntry { key: "wave_cut_shelf", status: MesoCatalogStatus::ExtendedCandidate, feature_path: "atlas/meso/features/wave_cut_shelf" });
    entries.push(MesoCatalogEntry { key: "sea_stack_cluster", status: MesoCatalogStatus::Deferred, feature_path: "atlas/meso/features/sea_stack_cluster" });
    entries.push(MesoCatalogEntry { key: "fjord_wall_breakup", status: MesoCatalogStatus::Deferred, feature_path: "atlas/meso/features/fjord_wall_breakup" });
    entries.push(MesoCatalogEntry { key: "dune_field", status: MesoCatalogStatus::LaunchCandidate, feature_path: "atlas/meso/features/dune_field" });
    entries.push(MesoCatalogEntry { key: "linear_dune_belt", status: MesoCatalogStatus::ExtendedCandidate, feature_path: "atlas/meso/features/linear_dune_belt" });
    entries.push(MesoCatalogEntry { key: "badlands_patch", status: MesoCatalogStatus::ExtendedCandidate, feature_path: "atlas/meso/features/badlands_patch" });
    entries.push(MesoCatalogEntry { key: "yardang_band", status: MesoCatalogStatus::ExtendedCandidate, feature_path: "atlas/meso/features/yardang_band" });
    entries.push(MesoCatalogEntry { key: "dry_gully_network", status: MesoCatalogStatus::ExtendedCandidate, feature_path: "atlas/meso/features/dry_gully_network" });
    entries.push(MesoCatalogEntry { key: "pediment_steps", status: MesoCatalogStatus::ExtendedCandidate, feature_path: "atlas/meso/features/pediment_steps" });
    entries.push(MesoCatalogEntry { key: "mesa_cluster", status: MesoCatalogStatus::ExtendedCandidate, feature_path: "atlas/meso/features/mesa_cluster" });
    entries.push(MesoCatalogEntry { key: "eroded_butte_field", status: MesoCatalogStatus::ExtendedCandidate, feature_path: "atlas/meso/features/eroded_butte_field" });
    entries.push(MesoCatalogEntry { key: "glacial_trough", status: MesoCatalogStatus::ExtendedCandidate, feature_path: "atlas/meso/features/glacial_trough" });
    entries.push(MesoCatalogEntry { key: "moraine_belt", status: MesoCatalogStatus::ExtendedCandidate, feature_path: "atlas/meso/features/moraine_belt" });
    entries.push(MesoCatalogEntry { key: "crevasse_belt", status: MesoCatalogStatus::ExtendedCandidate, feature_path: "atlas/meso/features/crevasse_belt" });
    entries.push(MesoCatalogEntry { key: "icefall_breakup", status: MesoCatalogStatus::Deferred, feature_path: "atlas/meso/features/icefall_breakup" });
    entries.push(MesoCatalogEntry { key: "permafrost_pingo_field", status: MesoCatalogStatus::ExtendedCandidate, feature_path: "atlas/meso/features/permafrost_pingo_field" });
    entries.push(MesoCatalogEntry { key: "frost_heave_plain", status: MesoCatalogStatus::ExtendedCandidate, feature_path: "atlas/meso/features/frost_heave_plain" });
    entries.push(MesoCatalogEntry { key: "snow_basin", status: MesoCatalogStatus::ExtendedCandidate, feature_path: "atlas/meso/features/snow_basin" });
    entries.push(MesoCatalogEntry { key: "glacial_bench", status: MesoCatalogStatus::ExtendedCandidate, feature_path: "atlas/meso/features/glacial_bench" });
    entries.push(MesoCatalogEntry { key: "crater", status: MesoCatalogStatus::LaunchCandidate, feature_path: "atlas/meso/features/crater" });
    entries.push(MesoCatalogEntry { key: "caldera", status: MesoCatalogStatus::ExtendedCandidate, feature_path: "atlas/meso/features/caldera" });
    entries.push(MesoCatalogEntry { key: "lava_field", status: MesoCatalogStatus::ExtendedCandidate, feature_path: "atlas/meso/features/lava_field" });
    entries.push(MesoCatalogEntry { key: "cinder_cone_cluster", status: MesoCatalogStatus::Deferred, feature_path: "atlas/meso/features/cinder_cone_cluster" });
    entries.push(MesoCatalogEntry { key: "fissure_ridge", status: MesoCatalogStatus::ExtendedCandidate, feature_path: "atlas/meso/features/fissure_ridge" });
    entries.push(MesoCatalogEntry { key: "volcanic_terrace", status: MesoCatalogStatus::ExtendedCandidate, feature_path: "atlas/meso/features/volcanic_terrace" });
    entries.push(MesoCatalogEntry { key: "marsh_flat", status: MesoCatalogStatus::ExtendedCandidate, feature_path: "atlas/meso/features/marsh_flat" });
    entries.push(MesoCatalogEntry { key: "peaty_hollow", status: MesoCatalogStatus::ExtendedCandidate, feature_path: "atlas/meso/features/peaty_hollow" });
    entries.push(MesoCatalogEntry { key: "spring_basin", status: MesoCatalogStatus::ExtendedCandidate, feature_path: "atlas/meso/features/spring_basin" });
    entries.push(MesoCatalogEntry { key: "wet_meadow_bowl", status: MesoCatalogStatus::ExtendedCandidate, feature_path: "atlas/meso/features/wet_meadow_bowl" });
    entries.push(MesoCatalogEntry { key: "natural_arch", status: MesoCatalogStatus::Deferred, feature_path: "atlas/meso/features/natural_arch" });
    proof {
        reveal_strlit("atlas/meso/features/");
        reveal_strlit("hill_cluster");
        reveal_strlit("atlas/meso/features/hill_cluster");
        reveal_strlit("rolling_hill_belt");
        reveal_strlit("atlas/meso/features/rolling_hill_belt");
        reveal_strlit("ridge_spur");
        reveal_strlit("atlas/meso/features/ridge_spur");
        reveal_strlit("summit_group");
        reveal_strlit("atlas/meso/features/summit_group");
        reveal_strlit("upland_knob_field");
        reveal_strlit("atlas/meso/features/upland_knob_field");
        reveal_strlit("mesa_island");
        reveal_strlit("atlas/meso/features/mesa_island");
        reveal_strlit("upland_terrace");
        reveal_strlit("atlas/meso/features/upland_terrace");
        reveal_strlit("escarpment_band");
        reveal_strlit("atlas/meso/features/escarpment_band");
        reveal_strlit("fault_scarp");
        reveal_strlit("atlas/meso/features/fault_scarp");
        reveal_strlit("shoulder_shelf");
        reveal_strlit("atlas/meso/features/shoulder_shelf");
        reveal_strlit("shallow_basin");
        reveal_strlit("atlas/meso/features/shallow_basin");
        reveal_strlit("closed_basin");
        reveal_strlit("atlas/meso/features/closed_basin");
        reveal_strlit("wet_basin");
        reveal_strlit("atlas/meso/features/wet_basin");
        reveal_strlit("sinkhole_field");
        reveal_strlit("atlas/meso/features/sinkhole_field");
        reveal_strlit("broad_valley");
        reveal_strlit("atlas/meso/features/broad_valley");
        reveal_strlit("narrow_valley");
        reveal_strlit("atlas/meso/features/narrow_valley");
        reveal_strlit("ravine");
        reveal_strlit("atlas/meso/features/ravine");
        reveal_strlit("canyon_reach");
        reveal_strlit("atlas/meso/features/canyon_reach");
        reveal_strlit("gorge_cut");
        reveal_strlit("atlas/meso/features/gorge_cut");
        reveal_strlit("cirque_basin");
        reveal_strlit("atlas/meso/features/cirque_basin");
        reveal_strlit("creek_corridor");
        reveal_strlit("atlas/meso/features/creek_corridor");
        reveal_strlit("secondary_channel_belt");
        reveal_strlit("atlas/meso/features/secondary_channel_belt");
        reveal_strlit("alluvial_fan");
        reveal_strlit("atlas/meso/features/alluvial_fan");
        reveal_strlit("terraced_floodplain");
        reveal_strlit("atlas/meso/features/terraced_floodplain");
        reveal_strlit("levee_strip");
        reveal_strlit("atlas/meso/features/levee_strip");
        reveal_strlit("oxbow_lowland");
        reveal_strlit("atlas/meso/features/oxbow_lowland");
        reveal_strlit("delta_lobe");
        reveal_strlit("atlas/meso/features/delta_lobe");
        reveal_strlit("distributary_fan");
        reveal_strlit("atlas/meso/features/distributary_fan");
        reveal_strlit("coastal_cliff_band");
        reveal_strlit("atlas/meso/features/coastal_cliff_band");
        reveal_strlit("rocky_headland_chain");
        reveal_strlit("atlas/meso/features/rocky_headland_chain");
        reveal_strlit("cove_breakup");
        reveal_strlit("atlas/meso/features/cove_breakup");
        reveal_strlit("barrier_spit");
        reveal_strlit("atlas/meso/features/barrier_spit");
        reveal_strlit("lagoon_rim");
        reveal_strlit("atlas/meso/features/lagoon_rim");
        reveal_strlit("tidal_flat_bench");
        reveal_strlit("atlas/meso/features/tidal_flat_bench");
        reveal_strlit("backshore_dune_field");
        reveal_strlit("atlas/meso/features/backshore_dune_field");
        reveal_strlit("wave_cut_shelf");
        reveal_strlit("atlas/meso/features/wave_cut_shelf");
        reveal_strlit("sea_stack_cluster");
        reveal_strlit("atlas/meso/features/sea_stack_cluster");
        reveal_strlit("fjord_wall_breakup");
        reveal_strlit("atlas/meso/features/fjord_wall_breakup");
        reveal_strlit("dune_field");
        reveal_strlit("atlas/meso/features/dune_field");
        reveal_strlit("linear_dune_belt");
        reveal_strlit("atlas/meso/features/linear_dune_belt");
        reveal_strlit("badlands_patch");
        reveal_strlit("atlas/meso/features/badlands_patch");
        reveal_strlit("yardang_band");
        reveal_strlit("atlas/meso/features/yardang_band");
        reveal_strlit("dry_gully_network");
        reveal_strlit("atlas/meso/features/dry_gully_network");
        reveal_strlit("pediment_steps");
        reveal_strlit("atlas/meso/features/pediment_steps");
        reveal_strlit("mesa_cluster");
        reveal_strlit("atlas/meso/features/mesa_cluster");
        reveal_strlit("eroded_butte_field");
        reveal_strlit("atlas/meso/features/eroded_butte_field");
        reveal_strlit("glacial_trough");
        reveal_strlit("atlas/meso/features/glacial_trough");
        reveal_strlit("moraine_belt");
        reveal_strlit("atlas/meso/features/moraine_belt");
        reveal_strlit("crevasse_belt");
        reveal_strlit("atlas/meso/features/crevasse_belt");
        reveal_strlit("icefall_breakup");
        reveal_strlit("atlas/meso/features/icefall_breakup");
        reveal_strlit("permafrost_pingo_field");
        reveal_strlit("atlas/meso/features/permafrost_pingo_field");
        reveal_strlit("frost_heave_plain");
        reveal_strlit("atlas/meso/features/frost_heave_plain");
        reveal_strlit("snow_basin");
        reveal_strlit("atlas/meso/features/snow_basin");
        reveal_strlit("glacial_bench");
        reveal_strlit("atlas/meso/features/glacial_bench");
        reveal_strlit("crater");
        reveal_strlit("atlas/meso/features/crater");
        reveal_strlit("caldera");
        reveal_strlit("atlas/meso/features/caldera");
        reveal_strlit("lava_field");
        reveal_strlit("atlas/meso/features/lava_field");
        reveal_strlit("cinder_cone_cluster");
        reveal_strlit("atlas/meso/features/cinder_cone_cluster");
        reveal_strlit("fissure_ridge");
        reveal_strlit("atlas/meso/features/fissure_ridge");
        reveal_strlit("volcanic_terrace");
        reveal_strlit("atlas/meso/features/volcanic_terrace");
        reveal_strlit("marsh_flat");
        reveal_strlit("atlas/meso/features/marsh_flat");
        reveal_strlit("peaty_hollow");
        reveal_strlit("atlas/meso/features/peaty_hollow");
        reveal_strlit("spring_basin");
        reveal_strlit("atlas/meso/features/spring_basin");
        reveal_strlit("wet_meadow_bowl");
        reveal_strlit("atlas/meso/features/wet_meadow_bowl");
        reveal_strlit("natural_arch");
        reveal_strlit("atlas/meso/features/natural_arch");
        assert forall|i: int| 0 <= i < entries.len() implies (#[trigger] entries@[i]).feature_path@
            == meso_feature_dir() + entries@[i].key@ by {
        }
    }
    entries
}

/// A named axis along which atlas regions are classified.
#[derive(Clone, Copy, Debug, PartialEq, Eq)]
pub struct RawClassificationDimension {
    pub key: &'static str,
    pub summary: &'static str,
}

/// Keys and summaries of [`raw_classification_dimensions`], in order.
pub open spec fn spec_raw_dimensions() -> Seq<(Seq<char>, Seq<char>)> {
    seq![
        ("temperature_mean"@, "Annual mean thermal level before seasonal state is applied."@),
        ("moisture_balance"@, "Long-term wet versus dry tendency after aridity pressure."@),
        ("macro_elevation"@, "Atlas-scale elevation used before local heightfield solving."@),
        ("relief_energy"@, "Macro ruggedness or terrain energy before local slope emerges."@),
        ("drainage_potential"@, "Whether water tends to evacuate, collect, or form corridors here."@),
        ("coast_exposure"@, "How marine-facing versus inland the annual setting is."@),
        ("thermal_seasonality"@, "How strong the warm-cold annual swing is."@),
        ("precipitation_seasonality"@, "How evenly rainfall spreads across the year."@),
        ("snow_persistence"@, "How likely snow cover is to remain across seasons."@),
        ("freeze_thaw_tendency"@, "How often the surface oscillates around freezing conditions."@),
    ]
}

/// The raw classification axes sampled from the atlas, in order.
pub fn raw_classification_dimensions() -> (dimensions: Vec<RawClassificationDimension>)
    ensures
        dimensions.len() == spec_raw_dimensions().len(),
        forall|i: int|
            0 <= i < dimensions.len() ==> (#[trigger] dimensions@[i]).key@ == spec_raw_dimensions()[i].0
                && dimensions@[i].summary@ == spec_raw_dimensions()[i].1,
{
    let mut dimensions: Vec<RawClassificationDimension> = Vec::new();
    dimensions.push(RawClassificationDimension {
        key: "temperature_mean",
        summary: "Annual mean thermal level before seasonal state is applied.",
    });
    dimensions.push(RawClassificationDimension {
        key: "moisture_balance",
        summary: "Long-term wet versus dry tendency after aridity pressure.",
    });
    dimensions.push(RawClassificationDimension {
        key: "macro_elevation",
        summary: "Atlas-scale elevation used before local heightfield solving.",
    });
    dimensions.push(RawClassificationDimension {
        key: "relief_energy",
        summary: "Macro ruggedness or terrain energy before local slope emerges.",
    });
    dimensions.push(RawClassificationDimension {
        key: "drainage_potential",
        summary: "Whether water tends to evacuate, collect, or form corridors here.",
    });
    dimensions.push(RawClassificationDimension {
        key: "coast_exposure",
        summary: "How marine-facing versus inland the annual setting is.",
    });
    dimensions.push(RawClassificationDimension {
        key: "thermal_seasonality",
        summary: "How strong the warm-cold annual swing is.",
    });
    dimensions.push(RawClassificationDimension {
        key: "precipitation_seasonality",
        summary: "How evenly rainfall spreads across the year.",
    });
    dimensions.push(RawClassificationDimension {
        key: "snow_persistence",
        summary: "How likely snow cover is to remain across seasons.",
    });
    dimensions.push(RawClassificationDimension {
        key: "freeze_thaw_tendency",
        summary: "How often the surface oscillates around freezing conditions.",
    });
    dimensions
}

/// Keys and summaries of [`resolved_classification_dimensions`], in order.
pub open spec fn spec_resolved_dimensions() -> Seq<(Seq<char>, Seq<char>)> {
    seq![
        ("temperature_band"@, "Resolved thermal band for regional classification."@),
        ("moisture_band"@, "Resolved wetness band for regional classification."@),
        ("elevation_band"@, "Resolved macro altitude band for terrain identity."@),
        ("relief_class"@, "Resolved macro roughness class used for terrain form choice."@),
        ("hydrology_context"@, "Resolved water-context class such as dryland, basin, or corridor."@),
        ("coastal_context"@, "Resolved marine exposure class such as inland, beach, or rocky coast."@),
        ("climate_regime"@, "Derived long-pattern climate class such as oceanic, continental, or monsoonal."@),
    ]
}

/// The resolved classification axes derived from the raw ones, in order.
pub fn resolved_classification_dimensions() -> (dimensions: Vec<RawClassificationDimension>)
    ensures
        dimensions.len() == spec_resolved_dimensions().len(),
        forall|i: int|
            0 <= i < dimensions.len() ==> (#[trigger] dimensions@[i]).key@ == spec_resolved_dimensions()[i].0
                && dimensions@[i].summary@ == spec_resolved_dimensions()[i].1,
{
    let mut dimensions: Vec<RawClassificationDimension> = Vec::new();
    dimensions.push(RawClassificationDimension {
        key: "temperature_band",
        summary: "Resolved thermal band for regional classification.",
    });
    dimensions.push(RawClassificationDimension {
        key: "moisture_band",
        summary: "Resolved wetness band for regional classification.",
    });
    dimensions.push(RawClassificationDimension {
        key: "elevation_band",
        summary: "Resolved macro altitude band for terrain identity.",
    });
    dimensions.push(RawClassificationDimension {
        key: "relief_class",
        summary: "Resolved macro roughness class used for terrain form choice.",
    });
    dimensions.push(RawClassificationDimension {
        key: "hydrology_context",
        summary: "Resolved water-context class such as dryland, basin, or corridor.",
    });
    dimensions.push(RawClassificationDimension {
        key: "coastal_context",
        summary: "Resolved marine exposure class such as inland, beach, or rocky coast.",
    });
    dimensions.push(RawClassificationDimension {
        key: "climate_regime",
        summary: "Derived long-pattern climate class such as oceanic, continental, or monsoonal.",
    });
    dimensions
}

} // verus!
