//! Deterministic integer core of a voxel world generator: region and chunk
//! coordinate arithmetic, the world calendar, atlas grid flood fills and
//! distance transforms, surface material boundary mixing, rock prop
//! placement and the graph-first voxel column plan.

pub mod coord;
pub mod graph;
pub mod calendar;
pub mod atlas_fields;
pub mod hashing;
pub mod surface_plan;
pub mod voxel;
pub mod meso_regions;
pub mod continuity;
pub mod pipeline;
pub mod meso_catalog;
pub mod vegetation;
pub mod surface_rules;
pub mod voxel_bounds;
