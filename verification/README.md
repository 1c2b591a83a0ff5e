# worldgen

The deterministic integer core of a voxel world generator, verified with
Verus. The library (`src/`) covers:

- `coord`, `graph`, `continuity`, `meso_regions`: Euclidean chunk, region and
  tile arithmetic, generation tiles and their border bands, meso ownership
  ranges.
- `calendar`: the world clock and seasons.
- `atlas_fields`: neighbourhoods on atlas grids, continent labelling by
  4-connectivity and the capped chamfer distance transform.
- `hashing`: SplitMix64, FNV-1a and the per-column seeds built on them.
- `surface_plan`, `surface_rules`: biome block policies, the hydrology role and
  materials of a surface column, noisy boundary breakup, owner-site top
  normalization and area statistics.
- `vegetation`: rock prop placement.
- `voxel`, `voxel_bounds`: the graph-first voxel column plan, its world frame
  and the fill of chunk blocks.
- `pipeline`, `meso_catalog`: stage markers, small helpers and the catalog
  tables of the generation pipeline.

Continuous fields (masks, hints, hydration, weather, noise) are floating
point; they reach the library as the threshold flags and bands the rules
test. `app/` holds that reduction, the weather and clock factors, and the
`Display` form of the voxel error.
