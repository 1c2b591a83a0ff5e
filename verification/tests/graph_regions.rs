use worldgen::continuity::{BorderAnchorDistances, GenerationTileBounds};
use worldgen::coord::{
    chunk_coord_for_world_xz, div_euclid_i32, rem_euclid_i32, world_to_chunk_local, AtlasCoord,
    ChunkCoord, WorldBlockCoord,
};
use worldgen::graph::{graph_region_for_world_block, GraphRegionArea, GraphRegionCoord};
use worldgen::meso_regions::{
    bounds_contains_coord, guide_region_bounds, owner_region_for_coord, owner_region_range_for_chunk,
};

#[test]
fn graph_region_mapping_uses_euclidean_negative_coordinates() {
    let size = 1024;

    assert_eq!(graph_region_for_world_block(0, 0, size), GraphRegionCoord::new(0, 0));
    assert_eq!(graph_region_for_world_block(1023, 1023, size), GraphRegionCoord::new(0, 0));
    assert_eq!(graph_region_for_world_block(1024, -1, size), GraphRegionCoord::new(1, -1));
    assert_eq!(graph_region_for_world_block(-1, -1024, size), GraphRegionCoord::new(-1, -1));
}

#[test]
fn graph_region_area_is_inclusive() {
    let area =
        GraphRegionArea::new(GraphRegionCoord::new(-1, 2), GraphRegionCoord::new(1, 3)).unwrap();

    assert_eq!(area.region_count(), 6);
    assert!(area.contains(GraphRegionCoord::new(1, 3)));
    assert!(!area.contains(GraphRegionCoord::new(2, 3)));
}

#[test]
fn graph_region_area_rejects_inverted_corners() {
    assert!(GraphRegionArea::new(GraphRegionCoord::new(2, 0), GraphRegionCoord::new(1, 0)).is_none());
    assert!(GraphRegionArea::new(GraphRegionCoord::new(0, 5), GraphRegionCoord::new(0, 4)).is_none());
    let single = GraphRegionArea::new(GraphRegionCoord::new(3, 3), GraphRegionCoord::new(3, 3)).unwrap();
    assert_eq!(single.region_count(), 1);
}

#[test]
fn graph_region_count_saturates() {
    let area = GraphRegionArea::new(
        GraphRegionCoord::new(-1_000_000, -1_000_000),
        GraphRegionCoord::new(1_000_000, 1_000_000),
    )
    .unwrap();
    assert_eq!(area.region_count(), u32::MAX);
}

#[test]
fn graph_region_mapping_is_monotone_and_exact() {
    // A region holds exactly the blocks from size * region to size * region + size - 1.
    let size = 100;
    for world in -250..250 {
        let region = graph_region_for_world_block(world, world, size);
        assert!(size * region.x <= world && world < size * region.x + size);
        let next = graph_region_for_world_block(world + 1, world + 1, size);
        assert!(region.x <= next.x);
    }
}

#[test]
fn euclidean_division_rounds_toward_negative_infinity() {
    assert_eq!(div_euclid_i32(-1, 32), -1);
    assert_eq!(rem_euclid_i32(-1, 32), 31);
    assert_eq!(div_euclid_i32(-32, 32), -1);
    assert_eq!(rem_euclid_i32(-33, 32), 31);
    assert_eq!(div_euclid_i32(i32::MIN, 1), i32::MIN);
}

#[test]
fn world_blocks_split_into_chunk_and_local_coordinates() {
    let (chunk, local) = world_to_chunk_local(WorldBlockCoord(-1, 33, 64));
    assert_eq!(chunk, ChunkCoord(-1, 1, 2));
    assert_eq!((local.x, local.y, local.z), (31, 1, 0));
    assert_eq!(chunk_coord_for_world_xz(-33, 31), ChunkCoord(-2, 0, 0));
}

#[test]
fn generation_tiles_group_four_by_four_chunks() {
    let tile = GenerationTileBounds::for_chunk(ChunkCoord(-1, 0, 5));
    assert_eq!((tile.coord.x, tile.coord.z), (-1, 1));
    assert_eq!((tile.core_min_chunk_x, tile.core_max_chunk_x_exclusive), (-4, 0));
    assert_eq!((tile.core_min_chunk_z, tile.core_max_chunk_z_exclusive), (4, 8));
    assert_eq!(tile.core_min_world_x(), -128);
    assert_eq!(tile.core_max_world_z_exclusive(), 256);
    // Every chunk of the core maps back to the same tile.
    for x in -4..0 {
        for z in 4..8 {
            assert_eq!(GenerationTileBounds::for_chunk(ChunkCoord(x, 0, z)), tile);
        }
    }
}

#[test]
fn generation_tile_solve_chunks_are_z_major() {
    let tile = GenerationTileBounds::for_chunk(ChunkCoord(5, 0, 9));
    let chunks = tile.solve_chunks();
    assert_eq!(chunks.len(), 16);
    assert_eq!(chunks[0], ChunkCoord(4, 0, 8));
    assert_eq!(chunks[1], ChunkCoord(5, 0, 8));
    assert_eq!(chunks[4], ChunkCoord(4, 0, 9));
    assert_eq!(chunks[15], ChunkCoord(7, 0, 11));
}

#[test]
fn border_anchors_cover_the_band_along_each_core_edge() {
    let tile = GenerationTileBounds::for_chunk(ChunkCoord(0, 0, 0));
    // Core spans world blocks 0..128 on both axes.
    let corner = tile.anchor_border_distances(0, 127);
    assert_eq!(
        corner,
        BorderAnchorDistances { west: Some(0), east: None, north: None, south: Some(0) }
    );
    let inner = tile.anchor_border_distances(3, 4);
    assert_eq!(inner, BorderAnchorDistances { west: Some(3), east: None, north: None, south: None });
    let middle = tile.anchor_border_distances(64, 64);
    assert_eq!(middle, BorderAnchorDistances { west: None, east: None, north: None, south: None });
    let east = tile.anchor_border_distances(124, 60);
    assert_eq!(east.east, Some(3));
}

#[test]
fn meso_owner_regions_use_euclidean_division() {
    let region = owner_region_for_coord(AtlasCoord::new(-1, 7), 4);
    assert_eq!((region.x, region.z), (-1, 1));
    let bounds = guide_region_bounds(region, 1, 4);
    assert_eq!(bounds, (-8, 3, 0, 11));
    assert!(bounds_contains_coord(bounds, AtlasCoord::new(-1, 7)));
    assert!(!bounds_contains_coord(bounds, AtlasCoord::new(4, 7)));
}

#[test]
fn owner_region_range_covers_the_chunk_with_padding() {
    // 256-block regions: chunk 9 spans blocks 288..320, all in region 1.
    assert_eq!(owner_region_range_for_chunk(ChunkCoord(9, 0, -1), 1, 256), (0, 2, -2, 0));
    assert_eq!(owner_region_range_for_chunk(ChunkCoord(9, 0, -1), 0, 256), (1, 1, -1, -1));
}

#[test]
fn region_count_counts_the_contained_regions() {
    let area = GraphRegionArea::new(GraphRegionCoord::new(-2, 1), GraphRegionCoord::new(2, 3)).unwrap();
    let mut contained = 0;
    for x in -5..6 {
        for z in -2..7 {
            if area.contains(GraphRegionCoord::new(x, z)) {
                contained += 1;
            }
        }
    }
    assert_eq!(area.region_count(), contained);
    assert_eq!(contained, 15);
}
