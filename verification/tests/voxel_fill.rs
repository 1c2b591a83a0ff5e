use worldgen::coord::{ChunkCoord, LocalBlockCoord, CHUNK_EDGE};
use worldgen::graph::{GraphRegionArea, GraphRegionCoord};
use worldgen::voxel_bounds::{graph_first_voxel_bounds, required_padding_regions};
use worldgen::surface_plan::{
    SurfaceColumnPlan, SurfaceHydrologyRole, SurfacePlanArea, SurfacePlanAreaStats, SurfacePlanConfig,
};
use worldgen::voxel::{
    block_for_world_y, build_graph_first_voxel_plan_from_pixelized_area,
    build_graph_first_voxel_plan_from_pixelized_area_and_surface,
    graph_first_voxel_column_from_pixelized_column, linear_index, voxelize_graph_first_chunk, BlockId,
    BlockRegistry, GraphFirstVoxelError, GraphFirstVoxelFillConfig, PixelizedChunkArea, PixelizedColumn,
    VoxelColumnBlockIds,
};

fn registry() -> BlockRegistry {
    BlockRegistry {
        entries: vec![
            ("air", BlockId::air()),
            ("grass", BlockId(1)),
            ("water", BlockId(2)),
            ("dirt", BlockId(3)),
            ("stone", BlockId(4)),
            ("sand", BlockId(5)),
        ],
    }
}

fn local(x: u8, y: u8, z: u8) -> LocalBlockCoord {
    LocalBlockCoord { x, y, z }
}

fn synthetic_pixelized_area() -> PixelizedChunkArea {
    let mut columns = Vec::new();
    for z in 0..CHUNK_EDGE {
        for x in 0..CHUNK_EDGE {
            let water = x == 1 && z == 0;
            columns.push(PixelizedColumn {
                world_x: x as i32,
                world_z: z as i32,
                chunk_x: 0,
                chunk_z: 0,
                local_x: x as u8,
                local_z: z as u8,
                surface_y: if water { 0 } else { 10 },
                water_y: if water { Some(0) } else { None },
            });
        }
    }
    PixelizedChunkArea {
        origin_world_x: 0,
        origin_world_z: 0,
        width: CHUNK_EDGE as u32,
        height: CHUNK_EDGE as u32,
        min_chunk_x: 0,
        max_chunk_x: 0,
        min_chunk_z: 0,
        max_chunk_z: 0,
        columns,
    }
}

#[test]
fn graph_first_voxel_plan_from_pixelized_area_is_deterministic() {
    let area = synthetic_pixelized_area();
    let fill = GraphFirstVoxelFillConfig::default();

    let first = build_graph_first_voxel_plan_from_pixelized_area(&area, fill);
    let second = build_graph_first_voxel_plan_from_pixelized_area(&area, fill);

    assert_eq!(first, second);
}

#[test]
fn graph_first_voxel_fill_reuses_columns_across_vertical_stack() {
    let registry = registry();
    let area = synthetic_pixelized_area();
    let plan =
        build_graph_first_voxel_plan_from_pixelized_area(&area, GraphFirstVoxelFillConfig::default());

    let lower = voxelize_graph_first_chunk(ChunkCoord(0, 0, 0), &plan, &registry).expect("lower chunk");
    let upper = voxelize_graph_first_chunk(ChunkCoord(0, 1, 0), &plan, &registry).expect("upper chunk");

    assert_eq!(lower.get_block(local(0, 10, 0)), registry.block_id("grass"));
    assert_eq!(upper.get_block(local(0, 0, 0)), Some(BlockId::air()));
}

#[test]
fn graph_first_voxel_fill_places_water_grass_and_air() {
    let registry = registry();
    let area = synthetic_pixelized_area();
    let plan =
        build_graph_first_voxel_plan_from_pixelized_area(&area, GraphFirstVoxelFillConfig::default());
    let chunk = voxelize_graph_first_chunk(ChunkCoord(0, 0, 0), &plan, &registry).expect("chunk");
    let grass = registry.block_id("grass");
    let water = registry.block_id("water");

    assert_eq!(chunk.get_block(local(0, 10, 0)), grass);
    assert_eq!(chunk.get_block(local(1, 0, 0)), water);
    assert_eq!(chunk.get_block(local(0, 31, 0)), Some(BlockId::air()));
}

#[test]
fn voxel_column_plan_preserves_negative_ocean_bed_under_sea_level_water() {
    let mut column = synthetic_pixelized_area().columns[1];
    column.surface_y = -8;
    column.water_y = Some(0);

    let plan = graph_first_voxel_column_from_pixelized_column(column, GraphFirstVoxelFillConfig::default());

    assert_eq!(plan.terrain_top_y, -8);
    assert_eq!(plan.water_top_y, Some(0));
    assert_eq!(plan.top_non_air_y(), 0);
}

#[test]
fn terrain_under_water_sits_below_the_surface() {
    let mut column = synthetic_pixelized_area().columns[1];
    column.surface_y = 4;
    column.water_y = Some(3);
    let plan = graph_first_voxel_column_from_pixelized_column(column, GraphFirstVoxelFillConfig::default());
    assert_eq!(plan.terrain_top_y, 4);
    column.surface_y = 3;
    let plan = graph_first_voxel_column_from_pixelized_column(column, GraphFirstVoxelFillConfig::default());
    assert_eq!(plan.terrain_top_y, 2);
}

#[test]
fn missing_block_key_is_reported() {
    let registry = BlockRegistry { entries: vec![("grass", BlockId(1))] };
    let area = synthetic_pixelized_area();
    let plan =
        build_graph_first_voxel_plan_from_pixelized_area(&area, GraphFirstVoxelFillConfig::default());
    let result = voxelize_graph_first_chunk(ChunkCoord(0, 0, 0), &plan, &registry);
    assert_eq!(result.err(), Some(GraphFirstVoxelError::MissingBlockKey("water")));
}

#[test]
fn chunks_outside_the_plan_are_all_air() {
    let registry = registry();
    let area = synthetic_pixelized_area();
    let plan =
        build_graph_first_voxel_plan_from_pixelized_area(&area, GraphFirstVoxelFillConfig::default());
    let chunk = voxelize_graph_first_chunk(ChunkCoord(5, 0, 5), &plan, &registry).expect("chunk");
    assert!(chunk.blocks.iter().all(|block| *block == BlockId::air()));
}

#[test]
fn first_registry_entry_wins() {
    let registry = BlockRegistry { entries: vec![("sand", BlockId(7)), ("sand", BlockId(8))] };
    assert_eq!(registry.block_id("sand"), Some(BlockId(7)));
    assert_eq!(registry.block_id("clay"), None);
}

#[test]
fn linear_index_is_x_then_z_then_y() {
    assert_eq!(linear_index(1, 0, 0), 1);
    assert_eq!(linear_index(0, 0, 1), 32);
    assert_eq!(linear_index(0, 1, 0), 1024);
    assert_eq!(linear_index(31, 31, 31), 32767);
}

fn surface_column(world_x: i32, world_z: i32, surface_y: i32, water_y: Option<i32>) -> SurfaceColumnPlan {
    SurfaceColumnPlan {
        world_x,
        world_z,
        surface_y,
        water_y,
        hydrology_role: SurfaceHydrologyRole::Land,
        top_block: "sand",
        subsurface_block: "dirt",
        base_block: "stone",
        underwater_top_block: "sand",
        exposed_block: "stone",
        sediment_block: "sand",
        soil_depth_blocks: 2,
        vegetation_allowed: true,
        cover_phase: 0,
    }
}

fn empty_stats() -> SurfacePlanAreaStats {
    SurfacePlanAreaStats {
        column_count: 0,
        ocean_column_count: 0,
        lake_column_count: 0,
        river_column_count: 0,
        wetland_column_count: 0,
        coast_column_count: 0,
        dry_basin_column_count: 0,
        ridge_column_count: 0,
        land_column_count: 0,
        water_column_count: 0,
        exposed_column_count: 0,
        vegetation_allowed_count: 0,
    }
}

#[test]
fn surface_plan_layers_soil_over_base() {
    let mut area = synthetic_pixelized_area();
    area.width = 2;
    area.height = 1;
    area.columns.truncate(2);
    let surface = SurfacePlanArea {
        width: 2,
        height: 1,
        columns: vec![surface_column(0, 0, 10, None), surface_column(1, 0, 0, Some(0))],
        stats: empty_stats(),
        config: SurfacePlanConfig::default(),
    };
    let plan = build_graph_first_voxel_plan_from_pixelized_area_and_surface(
        &area,
        &surface,
        GraphFirstVoxelFillConfig::default(),
    )
    .expect("matching surface plan");
    let column = plan.column(0, 0).unwrap();
    assert_eq!(column.top_block_key, "sand");
    assert_eq!(column.soil_depth_blocks, 2);
    let ids = VoxelColumnBlockIds::resolve(column, &registry()).expect("registered");
    assert_eq!(block_for_world_y(10, column, ids), BlockId(5));
    assert_eq!(block_for_world_y(9, column, ids), BlockId(3));
    assert_eq!(block_for_world_y(8, column, ids), BlockId(3));
    assert_eq!(block_for_world_y(7, column, ids), BlockId(4));
    assert_eq!(block_for_world_y(11, column, ids), BlockId::air());

    let mismatched = SurfacePlanArea { width: 3, ..surface };
    assert_eq!(
        build_graph_first_voxel_plan_from_pixelized_area_and_surface(
            &area,
            &mismatched,
            GraphFirstVoxelFillConfig::default(),
        )
        .err(),
        Some(GraphFirstVoxelError::MismatchedSurfacePlan)
    );
}

#[test]
fn voxel_bounds_frame_the_chunk_range() {
    let single = graph_first_voxel_bounds(0, 0, 0, 0, 1024, 192, 2).expect("valid range");
    assert_eq!((single.min_world_x, single.min_world_z), (0, 0));
    assert_eq!((single.width, single.height), (32, 32));
    assert_eq!((single.center_world_x, single.center_world_z), (16, 16));
    assert_eq!(single.graph_area.min, GraphRegionCoord::new(0, 0));
    assert_eq!(single.graph_area.max, GraphRegionCoord::new(0, 0));
    assert_eq!(single.padding_regions, 2);

    let spread = graph_first_voxel_bounds(-1, 1, -2, 0, 64, 192, 1).expect("valid range");
    assert_eq!((spread.min_world_x, spread.min_world_z), (-32, -64));
    assert_eq!((spread.width, spread.height), (96, 96));
    assert_eq!((spread.center_world_x, spread.center_world_z), (16, -16));
    assert_eq!(spread.graph_area.min, GraphRegionCoord::new(-1, -1));
    assert_eq!(spread.graph_area.max, GraphRegionCoord::new(0, 0));
    assert_eq!(spread.center_region, GraphRegionCoord::new(0, -1));
    assert_eq!(spread.padding_regions, 2);
}

#[test]
fn invalid_voxel_ranges_are_rejected() {
    let invalid = Some(GraphFirstVoxelError::InvalidChunkRange);
    assert_eq!(graph_first_voxel_bounds(1, 0, 0, 0, 1024, 192, 2).err(), invalid);
    assert_eq!(graph_first_voxel_bounds(0, 0, 0, -1, 1024, 192, 2).err(), invalid);
    assert_eq!(graph_first_voxel_bounds(0, 0, 0, 0, 0, 192, 2).err(), invalid);
    assert_eq!(graph_first_voxel_bounds(0, 0, 0, 0, 1024, -5, 2).err(), invalid);
    assert_eq!(graph_first_voxel_bounds(i32::MIN / 16, 0, 0, 0, 1024, 192, 2).err(), invalid);
    assert_eq!(graph_first_voxel_bounds(0, i32::MAX / 32, 0, 0, 1024, 192, 2).err(), invalid);
    assert_eq!(graph_first_voxel_bounds(0, 0, 0, i32::MAX, 1024, 192, 2).err(), invalid);
}

#[test]
fn padding_reaches_the_farthest_area_edge() {
    let area = GraphRegionArea::new(GraphRegionCoord::new(-3, 0), GraphRegionCoord::new(1, 5)).unwrap();
    assert_eq!(required_padding_regions(GraphRegionCoord::new(0, 1), area, 2), 5);
    assert_eq!(required_padding_regions(GraphRegionCoord::new(-1, 2), area, 8), 8);
}

#[test]
fn the_first_missing_key_in_scan_order_is_reported() {
    let registry = BlockRegistry { entries: vec![("water", BlockId(2))] };
    let area = synthetic_pixelized_area();
    let plan =
        build_graph_first_voxel_plan_from_pixelized_area(&area, GraphFirstVoxelFillConfig::default());
    let result = voxelize_graph_first_chunk(ChunkCoord(0, 0, 0), &plan, &registry);
    assert_eq!(result.err(), Some(GraphFirstVoxelError::MissingBlockKey("grass")));
}
