use minecraft_tty::geometry::{Geometry, MeshError, MAX_BLOCKS_PER_MESH};
use minecraft_tty::world_gen::{
    block_type_at, generate_chunk, generate_chunk_geometry, generate_column, in_terrain_range,
    sample_point, Block, BlockType, ChunkCoord, HeightGrid, Position, CHUNK_HEIGHT, CHUNK_SIZE,
    HEIGHT_BASE, HEIGHT_SCALE, MAX_HEIGHT, MIN_HEIGHT,
};

fn materials(column: &[Block]) -> Vec<BlockType> {
    column.iter().map(|block| block.block_type).collect()
}

fn flat(height: u8) -> HeightGrid {
    [[height; CHUNK_SIZE]; CHUNK_SIZE]
}

#[test]
fn column_of_five_is_stone_dirt_grass() {
    let column = generate_column(2, 3, 5);
    assert_eq!(
        materials(&column),
        vec![
            BlockType::Stone,
            BlockType::Stone,
            BlockType::Dirt,
            BlockType::Dirt,
            BlockType::Grass
        ]
    );
}

#[test]
fn column_blocks_climb_from_the_ground() {
    let column = generate_column(2, 3, 5);
    for (y, block) in column.iter().enumerate() {
        assert_eq!(block.position, Position { x: 2, y: y as i32, z: 3 });
    }
}

#[test]
fn empty_column_has_no_blocks() {
    assert!(generate_column(0, 0, 0).is_empty());
}

#[test]
fn single_block_column_is_grass() {
    assert_eq!(materials(&generate_column(0, 0, 1)), vec![BlockType::Grass]);
}

#[test]
fn short_columns_have_no_stone() {
    assert_eq!(materials(&generate_column(0, 0, 2)), vec![BlockType::Dirt, BlockType::Grass]);
    assert_eq!(
        materials(&generate_column(0, 0, 3)),
        vec![BlockType::Dirt, BlockType::Dirt, BlockType::Grass]
    );
}

#[test]
fn every_column_is_grass_over_two_dirt_over_stone() {
    for height in 0..=255u8 {
        let column = generate_column(-4, 9, height);
        assert_eq!(column.len(), height as usize);
        for (y, block) in column.iter().enumerate() {
            let below_top = height as usize - 1 - y;
            let expected = match below_top {
                0 => BlockType::Grass,
                1 | 2 => BlockType::Dirt,
                _ => BlockType::Stone,
            };
            assert_eq!(block.block_type, expected, "height {height}, layer {y}");
        }
    }
}

#[test]
fn block_type_at_matches_columns() {
    assert_eq!(block_type_at(6, 7), BlockType::Grass);
    assert_eq!(block_type_at(5, 7), BlockType::Dirt);
    assert_eq!(block_type_at(4, 7), BlockType::Dirt);
    assert_eq!(block_type_at(3, 7), BlockType::Stone);
    assert_eq!(block_type_at(0, 7), BlockType::Stone);
    assert_eq!(block_type_at(0, 1), BlockType::Grass);
    assert_eq!(block_type_at(254, 255), BlockType::Grass);
    assert_eq!(block_type_at(251, 255), BlockType::Stone);
    assert_eq!(block_type_at(0, 3), BlockType::Dirt);
    assert_eq!(block_type_at(0, 4), BlockType::Stone);
}

#[test]
fn sample_points_are_world_positions() {
    assert_eq!(sample_point(ChunkCoord { x: 0, z: 0 }, 0, 0), (0, 0));
    assert_eq!(sample_point(ChunkCoord { x: 0, z: 0 }, 7, 3), (7, 3));
    assert_eq!(sample_point(ChunkCoord { x: -1, z: 2 }, 0, 7), (-8, 23));
    assert_eq!(sample_point(ChunkCoord { x: -1, z: -1 }, 7, 7), (-1, -1));
    assert_eq!(
        sample_point(ChunkCoord { x: i32::MAX, z: i32::MIN }, 255, 255),
        (8 * (i32::MAX as i64) + 255, 8 * (i32::MIN as i64) + 255)
    );
}

#[test]
fn terrain_range_is_three_to_seven() {
    assert!(in_terrain_range(&flat(3)));
    assert!(in_terrain_range(&flat(5)));
    assert!(in_terrain_range(&flat(7)));
    assert!(!in_terrain_range(&flat(2)));
    assert!(!in_terrain_range(&flat(8)));
    let mut heights = flat(4);
    heights[7][7] = 8;
    assert!(!in_terrain_range(&heights));
    heights[7][7] = 7;
    heights[0][0] = 0;
    assert!(!in_terrain_range(&heights));
    heights[0][0] = 3;
    assert!(in_terrain_range(&heights));
}

#[test]
fn height_formula_maps_samples_to_the_terrain_range() {
    for (sample, height) in [(-1.0, 3), (-0.75, 3), (-0.5, 4), (-0.01, 4), (0.0, 5), (0.49, 5),
        (0.5, 6), (0.99, 6), (1.0, 7)]
    {
        let formula: f64 = (sample + 1.0) * HEIGHT_SCALE as f64 + HEIGHT_BASE as f64;
        assert_eq!(formula as u8, height);
        assert!(MIN_HEIGHT <= height && height <= MAX_HEIGHT);
    }
}

#[test]
fn height_constants_agree() {
    assert_eq!(MIN_HEIGHT, HEIGHT_BASE);
    assert_eq!(MAX_HEIGHT, HEIGHT_BASE + 2 * HEIGHT_SCALE);
    assert!((MAX_HEIGHT as usize) < CHUNK_HEIGHT);
    assert_eq!(CHUNK_SIZE, 8);
}

#[test]
fn chunk_is_a_grid_of_columns() {
    let mut heights = flat(3);
    heights[1][2] = 7;
    heights[7][0] = 4;
    let chunk = generate_chunk(ChunkCoord { x: -1, z: 5 }, &heights);
    assert_eq!(chunk.coord, ChunkCoord { x: -1, z: 5 });
    assert_eq!(chunk.columns.len(), CHUNK_SIZE);
    for x in 0..CHUNK_SIZE {
        assert_eq!(chunk.columns[x].len(), CHUNK_SIZE);
        for z in 0..CHUNK_SIZE {
            assert_eq!(
                chunk.columns[x][z],
                generate_column(x as i32, z as i32, heights[x][z])
            );
        }
    }
    assert_eq!(chunk.columns[1][2].len(), 7);
    assert_eq!(chunk.columns[7][0][3].block_type, BlockType::Grass);
}

#[test]
fn generating_twice_gives_the_same_chunk() {
    let mut heights = flat(5);
    heights[0][0] = 3;
    heights[3][4] = 7;
    let first = generate_chunk(ChunkCoord { x: 0, z: 0 }, &heights);
    let second = generate_chunk(ChunkCoord { x: 0, z: 0 }, &heights);
    assert_eq!(first, second);
    assert_eq!(first.blocks(), second.blocks());
    let mesh_one = generate_chunk_geometry(ChunkCoord { x: 0, z: 0 }, &heights);
    let mesh_two = generate_chunk_geometry(ChunkCoord { x: 0, z: 0 }, &heights);
    assert_eq!(mesh_one, mesh_two);
}

#[test]
fn blocks_come_in_scan_order() {
    let mut heights = flat(1);
    heights[0][0] = 2;
    heights[0][1] = 0;
    let chunk = generate_chunk(ChunkCoord { x: 0, z: 0 }, &heights);
    let blocks = chunk.blocks();
    assert_eq!(blocks.len(), 64);
    assert_eq!(
        blocks[0],
        Block { position: Position { x: 0, y: 0, z: 0 }, block_type: BlockType::Dirt }
    );
    assert_eq!(
        blocks[1],
        Block { position: Position { x: 0, y: 1, z: 0 }, block_type: BlockType::Grass }
    );
    assert_eq!(
        blocks[2],
        Block { position: Position { x: 0, y: 0, z: 2 }, block_type: BlockType::Grass }
    );
    assert_eq!(
        blocks[63],
        Block { position: Position { x: 7, y: 0, z: 7 }, block_type: BlockType::Grass }
    );
}

#[test]
fn chunk_mesh_has_24_vertices_and_36_indices_per_block() {
    let mut heights = flat(4);
    heights[2][2] = 6;
    let geometry = generate_chunk_geometry(ChunkCoord { x: 0, z: 0 }, &heights).unwrap();
    let blocks = 63 * 4 + 6;
    assert_eq!(geometry.vertices.len(), 24 * blocks);
    assert_eq!(geometry.indices.len(), 36 * blocks);
    assert_eq!(geometry.index_count as usize, 36 * blocks);
}

#[test]
fn chunk_mesh_is_the_mesh_of_its_blocks() {
    let mut heights = flat(3);
    heights[5][1] = 7;
    let coord = ChunkCoord { x: -1, z: -1 };
    let chunk = generate_chunk(coord, &heights);
    let direct = Geometry::build(&chunk.blocks(), coord).unwrap();
    assert_eq!(generate_chunk_geometry(coord, &heights).unwrap(), direct);
}

#[test]
fn chunk_mesh_sits_at_the_chunk_anchor() {
    let heights = flat(1);
    let geometry = generate_chunk_geometry(ChunkCoord { x: -1, z: 2 }, &heights).unwrap();
    // First vertex: corner (0, 1, 1) of the front face of block (0, 0, 0).
    let first = geometry.vertices[0].position;
    assert_eq!((first.x, first.y, first.z), (-8, 1, 17));
    // Last block is (7, 0, 7); its last vertex is corner (1, 1, 1) of the top face.
    let last = geometry.vertices[geometry.vertices.len() - 1].position;
    assert_eq!((last.x, last.y, last.z), (0, 1, 24));
}

#[test]
fn tallest_terrain_fits_one_mesh() {
    let geometry = generate_chunk_geometry(ChunkCoord { x: 0, z: 0 }, &flat(MAX_HEIGHT)).unwrap();
    assert_eq!(geometry.vertices.len(), 24 * 448);
    assert_eq!(geometry.indices.len(), 36 * 448);
}

#[test]
fn chunk_with_too_many_blocks_is_rejected() {
    // 64 columns of 43 blocks are 2752 blocks.
    assert_eq!(
        generate_chunk_geometry(ChunkCoord { x: 0, z: 0 }, &flat(43)),
        Err(MeshError::TooManyBlocks)
    );
}

#[test]
fn chunk_at_the_block_limit_is_meshed() {
    // 2688 blocks, then 42 columns with one more: exactly 2730.
    let mut heights = flat(42);
    for i in 0..42 {
        heights[i / CHUNK_SIZE][i % CHUNK_SIZE] = 43;
    }
    let geometry = generate_chunk_geometry(ChunkCoord { x: 0, z: 0 }, &heights).unwrap();
    assert_eq!(geometry.vertices.len(), 24 * MAX_BLOCKS_PER_MESH);
    assert_eq!(*geometry.indices.iter().max().unwrap(), 65519);
    heights[7][7] = 43;
    assert_eq!(
        generate_chunk_geometry(ChunkCoord { x: 0, z: 0 }, &heights),
        Err(MeshError::TooManyBlocks)
    );
}
