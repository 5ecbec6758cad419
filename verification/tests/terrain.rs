use minecraft_tty::geometry::MAX_BLOCKS_PER_MESH;
use minecraft_tty::world_gen::{
    generate_chunk, generate_chunk_geometry, in_terrain_range, sample_point, ChunkCoord,
    HeightGrid, CHUNK_SIZE, HEIGHT_BASE, HEIGHT_SCALE, MAX_HEIGHT, MIN_HEIGHT, NOISE_FREQUENCY,
    NOISE_SEED,
};
use noise::{NoiseFn, Perlin};

/// Heights of the chunk at `coord`: one noise sample per column, taken at the
/// column's world position divided by the noise frequency.
fn terrain_heights(coord: ChunkCoord) -> HeightGrid {
    let perlin = Perlin::new(NOISE_SEED);
    let mut heights = [[0u8; CHUNK_SIZE]; CHUNK_SIZE];
    for x in 0..CHUNK_SIZE {
        for z in 0..CHUNK_SIZE {
            let (world_x, world_z) = sample_point(coord, x as u8, z as u8);
            let sample = perlin.get([
                world_x as f64 / NOISE_FREQUENCY as f64,
                world_z as f64 / NOISE_FREQUENCY as f64,
            ]);
            heights[x][z] = ((sample + 1.0) * HEIGHT_SCALE as f64 + HEIGHT_BASE as f64) as u8;
        }
    }
    heights
}

#[test]
fn origin_chunk_matches_the_recorded_terrain() {
    let coord = ChunkCoord { x: 0, z: 0 };
    let heights = terrain_heights(coord);
    assert_eq!(
        heights,
        [
            [5, 5, 5, 6, 6, 6, 5, 5],
            [5, 5, 6, 6, 6, 6, 6, 5],
            [5, 6, 6, 6, 6, 6, 6, 5],
            [6, 6, 6, 6, 6, 6, 5, 5],
            [6, 6, 6, 6, 6, 5, 5, 5],
            [6, 6, 6, 6, 5, 5, 4, 4],
            [5, 6, 6, 5, 5, 4, 4, 4],
            [5, 5, 5, 5, 5, 4, 4, 4],
        ]
    );
    let chunk = generate_chunk(coord, &heights);
    assert_eq!(chunk.blocks().len(), 343);
    let geometry = generate_chunk_geometry(coord, &heights).unwrap();
    assert_eq!(geometry.vertices.len(), 8232);
    assert_eq!(geometry.indices.len(), 12348);
    assert_eq!(geometry.index_count, 12348);
}

#[test]
fn neighbouring_chunks_match_the_recorded_terrain() {
    assert_eq!(
        terrain_heights(ChunkCoord { x: -1, z: 0 }),
        [
            [5, 5, 5, 5, 5, 4, 4, 4],
            [5, 5, 5, 5, 4, 4, 4, 4],
            [5, 5, 5, 5, 4, 4, 3, 3],
            [5, 5, 5, 5, 4, 4, 3, 3],
            [5, 5, 5, 5, 5, 4, 3, 3],
            [4, 5, 5, 5, 5, 4, 4, 3],
            [4, 4, 5, 5, 5, 5, 4, 4],
            [4, 5, 5, 5, 6, 5, 5, 4],
        ]
    );
    assert_eq!(
        terrain_heights(ChunkCoord { x: -1, z: -1 }),
        [
            [5, 5, 5, 5, 5, 4, 4, 4],
            [5, 5, 5, 5, 5, 5, 4, 5],
            [5, 5, 5, 5, 5, 5, 5, 5],
            [5, 5, 5, 5, 5, 5, 4, 4],
            [5, 5, 5, 5, 5, 4, 4, 4],
            [4, 5, 5, 5, 4, 4, 4, 4],
            [4, 4, 5, 4, 4, 4, 4, 4],
            [4, 5, 5, 4, 4, 4, 4, 4],
        ]
    );
}

#[test]
fn terrain_heights_stay_in_range() {
    for cx in -3..3 {
        for cz in -3..3 {
            let heights = terrain_heights(ChunkCoord { x: cx, z: cz });
            assert!(in_terrain_range(&heights));
            for row in heights {
                for height in row {
                    assert!(MIN_HEIGHT <= height && height <= MAX_HEIGHT);
                }
            }
        }
    }
}

#[test]
fn terrain_is_reproducible() {
    let coord = ChunkCoord { x: -1, z: 0 };
    let first = generate_chunk(coord, &terrain_heights(coord));
    let second = generate_chunk(coord, &terrain_heights(coord));
    assert_eq!(first, second);
    assert_eq!(first.blocks(), second.blocks());
}

#[test]
fn terrain_chunks_always_mesh() {
    for cx in -2..2 {
        for cz in -2..2 {
            let coord = ChunkCoord { x: cx, z: cz };
            let heights = terrain_heights(coord);
            let blocks: usize = heights.iter().flatten().map(|h| *h as usize).sum();
            assert!(blocks <= MAX_BLOCKS_PER_MESH);
            let geometry = generate_chunk_geometry(coord, &heights).unwrap();
            assert_eq!(geometry.vertices.len(), 24 * blocks);
            assert_eq!(geometry.indices.len(), 36 * blocks);
        }
    }
}

#[test]
fn terrain_noise_matches_pinned_samples() {
    let perlin = Perlin::new(NOISE_SEED);
    let pinned = [
        ([0.0, 0.0], 0.0),
        ([0.125, 0.25], 0.6129153604073095),
        ([0.5, 0.5], 0.7071067811865475),
        ([0.875, 0.375], 0.24700135545118143),
        ([3.25, -7.75], 0.699529789348653),
        ([100.5, 200.25], 0.3901516907914056),
    ];
    for (point, value) in pinned {
        let sample: f64 = perlin.get(point);
        assert!((sample - value).abs() <= 1e-9, "{point:?}: {sample}");
        assert!((-1.0..=1.0).contains(&sample));
    }
}
