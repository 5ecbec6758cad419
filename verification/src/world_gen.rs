//! Chunks of voxel columns.
//!
//! A chunk is a `CHUNK_SIZE` by `CHUNK_SIZE` grid of columns. Each column is
//! fully determined by its height: grass on top, up to two layers of dirt
//! below it, stone underneath.

use vstd::prelude::*;
use crate::geometry::{indices_in_bounds, is_mesh_of, Geometry, MeshError, MAX_BLOCKS_PER_MESH};

verus! {

/// Columns along each horizontal axis of a chunk.
pub const CHUNK_SIZE: usize = 8;

/// Nominal vertical extent of a chunk; every terrain column stays below it.
pub const CHUNK_HEIGHT: usize = 8;

/// Seed of the noise field that terrain heights are sampled from.
pub const NOISE_SEED: u32 = 42;

/// World-space distance that corresponds to one unit of the noise field.
pub const NOISE_FREQUENCY: u32 = 8;

/// Factor applied to a noise sample shifted into `[0, 2]`.
pub const HEIGHT_SCALE: u8 = 2;

/// Height of a column whose noise sample is `-1`.
pub const HEIGHT_BASE: u8 = 3;

/// Smallest height the terrain formula yields for a sample in `[-1, 1]`.
pub const MIN_HEIGHT: u8 = 3;

/// Largest height the terrain formula yields for a sample in `[-1, 1]`.
pub const MAX_HEIGHT: u8 = 7;

/// Layers of dirt directly below the grass of a column.
pub const DIRT_LAYERS: u8 = 2;

/// Material of a block.
#[derive(Debug, Clone, Copy, PartialEq, Eq, Structural)]
pub enum BlockType {
    Grass,
    Dirt,
    Stone,
}

/// Position of a block on the integer grid of its chunk.
#[derive(Debug, Clone, Copy, PartialEq, Eq, Structural)]
pub struct Position {
    pub x: i32,
    pub y: i32,
    pub z: i32,
}

/// One voxel: where it sits in its chunk and what it is made of.
#[derive(Debug, Clone, Copy, PartialEq, Eq, Structural)]
pub struct Block {
    pub position: Position,
    pub block_type: BlockType,
}

/// Coordinate of a chunk on the horizontal chunk grid.
#[derive(Debug, Clone, Copy, PartialEq, Eq, Structural)]
pub struct ChunkCoord {
    pub x: i32,
    pub z: i32,
}

/// Material of layer `y` in a column of `height` blocks: the top layer is
/// grass, the two layers below it are dirt, everything further down is stone.
pub open spec fn material_at(y: int, height: int) -> BlockType {
    if y == height - 1 {
        BlockType::Grass
    } else if y >= height - 1 - DIRT_LAYERS {
        BlockType::Dirt
    } else {
        BlockType::Stone
    }
}

/// The column of `height` blocks at grid position `(x, z)`, bottom to top.
pub open spec fn column_blocks(x: i32, z: i32, height: nat) -> Seq<Block> {
    Seq::new(
        height,
        |y: int|
            Block {
                position: Position { x, y: y as i32, z },
                block_type: material_at(y, height as int),
            },
    )
}

/// Material of layer `y` in a column of `height` blocks.
pub fn block_type_at(y: u8, height: u8) -> (material: BlockType)
    ensures
        material == material_at(y as int, height as int),
{
    let below_top: i16 = height as i16 - 1 - y as i16;
    if below_top == 0 {
        BlockType::Grass
    } else if below_top <= DIRT_LAYERS as i16 {
        BlockType::Dirt
    } else {
        BlockType::Stone
    }
}

/// Builds the column of `height` blocks at grid position `(x, z)`.
pub fn generate_column(x: i32, z: i32, height: u8) -> (column: Vec<Block>)
    ensures
        column@ == column_blocks(x, z, height as nat),
{
    let mut column: Vec<Block> = Vec::new();
    let mut y: u8 = 0;
    while y < height
        invariant
            y <= height,
            column@ == column_blocks(x, z, height as nat).take(y as int),
        decreases height - y,
    {
        let block = Block {
            position: Position { x, y: y as i32, z },
            block_type: block_type_at(y, height),
        };
        column.push(block);
        y = y + 1;
    }
    column
}

/// World coordinate of position `local` along one horizontal axis of the
/// chunk that has coordinate `chunk` on that axis.
pub open spec fn world_coordinate(chunk: int, local: int) -> int {
    chunk * CHUNK_SIZE + local
}

/// World position `(x, z)` of column `(x, z)` of the chunk at `coord`: the
/// point whose quotient by `NOISE_FREQUENCY` the column's height is sampled
/// at.
pub fn sample_point(coord: ChunkCoord, x: u8, z: u8) -> (point: (i64, i64))
    ensures
        point.0 == world_coordinate(coord.x as int, x as int),
        point.1 == world_coordinate(coord.z as int, z as int),
{
    (
        coord.x as i64 * (CHUNK_SIZE as i64) + x as i64,
        coord.z as i64 * (CHUNK_SIZE as i64) + z as i64,
    )
}

/// A grid of column heights, indexed by `x`, then by `z`.
pub type HeightGrid = [[u8; CHUNK_SIZE]; CHUNK_SIZE];

/// A generated chunk: its place on the chunk grid and its columns, indexed by
/// `x`, then by `z`, each column bottom to top.
#[derive(Debug, PartialEq, Eq)]
pub struct Chunk {
    pub coord: ChunkCoord,
    pub columns: Vec<Vec<Vec<Block>>>,
}

impl View for Chunk {
    type V = Seq<Seq<Seq<Block>>>;

    /// The columns of the chunk as mathematical sequences.
    open spec fn view(&self) -> Seq<Seq<Seq<Block>>> {
        Seq::new(
            self.columns@.len(),
            |x: int| Seq::new(self.columns@[x]@.len(), |z: int| self.columns@[x]@[z]@),
        )
    }
}

/// The columns that `heights` describes.
pub open spec fn chunk_columns(heights: HeightGrid) -> Seq<Seq<Seq<Block>>> {
    Seq::new(
        CHUNK_SIZE as nat,
        |x: int|
            Seq::new(
                CHUNK_SIZE as nat,
                |z: int| column_blocks(x as i32, z as i32, heights[x][z] as nat),
            ),
    )
}

/// All blocks of a grid of columns in scan order: by `x`, then by `z`, then
/// bottom to top.
pub open spec fn grid_blocks(grid: Seq<Seq<Seq<Block>>>) -> Seq<Block>
    decreases grid.len(),
{
    if grid.len() == 0 {
        Seq::empty()
    } else {
        grid_blocks(grid.drop_last()) + grid.last().flatten()
    }
}

/// Builds the chunk at `coord` whose column heights are `heights`.
pub fn generate_chunk(coord: ChunkCoord, heights: &HeightGrid) -> (chunk: Chunk)
    ensures
        chunk.coord == coord,
        chunk@ == chunk_columns(*heights),
{
    let mut columns: Vec<Vec<Vec<Block>>> = Vec::new();
    let mut x: usize = 0;
    while x < CHUNK_SIZE
        invariant
            x <= CHUNK_SIZE,
            columns@.len() == x,
            forall|i: int|
                0 <= i < x ==> (#[trigger] columns@[i])@.len() == CHUNK_SIZE,
            forall|i: int, k: int|
                0 <= i < x && 0 <= k < CHUNK_SIZE ==> (#[trigger] columns@[i]@[k])@
                    == column_blocks(i as i32, k as i32, heights[i][k] as nat),
        decreases CHUNK_SIZE - x,
    {
        let mut layer: Vec<Vec<Block>> = Vec::new();
        let mut z: usize = 0;
        while z < CHUNK_SIZE
            invariant
                x < CHUNK_SIZE,
                z <= CHUNK_SIZE,
                layer@.len() == z,
                forall|k: int|
                    0 <= k < z ==> (#[trigger] layer@[k])@ == column_blocks(
                        x as i32,
                        k as i32,
                        heights[x as int][k] as nat,
                    ),
            decreases CHUNK_SIZE - z,
        {
            layer.push(generate_column(x as i32, z as i32, heights[x][z]));
            z = z + 1;
        }
        columns.push(layer);
        x = x + 1;
    }
    let chunk = Chunk { coord, columns };
    assert(chunk@ =~~= chunk_columns(*heights));
    chunk
}

impl Chunk {
    /// All blocks of the chunk in scan order.
    pub fn blocks(&self) -> (blocks: Vec<Block>)
        ensures
            blocks@ == grid_blocks(self@),
    {
        let mut blocks: Vec<Block> = Vec::new();
        let mut x: usize = 0;
        while x < self.columns.len()
            invariant
                x <= self.columns.len(),
                blocks@ == grid_blocks(self@.take(x as int)),
            decreases self.columns.len() - x,
        {
            let layer = &self.columns[x];
            let ghost layer_blocks = blocks@;
            let mut z: usize = 0;
            while z < layer.len()
                invariant
                    x < self.columns.len(),
                    layer == &self.columns[x as int],
                    z <= layer.len(),
                    blocks@ == layer_blocks + self@[x as int].take(z as int).flatten(),
                decreases layer.len() - z,
            {
                let column = &layer[z];
                let ghost column_blocks = blocks@;
                let mut y: usize = 0;
                while y < column.len()
                    invariant
                        y <= column.len(),
                        blocks@ == column_blocks + column@.take(y as int),
                    decreases column.len() - y,
                {
                    blocks.push(column[y]);
                    y = y + 1;
                }
                proof {
                    let layer_view = self@[x as int];
                    assert(layer_view.take(z as int + 1) == layer_view.take(z as int).push(
                        layer_view[z as int],
                    ));
                    layer_view.take(z as int).lemma_flatten_push(layer_view[z as int]);
                }
                z = z + 1;
            }
            proof {
                let grid = self@;
                assert(grid[x as int].take(z as int) == grid[x as int]);
                assert(grid.take(x as int + 1).drop_last() == grid.take(x as int));
            }
            x = x + 1;
        }
        assert(self@.take(x as int) == self@);
        blocks
    }
}

/// Builds the mesh of the chunk at `coord` whose column heights are
/// `heights`. Fails when the chunk holds more blocks than one mesh can.
pub fn generate_chunk_geometry(coord: ChunkCoord, heights: &HeightGrid) -> (result: Result<
    Geometry,
    MeshError,
>)
    ensures
        ({
            let blocks = grid_blocks(chunk_columns(*heights));
            &&& blocks.len() > MAX_BLOCKS_PER_MESH ==> result == Err::<Geometry, MeshError>(
                MeshError::TooManyBlocks,
            )
            &&& blocks.len() <= MAX_BLOCKS_PER_MESH ==> result is Ok && is_mesh_of(
                result.unwrap(),
                blocks,
                coord,
            ) && indices_in_bounds(result.unwrap())
        }),
{
    let chunk = generate_chunk(coord, heights);
    let blocks = chunk.blocks();
    Geometry::build(blocks.as_slice(), coord)
}

/// A column is as high as asked. If it is not empty its top block is grass;
/// the two blocks below the top, as far as the column has them, are dirt;
/// every block below those is stone. Block `y` sits at `(x, y, z)`.
pub proof fn lemma_column_shape(x: i32, z: i32, height: nat)
    ensures
        ({
            let column = column_blocks(x, z, height);
            &&& column.len() == height
            &&& height > 0 ==> column[height - 1].block_type == BlockType::Grass
            &&& forall|y: int|
                0 <= y < height - 1 && y >= height - 3 ==> (#[trigger] column[y]).block_type
                    == BlockType::Dirt
            &&& forall|y: int|
                0 <= y < height - 3 ==> (#[trigger] column[y]).block_type == BlockType::Stone
            &&& forall|y: int|
                0 <= y < height ==> (#[trigger] column[y]).position == (Position {
                    x,
                    y: y as i32,
                    z,
                })
        }),
{
}

/// Chunks tile the world without gaps or overlap: along each axis a chunk
/// covers `CHUNK_SIZE` world coordinates, and the next chunk starts right
/// after its last one.
pub proof fn lemma_chunks_tile_the_world(chunk: int, local: int)
    ensures
        world_coordinate(chunk, local + CHUNK_SIZE) == world_coordinate(chunk + 1, local),
        world_coordinate(chunk, CHUNK_SIZE - 1) + 1 == world_coordinate(chunk + 1, 0),
{
}

/// Whether every height of the grid lies in the range that the terrain
/// formula yields for noise samples in `[-1, 1]`.
pub open spec fn heights_in_range(heights: HeightGrid) -> bool {
    forall|x: int, z: int|
        0 <= x < CHUNK_SIZE && 0 <= z < CHUNK_SIZE ==> MIN_HEIGHT <= (#[trigger] heights[x][z])
            <= MAX_HEIGHT
}

/// Whether every height of the grid lies in the terrain range.
pub fn in_terrain_range(heights: &HeightGrid) -> (all: bool)
    ensures
        all == heights_in_range(*heights),
{
    let mut x: usize = 0;
    while x < CHUNK_SIZE
        invariant
            x <= CHUNK_SIZE,
            forall|i: int, k: int|
                0 <= i < x && 0 <= k < CHUNK_SIZE ==> MIN_HEIGHT <= (#[trigger] heights[i][k])
                    <= MAX_HEIGHT,
        decreases CHUNK_SIZE - x,
    {
        let mut z: usize = 0;
        while z < CHUNK_SIZE
            invariant
                x < CHUNK_SIZE,
                z <= CHUNK_SIZE,
                forall|i: int, k: int|
                    0 <= i < x && 0 <= k < CHUNK_SIZE ==> MIN_HEIGHT <= (#[trigger] heights[i][k])
                        <= MAX_HEIGHT,
                forall|k: int|
                    0 <= k < z ==> MIN_HEIGHT <= (#[trigger] heights[x as int][k]) <= MAX_HEIGHT,
            decreases CHUNK_SIZE - z,
        {
            let height: u8 = heights[x][z];
            if height < MIN_HEIGHT || height > MAX_HEIGHT {
                return false;
            }
            z = z + 1;
        }
        x = x + 1;
    }
    true
}

/// Height that the terrain formula gives the noise sample
/// `numerator / denominator`: the sample plus one, times `HEIGHT_SCALE`, plus
/// `HEIGHT_BASE`, rounded down.
pub open spec fn formula_height(numerator: int, denominator: int) -> int {
    ((numerator + denominator) * HEIGHT_SCALE + HEIGHT_BASE * denominator) / denominator
}

/// The terrain formula gives every sample in `[-1, 1]` a height in the terrain
/// range, whose two ends are the heights of the samples `-1` and `1`.
pub proof fn lemma_formula_height_in_range(numerator: int, denominator: int)
    requires
        denominator > 0,
        -denominator <= numerator <= denominator,
    ensures
        MIN_HEIGHT <= formula_height(numerator, denominator) <= MAX_HEIGHT,
        formula_height(-denominator, denominator) == MIN_HEIGHT,
        formula_height(denominator, denominator) == MAX_HEIGHT,
{
    let scaled = (numerator + denominator) * HEIGHT_SCALE + HEIGHT_BASE * denominator;
    assert(3 <= scaled / denominator <= 7) by (nonlinear_arith)
        requires
            denominator > 0,
            3 * denominator <= scaled <= 7 * denominator,
    ;
    assert((3 * denominator) / denominator == 3 && (7 * denominator) / denominator == 7)
        by (nonlinear_arith)
        requires
            denominator > 0,
    ;
}

/// Columns of `low` to `high` blocks each flatten to `low` to `high` blocks
/// per column.
proof fn lemma_layer_len(layer: Seq<Seq<Block>>, low: nat, high: nat)
    requires
        forall|z: int| 0 <= z < layer.len() ==> low <= (#[trigger] layer[z]).len() <= high,
    ensures
        low * layer.len() <= layer.flatten().len() <= high * layer.len(),
    decreases layer.len(),
{
    if layer.len() > 0 {
        let rest = layer.drop_last();
        lemma_layer_len(rest, low, high);
        assert(layer == rest.push(layer.last()));
        rest.lemma_flatten_push(layer.last());
        assert(low * layer.len() == low * rest.len() + low) by (nonlinear_arith)
            requires
                layer.len() == rest.len() + 1,
        ;
        assert(high * layer.len() == high * rest.len() + high) by (nonlinear_arith)
            requires
                layer.len() == rest.len() + 1,
        ;
    }
}

/// Layers of `width` columns of `low` to `high` blocks each hold `low` to
/// `high` blocks per column.
proof fn lemma_grid_len(grid: Seq<Seq<Seq<Block>>>, width: nat, low: nat, high: nat)
    requires
        forall|x: int| 0 <= x < grid.len() ==> (#[trigger] grid[x]).len() == width,
        forall|x: int, z: int|
            0 <= x < grid.len() && 0 <= z < width ==> low <= (#[trigger] grid[x][z]).len() <= high,
    ensures
        low * (width * grid.len()) <= grid_blocks(grid).len() <= high * (width * grid.len()),
    decreases grid.len(),
{
    if grid.len() > 0 {
        let rest = grid.drop_last();
        lemma_grid_len(rest, width, low, high);
        lemma_layer_len(grid.last(), low, high);
        assert(low * (width * grid.len()) == low * (width * rest.len()) + low * width
            && high * (width * grid.len()) == high * (width * rest.len()) + high * width)
            by (nonlinear_arith)
            requires
                grid.len() == rest.len() + 1,
        ;
    } else {
        assert(low * (width * grid.len()) == 0 && high * (width * grid.len()) == 0)
            by (nonlinear_arith)
            requires
                grid.len() == 0,
        ;
    }
}

/// A chunk whose heights lie in the terrain range holds between 192 and
/// 448 blocks, so its mesh can always be built.
pub proof fn lemma_terrain_fits_one_mesh(heights: HeightGrid)
    requires
        heights_in_range(heights),
    ensures
        64 * MIN_HEIGHT <= grid_blocks(chunk_columns(heights)).len() <= 64 * MAX_HEIGHT,
        grid_blocks(chunk_columns(heights)).len() <= MAX_BLOCKS_PER_MESH,
{
    lemma_grid_len(chunk_columns(heights), 8, MIN_HEIGHT as nat, MAX_HEIGHT as nat);
}

} // verus!
