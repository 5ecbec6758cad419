//! Indexed triangle meshes of unit cubes.
//!
//! Every block becomes six faces of four vertices and two triangles each,
//! whatever its neighbours are: 24 vertices and 36 indices per block. Indices
//! are 16 bits wide, which bounds a single mesh to `MAX_BLOCKS_PER_MESH`
//! blocks.
//!
//! Vertices carry integers only. Positions are world-space grid points,
//! colour channels are `0` or `1`, and texture coordinates count halves of the
//! atlas, which is a 2 by 2 grid of quadrants.

use vstd::prelude::*;
use crate::world_gen::{world_coordinate, Block, BlockType, ChunkCoord, Position, CHUNK_SIZE};

verus! {

/// Faces of a block.
pub const FACES_PER_BLOCK: usize = 6;

/// Vertices of one face.
pub const VERTICES_PER_FACE: usize = 4;

/// Indices of one face: two triangles.
pub const INDICES_PER_FACE: usize = 6;

/// Vertices emitted for every block.
pub const VERTICES_PER_BLOCK: usize = 24;

/// Indices emitted for every block.
pub const INDICES_PER_BLOCK: usize = 36;

/// Most blocks whose vertices can all be addressed by a 16-bit index.
pub const MAX_BLOCKS_PER_MESH: usize = 2730;

/// Face on the plane `z = 1` of the block.
pub const FACE_FRONT: usize = 0;

/// Face on the plane `z = 0` of the block.
pub const FACE_BACK: usize = 1;

/// Face on the plane `x = 0` of the block.
pub const FACE_LEFT: usize = 2;

/// Face on the plane `x = 1` of the block.
pub const FACE_RIGHT: usize = 3;

/// Face on the plane `y = 0` of the block.
pub const FACE_BOTTOM: usize = 4;

/// Face on the plane `y = 1` of the block.
pub const FACE_TOP: usize = 5;

/// Corners of the six faces as offsets from the block's minimum corner, four
/// per face, in face order.
pub const CUBE_CORNERS: [[u8; 3]; 24] = [
    [0, 1, 1], [1, 0, 1], [0, 0, 1], [1, 1, 1],
    [0, 1, 0], [1, 0, 0], [0, 0, 0], [1, 1, 0],
    [0, 1, 0], [0, 0, 1], [0, 0, 0], [0, 1, 1],
    [1, 1, 0], [1, 0, 1], [1, 0, 0], [1, 1, 1],
    [0, 0, 1], [1, 0, 0], [0, 0, 0], [1, 0, 1],
    [0, 1, 1], [1, 1, 0], [0, 1, 0], [1, 1, 1],
];

/// Texture offsets of the four corners of a face, in halves of the atlas.
pub const CORNER_TEX_OFFSETS: [[u8; 2]; 4] = [[0, 0], [1, 1], [0, 1], [1, 0]];

/// Corner order of the two triangles of a face that is wound forward.
pub const FORWARD_WINDING: [u16; 6] = [0, 1, 2, 0, 3, 1];

/// Corner order of the two triangles of a face that is wound in reverse.
pub const MIRRORED_WINDING: [u16; 6] = [2, 1, 0, 1, 3, 0];

/// A point of the world grid.
#[derive(Debug, Clone, Copy, PartialEq, Eq, Structural)]
pub struct WorldPosition {
    pub x: i64,
    pub y: i64,
    pub z: i64,
}

/// A colour whose channels are fully off (`0`) or fully on (`1`).
#[derive(Debug, Clone, Copy, PartialEq, Eq, Structural)]
pub struct Color {
    pub r: u8,
    pub g: u8,
    pub b: u8,
}

/// A texture coordinate in halves of the atlas: `0`, `1` or `2` on each axis.
#[derive(Debug, Clone, Copy, PartialEq, Eq, Structural)]
pub struct TexCoord {
    pub u: u8,
    pub v: u8,
}

/// One vertex of a mesh.
#[derive(Debug, Clone, Copy, PartialEq, Eq, Structural)]
pub struct Vertex {
    pub position: WorldPosition,
    pub color: Color,
    pub tex_coord: TexCoord,
}

/// The four textures of the atlas.
#[derive(Debug, Clone, Copy, PartialEq, Eq, Structural)]
pub enum AtlasQuadrant {
    GrassSide,
    GrassTop,
    Stone,
    Dirt,
}

/// Why a mesh could not be built.
#[derive(Debug, Clone, Copy, PartialEq, Eq, Structural)]
pub enum MeshError {
    /// More blocks than 16-bit indices can address.
    TooManyBlocks,
}

/// A vertex buffer with the index buffer that draws it.
#[derive(Debug, PartialEq, Eq)]
pub struct Geometry {
    pub vertices: Vec<Vertex>,
    pub indices: Vec<u16>,
    pub index_count: u32,
}

/// Coordinate of corner `corner` of a face along the first of the two axes
/// that the face spans.
pub open spec fn corner_across(corner: int) -> int {
    if corner == 1 || corner == 3 {
        1
    } else {
        0
    }
}

/// Coordinate of corner `corner` of a face along the second of the two axes
/// that the face spans.
pub open spec fn corner_up(corner: int) -> int {
    if corner == 0 || corner == 3 {
        1
    } else {
        0
    }
}

/// Offset of corner `corner` of face `face` from the block's minimum corner.
///
/// Front and back span the axes `(x, y)`, left and right `(z, y)`, bottom and
/// top `(x, z)`; the remaining axis is pinned to the face's plane.
pub open spec fn corner_offset(face: int, corner: int) -> (int, int, int) {
    let a = corner_across(corner);
    let b = corner_up(corner);
    if face == FACE_FRONT {
        (a, b, 1)
    } else if face == FACE_BACK {
        (a, b, 0)
    } else if face == FACE_LEFT {
        (0, b, a)
    } else if face == FACE_RIGHT {
        (1, b, a)
    } else if face == FACE_BOTTOM {
        (a, 0, b)
    } else {
        (a, 1, b)
    }
}

/// World position of corner `corner` of face `face` of `block`, which lives
/// in chunk `chunk`.
pub open spec fn vertex_position(block: Block, chunk: ChunkCoord, face: int, corner: int)
    -> WorldPosition {
    let (dx, dy, dz) = corner_offset(face, corner);
    WorldPosition {
        x: (world_coordinate(chunk.x as int, block.position.x as int) + dx) as i64,
        y: (block.position.y + dy) as i64,
        z: (world_coordinate(chunk.z as int, block.position.z as int) + dz) as i64,
    }
}

/// Colour of corner `corner` of any face: red, green, blue, blue.
pub open spec fn corner_color(corner: int) -> Color {
    if corner == 0 {
        Color { r: 1, g: 0, b: 0 }
    } else if corner == 1 {
        Color { r: 0, g: 1, b: 0 }
    } else {
        Color { r: 0, g: 0, b: 1 }
    }
}

/// Atlas quadrant that textures face `face` of a block of type `block_type`.
///
/// Grass shows its side texture on the four side faces, dirt underneath and
/// its top texture above; dirt and stone look the same from every direction.
pub open spec fn atlas_quadrant(block_type: BlockType, face: int) -> AtlasQuadrant {
    match block_type {
        BlockType::Grass => if face == FACE_TOP {
            AtlasQuadrant::GrassTop
        } else if face == FACE_BOTTOM {
            AtlasQuadrant::Dirt
        } else {
            AtlasQuadrant::GrassSide
        },
        BlockType::Dirt => AtlasQuadrant::Dirt,
        BlockType::Stone => AtlasQuadrant::Stone,
    }
}

/// Column of `quadrant` in the atlas grid.
pub open spec fn quadrant_column(quadrant: AtlasQuadrant) -> int {
    match quadrant {
        AtlasQuadrant::GrassSide | AtlasQuadrant::Stone => 0,
        AtlasQuadrant::GrassTop | AtlasQuadrant::Dirt => 1,
    }
}

/// Row of `quadrant` in the atlas grid.
pub open spec fn quadrant_row(quadrant: AtlasQuadrant) -> int {
    match quadrant {
        AtlasQuadrant::GrassSide | AtlasQuadrant::GrassTop => 0,
        AtlasQuadrant::Stone | AtlasQuadrant::Dirt => 1,
    }
}

/// Texture coordinate of corner `corner` of a face textured by `quadrant`.
/// The texture's `v` axis runs against the second axis of the face.
pub open spec fn corner_tex_coord(quadrant: AtlasQuadrant, corner: int) -> TexCoord {
    TexCoord {
        u: (quadrant_column(quadrant) + corner_across(corner)) as u8,
        v: (quadrant_row(quadrant) + 1 - corner_up(corner)) as u8,
    }
}

/// Vertex `local` (`0..24`) of `block`: corner `local % 4` of face
/// `local / 4`.
pub open spec fn block_vertex(block: Block, chunk: ChunkCoord, local: int) -> Vertex {
    let face = local / 4;
    let corner = local % 4;
    Vertex {
        position: vertex_position(block, chunk, face, corner),
        color: corner_color(corner),
        tex_coord: corner_tex_coord(atlas_quadrant(block.block_type, face), corner),
    }
}

/// The vertex buffer of `blocks`: 24 vertices per block, in block order.
pub open spec fn mesh_vertices(blocks: Seq<Block>, chunk: ChunkCoord) -> Seq<Vertex> {
    Seq::new(24 * blocks.len(), |i: int| block_vertex(blocks[i / 24], chunk, i % 24))
}

/// Whether face `face` is wound forward (front, left, bottom) rather than in
/// reverse (back, right, top).
pub open spec fn wound_forward(face: int) -> bool {
    face % 2 == 0
}

/// Corner that position `k` (`0..6`) of the index pattern of face `face`
/// refers to.
pub open spec fn winding(face: int, k: int) -> int {
    if wound_forward(face) {
        FORWARD_WINDING@[k] as int
    } else {
        MIRRORED_WINDING@[k] as int
    }
}

/// Index `local` (`0..36`) of any block, relative to the block's first
/// vertex: position `local % 6` of the pattern of face `local / 6`, inside
/// that face's window of four vertices.
pub open spec fn block_index(local: int) -> int {
    let face = local / 6;
    4 * face + winding(face, local % 6)
}

/// The index buffer of `count` blocks: 36 indices per block, each block
/// offset by its 24 vertices.
pub open spec fn mesh_indices(count: nat) -> Seq<u16> {
    Seq::new(36 * count, |j: int| (24 * (j / 36) + block_index(j % 36)) as u16)
}

/// Whether `geometry` is exactly the mesh of `blocks` placed in `chunk`.
pub open spec fn is_mesh_of(geometry: Geometry, blocks: Seq<Block>, chunk: ChunkCoord) -> bool {
    &&& geometry.vertices@ == mesh_vertices(blocks, chunk)
    &&& geometry.indices@ == mesh_indices(blocks.len())
    &&& geometry.index_count == 36 * blocks.len()
}

/// The unit vector that points out of the block through face `face`.
pub open spec fn outward_normal(face: int) -> (int, int, int) {
    if face == FACE_FRONT {
        (0, 0, 1)
    } else if face == FACE_BACK {
        (0, 0, -1)
    } else if face == FACE_LEFT {
        (-1, 0, 0)
    } else if face == FACE_RIGHT {
        (1, 0, 0)
    } else if face == FACE_BOTTOM {
        (0, -1, 0)
    } else {
        (0, 1, 0)
    }
}

/// Offset of the corner that comes `k`-th (`0..3`) in triangle `triangle`
/// (`0..2`) of face `face`.
pub open spec fn triangle_corner(face: int, triangle: int, k: int) -> (int, int, int) {
    corner_offset(face, winding(face, 3 * triangle + k))
}

/// The cross product of the first two edges of triangle `triangle` of face
/// `face`: by the right-hand rule, the direction from which its corners are
/// seen to run counterclockwise.
pub open spec fn triangle_normal(face: int, triangle: int) -> (int, int, int) {
    let p = triangle_corner(face, triangle, 0);
    let q = triangle_corner(face, triangle, 1);
    let r = triangle_corner(face, triangle, 2);
    let (ax, ay, az) = (q.0 - p.0, q.1 - p.1, q.2 - p.2);
    let (bx, by, bz) = (r.0 - p.0, r.1 - p.1, r.2 - p.2);
    (ay * bz - az * by, az * bx - ax * bz, ax * by - ay * bx)
}

/// Whether every index of `geometry` addresses one of its vertices and the
/// index count is the length of the index buffer.
pub open spec fn indices_in_bounds(geometry: Geometry) -> bool {
    &&& geometry.index_count == geometry.indices@.len()
    &&& forall|j: int|
        0 <= j < geometry.indices@.len() ==> (#[trigger] geometry.indices@[j])
            < geometry.vertices@.len()
}

/// The bytes of `indices`, two per index, the low byte of each index first.
pub open spec fn little_endian_bytes(indices: Seq<u16>) -> Seq<u8> {
    Seq::new(
        2 * indices.len(),
        |i: int|
            if i % 2 == 0 {
                (indices[i / 2] % 256) as u8
            } else {
                (indices[i / 2] / 256) as u8
            },
    )
}

/// The bytes of `indices`, two per index, the high byte of each index first.
pub open spec fn big_endian_bytes(indices: Seq<u16>) -> Seq<u8> {
    Seq::new(
        2 * indices.len(),
        |i: int|
            if i % 2 == 0 {
                (indices[i / 2] / 256) as u8
            } else {
                (indices[i / 2] % 256) as u8
            },
    )
}

/// Calls `bytemuck::cast_slice` to view 16-bit indices as bytes. The cast
/// reinterprets the memory of the slice without copying or checking values;
/// from `u16` to `u8` it cannot fail, since bytes need no alignment and every
/// length in bytes is a whole number of them. Trusted: the result holds the
/// two bytes of every index, in the byte order of the machine.
#[verifier::external_body]
fn cast_indices(indices: &[u16]) -> (bytes: &[u8])
    ensures
        bytes@ == little_endian_bytes(indices@) || bytes@ == big_endian_bytes(indices@),
{
    bytemuck::cast_slice(indices)
}

/// Atlas quadrant that textures face `face` of a block of type `block_type`.
pub fn face_quadrant(block_type: BlockType, face: usize) -> (quadrant: AtlasQuadrant)
    ensures
        quadrant == atlas_quadrant(block_type, face as int),
{
    match block_type {
        BlockType::Grass => {
            if face == FACE_TOP {
                AtlasQuadrant::GrassTop
            } else if face == FACE_BOTTOM {
                AtlasQuadrant::Dirt
            } else {
                AtlasQuadrant::GrassSide
            }
        },
        BlockType::Dirt => AtlasQuadrant::Dirt,
        BlockType::Stone => AtlasQuadrant::Stone,
    }
}

/// Texture coordinate of corner `corner` of a face textured by `quadrant`.
fn quadrant_tex_coord(quadrant: AtlasQuadrant, corner: usize) -> (tex_coord: TexCoord)
    requires
        corner < VERTICES_PER_FACE,
    ensures
        tex_coord == corner_tex_coord(quadrant, corner as int),
{
    let (column, row): (u8, u8) = match quadrant {
        AtlasQuadrant::GrassSide => (0, 0),
        AtlasQuadrant::GrassTop => (1, 0),
        AtlasQuadrant::Stone => (0, 1),
        AtlasQuadrant::Dirt => (1, 1),
    };
    let offset = CORNER_TEX_OFFSETS[corner];
    TexCoord { u: column + offset[0], v: row + offset[1] }
}

/// Vertex at corner `corner` of face `face` of `block`, which lives in chunk
/// `chunk`.
fn cube_vertex(block: &Block, chunk: ChunkCoord, face: usize, corner: usize) -> (vertex: Vertex)
    requires
        face < FACES_PER_BLOCK,
        corner < VERTICES_PER_FACE,
    ensures
        vertex == block_vertex(*block, chunk, 4 * face + corner),
{
    let offset = CUBE_CORNERS[4 * face + corner];
    let position = WorldPosition {
        x: chunk.x as i64 * (CHUNK_SIZE as i64) + block.position.x as i64 + offset[0] as i64,
        y: block.position.y as i64 + offset[1] as i64,
        z: chunk.z as i64 * (CHUNK_SIZE as i64) + block.position.z as i64 + offset[2] as i64,
    };
    let color = if corner == 0 {
        Color { r: 1, g: 0, b: 0 }
    } else if corner == 1 {
        Color { r: 0, g: 1, b: 0 }
    } else {
        Color { r: 0, g: 0, b: 1 }
    };
    Vertex::new(position, color, quadrant_tex_coord(face_quadrant(block.block_type, face), corner))
}

/// Appends the 24 vertices and 36 indices of `block` to the two buffers.
fn push_block(
    vertices: &mut Vec<Vertex>,
    indices: &mut Vec<u16>,
    block: &Block,
    chunk: ChunkCoord,
    base: u16,
)
    requires
        base + VERTICES_PER_BLOCK <= 0x1_0000,
    ensures
        final(vertices)@ == old(vertices)@ + Seq::new(24, |i: int| block_vertex(*block, chunk, i)),
        final(indices)@ == old(indices)@ + Seq::new(36, |j: int| (base + block_index(j)) as u16),
{
    let ghost vertices_before = vertices@;
    let ghost indices_before = indices@;
    let mut face: usize = 0;
    while face < FACES_PER_BLOCK
        invariant
            face <= FACES_PER_BLOCK,
            base + VERTICES_PER_BLOCK <= 0x1_0000,
            vertices@ == vertices_before + Seq::new(
                4 * face as nat,
                |i: int| block_vertex(*block, chunk, i),
            ),
            indices@ == indices_before + Seq::new(
                6 * face as nat,
                |j: int| (base + block_index(j)) as u16,
            ),
        decreases FACES_PER_BLOCK - face,
    {
        let mut corner: usize = 0;
        while corner < VERTICES_PER_FACE
            invariant
                face < FACES_PER_BLOCK,
                corner <= VERTICES_PER_FACE,
                vertices@ == vertices_before + Seq::new(
                    (4 * face + corner) as nat,
                    |i: int| block_vertex(*block, chunk, i),
                ),
            decreases VERTICES_PER_FACE - corner,
        {
            vertices.push(cube_vertex(block, chunk, face, corner));
            corner = corner + 1;
        }
        let window: u16 = base + 4 * (face as u16);
        let mut k: usize = 0;
        while k < INDICES_PER_FACE
            invariant
                face < FACES_PER_BLOCK,
                k <= INDICES_PER_FACE,
                window == base + 4 * face,
                base + VERTICES_PER_BLOCK <= 0x1_0000,
                indices@ == indices_before + Seq::new(
                    (6 * face + k) as nat,
                    |j: int| (base + block_index(j)) as u16,
                ),
            decreases INDICES_PER_FACE - k,
        {
            let corner_index: u16 = if face % 2 == 0 {
                FORWARD_WINDING[k]
            } else {
                MIRRORED_WINDING[k]
            };
            indices.push(window + corner_index);
            k = k + 1;
        }
        face = face + 1;
    }
}

impl Vertex {
    /// Puts a vertex together from its three attributes.
    pub fn new(position: WorldPosition, color: Color, tex_coord: TexCoord) -> (vertex: Vertex)
        ensures
            vertex == (Vertex { position, color, tex_coord }),
    {
        Vertex { position, color, tex_coord }
    }
}

impl Geometry {
    /// Pairs a vertex buffer with the index buffer that draws it. The index
    /// count is the length of the index buffer, reduced to 32 bits.
    pub fn new(vertices: Vec<Vertex>, indices: Vec<u16>) -> (geometry: Geometry)
        ensures
            geometry.vertices == vertices,
            geometry.indices == indices,
            geometry.index_count == indices.len() as u32,
    {
        let index_count: u32 = #[verifier::truncate] (indices.len() as u32);
        Geometry { vertices, indices, index_count }
    }

    /// The index buffer as the bytes a GPU buffer is filled with: two bytes
    /// per index in the byte order of the machine.
    pub fn index_bytes(&self) -> (bytes: &[u8])
        ensures
            bytes@ == little_endian_bytes(self.indices@) || bytes@ == big_endian_bytes(
                self.indices@,
            ),
    {
        cast_indices(self.indices.as_slice())
    }

    /// The mesh of a single block of type `block_type` at `position` in the
    /// chunk at the origin.
    pub fn cube(position: Position, block_type: BlockType) -> (geometry: Geometry)
        ensures
            is_mesh_of(
                geometry,
                seq![Block { position, block_type }],
                ChunkCoord { x: 0, z: 0 },
            ),
            geometry.vertices@.len() == VERTICES_PER_BLOCK,
            geometry.indices@.len() == INDICES_PER_BLOCK,
            indices_in_bounds(geometry),
    {
        let block = Block { position, block_type };
        let mut vertices: Vec<Vertex> = Vec::new();
        let mut indices: Vec<u16> = Vec::new();
        push_block(&mut vertices, &mut indices, &block, ChunkCoord { x: 0, z: 0 }, 0);
        assert(vertices@ =~= mesh_vertices(seq![block], ChunkCoord { x: 0, z: 0 }));
        assert(indices@ =~= mesh_indices(1));
        let geometry = Geometry::new(vertices, indices);
        proof {
            lemma_mesh_indices_in_bounds(geometry, seq![block], ChunkCoord { x: 0, z: 0 });
        }
        geometry
    }

    /// The mesh of `blocks`, which live in chunk `chunk`: 24 vertices and 36
    /// indices per block, in block order. Fails, building nothing, when the
    /// vertices of `blocks` outnumber what an index can address.
    pub fn build(blocks: &[Block], chunk: ChunkCoord) -> (result: Result<Geometry, MeshError>)
        ensures
            blocks.len() > MAX_BLOCKS_PER_MESH ==> result == Err::<Geometry, MeshError>(
                MeshError::TooManyBlocks,
            ),
            blocks.len() <= MAX_BLOCKS_PER_MESH ==> result is Ok && is_mesh_of(
                result.unwrap(),
                blocks@,
                chunk,
            ) && indices_in_bounds(result.unwrap()),
    {
        if blocks.len() > MAX_BLOCKS_PER_MESH {
            return Err(MeshError::TooManyBlocks);
        }
        let mut vertices: Vec<Vertex> = Vec::new();
        let mut indices: Vec<u16> = Vec::new();
        let mut n: usize = 0;
        while n < blocks.len()
            invariant
                n <= blocks.len() <= MAX_BLOCKS_PER_MESH,
                vertices@ == mesh_vertices(blocks@.take(n as int), chunk),
                indices@ == mesh_indices(n as nat),
            decreases blocks.len() - n,
        {
            let base: u16 = (VERTICES_PER_BLOCK * n) as u16;
            push_block(&mut vertices, &mut indices, &blocks[n], chunk, base);
            n = n + 1;
        }
        assert(blocks@.take(n as int) == blocks@);
        let geometry = Geometry::new(vertices, indices);
        proof {
            lemma_mesh_indices_in_bounds(geometry, blocks@, chunk);
        }
        Ok(geometry)
    }
}

/// A mesh holds 24 vertices and 36 indices for every block.
pub proof fn lemma_mesh_sizes(blocks: Seq<Block>, chunk: ChunkCoord)
    ensures
        mesh_vertices(blocks, chunk).len() == 24 * blocks.len(),
        mesh_indices(blocks.len()).len() == 36 * blocks.len(),
{
}

/// Index `j` of a mesh of `count` blocks addresses one of the four vertices
/// of the face it belongs to, face `(j % 36) / 6` of block `j / 36`; so no
/// index reaches past the `24 * count` vertices of the mesh.
pub proof fn lemma_index_stays_in_face(count: nat, j: int)
    requires
        count <= MAX_BLOCKS_PER_MESH,
        0 <= j < 36 * count,
    ensures
        ({
            let index = mesh_indices(count)[j] as int;
            let window = 24 * (j / 36) + 4 * ((j % 36) / 6);
            &&& window <= index < window + 4
            &&& index < 24 * count
        }),
{
    let k = (j % 36) % 6;
    assert(0 <= winding((j % 36) / 6, k) < 4) by {
        assert(k == 0 || k == 1 || k == 2 || k == 3 || k == 4 || k == 5);
    }
}

/// The mesh of at most `MAX_BLOCKS_PER_MESH` blocks keeps every index inside
/// its vertex buffer.
pub proof fn lemma_mesh_indices_in_bounds(geometry: Geometry, blocks: Seq<Block>, chunk: ChunkCoord)
    requires
        blocks.len() <= MAX_BLOCKS_PER_MESH,
        is_mesh_of(geometry, blocks, chunk),
    ensures
        indices_in_bounds(geometry),
{
    assert forall|j: int| 0 <= j < geometry.indices@.len() implies (#[trigger] geometry.indices@[j])
        < geometry.vertices@.len() by {
        lemma_index_stays_in_face(blocks.len(), j);
    }
}

/// The two triangles of a face wound in reverse are those of a face wound
/// forward, each with its corners in the opposite order.
pub proof fn lemma_mirrored_reverses_triangles(k: int)
    requires
        0 <= k < 6,
    ensures
        MIRRORED_WINDING@[k] == FORWARD_WINDING@[3 * (k / 3) + 2 - k % 3],
{
}

/// Seen from outside the block, the corners of every triangle run clockwise:
/// the right-hand normal of each triangle is the unit vector that points into
/// the block through its face. Winding alternate faces in reverse is what
/// keeps all twelve triangles facing the same way.
pub proof fn lemma_triangles_run_clockwise(face: int, triangle: int)
    requires
        0 <= face < 6,
        0 <= triangle < 2,
    ensures
        ({
            let (nx, ny, nz) = triangle_normal(face, triangle);
            let (ox, oy, oz) = outward_normal(face);
            nx == -ox && ny == -oy && nz == -oz
        }),
{
    let p = triangle_corner(face, triangle, 0);
    let q = triangle_corner(face, triangle, 1);
    let r = triangle_corner(face, triangle, 2);
    let (ax, ay, az) = (q.0 - p.0, q.1 - p.1, q.2 - p.2);
    let (bx, by, bz) = (r.0 - p.0, r.1 - p.1, r.2 - p.2);
    lemma_product_of_signs(ay, bz);
    lemma_product_of_signs(az, by);
    lemma_product_of_signs(az, bx);
    lemma_product_of_signs(ax, bz);
    lemma_product_of_signs(ax, by);
    lemma_product_of_signs(ay, bx);
}

/// The product of two numbers that are each `-1`, `0` or `1`.
proof fn lemma_product_of_signs(a: int, b: int)
    by (nonlinear_arith)
    requires
        -1 <= a <= 1,
        -1 <= b <= 1,
    ensures
        a * b == if a == 0 || b == 0 {
            0int
        } else if a == b {
            1int
        } else {
            -1int
        },
{
}

/// The block limit is the index space: the vertices of `MAX_BLOCKS_PER_MESH`
/// blocks can all be addressed with 16 bits, those of one block more cannot.
pub proof fn lemma_block_limit_fills_index_space()
    ensures
        VERTICES_PER_BLOCK * MAX_BLOCKS_PER_MESH <= 0x1_0000,
        VERTICES_PER_BLOCK * (MAX_BLOCKS_PER_MESH + 1) > 0x1_0000,
        VERTICES_PER_BLOCK == FACES_PER_BLOCK * VERTICES_PER_FACE,
        INDICES_PER_BLOCK == FACES_PER_BLOCK * INDICES_PER_FACE,
{
}

/// Every corner of a face lies on the plane of that face: one of its three
/// offsets is the same for all four corners, and each offset is `0` or `1`.
pub proof fn lemma_corners_lie_on_face(face: int, corner: int)
    requires
        0 <= face < 6,
        0 <= corner < 4,
    ensures
        ({
            let (dx, dy, dz) = corner_offset(face, corner);
            &&& 0 <= dx <= 1 && 0 <= dy <= 1 && 0 <= dz <= 1
            &&& face == FACE_FRONT ==> dz == 1
            &&& face == FACE_BACK ==> dz == 0
            &&& face == FACE_LEFT ==> dx == 0
            &&& face == FACE_RIGHT ==> dx == 1
            &&& face == FACE_BOTTOM ==> dy == 0
            &&& face == FACE_TOP ==> dy == 1
        }),
{
}

} // verus!
