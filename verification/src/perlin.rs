//! The integer lattice under gradient noise.
//!
//! Gradient noise splits space into unit cells. Each corner of a cell is
//! hashed through a fixed permutation of the bytes, and the hash picks one of
//! a few gradient directions for that corner. This module holds that integer
//! part; blending the corner gradients with a fade curve is floating-point
//! work and is left to the caller.

use vstd::prelude::*;

verus! {

/// The permutation of `0..=255` that lattice corners are hashed through.
pub const PERMUTATION: [u8; 256] = [
    151, 160, 137, 91, 90, 15, 131, 13, 201, 95, 96, 53, 194, 233, 7, 225,
    140, 36, 103, 30, 69, 142, 8, 99, 37, 240, 21, 10, 23, 190, 6, 148,
    247, 120, 234, 75, 0, 26, 197, 62, 94, 252, 219, 203, 117, 35, 11, 32,
    57, 177, 33, 88, 237, 149, 56, 87, 174, 20, 125, 136, 171, 168, 68, 175,
    74, 165, 71, 134, 139, 48, 27, 166, 77, 146, 158, 231, 83, 111, 229, 122,
    60, 211, 133, 230, 220, 105, 92, 41, 55, 46, 245, 40, 244, 102, 143, 54,
    65, 25, 63, 161, 1, 216, 80, 73, 209, 76, 132, 187, 208, 89, 18, 169,
    200, 196, 135, 130, 116, 188, 159, 86, 164, 100, 109, 198, 173, 186, 3, 64,
    52, 217, 226, 250, 124, 123, 5, 202, 38, 147, 118, 126, 255, 82, 85, 212,
    207, 206, 59, 227, 47, 16, 58, 17, 182, 189, 28, 42, 223, 183, 170, 213,
    119, 248, 152, 2, 44, 154, 163, 70, 221, 153, 101, 155, 167, 43, 172, 9,
    129, 22, 39, 253, 19, 98, 108, 110, 79, 113, 224, 232, 178, 185, 112, 104,
    218, 246, 97, 228, 251, 34, 242, 193, 238, 210, 144, 12, 191, 179, 162, 241,
    81, 51, 145, 235, 249, 14, 239, 107, 49, 192, 214, 31, 181, 199, 106, 157,
    184, 84, 204, 176, 115, 121, 50, 45, 127, 4, 150, 254, 138, 236, 205, 93,
    222, 114, 67, 29, 24, 72, 243, 141, 128, 195, 78, 66, 215, 61, 156, 180,
];

/// Where every byte sits in the permutation.
pub const INVERSE_PERMUTATION: [u8; 256] = [
    36, 100, 163, 126, 233, 134, 30, 14, 22, 175, 27, 46, 203, 7, 213, 5,
    149, 151, 110, 180, 57, 26, 177, 28, 244, 97, 37, 70, 154, 243, 19, 219,
    47, 50, 197, 45, 17, 24, 136, 178, 91, 87, 155, 173, 164, 231, 89, 148,
    69, 216, 230, 209, 128, 11, 95, 88, 54, 48, 150, 146, 80, 253, 39, 98,
    127, 96, 251, 242, 62, 20, 167, 66, 245, 103, 64, 35, 105, 72, 250, 184,
    102, 208, 141, 76, 225, 142, 119, 55, 51, 109, 4, 3, 86, 239, 40, 9,
    10, 194, 181, 23, 121, 170, 93, 18, 191, 85, 222, 215, 182, 122, 183, 77,
    190, 185, 241, 228, 116, 44, 138, 160, 33, 229, 79, 133, 132, 58, 139, 232,
    248, 176, 115, 6, 106, 82, 67, 114, 59, 2, 236, 68, 16, 247, 21, 94,
    202, 210, 73, 137, 31, 53, 234, 0, 162, 169, 165, 171, 254, 223, 74, 118,
    1, 99, 206, 166, 120, 65, 71, 172, 61, 111, 158, 60, 174, 124, 56, 63,
    227, 49, 188, 205, 255, 220, 152, 157, 224, 189, 125, 107, 117, 153, 29, 204,
    217, 199, 12, 249, 113, 38, 123, 221, 112, 8, 135, 43, 226, 238, 145, 144,
    108, 104, 201, 81, 143, 159, 218, 252, 101, 129, 192, 42, 84, 168, 240, 156,
    186, 15, 130, 147, 195, 78, 83, 75, 187, 13, 34, 211, 237, 52, 200, 214,
    25, 207, 198, 246, 92, 90, 193, 32, 161, 212, 131, 196, 41, 179, 235, 140,
];

/// The gradient directions, indexed by the low four bits of a hash: the
/// twelve directions from the centre of a cube to the middles of its edges,
/// four of them listed twice.
pub const GRADIENTS: [[i8; 3]; 16] = [
    [1, 1, 0],
    [-1, 1, 0],
    [1, -1, 0],
    [-1, -1, 0],
    [1, 0, 1],
    [-1, 0, 1],
    [1, 0, -1],
    [-1, 0, -1],
    [0, 1, 1],
    [0, -1, 1],
    [0, 1, -1],
    [0, -1, -1],
    [1, 1, 0],
    [0, -1, 1],
    [-1, 1, 0],
    [0, -1, -1],
];

/// A gradient direction; the noise contribution of a corner is the dot
/// product of its gradient with the offset from that corner.
#[derive(Debug, Clone, Copy, PartialEq, Eq, Structural)]
pub struct Gradient {
    pub x: i8,
    pub y: i8,
    pub z: i8,
}

/// The permutation, extended to all integers with period 256. Opaque, so
/// that the table is unfolded only where a proof reveals it.
#[verifier::opaque]
pub open spec fn permute(i: int) -> u8 {
    PERMUTATION@[i % 256]
}

/// Hash of the lattice point `(x, y, z)`: the permutation applied along the
/// three axes in turn.
pub open spec fn lattice_hash(x: int, y: int, z: int) -> u8 {
    permute(permute(permute(x) + y) + z)
}

/// The gradient direction that `hash` selects.
pub open spec fn gradient_of(hash: u8) -> Gradient {
    let entry = GRADIENTS@[hash as int % 16];
    Gradient { x: entry@[0], y: entry@[1], z: entry@[2] }
}

/// Position of lattice coordinate `cell` in the permutation: `cell` modulo
/// 256.
pub fn lattice_index(cell: i32) -> (index: u8)
    ensures
        index == cell % 256,
{
    let masked: i32 = cell & 255;
    assert(0 <= masked < 256 && masked == cell % 256) by (bit_vector)
        requires
            masked == cell & 255,
    ;
    masked as u8
}

/// Entry `hash + step`, wrapped to a byte, of the permutation.
pub fn permute_sum(hash: u8, step: u8) -> (next: u8)
    ensures
        next == permute(hash + step),
{
    let at: u8 = hash.wrapping_add(step);
    assert(at == (hash + step) % 256);
    proof {
        reveal(permute);
    }
    PERMUTATION[at as usize]
}

/// Hash of the lattice point whose coordinates sit at `x`, `y` and `z` in
/// the permutation.
pub fn corner_hash(x: u8, y: u8, z: u8) -> (hash: u8)
    ensures
        hash == lattice_hash(x as int, y as int, z as int),
{
    permute_sum(permute_sum(permute_sum(0, x), y), z)
}

/// Hashes of the eight corners of the lattice cell whose minimum corner is
/// `(x, y, z)`. Corner `(dx, dy, dz)`, each offset `0` or `1`, is at index
/// `dx + 2 * dy + 4 * dz`.
pub fn cell_hashes(x: i32, y: i32, z: i32) -> (hashes: [u8; 8])
    ensures
        forall|k: int|
            0 <= k < 8 ==> #[trigger] hashes@[k] == lattice_hash(
                x + k % 2,
                y + (k / 2) % 2,
                z + k / 4,
            ),
{
    let x0: u8 = lattice_index(x);
    let y0: u8 = lattice_index(y);
    let z0: u8 = lattice_index(z);
    let x1: u8 = x0.wrapping_add(1);
    let y1: u8 = y0.wrapping_add(1);
    let z1: u8 = z0.wrapping_add(1);
    proof {
        lemma_hash_depends_on_residues(x as int, y as int, z as int, x0 as int, y0 as int, z0 as int);
        lemma_hash_depends_on_residues(x + 1, y as int, z as int, x1 as int, y0 as int, z0 as int);
        lemma_hash_depends_on_residues(x as int, y + 1, z as int, x0 as int, y1 as int, z0 as int);
        lemma_hash_depends_on_residues(x + 1, y + 1, z as int, x1 as int, y1 as int, z0 as int);
        lemma_hash_depends_on_residues(x as int, y as int, z + 1, x0 as int, y0 as int, z1 as int);
        lemma_hash_depends_on_residues(x + 1, y as int, z + 1, x1 as int, y0 as int, z1 as int);
        lemma_hash_depends_on_residues(x as int, y + 1, z + 1, x0 as int, y1 as int, z1 as int);
        lemma_hash_depends_on_residues(x + 1, y + 1, z + 1, x1 as int, y1 as int, z1 as int);
    }
    [
        corner_hash(x0, y0, z0),
        corner_hash(x1, y0, z0),
        corner_hash(x0, y1, z0),
        corner_hash(x1, y1, z0),
        corner_hash(x0, y0, z1),
        corner_hash(x1, y0, z1),
        corner_hash(x0, y1, z1),
        corner_hash(x1, y1, z1),
    ]
}

/// The gradient direction that `hash` selects: only its low four bits count.
pub fn gradient(hash: u8) -> (direction: Gradient)
    ensures
        direction == gradient_of(hash),
{
    let low: u8 = hash & 15;
    assert(low == hash % 16) by (bit_vector)
        requires
            low == hash & 15,
    ;
    let entry = GRADIENTS[low as usize];
    Gradient { x: entry[0], y: entry[1], z: entry[2] }
}

/// Every entry of the permutation is found again through the inverse table,
/// and every byte is found in the permutation where the inverse table says.
proof fn lemma_inverse_undoes_permutation(i: int)
    requires
        0 <= i < 256,
    ensures
        INVERSE_PERMUTATION@[PERMUTATION@[i] as int] == i,
        PERMUTATION@[INVERSE_PERMUTATION@[i] as int] == i,
{
}

/// The permutation table is a permutation of the bytes: no byte occurs in it
/// twice.
pub proof fn lemma_permutation_is_injective(i: int, j: int)
    requires
        0 <= i < 256,
        0 <= j < 256,
        PERMUTATION@[i] == PERMUTATION@[j],
    ensures
        i == j,
{
    lemma_inverse_undoes_permutation(i);
    lemma_inverse_undoes_permutation(j);
}

/// The permutation table is a permutation of the bytes: every byte occurs in
/// it, at the place that the inverse table names.
pub proof fn lemma_permutation_is_surjective(byte: u8)
    ensures
        PERMUTATION@[INVERSE_PERMUTATION@[byte as int] as int] == byte,
{
    lemma_inverse_undoes_permutation(byte as int);
}

/// The permutation is read at the residue of its argument.
proof fn lemma_permute_residue(i: int, j: int)
    requires
        i % 256 == j % 256,
    ensures
        permute(i) == permute(j),
{
    reveal(permute);
}

/// The hash of a lattice point depends only on the residues of its
/// coordinates modulo 256.
pub proof fn lemma_hash_depends_on_residues(x: int, y: int, z: int, u: int, v: int, w: int)
    requires
        x % 256 == u % 256,
        y % 256 == v % 256,
        z % 256 == w % 256,
    ensures
        lattice_hash(x, y, z) == lattice_hash(u, v, w),
{
    lemma_permute_residue(x, u);
    lemma_permute_residue(permute(x) + y, permute(u) + v);
    lemma_permute_residue(permute(permute(x) + y) + z, permute(permute(u) + v) + w);
}

/// The lattice repeats with period 256 along every axis.
pub proof fn lemma_lattice_period(x: int, y: int, z: int)
    ensures
        lattice_hash(x + 256, y, z) == lattice_hash(x, y, z),
        lattice_hash(x, y + 256, z) == lattice_hash(x, y, z),
        lattice_hash(x, y, z + 256) == lattice_hash(x, y, z),
{
    lemma_hash_depends_on_residues(x + 256, y, z, x, y, z);
    lemma_hash_depends_on_residues(x, y + 256, z, x, y, z);
    lemma_hash_depends_on_residues(x, y, z + 256, x, y, z);
}

/// Whether `component` is `1` or `-1`.
pub open spec fn is_unit(component: i8) -> bool {
    component == 1 || component == -1
}

/// Every gradient points from the centre of a cube to the middle of one of
/// its edges: one component is zero and the other two are `1` or `-1`.
pub proof fn lemma_gradient_is_edge_direction(hash: u8)
    ensures
        ({
            let g = gradient_of(hash);
            ||| g.x == 0 && is_unit(g.y) && is_unit(g.z)
            ||| g.y == 0 && is_unit(g.x) && is_unit(g.z)
            ||| g.z == 0 && is_unit(g.x) && is_unit(g.y)
        }),
{
    let k = hash as int % 16;
    assert(k == 0 || k == 1 || k == 2 || k == 3 || k == 4 || k == 5 || k == 6 || k == 7 || k == 8
        || k == 9 || k == 10 || k == 11 || k == 12 || k == 13 || k == 14 || k == 15);
}

} // verus!
