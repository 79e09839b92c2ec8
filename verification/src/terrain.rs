//! Integer parts of the landscape: the lattice hash behind the value noise
//! that mottles the hills and the moon, and the triangle index buffer of the
//! mountain silhouette meshes.
use vstd::prelude::*;
use vstd::wrapping::{i32_specs, u32_specs};

verus! {

/// The 16-bit lattice hash of integer point (`ix`, `iy`): both coordinates
/// scrambled by wrapping multiplication, mixed with xor-shifts, and the low
/// sixteen bits kept.
pub open spec fn lattice_hash(ix: i32, iy: i32) -> u32 {
    let h0 = (i32_specs::wrapping_mul(ix, 374_761_393i32) ^ i32_specs::wrapping_mul(
        iy,
        668_265_263i32,
    )) as u32;
    let h1 = h0 ^ (h0 >> 13u32);
    let h2 = u32_specs::wrapping_mul(h1, 1_274_126_177u32);
    (h2 ^ (h2 >> 16u32)) & 0xffffu32
}

/// The lattice hash; dividing it by 65535 gives the noise value in [0, 1].
pub fn hash2_bits(ix: i32, iy: i32) -> (h: u32)
    ensures
        h == lattice_hash(ix, iy),
        h <= 0xffff,
{
    let mut h = (ix.wrapping_mul(374_761_393) ^ iy.wrapping_mul(668_265_263)) as u32;
    h ^= h >> 13;
    h = h.wrapping_mul(1_274_126_177);
    let r = (h ^ (h >> 16)) & 0xffff;
    assert(r <= 0xffff) by (bit_vector)
        requires
            r == (h ^ (h >> 16u32)) & 0xffffu32,
    ;
    r
}

/// Columns across each mountain silhouette mesh.
pub const RIDGE_COLUMNS: u32 = 560;

/// Vertex offsets, within a pair of neighboring columns, of the four
/// triangles that join them. Each column has three vertices (ridge top,
/// mid-face, screen bottom); the left column's come first.
pub open spec fn ridge_offset(k: int) -> nat {
    if k == 0 {
        0
    } else if k == 1 {
        1
    } else if k == 2 {
        3
    } else if k == 3 {
        3
    } else if k == 4 {
        1
    } else if k == 5 {
        4
    } else if k == 6 {
        1
    } else if k == 7 {
        2
    } else if k == 8 {
        4
    } else if k == 9 {
        4
    } else if k == 10 {
        2
    } else {
        5
    }
}

/// The `j`-th entry of the index buffer: twelve entries per column pair.
pub open spec fn ridge_index(j: int) -> int {
    3 * (j / 12) + ridge_offset(j % 12)
}

/// Triangle list joining `columns` columns of three vertices each, as in
/// the mountain silhouette meshes.
pub fn ridge_indices(columns: u32) -> (v: Vec<u32>)
    requires
        1 <= columns,
        columns * 3 <= u32::MAX,
    ensures
        v@.len() == 12 * (columns - 1),
        forall|j: int| 0 <= j < v@.len() ==> #[trigger] v@[j] == ridge_index(j),
{
    let mut v: Vec<u32> = Vec::new();
    let mut i: u32 = 1;
    while i < columns
        invariant
            1 <= i <= columns,
            columns * 3 <= u32::MAX,
            v@.len() == 12 * (i - 1),
            forall|j: int| 0 <= j < v@.len() ==> #[trigger] v@[j] == ridge_index(j),
        decreases columns - i,
    {
        let a = (i - 1) * 3;
        let b = i * 3;
        let ghost start = v@.len() as int;
        v.push(a);
        v.push(a + 1);
        v.push(b);
        v.push(b);
        v.push(a + 1);
        v.push(b + 1);
        v.push(a + 1);
        v.push(a + 2);
        v.push(b + 1);
        v.push(b + 1);
        v.push(a + 2);
        v.push(b + 2);
        assert forall|j: int| 0 <= j < v@.len() implies #[trigger] v@[j] == ridge_index(j) by {
            if j >= start {
                assert(j / 12 == i - 1);
                assert(j % 12 == j - start);
            }
        }
        i = i + 1;
    }
    v
}

/// Every index of the silhouette mesh names one of its `3 * columns` vertices.
pub proof fn law_ridge_indices_in_range(columns: nat, j: int)
    requires
        1 <= columns,
        0 <= j < 12 * (columns - 1),
    ensures
        0 <= ridge_index(j) < 3 * columns,
{
    assert(j / 12 <= columns - 2);
}

} // verus!
