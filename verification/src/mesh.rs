//! The index lists of the two meshes that the viewer can draw.
//!
//! A mesh is a list of vertices and a list of indices into it, three for each
//! triangle. The vertices hold positions and colours; they are made by the
//! caller. This module makes the index lists and shows that they name only
//! vertices that exist.

use vstd::prelude::*;

verus! {

/// The number of corners of the cube.
pub const CUBE_VERTICES: u16 = 8;

/// Whether every index names one of `vertices` vertices.
pub open spec fn in_bounds(indices: Seq<u16>, vertices: nat) -> bool {
    forall|k: int| 0 <= k < indices.len() ==> (#[trigger] indices[k] as nat) < vertices
}

/// The indices of the cube: two triangles for each of the faces front, back,
/// left, right, top and bottom. The corners 0 to 3 are the front face and 4
/// to 7 the back face, each counted from the bottom left corner against the
/// clock as seen from the front.
pub open spec fn cube_index_seq() -> Seq<u16> {
    seq![
        0, 1, 2, 0, 2, 3,
        4, 5, 6, 4, 6, 7,
        4, 0, 3, 4, 3, 7,
        1, 5, 6, 1, 6, 2,
        3, 2, 6, 3, 6, 7,
        4, 5, 1, 4, 1, 0,
    ]
}

/// The index list of the cube.
pub fn cube_indices() -> (indices: Vec<u16>)
    ensures
        indices@ == cube_index_seq(),
        in_bounds(indices@, CUBE_VERTICES as nat),
{
    let indices: Vec<u16> = vec![
        0, 1, 2, 0, 2, 3,
        4, 5, 6, 4, 6, 7,
        4, 0, 3, 4, 3, 7,
        1, 5, 6, 1, 6, 2,
        3, 2, 6, 3, 6, 7,
        4, 5, 1, 4, 1, 0,
    ];
    assert(indices@ =~= cube_index_seq());
    indices
}

/// The index at place `k` of the fan of `sides` triangles round vertex 0.
///
/// Triangle `i` joins the centre, vertex 0, to the rim vertices `i + 1` and
/// its successor; the successor of the last rim vertex is the first.
pub open spec fn fan_index(sides: nat, k: int) -> int {
    let i = k / 3;
    if k % 3 == 0 {
        0
    } else if k % 3 == 1 {
        i + 1
    } else {
        (i + 1) % (sides as int) + 1
    }
}

/// The indices of a polygon of `sides` sides, drawn as a fan of triangles
/// round its centre.
pub open spec fn polygon_index_seq(sides: nat) -> Seq<u16> {
    Seq::new(3 * sides, |k: int| fan_index(sides, k) as u16)
}

/// Every index of the fan is the centre or one of the `sides` rim vertices.
pub proof fn lemma_fan_index_in_bounds(sides: nat, k: int)
    requires
        0 <= k < 3 * sides,
    ensures
        0 <= fan_index(sides, k) <= sides,
{
    let i = k / 3;
    assert(0 <= (i + 1) % (sides as int) < sides) by (nonlinear_arith)
        requires
            sides > 0,
    ;
}

/// The index list of a polygon of `sides` sides: a fan of `sides` triangles
/// over `sides + 1` vertices, the centre first. With no sides it is empty.
pub fn polygon_indices(sides: u16) -> (indices: Vec<u16>)
    ensures
        indices@ == polygon_index_seq(sides as nat),
        in_bounds(indices@, sides as nat + 1),
{
    let mut indices: Vec<u16> = Vec::new();
    let mut i: u16 = 0;
    while i < sides
        invariant
            i <= sides,
            indices@.len() == 3 * i,
            forall|k: int| 0 <= k < 3 * i ==> #[trigger] indices@[k] == fan_index(sides as nat, k),
        decreases sides - i,
    {
        indices.push(0);
        indices.push(i + 1);
        indices.push((i + 1) % sides + 1);
        i += 1;
    }
    proof {
        assert forall|k: int| 0 <= k < indices@.len() implies (#[trigger] indices@[k] as nat)
            <= sides by {
            lemma_fan_index_in_bounds(sides as nat, k);
        }
        assert(indices@ =~= polygon_index_seq(sides as nat));
    }
    indices
}

/// Whether the three indices from place `3 * t` on are three different
/// vertices.
pub open spec fn proper_triangle(indices: Seq<u16>, t: int) -> bool {
    &&& indices[3 * t] != indices[3 * t + 1]
    &&& indices[3 * t + 1] != indices[3 * t + 2]
    &&& indices[3 * t] != indices[3 * t + 2]
}

/// Each of the twelve triangles of the cube has three different corners.
pub proof fn lemma_cube_triangles_proper(t: int)
    requires
        0 <= t < 12,
    ensures
        proper_triangle(cube_index_seq(), t),
{
}

/// A polygon of at least two sides has only triangles with three different
/// corners.
pub proof fn lemma_fan_triangles_proper(sides: nat, t: int)
    requires
        2 <= sides <= u16::MAX,
        0 <= t < sides,
    ensures
        proper_triangle(polygon_index_seq(sides), t),
{
    lemma_fan_index_in_bounds(sides, 3 * t + 2);
    if t + 1 < sides {
        assert((t + 1) % (sides as int) == t + 1) by (nonlinear_arith)
            requires
                0 <= t + 1 < sides,
        ;
    } else {
        assert((t + 1) % (sides as int) == 0) by (nonlinear_arith)
            requires
                t + 1 == sides,
                sides > 0,
        ;
    }
}

/// Each triangle of the fan ends on the rim vertex where the next one
/// begins, and the last ends where the first begins: the fan is closed.
pub proof fn lemma_fan_closes(sides: nat, t: int)
    requires
        0 <= t < sides,
    ensures
        fan_index(sides, 3 * t + 2) == fan_index(sides, 3 * ((t + 1) % (sides as int)) + 1),
{
    assert(0 <= (t + 1) % (sides as int) < sides) by (nonlinear_arith)
        requires
            sides > 0,
    ;
}

/// Whether `bytes` hold `indices` in their order, two bytes for each, the
/// low byte first.
pub open spec fn low_byte_first(bytes: Seq<u8>, indices: Seq<u16>) -> bool {
    &&& bytes.len() == 2 * indices.len()
    &&& forall|i: int|
        0 <= i < indices.len() ==> #[trigger] indices[i] == bytes[2 * i] + 256 * bytes[2 * i + 1]
}

/// Whether `bytes` hold `indices` in their order, two bytes for each, the
/// high byte first.
pub open spec fn high_byte_first(bytes: Seq<u8>, indices: Seq<u16>) -> bool {
    &&& bytes.len() == 2 * indices.len()
    &&& forall|i: int|
        0 <= i < indices.len() ==> #[trigger] indices[i] == 256 * bytes[2 * i] + bytes[2 * i + 1]
}

/// Whether `bytes` are `indices` as they lie in memory. Which byte of an
/// index comes first is the machine's choice, the same for all of them.
pub open spec fn in_memory_layout(bytes: Seq<u8>, indices: Seq<u16>) -> bool {
    low_byte_first(bytes, indices) || high_byte_first(bytes, indices)
}

/// `bytemuck::cast_slice` from `u16` to `u8`.
///
/// Trusted: the result is the memory of `indices` seen as bytes. It has two
/// bytes for each index, in the order of the indices and in the byte order
/// of the machine. The cast to bytes cannot fail: a byte needs no alignment
/// and any number of bytes is a whole number of bytes.
#[verifier::external_body]
fn cast_indices(indices: &[u16]) -> (bytes: &[u8])
    ensures
        in_memory_layout(bytes@, indices@),
{
    bytemuck::cast_slice(indices)
}

/// What a draw call needs of an index list.
pub struct IndexData<'a> {
    /// The contents of the index buffer.
    pub bytes: &'a [u8],
    /// The number of indices to draw.
    pub count: u32,
}

/// The bytes of `indices` for the index buffer, and their number for the
/// draw call.
///
/// The number is cut to 32 bits. For a list that a draw call can take it is
/// the length of the list, and then the buffer holds two bytes for each
/// index that is drawn.
pub fn index_data<'a>(indices: &'a [u16]) -> (data: IndexData<'a>)
    ensures
        in_memory_layout(data.bytes@, indices@),
        data.count == indices@.len() as u32,
        indices@.len() <= u32::MAX ==> data.count == indices@.len() && data.bytes@.len() == 2
            * data.count,
{
    IndexData { bytes: cast_indices(indices), count: indices.len() as u32 }
}

} // verus!
