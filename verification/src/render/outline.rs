//! From a triangulated mesh to the line list of its outline.
//!
//! A quad-like surface is triangulated by cutting each quad along a
//! diagonal, and that diagonal is the longest edge of both halves. So of each
//! triangle the longest edge is dropped and the other two are drawn. A
//! triangle without a single longest edge keeps all three. This is a
//! heuristic: on a mesh that is not made of quads it drops edges that belong
//! to the surface, and adjacent triangles may give the same segment twice.

use vstd::prelude::*;
use glam::Vec4;
use crate::scalar::Scalar;
use crate::vector::{distance, distance_bits};

verus! {

/// The lengths of the edges of a triangle with corners 0, 1 and 2.
#[derive(Copy, Clone, Debug, PartialEq, Eq, Structural)]
pub struct EdgeLengths {
    /// From corner 0 to corner 1.
    pub a: Scalar,
    /// From corner 1 to corner 2.
    pub b: Scalar,
    /// From corner 2 to corner 0.
    pub c: Scalar,
}

/// An edge of a triangle, named as `EdgeLengths` names its length.
#[derive(Copy, Clone, Debug, PartialEq, Eq, Structural)]
pub enum Edge {
    A,
    B,
    C,
}

/// The edge that is strictly longer than both others, if there is one.
pub open spec fn longest_edge(lengths: EdgeLengths) -> Option<Edge> {
    if lengths.a.spec_gt(lengths.b) && lengths.a.spec_gt(lengths.c) {
        Some(Edge::A)
    } else if lengths.b.spec_gt(lengths.a) && lengths.b.spec_gt(lengths.c) {
        Some(Edge::B)
    } else if lengths.c.spec_gt(lengths.a) && lengths.c.spec_gt(lengths.b) {
        Some(Edge::C)
    } else {
        None
    }
}

/// The outline of one triangle as index pairs: the two edges that are left
/// when one edge is strictly longer than both others, all three otherwise.
pub open spec fn triangle_outline(i0: u16, i1: u16, i2: u16, lengths: EdgeLengths) -> Seq<u16> {
    match longest_edge(lengths) {
        Some(Edge::A) => seq![i0, i2, i2, i1],
        Some(Edge::B) => seq![i0, i1, i0, i2],
        Some(Edge::C) => seq![i0, i1, i1, i2],
        None => seq![i0, i1, i1, i2, i2, i0],
    }
}

/// The number of whole triangles in an index list; a remainder of one or two
/// indices is not drawn.
pub open spec fn triangle_count(indices: Seq<u16>) -> nat {
    (indices.len() / 3) as nat
}

/// The lengths of the edges of the triangle with the given corners, as they
/// are measured between the vertices.
pub open spec fn measured(vertices: Seq<Vec4>, i0: u16, i1: u16, i2: u16) -> EdgeLengths {
    EdgeLengths {
        a: Scalar { bits: distance_bits(vertices[i0 as int], vertices[i1 as int]) },
        b: Scalar { bits: distance_bits(vertices[i1 as int], vertices[i2 as int]) },
        c: Scalar { bits: distance_bits(vertices[i2 as int], vertices[i0 as int]) },
    }
}

/// The outline of the triangle with the given number.
pub open spec fn outline_of_triangle(vertices: Seq<Vec4>, indices: Seq<u16>, t: int) -> Seq<u16> {
    let i0 = indices[3 * t];
    let i1 = indices[3 * t + 1];
    let i2 = indices[3 * t + 2];
    triangle_outline(i0, i1, i2, measured(vertices, i0, i1, i2))
}

/// The outline of the first `triangles` triangles of a mesh, one triangle's
/// segments after the other's.
pub open spec fn outline_of(vertices: Seq<Vec4>, indices: Seq<u16>, triangles: nat) -> Seq<u16>
    decreases triangles,
{
    if triangles == 0 {
        Seq::empty()
    } else {
        outline_of(vertices, indices, (triangles - 1) as nat) + outline_of_triangle(
            vertices,
            indices,
            triangles - 1,
        )
    }
}

/// The outline of a mesh: that of all its whole triangles.
pub open spec fn mesh_outline(vertices: Seq<Vec4>, indices: Seq<u16>) -> Seq<u16> {
    outline_of(vertices, indices, triangle_count(indices))
}

/// Whether every whole triangle of `indices` names vertices that exist.
pub open spec fn indices_in_bounds(vertex_count: nat, indices: Seq<u16>) -> bool {
    forall|i: int| 0 <= i < 3 * triangle_count(indices) ==> (#[trigger] indices[i]) < vertex_count
}

/// Whether `index` is a corner of one of the first `triangles` triangles.
pub open spec fn is_corner(indices: Seq<u16>, triangles: nat, index: u16) -> bool {
    exists|i: int| 0 <= i < 3 * triangles && #[trigger] indices[i] == index
}

/// An outline draws two or three edges for each triangle, and only between
/// corners of the mesh.
pub proof fn lemma_outline_bounds(vertices: Seq<Vec4>, indices: Seq<u16>, triangles: nat)
    requires
        3 * triangles <= indices.len(),
    ensures
        4 * triangles <= outline_of(vertices, indices, triangles).len() <= 6 * triangles,
        outline_of(vertices, indices, triangles).len() % 2 == 0,
        forall|j: int|
            0 <= j < outline_of(vertices, indices, triangles).len() ==> is_corner(
                indices,
                triangles,
                #[trigger] outline_of(vertices, indices, triangles)[j],
            ),
    decreases triangles,
{
    if triangles > 0 {
        let t = triangles - 1;
        let head = outline_of(vertices, indices, t as nat);
        let tail = outline_of_triangle(vertices, indices, t);
        let all = outline_of(vertices, indices, triangles);
        lemma_outline_bounds(vertices, indices, t as nat);
        assert(all == head + tail);
        assert forall|j: int| 0 <= j < all.len() implies is_corner(
            indices,
            triangles,
            #[trigger] all[j],
        ) by {
            if j < head.len() {
                assert(all[j] == head[j]);
                assert(is_corner(indices, t as nat, head[j]));
                let i = choose|i: int| 0 <= i < 3 * t && #[trigger] indices[i] == head[j];
                assert(indices[i] == all[j]);
            } else {
                assert(all[j] == tail[j - head.len()]);
                assert(indices[3 * t] == all[j] || indices[3 * t + 1] == all[j] || indices[3 * t
                    + 2] == all[j]);
            }
        }
    }
}

/// An edge is the longest exactly when it is strictly longer than both
/// others; no two edges are. So an outline has four indices where such an
/// edge exists, and six where none does: of equal edges none is dropped.
pub proof fn lemma_longest_edge(i0: u16, i1: u16, i2: u16, lengths: EdgeLengths)
    ensures
        longest_edge(lengths) == Some(Edge::A) <==> lengths.a.spec_gt(lengths.b)
            && lengths.a.spec_gt(lengths.c),
        longest_edge(lengths) == Some(Edge::B) <==> lengths.b.spec_gt(lengths.a)
            && lengths.b.spec_gt(lengths.c),
        longest_edge(lengths) == Some(Edge::C) <==> lengths.c.spec_gt(lengths.a)
            && lengths.c.spec_gt(lengths.b),
        triangle_outline(i0, i1, i2, lengths).len() == if longest_edge(lengths) is Some {
            4nat
        } else {
            6nat
        },
{
}

/// A triangle whose three edges have the same length keeps them all.
pub proof fn lemma_equal_edges_are_all_kept(i0: u16, i1: u16, i2: u16, lengths: EdgeLengths)
    requires
        lengths.a == lengths.b,
        lengths.b == lengths.c,
    ensures
        triangle_outline(i0, i1, i2, lengths) == seq![i0, i1, i1, i2, i2, i0],
{
}

/// The outline of one triangle whose edge lengths are known.
pub fn outline_segments(i0: u16, i1: u16, i2: u16, lengths: EdgeLengths) -> (segments: Vec<u16>)
    ensures
        segments@ == triangle_outline(i0, i1, i2, lengths),
{
    let mut segments: Vec<u16> = Vec::new();
    if lengths.a.gt(lengths.b) && lengths.a.gt(lengths.c) {
        segments.push(i0);
        segments.push(i2);
        segments.push(i2);
        segments.push(i1);
    } else if lengths.b.gt(lengths.a) && lengths.b.gt(lengths.c) {
        segments.push(i0);
        segments.push(i1);
        segments.push(i0);
        segments.push(i2);
    } else if lengths.c.gt(lengths.a) && lengths.c.gt(lengths.b) {
        segments.push(i0);
        segments.push(i1);
        segments.push(i1);
        segments.push(i2);
    } else {
        segments.push(i0);
        segments.push(i1);
        segments.push(i1);
        segments.push(i2);
        segments.push(i2);
        segments.push(i0);
    }
    assert(segments@ =~= triangle_outline(i0, i1, i2, lengths));
    segments
}

/// Whether every whole triangle of `indices` names vertices that exist.
pub fn check_indices(vertex_count: usize, indices: &[u16]) -> (ok: bool)
    ensures
        ok == indices_in_bounds(vertex_count as nat, indices@),
{
    let whole: usize = indices.len() / 3 * 3;
    let mut i: usize = 0;
    while i < whole
        invariant
            i <= whole,
            whole == 3 * triangle_count(indices@),
            whole <= indices@.len(),
            forall|j: int| 0 <= j < i ==> (#[trigger] indices@[j]) < vertex_count,
        decreases whole - i,
    {
        if indices[i] as usize >= vertex_count {
            return false;
        }
        i = i + 1;
    }
    true
}

/// Input: triangulated mesh, output: line list with diagonal edges removed.
///
/// The edge lengths are measured between the vertices that the indices name,
/// and each triangle gives the segments that `triangle_outline` has for its
/// lengths, in the order of the triangles.
pub fn remove_diagonals_linegulate(vertices: &[Vec4], indices: &[u16]) -> (outline: Vec<u16>)
    requires
        indices_in_bounds(vertices@.len(), indices@),
    ensures
        outline@ == mesh_outline(vertices@, indices@),
{
    let mut outline: Vec<u16> = Vec::new();
    let count: usize = indices.len();
    let triangles: usize = count / 3;
    let mut t: usize = 0;
    while t < triangles
        invariant
            t <= triangles,
            triangles == triangle_count(indices@),
            count == indices@.len(),
            3 * triangles <= count,
            indices_in_bounds(vertices@.len(), indices@),
            outline@ == outline_of(vertices@, indices@, t as nat),
        decreases triangles - t,
    {
        let i0: u16 = indices[3 * t];
        let i1: u16 = indices[3 * t + 1];
        let i2: u16 = indices[3 * t + 2];
        let v0 = &vertices[i0 as usize];
        let v1 = &vertices[i1 as usize];
        let v2 = &vertices[i2 as usize];
        //         0
        //         |\ edge a
        //  edge c | \
        //         2--1
        //           edge b
        let lengths = EdgeLengths { a: distance(v0, v1), b: distance(v1, v2), c: distance(v2, v0) };
        assert(lengths == measured(vertices@, i0, i1, i2));
        let mut segments = outline_segments(i0, i1, i2, lengths);
        outline.append(&mut segments);
        t = t + 1;
    }
    outline
}

} // verus!
