//! The unit meshes, as `genmesh` generates them.

use vstd::prelude::*;
use genmesh::generators::{Cube, IndexedPolygon, SharedVertex, SphereUv};
use genmesh::{Polygon, Quad, Triangle, Triangulate};
use glam::Vec3;

verus! {

/// Three corners of a mesh, by vertex index.
#[derive(Copy, Clone, Debug, PartialEq, Eq, Structural)]
pub struct MeshTriangle {
    pub x: usize,
    pub y: usize,
    pub z: usize,
}

/// Four corners of a mesh in order around the face, by vertex index.
#[derive(Copy, Clone, Debug, PartialEq, Eq, Structural)]
pub struct MeshQuad {
    pub x: usize,
    pub y: usize,
    pub z: usize,
    pub w: usize,
}

/// A face of a generated mesh.
#[derive(Copy, Clone, Debug, PartialEq, Eq, Structural)]
pub enum MeshPolygon {
    PolyTri(MeshTriangle),
    PolyQuad(MeshQuad),
}

impl MeshPolygon {
    /// Whether every corner is a vertex index below `count`.
    pub open spec fn below(self, count: int) -> bool {
        match self {
            MeshPolygon::PolyTri(t) => t.x < count && t.y < count && t.z < count,
            MeshPolygon::PolyQuad(q) => q.x < count && q.y < count && q.z < count && q.w < count,
        }
    }
}

/// The triangles into which a face is cut: a triangle is kept, a quad is cut
/// along the diagonal from its first to its third corner.
pub open spec fn triangles_of(polygon: MeshPolygon) -> Seq<MeshTriangle> {
    match polygon {
        MeshPolygon::PolyTri(t) => seq![t],
        MeshPolygon::PolyQuad(q) => seq![
            MeshTriangle { x: q.x, y: q.y, z: q.z },
            MeshTriangle { x: q.z, y: q.w, z: q.x },
        ],
    }
}

/// The face of the cube with the given number: four vertices of its own.
pub open spec fn cube_face(face: usize) -> MeshQuad {
    MeshQuad {
        x: (face * 4) as usize,
        y: (face * 4 + 1) as usize,
        z: (face * 4 + 2) as usize,
        w: (face * 4 + 3) as usize,
    }
}

/// The number of faces of the cube.
pub const CUBE_FACES: usize = 6;

/// The number of vertices of the cube: four to a face.
pub const CUBE_VERTICES: usize = 24;

/// The number of vertices of a sphere with `u` points round the equator and
/// `v` from pole to pole: the two poles, and a ring of `u` at each of the
/// `v - 1` latitudes between them.
pub open spec fn sphere_vertex_total(u: usize, v: usize) -> int {
    (v - 1) * u + 2
}

/// The face with the given number of a sphere with `u` points round the
/// equator and `v` from pole to pole.
pub uninterp spec fn sphere_face(u: usize, v: usize, face: usize) -> MeshPolygon;

/// The position of the vertex with the given number of the cube.
pub uninterp spec fn cube_position(index: usize) -> Vec3;

/// `genmesh`'s `IndexedPolygon::indexed_polygon` on a `Cube`: face `face`
/// has the vertices `4 * face` to `4 * face + 3`, in that order.
#[verifier::external_body]
pub(crate) fn cube_polygon(face: usize) -> (quad: MeshQuad)
    requires
        face < CUBE_FACES,
    ensures
        quad == cube_face(face),
{
    let q = Cube::new().indexed_polygon(face);
    MeshQuad { x: q.x, y: q.y, z: q.z, w: q.w }
}

/// `genmesh`'s `SharedVertex::shared_vertex` on a `Cube`: the position of
/// one of its 24 vertices, named `cube_position`. It panics from vertex 24
/// on.
#[verifier::external_body]
pub(crate) fn cube_vertex(index: usize) -> (position: Vec3)
    requires
        index < CUBE_VERTICES,
    ensures
        position == cube_position(index),
{
    let p = Cube::new().shared_vertex(index).pos;
    Vec3::new(p.x, p.y, p.z)
}

/// `genmesh`'s `IndexedPolygon::indexed_polygon` on a `SphereUv`: the face is
/// named `sphere_face`, and its corners are vertices of the sphere. The
/// generator refuses `u` or `v` below 2.
#[verifier::external_body]
pub(crate) fn sphere_polygon(u: usize, v: usize, face: usize) -> (polygon: MeshPolygon)
    requires
        u > 1,
        v > 1,
        face < u * v,
        u * v <= u16::MAX,
    ensures
        polygon == sphere_face(u, v, face),
        polygon.below(sphere_vertex_total(u, v)),
{
    match SphereUv::new(u, v).indexed_polygon(face) {
        Polygon::PolyTri(t) => MeshPolygon::PolyTri(MeshTriangle { x: t.x, y: t.y, z: t.z }),
        Polygon::PolyQuad(q) => MeshPolygon::PolyQuad(MeshQuad { x: q.x, y: q.y, z: q.z, w: q.w }),
    }
}

/// `genmesh`'s `SharedVertex::shared_vertex` on a `SphereUv`: the position
/// of one of its vertices. The generator refuses `u` or `v` below 2. Nothing
/// is claimed of the position: it is computed with a sine and a cosine,
/// whose last bits the machine decides.
#[verifier::external_body]
pub(crate) fn sphere_vertex(u: usize, v: usize, index: usize) -> Vec3
    requires
        u > 1,
        v > 1,
        index < sphere_vertex_total(u, v),
        u * v <= u16::MAX,
{
    let p = SphereUv::new(u, v).shared_vertex(index).pos;
    Vec3::new(p.x, p.y, p.z)
}

/// `genmesh`'s `Triangulate::triangulate`, on one face: a triangle comes out
/// as it is, a quad `x y z w` as the triangles `x y z` and `z w x`.
#[verifier::external_body]
pub(crate) fn triangulate(polygon: MeshPolygon) -> (triangles: Vec<MeshTriangle>)
    ensures
        triangles@ == triangles_of(polygon),
{
    let face = match polygon {
        MeshPolygon::PolyTri(t) => Polygon::PolyTri(Triangle::new(t.x, t.y, t.z)),
        MeshPolygon::PolyQuad(q) => Polygon::PolyQuad(Quad::new(q.x, q.y, q.z, q.w)),
    };
    std::iter::once(face).triangulate().map(|t| MeshTriangle { x: t.x, y: t.y, z: t.z }).collect()
}

} // verus!
