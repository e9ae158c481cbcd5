//! Debug shapes: what is submitted during a frame, and how it is drawn.
//!
//! Shapes and labels are collected in a [`DebugShapes`] batch during a frame.
//! Once a frame the batch is drained and each shape becomes one or two draw
//! calls: its outline as a line list, and, where its sides are wanted, its
//! faces as a triangle list in a fainter alpha. Shapes are drawn in the order
//! in which they were submitted.

use vstd::prelude::*;
use egui::Align2;
use glam::{Mat4, Quat, Vec3, Vec4};
use crate::ecs::transform::Transform;
use crate::render::buffer::{buffers_fit, MeshBuffers, MeshError};
use crate::render::color::Color;
use crate::render::mesh::{
    cube_face, cube_polygon, cube_position, cube_vertex, sphere_face, sphere_polygon,
    sphere_vertex, sphere_vertex_total, triangles_of, triangulate, MeshPolygon,
    MeshTriangle, CUBE_FACES, CUBE_VERTICES,
};
use crate::render::outline::{
    indices_in_bounds, lemma_outline_bounds, mesh_outline, triangle_count,
};
use crate::scalar::{Scalar, ONE_BITS};
use crate::types::AABB;
use crate::vector::{
    axis, homogeneous, quat_rotate, rotated, to_homogeneous, unit_axis, vec3_add, vec3_difference,
    vec3_mul, vec3_product, vec3_sub, vec3_sum,
};

verus! {

#[verifier::external_type_specification]
#[verifier::external_body]
pub struct ExAlign2(Align2);

/// The factor by which the sides of a custom shape scale the shape's alpha:
/// 0.35, about a third.
pub const CUSTOM_FILL_ALPHA_SCALE_BITS: u32 = 0x3eb3_3333;

/// The factor by which the sides of a cube scale the shape's alpha: 0.25, a
/// quarter.
pub const CUBE_FILL_ALPHA_SCALE_BITS: u32 = 0x3e80_0000;

/// The slot, in the vertex and the pixel stage, to which the constants of a
/// draw are bound.
pub const DEBUG_SCOPE_SLOT: u32 = 10;

/// Points round the equator of the unit sphere, and from pole to pole.
pub const SPHERE_SUBDIVISIONS: usize = 16;

/// A mesh of the caller's own, ready to be drawn: the name under which the
/// caller keeps its device buffers, and how many indices its outline and its
/// faces have.
#[derive(Copy, Clone, Debug, PartialEq, Eq, Structural)]
pub struct CustomDebugShape {
    id: u64,
    outline_index_count: u32,
    index_count: u32,
}

#[derive(Copy, Clone, Debug, PartialEq)]
pub enum DebugShape {
    Cube { cube: AABB, rotation: Quat, sides: bool },
    Sphere { center: Vec3, radius: Scalar },
    Line { start: Vec3, end: Vec3, dotted: bool, dot_scale: Scalar },
    Custom { transform: Transform, shape: CustomDebugShape, sides: bool },
}

/// The shapes and labels submitted since the batch was last drained.
pub struct DebugShapes {
    shapes: Vec<(DebugShape, Color)>,
    labels: Vec<(String, Vec3, Align2, Color)>,
}

/// A solid line from `start` to `end`.
pub open spec fn solid_line(start: Vec3, end: Vec3) -> DebugShape {
    DebugShape::Line { start, end, dotted: false, dot_scale: Scalar { bits: ONE_BITS } }
}

/// The end of a line that leaves `point` along the x axis as `orientation`
/// turns it, and is as long as `length` says for each component.
pub open spec fn oriented_end(point: Vec3, orientation: Quat, length: Vec3) -> Vec3 {
    vec3_sum(point, vec3_product(rotated(orientation, unit_axis(0)), length))
}

/// The arm of a cross along one axis: from the point back by the half length
/// along that axis, to the point forward by it.
pub open spec fn cross_arm(point: Vec3, half_length: Vec3, axis: usize) -> DebugShape {
    solid_line(
        vec3_difference(point, vec3_product(unit_axis(axis), half_length)),
        vec3_sum(point, vec3_product(unit_axis(axis), half_length)),
    )
}

impl DebugShapes {
    /// The shapes in the batch, in the order of their submission.
    pub closed spec fn shapes(&self) -> Seq<(DebugShape, Color)> {
        self.shapes@
    }

    /// The labels in the batch, in the order of their submission.
    pub closed spec fn labels(&self) -> Seq<(String, Vec3, Align2, Color)> {
        self.labels@
    }

    /// What draining the shapes does: the list is what the batch held, the
    /// batch holds no shape afterwards, and its labels stay.
    pub open spec fn shapes_drained(
        before: &DebugShapes,
        after: &DebugShapes,
        list: Seq<(DebugShape, Color)>,
    ) -> bool {
        &&& list == before.shapes()
        &&& after.shapes() == Seq::<(DebugShape, Color)>::empty()
        &&& after.labels() == before.labels()
    }

    /// What draining the labels does: the list is what the batch held, the
    /// batch holds no label afterwards, and its shapes stay.
    pub open spec fn labels_drained(
        before: &DebugShapes,
        after: &DebugShapes,
        list: Seq<(String, Vec3, Align2, Color)>,
    ) -> bool {
        &&& list == before.labels()
        &&& after.labels() == Seq::<(String, Vec3, Align2, Color)>::empty()
        &&& after.shapes() == before.shapes()
    }

    /// An empty batch.
    pub fn new() -> (batch: DebugShapes)
        ensures
            batch.shapes() == Seq::<(DebugShape, Color)>::empty(),
            batch.labels() == Seq::<(String, Vec3, Align2, Color)>::empty(),
    {
        DebugShapes { shapes: Vec::new(), labels: Vec::new() }
    }

    /// How many shapes wait in the batch.
    pub fn shape_count(&self) -> (count: usize)
        ensures
            count == self.shapes().len(),
    {
        self.shapes.len()
    }

    /// How many labels wait in the batch.
    pub fn label_count(&self) -> (count: usize)
        ensures
            count == self.labels().len(),
    {
        self.labels.len()
    }

    /// Submits the box that reaches `extents` from `center` to either side.
    pub fn cube_extents(
        &mut self,
        center: Vec3,
        extents: Vec3,
        rotation: Quat,
        color: Color,
        sides: bool,
    )
        ensures
            final(self).shapes() == old(self).shapes().push(
                (
                    DebugShape::Cube {
                        cube: AABB {
                            min: vec3_difference(center, extents),
                            max: vec3_sum(center, extents),
                        },
                        rotation,
                        sides,
                    },
                    color,
                ),
            ),
            final(self).labels() == old(self).labels(),
    {
        let min = vec3_sub(center, extents);
        let max = vec3_add(center, extents);

        self.shapes.push((DebugShape::Cube { cube: AABB { min, max }, rotation, sides }, color))
    }

    pub fn cube_aabb(&mut self, aabb: AABB, rotation: Quat, color: Color, sides: bool)
        ensures
            final(self).shapes() == old(self).shapes().push(
                (DebugShape::Cube { cube: aabb, rotation, sides }, color),
            ),
            final(self).labels() == old(self).labels(),
    {
        self.shapes.push((DebugShape::Cube { cube: aabb, rotation, sides }, color))
    }

    pub fn sphere(&mut self, center: Vec3, radius: Scalar, color: Color)
        ensures
            final(self).shapes() == old(self).shapes().push(
                (DebugShape::Sphere { center, radius }, color),
            ),
            final(self).labels() == old(self).labels(),
    {
        self.shapes.push((DebugShape::Sphere { center, radius }, color))
    }

    pub fn line(&mut self, start: Vec3, end: Vec3, color: Color)
        ensures
            final(self).shapes() == old(self).shapes().push((solid_line(start, end), color)),
            final(self).labels() == old(self).labels(),
    {
        let dot_scale = Scalar { bits: ONE_BITS };
        self.shapes.push((DebugShape::Line { start, end, dotted: false, dot_scale }, color))
    }

    pub fn line_dotted(&mut self, start: Vec3, end: Vec3, color: Color, dot_scale: Scalar)
        ensures
            final(self).shapes() == old(self).shapes().push(
                (DebugShape::Line { start, end, dotted: true, dot_scale }, color),
            ),
            final(self).labels() == old(self).labels(),
    {
        self.shapes.push((DebugShape::Line { start, end, dotted: true, dot_scale }, color))
    }

    /// Submits a solid line that leaves `point` along the x axis as
    /// `orientation` turns it. `length` scales the turned axis component by
    /// component; a line of one length has that length in all three.
    pub fn line_orientation(&mut self, point: Vec3, orientation: Quat, length: Vec3, color: Color)
        ensures
            final(self).shapes() == old(self).shapes().push(
                (solid_line(point, oriented_end(point, orientation, length)), color),
            ),
            final(self).labels() == old(self).labels(),
    {
        let direction = quat_rotate(orientation, axis(0));
        self.line(point, vec3_add(point, vec3_mul(direction, length)), color)
    }

    /// Submits three solid lines through `point`, along the x, the y and the
    /// z axis in that order. Each reaches the half length of its axis to
    /// either side of the point.
    pub fn cross(&mut self, point: Vec3, half_length: Vec3, color: Color)
        ensures
            final(self).shapes() == old(self).shapes().push(
                (cross_arm(point, half_length, 0), color),
            ).push((cross_arm(point, half_length, 1), color)).push(
                (cross_arm(point, half_length, 2), color),
            ),
            final(self).labels() == old(self).labels(),
    {
        let x = vec3_mul(axis(0), half_length);
        self.line(vec3_sub(point, x), vec3_add(point, x), color);
        let y = vec3_mul(axis(1), half_length);
        self.line(vec3_sub(point, y), vec3_add(point, y), color);
        let z = vec3_mul(axis(2), half_length);
        self.line(vec3_sub(point, z), vec3_add(point, z), color);
    }

    pub fn custom_shape(
        &mut self,
        transform: Transform,
        shape: CustomDebugShape,
        color: Color,
        sides: bool,
    )
        ensures
            final(self).shapes() == old(self).shapes().push(
                (DebugShape::Custom { transform, shape, sides }, color),
            ),
            final(self).labels() == old(self).labels(),
    {
        self.shapes.push((DebugShape::Custom { transform, shape, sides }, color))
    }

    pub fn text(&mut self, text: String, point: Vec3, anchor: Align2, color: Color)
        ensures
            final(self).labels() == old(self).labels().push((text, point, anchor, color)),
            final(self).shapes() == old(self).shapes(),
    {
        self.labels.push((text, point, anchor, color))
    }

    /// Returns the drawlist. The internal list is cleared after this call
    pub fn shape_list(&mut self) -> (list: Vec<(DebugShape, Color)>)
        ensures
            Self::shapes_drained(old(self), final(self), list@),
    {
        let mut v: Vec<(DebugShape, Color)> = Vec::new();
        core::mem::swap(&mut self.shapes, &mut v);

        v
    }

    /// Returns the labels. The internal list is cleared after this call
    pub fn label_list(&mut self) -> (list: Vec<(String, Vec3, Align2, Color)>)
        ensures
            Self::labels_drained(old(self), final(self), list@),
    {
        let mut v: Vec<(String, Vec3, Align2, Color)> = Vec::new();
        core::mem::swap(&mut self.labels, &mut v);

        v
    }
}

impl Default for DebugShapes {
    fn default() -> (batch: DebugShapes)
        ensures
            batch.shapes() == Seq::<(DebugShape, Color)>::empty(),
            batch.labels() == Seq::<(String, Vec3, Align2, Color)>::empty(),
    {
        DebugShapes::new()
    }
}

/// Of two drains of the shapes in a row, the first returns every shape that
/// was submitted since the drain before, and the second returns none.
pub proof fn lemma_shapes_drain_once(
    before: &DebugShapes,
    between: &DebugShapes,
    after: &DebugShapes,
    first: Seq<(DebugShape, Color)>,
    second: Seq<(DebugShape, Color)>,
)
    requires
        DebugShapes::shapes_drained(before, between, first),
        DebugShapes::shapes_drained(between, after, second),
    ensures
        first == before.shapes(),
        second.len() == 0,
        after.labels() == before.labels(),
{
}

/// Of two drains of the labels in a row, the first returns every label that
/// was submitted since the drain before, and the second returns none.
pub proof fn lemma_labels_drain_once(
    before: &DebugShapes,
    between: &DebugShapes,
    after: &DebugShapes,
    first: Seq<(String, Vec3, Align2, Color)>,
    second: Seq<(String, Vec3, Align2, Color)>,
)
    requires
        DebugShapes::labels_drained(before, between, first),
        DebugShapes::labels_drained(between, after, second),
    ensures
        first == before.labels(),
        second.len() == 0,
        after.shapes() == before.shapes(),
{
}

impl CustomDebugShape {
    /// The name under which the caller keeps the shape's device buffers.
    pub closed spec fn spec_id(self) -> u64 {
        self.id
    }

    /// The number of indices of the outline's line list.
    pub closed spec fn spec_outline_index_count(self) -> u32 {
        self.outline_index_count
    }

    /// The number of indices of the faces' triangle list.
    pub closed spec fn spec_index_count(self) -> u32 {
        self.index_count
    }

    pub fn id(&self) -> (id: u64)
        ensures
            id == self.spec_id(),
    {
        self.id
    }

    pub fn outline_index_count(&self) -> (count: u32)
        ensures
            count == self.spec_outline_index_count(),
    {
        self.outline_index_count
    }

    pub fn index_count(&self) -> (count: u32)
        ensures
            count == self.spec_index_count(),
    {
        self.index_count
    }

    /// Whether `result` is what the given mesh gives: the shape with the
    /// counts of its two index lists beside its buffers where those can be
    /// described, the error where one is too large.
    pub open spec fn created(
        id: u64,
        vertices: Seq<Vec4>,
        indices: Seq<u16>,
        result: Result<(CustomDebugShape, MeshBuffers), MeshError>,
    ) -> bool {
        if buffers_fit(vertices.len(), indices.len(), mesh_outline(vertices, indices).len()) {
            &&& result matches Ok(pair)
            &&& pair.0.spec_id() == id
            &&& pair.0.spec_outline_index_count() == mesh_outline(vertices, indices).len()
            &&& pair.0.spec_index_count() == indices.len()
            &&& pair.1.holds(vertices, indices)
        } else {
            result matches Err(e) && e == MeshError::BufferTooLarge
        }
    }

    /// Prepares a shape from a triangulated mesh: extracts its outline and
    /// describes its three buffers. `id` is the name under which the caller
    /// will keep the buffers once it has created them.
    pub fn new(id: u64, vertices: &[Vec4], indices: &[u16]) -> (result: Result<
        (CustomDebugShape, MeshBuffers),
        MeshError,
    >)
        requires
            indices_in_bounds(vertices@.len(), indices@),
        ensures
            Self::created(id, vertices@, indices@, result),
    {
        let built = MeshBuffers::build(
            vstd::slice::slice_to_vec(vertices),
            vstd::slice::slice_to_vec(indices),
        );
        match built {
            Ok(buffers) => {
                let shape = CustomDebugShape {
                    id,
                    outline_index_count: buffers.indices_outline.len() as u32,
                    index_count: buffers.indices.len() as u32,
                };
                Ok((shape, buffers))
            },
            Err(e) => Err(e),
        }
    }

    /// The points of a collision shape in homogeneous coordinates.
    pub open spec fn homogeneous_points(points: Seq<Vec3>) -> Seq<Vec4> {
        Seq::new(points.len(), |i: int| homogeneous(points[i]))
    }

    /// Prepares a shape from the mesh of a collision shape, whose vertices are
    /// points in space.
    pub fn from_havok_shape(id: u64, vertices: &[Vec3], indices: &[u16]) -> (result: Result<
        (CustomDebugShape, MeshBuffers),
        MeshError,
    >)
        requires
            indices_in_bounds(vertices@.len(), indices@),
        ensures
            Self::created(id, Self::homogeneous_points(vertices@), indices@, result),
    {
        let mut vertices_vec4: Vec<Vec4> = Vec::new();
        let mut i: usize = 0;
        while i < vertices.len()
            invariant
                i <= vertices@.len(),
                vertices_vec4@ == Self::homogeneous_points(vertices@).take(i as int),
            decreases vertices@.len() - i,
        {
            vertices_vec4.push(to_homogeneous(vertices[i]));
            assert(vertices_vec4@ =~= Self::homogeneous_points(vertices@).take(i + 1));
            i = i + 1;
        }
        assert(vertices_vec4@ =~= Self::homogeneous_points(vertices@));
        Self::new(id, vertices_vec4.as_slice(), indices)
    }
}

/// Which mesh a draw call draws.
#[derive(Copy, Clone, Debug, PartialEq, Eq, Structural)]
pub enum MeshSource {
    UnitSphere,
    UnitCube,
    /// The buffers that the caller keeps under this name.
    Custom { id: u64 },
}

/// Which of a mesh's two index buffers a draw call reads.
#[derive(Copy, Clone, Debug, PartialEq, Eq, Structural)]
pub enum IndexSource {
    /// The line list of the outline.
    Outline,
    /// The triangle list of the faces.
    Sides,
}

#[derive(Copy, Clone, Debug, PartialEq, Eq, Structural)]
pub enum PrimitiveTopology {
    LineList,
    TriangleList,
}

/// The model matrix of a draw call, or what it is computed from.
#[derive(Copy, Clone, Debug, PartialEq)]
pub enum ModelSource {
    /// The unit cube scaled to the box's half extents, rotated, and moved to
    /// the box's center.
    Cube { cube: AABB, rotation: Quat },
    /// The unit sphere scaled by the radius and moved to the center.
    Sphere { center: Vec3, radius: Scalar },
    /// The matrix of the mesh's own transform.
    Custom { model: Mat4 },
}

/// One draw, with the constants it is drawn under. The constants are bound
/// to slot `DEBUG_SCOPE_SLOT` of the vertex and the pixel stage.
#[derive(Copy, Clone, Debug, PartialEq)]
pub enum DrawCall {
    /// An indexed draw of a mesh under a model matrix and a color.
    ///
    /// The draw has the red, green and blue of `color`. Its alpha is that of
    /// `color` where `alpha_scale` is `None`, and that alpha multiplied by
    /// the factor where it is `Some`. The product is the caller's to
    /// compute.
    Shape {
        model: ModelSource,
        color: Color,
        alpha_scale: Option<Scalar>,
        mesh: MeshSource,
        indices: IndexSource,
        topology: PrimitiveTopology,
        index_count: u32,
    },
    /// A draw of the two end points of a line, as a line list without
    /// indices. The end points are in homogeneous coordinates.
    Line {
        start: Vec4,
        end: Vec4,
        color: Color,
        dot_scale: Scalar,
        dotted: bool,
        vertex_count: u32,
    },
}

/// The contents and descriptions of the buffers of the two unit meshes.
pub struct UnitMeshes {
    pub sphere: MeshBuffers,
    pub cube: MeshBuffers,
}

/// Draws debug shapes with the two unit meshes and the caller's own.
#[derive(Copy, Clone, Debug, PartialEq, Eq, Structural)]
pub struct DebugShapeRenderer {
    sphere_outline_index_count: u32,
    sphere_index_count: u32,
    cube_outline_index_count: u32,
    cube_index_count: u32,
}

/// The three indices of a triangle, as the index buffer holds them.
pub open spec fn triangle_indices(t: MeshTriangle) -> Seq<u16> {
    seq![t.x as u16, t.y as u16, t.z as u16]
}

/// The indices of the triangles of a list, one triangle after the other.
pub open spec fn triangles_indices(triangles: Seq<MeshTriangle>) -> Seq<u16>
    decreases triangles.len(),
{
    if triangles.len() == 0 {
        Seq::empty()
    } else {
        triangles_indices(triangles.drop_last()) + triangle_indices(triangles.last())
    }
}

/// The triangle list of the first `faces` faces of the unit sphere.
pub open spec fn sphere_indices(faces: nat) -> Seq<u16>
    decreases faces,
{
    if faces == 0 {
        Seq::empty()
    } else {
        sphere_indices((faces - 1) as nat) + triangles_indices(
            triangles_of(
                sphere_face(SPHERE_SUBDIVISIONS, SPHERE_SUBDIVISIONS, (faces - 1) as usize),
            ),
        )
    }
}

/// The triangle list of the first `faces` faces of the unit cube.
pub open spec fn cube_indices(faces: nat) -> Seq<u16>
    decreases faces,
{
    if faces == 0 {
        Seq::empty()
    } else {
        cube_indices((faces - 1) as nat) + triangles_indices(
            triangles_of(MeshPolygon::PolyQuad(cube_face((faces - 1) as usize))),
        )
    }
}

/// The vertices of the unit cube: those of its generator, as points in
/// homogeneous coordinates.
pub open spec fn cube_vertices() -> Seq<Vec4> {
    Seq::new(CUBE_VERTICES as nat, |i: int| homogeneous(cube_position(i as usize)))
}

/// Appends the indices of a face's triangles to a triangle list.
fn push_polygon(indices: &mut Vec<u16>, polygon: MeshPolygon, Ghost(vertex_count): Ghost<int>)
    requires
        polygon.below(vertex_count),
        vertex_count <= u16::MAX,
        forall|j: int|
            0 <= j < old(indices)@.len() ==> (#[trigger] old(indices)@[j]) < vertex_count,
    ensures
        final(indices)@ == old(indices)@ + triangles_indices(triangles_of(polygon)),
        final(indices)@.len() <= old(indices)@.len() + 6,
        forall|j: int|
            0 <= j < final(indices)@.len() ==> (#[trigger] final(indices)@[j]) < vertex_count,
{
    let triangles = triangulate(polygon);
    let mut k: usize = 0;
    while k < triangles.len()
        invariant
            k <= triangles.len(),
            triangles@ == triangles_of(polygon),
            polygon.below(vertex_count),
            vertex_count <= u16::MAX,
            indices@ == old(indices)@ + triangles_indices(triangles@.take(k as int)),
            indices@.len() == old(indices)@.len() + 3 * k,
            forall|j: int| 0 <= j < indices@.len() ==> (#[trigger] indices@[j]) < vertex_count,
        decreases triangles.len() - k,
    {
        let t = triangles[k];
        proof {
            assert(triangles@.take(k + 1).drop_last() =~= triangles@.take(k as int));
            assert(triangles@.take(k + 1).last() == t);
        }
        indices.push(t.x as u16);
        indices.push(t.y as u16);
        indices.push(t.z as u16);
        assert(indices@ =~= old(indices)@ + triangles_indices(triangles@.take(k + 1)));
        k = k + 1;
    }
    assert(triangles@.take(k as int) =~= triangles@);
}

/// The two draws of a mesh: its outline in the shape's own alpha, and, where
/// `sides` is set, its faces in that alpha scaled by `fill_scale`.
pub open spec fn mesh_draw_calls(
    model: ModelSource,
    color: Color,
    fill_scale: Scalar,
    mesh: MeshSource,
    outline_index_count: u32,
    index_count: u32,
    sides: bool,
) -> Seq<DrawCall> {
    let outline = DrawCall::Shape {
        model,
        color,
        alpha_scale: None,
        mesh,
        indices: IndexSource::Outline,
        topology: PrimitiveTopology::LineList,
        index_count: outline_index_count,
    };
    if sides {
        seq![
            outline,
            DrawCall::Shape {
                model,
                color,
                alpha_scale: Some(fill_scale),
                mesh,
                indices: IndexSource::Sides,
                topology: PrimitiveTopology::TriangleList,
                index_count,
            },
        ]
    } else {
        seq![outline]
    }
}

/// Whether a draw call draws an outline: a line list.
pub open spec fn is_outline_draw(call: DrawCall) -> bool {
    call matches DrawCall::Shape { indices, topology, .. } && indices == IndexSource::Outline
        && topology == PrimitiveTopology::LineList
}

/// Whether a draw call fills faces: a triangle list.
pub open spec fn is_fill_draw(call: DrawCall) -> bool {
    call matches DrawCall::Shape { indices, topology, .. } && indices == IndexSource::Sides
        && topology == PrimitiveTopology::TriangleList
}

/// Whether a shape asks for its sides to be filled. A sphere and a line have
/// no sides to ask for.
pub open spec fn wants_sides(shape: DebugShape) -> bool {
    match shape {
        DebugShape::Cube { sides, .. } => sides,
        DebugShape::Custom { sides, .. } => sides,
        _ => false,
    }
}

impl DebugShapeRenderer {
    pub closed spec fn spec_sphere_outline_index_count(self) -> u32 {
        self.sphere_outline_index_count
    }

    pub closed spec fn spec_sphere_index_count(self) -> u32 {
        self.sphere_index_count
    }

    pub closed spec fn spec_cube_outline_index_count(self) -> u32 {
        self.cube_outline_index_count
    }

    pub closed spec fn spec_cube_index_count(self) -> u32 {
        self.cube_index_count
    }

    pub fn sphere_outline_index_count(&self) -> (count: u32)
        ensures
            count == self.spec_sphere_outline_index_count(),
    {
        self.sphere_outline_index_count
    }

    pub fn sphere_index_count(&self) -> (count: u32)
        ensures
            count == self.spec_sphere_index_count(),
    {
        self.sphere_index_count
    }

    pub fn cube_outline_index_count(&self) -> (count: u32)
        ensures
            count == self.spec_cube_outline_index_count(),
    {
        self.cube_outline_index_count
    }

    pub fn cube_index_count(&self) -> (count: u32)
        ensures
            count == self.spec_cube_index_count(),
    {
        self.cube_index_count
    }

    /// Whether the renderer's counts are those of the meshes' index lists.
    pub open spec fn counts_match(self, meshes: &UnitMeshes) -> bool {
        &&& self.spec_sphere_outline_index_count() == meshes.sphere.indices_outline@.len()
        &&& self.spec_sphere_index_count() == meshes.sphere.indices@.len()
        &&& self.spec_cube_outline_index_count() == meshes.cube.indices_outline@.len()
        &&& self.spec_cube_index_count() == meshes.cube.indices@.len()
    }

    /// Builds the unit sphere and the unit cube.
    ///
    /// Each mesh has a vertex for every vertex of its generator, in
    /// homogeneous coordinates; the triangle list of the generator's faces;
    /// and the outline extracted from those triangles. The renderer remembers
    /// how many indices each list has. Where the sphere's vertices lie is the
    /// generator's word alone.
    pub fn new() -> (made: (DebugShapeRenderer, UnitMeshes))
        ensures
            made.0.counts_match(&made.1),
            made.1.sphere.vertices@.len() == sphere_vertex_total(
                SPHERE_SUBDIVISIONS,
                SPHERE_SUBDIVISIONS,
            ),
            made.1.sphere.holds(
                made.1.sphere.vertices@,
                sphere_indices((SPHERE_SUBDIVISIONS * SPHERE_SUBDIVISIONS) as nat),
            ),
            made.1.cube.holds(cube_vertices(), cube_indices(CUBE_FACES as nat)),
    {
        let sphere_vertex_count: usize = (SPHERE_SUBDIVISIONS - 1) * SPHERE_SUBDIVISIONS + 2;
        let mut vertices: Vec<Vec4> = Vec::new();
        let mut i: usize = 0;
        while i < sphere_vertex_count
            invariant
                i <= sphere_vertex_count,
                sphere_vertex_count == sphere_vertex_total(
                    SPHERE_SUBDIVISIONS,
                    SPHERE_SUBDIVISIONS,
                ),
                vertices@.len() == i,
            decreases sphere_vertex_count - i,
        {
            let position = sphere_vertex(SPHERE_SUBDIVISIONS, SPHERE_SUBDIVISIONS, i);
            vertices.push(to_homogeneous(position));
            i = i + 1;
        }

        let mut indices: Vec<u16> = Vec::new();
        let mut face: usize = 0;
        while face < SPHERE_SUBDIVISIONS * SPHERE_SUBDIVISIONS
            invariant
                face <= SPHERE_SUBDIVISIONS * SPHERE_SUBDIVISIONS,
                sphere_vertex_count == sphere_vertex_total(
                    SPHERE_SUBDIVISIONS,
                    SPHERE_SUBDIVISIONS,
                ),
                sphere_vertex_count <= u16::MAX,
                indices@ == sphere_indices(face as nat),
                indices@.len() <= 6 * face,
                forall|j: int|
                    0 <= j < indices@.len() ==> (#[trigger] indices@[j]) < sphere_vertex_count,
            decreases SPHERE_SUBDIVISIONS * SPHERE_SUBDIVISIONS - face,
        {
            let polygon = sphere_polygon(SPHERE_SUBDIVISIONS, SPHERE_SUBDIVISIONS, face);
            push_polygon(&mut indices, polygon, Ghost(sphere_vertex_count as int));
            face = face + 1;
        }
        let sphere = Self::unit_mesh(vertices, indices);

        let mut vertices: Vec<Vec4> = Vec::new();
        let mut i: usize = 0;
        while i < CUBE_VERTICES
            invariant
                i <= CUBE_VERTICES,
                vertices@ == cube_vertices().take(i as int),
            decreases CUBE_VERTICES - i,
        {
            vertices.push(to_homogeneous(cube_vertex(i)));
            assert(vertices@ =~= cube_vertices().take(i + 1));
            i = i + 1;
        }
        assert(vertices@ =~= cube_vertices());
        let mut indices: Vec<u16> = Vec::new();
        let mut face: usize = 0;
        while face < CUBE_FACES
            invariant
                face <= CUBE_FACES,
                indices@ == cube_indices(face as nat),
                indices@.len() <= 6 * face,
                forall|j: int| 0 <= j < indices@.len() ==> (#[trigger] indices@[j]) < CUBE_VERTICES,
            decreases CUBE_FACES - face,
        {
            let quad = cube_polygon(face);
            push_polygon(&mut indices, MeshPolygon::PolyQuad(quad), Ghost(CUBE_VERTICES as int));
            face = face + 1;
        }
        let cube = Self::unit_mesh(vertices, indices);

        let renderer = DebugShapeRenderer {
            sphere_outline_index_count: sphere.indices_outline.len() as u32,
            sphere_index_count: sphere.indices.len() as u32,
            cube_outline_index_count: cube.indices_outline.len() as u32,
            cube_index_count: cube.indices.len() as u32,
        };
        (renderer, UnitMeshes { sphere, cube })
    }

    /// Prepares the buffers of a mesh that is small enough for them to fit.
    fn unit_mesh(vertices: Vec<Vec4>, indices: Vec<u16>) -> (buffers: MeshBuffers)
        requires
            vertices@.len() <= u16::MAX,
            indices@.len() <= u16::MAX,
            forall|j: int| 0 <= j < indices@.len() ==> (#[trigger] indices@[j]) < vertices@.len(),
        ensures
            buffers.holds(vertices@, indices@),
    {
        proof {
            lemma_outline_bounds(vertices@, indices@, triangle_count(indices@));
        }
        match MeshBuffers::build(vertices, indices) {
            Ok(buffers) => buffers,
            Err(_) => vstd::pervasive::unreached(),
        }
    }

    /// The draws of one shape: its outline first, as a line list; then, for
    /// a cube or a custom shape whose sides are wanted, its faces as a
    /// triangle list, in the shape's alpha scaled by the factor of its kind.
    /// A line is one draw of its two end points.
    pub open spec fn shape_draw_calls(self, shape: DebugShape, color: Color) -> Seq<DrawCall> {
        match shape {
            DebugShape::Custom { transform, shape, sides } => mesh_draw_calls(
                ModelSource::Custom { model: transform.spec_to_mat4() },
                color,
                Scalar { bits: CUSTOM_FILL_ALPHA_SCALE_BITS },
                MeshSource::Custom { id: shape.spec_id() },
                shape.spec_outline_index_count(),
                shape.spec_index_count(),
                sides,
            ),
            DebugShape::Cube { cube, rotation, sides } => mesh_draw_calls(
                ModelSource::Cube { cube, rotation },
                color,
                Scalar { bits: CUBE_FILL_ALPHA_SCALE_BITS },
                MeshSource::UnitCube,
                self.spec_cube_outline_index_count(),
                self.spec_cube_index_count(),
                sides,
            ),
            DebugShape::Sphere { center, radius } => mesh_draw_calls(
                ModelSource::Sphere { center, radius },
                color,
                Scalar { bits: ONE_BITS },
                MeshSource::UnitSphere,
                self.spec_sphere_outline_index_count(),
                self.spec_sphere_index_count(),
                false,
            ),
            DebugShape::Line { start, end, dotted, dot_scale } => seq![
                DrawCall::Line {
                    start: homogeneous(start),
                    end: homogeneous(end),
                    color,
                    dot_scale,
                    dotted,
                    vertex_count: 2,
                },
            ],
        }
    }

    /// The draws of a list of shapes: those of each shape, in the order of
    /// the list.
    pub open spec fn draw_calls(self, shapes: Seq<(DebugShape, Color)>) -> Seq<DrawCall>
        decreases shapes.len(),
    {
        if shapes.len() == 0 {
            Seq::empty()
        } else {
            self.draw_calls(shapes.drop_last()) + self.shape_draw_calls(
                shapes.last().0,
                shapes.last().1,
            )
        }
    }

    fn push_mesh_draws(
        calls: &mut Vec<DrawCall>,
        model: ModelSource,
        color: Color,
        fill_scale: Scalar,
        mesh: MeshSource,
        outline_index_count: u32,
        index_count: u32,
        sides: bool,
    )
        ensures
            final(calls)@ == old(calls)@ + mesh_draw_calls(
                model,
                color,
                fill_scale,
                mesh,
                outline_index_count,
                index_count,
                sides,
            ),
    {
        calls.push(
            DrawCall::Shape {
                model,
                color,
                alpha_scale: None,
                mesh,
                indices: IndexSource::Outline,
                topology: PrimitiveTopology::LineList,
                index_count: outline_index_count,
            },
        );
        if sides {
            calls.push(
                DrawCall::Shape {
                    model,
                    color,
                    alpha_scale: Some(fill_scale),
                    mesh,
                    indices: IndexSource::Sides,
                    topology: PrimitiveTopology::TriangleList,
                    index_count,
                },
            );
        }
        assert(calls@ =~= old(calls)@ + mesh_draw_calls(
            model,
            color,
            fill_scale,
            mesh,
            outline_index_count,
            index_count,
            sides,
        ));
    }

    /// Drains the shapes of the batch and returns their draws, in the order
    /// in which the shapes were submitted. The labels stay in the batch.
    pub fn draw_all(&self, shapes: &mut DebugShapes) -> (calls: Vec<DrawCall>)
        ensures
            calls@ == self.draw_calls(old(shapes).shapes()),
            final(shapes).shapes() == Seq::<(DebugShape, Color)>::empty(),
            final(shapes).labels() == old(shapes).labels(),
    {
        let list = shapes.shape_list();
        let mut calls: Vec<DrawCall> = Vec::new();
        let mut i: usize = 0;
        while i < list.len()
            invariant
                i <= list.len(),
                calls@ == self.draw_calls(list@.take(i as int)),
            decreases list.len() - i,
        {
            let (shape, color) = list[i];
            proof {
                assert(list@.take(i + 1).drop_last() =~= list@.take(i as int));
                assert(list@.take(i + 1).last() == list@[i as int]);
            }
            match shape {
                DebugShape::Custom { transform, shape, sides } => {
                    Self::push_mesh_draws(
                        &mut calls,
                        ModelSource::Custom { model: transform.to_mat4() },
                        color,
                        Scalar { bits: CUSTOM_FILL_ALPHA_SCALE_BITS },
                        MeshSource::Custom { id: shape.id() },
                        shape.outline_index_count(),
                        shape.index_count(),
                        sides,
                    );
                },
                DebugShape::Cube { cube, rotation, sides } => {
                    Self::push_mesh_draws(
                        &mut calls,
                        ModelSource::Cube { cube, rotation },
                        color,
                        Scalar { bits: CUBE_FILL_ALPHA_SCALE_BITS },
                        MeshSource::UnitCube,
                        self.cube_outline_index_count,
                        self.cube_index_count,
                        sides,
                    );
                },
                DebugShape::Sphere { center, radius } => {
                    Self::push_mesh_draws(
                        &mut calls,
                        ModelSource::Sphere { center, radius },
                        color,
                        Scalar { bits: ONE_BITS },
                        MeshSource::UnitSphere,
                        self.sphere_outline_index_count,
                        self.sphere_index_count,
                        false,
                    );
                },
                DebugShape::Line { start, end, dotted, dot_scale } => {
                    calls.push(
                        DrawCall::Line {
                            start: to_homogeneous(start),
                            end: to_homogeneous(end),
                            color,
                            dot_scale,
                            dotted,
                            vertex_count: 2,
                        },
                    );
                    assert(calls@ =~= self.draw_calls(list@.take(i as int)) + self.shape_draw_calls(
                        shape,
                        color,
                    ));
                },
            }
            i = i + 1;
        }
        assert(list@.take(i as int) =~= list@);
        calls
    }
}

/// Whether a fill goes with an outline: both draw the same mesh under the
/// same model matrix and in the same color; the outline in the color's own
/// alpha, the fill in that alpha scaled by a factor of a quarter at the
/// least and 0.35 at the most.
pub open spec fn fill_follows_outline(outline: DrawCall, fill: DrawCall, color: Color) -> bool {
    &&& outline matches DrawCall::Shape {
        model: outline_model,
        color: outline_color,
        alpha_scale: outline_scale,
        mesh: outline_mesh,
        ..
    }
    &&& fill matches DrawCall::Shape {
        model: fill_model,
        color: fill_color,
        alpha_scale: fill_scale,
        mesh: fill_mesh,
        ..
    }
    &&& outline_model == fill_model
    &&& outline_mesh == fill_mesh
    &&& outline_color == color
    &&& fill_color == color
    &&& outline_scale is None
    &&& fill_scale matches Some(factor)
    &&& !(Scalar { bits: CUBE_FILL_ALPHA_SCALE_BITS }).spec_gt(factor)
    &&& !factor.spec_gt(Scalar { bits: CUSTOM_FILL_ALPHA_SCALE_BITS })
    &&& (Scalar { bits: ONE_BITS }).spec_gt(factor)
}

/// Every shape that is not a line is drawn as one outline in its own alpha,
/// followed by one fill exactly when its sides are wanted; the fill has the
/// outline's model matrix and color, and a fraction of its alpha. A line is
/// drawn as one draw of two vertices.
pub proof fn lemma_shape_draws(renderer: DebugShapeRenderer, shape: DebugShape, color: Color)
    ensures
        shape is Line ==> renderer.shape_draw_calls(shape, color).len() == 1 && (
        renderer.shape_draw_calls(shape, color)[0] matches DrawCall::Line { vertex_count, .. }
            && vertex_count == 2),
        !(shape is Line) ==> is_outline_draw(renderer.shape_draw_calls(shape, color)[0]) && (
        renderer.shape_draw_calls(shape, color)[0] matches DrawCall::Shape {
            color: drawn,
            alpha_scale,
            ..
        } && drawn == color && alpha_scale is None),
        !(shape is Line) && wants_sides(shape) ==> renderer.shape_draw_calls(shape, color).len()
            == 2 && is_fill_draw(renderer.shape_draw_calls(shape, color)[1])
            && fill_follows_outline(
            renderer.shape_draw_calls(shape, color)[0],
            renderer.shape_draw_calls(shape, color)[1],
            color,
        ),
        !(shape is Line) && !wants_sides(shape) ==> renderer.shape_draw_calls(shape, color).len()
            == 1,
{
}

} // verus!
