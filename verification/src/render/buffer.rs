//! What the device buffers of a mesh are created from.
//!
//! A mesh has three immutable buffers: its vertices, the triangle list of its
//! faces and the line list of its outline. The library prepares their
//! contents and descriptions; creating them on a device is the caller's part.

use vstd::prelude::*;
use glam::Vec4;
use crate::render::outline::{indices_in_bounds, mesh_outline, remove_diagonals_linegulate};

verus! {

/// Bytes of one vertex: four 32-bit components.
pub const VERTEX_STRIDE: u32 = 16;

/// Bytes of one index: 16 bits.
pub const INDEX_STRIDE: u32 = 2;

/// What a buffer is bound as.
#[derive(Copy, Clone, Debug, PartialEq, Eq, Structural)]
pub enum BufferBind {
    VertexBuffer,
    IndexBuffer,
}

/// The description of one immutable buffer.
#[derive(Copy, Clone, Debug, PartialEq, Eq, Structural)]
pub struct BufferDesc {
    pub byte_width: u32,
    pub bind: BufferBind,
}

/// Why the buffers of a mesh cannot be described.
#[derive(Copy, Clone, Debug, PartialEq, Eq, Structural)]
pub enum MeshError {
    /// A buffer would be wider than 32 bits can say.
    BufferTooLarge,
}

/// The contents and descriptions of the three buffers of a mesh.
pub struct MeshBuffers {
    /// Contents of the vertex buffer.
    pub vertices: Vec<Vec4>,
    /// Contents of the outline's index buffer: a line list.
    pub indices_outline: Vec<u16>,
    /// Contents of the faces' index buffer: a triangle list.
    pub indices: Vec<u16>,
    /// The vertex buffer.
    pub vb: BufferDesc,
    /// The outline's index buffer.
    pub ib: BufferDesc,
    /// The faces' index buffer.
    pub ib_sides: BufferDesc,
}

/// The descriptions of the three buffers of a mesh.
#[derive(Copy, Clone, Debug, PartialEq, Eq, Structural)]
pub struct BufferDescs {
    /// The vertex buffer.
    pub vb: BufferDesc,
    /// The outline's index buffer.
    pub ib: BufferDesc,
    /// The faces' index buffer.
    pub ib_sides: BufferDesc,
}

/// Whether buffers of these lengths can be described.
pub open spec fn buffers_fit(vertices: nat, indices: nat, outline: nat) -> bool {
    &&& vertices * VERTEX_STRIDE <= u32::MAX
    &&& indices * INDEX_STRIDE <= u32::MAX
    &&& outline * INDEX_STRIDE <= u32::MAX
}

/// The descriptions of the buffers of a mesh with so many vertices, face
/// indices and outline indices: each as wide as its contents, or the error
/// where one of them would be too wide.
pub open spec fn described(vertices: nat, indices: nat, outline: nat) -> Result<
    BufferDescs,
    MeshError,
> {
    if buffers_fit(vertices, indices, outline) {
        Ok(
            BufferDescs {
                vb: BufferDesc {
                    byte_width: (vertices * VERTEX_STRIDE) as u32,
                    bind: BufferBind::VertexBuffer,
                },
                ib: BufferDesc {
                    byte_width: (outline * INDEX_STRIDE) as u32,
                    bind: BufferBind::IndexBuffer,
                },
                ib_sides: BufferDesc {
                    byte_width: (indices * INDEX_STRIDE) as u32,
                    bind: BufferBind::IndexBuffer,
                },
            },
        )
    } else {
        Err(MeshError::BufferTooLarge)
    }
}

/// Describes the buffers of a mesh with so many vertices, face indices and
/// outline indices.
pub fn describe_buffers(vertices: usize, indices: usize, outline: usize) -> (result: Result<
    BufferDescs,
    MeshError,
>)
    ensures
        result == described(vertices as nat, indices as nat, outline as nat),
{
    let most_vertices: usize = (u32::MAX / VERTEX_STRIDE) as usize;
    let most_indices: usize = (u32::MAX / INDEX_STRIDE) as usize;
    if vertices > most_vertices || indices > most_indices || outline > most_indices {
        return Err(MeshError::BufferTooLarge);
    }
    Ok(
        BufferDescs {
            vb: BufferDesc {
                byte_width: vertices as u32 * VERTEX_STRIDE,
                bind: BufferBind::VertexBuffer,
            },
            ib: BufferDesc {
                byte_width: outline as u32 * INDEX_STRIDE,
                bind: BufferBind::IndexBuffer,
            },
            ib_sides: BufferDesc {
                byte_width: indices as u32 * INDEX_STRIDE,
                bind: BufferBind::IndexBuffer,
            },
        },
    )
}

impl MeshBuffers {
    /// Each description has the width of its contents and the binding of its
    /// kind.
    pub open spec fn wf(&self) -> bool {
        described(self.vertices@.len(), self.indices@.len(), self.indices_outline@.len()) == Ok::<
            BufferDescs,
            MeshError,
        >(BufferDescs { vb: self.vb, ib: self.ib, ib_sides: self.ib_sides })
    }

    /// Whether these are the buffers of the given mesh: its vertices, its
    /// triangle list and the outline of the two, each described as it is.
    pub open spec fn holds(&self, vertices: Seq<Vec4>, indices: Seq<u16>) -> bool {
        &&& self.vertices@ == vertices
        &&& self.indices@ == indices
        &&& self.indices_outline@ == mesh_outline(vertices, indices)
        &&& self.wf()
    }

    /// Whether `result` is what the given mesh gives: its buffers where they
    /// can be described, the error where one is too large.
    pub open spec fn built(
        vertices: Seq<Vec4>,
        indices: Seq<u16>,
        result: Result<MeshBuffers, MeshError>,
    ) -> bool {
        if buffers_fit(vertices.len(), indices.len(), mesh_outline(vertices, indices).len()) {
            result matches Ok(buffers) && buffers.holds(vertices, indices)
        } else {
            result matches Err(e) && e == MeshError::BufferTooLarge
        }
    }

    /// Prepares the buffers of a triangulated mesh. The outline is extracted
    /// from the triangles; its edge lengths are measured on the vertices.
    pub fn build(vertices: Vec<Vec4>, indices: Vec<u16>) -> (result: Result<MeshBuffers, MeshError>)
        requires
            indices_in_bounds(vertices@.len(), indices@),
        ensures
            Self::built(vertices@, indices@, result),
    {
        let indices_outline = remove_diagonals_linegulate(vertices.as_slice(), indices.as_slice());
        match describe_buffers(vertices.len(), indices.len(), indices_outline.len()) {
            Ok(descs) => Ok(
                MeshBuffers {
                    vertices,
                    indices_outline,
                    indices,
                    vb: descs.vb,
                    ib: descs.ib,
                    ib_sides: descs.ib_sides,
                },
            ),
            Err(e) => Err(e),
        }
    }
}

} // verus!
