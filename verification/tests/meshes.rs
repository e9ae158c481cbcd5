use alkahest::render::buffer::{
    describe_buffers, BufferBind, BufferDesc, BufferDescs, MeshBuffers, MeshError,
};
use alkahest::render::debug::{CustomDebugShape, DebugShapeRenderer};
use alkahest::render::outline::remove_diagonals_linegulate;
use genmesh::generators::{Cube, IndexedPolygon, SharedVertex, SphereUv};
use genmesh::Triangulate;
use glam::{Vec3, Vec4};

fn point(x: f32, y: f32, z: f32) -> Vec4 {
    Vec4::new(x, y, z, 1.0)
}

#[test]
fn the_unit_cube_has_the_generators_vertices_and_triangles() {
    let (_, meshes) = DebugShapeRenderer::new();
    let cube = Cube::new();
    let vertices: Vec<Vec4> = cube
        .shared_vertex_iter()
        .map(|v| Vec4::new(v.pos.x, v.pos.y, v.pos.z, 1.0))
        .collect();
    assert_eq!(meshes.cube.vertices, vertices);
    assert_eq!(meshes.cube.vertices.len(), 24);
    let mut indices: Vec<u16> = vec![];
    for t in cube.indexed_polygon_iter().triangulate() {
        indices.extend_from_slice(&[t.x as u16, t.y as u16, t.z as u16]);
    }
    assert_eq!(meshes.cube.indices, indices);
    assert_eq!(meshes.cube.indices.len(), 36);
    assert_eq!(&meshes.cube.indices[..6], &[0, 1, 2, 2, 3, 0]);
    assert_eq!(&meshes.cube.indices[30..], &[20, 21, 22, 22, 23, 20]);
}

#[test]
fn the_unit_cubes_outline_is_the_rim_of_each_face() {
    let (renderer, meshes) = DebugShapeRenderer::new();
    let mut rims: Vec<u16> = vec![];
    for q in Cube::new().indexed_polygon_iter() {
        rims.extend_from_slice(&[
            q.x as u16, q.y as u16, q.y as u16, q.z as u16, q.z as u16, q.w as u16, q.w as u16,
            q.x as u16,
        ]);
    }
    assert_eq!(meshes.cube.indices_outline, rims);
    assert_eq!(renderer.cube_outline_index_count(), 48);
    assert_eq!(renderer.cube_index_count(), 36);
}

#[test]
fn the_unit_sphere_has_the_generators_vertices_and_triangles() {
    let (renderer, meshes) = DebugShapeRenderer::new();
    let sphere = SphereUv::new(16, 16);
    let vertices: Vec<Vec4> = sphere
        .shared_vertex_iter()
        .map(|v| Vec4::new(v.pos.x, v.pos.y, v.pos.z, 1.0))
        .collect();
    assert_eq!(meshes.sphere.vertices.len(), 242);
    assert_eq!(vertices.len(), 242);
    // The positions come from a sine and a cosine: they are held to the
    // generator's within a rounding, and to the unit sphere.
    for (ours, theirs) in meshes.sphere.vertices.iter().zip(vertices.iter()) {
        assert!(ours.abs_diff_eq(*theirs, 1.0e-6));
        assert_eq!(ours.w, 1.0);
        assert!((ours.truncate().length() - 1.0).abs() < 1.0e-5);
    }
    assert!(meshes.sphere.vertices[0].abs_diff_eq(Vec4::new(0.0, 0.0, 1.0, 1.0), 1.0e-6));
    assert!(meshes.sphere.vertices[241].abs_diff_eq(Vec4::new(0.0, 0.0, -1.0, 1.0), 1.0e-6));
    let mut indices: Vec<u16> = vec![];
    for t in sphere.indexed_polygon_iter().triangulate() {
        indices.extend_from_slice(&[t.x as u16, t.y as u16, t.z as u16]);
    }
    assert_eq!(meshes.sphere.indices, indices);
    assert_eq!(meshes.sphere.indices.len(), 1440);
    assert_eq!(renderer.sphere_index_count(), 1440);
    assert_eq!(&meshes.sphere.indices[..3], &[0, 1, 2]);
    assert!(meshes.sphere.indices.iter().all(|&i| i < 242));
}

#[test]
fn the_unit_spheres_outline_is_extracted_from_its_triangles() {
    let (renderer, meshes) = DebugShapeRenderer::new();
    let outline = remove_diagonals_linegulate(&meshes.sphere.vertices, &meshes.sphere.indices);
    assert_eq!(meshes.sphere.indices_outline, outline);
    assert_eq!(renderer.sphere_outline_index_count() as usize, outline.len());
    assert!(outline.len() >= 4 * 480 && outline.len() <= 6 * 480);
    assert_eq!(outline.len() % 2, 0);
}

#[test]
fn the_unit_meshes_describe_their_buffers() {
    let (_, meshes) = DebugShapeRenderer::new();
    assert_eq!(
        meshes.cube.vb,
        BufferDesc { byte_width: 24 * 16, bind: BufferBind::VertexBuffer }
    );
    assert_eq!(meshes.cube.ib, BufferDesc { byte_width: 48 * 2, bind: BufferBind::IndexBuffer });
    assert_eq!(
        meshes.cube.ib_sides,
        BufferDesc { byte_width: 36 * 2, bind: BufferBind::IndexBuffer }
    );
    assert_eq!(
        meshes.sphere.vb,
        BufferDesc { byte_width: 242 * 16, bind: BufferBind::VertexBuffer }
    );
    assert_eq!(
        meshes.sphere.ib_sides,
        BufferDesc { byte_width: 1440 * 2, bind: BufferBind::IndexBuffer }
    );
    assert_eq!(
        meshes.sphere.ib,
        BufferDesc {
            byte_width: 2 * meshes.sphere.indices_outline.len() as u32,
            bind: BufferBind::IndexBuffer
        }
    );
}

#[test]
fn describe_buffers_gives_each_buffer_the_width_of_its_contents() {
    assert_eq!(
        describe_buffers(3, 6, 8),
        Ok(BufferDescs {
            vb: BufferDesc { byte_width: 48, bind: BufferBind::VertexBuffer },
            ib: BufferDesc { byte_width: 16, bind: BufferBind::IndexBuffer },
            ib_sides: BufferDesc { byte_width: 12, bind: BufferBind::IndexBuffer },
        })
    );
    assert_eq!(
        describe_buffers(0, 0, 0),
        Ok(BufferDescs {
            vb: BufferDesc { byte_width: 0, bind: BufferBind::VertexBuffer },
            ib: BufferDesc { byte_width: 0, bind: BufferBind::IndexBuffer },
            ib_sides: BufferDesc { byte_width: 0, bind: BufferBind::IndexBuffer },
        })
    );
}

#[test]
fn describe_buffers_takes_the_widest_that_fit() {
    let widest = describe_buffers(0x0fff_ffff, 0x7fff_ffff, 0x7fff_ffff).unwrap();
    assert_eq!(widest.vb.byte_width, 0xffff_fff0);
    assert_eq!(widest.ib.byte_width, 0xffff_fffe);
    assert_eq!(widest.ib_sides.byte_width, 0xffff_fffe);
}

#[test]
fn describe_buffers_refuses_a_buffer_that_is_too_large() {
    assert_eq!(describe_buffers(0x1000_0000, 0, 0), Err(MeshError::BufferTooLarge));
    assert_eq!(describe_buffers(0, 0x8000_0000, 0), Err(MeshError::BufferTooLarge));
    assert_eq!(describe_buffers(0, 0, 0x8000_0000), Err(MeshError::BufferTooLarge));
    assert_eq!(describe_buffers(usize::MAX, usize::MAX, usize::MAX), Err(MeshError::BufferTooLarge));
}

#[test]
fn mesh_buffers_keep_the_mesh_and_add_its_outline() {
    let vertices =
        vec![point(0.0, 0.0, 0.0), point(1.0, 0.0, 0.0), point(1.0, 1.0, 0.0), point(0.0, 1.0, 0.0)];
    let indices = vec![0, 1, 2, 2, 3, 0];
    let buffers = match MeshBuffers::build(vertices.clone(), indices.clone()) {
        Ok(buffers) => buffers,
        Err(_) => panic!("a small mesh fits"),
    };
    assert_eq!(buffers.vertices, vertices);
    assert_eq!(buffers.indices, indices);
    assert_eq!(buffers.indices_outline, vec![0, 1, 1, 2, 2, 3, 3, 0]);
    assert_eq!(buffers.vb, BufferDesc { byte_width: 64, bind: BufferBind::VertexBuffer });
    assert_eq!(buffers.ib, BufferDesc { byte_width: 16, bind: BufferBind::IndexBuffer });
    assert_eq!(buffers.ib_sides, BufferDesc { byte_width: 12, bind: BufferBind::IndexBuffer });
}

#[test]
fn a_custom_shape_counts_its_indices() {
    let vertices = [point(0.0, 0.0, 0.0), point(3.0, 0.0, 0.0), point(3.0, 4.0, 0.0)];
    let (shape, buffers) = match CustomDebugShape::new(7, &vertices, &[0, 1, 2]) {
        Ok(made) => made,
        Err(_) => panic!("a small mesh fits"),
    };
    assert_eq!(shape.id(), 7);
    assert_eq!(shape.outline_index_count(), 4);
    assert_eq!(shape.index_count(), 3);
    assert_eq!(buffers.vertices, vertices.to_vec());
    assert_eq!(buffers.indices, vec![0, 1, 2]);
    assert_eq!(buffers.indices_outline, vec![0, 1, 1, 2]);
}

#[test]
fn a_custom_shape_without_triangles_is_empty() {
    let (shape, buffers) = match CustomDebugShape::new(1, &[], &[]) {
        Ok(made) => made,
        Err(_) => panic!("an empty mesh fits"),
    };
    assert_eq!(shape.outline_index_count(), 0);
    assert_eq!(shape.index_count(), 0);
    assert_eq!(buffers.vb.byte_width, 0);
}

#[test]
fn a_collision_shape_gets_homogeneous_points() {
    let vertices = [Vec3::new(0.0, 0.0, 0.0), Vec3::new(3.0, 0.0, 0.0), Vec3::new(3.0, 4.0, 0.0)];
    let (shape, buffers) = match CustomDebugShape::from_havok_shape(9, &vertices, &[0, 1, 2]) {
        Ok(made) => made,
        Err(_) => panic!("a small mesh fits"),
    };
    assert_eq!(shape.id(), 9);
    assert_eq!(shape.index_count(), 3);
    assert_eq!(shape.outline_index_count(), 4);
    assert_eq!(
        buffers.vertices,
        vec![point(0.0, 0.0, 0.0), point(3.0, 0.0, 0.0), point(3.0, 4.0, 0.0)]
    );
    assert_eq!(buffers.indices_outline, vec![0, 1, 1, 2]);
}
