use voxel_viewer::model::{
    indices, vertices, Instance, Vertex, VertexAttribute, VertexBufferLayout, VertexFormat,
    VertexStepMode, INSTANCE_STRIDE, VERTEX_STRIDE,
};

fn is_packed(layout: &VertexBufferLayout) -> bool {
    let mut end = 0;
    for attribute in &layout.attributes {
        if attribute.offset != end {
            return false;
        }
        end += attribute.format.size();
    }
    end == layout.array_stride
}

#[test]
fn format_sizes() {
    assert_eq!(VertexFormat::Uint8x4.size(), 4);
    assert_eq!(VertexFormat::Unorm8x4.size(), 4);
    assert_eq!(VertexFormat::Float32x4.size(), 16);
}

#[test]
fn instance_keeps_its_fields() {
    let i = Instance::new([1, 2, 3, 0], [10, 20, 30, 255]);
    assert_eq!(i.position(), [1, 2, 3, 0]);
    assert_eq!(i.color(), [10, 20, 30, 255]);
    assert_eq!(std::mem::size_of::<Instance>() as u64, INSTANCE_STRIDE);
}

#[test]
fn instance_layout() {
    let layout = Instance::desc();
    assert_eq!(
        layout,
        VertexBufferLayout {
            array_stride: 8,
            step_mode: VertexStepMode::Instance,
            attributes: vec![
                VertexAttribute { format: VertexFormat::Uint8x4, offset: 0, shader_location: 2 },
                VertexAttribute { format: VertexFormat::Unorm8x4, offset: 4, shader_location: 3 },
            ],
        }
    );
    assert!(is_packed(&layout));
}

#[test]
fn vertex_layout() {
    let layout = Vertex::desc();
    assert_eq!(
        layout,
        VertexBufferLayout {
            array_stride: 32,
            step_mode: VertexStepMode::Vertex,
            attributes: vec![
                VertexAttribute { format: VertexFormat::Float32x4, offset: 0, shader_location: 0 },
                VertexAttribute { format: VertexFormat::Float32x4, offset: 16, shader_location: 1 },
            ],
        }
    );
    assert_eq!(VERTEX_STRIDE, 32);
    assert!(is_packed(&layout));
}

#[test]
fn cube_vertices() {
    let expected: [([i8; 4], [i8; 4]); 24] = [
        ([0, 0, 1, 1], [0, 0, 1, 0]),
        ([1, 0, 1, 1], [0, 0, 1, 0]),
        ([1, 1, 1, 1], [0, 0, 1, 0]),
        ([0, 1, 1, 1], [0, 0, 1, 0]),
        ([0, 1, 0, 1], [0, 0, -1, 0]),
        ([1, 1, 0, 1], [0, 0, -1, 0]),
        ([1, 0, 0, 1], [0, 0, -1, 0]),
        ([0, 0, 0, 1], [0, 0, -1, 0]),
        ([1, 0, 0, 1], [1, 0, 0, 0]),
        ([1, 1, 0, 1], [1, 0, 0, 0]),
        ([1, 1, 1, 1], [1, 0, 0, 0]),
        ([1, 0, 1, 1], [1, 0, 0, 0]),
        ([0, 0, 1, 1], [-1, 0, 0, 0]),
        ([0, 1, 1, 1], [-1, 0, 0, 0]),
        ([0, 1, 0, 1], [-1, 0, 0, 0]),
        ([0, 0, 0, 1], [-1, 0, 0, 0]),
        ([1, 1, 0, 1], [0, 1, 0, 0]),
        ([0, 1, 0, 1], [0, 1, 0, 0]),
        ([0, 1, 1, 1], [0, 1, 0, 0]),
        ([1, 1, 1, 1], [0, 1, 0, 0]),
        ([1, 0, 1, 1], [0, -1, 0, 0]),
        ([0, 0, 1, 1], [0, -1, 0, 0]),
        ([0, 0, 0, 1], [0, -1, 0, 0]),
        ([1, 0, 0, 1], [0, -1, 0, 0]),
    ];
    let mesh = vertices();
    assert_eq!(mesh.len(), 24);
    for (vertex, (position, normal)) in mesh.iter().zip(expected) {
        assert_eq!(vertex.position, position);
        assert_eq!(vertex.normal, normal);
    }
}

#[test]
fn cube_indices() {
    let expected: [u16; 36] = [
        0, 1, 2, 2, 3, 0, 4, 5, 6, 6, 7, 4, 8, 9, 10, 10, 11, 8, 12, 13, 14, 14, 15, 12, 16, 17, 18,
        18, 19, 16, 20, 21, 22, 22, 23, 20,
    ];
    assert_eq!(indices(), expected.to_vec());
}

#[test]
fn cube_triangles_wind_outward() {
    let mesh = vertices();
    let list = indices();
    assert_eq!(list.len() % 3, 0);
    for triangle in list.chunks(3) {
        let a = mesh[triangle[0] as usize];
        let b = mesh[triangle[1] as usize];
        let c = mesh[triangle[2] as usize];
        let u: Vec<i32> = (0..3).map(|k| (b.position[k] - a.position[k]) as i32).collect();
        let v: Vec<i32> = (0..3).map(|k| (c.position[k] - a.position[k]) as i32).collect();
        let cross =
            [u[1] * v[2] - u[2] * v[1], u[2] * v[0] - u[0] * v[2], u[0] * v[1] - u[1] * v[0]];
        for k in 0..3 {
            assert_eq!(cross[k], a.normal[k] as i32);
        }
        assert_eq!(a.normal, b.normal);
        assert_eq!(a.normal, c.normal);
    }
}
