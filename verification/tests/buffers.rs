use inox2d_wgpu::buffers::{grown_capacity, BufferManager, INITIAL_INDEX_CAPACITY, INITIAL_VERTEX_CAPACITY};
use inox2d_wgpu::vertex::{vertex_layout, VertexAttribute, VertexFormat, F32_MINUS_ONE, F32_ONE, F32_ZERO};

fn bits(x: f32) -> u32 {
    x.to_bits()
}

#[test]
fn new_manager_has_initial_capacities() {
    let m = BufferManager::new();
    assert_eq!(m.vertex_capacity(), INITIAL_VERTEX_CAPACITY);
    assert_eq!(m.index_capacity(), INITIAL_INDEX_CAPACITY);
    assert_eq!(m.vertex_count(), 0);
    assert_eq!(m.index_count(), 0);
    assert_eq!(m.composite_index_offset(), 0);
    assert_eq!(m.composite_index_count(), 0);
    assert!(m.vertex_staging().is_empty());
}

#[test]
fn float_constants_are_their_bit_patterns() {
    assert_eq!(F32_ONE, bits(1.0));
    assert_eq!(F32_MINUS_ONE, bits(-1.0));
    assert_eq!(F32_ZERO, bits(0.0));
}

#[test]
fn vertices_are_interleaved_and_followed_by_the_composite_quad() {
    let mut m = BufferManager::new();
    let verts = [[bits(1.0), bits(2.0)], [bits(3.0), bits(4.0)]];
    let uvs = [[bits(0.25), bits(0.5)], [bits(0.75), bits(1.0)]];
    let deforms = [[bits(0.0), bits(0.0)], [bits(-1.5), bits(2.5)]];
    m.update(&verts, &uvs, &deforms, &[0, 1, 1]);
    let v = m.vertex_staging();
    assert_eq!(v.len(), 6);
    assert_eq!(v[1].position, verts[1]);
    assert_eq!(v[1].uv, uvs[1]);
    assert_eq!(v[1].deform, deforms[1]);
    assert_eq!(v[2].position, [bits(-1.0), bits(1.0)]);
    assert_eq!(v[2].uv, [bits(0.0), bits(0.0)]);
    assert_eq!(v[3].position, [bits(-1.0), bits(-1.0)]);
    assert_eq!(v[3].uv, [bits(0.0), bits(1.0)]);
    assert_eq!(v[4].position, [bits(1.0), bits(-1.0)]);
    assert_eq!(v[4].uv, [bits(1.0), bits(1.0)]);
    assert_eq!(v[5].position, [bits(1.0), bits(1.0)]);
    assert_eq!(v[5].uv, [bits(1.0), bits(0.0)]);
    assert_eq!(v[5].deform, [0, 0]);
    assert_eq!(m.vertex_count(), 2);
}

#[test]
fn odd_index_counts_are_padded_to_four_bytes() {
    let mut m = BufferManager::new();
    let verts = [[0, 0]; 3];
    m.update(&verts, &verts, &verts, &[0, 1, 2]);
    assert_eq!(m.index_staging(), &[0, 1, 2, 0, 3, 4, 5, 3, 5, 6]);
    assert_eq!(m.index_count(), 3);
    assert_eq!(m.composite_index_offset(), 4);
    assert_eq!(m.composite_index_count(), 6);
    assert_eq!((m.index_staging().len() * 2) % 4, 0);
}

#[test]
fn even_index_counts_need_no_padding() {
    let mut m = BufferManager::new();
    let verts = [[0, 0]; 4];
    m.update(&verts, &verts, &verts, &[0, 1, 2, 2, 3, 0]);
    assert_eq!(m.index_staging(), &[0, 1, 2, 2, 3, 0, 4, 5, 6, 4, 6, 7]);
    assert_eq!(m.composite_index_offset(), 6);
}

#[test]
fn empty_mesh_still_holds_the_composite_quad() {
    let mut m = BufferManager::new();
    let r = m.update(&[], &[], &[], &[]);
    assert_eq!(m.index_staging(), &[0, 1, 2, 0, 2, 3]);
    assert_eq!(m.vertex_staging().len(), 4);
    assert_eq!(m.composite_index_offset(), 0);
    assert!(r.vertex_capacity.is_none());
    assert!(r.index_capacity.is_none());
}

#[test]
fn longer_uv_and_deform_lists_are_ignored_beyond_the_vertices() {
    let mut m = BufferManager::new();
    let verts = [[1, 1]];
    let extra = [[2, 2], [3, 3]];
    m.update(&verts, &extra, &extra, &[]);
    assert_eq!(m.vertex_staging().len(), 5);
    assert_eq!(m.vertex_staging()[0].uv, [2, 2]);
}

#[test]
fn buffers_grow_when_outgrown() {
    let mut m = BufferManager::new();
    // 2727 vertices + 4 = 2731 * 24 = 65544 bytes > 65536.
    let verts = vec![[0u32, 0u32]; 2727];
    let indices = vec![0u16; 8192];
    let r = m.update(&verts, &verts, &verts, &indices);
    assert_eq!(r.vertex_capacity, Some(131072));
    assert_eq!(m.vertex_capacity(), 131072);
    // 8192 + 6 indices = 16396 bytes > 16384: grows to twice the capacity.
    assert_eq!(r.index_capacity, Some(32768));
    let r2 = m.update(&verts, &verts, &verts, &indices);
    assert!(r2.vertex_capacity.is_none());
    assert!(r2.index_capacity.is_none());
}

#[test]
fn growth_takes_the_larger_of_target_and_double() {
    assert_eq!(grown_capacity(100, 60), 120);
    assert_eq!(grown_capacity(500, 60), 500);
    assert_eq!(grown_capacity(1, 0), 1);
}

#[test]
fn vertex_layout_matches_the_vertex_shader() {
    let l = vertex_layout();
    assert_eq!(l.array_stride, 24);
    assert_eq!(l.position, VertexAttribute { offset: 0, shader_location: 0, format: VertexFormat::Float32x2 });
    assert_eq!(l.uv, VertexAttribute { offset: 8, shader_location: 1, format: VertexFormat::Float32x2 });
    assert_eq!(l.deform, VertexAttribute { offset: 16, shader_location: 2, format: VertexFormat::Float32x2 });
}
