//! The vertex layout shared with the shaders.

use vstd::prelude::*;

verus! {

/// Bytes between consecutive vertices: three two-component 32-bit float
/// attributes (position at offset 0, uv at 8, deform at 16).
pub const VERTEX_STRIDE: usize = 24;

/// IEEE-754 single-precision bit patterns of the constants used here.
pub const F32_ZERO: u32 = 0x0000_0000;
pub const F32_ONE: u32 = 0x3F80_0000;
pub const F32_MINUS_ONE: u32 = 0xBF80_0000;

/// One vertex as the vertex shader reads it. Each component is the
/// IEEE-754 bit pattern of a 32-bit float.
#[derive(Debug, Clone, Copy)]
pub struct Vertex {
    pub position: [u32; 2],
    pub uv: [u32; 2],
    pub deform: [u32; 2],
}

pub open spec fn vertex(position: [u32; 2], uv: [u32; 2], deform: [u32; 2]) -> Vertex {
    Vertex { position, uv, deform }
}

/// The full-screen quad (normalized device coordinates -1..1) on which
/// composite results are drawn: top-left, bottom-left, bottom-right,
/// top-right, with texture coordinates running top to bottom.
pub open spec fn composite_quad() -> Seq<Vertex> {
    seq![
        vertex([F32_MINUS_ONE, F32_ONE], [F32_ZERO, F32_ZERO], [F32_ZERO, F32_ZERO]),
        vertex([F32_MINUS_ONE, F32_MINUS_ONE], [F32_ZERO, F32_ONE], [F32_ZERO, F32_ZERO]),
        vertex([F32_ONE, F32_MINUS_ONE], [F32_ONE, F32_ONE], [F32_ZERO, F32_ZERO]),
        vertex([F32_ONE, F32_ONE], [F32_ONE, F32_ZERO], [F32_ZERO, F32_ZERO]),
    ]
}

/// The vertices of the composite quad.
pub fn composite_quad_vertices() -> (q: [Vertex; 4])
    ensures
        q@ == composite_quad(),
{
    let q = [
        Vertex { position: [F32_MINUS_ONE, F32_ONE], uv: [F32_ZERO, F32_ZERO], deform: [F32_ZERO, F32_ZERO] },
        Vertex { position: [F32_MINUS_ONE, F32_MINUS_ONE], uv: [F32_ZERO, F32_ONE], deform: [F32_ZERO, F32_ZERO] },
        Vertex { position: [F32_ONE, F32_MINUS_ONE], uv: [F32_ONE, F32_ONE], deform: [F32_ZERO, F32_ZERO] },
        Vertex { position: [F32_ONE, F32_ONE], uv: [F32_ONE, F32_ZERO], deform: [F32_ZERO, F32_ZERO] },
    ];
    assert(q@ == composite_quad());
    q
}

/// Formats of vertex attributes.
#[derive(Debug, Clone, Copy, PartialEq, Eq, Structural)]
pub enum VertexFormat {
    /// Two 32-bit floats.
    Float32x2,
}

/// Where one attribute lies in a vertex and which shader input reads it.
#[derive(Debug, Clone, Copy, PartialEq, Eq, Structural)]
pub struct VertexAttribute {
    pub offset: u64,
    pub shader_location: u32,
    pub format: VertexFormat,
}

/// The layout of the vertex buffer, advanced once per vertex.
#[derive(Debug, Clone, Copy, PartialEq, Eq, Structural)]
pub struct VertexLayout {
    pub array_stride: u64,
    pub position: VertexAttribute,
    pub uv: VertexAttribute,
    pub deform: VertexAttribute,
}

pub open spec fn attribute(offset: u64, shader_location: u32) -> VertexAttribute {
    VertexAttribute { offset, shader_location, format: VertexFormat::Float32x2 }
}

/// Position, uv and deform, each two floats, at offsets 0, 8 and 16 and
/// shader locations 0, 1 and 2, in vertices of 24 bytes.
pub open spec fn spec_vertex_layout() -> VertexLayout {
    VertexLayout {
        array_stride: VERTEX_STRIDE as u64,
        position: attribute(0, 0),
        uv: attribute(8, 1),
        deform: attribute(16, 2),
    }
}

/// The layout the vertex shader reads the vertex buffer with.
pub fn vertex_layout() -> (layout: VertexLayout)
    ensures
        layout == spec_vertex_layout(),
        layout.array_stride == 24,
        layout.position.offset == 0 && layout.position.shader_location == 0,
        layout.uv.offset == 8 && layout.uv.shader_location == 1,
        layout.deform.offset == 16 && layout.deform.shader_location == 2,
{
    let f = VertexFormat::Float32x2;
    VertexLayout {
        array_stride: 24,
        position: VertexAttribute { offset: 0, shader_location: 0, format: f },
        uv: VertexAttribute { offset: 8, shader_location: 1, format: f },
        deform: VertexAttribute { offset: 16, shader_location: 2, format: f },
    }
}

} // verus!
