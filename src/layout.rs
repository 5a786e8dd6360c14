use vstd::prelude::*;
use crate::loader::VERTEX_STRIDE;

verus! {

/// The formats of vertex attributes used here.
#[derive(Clone, Copy, Debug, PartialEq, Eq, Structural)]
pub enum VertexFormat {
    /// Two 32-bit floats.
    Float32x2,
    /// Three 32-bit floats.
    Float32x3,
}

pub open spec fn format_size(f: VertexFormat) -> nat {
    match f {
        VertexFormat::Float32x2 => 8,
        VertexFormat::Float32x3 => 12,
    }
}

/// One attribute of a vertex: where it starts in the vertex, which shader
/// input it feeds and its format.
#[derive(Clone, Copy, Debug, PartialEq, Eq, Structural)]
pub struct VertexAttribute {
    pub offset: u64,
    pub shader_location: u32,
    pub format: VertexFormat,
}

/// How vertex data is read: one vertex every `array_stride` bytes, stepping per vertex.
pub struct VertexLayout {
    pub array_stride: u64,
    pub attributes: Vec<VertexAttribute>,
}

/// The vertex layout the pipeline is built with: the position (three floats) at
/// location 0, then the texture coordinates (two floats) at location 1.
pub open spec fn vertex_attributes() -> Seq<VertexAttribute> {
    seq![
        VertexAttribute { offset: 0, shader_location: 0, format: VertexFormat::Float32x3 },
        VertexAttribute { offset: 12, shader_location: 1, format: VertexFormat::Float32x2 },
    ]
}

pub fn vertex_layout() -> (r: VertexLayout)
    ensures
        r.array_stride == VERTEX_STRIDE,
        r.attributes@ == vertex_attributes(),
        // attributes are packed back to back and fill the stride exactly
        forall|k: int|
            0 <= k < r.attributes@.len() - 1 ==> #[trigger] r.attributes@[k].offset + format_size(
                r.attributes@[k].format,
            ) == r.attributes@[k + 1].offset,
        r.attributes@.last().offset + format_size(r.attributes@.last().format) == r.array_stride,
{
    let attributes = vec![
        VertexAttribute { offset: 0, shader_location: 0, format: VertexFormat::Float32x3 },
        VertexAttribute { offset: 12, shader_location: 1, format: VertexFormat::Float32x2 },
    ];
    let r = VertexLayout { array_stride: VERTEX_STRIDE, attributes };
    assert(r.attributes@ == vertex_attributes());
    r
}

} // verus!
