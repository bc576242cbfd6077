//! Vertex buffer layouts: the format of each vertex attribute, whether a
//! buffer advances per vertex or per instance, and the layouts of the
//! engine's built-in vertex types.

use vstd::prelude::*;

verus! {

/// Format of a single vertex attribute, with wgpu's variant names.
#[allow(non_camel_case_types)]
#[derive(Copy, Clone, Debug, PartialEq, Eq, Hash, Structural)]
pub enum VertexFormat {
    Uint8,
    Uint8x2,
    Uint8x4,
    Sint8,
    Sint8x2,
    Sint8x4,
    Unorm8,
    Unorm8x2,
    Unorm8x4,
    Snorm8,
    Snorm8x2,
    Snorm8x4,
    Uint16,
    Uint16x2,
    Uint16x4,
    Sint16,
    Sint16x2,
    Sint16x4,
    Unorm16,
    Unorm16x2,
    Unorm16x4,
    Snorm16,
    Snorm16x2,
    Snorm16x4,
    Float16,
    Float16x2,
    Float16x4,
    Float32,
    Float32x2,
    Float32x3,
    Float32x4,
    Uint32,
    Uint32x2,
    Uint32x3,
    Uint32x4,
    Sint32,
    Sint32x2,
    Sint32x3,
    Sint32x4,
    Float64,
    Float64x2,
    Float64x3,
    Float64x4,
    Unorm10_10_10_2,
    Unorm8x4Bgra,
}

/// Whether a vertex buffer is indexed by vertex or by instance.
#[derive(Copy, Clone, Debug, PartialEq, Eq, Hash, Structural)]
pub enum VertexStepMode {
    Vertex,
    Instance,
}

/// One vertex attribute within a [`VertexBufferLayout`].
#[derive(Copy, Clone, Debug, PartialEq, Eq, Hash, Structural)]
pub struct VertexAttribute {
    pub format: VertexFormat,
    pub offset: u64,
    pub shader_location: u32,
}

/// Layout of one vertex buffer: the byte stride between consecutive
/// elements, the step mode, and the attributes it owns.
#[derive(Clone, Debug, PartialEq)]
pub struct VertexBufferLayout {
    pub array_stride: u64,
    pub step_mode: VertexStepMode,
    pub attributes: Vec<VertexAttribute>,
}

/// `(format, offset, shader location)` of each attribute of a layout, in order.
pub open spec fn attribute_triples(attributes: Seq<VertexAttribute>) -> Seq<(VertexFormat, u64, u32)> {
    attributes.map_values(|a: VertexAttribute| (a.format, a.offset, a.shader_location))
}

fn attribute(format: VertexFormat, offset: u64, shader_location: u32) -> (r: VertexAttribute)
    ensures r == (VertexAttribute { format, offset, shader_location }),
{
    VertexAttribute { format, offset, shader_location }
}

/// Layout of the built-in static-mesh vertex: position (`Float32x3`), texture
/// coordinates (`Float32x2`), normal (`Float32x3`) and tangent (`Float32x4`),
/// packed into 48 bytes, at shader locations 0 to 3.
pub fn vertex_layout() -> (r: VertexBufferLayout)
    ensures
        r.array_stride == 48,
        r.step_mode == VertexStepMode::Vertex,
        attribute_triples(r.attributes@) == seq![
            (VertexFormat::Float32x3, 0u64, 0u32),
            (VertexFormat::Float32x2, 12u64, 1u32),
            (VertexFormat::Float32x3, 20u64, 2u32),
            (VertexFormat::Float32x4, 32u64, 3u32),
        ],
{
    let mut attributes = Vec::new();
    attributes.push(attribute(VertexFormat::Float32x3, 0, 0));
    attributes.push(attribute(VertexFormat::Float32x2, 12, 1));
    attributes.push(attribute(VertexFormat::Float32x3, 20, 2));
    attributes.push(attribute(VertexFormat::Float32x4, 32, 3));
    let r = VertexBufferLayout { array_stride: 48, step_mode: VertexStepMode::Vertex, attributes };
    assert(attribute_triples(r.attributes@) =~= seq![
        (VertexFormat::Float32x3, 0u64, 0u32),
        (VertexFormat::Float32x2, 12u64, 1u32),
        (VertexFormat::Float32x3, 20u64, 2u32),
        (VertexFormat::Float32x4, 32u64, 3u32),
    ]);
    r
}

/// Layout of the built-in per-instance model matrix: four `Float32x4`
/// columns in 64 bytes, at shader locations 4 to 7, stepped per instance.
pub fn instance_vertex_layout() -> (r: VertexBufferLayout)
    ensures
        r.array_stride == 64,
        r.step_mode == VertexStepMode::Instance,
        attribute_triples(r.attributes@) == seq![
            (VertexFormat::Float32x4, 0u64, 4u32),
            (VertexFormat::Float32x4, 16u64, 5u32),
            (VertexFormat::Float32x4, 32u64, 6u32),
            (VertexFormat::Float32x4, 48u64, 7u32),
        ],
{
    let mut attributes = Vec::new();
    attributes.push(attribute(VertexFormat::Float32x4, 0, 4));
    attributes.push(attribute(VertexFormat::Float32x4, 16, 5));
    attributes.push(attribute(VertexFormat::Float32x4, 32, 6));
    attributes.push(attribute(VertexFormat::Float32x4, 48, 7));
    let r = VertexBufferLayout { array_stride: 64, step_mode: VertexStepMode::Instance, attributes };
    assert(attribute_triples(r.attributes@) =~= seq![
        (VertexFormat::Float32x4, 0u64, 4u32),
        (VertexFormat::Float32x4, 16u64, 5u32),
        (VertexFormat::Float32x4, 32u64, 6u32),
        (VertexFormat::Float32x4, 48u64, 7u32),
    ]);
    r
}

/// Layout of the built-in skinned vertex: the static-mesh attributes, then
/// four joint indices (`Uint16x4` at byte 48, location 8) and four joint
/// weights (`Float32x4` at byte 56, location 9), padded to 80 bytes.
pub fn skinned_vertex_layout() -> (r: VertexBufferLayout)
    ensures
        r.array_stride == 80,
        r.step_mode == VertexStepMode::Vertex,
        attribute_triples(r.attributes@) == seq![
            (VertexFormat::Float32x3, 0u64, 0u32),
            (VertexFormat::Float32x2, 12u64, 1u32),
            (VertexFormat::Float32x3, 20u64, 2u32),
            (VertexFormat::Float32x4, 32u64, 3u32),
            (VertexFormat::Uint16x4, 48u64, 8u32),
            (VertexFormat::Float32x4, 56u64, 9u32),
        ],
{
    let mut attributes = Vec::new();
    attributes.push(attribute(VertexFormat::Float32x3, 0, 0));
    attributes.push(attribute(VertexFormat::Float32x2, 12, 1));
    attributes.push(attribute(VertexFormat::Float32x3, 20, 2));
    attributes.push(attribute(VertexFormat::Float32x4, 32, 3));
    attributes.push(attribute(VertexFormat::Uint16x4, 48, 8));
    attributes.push(attribute(VertexFormat::Float32x4, 56, 9));
    let r = VertexBufferLayout { array_stride: 80, step_mode: VertexStepMode::Vertex, attributes };
    assert(attribute_triples(r.attributes@) =~= seq![
        (VertexFormat::Float32x3, 0u64, 0u32),
        (VertexFormat::Float32x2, 12u64, 1u32),
        (VertexFormat::Float32x3, 20u64, 2u32),
        (VertexFormat::Float32x4, 32u64, 3u32),
        (VertexFormat::Uint16x4, 48u64, 8u32),
        (VertexFormat::Float32x4, 56u64, 9u32),
    ]);
    r
}

} // verus!
