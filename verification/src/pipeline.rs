//! The render pipeline's fixed-function state and vertex-input layout.
//!
//! The pipeline is an immutable bundle built once at construction: triangle
//! list topology, counter-clockwise winding, back-face culling, solid fill,
//! replace blending, the surface's colour format as the single colour
//! target, no depth/stencil, one sample. The vertex input declares one
//! buffer of tightly packed vertices: two three-component float attributes,
//! position at offset 0 and colour at offset 12, 24 bytes apart.

use vstd::prelude::*;
use crate::surface::TextureFormat;
use crate::vertex::VERTEX_STRIDE;

verus! {

/// How the vertex stream is assembled into primitives.
#[derive(Clone, Copy, Debug, PartialEq, Eq, Structural)]
pub enum PrimitiveTopology {
    PointList,
    LineList,
    LineStrip,
    TriangleList,
    TriangleStrip,
}

/// Which winding order makes a triangle front-facing.
#[derive(Clone, Copy, Debug, PartialEq, Eq, Structural)]
pub enum FrontFace {
    /// Counter-clockwise triangles face the viewer.
    Ccw,
    /// Clockwise triangles face the viewer.
    Cw,
}

/// Which triangles the rasterizer discards.
#[derive(Clone, Copy, Debug, PartialEq, Eq, Structural)]
pub enum CullMode {
    /// Nothing is culled.
    Off,
    /// Front-facing triangles are discarded.
    Front,
    /// Back-facing triangles are discarded.
    Back,
}

/// How primitives are filled.
#[derive(Clone, Copy, Debug, PartialEq, Eq, Structural)]
pub enum PolygonMode {
    /// Solid interiors.
    Fill,
    /// Edges only.
    Line,
    /// Vertices only.
    Point,
}

/// How a fragment's colour is combined with the colour already in the
/// target.
#[derive(Clone, Copy, Debug, PartialEq, Eq, Structural)]
pub enum BlendMode {
    /// The fragment replaces the target value outright.
    Replace,
    /// The fragment is mixed in by its alpha.
    AlphaBlending,
}

/// The in-memory shape of one vertex attribute.
#[derive(Clone, Copy, Debug, PartialEq, Eq, Structural)]
pub enum VertexFormat {
    Float32x2,
    Float32x3,
    Float32x4,
}

/// One attribute of the vertex buffer, as the shader sees it.
#[derive(Clone, Copy, Debug, PartialEq, Eq, Structural)]
pub struct VertexAttribute {
    /// The shader input slot the attribute feeds.
    pub shader_location: u32,
    /// Byte offset of the attribute inside one vertex.
    pub offset: u32,
    /// Component count and width of the attribute.
    pub format: VertexFormat,
}

/// The layout of the bound vertex buffer: stride between vertices and the
/// attributes inside each.
#[derive(Clone, Debug)]
pub struct VertexLayout {
    pub stride: u32,
    pub attributes: Vec<VertexAttribute>,
}

/// The two attributes of the packed vertex: position at offset 0, colour at
/// offset 12, both three 32-bit floats.
pub open spec fn fixed_attributes() -> Seq<VertexAttribute> {
    seq![
        VertexAttribute { shader_location: 0, offset: 0, format: VertexFormat::Float32x3 },
        VertexAttribute { shader_location: 1, offset: 12, format: VertexFormat::Float32x3 },
    ]
}

impl VertexLayout {
    /// The layout matching the packed triangle vertices: 24-byte stride and
    /// the two fixed attributes.
    pub open spec fn wf(self) -> bool {
        self.stride == VERTEX_STRIDE && self.attributes@ == fixed_attributes()
    }

    /// Builds the vertex-input layout for the packed vertex buffer.
    pub fn new() -> (l: VertexLayout)
        ensures
            l.wf(),
    {
        let mut attributes: Vec<VertexAttribute> = Vec::new();
        attributes.push(VertexAttribute {
            shader_location: 0,
            offset: 0,
            format: VertexFormat::Float32x3,
        });
        attributes.push(VertexAttribute {
            shader_location: 1,
            offset: 12,
            format: VertexFormat::Float32x3,
        });
        proof {
            assert(attributes@ =~= fixed_attributes());
        }
        VertexLayout { stride: VERTEX_STRIDE, attributes }
    }
}

/// The fixed-function state of the render pipeline. All fields are set once
/// at construction and never mutated.
#[derive(Clone, Copy, Debug, PartialEq, Eq, Structural)]
pub struct PipelineConfig {
    pub topology: PrimitiveTopology,
    pub front_face: FrontFace,
    pub cull_mode: CullMode,
    pub polygon_mode: PolygonMode,
    pub unclipped_depth: bool,
    pub conservative: bool,
    pub blend: BlendMode,
    pub write_all_channels: bool,
    pub target_format: TextureFormat,
    pub depth_stencil: bool,
    pub sample_count: u32,
    pub all_samples: bool,
    pub alpha_to_coverage: bool,
}

/// The one pipeline this engine builds, targeting the given surface format:
/// triangle list, counter-clockwise front faces, back-face culling, solid
/// fill, replace blending, all channels written, no depth/stencil, a single
/// sample with every sample bit enabled.
pub open spec fn fixed_pipeline(format: TextureFormat) -> PipelineConfig {
    PipelineConfig {
        topology: PrimitiveTopology::TriangleList,
        front_face: FrontFace::Ccw,
        cull_mode: CullMode::Back,
        polygon_mode: PolygonMode::Fill,
        unclipped_depth: false,
        conservative: false,
        blend: BlendMode::Replace,
        write_all_channels: true,
        target_format: format,
        depth_stencil: false,
        sample_count: 1,
        all_samples: true,
        alpha_to_coverage: false,
    }
}

impl PipelineConfig {
    /// Builds the fixed-function state for a colour target of the given
    /// format. The result is a pure function of the format: construction is
    /// deterministic.
    pub fn new(format: TextureFormat) -> (c: PipelineConfig)
        ensures
            c == fixed_pipeline(format),
    {
        PipelineConfig {
            topology: PrimitiveTopology::TriangleList,
            front_face: FrontFace::Ccw,
            cull_mode: CullMode::Back,
            polygon_mode: PolygonMode::Fill,
            unclipped_depth: false,
            conservative: false,
            blend: BlendMode::Replace,
            write_all_channels: true,
            target_format: format,
            depth_stencil: false,
            sample_count: 1,
            all_samples: true,
            alpha_to_coverage: false,
        }
    }
}

/// Name of the vertex-stage entry point in the shader program.
pub fn vertex_entry_point() -> (s: String)
    ensures
        s@ == "vert_main"@,
{
    String::from_str("vert_main")
}

/// Name of the fragment-stage entry point in the shader program.
pub fn fragment_entry_point() -> (s: String)
    ensures
        s@ == "frag_main"@,
{
    String::from_str("frag_main")
}

} // verus!
