//! Configuration of the three render pipelines.
//!
//! The renderer records every frame with three pipelines: one for the opaque
//! objects, one that accumulates the transparent objects into the weighted
//! OIT targets, and one that composites the accumulated result over the
//! opaque image. Their blend equations, depth policies, primitive topology
//! and vertex layout carry the whole transparency algorithm, and a wrong
//! value corrupts the output silently, so this module pins every one of
//! them down as a plain value with an exact contract. Unverified code only
//! translates these values into the GPU API's descriptors.

use vstd::prelude::*;

verus! {

/// A source or destination blend factor, as the GPU applies it to a
/// fragment's color or alpha before the blend operation combines the two.
#[derive(Clone, Copy, Debug, PartialEq, Eq, Structural)]
pub enum BlendFactor {
    /// The component is multiplied by zero.
    Zero,
    /// The component is taken as it is.
    One,
    /// The component is multiplied by the source color, component by
    /// component.
    OneMinusSrc,
    /// The component is multiplied by the source alpha.
    SrcAlpha,
    /// The component is multiplied by one minus the source alpha.
    OneMinusSrcAlpha,
}

/// How a blended component is combined. Every pass of this renderer adds
/// the two weighted terms; the variants exist to make that choice explicit
/// in the descriptors.
#[derive(Clone, Copy, Debug, PartialEq, Eq, Structural)]
pub enum BlendOperation {
    /// `result = src * src_factor + dst * dst_factor`.
    Add,
}

/// The blend equation of one channel group (color or alpha) of one color
/// target.
#[derive(Clone, Copy, Debug, PartialEq, Eq, Structural)]
pub struct BlendComponent {
    pub src_factor: BlendFactor,
    pub dst_factor: BlendFactor,
    pub operation: BlendOperation,
}

/// The full blend state of one color target: one equation for the color
/// channels and one for the alpha channel.
#[derive(Clone, Copy, Debug, PartialEq, Eq, Structural)]
pub struct BlendState {
    pub color: BlendComponent,
    pub alpha: BlendComponent,
}

/// The texture formats the renderer uses for its render targets.
#[derive(Clone, Copy, Debug, PartialEq, Eq, Structural)]
pub enum TargetFormat {
    /// The swap-surface format the frames are presented in.
    Bgra8Unorm,
    /// The high-precision accumulation target of the transparent pass.
    Rgba16Float,
    /// The single-channel revealage target of the transparent pass.
    R8Unorm,
    /// The depth buffer shared by all three passes.
    Depth32Float,
}

/// Which channels of a color target the pipeline writes. Every pass of
/// this renderer writes all of them; the revealage update in particular
/// must reach the stored value unmasked.
#[derive(Clone, Copy, Debug, PartialEq, Eq, Structural)]
pub enum ColorWriteMask {
    /// All color channels and the alpha channel are written.
    All,
}

/// One color target of a pipeline: its texture format, its blend state and
/// its write mask. `None` for the blend state writes the fragment output
/// unblended.
#[derive(Clone, Copy, Debug, PartialEq, Eq, Structural)]
pub struct ColorTargetDesc {
    pub format: TargetFormat,
    pub blend: Option<BlendState>,
    pub write_mask: ColorWriteMask,
}

/// The depth comparison a pipeline applies. Every pass of this renderer
/// keeps a fragment only where it is nearer than what the depth buffer
/// holds.
#[derive(Clone, Copy, Debug, PartialEq, Eq, Structural)]
pub enum CompareFunction {
    /// The fragment passes where its depth is less than the stored depth.
    Less,
}

/// The depth-stencil policy of one pipeline.
#[derive(Clone, Copy, Debug, PartialEq, Eq, Structural)]
pub struct DepthStencilDesc {
    pub format: TargetFormat,
    /// Whether fragments that pass the depth test write their depth back.
    pub depth_write_enabled: bool,
    pub depth_compare: CompareFunction,
}

/// How a pipeline assembles vertices into primitives. Every pipeline of
/// this renderer draws triangle strips: each object is one four-vertex
/// quad, and the composite pass draws one four-vertex full-screen quad.
#[derive(Clone, Copy, Debug, PartialEq, Eq, Structural)]
pub enum PrimitiveTopology {
    /// Each vertex after the second forms a triangle with its two
    /// predecessors.
    TriangleStrip,
}

/// How a vertex buffer advances between invocations of the vertex stage.
#[derive(Clone, Copy, Debug, PartialEq, Eq, Structural)]
pub enum VertexStepMode {
    /// One element per vertex.
    Vertex,
}

/// The data format of one vertex attribute.
#[derive(Clone, Copy, Debug, PartialEq, Eq, Structural)]
pub enum VertexAttributeFormat {
    /// Three 32-bit floats: a position in object space.
    Float32x3,
}

/// One attribute of a vertex buffer layout: its format, its byte offset
/// within a vertex, and the shader location it is bound to.
#[derive(Clone, Copy, Debug, PartialEq, Eq, Structural)]
pub struct VertexAttributeDesc {
    pub format: VertexAttributeFormat,
    pub offset: u64,
    pub shader_location: u32,
}

/// The layout of one vertex buffer: the byte stride from vertex to vertex,
/// the step mode, and the attributes read out of each element.
#[derive(Debug, PartialEq, Eq)]
pub struct VertexBufferDesc {
    pub array_stride: u64,
    pub step_mode: VertexStepMode,
    pub attributes: Vec<VertexAttributeDesc>,
}

/// The entry points the shared shader module exposes, consumed by name when
/// the pipelines are built.
#[derive(Clone, Copy, Debug, PartialEq, Eq, Structural)]
pub enum ShaderEntry {
    /// The vertex stage shared by the per-object draws.
    VsMain,
    /// The fragment stage of the opaque pass.
    FsOpaqueMain,
    /// The fragment stage of the transparent pass, with two weighted
    /// outputs.
    FsTransparentPass,
    /// The procedural vertex stage of the composite pass; it reads no
    /// vertex buffer.
    VsCompositePass,
    /// The fragment stage of the composite pass.
    FsCompositePass,
}

/// A complete pipeline description.
#[derive(Debug, PartialEq, Eq)]
pub struct PipelineDesc {
    pub vertex_entry: ShaderEntry,
    pub fragment_entry: ShaderEntry,
    pub topology: PrimitiveTopology,
    /// The one vertex buffer the pipeline reads — the shared quad mesh —
    /// or `None` for the composite pass, whose procedural vertex stage
    /// reads no buffer.
    pub vertex_buffer: Option<VertexBufferDesc>,
    pub depth: DepthStencilDesc,
    pub targets: Vec<ColorTargetDesc>,
}

/// The byte stride of one vertex of the shared quad mesh: three 32-bit
/// floats.
pub const QUAD_VERTEX_STRIDE: u64 = 12;

/// The fixed layout of the shared quad vertex buffer: per-vertex stepping
/// at a stride of [`QUAD_VERTEX_STRIDE`] bytes, with a single three-float
/// position attribute at byte offset zero, bound to shader location zero.
pub open spec fn quad_vertex_layout(b: VertexBufferDesc) -> bool {
    &&& b.array_stride == QUAD_VERTEX_STRIDE
    &&& b.step_mode == VertexStepMode::Vertex
    &&& b.attributes@ == seq![
        VertexAttributeDesc {
            format: VertexAttributeFormat::Float32x3,
            offset: 0,
            shader_location: 0,
        },
    ]
}

/// The additive blend equation `result = src + dst`, used by the
/// accumulation target so that every transparent fragment's weighted color
/// sums up.
pub open spec fn additive_blend() -> BlendComponent {
    BlendComponent {
        src_factor: BlendFactor::One,
        dst_factor: BlendFactor::One,
        operation: BlendOperation::Add,
    }
}

/// The multiplicative revealage update `result = dst * (1 - src)`, written
/// as `src * 0 + dst * (1 - src)`: each transparent fragment scales the
/// stored revealage down by one minus its own output.
pub open spec fn revealage_blend() -> BlendComponent {
    BlendComponent {
        src_factor: BlendFactor::Zero,
        dst_factor: BlendFactor::OneMinusSrc,
        operation: BlendOperation::Add,
    }
}

/// Standard straight-alpha compositing: `result = src * src_alpha + dst *
/// (1 - src_alpha)` for the color channels.
pub open spec fn alpha_blend_color() -> BlendComponent {
    BlendComponent {
        src_factor: BlendFactor::SrcAlpha,
        dst_factor: BlendFactor::OneMinusSrcAlpha,
        operation: BlendOperation::Add,
    }
}

/// The alpha channel of standard alpha compositing: `result = src + dst *
/// (1 - src_alpha)`.
pub open spec fn alpha_blend_alpha() -> BlendComponent {
    BlendComponent {
        src_factor: BlendFactor::One,
        dst_factor: BlendFactor::OneMinusSrcAlpha,
        operation: BlendOperation::Add,
    }
}

/// The shared depth policy of the opaque and composite passes: test against
/// the stored depth and write the passing fragment's depth back.
pub open spec fn depth_test_and_write() -> DepthStencilDesc {
    DepthStencilDesc {
        format: TargetFormat::Depth32Float,
        depth_write_enabled: true,
        depth_compare: CompareFunction::Less,
    }
}

/// The depth policy of the transparent pass: transparent fragments are
/// occluded by opaque geometry, but must not occlude each other, so the
/// test reads the buffer and nothing is written back.
pub open spec fn depth_test_read_only() -> DepthStencilDesc {
    DepthStencilDesc {
        format: TargetFormat::Depth32Float,
        depth_write_enabled: false,
        depth_compare: CompareFunction::Less,
    }
}

/// Builds the vertex buffer description of the shared quad mesh.
fn quad_vertex_buffer() -> (r: VertexBufferDesc)
    ensures
        quad_vertex_layout(r),
{
    let mut attributes: Vec<VertexAttributeDesc> = Vec::new();
    attributes.push(VertexAttributeDesc {
        format: VertexAttributeFormat::Float32x3,
        offset: 0,
        shader_location: 0,
    });
    proof {
        assert(attributes@ =~= seq![
            VertexAttributeDesc {
                format: VertexAttributeFormat::Float32x3,
                offset: 0,
                shader_location: 0,
            },
        ]);
    }
    VertexBufferDesc {
        array_stride: QUAD_VERTEX_STRIDE,
        step_mode: VertexStepMode::Vertex,
        attributes,
    }
}

/// Builds the description of the opaque pipeline: triangle strips from the
/// shared quad buffer, one unblended swap-surface target with all channels
/// written, depth tested and written.
pub fn opaque_pipeline_desc() -> (r: PipelineDesc)
    ensures
        r.vertex_entry == ShaderEntry::VsMain,
        r.fragment_entry == ShaderEntry::FsOpaqueMain,
        r.topology == PrimitiveTopology::TriangleStrip,
        r.vertex_buffer matches Some(b) && quad_vertex_layout(b),
        r.depth == depth_test_and_write(),
        r.targets@.len() == 1,
        r.targets@[0] == (ColorTargetDesc {
            format: TargetFormat::Bgra8Unorm,
            blend: None,
            write_mask: ColorWriteMask::All,
        }),
{
    let mut targets: Vec<ColorTargetDesc> = Vec::new();
    targets.push(ColorTargetDesc {
        format: TargetFormat::Bgra8Unorm,
        blend: None,
        write_mask: ColorWriteMask::All,
    });
    PipelineDesc {
        vertex_entry: ShaderEntry::VsMain,
        fragment_entry: ShaderEntry::FsOpaqueMain,
        topology: PrimitiveTopology::TriangleStrip,
        vertex_buffer: Some(quad_vertex_buffer()),
        depth: DepthStencilDesc {
            format: TargetFormat::Depth32Float,
            depth_write_enabled: true,
            depth_compare: CompareFunction::Less,
        },
        targets,
    }
}

/// Builds the description of the transparent-accumulation pipeline:
/// triangle strips from the shared quad buffer; target zero accumulates
/// weighted color additively and target one multiplies the revealage down,
/// both with all channels written; the depth buffer is read but never
/// written.
pub fn transparent_pipeline_desc() -> (r: PipelineDesc)
    ensures
        r.vertex_entry == ShaderEntry::VsMain,
        r.fragment_entry == ShaderEntry::FsTransparentPass,
        r.topology == PrimitiveTopology::TriangleStrip,
        r.vertex_buffer matches Some(b) && quad_vertex_layout(b),
        r.depth == depth_test_read_only(),
        !r.depth.depth_write_enabled,
        r.targets@.len() == 2,
        r.targets@[0] == (ColorTargetDesc {
            format: TargetFormat::Rgba16Float,
            blend: Some(BlendState { color: additive_blend(), alpha: additive_blend() }),
            write_mask: ColorWriteMask::All,
        }),
        r.targets@[1] == (ColorTargetDesc {
            format: TargetFormat::R8Unorm,
            blend: Some(BlendState { color: revealage_blend(), alpha: revealage_blend() }),
            write_mask: ColorWriteMask::All,
        }),
{
    let additive = BlendComponent {
        src_factor: BlendFactor::One,
        dst_factor: BlendFactor::One,
        operation: BlendOperation::Add,
    };
    let revealage = BlendComponent {
        src_factor: BlendFactor::Zero,
        dst_factor: BlendFactor::OneMinusSrc,
        operation: BlendOperation::Add,
    };
    let mut targets: Vec<ColorTargetDesc> = Vec::new();
    targets.push(ColorTargetDesc {
        format: TargetFormat::Rgba16Float,
        blend: Some(BlendState { color: additive, alpha: additive }),
        write_mask: ColorWriteMask::All,
    });
    targets.push(ColorTargetDesc {
        format: TargetFormat::R8Unorm,
        blend: Some(BlendState { color: revealage, alpha: revealage }),
        write_mask: ColorWriteMask::All,
    });
    PipelineDesc {
        vertex_entry: ShaderEntry::VsMain,
        fragment_entry: ShaderEntry::FsTransparentPass,
        topology: PrimitiveTopology::TriangleStrip,
        vertex_buffer: Some(quad_vertex_buffer()),
        depth: DepthStencilDesc {
            format: TargetFormat::Depth32Float,
            depth_write_enabled: false,
            depth_compare: CompareFunction::Less,
        },
        targets,
    }
}

/// Builds the description of the composite pipeline: a triangle strip with
/// no vertex buffer — the vertex stage generates the full-screen quad
/// itself — and one swap-surface target under standard alpha blending with
/// all channels written, depth tested and written.
pub fn composite_pipeline_desc() -> (r: PipelineDesc)
    ensures
        r.vertex_entry == ShaderEntry::VsCompositePass,
        r.fragment_entry == ShaderEntry::FsCompositePass,
        r.topology == PrimitiveTopology::TriangleStrip,
        r.vertex_buffer is None,
        r.depth == depth_test_and_write(),
        r.targets@.len() == 1,
        r.targets@[0] == (ColorTargetDesc {
            format: TargetFormat::Bgra8Unorm,
            blend: Some(BlendState { color: alpha_blend_color(), alpha: alpha_blend_alpha() }),
            write_mask: ColorWriteMask::All,
        }),
{
    let mut targets: Vec<ColorTargetDesc> = Vec::new();
    targets.push(ColorTargetDesc {
        format: TargetFormat::Bgra8Unorm,
        blend: Some(BlendState {
            color: BlendComponent {
                src_factor: BlendFactor::SrcAlpha,
                dst_factor: BlendFactor::OneMinusSrcAlpha,
                operation: BlendOperation::Add,
            },
            alpha: BlendComponent {
                src_factor: BlendFactor::One,
                dst_factor: BlendFactor::OneMinusSrcAlpha,
                operation: BlendOperation::Add,
            },
        }),
        write_mask: ColorWriteMask::All,
    });
    PipelineDesc {
        vertex_entry: ShaderEntry::VsCompositePass,
        fragment_entry: ShaderEntry::FsCompositePass,
        topology: PrimitiveTopology::TriangleStrip,
        vertex_buffer: None,
        depth: DepthStencilDesc {
            format: TargetFormat::Depth32Float,
            depth_write_enabled: true,
            depth_compare: CompareFunction::Less,
        },
        targets,
    }
}

/// The name under which the shader module exposes an entry point.
pub fn entry_point_name(e: ShaderEntry) -> (r: &'static str)
    ensures
        e == ShaderEntry::VsMain ==> r@ == "vs_main"@,
        e == ShaderEntry::FsOpaqueMain ==> r@ == "fs_opaque_main"@,
        e == ShaderEntry::FsTransparentPass ==> r@ == "fs_transparent_pass"@,
        e == ShaderEntry::VsCompositePass ==> r@ == "vs_composite_pass"@,
        e == ShaderEntry::FsCompositePass ==> r@ == "fs_composite_pass"@,
{
    match e {
        ShaderEntry::VsMain => "vs_main",
        ShaderEntry::FsOpaqueMain => "fs_opaque_main",
        ShaderEntry::FsTransparentPass => "fs_transparent_pass",
        ShaderEntry::VsCompositePass => "vs_composite_pass",
        ShaderEntry::FsCompositePass => "fs_composite_pass",
    }
}

} // verus!
