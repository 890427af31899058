//! The plan of the three render passes recorded every frame.
//!
//! Each frame is recorded as three passes in a fixed order: the opaque
//! pass draws the opaque objects into the swap surface and fills the depth
//! buffer; the transparent pass accumulates the transparent objects into
//! the OIT targets against the read-only depth of the opaque pass; the
//! composite pass lays the accumulated transparency over the opaque image.
//! [`frame_plan`] builds that recording as a plain value with an exact
//! contract — pass order, attachments, load operations, bindings and the
//! scene-order draw list — and the unverified frame loop only translates
//! it into GPU commands.

use vstd::prelude::*;

verus! {

/// Which texture a color attachment of a pass draws into.
#[derive(Clone, Copy, Debug, PartialEq, Eq, Structural)]
pub enum AttachmentTarget {
    /// The acquired swap-surface texture of this frame.
    Frame,
    /// The accumulation target of the OIT resources.
    Accum,
    /// The revealage target of the OIT resources.
    Reveal,
}

/// How a color attachment starts the pass.
#[derive(Clone, Copy, Debug, PartialEq, Eq, Structural)]
pub enum ColorLoad {
    /// Clear to opaque black, all color channels zero and alpha one.
    ClearBlack,
    /// Clear to transparent black, all four channels zero: the neutral
    /// element of the additive accumulation.
    ClearTransparent,
    /// Clear to white, all four channels one: full revealage, nothing
    /// drawn over the background yet.
    ClearWhite,
    /// Keep what the previous pass stored.
    Load,
}

/// How the depth attachment starts the pass.
#[derive(Clone, Copy, Debug, PartialEq, Eq, Structural)]
pub enum DepthLoad {
    /// Clear to the farthest depth, so the first pass sees an empty
    /// scene.
    ClearFarthest,
    /// Keep the depth the previous pass stored.
    Load,
}

/// Which pipeline the pass runs with; the three are described exactly in
/// [`crate::pipeline`].
#[derive(Clone, Copy, Debug, PartialEq, Eq, Structural)]
pub enum PassPipeline {
    Opaque,
    Transparent,
    Composite,
}

/// Which bind group sits at slot zero for the whole pass.
#[derive(Clone, Copy, Debug, PartialEq, Eq, Structural)]
pub enum PassBinding {
    /// The camera's uniform bind group; each draw then binds its object's
    /// bind group at slot one.
    Camera,
    /// The accumulation/revealage bind group of the composite pass.
    OitTargets,
}

/// One draw call of a pass.
#[derive(Clone, Copy, Debug, PartialEq, Eq, Structural)]
pub enum DrawCall {
    /// Bind the object with this index in the pass's object list at slot
    /// one and draw its four-vertex quad.
    Object { index: usize },
    /// Draw the full-screen quad of the composite pass, with no object
    /// binding and no vertex buffer.
    FullScreen,
}

/// One render pass of the frame.
#[derive(Debug, PartialEq, Eq)]
pub struct PassPlan {
    pub pipeline: PassPipeline,
    /// The color attachments in binding order, each with its target and
    /// its load operation. Everything drawn is always stored.
    pub color_attachments: Vec<(AttachmentTarget, ColorLoad)>,
    pub depth_load: DepthLoad,
    pub binding: PassBinding,
    /// How many vertices each draw of this pass issues, starting at
    /// vertex zero, as one instance of the pipeline's triangle strip.
    pub vertices_per_draw: u32,
    /// Whether the draws read an index buffer. No pass of this renderer
    /// does: every quad is drawn directly from its four strip vertices.
    pub indexed: bool,
    pub draws: Vec<DrawCall>,
}

/// The vertex count of every draw: one quad as a four-vertex triangle
/// strip, for the objects and for the composite full-screen pass alike.
pub const QUAD_VERTEX_COUNT: u32 = 4;

/// The draws of an object pass: the objects in caller-supplied scene
/// order, one after the other, with nothing sorted, skipped or repeated.
pub open spec fn scene_order_draws(count: usize) -> Seq<DrawCall> {
    Seq::new(count as nat, |i: int| DrawCall::Object { index: i as usize })
}

/// Builds the draw list of one object pass: every object of the list, in
/// the list's order.
fn object_draws(count: usize) -> (r: Vec<DrawCall>)
    ensures
        r@ == scene_order_draws(count),
{
    let mut draws: Vec<DrawCall> = Vec::new();
    let mut i: usize = 0;
    while i < count
        invariant
            i <= count,
            draws@ == scene_order_draws(count).take(i as int),
        decreases count - i,
    {
        draws.push(DrawCall::Object { index: i });
        proof {
            assert(scene_order_draws(count).take(i as int).push(
                DrawCall::Object { index: i },
            ) =~= scene_order_draws(count).take(i + 1));
        }
        i = i + 1;
    }
    proof {
        assert(scene_order_draws(count).take(count as int) =~= scene_order_draws(count));
    }
    draws
}

/// Builds the recording of one frame over `opaque_count` opaque and
/// `transparent_count` transparent objects: exactly three passes, in the
/// order opaque, transparent, composite, with
/// - the opaque pass clearing the frame to black and the depth buffer to
///   the farthest value, then drawing every opaque object in scene order;
/// - the transparent pass clearing the accumulation target to transparent
///   black and the revealage target to white, keeping the opaque depth,
///   and drawing every transparent object in scene order;
/// - the composite pass keeping both the frame and the depth buffer and
///   drawing one full-screen quad through the OIT bind group.
/// Every draw of every pass issues four vertices — one triangle-strip
/// quad — without an index buffer.
pub fn frame_plan(opaque_count: usize, transparent_count: usize) -> (r: Vec<PassPlan>)
    ensures
        r@.len() == 3,
        forall|i: int| 0 <= i < 3 ==> (#[trigger] r@[i]).vertices_per_draw == QUAD_VERTEX_COUNT,
        forall|i: int| 0 <= i < 3 ==> !(#[trigger] r@[i]).indexed,
        r@[0].pipeline == PassPipeline::Opaque,
        r@[0].color_attachments@ =~= seq![(AttachmentTarget::Frame, ColorLoad::ClearBlack)],
        r@[0].depth_load == DepthLoad::ClearFarthest,
        r@[0].binding == PassBinding::Camera,
        r@[0].draws@ == scene_order_draws(opaque_count),
        r@[1].pipeline == PassPipeline::Transparent,
        r@[1].color_attachments@ =~= seq![
            (AttachmentTarget::Accum, ColorLoad::ClearTransparent),
            (AttachmentTarget::Reveal, ColorLoad::ClearWhite),
        ],
        r@[1].depth_load == DepthLoad::Load,
        r@[1].binding == PassBinding::Camera,
        r@[1].draws@ == scene_order_draws(transparent_count),
        r@[2].pipeline == PassPipeline::Composite,
        r@[2].color_attachments@ =~= seq![(AttachmentTarget::Frame, ColorLoad::Load)],
        r@[2].depth_load == DepthLoad::Load,
        r@[2].binding == PassBinding::OitTargets,
        r@[2].draws@ =~= seq![DrawCall::FullScreen],
{
    let mut opaque_attachments: Vec<(AttachmentTarget, ColorLoad)> = Vec::new();
    opaque_attachments.push((AttachmentTarget::Frame, ColorLoad::ClearBlack));
    let opaque_pass = PassPlan {
        pipeline: PassPipeline::Opaque,
        color_attachments: opaque_attachments,
        depth_load: DepthLoad::ClearFarthest,
        binding: PassBinding::Camera,
        vertices_per_draw: QUAD_VERTEX_COUNT,
        indexed: false,
        draws: object_draws(opaque_count),
    };

    let mut transparent_attachments: Vec<(AttachmentTarget, ColorLoad)> = Vec::new();
    transparent_attachments.push((AttachmentTarget::Accum, ColorLoad::ClearTransparent));
    transparent_attachments.push((AttachmentTarget::Reveal, ColorLoad::ClearWhite));
    let transparent_pass = PassPlan {
        pipeline: PassPipeline::Transparent,
        color_attachments: transparent_attachments,
        depth_load: DepthLoad::Load,
        binding: PassBinding::Camera,
        vertices_per_draw: QUAD_VERTEX_COUNT,
        indexed: false,
        draws: object_draws(transparent_count),
    };

    let mut composite_attachments: Vec<(AttachmentTarget, ColorLoad)> = Vec::new();
    composite_attachments.push((AttachmentTarget::Frame, ColorLoad::Load));
    let mut composite_draws: Vec<DrawCall> = Vec::new();
    composite_draws.push(DrawCall::FullScreen);
    let composite_pass = PassPlan {
        pipeline: PassPipeline::Composite,
        color_attachments: composite_attachments,
        depth_load: DepthLoad::Load,
        binding: PassBinding::OitTargets,
        vertices_per_draw: QUAD_VERTEX_COUNT,
        indexed: false,
        draws: composite_draws,
    };

    let mut plan: Vec<PassPlan> = Vec::new();
    plan.push(opaque_pass);
    plan.push(transparent_pass);
    plan.push(composite_pass);
    plan
}

} // verus!
