use oit_renderer::pipeline::{
    composite_pipeline_desc, entry_point_name, opaque_pipeline_desc, transparent_pipeline_desc,
    BlendFactor, BlendOperation, ColorTargetDesc, ColorWriteMask, CompareFunction,
    PrimitiveTopology, ShaderEntry, TargetFormat, VertexAttributeDesc, VertexAttributeFormat,
    VertexBufferDesc, VertexStepMode, QUAD_VERTEX_STRIDE,
};
use oit_renderer::plan::{
    frame_plan, AttachmentTarget, ColorLoad, DepthLoad, DrawCall, PassBinding, PassPipeline,
    QUAD_VERTEX_COUNT,
};

fn assert_quad_vertex_buffer(buffer: &VertexBufferDesc) {
    assert_eq!(buffer.array_stride, QUAD_VERTEX_STRIDE);
    assert_eq!(buffer.array_stride, 12);
    assert_eq!(buffer.step_mode, VertexStepMode::Vertex);
    assert_eq!(
        buffer.attributes,
        vec![VertexAttributeDesc {
            format: VertexAttributeFormat::Float32x3,
            offset: 0,
            shader_location: 0,
        }]
    );
}

#[test]
fn opaque_pipeline_is_unblended_and_writes_depth() {
    let desc = opaque_pipeline_desc();
    assert_eq!(desc.vertex_entry, ShaderEntry::VsMain);
    assert_eq!(desc.fragment_entry, ShaderEntry::FsOpaqueMain);
    assert_eq!(desc.topology, PrimitiveTopology::TriangleStrip);
    assert_quad_vertex_buffer(desc.vertex_buffer.as_ref().unwrap());
    assert!(desc.depth.depth_write_enabled);
    assert_eq!(desc.depth.format, TargetFormat::Depth32Float);
    assert_eq!(desc.depth.depth_compare, CompareFunction::Less);
    assert_eq!(
        desc.targets,
        vec![ColorTargetDesc {
            format: TargetFormat::Bgra8Unorm,
            blend: None,
            write_mask: ColorWriteMask::All,
        }]
    );
}

#[test]
fn transparent_pipeline_has_the_oit_blend_equations() {
    let desc = transparent_pipeline_desc();
    assert_eq!(desc.vertex_entry, ShaderEntry::VsMain);
    assert_eq!(desc.fragment_entry, ShaderEntry::FsTransparentPass);
    assert_eq!(desc.topology, PrimitiveTopology::TriangleStrip);
    assert_quad_vertex_buffer(desc.vertex_buffer.as_ref().unwrap());
    // Transparent fragments must not occlude each other.
    assert!(!desc.depth.depth_write_enabled);
    assert_eq!(desc.depth.depth_compare, CompareFunction::Less);
    assert_eq!(desc.targets.len(), 2);

    // Target 0, the accumulator: result = src + dst on color and alpha.
    let accum = &desc.targets[0];
    assert_eq!(accum.format, TargetFormat::Rgba16Float);
    assert_eq!(accum.write_mask, ColorWriteMask::All);
    let accum_blend = accum.blend.unwrap();
    for component in [accum_blend.color, accum_blend.alpha] {
        assert_eq!(component.src_factor, BlendFactor::One);
        assert_eq!(component.dst_factor, BlendFactor::One);
        assert_eq!(component.operation, BlendOperation::Add);
    }

    // Target 1, the revealage: result = dst * (1 - src).
    let reveal = &desc.targets[1];
    assert_eq!(reveal.format, TargetFormat::R8Unorm);
    assert_eq!(reveal.write_mask, ColorWriteMask::All);
    let reveal_blend = reveal.blend.unwrap();
    for component in [reveal_blend.color, reveal_blend.alpha] {
        assert_eq!(component.src_factor, BlendFactor::Zero);
        assert_eq!(component.dst_factor, BlendFactor::OneMinusSrc);
        assert_eq!(component.operation, BlendOperation::Add);
    }
}

#[test]
fn composite_pipeline_alpha_blends_without_a_vertex_buffer() {
    let desc = composite_pipeline_desc();
    assert_eq!(desc.vertex_entry, ShaderEntry::VsCompositePass);
    assert_eq!(desc.fragment_entry, ShaderEntry::FsCompositePass);
    assert_eq!(desc.topology, PrimitiveTopology::TriangleStrip);
    assert!(desc.vertex_buffer.is_none());
    assert!(desc.depth.depth_write_enabled);
    assert_eq!(desc.targets.len(), 1);
    let target = &desc.targets[0];
    assert_eq!(target.format, TargetFormat::Bgra8Unorm);
    assert_eq!(target.write_mask, ColorWriteMask::All);
    let blend = target.blend.unwrap();
    assert_eq!(blend.color.src_factor, BlendFactor::SrcAlpha);
    assert_eq!(blend.color.dst_factor, BlendFactor::OneMinusSrcAlpha);
    assert_eq!(blend.color.operation, BlendOperation::Add);
    assert_eq!(blend.alpha.src_factor, BlendFactor::One);
    assert_eq!(blend.alpha.dst_factor, BlendFactor::OneMinusSrcAlpha);
    assert_eq!(blend.alpha.operation, BlendOperation::Add);
}

#[test]
fn entry_points_match_the_shader_module() {
    assert_eq!(entry_point_name(ShaderEntry::VsMain), "vs_main");
    assert_eq!(entry_point_name(ShaderEntry::FsOpaqueMain), "fs_opaque_main");
    assert_eq!(entry_point_name(ShaderEntry::FsTransparentPass), "fs_transparent_pass");
    assert_eq!(entry_point_name(ShaderEntry::VsCompositePass), "vs_composite_pass");
    assert_eq!(entry_point_name(ShaderEntry::FsCompositePass), "fs_composite_pass");
}

#[test]
fn frame_plan_records_three_passes_in_order() {
    let plan = frame_plan(4, 3);
    assert_eq!(plan.len(), 3);
    assert_eq!(plan[0].pipeline, PassPipeline::Opaque);
    assert_eq!(plan[1].pipeline, PassPipeline::Transparent);
    assert_eq!(plan[2].pipeline, PassPipeline::Composite);
}

#[test]
fn every_draw_is_a_four_vertex_non_indexed_quad() {
    let plan = frame_plan(4, 3);
    for pass in plan.iter() {
        assert_eq!(pass.vertices_per_draw, QUAD_VERTEX_COUNT);
        assert_eq!(pass.vertices_per_draw, 4);
        assert!(!pass.indexed);
    }
}

#[test]
fn opaque_pass_clears_frame_and_depth() {
    let plan = frame_plan(4, 3);
    let opaque = &plan[0];
    assert_eq!(
        opaque.color_attachments,
        vec![(AttachmentTarget::Frame, ColorLoad::ClearBlack)]
    );
    assert_eq!(opaque.depth_load, DepthLoad::ClearFarthest);
    assert_eq!(opaque.binding, PassBinding::Camera);
    assert_eq!(
        opaque.draws,
        vec![
            DrawCall::Object { index: 0 },
            DrawCall::Object { index: 1 },
            DrawCall::Object { index: 2 },
            DrawCall::Object { index: 3 },
        ]
    );
}

#[test]
fn transparent_pass_clears_oit_targets_and_keeps_depth() {
    let plan = frame_plan(4, 3);
    let transparent = &plan[1];
    assert_eq!(
        transparent.color_attachments,
        vec![
            (AttachmentTarget::Accum, ColorLoad::ClearTransparent),
            (AttachmentTarget::Reveal, ColorLoad::ClearWhite),
        ]
    );
    assert_eq!(transparent.depth_load, DepthLoad::Load);
    assert_eq!(transparent.binding, PassBinding::Camera);
    assert_eq!(
        transparent.draws,
        vec![
            DrawCall::Object { index: 0 },
            DrawCall::Object { index: 1 },
            DrawCall::Object { index: 2 },
        ]
    );
}

#[test]
fn composite_pass_loads_everything_and_draws_once() {
    let plan = frame_plan(4, 3);
    let composite = &plan[2];
    assert_eq!(
        composite.color_attachments,
        vec![(AttachmentTarget::Frame, ColorLoad::Load)]
    );
    assert_eq!(composite.depth_load, DepthLoad::Load);
    assert_eq!(composite.binding, PassBinding::OitTargets);
    assert_eq!(composite.draws, vec![DrawCall::FullScreen]);
}

#[test]
fn empty_scene_still_records_all_three_passes() {
    let plan = frame_plan(0, 0);
    assert_eq!(plan.len(), 3);
    assert!(plan[0].draws.is_empty());
    assert!(plan[1].draws.is_empty());
    assert_eq!(plan[2].draws, vec![DrawCall::FullScreen]);
}
