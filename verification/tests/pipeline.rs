use asaogea::gfx::draw_list::{
    draw_calls, font_atlas_size, ui_pipeline_config, ui_stages, upload_starts, DrawCall, DrawCommand, DrawList,
};
use asaogea::gfx::pipeline::{
    describe_pipeline, dynamic_states, layout_bindings, PipelineConfig, VertexBinding, layout_push_constant_ranges, vertex_attributes, vertex_input_stride,
    AlphaMode, BlendFactor, ColorBlend, DescriptorBinding, DynamicState, LayoutBinding, PushConstantRange,
    PushConstantStage, ShaderStageInput, StageInputs,
};
use asaogea::gfx::render_pass::{
    clear_values, describe_attachments, describe_configured_attachments, describe_graph_attachments,
    ConfiguredAttachment, internal_formats, submit_plan, AttachmentDescription, ClearKind,
    FinalLayout, FrameTarget, LoadOp, RenderPassAttachment, RenderTarget, Scissors, WaitSource,
};
use asaogea::gfx::swapchain::Extent2D;

const VERTEX: u32 = 1;
const FRAGMENT: u32 = 16;

fn input(location: i32, offset: u32, input_size: u32) -> ShaderStageInput {
    ShaderStageInput { location, offset, input_size, format: 103 }
}

fn sample_stages() -> Vec<StageInputs> {
    vec![
        StageInputs {
            stage_flags: VERTEX,
            inputs: vec![input(0, 0, 8), input(1, 8, 8), input(2, 16, 4)],
            descriptor_bindings: vec![],
        },
        StageInputs {
            stage_flags: FRAGMENT,
            inputs: vec![],
            descriptor_bindings: vec![
                DescriptorBinding { binding: 0, descriptor_type: 2 },
                DescriptorBinding { binding: 1, descriptor_type: 0 },
            ],
        },
    ]
}

#[test]
fn opaque_does_not_blend() {
    assert_eq!(
        AlphaMode::Opaque.color_blend(),
        ColorBlend {
            blend_enable: false,
            src_color: BlendFactor::Zero,
            dst_color: BlendFactor::Zero,
            src_alpha: BlendFactor::One,
            dst_alpha: BlendFactor::Zero,
        }
    );
}

#[test]
fn translucent_and_additive_blend_by_source_alpha() {
    let expected = ColorBlend {
        blend_enable: true,
        src_color: BlendFactor::SrcAlpha,
        dst_color: BlendFactor::OneMinusSrcAlpha,
        src_alpha: BlendFactor::OneMinusSrcAlpha,
        dst_alpha: BlendFactor::Zero,
    };
    assert_eq!(AlphaMode::Translucent.color_blend(), expected);
    assert_eq!(AlphaMode::Additive.color_blend(), expected);
}

#[test]
fn vertex_stride_sums_the_first_vertex_stage() {
    assert_eq!(vertex_input_stride(&sample_stages()), 20);
    let mut stages = sample_stages();
    stages.reverse();
    assert_eq!(vertex_input_stride(&stages), 20);
    stages.push(StageInputs { stage_flags: VERTEX, inputs: vec![input(0, 0, 64)], descriptor_bindings: vec![] });
    assert_eq!(vertex_input_stride(&stages), 20);
    assert_eq!(vertex_input_stride(&vec![]), 0);
}

#[test]
fn vertex_attributes_of_the_first_vertex_stage() {
    assert_eq!(vertex_attributes(&sample_stages()), vec![input(0, 0, 8), input(1, 8, 8), input(2, 16, 4)]);
    let fragment_only: Vec<StageInputs> = sample_stages().into_iter().skip(1).collect();
    assert!(vertex_attributes(&fragment_only).is_empty());
}

#[test]
fn layout_bindings_of_all_stages() {
    let mut stages = sample_stages();
    stages[0].descriptor_bindings.push(DescriptorBinding { binding: 5, descriptor_type: 6 });
    assert_eq!(
        layout_bindings(&stages),
        vec![
            LayoutBinding { binding: 5, descriptor_type: 6, descriptor_count: 1, stage_flags: VERTEX },
            LayoutBinding { binding: 0, descriptor_type: 2, descriptor_count: 1, stage_flags: FRAGMENT },
            LayoutBinding { binding: 1, descriptor_type: 0, descriptor_count: 1, stage_flags: FRAGMENT },
        ]
    );
    assert!(layout_bindings(&vec![]).is_empty());
}

#[test]
fn push_constants_and_dynamic_states() {
    assert_eq!(
        layout_push_constant_ranges(),
        vec![
            PushConstantRange { stage: PushConstantStage::Vertex, offset: 0, size: 64 },
            PushConstantRange { stage: PushConstantStage::Fragment, offset: 64, size: 4 },
        ]
    );
    assert_eq!(dynamic_states(true), vec![DynamicState::Scissor, DynamicState::Viewport]);
    assert_eq!(dynamic_states(false), vec![DynamicState::Scissor, DynamicState::Viewport, DynamicState::LineWidth]);
}

#[test]
fn scissors_cover_the_target() {
    assert_eq!(
        Scissors::full(Extent2D { width: 640, height: 480 }),
        Scissors { min_x: 0, min_y: 0, width: 640, height: 480 }
    );
}

#[test]
fn present_pass_attachments() {
    let colors = vec![
        RenderPassAttachment { clear: ClearKind::Color, source: RenderTarget::Window },
        RenderPassAttachment { clear: ClearKind::DontClear, source: RenderTarget::Image(37) },
    ];
    let depth = Some(RenderPassAttachment { clear: ClearKind::DepthStencil, source: RenderTarget::Internal(126) });
    assert_eq!(
        describe_attachments(&colors, depth, true, 50),
        vec![
            AttachmentDescription { format: 50, load_op: LoadOp::Clear, final_layout: FinalLayout::PresentSource, index: 0 },
            AttachmentDescription { format: 37, load_op: LoadOp::DontCare, final_layout: FinalLayout::ShaderReadOnly, index: 1 },
            AttachmentDescription { format: 126, load_op: LoadOp::Clear, final_layout: FinalLayout::ShaderReadOnly, index: 2 },
        ]
    );
    assert!(describe_attachments(&vec![], None, false, 50).is_empty());
    assert_eq!(clear_values(&colors, depth), vec![ClearKind::Color, ClearKind::DontClear, ClearKind::DepthStencil]);
    assert_eq!(clear_values(&colors, None), vec![ClearKind::Color, ClearKind::DontClear]);
}

#[test]
fn internal_attachment_formats() {
    let colors = vec![
        RenderPassAttachment { clear: ClearKind::Color, source: RenderTarget::Internal(37) },
        RenderPassAttachment { clear: ClearKind::Color, source: RenderTarget::Internal(44) },
    ];
    let depth = Some(RenderPassAttachment { clear: ClearKind::DepthStencil, source: RenderTarget::Internal(126) });
    assert_eq!(internal_formats(&colors, depth), vec![(37, false), (44, false), (126, true)]);
    assert_eq!(internal_formats(&colors, None), vec![(37, false), (44, false)]);
}

#[test]
fn swapchain_pass_waits_for_its_image_then_its_children() {
    let plan = submit_plan(FrameTarget::Swapchain, 2, 1);
    assert!(plan.draws_ui);
    assert!(plan.signals_in_flight_fence);
    assert_eq!(
        plan.waits,
        vec![WaitSource::ImageAvailable(1), WaitSource::ChildFinished(0, 1), WaitSource::ChildFinished(1, 1)]
    );
    let plan = submit_plan(FrameTarget::Internal, 1, 0);
    assert!(!plan.draws_ui);
    assert!(!plan.signals_in_flight_fence);
    assert_eq!(plan.waits, vec![WaitSource::ChildFinished(0, 0)]);
    let plan = submit_plan(FrameTarget::Image, 0, 2);
    assert!(plan.draws_ui);
    assert!(plan.waits.is_empty());
}

fn command(idx_offset: u32, vtx_offset: u32, elem_count: u32, visible: bool) -> DrawCommand {
    DrawCommand { idx_offset, vtx_offset, elem_count, visible }
}

#[test]
fn draw_calls_shift_by_the_lists_before() {
    let lists = vec![
        DrawList { vertex_count: 4, index_count: 6, commands: vec![command(0, 0, 6, true)] },
        DrawList {
            vertex_count: 8,
            index_count: 12,
            commands: vec![command(0, 0, 6, true), command(6, 0, 6, false), command(6, 2, 3, true)],
        },
    ];
    assert_eq!(
        draw_calls(&lists),
        vec![
            DrawCall { first_index: 0, vertex_offset: 0, index_count: 6 },
            DrawCall { first_index: 6, vertex_offset: 4, index_count: 6 },
            DrawCall { first_index: 12, vertex_offset: 6, index_count: 3 },
        ]
    );
    assert_eq!(upload_starts(&lists), vec![(0, 0), (4, 6)]);
    assert!(draw_calls(&vec![]).is_empty());
    assert!(upload_starts(&vec![]).is_empty());
}

#[test]
fn pipeline_descriptions() {
    let config = PipelineConfig {
        culling: 0,
        front_face: 0,
        topology: 3,
        polygon_mode: 0,
        alpha_mode: AlphaMode::Translucent,
        depth_test: true,
        default_line_width: true,
    };
    let d = describe_pipeline(&sample_stages(), &config, 2);
    assert_eq!(d.shader_stages, vec![VERTEX, FRAGMENT]);
    assert_eq!(d.vertex_bindings, vec![VertexBinding { binding: 0, stride: 20 }]);
    assert_eq!(d.vertex_attributes.len(), 3);
    assert_eq!(d.layout_bindings.len(), 2);
    assert_eq!(d.push_constant_ranges.len(), 2);
    assert_eq!(d.color_blends, vec![AlphaMode::Translucent.color_blend(); 2]);
    assert!(d.depth_test && d.depth_write);
    assert_eq!(d.dynamic_states, vec![DynamicState::Scissor, DynamicState::Viewport]);
    assert_eq!((d.culling, d.front_face, d.topology, d.polygon_mode), (0, 0, 3, 0));

    let fragment_only: Vec<StageInputs> = sample_stages().into_iter().skip(1).collect();
    let config = PipelineConfig { depth_test: false, default_line_width: false, alpha_mode: AlphaMode::Opaque, ..config };
    let d = describe_pipeline(&fragment_only, &config, 0);
    assert!(d.vertex_bindings.is_empty());
    assert!(d.color_blends.is_empty());
    assert!(!d.depth_test && !d.depth_write);
    assert_eq!(d.dynamic_states.len(), 3);
}

#[test]
fn frame_graph_passes_may_take_depth_from_the_surface() {
    let colors = vec![RenderPassAttachment { clear: ClearKind::Color, source: RenderTarget::Window }];
    let depth = Some(RenderPassAttachment { clear: ClearKind::DontClear, source: RenderTarget::Window });
    assert_eq!(
        describe_graph_attachments(&colors, depth, 44),
        vec![
            AttachmentDescription { format: 44, load_op: LoadOp::Clear, final_layout: FinalLayout::PresentSource, index: 0 },
            AttachmentDescription { format: 44, load_op: LoadOp::DontCare, final_layout: FinalLayout::ShaderReadOnly, index: 1 },
        ]
    );
}

#[test]
fn configured_passes_follow_the_present_flag() {
    let colors = vec![
        ConfiguredAttachment { format: 50, has_clear_value: true },
        ConfiguredAttachment { format: 37, has_clear_value: false },
    ];
    let depth = Some(ConfiguredAttachment { format: 126, has_clear_value: false });
    assert_eq!(
        describe_configured_attachments(&colors, depth, true),
        vec![
            AttachmentDescription { format: 50, load_op: LoadOp::DontCare, final_layout: FinalLayout::PresentSource, index: 0 },
            AttachmentDescription { format: 37, load_op: LoadOp::Clear, final_layout: FinalLayout::PresentSource, index: 1 },
            AttachmentDescription { format: 126, load_op: LoadOp::Clear, final_layout: FinalLayout::ShaderReadOnly, index: 2 },
        ]
    );
    let offscreen = describe_configured_attachments(&colors, None, false);
    assert_eq!(offscreen.len(), 2);
    assert_eq!(offscreen[0].final_layout, FinalLayout::ShaderReadOnly);
}

#[test]
fn only_stages_flagged_exactly_vertex_give_vertex_inputs() {
    let combined = vec![StageInputs {
        stage_flags: VERTEX | FRAGMENT,
        inputs: vec![input(0, 0, 12)],
        descriptor_bindings: vec![],
    }];
    assert!(vertex_attributes(&combined).is_empty());
    assert_eq!(vertex_input_stride(&combined), 0);
}

#[test]
fn the_ui_pipeline_and_its_stages() {
    let config = ui_pipeline_config();
    assert_eq!(config.culling, 0);
    assert_eq!(config.topology, 3);
    assert_eq!(config.alpha_mode, AlphaMode::Translucent);
    assert!(config.depth_test);
    assert!(config.default_line_width);
    let stages = ui_stages();
    assert_eq!(stages.len(), 2);
    assert_eq!(vertex_input_stride(&stages), 20);
    assert_eq!(vertex_attributes(&stages).len(), 3);
    assert_eq!(vertex_attributes(&stages)[2].format, 37);
    assert_eq!(
        layout_bindings(&stages),
        vec![
            LayoutBinding { binding: 0, descriptor_type: 2, descriptor_count: 1, stage_flags: FRAGMENT },
            LayoutBinding { binding: 1, descriptor_type: 0, descriptor_count: 1, stage_flags: FRAGMENT },
        ]
    );
}

#[test]
fn font_atlases_take_four_bytes_a_pixel() {
    assert_eq!(font_atlas_size(512, 64), Some(131072));
    assert_eq!(font_atlas_size(0, 64), Some(0));
    assert_eq!(font_atlas_size(-1, 4), None);
    assert_eq!(font_atlas_size(40000, 40000), None);
}
