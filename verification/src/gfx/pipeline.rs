use vstd::prelude::*;

verus! {

/// How the colors a pipeline outputs are combined with what is already drawn.
#[derive(Clone, Copy, Debug, PartialEq, Eq, Structural)]
pub enum AlphaMode {
    Opaque,
    Translucent,
    Additive,
}

/// A factor of the blend equation.
#[derive(Clone, Copy, Debug, PartialEq, Eq, Structural)]
pub enum BlendFactor {
    Zero,
    One,
    SrcAlpha,
    OneMinusSrcAlpha,
}

/// The blend state of one color attachment.
#[derive(Clone, Copy, Debug, PartialEq, Eq, Structural)]
pub struct ColorBlend {
    pub blend_enable: bool,
    pub src_color: BlendFactor,
    pub dst_color: BlendFactor,
    pub src_alpha: BlendFactor,
    pub dst_alpha: BlendFactor,
}

impl AlphaMode {
    /// Opaque output replaces what is drawn; any other mode blends by source alpha.
    pub fn color_blend(&self) -> (r: ColorBlend)
        ensures
            r.blend_enable == (*self != AlphaMode::Opaque),
            r.src_color == (if *self == AlphaMode::Opaque { BlendFactor::Zero } else { BlendFactor::SrcAlpha }),
            r.dst_color == (if *self == AlphaMode::Opaque { BlendFactor::Zero } else { BlendFactor::OneMinusSrcAlpha }),
            r.src_alpha == (if *self == AlphaMode::Opaque { BlendFactor::One } else { BlendFactor::OneMinusSrcAlpha }),
            r.dst_alpha == BlendFactor::Zero,
    {
        let opaque = match self {
            AlphaMode::Opaque => true,
            _ => false,
        };
        ColorBlend {
            blend_enable: !opaque,
            src_color: if opaque { BlendFactor::Zero } else { BlendFactor::SrcAlpha },
            dst_color: if opaque { BlendFactor::Zero } else { BlendFactor::OneMinusSrcAlpha },
            src_alpha: if opaque { BlendFactor::One } else { BlendFactor::OneMinusSrcAlpha },
            dst_alpha: BlendFactor::Zero,
        }
    }
}

/// One vertex input of a shader stage.
#[derive(Clone, Copy, Debug, PartialEq, Eq, Structural)]
pub struct ShaderStageInput {
    pub location: i32,
    pub offset: u32,
    pub input_size: u32,
    pub format: i32,
}

/// A descriptor binding that a shader stage declares.
#[derive(Clone, Copy, Debug, PartialEq, Eq, Structural)]
pub struct DescriptorBinding {
    pub binding: u32,
    pub descriptor_type: i32,
}

/// A binding of the descriptor set layout of a pipeline, with the stages that see it.
#[derive(Clone, Copy, Debug, PartialEq, Eq, Structural)]
pub struct LayoutBinding {
    pub binding: u32,
    pub descriptor_type: i32,
    pub descriptor_count: u32,
    pub stage_flags: u32,
}

/// The stage flags of the vertex stage, the only stage whose inputs are vertex attributes.
pub const VERTEX_STAGE: u32 = 1;

/// What a pipeline reads of one of its shader stages: its stage flags, its vertex inputs and its
/// descriptor bindings.
pub struct StageInputs {
    pub stage_flags: u32,
    pub inputs: Vec<ShaderStageInput>,
    pub descriptor_bindings: Vec<DescriptorBinding>,
}

/// The layout binding made of binding `b` of a stage with flags `flags`.
pub open spec fn spec_layout_binding(b: DescriptorBinding, flags: u32) -> LayoutBinding {
    LayoutBinding { binding: b.binding, descriptor_type: b.descriptor_type, descriptor_count: 1, stage_flags: flags }
}

/// The bindings of one stage, in order.
pub open spec fn spec_stage_bindings(stage: StageInputs) -> Seq<LayoutBinding> {
    stage.descriptor_bindings@.map_values(|b: DescriptorBinding| spec_layout_binding(b, stage.stage_flags))
}

/// The bindings of all stages, stage after stage, each in its declared order.
pub open spec fn spec_layout_bindings(stages: Seq<StageInputs>) -> Seq<LayoutBinding>
    decreases stages.len(),
{
    if stages.len() == 0 {
        Seq::empty()
    } else {
        spec_layout_bindings(stages.drop_last()) + spec_stage_bindings(stages.last())
    }
}

/// The descriptor set layout bindings of a pipeline whose stages are `stages`.
pub fn layout_bindings(stages: &Vec<StageInputs>) -> (r: Vec<LayoutBinding>)
    ensures
        r@ == spec_layout_bindings(stages@),
{
    let mut out: Vec<LayoutBinding> = Vec::new();
    let mut k: usize = 0;
    while k < stages.len()
        invariant
            k <= stages.len(),
            out@ == spec_layout_bindings(stages@.take(k as int)),
        decreases stages.len() - k,
    {
        let stage = &stages[k];
        let ghost before = out@;
        let mut i: usize = 0;
        while i < stage.descriptor_bindings.len()
            invariant
                i <= stage.descriptor_bindings.len(),
                out@ == before + spec_stage_bindings(*stage).take(i as int),
            decreases stage.descriptor_bindings.len() - i,
        {
            let b = stage.descriptor_bindings[i];
            out.push(LayoutBinding {
                binding: b.binding,
                descriptor_type: b.descriptor_type,
                descriptor_count: 1,
                stage_flags: stage.stage_flags,
            });
            assert(spec_stage_bindings(*stage).take(i + 1) =~= spec_stage_bindings(*stage).take(i as int).push(
                spec_layout_binding(b, stage.stage_flags),
            ));
            i = i + 1;
        }
        assert(spec_stage_bindings(*stage).take(i as int) =~= spec_stage_bindings(*stage));
        assert(stages@.take(k + 1).drop_last() =~= stages@.take(k as int));
        k = k + 1;
    }
    assert(stages@.take(stages.len() as int) =~= stages@);
    out
}

/// The vertex inputs of the first stage whose flags are exactly the vertex stage, none when there is no such stage.
pub open spec fn spec_vertex_attributes(stages: Seq<StageInputs>) -> Seq<ShaderStageInput>
    decreases stages.len(),
{
    if stages.len() == 0 {
        Seq::empty()
    } else if stages[0].stage_flags == VERTEX_STAGE {
        stages[0].inputs@
    } else {
        spec_vertex_attributes(stages.drop_first())
    }
}

/// The vertex attribute descriptions of a pipeline whose stages are `stages`.
pub fn vertex_attributes(stages: &Vec<StageInputs>) -> (r: Vec<ShaderStageInput>)
    ensures
        r@ == spec_vertex_attributes(stages@),
{
    assert(stages@.subrange(0, stages@.len() as int) =~= stages@);
    let mut k: usize = 0;
    while k < stages.len()
        invariant
            k <= stages.len(),
            spec_vertex_attributes(stages@) == spec_vertex_attributes(stages@.subrange(k as int, stages@.len() as int)),
        decreases stages.len() - k,
    {
        let ghost rest = stages@.subrange(k as int, stages@.len() as int);
        assert(rest.drop_first() =~= stages@.subrange(k + 1, stages@.len() as int));
        assert(rest[0] == stages@[k as int]);
        if stages[k].stage_flags == VERTEX_STAGE {
            let inputs = &stages[k].inputs;
            let mut out: Vec<ShaderStageInput> = Vec::new();
            let mut i: usize = 0;
            while i < inputs.len()
                invariant
                    i <= inputs.len(),
                    out@ == inputs@.take(i as int),
                decreases inputs.len() - i,
            {
                out.push(inputs[i]);
                assert(inputs@.take(i + 1) =~= inputs@.take(i as int).push(inputs@[i as int]));
                i = i + 1;
            }
            assert(inputs@.take(inputs.len() as int) =~= inputs@);
            return out;
        }
        k = k + 1;
    }
    Vec::new()
}

/// The stage a push constant range is visible to.
#[derive(Clone, Copy, Debug, PartialEq, Eq, Structural)]
pub enum PushConstantStage {
    Vertex,
    Fragment,
}

/// A range of push constants, in bytes.
#[derive(Clone, Copy, Debug, PartialEq, Eq, Structural)]
pub struct PushConstantRange {
    pub stage: PushConstantStage,
    pub offset: u32,
    pub size: u32,
}

/// The push constant ranges of every pipeline layout: a 64-byte block for the vertex stage,
/// followed by 4 bytes for the fragment stage.
pub fn layout_push_constant_ranges() -> (r: Vec<PushConstantRange>)
    ensures
        r@ == seq![
            PushConstantRange { stage: PushConstantStage::Vertex, offset: 0, size: 64 },
            PushConstantRange { stage: PushConstantStage::Fragment, offset: 64, size: 4 },
        ],
{
    let mut ranges: Vec<PushConstantRange> = Vec::new();
    ranges.push(PushConstantRange { stage: PushConstantStage::Vertex, offset: 0, size: 64 });
    ranges.push(PushConstantRange { stage: PushConstantStage::Fragment, offset: 64, size: 4 });
    ranges
}

/// A state of a pipeline that is set while recording commands.
#[derive(Clone, Copy, Debug, PartialEq, Eq, Structural)]
pub enum DynamicState {
    Scissor,
    Viewport,
    LineWidth,
}

/// Scissor and viewport are always dynamic; the line width is too when it is not the default.
pub fn dynamic_states(default_line_width: bool) -> (r: Vec<DynamicState>)
    ensures
        r@ == (if default_line_width {
            seq![DynamicState::Scissor, DynamicState::Viewport]
        } else {
            seq![DynamicState::Scissor, DynamicState::Viewport, DynamicState::LineWidth]
        }),
{
    let mut states: Vec<DynamicState> = Vec::new();
    states.push(DynamicState::Scissor);
    states.push(DynamicState::Viewport);
    if !default_line_width {
        states.push(DynamicState::LineWidth);
    }
    states
}

pub open spec fn sum_sizes(s: Seq<ShaderStageInput>) -> int
    decreases s.len(),
{
    if s.len() == 0 {
        0
    } else {
        sum_sizes(s.drop_last()) + s.last().input_size
    }
}

/// The stride of one vertex: the sum of the input sizes of the first vertex stage, zero when
/// there is none.
pub open spec fn spec_vertex_stride(stages: Seq<StageInputs>) -> int
    decreases stages.len(),
{
    if stages.len() == 0 {
        0
    } else if stages[0].stage_flags == VERTEX_STAGE {
        sum_sizes(stages[0].inputs@)
    } else {
        spec_vertex_stride(stages.drop_first())
    }
}

/// The stride of one vertex of a pipeline whose stages are `stages`.
pub fn vertex_input_stride(stages: &Vec<StageInputs>) -> (r: u32)
    requires
        spec_vertex_stride(stages@) <= u32::MAX,
    ensures
        r == spec_vertex_stride(stages@),
{
    assert(stages@.subrange(0, stages@.len() as int) =~= stages@);
    let mut k: usize = 0;
    while k < stages.len()
        invariant
            k <= stages.len(),
            spec_vertex_stride(stages@) == spec_vertex_stride(stages@.subrange(k as int, stages@.len() as int)),
            spec_vertex_stride(stages@) <= u32::MAX,
        decreases stages.len() - k,
    {
        let ghost rest = stages@.subrange(k as int, stages@.len() as int);
        assert(rest.drop_first() =~= stages@.subrange(k + 1, stages@.len() as int));
        assert(rest[0] == stages@[k as int]);
        if stages[k].stage_flags == VERTEX_STAGE {
            let inputs = &stages[k].inputs;
            let mut total: u32 = 0;
            let mut i: usize = 0;
            while i < inputs.len()
                invariant
                    i <= inputs.len(),
                    total == sum_sizes(inputs@.take(i as int)),
                    sum_sizes(inputs@) <= u32::MAX,
                decreases inputs.len() - i,
            {
                assert(inputs@.take(i + 1).drop_last() =~= inputs@.take(i as int));
                proof {
                    lemma_sum_grows(inputs@, i + 1);
                }
                total = total + inputs[i].input_size;
                i = i + 1;
            }
            assert(inputs@.take(inputs.len() as int) =~= inputs@);
            return total;
        }
        k = k + 1;
    }
    0
}

proof fn lemma_sum_grows(s: Seq<ShaderStageInput>, n: int)
    requires
        0 <= n <= s.len(),
    ensures
        sum_sizes(s) >= sum_sizes(s.take(n)),
    decreases s.len(),
{
    if n < s.len() {
        assert(s.drop_last().take(n) =~= s.take(n));
        lemma_sum_grows(s.drop_last(), n);
    } else {
        assert(s.take(n) =~= s);
    }
}

/// The fixed-function configuration of a pipeline, as raw driver values; `default_line_width`
/// tells whether lines are drawn with the default width of one pixel.
#[derive(Clone, Copy, Debug, PartialEq, Eq, Structural)]
pub struct PipelineConfig {
    pub culling: u32,
    pub front_face: i32,
    pub topology: i32,
    pub polygon_mode: i32,
    pub alpha_mode: AlphaMode,
    pub depth_test: bool,
    pub default_line_width: bool,
}

/// How vertices are read from the single vertex buffer: binding 0, one vertex after the other,
/// `stride` bytes apart.
#[derive(Clone, Copy, Debug, PartialEq, Eq, Structural)]
pub struct VertexBinding {
    pub binding: u32,
    pub stride: u32,
}

/// Everything a graphics pipeline is created from, besides the shader modules and the render
/// pass themselves.
pub struct PipelineDescription {
    /// The stage flags of the shader stages, in the order the stages were given.
    pub shader_stages: Vec<u32>,
    pub vertex_bindings: Vec<VertexBinding>,
    pub vertex_attributes: Vec<ShaderStageInput>,
    pub layout_bindings: Vec<LayoutBinding>,
    pub push_constant_ranges: Vec<PushConstantRange>,
    /// One blend state per color attachment of the render pass.
    pub color_blends: Vec<ColorBlend>,
    pub depth_test: bool,
    pub depth_write: bool,
    pub dynamic_states: Vec<DynamicState>,
    pub culling: u32,
    pub front_face: i32,
    pub topology: i32,
    pub polygon_mode: i32,
}

/// The blend state of each color attachment, all the same.
pub open spec fn spec_color_blend(mode: AlphaMode) -> ColorBlend {
    ColorBlend {
        blend_enable: mode != AlphaMode::Opaque,
        src_color: if mode == AlphaMode::Opaque { BlendFactor::Zero } else { BlendFactor::SrcAlpha },
        dst_color: if mode == AlphaMode::Opaque { BlendFactor::Zero } else { BlendFactor::OneMinusSrcAlpha },
        src_alpha: if mode == AlphaMode::Opaque { BlendFactor::One } else { BlendFactor::OneMinusSrcAlpha },
        dst_alpha: BlendFactor::Zero,
    }
}

/// No vertex binding when the vertex stride is zero, else the single binding of that stride.
pub open spec fn spec_vertex_bindings(stride: int) -> Seq<VertexBinding> {
    if stride == 0 {
        Seq::empty()
    } else {
        seq![VertexBinding { binding: 0, stride: stride as u32 }]
    }
}

/// Describes a pipeline whose shader stages are `stages`, drawing into a render pass with
/// `color_attachment_count` color attachments.
pub fn describe_pipeline(stages: &Vec<StageInputs>, config: &PipelineConfig, color_attachment_count: usize) -> (r: PipelineDescription)
    requires
        spec_vertex_stride(stages@) <= u32::MAX,
    ensures
        r.shader_stages@ == stages@.map_values(|s: StageInputs| s.stage_flags),
        r.vertex_bindings@ == spec_vertex_bindings(spec_vertex_stride(stages@)),
        r.vertex_attributes@ == spec_vertex_attributes(stages@),
        r.layout_bindings@ == spec_layout_bindings(stages@),
        r.push_constant_ranges@ == seq![
            PushConstantRange { stage: PushConstantStage::Vertex, offset: 0, size: 64 },
            PushConstantRange { stage: PushConstantStage::Fragment, offset: 64, size: 4 },
        ],
        r.color_blends@ == Seq::new(color_attachment_count as nat, |i: int| spec_color_blend(config.alpha_mode)),
        r.depth_test == config.depth_test,
        r.depth_write == config.depth_test,
        r.dynamic_states@ == (if config.default_line_width {
            seq![DynamicState::Scissor, DynamicState::Viewport]
        } else {
            seq![DynamicState::Scissor, DynamicState::Viewport, DynamicState::LineWidth]
        }),
        r.culling == config.culling,
        r.front_face == config.front_face,
        r.topology == config.topology,
        r.polygon_mode == config.polygon_mode,
{
    let mut shader_stages: Vec<u32> = Vec::new();
    let mut k: usize = 0;
    while k < stages.len()
        invariant
            k <= stages.len(),
            shader_stages@ == stages@.take(k as int).map_values(|s: StageInputs| s.stage_flags),
        decreases stages.len() - k,
    {
        shader_stages.push(stages[k].stage_flags);
        assert(stages@.take(k + 1).map_values(|s: StageInputs| s.stage_flags) =~= stages@.take(k as int).map_values(
            |s: StageInputs| s.stage_flags,
        ).push(stages@[k as int].stage_flags));
        k = k + 1;
    }
    assert(stages@.take(stages.len() as int) =~= stages@);
    let stride = vertex_input_stride(stages);
    let mut vertex_bindings: Vec<VertexBinding> = Vec::new();
    if stride > 0 {
        vertex_bindings.push(VertexBinding { binding: 0, stride });
    }
    assert(vertex_bindings@ =~= spec_vertex_bindings(spec_vertex_stride(stages@)));
    let blend = config.alpha_mode.color_blend();
    let mut color_blends: Vec<ColorBlend> = Vec::new();
    let mut c: usize = 0;
    while c < color_attachment_count
        invariant
            c <= color_attachment_count,
            blend == spec_color_blend(config.alpha_mode),
            color_blends@ =~= Seq::new(c as nat, |i: int| spec_color_blend(config.alpha_mode)),
        decreases color_attachment_count - c,
    {
        color_blends.push(blend);
        c = c + 1;
    }
    PipelineDescription {
        shader_stages,
        vertex_bindings,
        vertex_attributes: vertex_attributes(stages),
        layout_bindings: layout_bindings(stages),
        push_constant_ranges: layout_push_constant_ranges(),
        color_blends,
        depth_test: config.depth_test,
        depth_write: config.depth_test,
        dynamic_states: dynamic_states(config.default_line_width),
        culling: config.culling,
        front_face: config.front_face,
        topology: config.topology,
        polygon_mode: config.polygon_mode,
    }
}

} // verus!
