use vstd::prelude::*;
use crate::gfx::pipeline::{AlphaMode, DescriptorBinding, PipelineConfig, ShaderStageInput, StageInputs};

verus! {

/// One command of a UI draw list: a range of indices relative to its list, and whether its clip
/// rectangle, projected into the framebuffer, overlaps the render area.
#[derive(Clone, Copy, Debug, PartialEq, Eq, Structural)]
pub struct DrawCommand {
    pub idx_offset: u32,
    pub vtx_offset: u32,
    pub elem_count: u32,
    pub visible: bool,
}

/// A UI draw list: its vertex and index counts and its commands, in order.
pub struct DrawList {
    pub vertex_count: u32,
    pub index_count: u32,
    pub commands: Vec<DrawCommand>,
}

/// An indexed draw into the merged vertex and index buffers of all lists.
#[derive(Clone, Copy, Debug, PartialEq, Eq, Structural)]
pub struct DrawCall {
    pub first_index: u32,
    pub vertex_offset: u32,
    pub index_count: u32,
}

/// The number of indices of all lists in `lists`.
pub open spec fn index_total(lists: Seq<DrawList>) -> int
    decreases lists.len(),
{
    if lists.len() == 0 {
        0
    } else {
        index_total(lists.drop_last()) + lists.last().index_count
    }
}

/// The number of vertices of all lists in `lists`.
pub open spec fn vertex_total(lists: Seq<DrawList>) -> int
    decreases lists.len(),
{
    if lists.len() == 0 {
        0
    } else {
        vertex_total(lists.drop_last()) + lists.last().vertex_count
    }
}

/// The draws of the visible commands of one list whose data starts at index `idx_base` and
/// vertex `vtx_base` of the merged buffers.
pub open spec fn spec_list_calls(commands: Seq<DrawCommand>, idx_base: int, vtx_base: int) -> Seq<DrawCall>
    decreases commands.len(),
{
    if commands.len() == 0 {
        Seq::empty()
    } else {
        let rest = spec_list_calls(commands.drop_last(), idx_base, vtx_base);
        let c = commands.last();
        if c.visible {
            rest.push(
                DrawCall {
                    first_index: (c.idx_offset + idx_base) as u32,
                    vertex_offset: (c.vtx_offset + vtx_base) as u32,
                    index_count: c.elem_count,
                },
            )
        } else {
            rest
        }
    }
}

/// The draws of all lists, list after list.
pub open spec fn spec_draw_calls(lists: Seq<DrawList>) -> Seq<DrawCall>
    decreases lists.len(),
{
    if lists.len() == 0 {
        Seq::empty()
    } else {
        let before = lists.drop_last();
        spec_draw_calls(before) + spec_list_calls(lists.last().commands@, index_total(before), vertex_total(before))
    }
}

/// The offsets of every visible command fit in 32 bits, and so do the totals.
pub open spec fn offsets_fit(lists: Seq<DrawList>) -> bool {
    &&& index_total(lists) <= u32::MAX
    &&& vertex_total(lists) <= u32::MAX
    &&& forall|i: int, j: int|
        0 <= i < lists.len() && 0 <= j < lists[i].commands@.len() && (#[trigger] lists[i].commands@[j]).visible
            ==> lists[i].commands@[j].idx_offset + index_total(lists.take(i)) <= u32::MAX
                && lists[i].commands@[j].vtx_offset + vertex_total(lists.take(i)) <= u32::MAX
}

proof fn lemma_totals_grow(lists: Seq<DrawList>, n: int)
    requires
        0 <= n <= lists.len(),
    ensures
        index_total(lists.take(n)) <= index_total(lists),
        vertex_total(lists.take(n)) <= vertex_total(lists),
    decreases lists.len(),
{
    if n < lists.len() {
        assert(lists.drop_last().take(n) =~= lists.take(n));
        lemma_totals_grow(lists.drop_last(), n);
    } else {
        assert(lists.take(n) =~= lists);
    }
}

/// The draws that render `lists` from buffers that hold their data one list after the other:
/// each visible command, in order, draws its indices shifted by the indices and vertices of
/// the lists before it; hidden commands draw nothing.
pub fn draw_calls(lists: &Vec<DrawList>) -> (r: Vec<DrawCall>)
    requires
        offsets_fit(lists@),
    ensures
        r@ == spec_draw_calls(lists@),
{
    let mut out: Vec<DrawCall> = Vec::new();
    let mut global_idx: u32 = 0;
    let mut global_vtx: u32 = 0;
    let mut n: usize = 0;
    while n < lists.len()
        invariant
            n <= lists.len(),
            offsets_fit(lists@),
            global_idx == index_total(lists@.take(n as int)),
            global_vtx == vertex_total(lists@.take(n as int)),
            out@ == spec_draw_calls(lists@.take(n as int)),
        decreases lists.len() - n,
    {
        let list = &lists[n];
        let ghost before = out@;
        let mut j: usize = 0;
        while j < list.commands.len()
            invariant
                n < lists.len(),
                list == &lists@[n as int],
                j <= list.commands.len(),
                offsets_fit(lists@),
                global_idx == index_total(lists@.take(n as int)),
                global_vtx == vertex_total(lists@.take(n as int)),
                out@ == before + spec_list_calls(list.commands@.take(j as int), global_idx as int, global_vtx as int),
            decreases list.commands.len() - j,
        {
            let c = list.commands[j];
            assert(list.commands@.take(j + 1).drop_last() =~= list.commands@.take(j as int));
            assert(lists@[n as int].commands@[j as int] == c);
            if c.visible {
                out.push(DrawCall { first_index: c.idx_offset + global_idx, vertex_offset: c.vtx_offset + global_vtx, index_count: c.elem_count });
            }
            j = j + 1;
        }
        assert(list.commands@.take(j as int) =~= list.commands@);
        assert(lists@.take(n + 1).drop_last() =~= lists@.take(n as int));
        proof {
            lemma_totals_grow(lists@, n + 1);
        }
        global_idx = global_idx + list.index_count;
        global_vtx = global_vtx + list.vertex_count;
        n = n + 1;
    }
    assert(lists@.take(lists.len() as int) =~= lists@);
    out
}

/// Where the data of each list starts in the merged buffers: the vertex and the index counts of
/// the lists before it.
pub fn upload_starts(lists: &Vec<DrawList>) -> (r: Vec<(usize, usize)>)
    requires
        vertex_total(lists@) <= usize::MAX,
        index_total(lists@) <= usize::MAX,
    ensures
        r@.len() == lists@.len(),
        forall|i: int|
            0 <= i < lists@.len() ==> #[trigger] r@[i] == (
                vertex_total(lists@.take(i)) as usize,
                index_total(lists@.take(i)) as usize,
            ),
{
    let mut out: Vec<(usize, usize)> = Vec::new();
    let mut vertex_start: usize = 0;
    let mut index_start: usize = 0;
    let mut n: usize = 0;
    while n < lists.len()
        invariant
            n <= lists.len(),
            vertex_total(lists@) <= usize::MAX,
            index_total(lists@) <= usize::MAX,
            vertex_start == vertex_total(lists@.take(n as int)),
            index_start == index_total(lists@.take(n as int)),
            out@.len() == n,
            forall|i: int|
                0 <= i < n ==> #[trigger] out@[i] == (
                    vertex_total(lists@.take(i)) as usize,
                    index_total(lists@.take(i)) as usize,
                ),
        decreases lists.len() - n,
    {
        out.push((vertex_start, index_start));
        assert(lists@.take(n + 1).drop_last() =~= lists@.take(n as int));
        proof {
            lemma_totals_grow(lists@, n + 1);
        }
        vertex_start = vertex_start + lists[n].vertex_count as usize;
        index_start = index_start + lists[n].index_count as usize;
        n = n + 1;
    }
    out
}

/// The pipeline the UI is drawn with: no culling, counter-clockwise front faces, triangle lists,
/// filled polygons, translucent blending, depth testing and lines of the default width.
pub fn ui_pipeline_config() -> (r: PipelineConfig)
    ensures
        r == (PipelineConfig {
            culling: 0,
            front_face: 0,
            topology: 3,
            polygon_mode: 0,
            alpha_mode: AlphaMode::Translucent,
            depth_test: true,
            default_line_width: true,
        }),
{
    PipelineConfig {
        culling: 0,
        front_face: 0,
        topology: 3,
        polygon_mode: 0,
        alpha_mode: AlphaMode::Translucent,
        depth_test: true,
        default_line_width: true,
    }
}

/// The vertex inputs of the UI: a 2-float position at 0, a 2-float texture coordinate at 8 and
/// an RGBA8 color at 16, as raw format values.
pub open spec fn spec_ui_vertex_inputs() -> Seq<ShaderStageInput> {
    seq![
        ShaderStageInput { location: 0, offset: 0, input_size: 8, format: 103 },
        ShaderStageInput { location: 1, offset: 8, input_size: 8, format: 103 },
        ShaderStageInput { location: 2, offset: 16, input_size: 4, format: 37 },
    ]
}

/// The bindings of the UI's fragment stage: the font image at 0 and its sampler at 1.
pub open spec fn spec_ui_fragment_bindings() -> Seq<DescriptorBinding> {
    seq![
        DescriptorBinding { binding: 0, descriptor_type: 2 },
        DescriptorBinding { binding: 1, descriptor_type: 0 },
    ]
}

/// The two shader stages the UI is drawn with: a vertex stage reading the UI vertex, and a
/// fragment stage sampling the font image.
pub fn ui_stages() -> (r: Vec<StageInputs>)
    ensures
        r@.len() == 2,
        r@[0].stage_flags == 1,
        r@[0].inputs@ == spec_ui_vertex_inputs(),
        r@[0].descriptor_bindings@.len() == 0,
        r@[1].stage_flags == 16,
        r@[1].inputs@.len() == 0,
        r@[1].descriptor_bindings@ == spec_ui_fragment_bindings(),
{
    let inputs = vec![
        ShaderStageInput { location: 0, offset: 0, input_size: 8, format: 103 },
        ShaderStageInput { location: 1, offset: 8, input_size: 8, format: 103 },
        ShaderStageInput { location: 2, offset: 16, input_size: 4, format: 37 },
    ];
    assert(inputs@ =~= spec_ui_vertex_inputs());
    let bindings = vec![
        DescriptorBinding { binding: 0, descriptor_type: 2 },
        DescriptorBinding { binding: 1, descriptor_type: 0 },
    ];
    assert(bindings@ =~= spec_ui_fragment_bindings());
    let vertex = StageInputs { stage_flags: 1, inputs, descriptor_bindings: Vec::new() };
    let fragment = StageInputs { stage_flags: 16, inputs: Vec::new(), descriptor_bindings: bindings };
    vec![vertex, fragment]
}

/// The byte size of the RGBA font atlas of `width` by `height` pixels: four bytes a pixel.
/// Negative sizes, or a size past `i32::MAX`, give `None`.
pub fn font_atlas_size(width: i32, height: i32) -> (r: Option<usize>)
    ensures
        match r {
            Some(n) => 0 <= width && 0 <= height && n == width * height * 4,
            None => width < 0 || height < 0 || width * height * 4 > i32::MAX,
        },
{
    if width < 0 || height < 0 {
        return None;
    }
    let w = width as u64;
    let h = height as u64;
    assert(w * h <= 0x7FFF_FFFF * 0x7FFF_FFFF) by (nonlinear_arith)
        requires
            w <= 0x7FFF_FFFF,
            h <= 0x7FFF_FFFF,
    ;
    let size = w * h * 4;
    if size > 0x7FFF_FFFF {
        return None;
    }
    Some(size as usize)
}

} // verus!
