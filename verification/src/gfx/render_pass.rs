use vstd::prelude::*;
use crate::gfx::swapchain::Extent2D;

verus! {

/// A rectangle that drawing is clipped to.
#[derive(Clone, Copy, Debug, PartialEq, Eq, Structural)]
pub struct Scissors {
    pub min_x: i32,
    pub min_y: i32,
    pub width: u32,
    pub height: u32,
}

impl Scissors {
    /// The whole of a target of size `extent`.
    pub fn full(extent: Extent2D) -> (r: Scissors)
        ensures
            r == (Scissors { min_x: 0, min_y: 0, width: extent.width, height: extent.height }),
    {
        Scissors { min_x: 0, min_y: 0, width: extent.width, height: extent.height }
    }
}

/// How an attachment is cleared when a pass begins (the clear values themselves are kept by
/// the caller).
#[derive(Clone, Copy, Debug, PartialEq, Eq, Structural)]
pub enum ClearKind {
    DontClear,
    Color,
    DepthStencil,
}

/// What an attachment is drawn into.
#[derive(Clone, Copy, Debug, PartialEq, Eq, Structural)]
pub enum RenderTarget {
    /// The images of the window the pass presents to.
    Window,
    /// An image of the given format.
    Image(i32),
    /// An image of the given format that the frame graph creates.
    Internal(i32),
}

/// An attachment of a render pass.
#[derive(Clone, Copy, Debug, PartialEq, Eq, Structural)]
pub struct RenderPassAttachment {
    pub clear: ClearKind,
    pub source: RenderTarget,
}

/// What is done to an attachment when a pass begins.
#[derive(Clone, Copy, Debug, PartialEq, Eq, Structural)]
pub enum LoadOp {
    DontCare,
    Clear,
}

/// The layout an attachment is left in when the pass ends.
#[derive(Clone, Copy, Debug, PartialEq, Eq, Structural)]
pub enum FinalLayout {
    PresentSource,
    ShaderReadOnly,
}

/// How an attachment is described to the driver.
#[derive(Clone, Copy, Debug, PartialEq, Eq, Structural)]
pub struct AttachmentDescription {
    pub format: i32,
    pub load_op: LoadOp,
    pub final_layout: FinalLayout,
    pub index: u32,
}

pub open spec fn spec_load_op(clear: ClearKind) -> LoadOp {
    if clear == ClearKind::DontClear { LoadOp::DontCare } else { LoadOp::Clear }
}

/// The format of a color attachment: the window's format for the window's images.
pub open spec fn spec_color_format(source: RenderTarget, window_format: i32) -> i32 {
    match source {
        RenderTarget::Window => window_format,
        RenderTarget::Image(f) => f,
        RenderTarget::Internal(f) => f,
    }
}

/// The description of color attachment `index`: it is cleared unless told not to, and left
/// ready to present when it is a window image, ready to be read by shaders otherwise.
pub open spec fn spec_color_description(a: RenderPassAttachment, window_format: i32, index: int) -> AttachmentDescription {
    AttachmentDescription {
        format: spec_color_format(a.source, window_format),
        load_op: spec_load_op(a.clear),
        final_layout: if a.source == RenderTarget::Window { FinalLayout::PresentSource } else { FinalLayout::ShaderReadOnly },
        index: index as u32,
    }
}

/// The attachments of a pass in order: the color attachments, then the depth attachment,
/// which is left ready to be read by shaders.
pub open spec fn spec_describe(colors: Seq<RenderPassAttachment>, depth: Option<RenderPassAttachment>, window_format: i32) -> Seq<AttachmentDescription> {
    let c = Seq::new(colors.len(), |i: int| spec_color_description(colors[i], window_format, i));
    match depth {
        None => c,
        Some(d) => c.push(AttachmentDescription {
            format: spec_color_format(d.source, window_format),
            load_op: spec_load_op(d.clear),
            final_layout: FinalLayout::ShaderReadOnly,
            index: colors.len() as u32,
        }),
    }
}

/// Describes the attachments of a pass. Window images may only be color attachments of a
/// pass that presents to a window (whose images have `window_format`).
pub fn describe_attachments(
    colors: &Vec<RenderPassAttachment>,
    depth: Option<RenderPassAttachment>,
    presents: bool,
    window_format: i32,
) -> (r: Vec<AttachmentDescription>)
    requires
        colors.len() < u32::MAX,
        !presents ==> forall|i: int| 0 <= i < colors.len() ==> colors@[i].source != RenderTarget::Window,
        depth matches Some(d) ==> d.source != RenderTarget::Window,
    ensures
        r@ == spec_describe(colors@, depth, window_format),
{
    let mut out: Vec<AttachmentDescription> = Vec::new();
    let mut i: usize = 0;
    while i < colors.len()
        invariant
            i <= colors.len(),
            colors.len() < u32::MAX,
            out@ =~= Seq::new(i as nat, |k: int| spec_color_description(colors@[k], window_format, k)),
        decreases colors.len() - i,
    {
        let a = colors[i];
        let format = match a.source {
            RenderTarget::Window => window_format,
            RenderTarget::Image(f) => f,
            RenderTarget::Internal(f) => f,
        };
        let load_op = match a.clear {
            ClearKind::DontClear => LoadOp::DontCare,
            _ => LoadOp::Clear,
        };
        let final_layout = match a.source {
            RenderTarget::Window => FinalLayout::PresentSource,
            _ => FinalLayout::ShaderReadOnly,
        };
        out.push(AttachmentDescription { format, load_op, final_layout, index: i as u32 });
        i = i + 1;
    }
    if let Some(d) = depth {
        let format = match d.source {
            RenderTarget::Window => window_format,
            RenderTarget::Image(f) => f,
            RenderTarget::Internal(f) => f,
        };
        let load_op = match d.clear {
            ClearKind::DontClear => LoadOp::DontCare,
            _ => LoadOp::Clear,
        };
        out.push(AttachmentDescription { format, load_op, final_layout: FinalLayout::ShaderReadOnly, index: colors.len() as u32 });
    }
    out
}

/// The attachments of a frame-graph pass, whose targets are the window's surface or images:
/// a color attachment on the surface has the surface's format and is left ready to present; a
/// depth attachment on the surface has the surface's format too, and is left ready to be read
/// by shaders like any other depth attachment.
pub open spec fn spec_describe_graph(colors: Seq<RenderPassAttachment>, depth: Option<RenderPassAttachment>, surface_format: i32) -> Seq<AttachmentDescription> {
    spec_describe(colors, depth, surface_format)
}

/// Describes the attachments of a frame-graph pass drawing to a surface of `surface_format`.
pub fn describe_graph_attachments(
    colors: &Vec<RenderPassAttachment>,
    depth: Option<RenderPassAttachment>,
    surface_format: i32,
) -> (r: Vec<AttachmentDescription>)
    requires
        colors.len() < u32::MAX,
    ensures
        r@ == spec_describe_graph(colors@, depth, surface_format),
{
    let mut out: Vec<AttachmentDescription> = Vec::new();
    let mut i: usize = 0;
    while i < colors.len()
        invariant
            i <= colors.len(),
            colors.len() < u32::MAX,
            out@ =~= Seq::new(i as nat, |k: int| spec_color_description(colors@[k], surface_format, k)),
        decreases colors.len() - i,
    {
        let a = colors[i];
        let format = match a.source {
            RenderTarget::Window => surface_format,
            RenderTarget::Image(f) => f,
            RenderTarget::Internal(f) => f,
        };
        let load_op = match a.clear {
            ClearKind::DontClear => LoadOp::DontCare,
            _ => LoadOp::Clear,
        };
        let final_layout = match a.source {
            RenderTarget::Window => FinalLayout::PresentSource,
            _ => FinalLayout::ShaderReadOnly,
        };
        out.push(AttachmentDescription { format, load_op, final_layout, index: i as u32 });
        i = i + 1;
    }
    if let Some(d) = depth {
        let format = match d.source {
            RenderTarget::Window => surface_format,
            RenderTarget::Image(f) => f,
            RenderTarget::Internal(f) => f,
        };
        let load_op = match d.clear {
            ClearKind::DontClear => LoadOp::DontCare,
            _ => LoadOp::Clear,
        };
        out.push(AttachmentDescription { format, load_op, final_layout: FinalLayout::ShaderReadOnly, index: colors.len() as u32 });
    }
    out
}

/// An attachment given by its format (a raw driver value, 0 being the undefined format) and
/// whether a clear value comes with it.
#[derive(Clone, Copy, Debug, PartialEq, Eq, Structural)]
pub struct ConfiguredAttachment {
    pub format: i32,
    pub has_clear_value: bool,
}

/// The undefined pixel format.
pub open spec fn undefined_format() -> i32 {
    0
}

/// How an attachment given with its format is loaded: an attachment that comes with a clear
/// value is not cleared, one without is.
pub open spec fn spec_configured_load(a: ConfiguredAttachment) -> LoadOp {
    if a.has_clear_value { LoadOp::DontCare } else { LoadOp::Clear }
}

/// The attachments of a pass configured by formats: colors first, left ready to present when
/// the pass presents and ready to be read by shaders otherwise, then the depth attachment,
/// ready to be read by shaders.
pub open spec fn spec_describe_configured(colors: Seq<ConfiguredAttachment>, depth: Option<ConfiguredAttachment>, is_present_pass: bool) -> Seq<AttachmentDescription> {
    let c = Seq::new(
        colors.len(),
        |i: int|
            AttachmentDescription {
                format: colors[i].format,
                load_op: spec_configured_load(colors[i]),
                final_layout: if is_present_pass { FinalLayout::PresentSource } else { FinalLayout::ShaderReadOnly },
                index: i as u32,
            },
    );
    match depth {
        None => c,
        Some(d) => c.push(AttachmentDescription {
            format: d.format,
            load_op: spec_configured_load(d),
            final_layout: FinalLayout::ShaderReadOnly,
            index: colors.len() as u32,
        }),
    }
}

/// Describes the attachments of a pass configured by formats; no attachment may have the
/// undefined format.
pub fn describe_configured_attachments(
    colors: &Vec<ConfiguredAttachment>,
    depth: Option<ConfiguredAttachment>,
    is_present_pass: bool,
) -> (r: Vec<AttachmentDescription>)
    requires
        colors.len() < u32::MAX,
        forall|i: int| 0 <= i < colors.len() ==> colors@[i].format != undefined_format(),
        depth matches Some(d) ==> d.format != undefined_format(),
    ensures
        r@ == spec_describe_configured(colors@, depth, is_present_pass),
{
    let mut out: Vec<AttachmentDescription> = Vec::new();
    let mut i: usize = 0;
    while i < colors.len()
        invariant
            i <= colors.len(),
            colors.len() < u32::MAX,
            out@ =~= spec_describe_configured(colors@.take(i as int), None, is_present_pass),
        decreases colors.len() - i,
    {
        let a = colors[i];
        let load_op = if a.has_clear_value { LoadOp::DontCare } else { LoadOp::Clear };
        let final_layout = if is_present_pass { FinalLayout::PresentSource } else { FinalLayout::ShaderReadOnly };
        out.push(AttachmentDescription { format: a.format, load_op, final_layout, index: i as u32 });
        i = i + 1;
    }
    assert(colors@.take(colors.len() as int) =~= colors@);
    if let Some(d) = depth {
        let load_op = if d.has_clear_value { LoadOp::DontCare } else { LoadOp::Clear };
        out.push(AttachmentDescription { format: d.format, load_op, final_layout: FinalLayout::ShaderReadOnly, index: colors.len() as u32 });
    }
    out
}

/// The formats of the images a frame graph creates for a pass that feeds another one: every
/// attachment of such a pass must be internal.
pub fn internal_formats(colors: &Vec<RenderPassAttachment>, depth: Option<RenderPassAttachment>) -> (r: Vec<(i32, bool)>)
    requires
        forall|i: int| 0 <= i < colors.len() ==> colors@[i].source is Internal,
        depth matches Some(d) ==> d.source is Internal,
    ensures
        r@.len() == colors@.len() + if depth is Some { 1int } else { 0int },
        forall|i: int| 0 <= i < colors.len() ==> r@[i] == (colors@[i].source->Internal_0, false),
        depth matches Some(d) ==> r@[colors@.len() as int] == (d.source->Internal_0, true),
{
    let mut out: Vec<(i32, bool)> = Vec::new();
    let mut i: usize = 0;
    while i < colors.len()
        invariant
            i <= colors.len(),
            out@.len() == i,
            forall|i: int| 0 <= i < colors.len() ==> colors@[i].source is Internal,
            forall|k: int| 0 <= k < i ==> out@[k] == (colors@[k].source->Internal_0, false),
        decreases colors.len() - i,
    {
        match colors[i].source {
            RenderTarget::Internal(f) => out.push((f, false)),
            _ => {},
        }
        i = i + 1;
    }
    if let Some(d) = depth {
        match d.source {
            RenderTarget::Internal(f) => out.push((f, true)),
            _ => {},
        }
    }
    out
}

/// What a pass instance draws into.
#[derive(Clone, Copy, Debug, PartialEq, Eq, Structural)]
pub enum FrameTarget {
    /// The images of a window's swapchain.
    Swapchain,
    /// Images that the user handed over.
    Image,
    /// Images that the frame graph made for a pass that feeds another one.
    Internal,
}

/// A semaphore that the submission of a pass waits on.
#[derive(Clone, Copy, Debug, PartialEq, Eq, Structural)]
pub enum WaitSource {
    /// The swapchain image of frame `0` is available.
    ImageAvailable(usize),
    /// Child pass `0` finished rendering frame `1`.
    ChildFinished(usize, usize),
}

/// How the recorded commands of a pass are finished and submitted.
pub struct SubmitPlan {
    /// Whether the UI is drawn on top of the pass's content.
    pub draws_ui: bool,
    /// What the submission waits on, in order.
    pub waits: Vec<WaitSource>,
    /// Whether the submission signals the in-flight fence of the frame.
    pub signals_in_flight_fence: bool,
}

/// The clear values of a pass, one per attachment, colors first: an attachment that is not
/// cleared gets the default value. A color attachment cleared as depth, or a depth attachment
/// cleared as color, is a mistake of the caller.
pub fn clear_values(colors: &Vec<RenderPassAttachment>, depth: Option<RenderPassAttachment>) -> (r: Vec<ClearKind>)
    requires
        forall|i: int| 0 <= i < colors.len() ==> colors@[i].clear != ClearKind::DepthStencil,
        depth matches Some(d) ==> d.clear != ClearKind::Color,
    ensures
        r@ == (match depth {
            None => colors@.map_values(|a: RenderPassAttachment| a.clear),
            Some(d) => colors@.map_values(|a: RenderPassAttachment| a.clear).push(d.clear),
        }),
{
    let mut out: Vec<ClearKind> = Vec::new();
    let mut i: usize = 0;
    while i < colors.len()
        invariant
            i <= colors.len(),
            out@ == colors@.take(i as int).map_values(|a: RenderPassAttachment| a.clear),
        decreases colors.len() - i,
    {
        out.push(colors[i].clear);
        assert(colors@.take(i + 1).map_values(|a: RenderPassAttachment| a.clear) =~= colors@.take(i as int).map_values(
            |a: RenderPassAttachment| a.clear,
        ).push(colors@[i as int].clear));
        i = i + 1;
    }
    assert(colors@.take(colors.len() as int) =~= colors@);
    if let Some(d) = depth {
        out.push(d.clear);
    }
    out
}

/// How a pass drawing frame `frame_index` is submitted after its `child_count` children: the
/// UI is drawn over passes that are not internal; a pass on a swapchain first waits for the
/// frame's image and signals the frame's fence; then it waits for each child, in order.
pub fn submit_plan(target: FrameTarget, child_count: usize, frame_index: usize) -> (r: SubmitPlan)
    ensures
        r.draws_ui == (target != FrameTarget::Internal),
        r.signals_in_flight_fence == (target == FrameTarget::Swapchain),
        r.waits@ == (if target == FrameTarget::Swapchain {
            seq![WaitSource::ImageAvailable(frame_index)]
        } else {
            Seq::empty()
        }) + Seq::new(child_count as nat, |c: int| WaitSource::ChildFinished(c as usize, frame_index)),
{
    let on_swapchain = match target {
        FrameTarget::Swapchain => true,
        _ => false,
    };
    let draws_ui = match target {
        FrameTarget::Internal => false,
        _ => true,
    };
    let mut waits: Vec<WaitSource> = Vec::new();
    if on_swapchain {
        waits.push(WaitSource::ImageAvailable(frame_index));
    }
    let ghost head = waits@;
    let mut c: usize = 0;
    while c < child_count
        invariant
            c <= child_count,
            waits@ == head + Seq::new(c as nat, |k: int| WaitSource::ChildFinished(k as usize, frame_index)),
        decreases child_count - c,
    {
        waits.push(WaitSource::ChildFinished(c, frame_index));
        assert(Seq::new((c + 1) as nat, |k: int| WaitSource::ChildFinished(k as usize, frame_index)) =~= Seq::new(
            c as nat,
            |k: int| WaitSource::ChildFinished(k as usize, frame_index),
        ).push(WaitSource::ChildFinished(c, frame_index)));
        c = c + 1;
    }
    SubmitPlan { draws_ui, waits, signals_in_flight_fence: on_swapchain }
}

} // verus!
