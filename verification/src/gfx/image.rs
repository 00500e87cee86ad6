use vstd::prelude::*;

verus! {

/// The layout of an image, as far as layout transitions tell layouts apart.
#[derive(Clone, Copy, Debug, PartialEq, Eq, Structural)]
pub enum ImageLayout {
    Undefined,
    TransferDstOptimal,
    ShaderReadOnlyOptimal,
    /// Any other layout, by its raw driver value.
    Other(i32),
}

/// The accesses a barrier waits for or makes wait.
#[derive(Clone, Copy, Debug, PartialEq, Eq, Structural)]
pub enum AccessMask {
    Nothing,
    TransferWrite,
    ShaderRead,
}

/// A stage of the pipeline a barrier sits between.
#[derive(Clone, Copy, Debug, PartialEq, Eq, Structural)]
pub enum PipelineStage {
    TopOfPipe,
    Transfer,
    FragmentShader,
}

/// The aspect of an image that a barrier or a copy covers.
#[derive(Clone, Copy, Debug, PartialEq, Eq, Structural)]
pub enum ImageAspect {
    Color,
    Depth,
}

/// A pipeline barrier that moves every mip level of an image's single layer from one layout to
/// another.
#[derive(Clone, Copy, Debug, PartialEq, Eq, Structural)]
pub struct LayoutBarrier {
    pub old_layout: ImageLayout,
    pub new_layout: ImageLayout,
    pub src_access: AccessMask,
    pub dst_access: AccessMask,
    pub src_stage: PipelineStage,
    pub dst_stage: PipelineStage,
    pub aspect: ImageAspect,
    pub level_count: u32,
}

/// The transitions images go through: from nothing to a copy destination, and from a copy
/// destination to what shaders read.
pub open spec fn supported(old: ImageLayout, new: ImageLayout) -> bool {
    ||| old == ImageLayout::Undefined && new == ImageLayout::TransferDstOptimal
    ||| old == ImageLayout::TransferDstOptimal && new == ImageLayout::ShaderReadOnlyOptimal
}

pub open spec fn spec_aspect(is_depth: bool) -> ImageAspect {
    if is_depth {
        ImageAspect::Depth
    } else {
        ImageAspect::Color
    }
}

/// The barrier of a supported transition: nothing to wait for before a copy writes the
/// image; the copy's writes before fragment shaders read it.
pub open spec fn spec_barrier(old: ImageLayout, new: ImageLayout, is_depth: bool, mip_levels: u32) -> LayoutBarrier {
    if old == ImageLayout::Undefined {
        LayoutBarrier {
            old_layout: old,
            new_layout: new,
            src_access: AccessMask::Nothing,
            dst_access: AccessMask::TransferWrite,
            src_stage: PipelineStage::TopOfPipe,
            dst_stage: PipelineStage::Transfer,
            aspect: spec_aspect(is_depth),
            level_count: mip_levels,
        }
    } else {
        LayoutBarrier {
            old_layout: old,
            new_layout: new,
            src_access: AccessMask::TransferWrite,
            dst_access: AccessMask::ShaderRead,
            src_stage: PipelineStage::Transfer,
            dst_stage: PipelineStage::FragmentShader,
            aspect: spec_aspect(is_depth),
            level_count: mip_levels,
        }
    }
}

/// Whether an image can go from layout `old` to layout `new`.
pub fn is_supported_transition(old: ImageLayout, new: ImageLayout) -> (r: bool)
    ensures
        r == supported(old, new),
{
    match (old, new) {
        (ImageLayout::Undefined, ImageLayout::TransferDstOptimal) => true,
        (ImageLayout::TransferDstOptimal, ImageLayout::ShaderReadOnlyOptimal) => true,
        _ => false,
    }
}

/// The aspect of a depth image, or of a color image.
pub fn aspect(is_depth: bool) -> (r: ImageAspect)
    ensures
        r == spec_aspect(is_depth),
{
    if is_depth {
        ImageAspect::Depth
    } else {
        ImageAspect::Color
    }
}

/// The layout an image is in, with what its barriers cover.
pub struct ImageState {
    layout: ImageLayout,
    is_depth: bool,
    mip_levels: u32,
}

impl ImageState {
    pub closed spec fn spec_layout(&self) -> ImageLayout {
        self.layout
    }

    pub closed spec fn spec_is_depth(&self) -> bool {
        self.is_depth
    }

    pub closed spec fn spec_mip_levels(&self) -> u32 {
        self.mip_levels
    }

    /// A new image, whose layout is undefined.
    pub fn new(is_depth: bool, mip_levels: u32) -> (r: ImageState)
        ensures
            r.spec_layout() == ImageLayout::Undefined,
            r.spec_is_depth() == is_depth,
            r.spec_mip_levels() == mip_levels,
    {
        ImageState { layout: ImageLayout::Undefined, is_depth, mip_levels }
    }

    pub fn layout(&self) -> (r: ImageLayout)
        ensures
            r == self.spec_layout(),
    {
        self.layout
    }

    /// Moves the image to `new_layout` and returns the barrier that does it; only the supported
    /// transitions can be asked for.
    pub fn transition(&mut self, new_layout: ImageLayout) -> (r: LayoutBarrier)
        requires
            supported(old(self).spec_layout(), new_layout),
        ensures
            r == spec_barrier(old(self).spec_layout(), new_layout, old(self).spec_is_depth(), old(self).spec_mip_levels()),
            r.aspect == (if old(self).spec_is_depth() { ImageAspect::Depth } else { ImageAspect::Color }),
            r.old_layout == old(self).spec_layout(),
            r.new_layout == new_layout,
            r.level_count == old(self).spec_mip_levels(),
            final(self).spec_layout() == new_layout,
            final(self).spec_is_depth() == old(self).spec_is_depth(),
            final(self).spec_mip_levels() == old(self).spec_mip_levels(),
    {
        let old_layout = self.layout;
        let barrier = match old_layout {
            ImageLayout::Undefined => LayoutBarrier {
                old_layout,
                new_layout,
                src_access: AccessMask::Nothing,
                dst_access: AccessMask::TransferWrite,
                src_stage: PipelineStage::TopOfPipe,
                dst_stage: PipelineStage::Transfer,
                aspect: aspect(self.is_depth),
                level_count: self.mip_levels,
            },
            _ => LayoutBarrier {
                old_layout,
                new_layout,
                src_access: AccessMask::TransferWrite,
                dst_access: AccessMask::ShaderRead,
                src_stage: PipelineStage::Transfer,
                dst_stage: PipelineStage::FragmentShader,
                aspect: aspect(self.is_depth),
                level_count: self.mip_levels,
            },
        };
        self.layout = new_layout;
        barrier
    }

    /// The barriers around copying data into a new image: into a copy destination before the
    /// copy, then ready for shaders to read.
    pub fn upload_barriers(&mut self) -> (r: (LayoutBarrier, LayoutBarrier))
        requires
            old(self).spec_layout() == ImageLayout::Undefined,
        ensures
            r.0 == spec_barrier(ImageLayout::Undefined, ImageLayout::TransferDstOptimal, old(self).spec_is_depth(), old(self).spec_mip_levels()),
            r.1 == spec_barrier(ImageLayout::TransferDstOptimal, ImageLayout::ShaderReadOnlyOptimal, old(self).spec_is_depth(), old(self).spec_mip_levels()),
            r.0.aspect == (if old(self).spec_is_depth() { ImageAspect::Depth } else { ImageAspect::Color }),
            r.1.aspect == (if old(self).spec_is_depth() { ImageAspect::Depth } else { ImageAspect::Color }),
            final(self).spec_layout() == ImageLayout::ShaderReadOnlyOptimal,
            final(self).spec_is_depth() == old(self).spec_is_depth(),
            final(self).spec_mip_levels() == old(self).spec_mip_levels(),
    {
        let before = self.transition(ImageLayout::TransferDstOptimal);
        let after = self.transition(ImageLayout::ShaderReadOnlyOptimal);
        (before, after)
    }
}

/// Every barrier covers the depth aspect of a depth image and the color aspect of any other,
/// whichever layouts it goes between, and all of the image's mip levels.
pub proof fn lemma_barrier_aspect(old: ImageLayout, new: ImageLayout, is_depth: bool, mip_levels: u32)
    ensures
        is_depth ==> spec_barrier(old, new, is_depth, mip_levels).aspect == ImageAspect::Depth,
        !is_depth ==> spec_barrier(old, new, is_depth, mip_levels).aspect == ImageAspect::Color,
        spec_barrier(old, new, is_depth, mip_levels).level_count == mip_levels,
        spec_barrier(old, new, is_depth, mip_levels).old_layout == old,
        spec_barrier(old, new, is_depth, mip_levels).new_layout == new,
{
}

/// Every supported transition leaves the image in a layout from which at most one transition
/// is supported, and data can be uploaded into an image only once: after the upload no
/// transition is supported any more.
pub proof fn lemma_upload_once(layout: ImageLayout)
    ensures
        supported(ImageLayout::Undefined, layout) ==> layout == ImageLayout::TransferDstOptimal,
        supported(ImageLayout::TransferDstOptimal, layout) ==> layout == ImageLayout::ShaderReadOnlyOptimal,
        !supported(ImageLayout::ShaderReadOnlyOptimal, layout),
{
}

} // verus!
