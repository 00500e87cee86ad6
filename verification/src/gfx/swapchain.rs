use vstd::prelude::*;

verus! {

/// A width and a height in pixels.
#[derive(Clone, Copy, Debug, PartialEq, Eq, Structural)]
pub struct Extent2D {
    pub width: u32,
    pub height: u32,
}

/// A pixel format with its color space, as raw driver values.
#[derive(Clone, Copy, Debug, PartialEq, Eq, Structural)]
pub struct SurfaceFormat {
    pub format: i32,
    pub color_space: i32,
}

/// What a surface reports of the images a swapchain may have.
#[derive(Clone, Copy, Debug, PartialEq, Eq, Structural)]
pub struct SurfaceCapabilities {
    pub min_image_count: u32,
    pub max_image_count: u32,
    pub current_extent: Extent2D,
    pub min_image_extent: Extent2D,
    pub max_image_extent: Extent2D,
}

/// What a surface supports, as the swapchain configuration reads it.
pub struct SwapchainSupport {
    pub capabilities: SurfaceCapabilities,
    pub formats: Vec<SurfaceFormat>,
    pub present_modes: Vec<i32>,
}

/// The first format of `formats` equal to `preferred`, or the first format when none is.
pub open spec fn spec_surface_format(formats: Seq<SurfaceFormat>, preferred: SurfaceFormat) -> SurfaceFormat {
    if formats.contains(preferred) {
        preferred
    } else {
        formats[0]
    }
}

/// `preferred` when `modes` holds it, else `fallback`.
pub open spec fn spec_present_mode(modes: Seq<i32>, preferred: i32, fallback: i32) -> i32 {
    if modes.contains(preferred) {
        preferred
    } else {
        fallback
    }
}

/// The preferred format is chosen wherever the surface lists it; only when it lists it
/// nowhere is the first listed format taken.
pub proof fn lemma_surface_format_choice(formats: Seq<SurfaceFormat>, preferred: SurfaceFormat, i: int)
    requires
        formats.len() > 0,
    ensures
        0 <= i < formats.len() && formats[i] == preferred ==> spec_surface_format(formats, preferred) == preferred,
        (forall|j: int| 0 <= j < formats.len() ==> formats[j] != preferred) ==> spec_surface_format(formats, preferred)
            == formats[0],
{
    if 0 <= i < formats.len() && formats[i] == preferred {
        assert(formats.contains(preferred));
    }
}

/// The preferred present mode is chosen wherever the surface lists it; only when it lists it
/// nowhere is the fallback taken.
pub proof fn lemma_present_mode_choice(modes: Seq<i32>, preferred: i32, fallback: i32, i: int)
    ensures
        0 <= i < modes.len() && modes[i] == preferred ==> spec_present_mode(modes, preferred, fallback) == preferred,
        (forall|j: int| 0 <= j < modes.len() ==> modes[j] != preferred) ==> spec_present_mode(modes, preferred, fallback)
            == fallback,
{
    if 0 <= i < modes.len() && modes[i] == preferred {
        assert(modes.contains(preferred));
    }
}

pub open spec fn spec_clamp(v: u32, lo: u32, hi: u32) -> u32 {
    if v < lo {
        lo
    } else if v > hi {
        hi
    } else {
        v
    }
}

/// The extent of the swapchain images: the surface's current extent when it has one (a width
/// other than `u32::MAX`), else the window width clamped to the allowed widths, and, for the
/// height too, the window width clamped to the allowed heights.
pub open spec fn spec_swapchain_extent(window_width: u32, caps: SurfaceCapabilities) -> Extent2D {
    if caps.current_extent.width != u32::MAX {
        caps.current_extent
    } else {
        Extent2D {
            width: spec_clamp(window_width, caps.min_image_extent.width, caps.max_image_extent.width),
            height: spec_clamp(window_width, caps.min_image_extent.height, caps.max_image_extent.height),
        }
    }
}

fn clamp_u32(v: u32, lo: u32, hi: u32) -> (r: u32)
    requires
        lo <= hi,
    ensures
        r == spec_clamp(v, lo, hi),
{
    if v < lo {
        lo
    } else if v > hi {
        hi
    } else {
        v
    }
}

impl SwapchainSupport {
    /// The surface format to create the swapchain with: `preferred` when the surface offers
    /// it, else the first format offered.
    pub fn get_swapchain_surface_format(&self, preferred: SurfaceFormat) -> (r: SurfaceFormat)
        requires
            self.formats.len() > 0,
        ensures
            r == spec_surface_format(self.formats@, preferred),
            self.formats@.contains(preferred) ==> r == preferred,
            !self.formats@.contains(preferred) ==> r == self.formats@[0],
    {
        let mut i: usize = 0;
        while i < self.formats.len()
            invariant
                i <= self.formats.len(),
                forall|j: int| 0 <= j < i ==> self.formats@[j] != preferred,
            decreases self.formats.len() - i,
        {
            if self.formats[i] == preferred {
                assert(self.formats@[i as int] == preferred);
                return preferred;
            }
            i = i + 1;
        }
        self.formats[0]
    }

    /// The present mode: `preferred` when the surface offers it, else `fallback`.
    pub fn get_swapchain_present_mode(&self, preferred: i32, fallback: i32) -> (r: i32)
        ensures
            r == spec_present_mode(self.present_modes@, preferred, fallback),
            self.present_modes@.contains(preferred) ==> r == preferred,
            !self.present_modes@.contains(preferred) ==> r == fallback,
    {
        let mut i: usize = 0;
        while i < self.present_modes.len()
            invariant
                i <= self.present_modes.len(),
                forall|j: int| 0 <= j < i ==> self.present_modes@[j] != preferred,
            decreases self.present_modes.len() - i,
        {
            if self.present_modes[i] == preferred {
                assert(self.present_modes@[i as int] == preferred);
                return preferred;
            }
            i = i + 1;
        }
        fallback
    }

    /// The extent of the swapchain images for a window `window_width` pixels wide.
    pub fn get_swapchain_extent(&self, window_width: u32) -> (r: Extent2D)
        requires
            self.capabilities.current_extent.width == u32::MAX ==> (
            self.capabilities.min_image_extent.width <= self.capabilities.max_image_extent.width
                && self.capabilities.min_image_extent.height
                <= self.capabilities.max_image_extent.height),
        ensures
            r == spec_swapchain_extent(window_width, self.capabilities),
    {
        let caps = self.capabilities;
        if caps.current_extent.width != u32::MAX {
            caps.current_extent
        } else {
            Extent2D {
                width: clamp_u32(window_width, caps.min_image_extent.width, caps.max_image_extent.width),
                height: clamp_u32(
                    window_width,
                    caps.min_image_extent.height,
                    caps.max_image_extent.height,
                ),
            }
        }
    }

    /// The number of swapchain images to ask for: one more than the minimum, but no more
    /// than the maximum the surface reports.
    pub fn image_count(&self) -> (r: u32)
        requires
            self.capabilities.min_image_count < u32::MAX,
        ensures
            r == if self.capabilities.min_image_count + 1 <= self.capabilities.max_image_count {
                self.capabilities.min_image_count + 1
            } else {
                self.capabilities.max_image_count as int
            },
    {
        let wanted = self.capabilities.min_image_count + 1;
        if wanted <= self.capabilities.max_image_count {
            wanted
        } else {
            self.capabilities.max_image_count
        }
    }
}

/// How swapchain images are shared between the graphic and present families: exclusively
/// when they are the same family, else concurrently between the two.
#[derive(Clone, Debug, PartialEq, Eq)]
pub enum ImageSharing {
    Exclusive,
    Concurrent(Vec<u32>),
}

pub fn image_sharing(graphic_family: usize, present_family: usize) -> (r: ImageSharing)
    requires
        graphic_family <= u32::MAX,
        present_family <= u32::MAX,
    ensures
        graphic_family == present_family ==> r is Exclusive,
        graphic_family != present_family ==> (r matches ImageSharing::Concurrent(v) && v@ == seq![
            graphic_family as u32,
            present_family as u32,
        ]),
{
    if graphic_family != present_family {
        let mut indices: Vec<u32> = Vec::new();
        indices.push(graphic_family as u32);
        indices.push(present_family as u32);
        ImageSharing::Concurrent(indices)
    } else {
        ImageSharing::Exclusive
    }
}

/// The frame in flight and the swapchain image it draws to.
#[derive(Clone, Copy, Debug, PartialEq, Eq, Structural)]
pub struct FrameData {
    pub frame_index: usize,
    pub target_index: usize,
}

/// The frame that follows `current` when `image_count` frames are in flight.
pub fn next_frame(current: usize, image_count: usize) -> (r: usize)
    requires
        image_count > 0,
        current < usize::MAX,
    ensures
        r == (current + 1) % (image_count as int),
        r < image_count,
{
    (current + 1) % image_count
}

/// The number of framebuffers and of internal images per attachment for a render pass that
/// draws into `swapchain_images` swapchain images: one framebuffer per image, one internal
/// image fewer.
pub fn swapchain_target_counts(swapchain_images: usize) -> (r: (usize, usize))
    requires
        swapchain_images > 0,
    ensures
        r == (swapchain_images, (swapchain_images - 1) as usize),
{
    (swapchain_images, swapchain_images - 1)
}

} // verus!
