use asaogea::gfx::swapchain::{
    image_sharing, next_frame, swapchain_target_counts, Extent2D, ImageSharing, SurfaceCapabilities, SurfaceFormat,
    SwapchainSupport,
};

const B8G8R8A8_SRGB: i32 = 50;
const R8G8B8A8_UNORM: i32 = 37;
const SRGB_NONLINEAR: i32 = 0;
const FIFO: i32 = 2;
const MAILBOX: i32 = 1;
const IMMEDIATE: i32 = 0;

fn extent(width: u32, height: u32) -> Extent2D {
    Extent2D { width, height }
}

fn support(current: Extent2D, min_count: u32, max_count: u32) -> SwapchainSupport {
    SwapchainSupport {
        capabilities: SurfaceCapabilities {
            min_image_count: min_count,
            max_image_count: max_count,
            current_extent: current,
            min_image_extent: extent(100, 50),
            max_image_extent: extent(4000, 3000),
        },
        formats: vec![
            SurfaceFormat { format: R8G8B8A8_UNORM, color_space: SRGB_NONLINEAR },
            SurfaceFormat { format: B8G8R8A8_SRGB, color_space: SRGB_NONLINEAR },
        ],
        present_modes: vec![FIFO, IMMEDIATE],
    }
}

#[test]
fn surface_format_prefers_the_requested_one() {
    let s = support(extent(800, 600), 2, 3);
    let preferred = SurfaceFormat { format: B8G8R8A8_SRGB, color_space: SRGB_NONLINEAR };
    assert_eq!(s.get_swapchain_surface_format(preferred), preferred);
    let missing = SurfaceFormat { format: B8G8R8A8_SRGB, color_space: 7 };
    assert_eq!(
        s.get_swapchain_surface_format(missing),
        SurfaceFormat { format: R8G8B8A8_UNORM, color_space: SRGB_NONLINEAR }
    );
}

#[test]
fn present_mode_falls_back() {
    let s = support(extent(800, 600), 2, 3);
    assert_eq!(s.get_swapchain_present_mode(IMMEDIATE, FIFO), IMMEDIATE);
    assert_eq!(s.get_swapchain_present_mode(MAILBOX, FIFO), FIFO);
}

#[test]
fn extent_is_the_current_one_when_known() {
    let s = support(extent(800, 600), 2, 3);
    assert_eq!(s.get_swapchain_extent(1234), extent(800, 600));
}

#[test]
fn extent_clamps_the_window_width_when_unknown() {
    let s = support(extent(u32::MAX, u32::MAX), 2, 3);
    // The height is clamped from the window width too.
    assert_eq!(s.get_swapchain_extent(1024), extent(1024, 1024));
    assert_eq!(s.get_swapchain_extent(10), extent(100, 50));
    assert_eq!(s.get_swapchain_extent(5000), extent(4000, 3000));
    assert_eq!(s.get_swapchain_extent(3500), extent(3500, 3000));
}

#[test]
fn image_count_is_one_more_than_the_minimum_within_the_maximum() {
    assert_eq!(support(extent(1, 1), 2, 3).image_count(), 3);
    assert_eq!(support(extent(1, 1), 3, 3).image_count(), 3);
    assert_eq!(support(extent(1, 1), 2, 8).image_count(), 3);
    // A maximum of zero is taken as it is.
    assert_eq!(support(extent(1, 1), 2, 0).image_count(), 0);
}

#[test]
fn sharing_depends_on_whether_the_families_differ() {
    assert_eq!(image_sharing(0, 0), ImageSharing::Exclusive);
    assert_eq!(image_sharing(0, 2), ImageSharing::Concurrent(vec![0, 2]));
    assert_eq!(image_sharing(3, 1), ImageSharing::Concurrent(vec![3, 1]));
}

#[test]
fn frames_cycle_through_the_images() {
    assert_eq!(next_frame(0, 3), 1);
    assert_eq!(next_frame(1, 3), 2);
    assert_eq!(next_frame(2, 3), 0);
    assert_eq!(next_frame(0, 1), 0);
    let mut frame = 0;
    for _ in 0..6 {
        frame = next_frame(frame, 2);
    }
    assert_eq!(frame, 0);
}

#[test]
fn swapchain_pass_counts() {
    assert_eq!(swapchain_target_counts(3), (3, 2));
    assert_eq!(swapchain_target_counts(1), (1, 0));
}
