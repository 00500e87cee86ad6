use asaogea::gfx::frame_loop::{
    AcquireOutcome, PresentOutcome, RenderAction, RenderPhase, SwapchainError, SwapchainRender,
};

#[test]
fn a_frame_renders_in_two_passes() {
    let (mut render, action) = SwapchainRender::new();
    assert_eq!(action, RenderAction::Acquire);
    assert_eq!(render.on_acquire(AcquireOutcome::Acquired(1)), RenderAction::DrawAndPresent(1));
    assert_eq!(render.on_present(PresentOutcome::Presented), RenderAction::Acquire);
    assert_eq!(render.phase(), RenderPhase::SecondPass);
    assert_eq!(render.on_acquire(AcquireOutcome::Acquired(0)), RenderAction::DrawAndPresent(0));
    assert_eq!(render.on_present(PresentOutcome::Presented), RenderAction::Done);
    assert_eq!(render.phase(), RenderPhase::Finished);
}

#[test]
fn an_out_of_date_swapchain_is_recreated_once() {
    let (mut render, _) = SwapchainRender::new();
    assert_eq!(render.on_acquire(AcquireOutcome::OutOfDate), RenderAction::Recreate);
    assert_eq!(render.phase(), RenderPhase::Recreating);
    assert_eq!(render.on_recreated(), RenderAction::Acquire);
    assert_eq!(render.on_acquire(AcquireOutcome::Acquired(2)), RenderAction::DrawAndPresent(2));
    assert_eq!(render.on_present(PresentOutcome::Suboptimal), RenderAction::Fail(SwapchainError::ResizeFailed));
}

#[test]
fn a_suboptimal_first_present_asks_for_a_new_swapchain() {
    let (mut render, _) = SwapchainRender::new();
    render.on_acquire(AcquireOutcome::Acquired(0));
    assert_eq!(render.on_present(PresentOutcome::Suboptimal), RenderAction::Recreate);
    render.on_recreated();
    assert_eq!(render.on_acquire(AcquireOutcome::OutOfDate), RenderAction::Fail(SwapchainError::ResizeFailed));
}

#[test]
fn driver_errors_end_the_frame() {
    let (mut render, _) = SwapchainRender::new();
    assert_eq!(render.on_acquire(AcquireOutcome::Failed(-4)), RenderAction::Fail(SwapchainError::AcquireFailed(-4)));
    assert_eq!(render.phase(), RenderPhase::Finished);
    let (mut render, _) = SwapchainRender::new();
    render.on_acquire(AcquireOutcome::Acquired(0));
    assert_eq!(render.on_present(PresentOutcome::Failed(-3)), RenderAction::Fail(SwapchainError::PresentFailed(-3)));
}
