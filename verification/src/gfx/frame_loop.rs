use vstd::prelude::*;

verus! {

/// What acquiring the next swapchain image gave.
#[derive(Clone, Copy, Debug, PartialEq, Eq, Structural)]
pub enum AcquireOutcome {
    /// The index of the image to draw into.
    Acquired(usize),
    /// The swapchain no longer matches the surface.
    OutOfDate,
    /// Any other driver error, by its code.
    Failed(i32),
}

/// What presenting a drawn image gave.
#[derive(Clone, Copy, Debug, PartialEq, Eq, Structural)]
pub enum PresentOutcome {
    Presented,
    /// Presented, but the swapchain no longer matches the surface exactly.
    Suboptimal,
    OutOfDate,
    Failed(i32),
}

/// Why rendering a frame to a swapchain failed.
#[derive(Clone, Copy, Debug, PartialEq, Eq, Structural)]
pub enum SwapchainError {
    AcquireFailed(i32),
    PresentFailed(i32),
    /// The swapchain was still out of date after it was recreated.
    ResizeFailed,
}

/// What the caller does next.
#[derive(Clone, Copy, Debug, PartialEq, Eq, Structural)]
pub enum RenderAction {
    /// Wait for the frame's fence and acquire the next image.
    Acquire,
    /// Draw the frame into this image and present it.
    DrawAndPresent(usize),
    /// Recreate the swapchain.
    Recreate,
    /// The frame is rendered.
    Done,
    Fail(SwapchainError),
}

/// Where a frame is: each frame is rendered in two passes, with the swapchain recreated
/// between them when the first pass found it out of date.
#[derive(Clone, Copy, Debug, PartialEq, Eq, Structural)]
pub enum RenderPhase {
    FirstPass,
    Recreating,
    SecondPass,
    Finished,
}

/// The phase and the action after a pass ends, out of date (`resize`) or not.
pub open spec fn spec_pass_end(phase: RenderPhase, resize: bool) -> (RenderPhase, RenderAction) {
    match phase {
        RenderPhase::FirstPass => if resize {
            (RenderPhase::Recreating, RenderAction::Recreate)
        } else {
            (RenderPhase::SecondPass, RenderAction::Acquire)
        },
        _ => if resize {
            (RenderPhase::Finished, RenderAction::Fail(SwapchainError::ResizeFailed))
        } else {
            (RenderPhase::Finished, RenderAction::Done)
        },
    }
}

/// The phase and the action after acquiring gave `outcome`.
pub open spec fn spec_on_acquire(phase: RenderPhase, outcome: AcquireOutcome) -> (RenderPhase, RenderAction) {
    match outcome {
        AcquireOutcome::Acquired(i) => (phase, RenderAction::DrawAndPresent(i)),
        AcquireOutcome::OutOfDate => spec_pass_end(phase, true),
        AcquireOutcome::Failed(code) => (RenderPhase::Finished, RenderAction::Fail(SwapchainError::AcquireFailed(code))),
    }
}

/// The phase and the action after presenting gave `outcome`.
pub open spec fn spec_on_present(phase: RenderPhase, outcome: PresentOutcome) -> (RenderPhase, RenderAction) {
    match outcome {
        PresentOutcome::Presented => spec_pass_end(phase, false),
        PresentOutcome::Suboptimal => spec_pass_end(phase, true),
        PresentOutcome::OutOfDate => spec_pass_end(phase, true),
        PresentOutcome::Failed(code) => (RenderPhase::Finished, RenderAction::Fail(SwapchainError::PresentFailed(code))),
    }
}

/// The rendering of one frame to a swapchain, step by step: the caller performs each action
/// and reports what came of it.
pub struct SwapchainRender {
    phase: RenderPhase,
}

/// A pass is running: the caller acquires, draws and presents.
pub open spec fn in_pass(phase: RenderPhase) -> bool {
    phase == RenderPhase::FirstPass || phase == RenderPhase::SecondPass
}

impl SwapchainRender {
    pub closed spec fn spec_phase(&self) -> RenderPhase {
        self.phase
    }

    /// A frame about to be rendered; its first action is to acquire an image.
    pub fn new() -> (r: (SwapchainRender, RenderAction))
        ensures
            r.0.spec_phase() == RenderPhase::FirstPass,
            r.1 == RenderAction::Acquire,
    {
        (SwapchainRender { phase: RenderPhase::FirstPass }, RenderAction::Acquire)
    }

    pub fn phase(&self) -> (r: RenderPhase)
        ensures
            r == self.spec_phase(),
    {
        self.phase
    }

    fn pass_end(&mut self, resize: bool) -> (r: RenderAction)
        ensures
            (final(self).spec_phase(), r) == spec_pass_end(old(self).spec_phase(), resize),
    {
        match self.phase {
            RenderPhase::FirstPass => if resize {
                self.phase = RenderPhase::Recreating;
                RenderAction::Recreate
            } else {
                self.phase = RenderPhase::SecondPass;
                RenderAction::Acquire
            },
            _ => {
                self.phase = RenderPhase::Finished;
                if resize {
                    RenderAction::Fail(SwapchainError::ResizeFailed)
                } else {
                    RenderAction::Done
                }
            },
        }
    }

    /// Takes in what acquiring an image gave: an image is drawn and presented; an out-of-date
    /// swapchain ends the pass as needing a resize; any other error ends the frame.
    pub fn on_acquire(&mut self, outcome: AcquireOutcome) -> (r: RenderAction)
        requires
            in_pass(old(self).spec_phase()),
        ensures
            (final(self).spec_phase(), r) == spec_on_acquire(old(self).spec_phase(), outcome),
            outcome matches AcquireOutcome::Acquired(i) ==> r == RenderAction::DrawAndPresent(i)
                && final(self).spec_phase() == old(self).spec_phase(),
            outcome is OutOfDate && old(self).spec_phase() == RenderPhase::FirstPass ==> r == RenderAction::Recreate
                && final(self).spec_phase() == RenderPhase::Recreating,
            outcome is OutOfDate && old(self).spec_phase() == RenderPhase::SecondPass ==> r
                == RenderAction::Fail(SwapchainError::ResizeFailed) && final(self).spec_phase() == RenderPhase::Finished,
            outcome matches AcquireOutcome::Failed(code) ==> r == RenderAction::Fail(SwapchainError::AcquireFailed(code))
                && final(self).spec_phase() == RenderPhase::Finished,
    {
        match outcome {
            AcquireOutcome::Acquired(i) => RenderAction::DrawAndPresent(i),
            AcquireOutcome::OutOfDate => self.pass_end(true),
            AcquireOutcome::Failed(code) => {
                self.phase = RenderPhase::Finished;
                RenderAction::Fail(SwapchainError::AcquireFailed(code))
            },
        }
    }

    /// Takes in what presenting gave: the pass ends, needing a resize when the swapchain was
    /// suboptimal or out of date; any other error ends the frame.
    pub fn on_present(&mut self, outcome: PresentOutcome) -> (r: RenderAction)
        requires
            in_pass(old(self).spec_phase()),
        ensures
            (final(self).spec_phase(), r) == spec_on_present(old(self).spec_phase(), outcome),
            (outcome is OutOfDate || outcome is Suboptimal) && old(self).spec_phase() == RenderPhase::FirstPass ==> r
                == RenderAction::Recreate && final(self).spec_phase() == RenderPhase::Recreating,
            (outcome is OutOfDate || outcome is Suboptimal) && old(self).spec_phase() == RenderPhase::SecondPass ==> r
                == RenderAction::Fail(SwapchainError::ResizeFailed) && final(self).spec_phase() == RenderPhase::Finished,
            outcome is Presented && old(self).spec_phase() == RenderPhase::FirstPass ==> r == RenderAction::Acquire
                && final(self).spec_phase() == RenderPhase::SecondPass,
            outcome is Presented && old(self).spec_phase() == RenderPhase::SecondPass ==> r == RenderAction::Done
                && final(self).spec_phase() == RenderPhase::Finished,
            outcome matches PresentOutcome::Failed(code) ==> r == RenderAction::Fail(SwapchainError::PresentFailed(code))
                && final(self).spec_phase() == RenderPhase::Finished,
    {
        match outcome {
            PresentOutcome::Presented => self.pass_end(false),
            PresentOutcome::Suboptimal => self.pass_end(true),
            PresentOutcome::OutOfDate => self.pass_end(true),
            PresentOutcome::Failed(code) => {
                self.phase = RenderPhase::Finished;
                RenderAction::Fail(SwapchainError::PresentFailed(code))
            },
        }
    }

    /// The swapchain was recreated: the second pass starts.
    pub fn on_recreated(&mut self) -> (r: RenderAction)
        requires
            old(self).spec_phase() == RenderPhase::Recreating,
        ensures
            final(self).spec_phase() == RenderPhase::SecondPass,
            r == RenderAction::Acquire,
    {
        self.phase = RenderPhase::SecondPass;
        RenderAction::Acquire
    }
}

/// A frame recreates the swapchain at most once: only the first pass asks for it, and every
/// step from the second pass on stays out of the first pass.
pub proof fn lemma_recreate_only_after_first_pass(phase: RenderPhase, acquire: AcquireOutcome, present: PresentOutcome)
    ensures
        spec_on_acquire(phase, acquire).1 == RenderAction::Recreate ==> phase == RenderPhase::FirstPass,
        spec_on_present(phase, present).1 == RenderAction::Recreate ==> phase == RenderPhase::FirstPass,
        phase != RenderPhase::FirstPass ==> spec_on_acquire(phase, acquire).0 != RenderPhase::FirstPass,
        phase != RenderPhase::FirstPass ==> spec_on_present(phase, present).0 != RenderPhase::FirstPass,
{
}

/// A present that finds the swapchain out of date ends the pass exactly as a suboptimal one
/// does: the first pass asks for a new swapchain, and a second pass that still finds it out of
/// date fails; only a clean present moves on without recreating.
pub proof fn lemma_out_of_date_present_recreates(phase: RenderPhase)
    requires
        in_pass(phase),
    ensures
        spec_on_present(phase, PresentOutcome::OutOfDate) == spec_on_present(phase, PresentOutcome::Suboptimal),
        phase == RenderPhase::FirstPass ==> spec_on_present(phase, PresentOutcome::OutOfDate) == (
        RenderPhase::Recreating,
        RenderAction::Recreate,
        ),
        phase == RenderPhase::SecondPass ==> spec_on_present(phase, PresentOutcome::OutOfDate) == (
        RenderPhase::Finished,
        RenderAction::Fail(SwapchainError::ResizeFailed),
        ),
        phase == RenderPhase::FirstPass ==> spec_on_present(phase, PresentOutcome::Presented) == (
        RenderPhase::SecondPass,
        RenderAction::Acquire,
        ),
        spec_on_present(phase, PresentOutcome::OutOfDate).1 != spec_on_present(phase, PresentOutcome::Presented).1,
{
}

} // verus!
