//! Laws of the frame lifecycle, stated over the engine's state as a value and
//! proved from the transitions that its operations follow.
use vstd::prelude::*;
use crate::swapchains::Extent;
use crate::dynamicstate::RebuildOutcome;
use crate::commands::Recording;
use crate::render::{AcquireOutcome, BeginStep, Frame, FutureChain, Phase, SubmitOutcome};

verus! {

/// The state in which a frame begun from `s` acquires its image, or `None`
/// when the frame is skipped before that.
pub open spec fn acquire_state(s: Frame, window: Extent, rebuild: RebuildOutcome) -> Option<Frame> {
    let t = s.after_begin(window);
    match s.begin_step(window) {
        BeginStep::Acquire => Some(t),
        BeginStep::Skip => None,
        BeginStep::Rebuild { .. } => match t.rebuild_step(rebuild) {
            BeginStep::Acquire => Some(t.after_rebuild(rebuild)),
            _ => None,
        },
    }
}

/// The state at the end of `get_command_buffer_builder` and the steps that
/// follow it up to the recording, when the window measures `window` and the
/// outside operations give `rebuild` and `acquire`.
pub open spec fn frame_start(
    s: Frame,
    window: Extent,
    rebuild: RebuildOutcome,
    acquire: AcquireOutcome,
) -> Frame {
    match acquire_state(s, window, rebuild) {
        Some(a) => a.after_acquire(acquire),
        None => match s.begin_step(window) {
            BeginStep::Skip => s.after_begin(window),
            _ => s.after_begin(window).after_rebuild(rebuild),
        },
    }
}

/// The recording handed out at the start of that frame, if any.
pub open spec fn frame_start_recording(
    s: Frame,
    window: Extent,
    rebuild: RebuildOutcome,
    acquire: AcquireOutcome,
) -> Option<Recording> {
    match acquire_state(s, window, rebuild) {
        Some(a) => a.acquired_recording(acquire),
        None => None,
    }
}

/// What the outside operations may give at the start of a frame from `s`: a
/// rebuilt swapchain has images, and an acquired index is one of them.
pub open spec fn outcomes_valid(
    s: Frame,
    window: Extent,
    rebuild: RebuildOutcome,
    acquire: AcquireOutcome,
) -> bool {
    &&& (rebuild matches RebuildOutcome::Rebuilt { image_count } ==> image_count > 0)
    &&& (acquire_state(s, window, rebuild) matches Some(a) ==> (
    acquire matches AcquireOutcome::Acquired { image, .. } ==> image < a.swapchain.image_count))
}

/// In every valid state the frame targets correspond one to one with the
/// swapchain images: there are as many targets as images, target `i` binds
/// image `i`, and each has the swapchain's extent.
pub proof fn lemma_targets_match_images(s: Frame)
    requires
        s.wf(),
    ensures
        s.targets.len() == s.swapchain.image_count,
        forall|i: int|
            0 <= i < s.targets.len() ==> (#[trigger] s.targets[i]).image == i && s.targets[i].extent
                == s.swapchain.extent,
{
}

/// A successful rebuild leaves a valid state, in which the targets correspond
/// one to one with the new images.
pub proof fn lemma_rebuild_keeps_correspondence(s: Frame, image_count: usize)
    requires
        s.wf(),
        s.phase is RebuildPending,
        image_count > 0,
    ensures
        s.after_rebuild(RebuildOutcome::Rebuilt { image_count }).wf(),
        s.after_rebuild(RebuildOutcome::Rebuilt { image_count }).targets.len() == image_count,
{
    let t = s.after_rebuild(RebuildOutcome::Rebuilt { image_count });
    lemma_targets_match_images(t);
}

/// Beginning a frame with a pending resize while the window keeps the
/// swapchain's extent, and getting as many images as before, leaves the
/// swapchain, the target set and the viewport exactly as they were, whatever
/// the acquire that follows gives. Doing so again from the resulting state
/// therefore changes nothing either.
pub proof fn lemma_resize_idempotent(s: Frame, image_count: usize, acquire: AcquireOutcome)
    requires
        s.wf(),
        s.phase == Phase::Idle,
        s.resize_needed,
        image_count == s.swapchain.image_count,
    ensures
        ({
            let r = frame_start(
                s,
                s.swapchain.extent,
                RebuildOutcome::Rebuilt { image_count },
                acquire,
            );
            &&& r.swapchain == s.swapchain
            &&& r.targets == s.targets
            &&& r.viewport == s.viewport
        }),
{
}

/// When the start of a frame hands out no recording, the resize flag is set;
/// when it hands one out, its image index is below the number of swapchain
/// images.
pub proof fn lemma_no_skip_without_flag(
    s: Frame,
    window: Extent,
    rebuild: RebuildOutcome,
    acquire: AcquireOutcome,
)
    requires
        s.wf(),
        s.phase == Phase::Idle,
        outcomes_valid(s, window, rebuild, acquire),
    ensures
        frame_start(s, window, rebuild, acquire).wf(),
        frame_start_recording(s, window, rebuild, acquire) is None ==> frame_start(
            s,
            window,
            rebuild,
            acquire,
        ).resize_needed,
        frame_start_recording(s, window, rebuild, acquire) matches Some(h) ==> h.image_index
            < frame_start(s, window, rebuild, acquire).targets.len(),
{
    let r = frame_start(s, window, rebuild, acquire);
    match acquire_state(s, window, rebuild) {
        Some(a) => {
            lemma_targets_match_images(a);
            lemma_targets_match_images(r);
        },
        None => {},
    }
}

/// After a submission that failed or found the swapchain out of date, the
/// completion chain is an already-complete marker, and it still is when the
/// next frame has started, whatever that start gives: the next submission
/// waits on nothing stale.
pub proof fn lemma_failed_submit_unblocks(
    s: Frame,
    outcome: SubmitOutcome,
    window: Extent,
    rebuild: RebuildOutcome,
    acquire: AcquireOutcome,
)
    requires
        s.wf(),
        s.phase is Submitted,
        outcome != SubmitOutcome::Flushed,
    ensures
        s.after_submit(outcome).future == FutureChain::Ready,
        frame_start(s.after_submit(outcome), window, rebuild, acquire).future == FutureChain::Ready,
{
}

} // verus!
