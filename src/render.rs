//! The frame lifecycle engine: acquire, record, submit and present, with
//! swapchain-resize arbitration.
//!
//! Each frame begins with `get_command_buffer_builder`, then `finish_rebuild`
//! when a rebuild was asked for, then `finish_acquire`, which hands out the
//! recording; it ends with `render` and `finish_submit`.
//! Between the calls the caller performs the GPU operation that the previous
//! call asked for, and hands its outcome to the next one.
use vstd::prelude::*;
use crate::swapchains::Extent;
use crate::framebuffers::{FrameTarget, TargetLayout, targets_for};
use crate::dynamicstate::{Viewport, viewport_for, SwapchainState, RebuildOutcome, ResizeHelper};
use crate::commands::{ClearColor, Command, Recording, RecordingHandle, begin_command};

verus! {

/// The completion-future chain that the next submission waits on.
#[derive(Clone, Copy, Debug, PartialEq, Eq, Structural)]
pub enum FutureChain {
    /// An already-complete marker: waiting on it never blocks.
    Ready,
    /// The signal of the work submitted for, and presenting, image `image`.
    Pending { image: usize },
}

/// Where the engine stands within a frame.
#[derive(Clone, Copy, Debug, PartialEq, Eq, Structural)]
pub enum Phase {
    /// Between frames.
    Idle,
    /// Waiting for the swapchain to be recreated at `extent`.
    RebuildPending { extent: Extent },
    /// Waiting for the next presentable image.
    AcquirePending,
    /// Draws are being recorded for image `image`.
    Recording { image: usize },
    /// The frame for image `image` was handed out for submission.
    Submitted { image: usize },
}

/// What the caller is to do next while beginning a frame.
#[derive(Clone, Copy, Debug, PartialEq, Eq, Structural)]
pub enum BeginStep {
    /// Recreate the swapchain at `extent`, then call `finish_rebuild`.
    Rebuild { extent: Extent },
    /// Acquire the next image, with no timeout, then call `finish_acquire`.
    Acquire,
    /// Draw nothing this frame; a rebuild is still owed.
    Skip,
}

/// What acquiring the next presentable image gave.
#[derive(Clone, Copy, Debug, PartialEq, Eq, Structural)]
pub enum AcquireOutcome {
    /// Image `image` may be drawn into; `suboptimal` when it no longer matches
    /// the surface ideally.
    Acquired { image: usize, suboptimal: bool },
    /// The swapchain no longer matches the surface.
    OutOfDate,
}

/// What submitting and presenting a frame gave.
#[derive(Clone, Copy, Debug, PartialEq, Eq, Structural)]
pub enum SubmitOutcome {
    /// The work was flushed; its completion signal is now pending.
    Flushed,
    /// The swapchain no longer matches the surface.
    OutOfDate,
    /// Any other failure; it is reported and the frame is dropped.
    Failed,
}

/// The work the caller is to submit for a finished frame: wait on `wait_for`
/// joined with the image's acquire signal, execute `commands` on the graphics
/// queue, then present image `image` and signal a new completion future.
pub struct Submission {
    pub wait_for: FutureChain,
    pub image: usize,
    pub commands: Vec<Command>,
    /// The render-pass scope had already been closed by the caller, which is
    /// worth a warning and nothing more.
    pub double_close: bool,
}

/// The engine's state, as a value.
pub struct Frame {
    pub swapchain: SwapchainState,
    pub layout: TargetLayout,
    pub targets: Seq<FrameTarget>,
    pub viewport: Viewport,
    pub resize_needed: bool,
    pub future: FutureChain,
    pub phase: Phase,
}

impl Frame {
    /// The targets are in one-to-one correspondence with the swapchain images,
    /// and they and the viewport follow the swapchain's extent.
    pub open spec fn wf(self) -> bool {
        &&& self.swapchain.image_count > 0
        &&& self.targets == targets_for(
            self.swapchain.image_count as nat,
            self.swapchain.extent,
            self.layout,
        )
        &&& self.viewport == viewport_for(self.swapchain.extent)
        &&& (self.phase matches Phase::RebuildPending { extent } ==> !extent.zero_area()
            && self.resize_needed)
        &&& (self.phase matches Phase::Recording { image } ==> image
            < self.swapchain.image_count)
        &&& (self.phase matches Phase::Submitted { image } ==> image
            < self.swapchain.image_count)
    }

    pub open spec fn with_phase(self, phase: Phase) -> Frame {
        Frame { phase, ..self }
    }

    /// The state after the swapchain was recreated at `extent` with `n` images,
    /// the targets rebuilt and the viewport refreshed.
    pub open spec fn rebuilt_to(self, extent: Extent, n: usize) -> Frame {
        Frame {
            swapchain: SwapchainState { extent, image_count: n },
            targets: targets_for(n as nat, extent, self.layout),
            viewport: viewport_for(extent),
            resize_needed: false,
            ..self
        }
    }

    /// The step `get_command_buffer_builder` asks for when the window measures `window`.
    pub open spec fn begin_step(self, window: Extent) -> BeginStep {
        if !self.resize_needed {
            BeginStep::Acquire
        } else if window.zero_area() {
            BeginStep::Skip
        } else {
            BeginStep::Rebuild { extent: window }
        }
    }

    pub open spec fn after_begin(self, window: Extent) -> Frame {
        match self.begin_step(window) {
            BeginStep::Acquire => self.with_phase(Phase::AcquirePending),
            BeginStep::Skip => self.with_phase(Phase::Idle),
            BeginStep::Rebuild { extent } => self.with_phase(Phase::RebuildPending { extent }),
        }
    }

    /// The step `finish_rebuild` asks for.
    pub open spec fn rebuild_step(self, outcome: RebuildOutcome) -> BeginStep {
        match outcome {
            RebuildOutcome::Rebuilt { .. } => BeginStep::Acquire,
            RebuildOutcome::UnsupportedDimensions => BeginStep::Skip,
        }
    }

    pub open spec fn after_rebuild(self, outcome: RebuildOutcome) -> Frame
        recommends
            self.phase is RebuildPending,
    {
        match outcome {
            RebuildOutcome::Rebuilt { image_count } => self.rebuilt_to(
                self.phase->extent,
                image_count,
            ).with_phase(Phase::AcquirePending),
            RebuildOutcome::UnsupportedDimensions => self.with_phase(Phase::Idle),
        }
    }

    /// The recording `finish_acquire` hands out, if any.
    pub open spec fn acquired_recording(self, outcome: AcquireOutcome) -> Option<Recording> {
        match outcome {
            AcquireOutcome::Acquired { image, .. } => Some(
                Recording {
                    image_index: image,
                    commands: seq![begin_command(self.targets[image as int], ClearColor::Black)],
                    pass_open: true,
                },
            ),
            AcquireOutcome::OutOfDate => None,
        }
    }

    pub open spec fn after_acquire(self, outcome: AcquireOutcome) -> Frame {
        match outcome {
            AcquireOutcome::Acquired { image, suboptimal } => Frame {
                resize_needed: self.resize_needed || suboptimal,
                phase: Phase::Recording { image },
                ..self
            },
            AcquireOutcome::OutOfDate => Frame {
                resize_needed: true,
                phase: Phase::Idle,
                ..self
            },
        }
    }

    /// The commands a finished recording submits: the render-pass scope is
    /// closed unless the caller already closed it.
    pub open spec fn closed_commands(rec: Recording) -> Seq<Command> {
        if rec.pass_open {
            rec.commands.push(Command::EndRenderPass)
        } else {
            rec.commands
        }
    }

    pub open spec fn after_end(self, rec: Recording) -> Frame {
        self.with_phase(Phase::Submitted { image: rec.image_index })
    }

    pub open spec fn after_submit(self, outcome: SubmitOutcome) -> Frame
        recommends
            self.phase is Submitted,
    {
        match outcome {
            SubmitOutcome::Flushed => Frame {
                future: FutureChain::Pending { image: self.phase->Submitted_image },
                phase: Phase::Idle,
                ..self
            },
            SubmitOutcome::OutOfDate => Frame {
                resize_needed: true,
                future: FutureChain::Ready,
                phase: Phase::Idle,
                ..self
            },
            SubmitOutcome::Failed => Frame {
                future: FutureChain::Ready,
                phase: Phase::Idle,
                ..self
            },
        }
    }
}

/// The engine. It owns the swapchain as it tracks it, the frame targets, the
/// viewport, the resize flag and the completion-future chain.
pub struct Render {
    swapchain: SwapchainState,
    layout: TargetLayout,
    resizehelper: ResizeHelper,
    framebuffers: Vec<FrameTarget>,
    recreate_swapchain: bool,
    previous_frame_end: FutureChain,
    phase: Phase,
}

impl View for Render {
    type V = Frame;

    closed spec fn view(&self) -> Frame {
        Frame {
            swapchain: self.swapchain,
            layout: self.layout,
            targets: self.framebuffers@,
            viewport: self.resizehelper@,
            resize_needed: self.recreate_swapchain,
            future: self.previous_frame_end,
            phase: self.phase,
        }
    }
}

impl Render {
    pub open spec fn wf(&self) -> bool {
        self@.wf()
    }

    /// An idle engine for a freshly created swapchain, whose completion chain
    /// starts out already complete.
    pub fn new(swapchain: SwapchainState, layout: TargetLayout) -> (r: Render)
        requires
            swapchain.image_count > 0,
        ensures
            r.wf(),
            r@.swapchain == swapchain,
            r@.layout == layout,
            !r@.resize_needed,
            r@.future == FutureChain::Ready,
            r@.phase == Phase::Idle,
    {
        let resizehelper = ResizeHelper::new(&swapchain);
        let framebuffers = crate::framebuffers::get_frame_buffer(
            swapchain.image_count,
            swapchain.extent,
            layout,
        );
        Render {
            swapchain,
            layout,
            resizehelper,
            framebuffers,
            recreate_swapchain: false,
            previous_frame_end: FutureChain::Ready,
            phase: Phase::Idle,
        }
    }

    /// Records that the window was resized: the next frame rebuilds first.
    pub fn recreate_swapchain(&mut self)
        requires
            old(self).wf(),
        ensures
            final(self).wf(),
            final(self)@ == (Frame { resize_needed: true, ..old(self)@ }),
    {
        self.recreate_swapchain = true;
    }

    /// Begins a frame while the window measures `window`: the first step
    /// towards a recording. Without a pending resize it asks for an image.
    /// With one, it asks for a rebuild at `window`, or skips the frame when
    /// `window` has no area, keeping the swapchain, the targets and the flag
    /// as they are.
    pub fn get_command_buffer_builder(&mut self, window: Extent) -> (r: BeginStep)
        requires
            old(self).wf(),
            old(self)@.phase == Phase::Idle,
        ensures
            final(self).wf(),
            r == old(self)@.begin_step(window),
            final(self)@ == old(self)@.after_begin(window),
            r == BeginStep::Skip ==> final(self)@.resize_needed,
    {
        if !self.recreate_swapchain {
            self.phase = Phase::AcquirePending;
            BeginStep::Acquire
        } else if window.is_zero_area() {
            BeginStep::Skip
        } else {
            self.phase = Phase::RebuildPending { extent: window };
            BeginStep::Rebuild { extent: window }
        }
    }

    /// Takes the outcome of recreating the swapchain. On success the targets
    /// are rebuilt and the viewport refreshed for it, the flag is cleared, and
    /// an image is to be acquired. When the extent is unsupported nothing
    /// changes, the flag stays set and the frame is skipped.
    pub fn finish_rebuild(&mut self, outcome: RebuildOutcome) -> (r: BeginStep)
        requires
            old(self).wf(),
            old(self)@.phase is RebuildPending,
            outcome matches RebuildOutcome::Rebuilt { image_count } ==> image_count > 0,
        ensures
            final(self).wf(),
            r == old(self)@.rebuild_step(outcome),
            final(self)@ == old(self)@.after_rebuild(outcome),
            r == BeginStep::Skip ==> final(self)@.resize_needed,
    {
        let extent = match self.phase {
            Phase::RebuildPending { extent } => extent,
            _ => self.swapchain.extent,
        };
        let rebuilt = self.resizehelper.resize(
            &mut self.swapchain,
            &mut self.framebuffers,
            self.layout,
            extent,
            outcome,
        );
        if rebuilt {
            self.recreate_swapchain = false;
            self.phase = Phase::AcquirePending;
            BeginStep::Acquire
        } else {
            self.phase = Phase::Idle;
            BeginStep::Skip
        }
    }

    /// Takes the outcome of acquiring an image. When the swapchain is out of
    /// date the flag is set and the frame skipped. Otherwise a recording is
    /// opened on the image's target, cleared to black (and its depth to the far
    /// plane when it has one); a suboptimal image also sets the flag.
    pub fn finish_acquire(&mut self, outcome: AcquireOutcome) -> (r: Option<RecordingHandle>)
        requires
            old(self).wf(),
            old(self)@.phase == Phase::AcquirePending,
            outcome matches AcquireOutcome::Acquired { image, .. } ==> image
                < old(self)@.swapchain.image_count,
        ensures
            final(self).wf(),
            final(self)@ == old(self)@.after_acquire(outcome),
            r.is_some() == old(self)@.acquired_recording(outcome).is_some(),
            r.is_some() ==> r.unwrap()@ == old(self)@.acquired_recording(outcome).unwrap(),
            r.is_none() ==> final(self)@.resize_needed,
            r.is_some() ==> r.unwrap()@.image_index < final(self)@.targets.len(),
    {
        match outcome {
            AcquireOutcome::OutOfDate => {
                self.recreate_swapchain = true;
                self.phase = Phase::Idle;
                None
            },
            AcquireOutcome::Acquired { image, suboptimal } => {
                if suboptimal {
                    self.recreate_swapchain = true;
                }
                self.phase = Phase::Recording { image };
                let frame = self.framebuffers[image];
                Some(RecordingHandle::begin_render_pass(image, frame, ClearColor::Black))
            },
        }
    }

    /// Ends the frame recorded in `cmd_builder`: closes its render-pass scope
    /// if the caller has not, and hands out the submission, which waits on the
    /// current completion chain and presents the acquired image.
    pub fn render(&mut self, cmd_builder: RecordingHandle) -> (r: Submission)
        requires
            old(self).wf(),
            old(self)@.phase == (Phase::Recording { image: cmd_builder@.image_index }),
        ensures
            final(self).wf(),
            final(self)@ == old(self)@.after_end(cmd_builder@),
            r.wait_for == old(self)@.future,
            r.image == cmd_builder@.image_index,
            r.commands@ == Frame::closed_commands(cmd_builder@),
            r.double_close == !cmd_builder@.pass_open,
    {
        let mut cmd_builder = cmd_builder;
        let image = cmd_builder.image_index();
        let closed = cmd_builder.end_render_pass();
        self.phase = Phase::Submitted { image };
        Submission {
            wait_for: self.previous_frame_end,
            image,
            commands: cmd_builder.into_commands(),
            double_close: !closed,
        }
    }

    /// Takes the outcome of submitting and presenting the frame. A flushed
    /// frame's completion signal becomes what the next frame waits on. On any
    /// failure the chain is reset to an already-complete marker so that the
    /// next frame does not wait on a signal that never comes; an out-of-date
    /// swapchain also sets the flag.
    pub fn finish_submit(&mut self, outcome: SubmitOutcome)
        requires
            old(self).wf(),
            old(self)@.phase is Submitted,
        ensures
            final(self).wf(),
            final(self)@ == old(self)@.after_submit(outcome),
            outcome != SubmitOutcome::Flushed ==> final(self)@.future == FutureChain::Ready,
    {
        let image = match self.phase {
            Phase::Submitted { image } => image,
            _ => 0,
        };
        match outcome {
            SubmitOutcome::Flushed => {
                self.previous_frame_end = FutureChain::Pending { image };
            },
            SubmitOutcome::OutOfDate => {
                self.recreate_swapchain = true;
                self.previous_frame_end = FutureChain::Ready;
            },
            SubmitOutcome::Failed => {
                self.previous_frame_end = FutureChain::Ready;
            },
        }
        self.phase = Phase::Idle;
    }

    /// The current viewport, which draws are recorded with.
    pub fn inner(&self) -> (r: &Viewport)
        ensures
            *r == self@.viewport,
    {
        self.resizehelper.inner()
    }

    pub fn frame_targets(&self) -> (r: &Vec<FrameTarget>)
        ensures
            r@ == self@.targets,
    {
        &self.framebuffers
    }

    pub fn swapchain(&self) -> (r: SwapchainState)
        ensures
            r == self@.swapchain,
    {
        self.swapchain
    }

    pub fn resize_needed(&self) -> (r: bool)
        ensures
            r == self@.resize_needed,
    {
        self.recreate_swapchain
    }

    pub fn future_chain(&self) -> (r: FutureChain)
        ensures
            r == self@.future,
    {
        self.previous_frame_end
    }

    pub fn phase(&self) -> (r: Phase)
        ensures
            r == self@.phase,
    {
        self.phase
    }
}

} // verus!
