//! The per-frame command recording: a render-pass scope over one frame target
//! and the draws recorded into it.
use vstd::prelude::*;
use crate::framebuffers::FrameTarget;
use crate::dynamicstate::Viewport;

verus! {

/// The fixed color a render pass clears its target to.
#[derive(Clone, Copy, Debug, PartialEq, Eq, Structural)]
pub enum ClearColor {
    /// Opaque black, used by the frame lifecycle engine.
    Black,
    /// Opaque mid grey, used by pre-recorded per-image command buffers.
    Grey,
}

/// One recorded GPU command.
#[derive(Clone, Copy, Debug, PartialEq, Eq, Structural)]
pub enum Command {
    /// Opens the render-pass scope on `target`, clearing its color, and its
    /// depth to the far plane when `clear_depth` holds.
    BeginRenderPass { target: FrameTarget, clear: ClearColor, clear_depth: bool },
    /// Draws the mesh of object `object` with graphics pipeline `pipeline`,
    /// rotated by `spin` animation steps, through `viewport`.
    Draw { pipeline: u64, object: usize, spin: u64, viewport: Viewport },
    /// Closes the render-pass scope.
    EndRenderPass,
}

/// The command that opens a render pass on `target`.
pub open spec fn begin_command(target: FrameTarget, clear: ClearColor) -> Command {
    Command::BeginRenderPass { target, clear, clear_depth: target.depth }
}

/// A recording in progress: the commands so far, for the swapchain image it
/// will be presented to, and whether its render-pass scope is still open.
pub struct RecordingHandle {
    image_index: usize,
    commands: Vec<Command>,
    pass_open: bool,
}

/// What a recording holds, as a value.
pub struct Recording {
    pub image_index: usize,
    pub commands: Seq<Command>,
    pub pass_open: bool,
}

impl View for RecordingHandle {
    type V = Recording;

    closed spec fn view(&self) -> Recording {
        Recording { image_index: self.image_index, commands: self.commands@, pass_open: self.pass_open }
    }
}

impl RecordingHandle {
    /// Opens a recording for image `image_index` whose render-pass scope is
    /// begun on `target`.
    pub fn begin_render_pass(image_index: usize, target: FrameTarget, clear: ClearColor) -> (r:
        RecordingHandle)
        ensures
            r@.image_index == image_index,
            r@.commands == seq![begin_command(target, clear)],
            r@.pass_open,
    {
        let mut commands: Vec<Command> = Vec::new();
        commands.push(Command::BeginRenderPass { target, clear, clear_depth: target.depth });
        RecordingHandle { image_index, commands, pass_open: true }
    }

    /// Records one draw inside the open render-pass scope.
    pub fn draw(&mut self, pipeline: u64, object: usize, spin: u64, viewport: Viewport)
        requires
            old(self)@.pass_open,
        ensures
            final(self)@.image_index == old(self)@.image_index,
            final(self)@.pass_open,
            final(self)@.commands == old(self)@.commands.push(
                Command::Draw { pipeline, object, spin, viewport },
            ),
    {
        self.commands.push(Command::Draw { pipeline, object, spin, viewport });
    }

    /// Closes the render-pass scope. Closing a scope that is already closed
    /// changes nothing and gives `false`.
    pub fn end_render_pass(&mut self) -> (r: bool)
        ensures
            r == old(self)@.pass_open,
            final(self)@.image_index == old(self)@.image_index,
            !final(self)@.pass_open,
            r ==> final(self)@.commands == old(self)@.commands.push(Command::EndRenderPass),
            !r ==> final(self)@.commands == old(self)@.commands,
    {
        if self.pass_open {
            self.commands.push(Command::EndRenderPass);
            self.pass_open = false;
            true
        } else {
            false
        }
    }

    pub fn image_index(&self) -> (r: usize)
        ensures
            r == self@.image_index,
    {
        self.image_index
    }

    pub fn is_open(&self) -> (r: bool)
        ensures
            r == self@.pass_open,
    {
        self.pass_open
    }

    pub fn commands(&self) -> (r: &Vec<Command>)
        ensures
            r@ == self@.commands,
    {
        &self.commands
    }

    /// Gives up the recording, handing back its commands.
    pub fn into_commands(self) -> (r: Vec<Command>)
        ensures
            r@ == self@.commands,
    {
        self.commands
    }
}

} // verus!
