//! The viewport state holder, refreshed in lockstep with swapchain rebuilds.
use vstd::prelude::*;
use crate::swapchains::Extent;
use crate::framebuffers::{FrameTarget, TargetLayout, get_frame_buffer, targets_for};

verus! {

/// A full-window viewport. The depth range is given by its bounds, which are
/// always 0 and 1; pixel positions and sizes are whole numbers.
#[derive(Clone, Copy, Debug, PartialEq, Eq, Structural)]
pub struct Viewport {
    pub origin_x: u32,
    pub origin_y: u32,
    pub width: u32,
    pub height: u32,
    pub depth_min: u32,
    pub depth_max: u32,
}

/// The viewport that covers a swapchain of the given extent.
pub open spec fn viewport_for(extent: Extent) -> Viewport {
    Viewport {
        origin_x: 0,
        origin_y: 0,
        width: extent.width,
        height: extent.height,
        depth_min: 0,
        depth_max: 1,
    }
}

/// The swapchain as the engine tracks it: its extent and how many images it has.
#[derive(Clone, Copy, Debug, PartialEq, Eq, Structural)]
pub struct SwapchainState {
    pub extent: Extent,
    pub image_count: usize,
}

/// What recreating the swapchain at the requested extent gave.
#[derive(Clone, Copy, Debug, PartialEq, Eq, Structural)]
pub enum RebuildOutcome {
    /// A new swapchain with this many images.
    Rebuilt { image_count: usize },
    /// The extent cannot be represented right now; try again later.
    UnsupportedDimensions,
}

/// Holds the viewport state that draws are recorded with.
pub struct ResizeHelper {
    viewport: Viewport,
}

impl View for ResizeHelper {
    type V = Viewport;

    closed spec fn view(&self) -> Viewport {
        self.viewport
    }
}

impl ResizeHelper {
    /// A holder whose viewport covers the given swapchain.
    pub fn new(swapchain: &SwapchainState) -> (r: ResizeHelper)
        ensures
            r@ == viewport_for(swapchain.extent),
    {
        let mut resizer = ResizeHelper {
            viewport: Viewport {
                origin_x: 0,
                origin_y: 0,
                width: 0,
                height: 0,
                depth_min: 0,
                depth_max: 1,
            },
        };
        resizer.resize_using_dynamic_state(swapchain);
        resizer
    }

    fn resize_using_dynamic_state(&mut self, swapchain: &SwapchainState)
        ensures
            final(self)@ == viewport_for(swapchain.extent),
    {
        self.viewport = Viewport {
            origin_x: 0,
            origin_y: 0,
            width: swapchain.extent.width,
            height: swapchain.extent.height,
            depth_min: 0,
            depth_max: 1,
        };
    }

    /// Applies the outcome of recreating the swapchain at `requested`. When the
    /// swapchain was rebuilt, it takes the requested extent and the new image
    /// count, the target set is rebuilt for it, and the viewport is refreshed
    /// from it, in that order; the result is `true`. When the extent is
    /// unsupported, nothing changes and the result is `false`.
    pub fn resize(
        &mut self,
        swapchain: &mut SwapchainState,
        framebuffers: &mut Vec<FrameTarget>,
        layout: TargetLayout,
        requested: Extent,
        outcome: RebuildOutcome,
    ) -> (r: bool)
        ensures
            r == (outcome is Rebuilt),
            r ==> *final(swapchain) == (SwapchainState {
                extent: requested,
                image_count: outcome->image_count,
            }),
            r ==> final(framebuffers)@ == targets_for(outcome->image_count as nat, requested, layout),
            r ==> final(self)@ == viewport_for(requested),
            !r ==> *final(swapchain) == *old(swapchain),
            !r ==> final(framebuffers)@ == old(framebuffers)@,
            !r ==> final(self)@ == old(self)@,
    {
        match outcome {
            RebuildOutcome::UnsupportedDimensions => false,
            RebuildOutcome::Rebuilt { image_count } => {
                *swapchain = SwapchainState { extent: requested, image_count };
                *framebuffers = get_frame_buffer(image_count, requested, layout);
                self.resize_using_dynamic_state(swapchain);
                true
            },
        }
    }

    /// The current viewport.
    pub fn inner(&self) -> (r: &Viewport)
        ensures
            *r == self@,
    {
        &self.viewport
    }
}

} // verus!
