//! The frame-target set: one render target per swapchain image.
use vstd::prelude::*;
use crate::swapchains::Extent;

verus! {

/// The attachment layout of the render pass that the targets are built for.
#[derive(Clone, Copy, Debug, PartialEq, Eq, Structural)]
pub enum TargetLayout {
    /// One color attachment: the swapchain image.
    Color,
    /// The swapchain image plus a transient 16-bit depth attachment.
    ColorDepth,
}

impl TargetLayout {
    pub open spec fn depth(self) -> bool {
        self is ColorDepth
    }

    pub fn has_depth(&self) -> (r: bool)
        ensures
            r == self.depth(),
    {
        match self {
            TargetLayout::Color => false,
            TargetLayout::ColorDepth => true,
        }
    }
}

/// A render target bound to one swapchain image. When `depth` holds, the
/// target also binds a depth attachment of the same extent, allocated afresh
/// each time the set is built.
#[derive(Clone, Copy, Debug, PartialEq, Eq, Structural)]
pub struct FrameTarget {
    /// Index of the swapchain image that the target draws into.
    pub image: usize,
    pub extent: Extent,
    pub depth: bool,
}

/// The target for image `i` of a swapchain of the given extent.
pub open spec fn target_for(i: int, extent: Extent, layout: TargetLayout) -> FrameTarget {
    FrameTarget { image: i as usize, extent, depth: layout.depth() }
}

/// The full target set for `n` images: target `i` binds image `i`.
pub open spec fn targets_for(n: nat, extent: Extent, layout: TargetLayout) -> Seq<FrameTarget> {
    Seq::new(n, |i: int| target_for(i, extent, layout))
}

/// Builds the target set for a swapchain of `image_count` images.
pub fn get_frame_buffer(image_count: usize, extent: Extent, layout: TargetLayout) -> (r: Vec<
    FrameTarget,
>)
    ensures
        r@ == targets_for(image_count as nat, extent, layout),
{
    let depth = layout.has_depth();
    let mut targets: Vec<FrameTarget> = Vec::new();
    let mut i: usize = 0;
    while i < image_count
        invariant
            i <= image_count,
            depth == layout.depth(),
            targets@ == targets_for(i as nat, extent, layout),
        decreases image_count - i,
    {
        targets.push(FrameTarget { image: i, extent, depth });
        i = i + 1;
        assert(targets@ =~= targets_for(i as nat, extent, layout));
    }
    targets
}

} // verus!
