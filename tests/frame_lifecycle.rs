use hex_render::commands::{ClearColor, Command};
use hex_render::dynamicstate::{RebuildOutcome, SwapchainState, Viewport};
use hex_render::framebuffers::{FrameTarget, TargetLayout};
use hex_render::render::{AcquireOutcome, BeginStep, FutureChain, Phase, Render, SubmitOutcome};
use hex_render::swapchains::Extent;

fn extent(width: u32, height: u32) -> Extent {
    Extent { width, height }
}

fn engine(width: u32, height: u32, images: usize) -> Render {
    Render::new(SwapchainState { extent: extent(width, height), image_count: images }, TargetLayout::ColorDepth)
}

fn full_viewport(width: u32, height: u32) -> Viewport {
    Viewport { origin_x: 0, origin_y: 0, width, height, depth_min: 0, depth_max: 1 }
}

/// Runs one frame that draws nothing and presents successfully.
fn run_frame(r: &mut Render, window: Extent, image: usize) {
    assert_eq!(r.get_command_buffer_builder(window), BeginStep::Acquire);
    let h = r.finish_acquire(AcquireOutcome::Acquired { image, suboptimal: false }).unwrap();
    let sub = r.render(h);
    assert_eq!(sub.image, image);
    r.finish_submit(SubmitOutcome::Flushed);
}

#[test]
fn end_to_end_two_image_swapchain() {
    let mut r = engine(800, 600, 2);
    assert_eq!(r.get_command_buffer_builder(extent(800, 600)), BeginStep::Acquire);
    let h = r.finish_acquire(AcquireOutcome::Acquired { image: 0, suboptimal: false }).unwrap();
    assert_eq!(h.image_index(), 0);
    let sub = r.render(h);
    assert_eq!(sub.image, 0);
    assert_eq!(sub.wait_for, FutureChain::Ready);
    assert!(!sub.double_close);
    r.finish_submit(SubmitOutcome::Flushed);
    assert_eq!(r.future_chain(), FutureChain::Pending { image: 0 });
    assert_eq!(r.get_command_buffer_builder(extent(800, 600)), BeginStep::Acquire);
    let h = r.finish_acquire(AcquireOutcome::Acquired { image: 1, suboptimal: false }).unwrap();
    assert_eq!(h.image_index(), 1);
    assert!(!r.resize_needed());
    let sub = r.render(h);
    assert_eq!(sub.wait_for, FutureChain::Pending { image: 0 });
}

#[test]
fn recording_with_no_draws_is_one_render_pass() {
    let mut r = engine(800, 600, 2);
    r.get_command_buffer_builder(extent(800, 600));
    let h = r.finish_acquire(AcquireOutcome::Acquired { image: 1, suboptimal: false }).unwrap();
    let target = FrameTarget { image: 1, extent: extent(800, 600), depth: true };
    let begin = Command::BeginRenderPass { target, clear: ClearColor::Black, clear_depth: true };
    assert_eq!(h.commands().clone(), vec![begin]);
    let sub = r.render(h);
    assert_eq!(sub.commands, vec![begin, Command::EndRenderPass]);
    assert_eq!(r.phase(), Phase::Submitted { image: 1 });
}

#[test]
fn color_only_target_does_not_clear_depth() {
    let mut r = Render::new(SwapchainState { extent: extent(64, 32), image_count: 3 }, TargetLayout::Color);
    r.get_command_buffer_builder(extent(64, 32));
    let h = r.finish_acquire(AcquireOutcome::Acquired { image: 2, suboptimal: false }).unwrap();
    let target = FrameTarget { image: 2, extent: extent(64, 32), depth: false };
    assert_eq!(
        h.commands().clone(),
        vec![Command::BeginRenderPass { target, clear: ClearColor::Black, clear_depth: false }]
    );
}

#[test]
fn viewport_follows_rebuild_to_800x600() {
    let mut r = engine(640, 480, 2);
    assert_eq!(*r.inner(), full_viewport(640, 480));
    r.recreate_swapchain();
    assert_eq!(r.get_command_buffer_builder(extent(800, 600)), BeginStep::Rebuild { extent: extent(800, 600) });
    assert_eq!(r.finish_rebuild(RebuildOutcome::Rebuilt { image_count: 2 }), BeginStep::Acquire);
    let vp = *r.inner();
    assert_eq!(vp, full_viewport(800, 600));
    assert_eq!((vp.width, vp.height), (800, 600));
    assert!(!r.resize_needed());
    assert_eq!(r.swapchain(), SwapchainState { extent: extent(800, 600), image_count: 2 });
}

#[test]
fn zero_area_rebuild_is_unsupported() {
    let mut r = engine(800, 600, 2);
    let before: Vec<FrameTarget> = r.frame_targets().clone();
    r.recreate_swapchain();
    assert_eq!(r.get_command_buffer_builder(extent(0, 0)), BeginStep::Skip);
    assert!(r.resize_needed());
    assert_eq!(r.phase(), Phase::Idle);
    assert_eq!(r.frame_targets().clone(), before);
    assert_eq!(r.swapchain(), SwapchainState { extent: extent(800, 600), image_count: 2 });
    assert_eq!(*r.inner(), full_viewport(800, 600));
    assert_eq!(r.get_command_buffer_builder(extent(1024, 0)), BeginStep::Skip);
    assert!(r.resize_needed());
}

#[test]
fn unsupported_dimensions_keep_prior_swapchain() {
    let mut r = engine(800, 600, 2);
    r.recreate_swapchain();
    assert_eq!(r.get_command_buffer_builder(extent(1, 1)), BeginStep::Rebuild { extent: extent(1, 1) });
    assert_eq!(r.finish_rebuild(RebuildOutcome::UnsupportedDimensions), BeginStep::Skip);
    assert!(r.resize_needed());
    assert_eq!(r.phase(), Phase::Idle);
    assert_eq!(r.swapchain(), SwapchainState { extent: extent(800, 600), image_count: 2 });
    assert_eq!(r.frame_targets().len(), 2);
    assert_eq!(*r.inner(), full_viewport(800, 600));
    assert_eq!(r.get_command_buffer_builder(extent(800, 600)), BeginStep::Rebuild { extent: extent(800, 600) });
    assert_eq!(r.finish_rebuild(RebuildOutcome::Rebuilt { image_count: 2 }), BeginStep::Acquire);
    assert!(!r.resize_needed());
}

#[test]
fn rebuild_at_same_extent_is_idempotent() {
    let mut r = engine(800, 600, 3);
    let targets = r.frame_targets().clone();
    let viewport = *r.inner();
    for _ in 0..3 {
        r.recreate_swapchain();
        assert_eq!(r.get_command_buffer_builder(extent(800, 600)), BeginStep::Rebuild { extent: extent(800, 600) });
        r.finish_rebuild(RebuildOutcome::Rebuilt { image_count: 3 });
        assert_eq!(r.frame_targets().clone(), targets);
        assert_eq!(*r.inner(), viewport);
        let h = r.finish_acquire(AcquireOutcome::OutOfDate);
        assert!(h.is_none());
        r.get_command_buffer_builder(extent(800, 600));
        r.finish_rebuild(RebuildOutcome::Rebuilt { image_count: 3 });
        assert_eq!(r.frame_targets().clone(), targets);
        let h = r.finish_acquire(AcquireOutcome::Acquired { image: 0, suboptimal: false }).unwrap();
        r.render(h);
        r.finish_submit(SubmitOutcome::Flushed);
    }
}

#[test]
fn targets_correspond_to_images_after_rebuild() {
    let mut r = engine(800, 600, 2);
    r.recreate_swapchain();
    r.get_command_buffer_builder(extent(1920, 1080));
    r.finish_rebuild(RebuildOutcome::Rebuilt { image_count: 4 });
    let targets = r.frame_targets().clone();
    assert_eq!(targets.len(), r.swapchain().image_count);
    assert_eq!(targets.len(), 4);
    for (i, t) in targets.iter().enumerate() {
        assert_eq!(*t, FrameTarget { image: i, extent: extent(1920, 1080), depth: true });
    }
}

#[test]
fn out_of_date_acquire_skips_and_sets_flag() {
    let mut r = engine(800, 600, 2);
    assert_eq!(r.get_command_buffer_builder(extent(800, 600)), BeginStep::Acquire);
    assert!(r.finish_acquire(AcquireOutcome::OutOfDate).is_none());
    assert!(r.resize_needed());
    assert_eq!(r.phase(), Phase::Idle);
    assert_eq!(r.get_command_buffer_builder(extent(800, 600)), BeginStep::Rebuild { extent: extent(800, 600) });
}

#[test]
fn suboptimal_acquire_draws_and_flags_next_frame() {
    let mut r = engine(800, 600, 2);
    r.get_command_buffer_builder(extent(800, 600));
    let h = r.finish_acquire(AcquireOutcome::Acquired { image: 1, suboptimal: true }).unwrap();
    assert_eq!(h.image_index(), 1);
    assert!(r.resize_needed());
    r.render(h);
    r.finish_submit(SubmitOutcome::Flushed);
    assert!(r.resize_needed());
    assert_eq!(r.get_command_buffer_builder(extent(900, 700)), BeginStep::Rebuild { extent: extent(900, 700) });
}

#[test]
fn out_of_date_submit_resets_chain() {
    let mut r = engine(800, 600, 2);
    run_frame(&mut r, extent(800, 600), 0);
    assert_eq!(r.future_chain(), FutureChain::Pending { image: 0 });
    r.get_command_buffer_builder(extent(800, 600));
    let h = r.finish_acquire(AcquireOutcome::Acquired { image: 1, suboptimal: false }).unwrap();
    let sub = r.render(h);
    assert_eq!(sub.wait_for, FutureChain::Pending { image: 0 });
    r.finish_submit(SubmitOutcome::OutOfDate);
    assert_eq!(r.future_chain(), FutureChain::Ready);
    assert!(r.resize_needed());
    r.get_command_buffer_builder(extent(800, 600));
    r.finish_rebuild(RebuildOutcome::Rebuilt { image_count: 2 });
    let h = r.finish_acquire(AcquireOutcome::Acquired { image: 0, suboptimal: false }).unwrap();
    assert_eq!(r.render(h).wait_for, FutureChain::Ready);
}

#[test]
fn failed_submit_resets_chain_without_flag() {
    let mut r = engine(800, 600, 2);
    run_frame(&mut r, extent(800, 600), 0);
    r.get_command_buffer_builder(extent(800, 600));
    let h = r.finish_acquire(AcquireOutcome::Acquired { image: 1, suboptimal: false }).unwrap();
    r.render(h);
    r.finish_submit(SubmitOutcome::Failed);
    assert_eq!(r.future_chain(), FutureChain::Ready);
    assert!(!r.resize_needed());
    assert_eq!(r.phase(), Phase::Idle);
    assert_eq!(r.get_command_buffer_builder(extent(800, 600)), BeginStep::Acquire);
    let h = r.finish_acquire(AcquireOutcome::Acquired { image: 0, suboptimal: false }).unwrap();
    assert_eq!(r.render(h).wait_for, FutureChain::Ready);
}

#[test]
fn double_close_of_render_pass_is_benign() {
    let mut r = engine(800, 600, 2);
    r.get_command_buffer_builder(extent(800, 600));
    let mut h = r.finish_acquire(AcquireOutcome::Acquired { image: 0, suboptimal: false }).unwrap();
    assert!(h.end_render_pass());
    assert!(!h.is_open());
    assert!(!h.end_render_pass());
    let sub = r.render(h);
    assert!(sub.double_close);
    assert_eq!(sub.commands.len(), 2);
    assert_eq!(sub.commands[1], Command::EndRenderPass);
}

#[test]
fn new_engine_is_idle_and_ready() {
    let r = engine(320, 200, 2);
    assert_eq!(r.phase(), Phase::Idle);
    assert_eq!(r.future_chain(), FutureChain::Ready);
    assert!(!r.resize_needed());
    assert_eq!(r.frame_targets().len(), 2);
    assert_eq!(*r.inner(), full_viewport(320, 200));
}
