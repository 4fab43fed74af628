//! Pre-recorded command buffers: one complete render pass per swapchain image,
//! recorded once and replayed every frame.
use vstd::prelude::*;
use crate::commands::{ClearColor, Command, RecordingHandle, begin_command};
use crate::dynamicstate::Viewport;
use crate::framebuffers::FrameTarget;
use crate::model::GameObject;
use crate::simple_display::{Pipeline, draw_of};

verus! {

/// Records, for `framebuffer`, a render pass cleared to grey that draws each
/// object once, in order, and is then closed.
pub fn get_command_buffers(
    pipeline: &Pipeline,
    framebuffer: &FrameTarget,
    resizehelper: &Viewport,
    objects: &Vec<GameObject>,
) -> (r: Vec<Command>)
    ensures
        r@ == seq![begin_command(*framebuffer, ClearColor::Grey)] + objects@.map_values(
            |o: GameObject| draw_of(pipeline.handle(), o, *resizehelper),
        ) + seq![Command::EndRenderPass],
{
    let mut cmd_builder = RecordingHandle::begin_render_pass(
        framebuffer.image,
        *framebuffer,
        ClearColor::Grey,
    );
    let ghost first = seq![begin_command(*framebuffer, ClearColor::Grey)];
    let handle = pipeline.id();
    let mut i: usize = 0;
    while i < objects.len()
        invariant
            i <= objects@.len(),
            handle == pipeline.handle(),
            cmd_builder@.pass_open,
            cmd_builder@.commands == first + objects@.subrange(0, i as int).map_values(
                |o: GameObject| draw_of(handle, o, *resizehelper),
            ),
        decreases objects@.len() - i,
    {
        let o = objects[i];
        cmd_builder.draw(handle, o.id, o.spin, *resizehelper);
        proof {
            assert(objects@.subrange(0, i + 1) =~= objects@.subrange(0, i as int).push(o));
        }
        i = i + 1;
    }
    assert(objects@.subrange(0, objects@.len() as int) =~= objects@);
    cmd_builder.end_render_pass();
    cmd_builder.into_commands()
}

} // verus!
