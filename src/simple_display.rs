//! Draws every scene object with one graphics pipeline.
use vstd::prelude::*;
use crate::commands::{Command, RecordingHandle};
use crate::dynamicstate::Viewport;
use crate::model::{GameObject, advanced};

verus! {

/// A graphics pipeline that scene objects are drawn with, known by the handle
/// under which the caller keeps the GPU object.
pub struct Pipeline {
    pipeline: u64,
}

/// The draw that pipeline `pipeline` records for object `o` through `viewport`.
pub open spec fn draw_of(pipeline: u64, o: GameObject, viewport: Viewport) -> Command {
    Command::Draw { pipeline, object: o.id, spin: o.spin, viewport }
}

impl Pipeline {
    pub fn new(pipeline: u64) -> (r: Pipeline)
        ensures
            r.handle() == pipeline,
    {
        Pipeline { pipeline }
    }

    pub closed spec fn handle(&self) -> u64 {
        self.pipeline
    }

    pub fn id(&self) -> (r: u64)
        ensures
            r == self.handle(),
    {
        self.pipeline
    }

    /// Turns each object by one animation step and records one draw of it,
    /// in the order of the objects, into the open render-pass scope.
    pub fn render_game_objects(
        &self,
        cmd_builder: &mut RecordingHandle,
        game_objs: &mut Vec<GameObject>,
        dynamicstate: &Viewport,
    )
        requires
            old(cmd_builder)@.pass_open,
        ensures
            final(game_objs)@ == old(game_objs)@.map_values(|o: GameObject| advanced(o)),
            final(cmd_builder)@.image_index == old(cmd_builder)@.image_index,
            final(cmd_builder)@.pass_open,
            final(cmd_builder)@.commands == old(cmd_builder)@.commands + final(game_objs)@.map_values(
                |o: GameObject| draw_of(self.handle(), o, *dynamicstate),
            ),
    {
        let ghost objs0 = game_objs@;
        let ghost cmds0 = cmd_builder@.commands;
        let n = game_objs.len();
        let mut i: usize = 0;
        while i < n
            invariant
                n == game_objs@.len(),
                n == objs0.len(),
                i <= n,
                cmd_builder@.pass_open,
                cmd_builder@.image_index == old(cmd_builder)@.image_index,
                forall|j: int| 0 <= j < i ==> game_objs@[j] == advanced(objs0[j]),
                forall|j: int| i <= j < n ==> game_objs@[j] == objs0[j],
                cmd_builder@.commands == cmds0 + game_objs@.subrange(0, i as int).map_values(
                    |o: GameObject| draw_of(self.pipeline, o, *dynamicstate),
                ),
            decreases n - i,
        {
            game_objs[i].advance();
            let o = game_objs[i];
            cmd_builder.draw(self.pipeline, o.id, o.spin, *dynamicstate);
            proof {
                assert(game_objs@.subrange(0, i + 1) =~= game_objs@.subrange(0, i as int).push(o));
            }
            i = i + 1;
        }
        assert(game_objs@ =~= objs0.map_values(|o: GameObject| advanced(o)));
        assert(game_objs@.subrange(0, n as int) =~= game_objs@);
    }
}

} // verus!
