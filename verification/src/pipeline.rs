//! The two-pass frame pipeline as a verified state machine.
//!
//! A frame walks the stages binding sync, offscreen geometry pass,
//! post-process pass and present, in that order, and each stage contributes
//! its slice of the frame's command plan.  A resize is a separate transition
//! reachable only between frames: it destroys the old offscreen target pair,
//! allocates a new pair under a fresh generation number and rebinds the
//! post-process input.  The platform layer reports back whether target
//! allocation succeeded; until it has reported success, no frame may begin.

use vstd::prelude::*;

use crate::error::RenderError;
use crate::gpu::GpuCmd;
use crate::path::count;
use crate::table::{
    draw_cmds, ensured_cmds, ensured_model, sync_cmds, sync_model, DrawCallTable, TableModel,
};

verus! {

/// The stage the pipeline rests in between calls.  The present stage
/// completes within the call that commits the frame, so between calls the
/// pipeline is never mid-present.
#[derive(Debug, Clone, Copy, PartialEq, Eq, Structural)]
pub enum PipelineStage {
    /// Between frames; uploads and resizes are allowed.
    Idle,
    /// Bindings created and instance lists streamed for this frame.
    BindingSync,
    /// The geometry pass has been recorded.
    OffscreenPass,
    /// The post-process pass has been recorded.
    PostProcessPass,
}

/// The mathematical content of the pipeline.
#[verifier::ext_equal]
pub struct PipelineModel {
    pub stage: PipelineStage,
    pub width: u32,
    pub height: u32,
    pub generation: u64,
    pub target_ok: bool,
}

/// The commands that set up the first offscreen target pair.
pub open spec fn setup_cmds(width: u32, height: u32) -> Seq<GpuCmd> {
    seq![
        GpuCmd::CreateTargetPair { width, height, generation: 1 },
        GpuCmd::RebindPostProcess { generation: 1 },
    ]
}

/// The pipeline content after a resize: new size, a fresh target
/// generation, and the new target unconfirmed.
pub open spec fn resize_model(p: PipelineModel, width: u32, height: u32) -> PipelineModel {
    PipelineModel {
        stage: p.stage,
        width,
        height,
        generation: (p.generation + 1) as u64,
        target_ok: false,
    }
}

/// The resize plan: destroy the old pair, allocate a pair of the new size
/// under the next generation, rebind the post-process input.
pub open spec fn resize_cmds(p: PipelineModel, width: u32, height: u32) -> Seq<GpuCmd> {
    seq![
        GpuCmd::DestroyTargetPair { generation: p.generation },
        GpuCmd::CreateTargetPair { width, height, generation: (p.generation + 1) as u64 },
        GpuCmd::RebindPostProcess { generation: (p.generation + 1) as u64 },
    ]
}

/// The commands of the offscreen geometry pass: begin on the current target
/// pair, one instanced draw per non-empty mesh, end.
pub open spec fn offscreen_cmds(p: PipelineModel, t: TableModel) -> Seq<GpuCmd> {
    seq![GpuCmd::BeginOffscreenPass { generation: p.generation, width: p.width, height: p.height }]
        + draw_cmds(t, 0) + seq![GpuCmd::EndPass]
}

/// The commands of the post-process pass; it always runs, even when the
/// geometry pass drew nothing, so the cleared target stays visible.
pub open spec fn post_cmds(p: PipelineModel) -> Seq<GpuCmd> {
    seq![
        GpuCmd::BeginDefaultPass,
        GpuCmd::ApplyPostProcess { width: p.width, height: p.height, generation: p.generation },
        GpuCmd::DrawQuad,
        GpuCmd::EndPass,
    ]
}

/// The two-pass frame pipeline and its resize-safe render target state.
pub struct RenderPipeline {
    stage: PipelineStage,
    width: u32,
    height: u32,
    generation: u64,
    target_ok: bool,
}

impl View for RenderPipeline {
    type V = PipelineModel;

    closed spec fn view(&self) -> PipelineModel {
        PipelineModel {
            stage: self.stage,
            width: self.width,
            height: self.height,
            generation: self.generation,
            target_ok: self.target_ok,
        }
    }
}

impl RenderPipeline {
    /// A fresh pipeline for the given surface size, together with the plan
    /// that allocates its first target pair.  The target stays unconfirmed
    /// until the platform layer reports the allocation's outcome.
    pub fn new(width: u32, height: u32) -> (r: (RenderPipeline, Vec<GpuCmd>))
        ensures
            r.0@ == (PipelineModel {
                stage: PipelineStage::Idle,
                width,
                height,
                generation: 1,
                target_ok: false,
            }),
            r.1@ == setup_cmds(width, height),
    {
        let pipeline = RenderPipeline {
            stage: PipelineStage::Idle,
            width,
            height,
            generation: 1,
            target_ok: false,
        };
        let mut cmds: Vec<GpuCmd> = Vec::new();
        cmds.push(GpuCmd::CreateTargetPair { width, height, generation: 1 });
        cmds.push(GpuCmd::RebindPostProcess { generation: 1 });
        proof {
            assert(cmds@ =~= setup_cmds(width, height));
        }
        (pipeline, cmds)
    }

    /// Record the platform layer's report on the latest target allocation.
    /// Rendering proceeds only after success has been reported.
    pub fn confirm_target(&mut self, ok: bool)
        ensures
            final(self)@ == (PipelineModel { target_ok: ok, ..old(self)@ }),
    {
        self.target_ok = ok;
    }

    /// Whether the current offscreen target is confirmed usable.
    pub fn target_ok_flag(&self) -> (r: bool)
        ensures
            r == self@.target_ok,
    {
        self.target_ok
    }

    /// The generation number of the current offscreen target pair.
    pub fn generation(&self) -> (r: u64)
        ensures
            r == self@.generation,
    {
        self.generation
    }

    /// The surface width the pipeline currently renders at.
    pub fn width(&self) -> (r: u32)
        ensures
            r == self@.width,
    {
        self.width
    }

    /// The surface height the pipeline currently renders at.
    pub fn height(&self) -> (r: u32)
        ensures
            r == self@.height,
    {
        self.height
    }

    /// Resize the offscreen target: allowed only between frames, never
    /// mid-frame.  The old pair is destroyed exactly once, then a pair of
    /// the new size is allocated under the next generation, and the new
    /// target stays unconfirmed until the platform layer reports on it.
    pub fn resize(&mut self, width: u32, height: u32) -> (cmds: Vec<GpuCmd>)
        requires
            old(self)@.stage is Idle,
            old(self)@.generation < u64::MAX,
        ensures
            final(self)@ == resize_model(old(self)@, width, height),
            cmds@ == resize_cmds(old(self)@, width, height),
    {
        let old_generation = self.generation;
        self.generation = self.generation + 1;
        self.width = width;
        self.height = height;
        self.target_ok = false;
        let mut cmds: Vec<GpuCmd> = Vec::new();
        cmds.push(GpuCmd::DestroyTargetPair { generation: old_generation });
        cmds.push(GpuCmd::CreateTargetPair { width, height, generation: self.generation });
        cmds.push(GpuCmd::RebindPostProcess { generation: self.generation });
        proof {
            assert(cmds@ =~= resize_cmds(old(self)@, width, height));
        }
        cmds
    }

    /// Begin a frame: refuse while the offscreen target is unconfirmed,
    /// otherwise create the bindings still owed and stream the dirty
    /// instance lists.
    pub fn begin_frame(&mut self, table: &mut DrawCallTable) -> (r: Result<Vec<GpuCmd>, RenderError>)
        requires
            old(self)@.stage is Idle,
            old(table).wf(),
        ensures
            final(table).wf(),
            !old(self)@.target_ok ==> (r == Err::<Vec<GpuCmd>, RenderError>(RenderError::Resize)
                && final(self)@ == old(self)@ && final(table)@ == old(table)@),
            old(self)@.target_ok ==> (r matches Ok(cmds) && final(self)@ == (PipelineModel {
                stage: PipelineStage::BindingSync,
                ..old(self)@
            }) && final(table)@ == sync_model(ensured_model(old(table)@)) && cmds@ == ensured_cmds(
                old(table)@,
            ) + sync_cmds(ensured_model(old(table)@), 0)),
    {
        if !self.target_ok {
            return Err(RenderError::Resize);
        }
        let mut cmds = table.ensure_bindings();
        let mut sync = table.sync_instances();
        cmds.append(&mut sync);
        self.stage = PipelineStage::BindingSync;
        proof {
            if !old(table)@.missing_bindings {
                assert(cmds@ =~= ensured_cmds(old(table)@) + sync_cmds(
                    ensured_model(old(table)@),
                    0,
                ));
            }
        }
        Ok(cmds)
    }

    /// Record the offscreen geometry pass: bind and clear the target pair,
    /// draw every mesh with a non-empty instance list, end the pass.
    pub fn offscreen_pass(&mut self, table: &DrawCallTable) -> (cmds: Vec<GpuCmd>)
        requires
            old(self)@.stage is BindingSync,
        ensures
            final(self)@ == (PipelineModel { stage: PipelineStage::OffscreenPass, ..old(self)@ }),
            cmds@ == offscreen_cmds(old(self)@, table@),
    {
        let mut cmds: Vec<GpuCmd> = Vec::new();
        cmds.push(
            GpuCmd::BeginOffscreenPass {
                generation: self.generation,
                width: self.width,
                height: self.height,
            },
        );
        let mut draws = table.draw_commands();
        cmds.append(&mut draws);
        cmds.push(GpuCmd::EndPass);
        self.stage = PipelineStage::OffscreenPass;
        proof {
            assert(cmds@ =~= offscreen_cmds(old(self)@, table@));
        }
        cmds
    }

    /// Record the post-process pass: bind the swapchain, the antialiasing
    /// pipeline, the full-screen quad and the offscreen color texture, and
    /// draw once.  Runs even when the geometry pass drew nothing.
    pub fn post_process(&mut self) -> (cmds: Vec<GpuCmd>)
        requires
            old(self)@.stage is OffscreenPass,
        ensures
            final(self)@ == (PipelineModel { stage: PipelineStage::PostProcessPass, ..old(self)@ }),
            cmds@ == post_cmds(old(self)@),
    {
        let mut cmds: Vec<GpuCmd> = Vec::new();
        cmds.push(GpuCmd::BeginDefaultPass);
        cmds.push(
            GpuCmd::ApplyPostProcess {
                width: self.width,
                height: self.height,
                generation: self.generation,
            },
        );
        cmds.push(GpuCmd::DrawQuad);
        cmds.push(GpuCmd::EndPass);
        self.stage = PipelineStage::PostProcessPass;
        proof {
            assert(cmds@ =~= post_cmds(old(self)@));
        }
        cmds
    }

    /// Commit the frame for presentation; the present stage completes
    /// within this call and the pipeline returns to rest between frames.
    pub fn present(&mut self) -> (cmds: Vec<GpuCmd>)
        requires
            old(self)@.stage is PostProcessPass,
        ensures
            final(self)@ == (PipelineModel { stage: PipelineStage::Idle, ..old(self)@ }),
            cmds@ == seq![GpuCmd::Commit],
    {
        let mut cmds: Vec<GpuCmd> = Vec::new();
        cmds.push(GpuCmd::Commit);
        self.stage = PipelineStage::Idle;
        proof {
            assert(cmds@ =~= seq![GpuCmd::Commit]);
        }
        cmds
    }
}

/// The predicate picking target-destroying commands.
pub open spec fn destroy_pred() -> spec_fn(GpuCmd) -> bool {
    |c: GpuCmd| c is DestroyTargetPair
}

/// A resize destroys a render target exactly once, and what it destroys is
/// the old generation's pair, before a single pair of the new size is
/// allocated under the fresh generation and rebound as the post-process
/// input.
pub proof fn lemma_resize_destroys_old_target_once(p: PipelineModel, width: u32, height: u32)
    requires
        p.generation < u64::MAX,
    ensures
        count(resize_cmds(p, width, height), destroy_pred()) == 1,
        resize_cmds(p, width, height)[0] == (GpuCmd::DestroyTargetPair { generation: p.generation }),
        resize_cmds(p, width, height)[1] == (GpuCmd::CreateTargetPair {
            width,
            height,
            generation: (p.generation + 1) as u64,
        }),
        resize_model(p, width, height).generation != p.generation,
{
    let cmds = resize_cmds(p, width, height);
    assert(cmds.drop_first() =~= seq![cmds[1], cmds[2]]);
    assert(cmds.drop_first().drop_first() =~= seq![cmds[2]]);
    assert(seq![cmds[2]].drop_first() =~= Seq::<GpuCmd>::empty());
    assert(count(Seq::<GpuCmd>::empty(), destroy_pred()) == 0);
    assert(count(seq![cmds[2]], destroy_pred()) == 0);
    assert(count(seq![cmds[1], cmds[2]], destroy_pred()) == 0);
}

} // verus!
