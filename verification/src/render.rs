//! The rendering engine's surface: uploads, instance updates, frames and
//! resizes over one draw-call table and one frame pipeline.
//!
//! A frame call walks the whole pipeline — binding sync, offscreen geometry
//! pass, post-process pass, present — and returns the complete command plan
//! of that frame; once begun, a frame always runs through to present.  A
//! resize is only possible between frames.

use vstd::prelude::*;

use crate::error::RenderError;
use crate::geom::Instance;
use crate::geometry::Geometry;
use crate::gpu::GpuCmd;
use crate::pipeline::{
    post_cmds, resize_cmds, resize_model, setup_cmds, offscreen_cmds, PipelineModel, PipelineStage,
    RenderPipeline,
};
use crate::table::{
    ensured_cmds, ensured_model, next_handle, set_instances_model, sync_cmds, sync_model,
    upload_model, DrawCallModel, DrawCallTable, Mesh, TableModel,
};

verus! {

/// The mathematical content of the engine: its mesh table and its pipeline.
#[verifier::ext_equal]
pub struct RenderModel {
    pub table: TableModel,
    pub pipeline: PipelineModel,
}

/// The engine content after one frame: bindings ensured, dirty instance
/// lists streamed, and the pipeline back at rest.
pub open spec fn frame_model(m: RenderModel) -> RenderModel {
    RenderModel { table: sync_model(ensured_model(m.table)), pipeline: m.pipeline }
}

/// The complete command plan of one frame: binding sync, the offscreen
/// geometry pass, the post-process pass, and the commit.
pub open spec fn frame_plan(m: RenderModel) -> Seq<GpuCmd> {
    ensured_cmds(m.table) + sync_cmds(ensured_model(m.table), 0) + offscreen_cmds(
        m.pipeline,
        sync_model(ensured_model(m.table)),
    ) + post_cmds(m.pipeline) + seq![GpuCmd::Commit]
}

/// The post-process pass always runs and a frame always runs through to
/// present: whatever the table holds — even when the geometry pass drew
/// nothing — every frame plan closes with the post-process draw over the
/// full-screen quad, the end of that pass, and the commit.
pub proof fn lemma_frame_always_presents(m: RenderModel)
    ensures
        frame_plan(m).len() >= 5,
        frame_plan(m).last() == GpuCmd::Commit,
        frame_plan(m)[frame_plan(m).len() - 2] == GpuCmd::EndPass,
        frame_plan(m)[frame_plan(m).len() - 3] == GpuCmd::DrawQuad,
        frame_plan(m)[frame_plan(m).len() - 4] == (GpuCmd::ApplyPostProcess {
            width: m.pipeline.width,
            height: m.pipeline.height,
            generation: m.pipeline.generation,
        }),
        frame_plan(m)[frame_plan(m).len() - 5] == GpuCmd::BeginDefaultPass,
{
}

/// The rendering engine: GPU bookkeeping for uploaded vector meshes and the
/// two-pass frame composition over them.
pub struct Render {
    table: DrawCallTable,
    pipeline: RenderPipeline,
}

impl View for Render {
    type V = RenderModel;

    closed spec fn view(&self) -> RenderModel {
        RenderModel { table: self.table@, pipeline: self.pipeline@ }
    }
}

impl Render {
    /// Whether the engine is well formed and at rest between frames.
    pub open spec fn wf(&self) -> bool {
        &&& crate::table::table_wf(self@.table)
        &&& self@.pipeline.stage is Idle
    }

    /// A fresh engine for the given surface size and per-mesh instance
    /// capacity, together with the plan allocating its first offscreen
    /// target pair.  The platform layer must report that allocation's
    /// outcome through `confirm_target` before the first frame.
    pub fn new(width: u32, height: u32, instance_capacity: usize) -> (r: (Render, Vec<GpuCmd>))
        ensures
            r.0.wf(),
            r.0@ == (RenderModel {
                table: TableModel {
                    calls: Seq::<DrawCallModel>::empty(),
                    missing_bindings: false,
                    capacity: instance_capacity,
                },
                pipeline: PipelineModel {
                    stage: PipelineStage::Idle,
                    width,
                    height,
                    generation: 1,
                    target_ok: false,
                },
            }),
            r.1@ == setup_cmds(width, height),
    {
        let table = DrawCallTable::new(instance_capacity);
        let (pipeline, cmds) = RenderPipeline::new(width, height);
        (Render { table, pipeline }, cmds)
    }

    /// Record the platform layer's report on the latest target allocation.
    pub fn confirm_target(&mut self, ok: bool)
        requires
            old(self).wf(),
        ensures
            final(self).wf(),
            final(self)@ == (RenderModel {
                table: old(self)@.table,
                pipeline: PipelineModel { target_ok: ok, ..old(self)@.pipeline },
            }),
    {
        self.pipeline.confirm_target(ok);
    }

    /// Whether the offscreen target is currently confirmed usable.
    pub fn target_ok(&self) -> (r: bool)
        ensures
            r == self@.pipeline.target_ok,
    {
        self.pipeline.target_ok_flag()
    }

    /// The generation number of the current offscreen target pair.
    pub fn target_generation(&self) -> (r: u64)
        ensures
            r == self@.pipeline.generation,
    {
        self.pipeline.generation()
    }

    /// Upload finished geometry as a new mesh: one draw call with an empty
    /// instance list and no binding yet.  Handles are issued strictly
    /// increasing in upload order.
    pub fn upload_buffers(&mut self, geometry: Geometry) -> (m: Mesh)
        requires
            old(self).wf(),
            geometry.wf(),
        ensures
            final(self).wf(),
            m@ == next_handle(old(self)@.table),
            final(self)@ == (RenderModel {
                table: upload_model(old(self)@.table, geometry@),
                pipeline: old(self)@.pipeline,
            }),
    {
        self.table.upload(geometry)
    }

    /// Overwrite one mesh's instance list wholesale; a list beyond the
    /// configured capacity is rejected with a capacity error and prior
    /// state kept.
    pub fn set_instances(&mut self, mesh: &Mesh, instances: Vec<Instance>) -> (r: Result<
        (),
        RenderError,
    >)
        requires
            old(self).wf(),
            mesh@ < old(self)@.table.calls.len(),
        ensures
            final(self).wf(),
            instances@.len() <= old(self)@.table.capacity ==> (r is Ok && final(self)@
                == (RenderModel {
                table: set_instances_model(old(self)@.table, mesh@, instances@),
                pipeline: old(self)@.pipeline,
            })),
            instances@.len() > old(self)@.table.capacity ==> (r == Err::<(), RenderError>(
                RenderError::Capacity,
            ) && final(self)@ == old(self)@),
    {
        self.table.set_instances(mesh, instances)
    }

    /// Compose one frame: sync bindings and instances, record the offscreen
    /// geometry pass and the post-process pass, and commit.  Refused with a
    /// resize error while the offscreen target is unconfirmed; otherwise
    /// the frame always runs through to present and the returned plan is
    /// the whole frame.
    pub fn render(&mut self) -> (r: Result<Vec<GpuCmd>, RenderError>)
        requires
            old(self).wf(),
        ensures
            final(self).wf(),
            !old(self)@.pipeline.target_ok ==> (r == Err::<Vec<GpuCmd>, RenderError>(
                RenderError::Resize,
            ) && final(self)@ == old(self)@),
            old(self)@.pipeline.target_ok ==> (r matches Ok(cmds) && cmds@ == frame_plan(
                old(self)@,
            ) && final(self)@ == frame_model(old(self)@)),
    {
        let mut cmds = match self.pipeline.begin_frame(&mut self.table) {
            Ok(cmds) => cmds,
            Err(e) => {
                return Err(e);
            }
        };
        let mut pass = self.pipeline.offscreen_pass(&self.table);
        cmds.append(&mut pass);
        let mut post = self.pipeline.post_process();
        cmds.append(&mut post);
        let mut commit = self.pipeline.present();
        cmds.append(&mut commit);
        proof {
            assert(cmds@ =~= frame_plan(old(self)@));
            assert(self@ =~= frame_model(old(self)@));
        }
        Ok(cmds)
    }

    /// Resize the offscreen target between frames: destroy the old pair
    /// exactly once, allocate a pair of the new size under the next
    /// generation, and rebind the post-process input.  The new target stays
    /// unconfirmed until the platform layer reports on it.
    pub fn resize(&mut self, width: u32, height: u32) -> (cmds: Vec<GpuCmd>)
        requires
            old(self).wf(),
            old(self)@.pipeline.generation < u64::MAX,
        ensures
            final(self).wf(),
            final(self)@ == (RenderModel {
                table: old(self)@.table,
                pipeline: resize_model(old(self)@.pipeline, width, height),
            }),
            cmds@ == resize_cmds(old(self)@.pipeline, width, height),
    {
        self.pipeline.resize(width, height)
    }

    /// The mesh table, for reading buffers and instance lists.
    pub fn table(&self) -> (r: &DrawCallTable)
        ensures
            r@ == self@.table,
    {
        &self.table
    }
}

} // verus!
