//! The command vocabulary handed to the platform graphics layer.
//!
//! The core never touches the GPU itself.  Each frame and each resize it
//! produces a plan: a sequence of [`GpuCmd`] values over plain numbers that
//! an unverified executor translates one for one into platform calls.
//! Render targets and per-call bindings are named by the core — targets by a
//! monotonically increasing generation number, bindings by the index of
//! their draw call — so the executor keeps nothing but a name-to-object map.

use vstd::prelude::*;

verus! {

/// One instruction of a frame or resize plan.
#[derive(Debug, Clone, Copy, PartialEq, Eq, Structural)]
pub enum GpuCmd {
    /// Allocate an offscreen color+depth render-target pair of the given
    /// pixel size, to be known under `generation`.
    CreateTargetPair { width: u32, height: u32, generation: u64 },
    /// Release the render-target pair known under `generation`.
    DestroyTargetPair { generation: u64 },
    /// Feed the color texture of target pair `generation` to the
    /// post-process pass as its sampler input.
    RebindPostProcess { generation: u64 },
    /// Create the GPU binding of one draw call: immutable vertex and index
    /// buffers from its geometry, plus a streaming buffer sized to
    /// `instance_capacity` instances.
    CreateBinding { call: usize, instance_capacity: usize },
    /// Stream the current instance list of one draw call into its streaming
    /// buffer.
    UploadInstances { call: usize },
    /// Start the geometry pass on the offscreen target pair `generation`,
    /// clearing it; the pixel size drives scissor and projection.
    BeginOffscreenPass { generation: u64, width: u32, height: u32 },
    /// Issue one instanced draw of a draw call's triangles.
    DrawMesh { call: usize, index_count: usize, instance_count: usize },
    /// End the pass begun last.
    EndPass,
    /// Start the default (swapchain) pass without clearing.
    BeginDefaultPass,
    /// Bind the post-process pipeline, the full-screen quad and the color
    /// texture of target pair `generation`; the resolution feeds the
    /// antialiasing filter's neighbor offsets.
    ApplyPostProcess { width: u32, height: u32, generation: u64 },
    /// Draw the full-screen quad, applying the post-process filter.
    DrawQuad,
    /// Commit the frame for presentation.
    Commit,
}

} // verus!
