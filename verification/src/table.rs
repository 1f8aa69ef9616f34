//! The table of uploaded meshes and their GPU-side bookkeeping.
//!
//! Every upload appends one [`DrawCall`]: immutable vertex and index
//! buffers, a lazily created GPU binding, a mutable instance list and a
//! dirty flag for streaming that list.  A [`Mesh`] is an opaque handle into
//! the table, issued monotonically and never recycled; draw-call buffers are
//! never mutated after creation.  Instance lists are bounded by a capacity
//! configured at construction: an overflowing list is rejected whole, never
//! truncated.

use vstd::prelude::*;

use crate::error::RenderError;
use crate::geom::{Instance, Vertex};
use crate::geometry::{geometry_wf, Geometry, GeometryModel};
use crate::gpu::GpuCmd;

verus! {

/// The default bound on one mesh's instance list.
pub const DEFAULT_INSTANCE_CAPACITY: usize = 1048576;

/// A reference to an uploaded vector path: an opaque handle into the table
/// of draw calls, stable for the life of the process.
#[derive(Debug, Clone, Copy, PartialEq, Eq, Hash, Structural)]
pub struct Mesh(usize);

impl View for Mesh {
    type V = int;

    closed spec fn view(&self) -> int {
        self.0 as int
    }
}

impl Mesh {
    /// The position of this mesh's draw call in the table; meshes are
    /// equal, hashed and ordered by it.
    pub fn index(&self) -> (r: usize)
        ensures
            r as int == self@,
    {
        self.0
    }
}

/// The mathematical content of one draw call.
#[verifier::ext_equal]
pub struct DrawCallModel {
    pub vertices: Seq<Vertex>,
    pub indices: Seq<u16>,
    pub instances: Seq<Instance>,
    pub has_binding: bool,
    pub refresh_instances: bool,
}

/// The mathematical content of the whole table.
#[verifier::ext_equal]
pub struct TableModel {
    pub calls: Seq<DrawCallModel>,
    pub missing_bindings: bool,
    pub capacity: usize,
}

/// A single uploaded mesh: its buffers, its binding state, and its current
/// instance list.
struct DrawCall {
    vertices: Vec<Vertex>,
    indices: Vec<u16>,
    instances: Vec<Instance>,
    has_binding: bool,
    refresh_instances: bool,
}

impl View for DrawCall {
    type V = DrawCallModel;

    closed spec fn view(&self) -> DrawCallModel {
        DrawCallModel {
            vertices: self.vertices@,
            indices: self.indices@,
            instances: self.instances@,
            has_binding: self.has_binding,
            refresh_instances: self.refresh_instances,
        }
    }
}

/// Whether one draw call is well formed: its buffers form self-consistent
/// triangles and its instance list respects the capacity.
pub open spec fn call_wf(c: DrawCallModel, capacity: usize) -> bool {
    &&& geometry_wf(GeometryModel { vertices: c.vertices, indices: c.indices })
    &&& c.instances.len() <= capacity
}

/// Whether the table is well formed; additionally, a cleared table-level
/// `missing_bindings` flag means that no draw call lacks its binding.
pub open spec fn table_wf(t: TableModel) -> bool {
    &&& forall|i: int| 0 <= i < t.calls.len() ==> call_wf(#[trigger] t.calls[i], t.capacity)
    &&& !t.missing_bindings ==> forall|i: int|
        0 <= i < t.calls.len() ==> (#[trigger] t.calls[i]).has_binding
}

/// The table content after uploading one geometry: a fresh draw call with an
/// empty instance list and no binding, and the table flagged as missing
/// bindings.
pub open spec fn upload_model(t: TableModel, g: GeometryModel) -> TableModel {
    TableModel {
        calls: t.calls.push(
            DrawCallModel {
                vertices: g.vertices,
                indices: g.indices,
                instances: Seq::empty(),
                has_binding: false,
                refresh_instances: false,
            },
        ),
        missing_bindings: true,
        capacity: t.capacity,
    }
}

/// The handle the next upload will return.
pub open spec fn next_handle(t: TableModel) -> int {
    t.calls.len() as int
}

/// The table content after overwriting one mesh's instance list.
pub open spec fn set_instances_model(t: TableModel, m: int, instances: Seq<Instance>) -> TableModel {
    TableModel {
        calls: t.calls.update(
            m,
            DrawCallModel { instances, refresh_instances: true, ..t.calls[m] },
        ),
        ..t
    }
}

/// One draw call with its binding recorded as created.
pub open spec fn bound_call(c: DrawCallModel) -> DrawCallModel {
    DrawCallModel { has_binding: true, ..c }
}

/// The table content after binding creation: every call bound, the
/// table-level flag cleared.
pub open spec fn ensure_model(t: TableModel) -> TableModel {
    TableModel {
        calls: t.calls.map(|i: int, c: DrawCallModel| bound_call(c)),
        missing_bindings: false,
        capacity: t.capacity,
    }
}

/// The binding-creation commands owed by a table: one per draw call that
/// still lacks its binding, in handle order.
pub open spec fn binding_cmds(t: TableModel, i: int) -> Seq<GpuCmd>
    decreases t.calls.len() - i,
{
    if i < 0 || i >= t.calls.len() {
        seq![]
    } else {
        (if t.calls[i].has_binding {
            seq![]
        } else {
            seq![GpuCmd::CreateBinding { call: i as usize, instance_capacity: t.capacity }]
        }) + binding_cmds(t, i + 1)
    }
}

/// One draw call after instance streaming: the dirty flag cleared exactly
/// when it was dirty with a non-empty list.
pub open spec fn synced_call(c: DrawCallModel) -> DrawCallModel {
    if c.refresh_instances && c.instances.len() > 0 {
        DrawCallModel { refresh_instances: false, ..c }
    } else {
        c
    }
}

/// The table content after instance streaming.
pub open spec fn sync_model(t: TableModel) -> TableModel {
    TableModel {
        calls: t.calls.map(|i: int, c: DrawCallModel| synced_call(c)),
        missing_bindings: t.missing_bindings,
        capacity: t.capacity,
    }
}

/// The streaming commands owed by a table: one per dirty draw call with a
/// non-empty instance list, in handle order.
pub open spec fn sync_cmds(t: TableModel, i: int) -> Seq<GpuCmd>
    decreases t.calls.len() - i,
{
    if i < 0 || i >= t.calls.len() {
        seq![]
    } else {
        (if t.calls[i].refresh_instances && t.calls[i].instances.len() > 0 {
            seq![GpuCmd::UploadInstances { call: i as usize }]
        } else {
            seq![]
        }) + sync_cmds(t, i + 1)
    }
}

/// The table content after binding creation when it is owed at all: the
/// table-level flag short-circuits the walk over the calls.
pub open spec fn ensured_model(t: TableModel) -> TableModel {
    if t.missing_bindings {
        ensure_model(t)
    } else {
        t
    }
}

/// The binding-creation commands a frame owes: none when the table-level
/// flag is clear.
pub open spec fn ensured_cmds(t: TableModel) -> Seq<GpuCmd> {
    if t.missing_bindings {
        binding_cmds(t, 0)
    } else {
        seq![]
    }
}

/// The instanced draw commands of one geometry pass: one per draw call with
/// a non-empty instance list, in handle order; empty meshes are skipped
/// without error.
pub open spec fn draw_cmds(t: TableModel, i: int) -> Seq<GpuCmd>
    decreases t.calls.len() - i,
{
    if i < 0 || i >= t.calls.len() {
        seq![]
    } else {
        (if t.calls[i].instances.len() > 0 {
            seq![
                GpuCmd::DrawMesh {
                    call: i as usize,
                    index_count: t.calls[i].indices.len() as usize,
                    instance_count: t.calls[i].instances.len() as usize,
                },
            ]
        } else {
            seq![]
        }) + draw_cmds(t, i + 1)
    }
}

/// The set of uploaded meshes, their buffers, bindings and instance lists.
pub struct DrawCallTable {
    calls: Vec<DrawCall>,
    missing_bindings: bool,
    instance_capacity: usize,
}

impl View for DrawCallTable {
    type V = TableModel;

    closed spec fn view(&self) -> TableModel {
        TableModel {
            calls: self.calls@.map(|i: int, c: DrawCall| c@),
            missing_bindings: self.missing_bindings,
            capacity: self.instance_capacity,
        }
    }
}

impl DrawCallTable {
    /// Whether the table is well formed; established at construction and
    /// kept by every operation.
    pub open spec fn wf(&self) -> bool {
        table_wf(self@)
    }

    /// An empty table with the given instance capacity per mesh.
    pub fn new(instance_capacity: usize) -> (r: DrawCallTable)
        ensures
            r.wf(),
            r@ == (TableModel {
                calls: Seq::<DrawCallModel>::empty(),
                missing_bindings: false,
                capacity: instance_capacity,
            }),
    {
        let r = DrawCallTable { calls: Vec::new(), missing_bindings: false, instance_capacity };
        proof {
            assert(r@.calls =~= Seq::<DrawCallModel>::empty());
        }
        r
    }

    /// Append a new draw call for finished geometry, with an empty instance
    /// list and no binding yet, and return its handle.  Handles are issued
    /// strictly increasing in upload order.
    pub fn upload(&mut self, geometry: Geometry) -> (m: Mesh)
        requires
            old(self).wf(),
            geometry.wf(),
        ensures
            final(self).wf(),
            m@ == next_handle(old(self)@),
            final(self)@ == upload_model(old(self)@, geometry@),
    {
        let handle = self.calls.len();
        let (vertices, indices) = geometry.into_buffers();
        let call = DrawCall {
            vertices,
            indices,
            instances: Vec::new(),
            has_binding: false,
            refresh_instances: false,
        };
        self.calls.push(call);
        self.missing_bindings = true;
        proof {
            assert(self@.calls =~= upload_model(old(self)@, geometry@).calls);
            assert(self@ =~= upload_model(old(self)@, geometry@));
        }
        Mesh(handle)
    }

    /// Overwrite one mesh's instance list wholesale and mark it for
    /// streaming.  A list longer than the capacity is rejected with a
    /// capacity error and the prior state is left unchanged.
    pub fn set_instances(&mut self, mesh: &Mesh, instances: Vec<Instance>) -> (r: Result<
        (),
        RenderError,
    >)
        requires
            old(self).wf(),
            mesh@ < old(self)@.calls.len(),
        ensures
            final(self).wf(),
            instances@.len() <= old(self)@.capacity ==> (r is Ok && final(self)@
                == set_instances_model(old(self)@, mesh@, instances@)),
            instances@.len() > old(self)@.capacity ==> (r == Err::<(), RenderError>(
                RenderError::Capacity,
            ) && final(self)@ == old(self)@),
    {
        if instances.len() > self.instance_capacity {
            return Err(RenderError::Capacity);
        }
        let call = &mut self.calls[mesh.0];
        call.instances = instances;
        call.refresh_instances = true;
        proof {
            assert(self@.calls =~= set_instances_model(old(self)@, mesh@, instances@).calls);
            assert(self@ =~= set_instances_model(old(self)@, mesh@, instances@));
        }
        Ok(())
    }

    /// Create the binding of every draw call that still lacks one and clear
    /// the table-level flag; emits one creation command per previously
    /// unbound call.  Does nothing when no binding is missing.
    pub fn ensure_bindings(&mut self) -> (cmds: Vec<GpuCmd>)
        requires
            old(self).wf(),
        ensures
            final(self).wf(),
            old(self)@.missing_bindings ==> (final(self)@ == ensure_model(old(self)@) && cmds@
                == binding_cmds(old(self)@, 0)),
            !old(self)@.missing_bindings ==> (final(self)@ == old(self)@ && cmds@.len() == 0),
    {
        let mut cmds: Vec<GpuCmd> = Vec::new();
        if !self.missing_bindings {
            return cmds;
        }
        let mut i: usize = 0;
        let n = self.calls.len();
        while i < n
            invariant
                0 <= i <= n,
                n == old(self)@.calls.len(),
                self@.calls.len() == n,
                self@.missing_bindings == old(self)@.missing_bindings,
                self@.capacity == old(self)@.capacity,
                forall|k: int| 0 <= k < i ==> self@.calls[k] == bound_call(old(self)@.calls[k]),
                forall|k: int| i <= k < n ==> self@.calls[k] == old(self)@.calls[k],
                cmds@ + binding_cmds(old(self)@, i as int) == binding_cmds(old(self)@, 0),
            decreases n - i,
        {
            assert(binding_cmds(old(self)@, i as int) == (if old(self)@.calls[i as int].has_binding {
                seq![]
            } else {
                seq![
                    GpuCmd::CreateBinding {
                        call: i,
                        instance_capacity: old(self)@.capacity,
                    },
                ]
            }) + binding_cmds(old(self)@, i as int + 1));
            let ghost pre = self@;
            let capacity = self.instance_capacity;
            let call = &mut self.calls[i];
            if !call.has_binding {
                call.has_binding = true;
                cmds.push(GpuCmd::CreateBinding { call: i, instance_capacity: capacity });
            }
            proof {
                assert(self@.calls[i as int] == bound_call(old(self)@.calls[i as int]));
                assert forall|k: int| 0 <= k < i + 1 implies self@.calls[k] == bound_call(
                    old(self)@.calls[k],
                ) by {
                    if k < i as int {
                        assert(self@.calls[k] == pre.calls[k]);
                    }
                }
                assert(cmds@ + binding_cmds(old(self)@, i as int + 1) =~= binding_cmds(
                    old(self)@,
                    0,
                ));
            }
            i = i + 1;
        }
        self.missing_bindings = false;
        proof {
            assert(self@.calls =~= ensure_model(old(self)@).calls);
            assert(self@ =~= ensure_model(old(self)@));
        }
        cmds
    }

    /// Stream the instance list of every dirty draw call with a non-empty
    /// list, clearing its dirty flag; emits one streaming command per such
    /// call.
    pub fn sync_instances(&mut self) -> (cmds: Vec<GpuCmd>)
        requires
            old(self).wf(),
        ensures
            final(self).wf(),
            final(self)@ == sync_model(old(self)@),
            cmds@ == sync_cmds(old(self)@, 0),
    {
        let mut cmds: Vec<GpuCmd> = Vec::new();
        let mut i: usize = 0;
        let n = self.calls.len();
        while i < n
            invariant
                0 <= i <= n,
                n == old(self)@.calls.len(),
                self@.calls.len() == n,
                self@.missing_bindings == old(self)@.missing_bindings,
                self@.capacity == old(self)@.capacity,
                forall|k: int| 0 <= k < i ==> self@.calls[k] == synced_call(old(self)@.calls[k]),
                forall|k: int| i <= k < n ==> self@.calls[k] == old(self)@.calls[k],
                cmds@ + sync_cmds(old(self)@, i as int) == sync_cmds(old(self)@, 0),
            decreases n - i,
        {
            assert(sync_cmds(old(self)@, i as int) == (if old(self)@.calls[i as int].refresh_instances
                && old(self)@.calls[i as int].instances.len() > 0 {
                seq![GpuCmd::UploadInstances { call: i }]
            } else {
                seq![]
            }) + sync_cmds(old(self)@, i as int + 1));
            let ghost pre = self@;
            let call = &mut self.calls[i];
            if call.refresh_instances && call.instances.len() > 0 {
                call.refresh_instances = false;
                cmds.push(GpuCmd::UploadInstances { call: i });
            }
            proof {
                assert(self@.calls[i as int] == synced_call(old(self)@.calls[i as int]));
                assert forall|k: int| 0 <= k < i + 1 implies self@.calls[k] == synced_call(
                    old(self)@.calls[k],
                ) by {
                    if k < i as int {
                        assert(self@.calls[k] == pre.calls[k]);
                    }
                }
                assert(cmds@ + sync_cmds(old(self)@, i as int + 1) =~= sync_cmds(old(self)@, 0));
            }
            i = i + 1;
        }
        proof {
            assert(self@.calls =~= sync_model(old(self)@).calls);
            assert(self@ =~= sync_model(old(self)@));
        }
        cmds
    }

    /// Emit the instanced draw commands of one geometry pass: one draw per
    /// mesh with a non-empty instance list, in handle order.
    pub fn draw_commands(&self) -> (cmds: Vec<GpuCmd>)
        ensures
            cmds@ == draw_cmds(self@, 0),
    {
        let mut cmds: Vec<GpuCmd> = Vec::new();
        let mut i: usize = 0;
        let n = self.calls.len();
        proof {
            assert(cmds@ + draw_cmds(self@, 0) =~= draw_cmds(self@, 0));
        }
        while i < n
            invariant
                0 <= i <= n,
                n == self@.calls.len(),
                cmds@ + draw_cmds(self@, i as int) == draw_cmds(self@, 0),
            decreases n - i,
        {
            assert(draw_cmds(self@, i as int) == (if self@.calls[i as int].instances.len() > 0 {
                seq![
                    GpuCmd::DrawMesh {
                        call: i,
                        index_count: self@.calls[i as int].indices.len() as usize,
                        instance_count: self@.calls[i as int].instances.len() as usize,
                    },
                ]
            } else {
                seq![]
            }) + draw_cmds(self@, i as int + 1));
            let call = &self.calls[i];
            if call.instances.len() > 0 {
                cmds.push(
                    GpuCmd::DrawMesh {
                        call: i,
                        index_count: call.indices.len(),
                        instance_count: call.instances.len(),
                    },
                );
            }
            proof {
                assert(cmds@ + draw_cmds(self@, i as int + 1) =~= draw_cmds(self@, 0));
            }
            i = i + 1;
        }
        proof {
            assert(cmds@ + draw_cmds(self@, n as int) =~= cmds@);
        }
        cmds
    }

    /// How many meshes have been uploaded.
    pub fn mesh_count(&self) -> (r: usize)
        ensures
            r == self@.calls.len(),
    {
        self.calls.len()
    }

    /// The configured bound on one mesh's instance list.
    pub fn capacity(&self) -> (r: usize)
        ensures
            r == self@.capacity,
    {
        self.instance_capacity
    }

    /// Whether some draw call still lacks its GPU binding.
    pub fn missing_bindings(&self) -> (r: bool)
        ensures
            r == self@.missing_bindings,
    {
        self.missing_bindings
    }

    /// The immutable vertex buffer of one mesh.
    pub fn vertices(&self, mesh: &Mesh) -> (r: &Vec<Vertex>)
        requires
            mesh@ < self@.calls.len(),
        ensures
            r@ == self@.calls[mesh@].vertices,
    {
        &self.calls[mesh.0].vertices
    }

    /// The immutable index buffer of one mesh.
    pub fn indices(&self, mesh: &Mesh) -> (r: &Vec<u16>)
        requires
            mesh@ < self@.calls.len(),
        ensures
            r@ == self@.calls[mesh@].indices,
    {
        &self.calls[mesh.0].indices
    }

    /// The current instance list of one mesh.
    pub fn instances(&self, mesh: &Mesh) -> (r: &Vec<Instance>)
        requires
            mesh@ < self@.calls.len(),
        ensures
            r@ == self@.calls[mesh@].instances,
    {
        &self.calls[mesh.0].instances
    }

    /// The immutable vertex buffer of the draw call at a position, for the
    /// executor of binding-creation commands.
    pub fn vertices_at(&self, call: usize) -> (r: &Vec<Vertex>)
        requires
            call < self@.calls.len(),
        ensures
            r@ == self@.calls[call as int].vertices,
    {
        &self.calls[call].vertices
    }

    /// The immutable index buffer of the draw call at a position.
    pub fn indices_at(&self, call: usize) -> (r: &Vec<u16>)
        requires
            call < self@.calls.len(),
        ensures
            r@ == self@.calls[call as int].indices,
    {
        &self.calls[call].indices
    }

    /// The current instance list of the draw call at a position, for the
    /// executor of streaming commands.
    pub fn instances_at(&self, call: usize) -> (r: &Vec<Instance>)
        requires
            call < self@.calls.len(),
        ensures
            r@ == self@.calls[call as int].instances,
    {
        &self.calls[call].instances
    }

    /// Whether one mesh's GPU binding has been created.
    pub fn has_binding(&self, mesh: &Mesh) -> (r: bool)
        requires
            mesh@ < self@.calls.len(),
        ensures
            r == self@.calls[mesh@].has_binding,
    {
        self.calls[mesh.0].has_binding
    }
}

/// Overwriting a mesh's instance list twice with the same list leaves the
/// same content as overwriting it once: `set_instances` replaces, it never
/// appends, and repeating it changes nothing further.
pub proof fn lemma_set_instances_overwrites(t: TableModel, m: int, instances: Seq<Instance>)
    requires
        0 <= m < t.calls.len(),
    ensures
        set_instances_model(t, m, instances).calls[m].instances == instances,
        set_instances_model(set_instances_model(t, m, instances), m, instances)
            == set_instances_model(t, m, instances),
{
    let once = set_instances_model(t, m, instances);
    let twice = set_instances_model(once, m, instances);
    assert(twice.calls =~= once.calls);
    assert(twice =~= once);
}

/// Mesh handles are issued strictly increasing in upload order: every upload
/// returns the current next handle and raises it by one.
pub proof fn lemma_upload_handles_increase(t: TableModel, g1: GeometryModel, g2: GeometryModel)
    ensures
        next_handle(t) < next_handle(upload_model(t, g1)),
        next_handle(upload_model(t, g1)) < next_handle(upload_model(upload_model(t, g1), g2)),
{
}

/// Draw-call buffers are never mutated after creation, and a mesh handle
/// stays bound to its call for the life of the table: every transition
/// keeps each existing call's vertex and index buffers, and an upload only
/// appends.
pub proof fn lemma_buffers_never_mutated(
    t: TableModel,
    g: GeometryModel,
    m: int,
    instances: Seq<Instance>,
    i: int,
)
    requires
        0 <= i < t.calls.len(),
        0 <= m < t.calls.len(),
    ensures
        upload_model(t, g).calls[i] == t.calls[i],
        set_instances_model(t, m, instances).calls[i].vertices == t.calls[i].vertices,
        set_instances_model(t, m, instances).calls[i].indices == t.calls[i].indices,
        ensure_model(t).calls[i].vertices == t.calls[i].vertices,
        ensure_model(t).calls[i].indices == t.calls[i].indices,
        sync_model(t).calls[i].vertices == t.calls[i].vertices,
        sync_model(t).calls[i].indices == t.calls[i].indices,
{
}

proof fn lemma_binding_cmds_of_bound_from(t: TableModel, i: int)
    requires
        forall|k: int| 0 <= k < t.calls.len() ==> (#[trigger] t.calls[k]).has_binding,
        0 <= i,
    ensures
        binding_cmds(t, i) == Seq::<GpuCmd>::empty(),
    decreases t.calls.len() - i,
{
    if i < t.calls.len() {
        lemma_binding_cmds_of_bound_from(t, i + 1);
        assert(binding_cmds(t, i) =~= Seq::<GpuCmd>::empty());
    }
}

/// Bindings are created at most once per draw call: once binding creation
/// has run over a table, the resulting table owes no binding-creation
/// command at all until a fresh upload appends an unbound call.
pub proof fn lemma_bindings_created_at_most_once(t: TableModel)
    ensures
        binding_cmds(ensure_model(t), 0) == Seq::<GpuCmd>::empty(),
{
    lemma_binding_cmds_of_bound_from(ensure_model(t), 0);
}

proof fn lemma_sync_cmds_of_clean_from(t: TableModel, i: int)
    requires
        forall|k: int|
            0 <= k < t.calls.len() ==> !((#[trigger] t.calls[k]).refresh_instances
                && t.calls[k].instances.len() > 0),
        0 <= i,
    ensures
        sync_cmds(t, i) == Seq::<GpuCmd>::empty(),
    decreases t.calls.len() - i,
{
    if i < t.calls.len() {
        lemma_sync_cmds_of_clean_from(t, i + 1);
        assert(sync_cmds(t, i) =~= Seq::<GpuCmd>::empty());
    }
}

/// Instance lists are streamed at most once per overwrite: right after
/// streaming has run over a table, the resulting table owes no streaming
/// command until some instance list is overwritten again.
pub proof fn lemma_instances_streamed_at_most_once(t: TableModel)
    ensures
        sync_cmds(sync_model(t), 0) == Seq::<GpuCmd>::empty(),
{
    lemma_sync_cmds_of_clean_from(sync_model(t), 0);
}

} // verus!
