use vector_render::error::RenderError;
use vector_render::geom::{Color, Instance, Point, Vertex};
use vector_render::geometry::Geometry;
use vector_render::gpu::GpuCmd;
use vector_render::table::{DrawCallTable, DEFAULT_INSTANCE_CAPACITY};

fn vert(x: f32, y: f32) -> Vertex {
    Vertex {
        pos: Point { x: x.to_bits(), y: y.to_bits() },
        color: Color {
            r: 1.0f32.to_bits(),
            g: 1.0f32.to_bits(),
            b: 1.0f32.to_bits(),
            a: 1.0f32.to_bits(),
        },
    }
}

fn triangle() -> Geometry {
    let mut geometry = Geometry::new();
    let vertices = vec![vert(0.0, 0.0), vert(1.0, 0.0), vert(0.0, 1.0)];
    let indices: Vec<u16> = vec![0, 1, 2];
    geometry.append_fill(&vertices, &indices).unwrap();
    geometry
}

#[test]
fn default_capacity_is_a_mebi() {
    assert_eq!(DEFAULT_INSTANCE_CAPACITY, 1024 * 1024);
}

#[test]
fn upload_handles_strictly_increase() {
    let mut table = DrawCallTable::new(DEFAULT_INSTANCE_CAPACITY);
    let m1 = table.upload(triangle());
    let m2 = table.upload(triangle());
    let m3 = table.upload(triangle());
    assert!(m1.index() < m2.index());
    assert!(m2.index() < m3.index());
    assert_eq!(m1.index(), 0);
    assert_eq!(m3.index(), 2);
    assert_eq!(table.mesh_count(), 3);
    assert_ne!(m1, m2);
}

#[test]
fn set_instances_overwrites_not_appends() {
    let mut table = DrawCallTable::new(DEFAULT_INSTANCE_CAPACITY);
    let mesh = table.upload(triangle());
    let list = vec![
        Instance::new(1.0f32.to_bits(), 2.0f32.to_bits()),
        Instance::new(3.0f32.to_bits(), 4.0f32.to_bits()),
    ];
    table.set_instances(&mesh, list.clone()).unwrap();
    table.set_instances(&mesh, list.clone()).unwrap();
    assert_eq!(table.instances(&mesh), &list);
}

#[test]
fn instance_capacity_exact_fit_succeeds() {
    let mut table = DrawCallTable::new(3);
    let mesh = table.upload(triangle());
    let exact = vec![Instance::new(0, 0); 3];
    assert_eq!(table.set_instances(&mesh, exact.clone()), Ok(()));
    assert_eq!(table.instances(&mesh), &exact);
}

#[test]
fn instance_capacity_overflow_rejected_and_state_kept() {
    let mut table = DrawCallTable::new(3);
    let mesh = table.upload(triangle());
    let exact = vec![Instance::new(0, 0); 3];
    table.set_instances(&mesh, exact.clone()).unwrap();
    let too_many = vec![Instance::new(0, 0); 4];
    assert_eq!(table.set_instances(&mesh, too_many), Err(RenderError::Capacity));
    assert_eq!(table.instances(&mesh), &exact);
}

#[test]
fn bindings_created_once_per_call() {
    let mut table = DrawCallTable::new(8);
    let m1 = table.upload(triangle());
    let m2 = table.upload(triangle());
    assert!(table.missing_bindings());
    let cmds = table.ensure_bindings();
    assert_eq!(
        cmds,
        vec![
            GpuCmd::CreateBinding { call: 0, instance_capacity: 8 },
            GpuCmd::CreateBinding { call: 1, instance_capacity: 8 },
        ]
    );
    assert!(table.has_binding(&m1));
    assert!(table.has_binding(&m2));
    assert!(!table.missing_bindings());
    assert_eq!(table.ensure_bindings(), vec![]);
    let m3 = table.upload(triangle());
    assert!(!table.has_binding(&m3));
    assert_eq!(
        table.ensure_bindings(),
        vec![GpuCmd::CreateBinding { call: 2, instance_capacity: 8 }]
    );
}

#[test]
fn sync_streams_dirty_nonempty_lists_once() {
    let mut table = DrawCallTable::new(8);
    let dirty = table.upload(triangle());
    let _empty = table.upload(triangle());
    table.set_instances(&dirty, vec![Instance::new(0, 0)]).unwrap();
    assert_eq!(table.sync_instances(), vec![GpuCmd::UploadInstances { call: 0 }]);
    assert_eq!(table.sync_instances(), vec![]);
    table.set_instances(&dirty, vec![Instance::new(0, 0)]).unwrap();
    assert_eq!(table.sync_instances(), vec![GpuCmd::UploadInstances { call: 0 }]);
}

#[test]
fn draw_commands_skip_empty_meshes() {
    let mut table = DrawCallTable::new(8);
    let _bare = table.upload(triangle());
    let placed = table.upload(triangle());
    table
        .set_instances(&placed, vec![Instance::new(0, 0), Instance::new(1, 1)])
        .unwrap();
    assert_eq!(
        table.draw_commands(),
        vec![GpuCmd::DrawMesh { call: 1, index_count: 3, instance_count: 2 }]
    );
}

#[test]
fn uploaded_buffers_are_kept_verbatim() {
    let mut table = DrawCallTable::new(8);
    let mesh = table.upload(triangle());
    assert_eq!(table.vertices(&mesh).len(), 3);
    assert_eq!(table.indices(&mesh), &vec![0u16, 1, 2]);
    assert_eq!(table.instances(&mesh).len(), 0);
}
