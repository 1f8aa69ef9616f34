use vector_render::error::RenderError;
use vector_render::geom::{Color, Instance, Point, Vertex};
use vector_render::geometry::Geometry;
use vector_render::gpu::GpuCmd;
use vector_render::render::Render;

fn triangle() -> Geometry {
    let color = Color {
        r: 0.0f32.to_bits(),
        g: 0.0f32.to_bits(),
        b: 1.0f32.to_bits(),
        a: 0.5f32.to_bits(),
    };
    let vertices = vec![
        Vertex { pos: Point { x: 0.0f32.to_bits(), y: 0.0f32.to_bits() }, color },
        Vertex { pos: Point { x: 1.0f32.to_bits(), y: 0.0f32.to_bits() }, color },
        Vertex { pos: Point { x: 0.0f32.to_bits(), y: 1.0f32.to_bits() }, color },
    ];
    let mut geometry = Geometry::new();
    geometry.append_fill(&vertices, &vec![0, 1, 2]).unwrap();
    geometry
}

#[test]
fn new_engine_plans_first_target_pair() {
    let (_render, setup) = Render::new(800, 600, 16);
    assert_eq!(
        setup,
        vec![
            GpuCmd::CreateTargetPair { width: 800, height: 600, generation: 1 },
            GpuCmd::RebindPostProcess { generation: 1 },
        ]
    );
}

#[test]
fn rendering_needs_a_confirmed_target() {
    let (mut render, _setup) = Render::new(800, 600, 16);
    assert_eq!(render.render(), Err(RenderError::Resize));
    render.confirm_target(true);
    assert!(render.render().is_ok());
}

#[test]
fn failed_target_allocation_blocks_frames() {
    let (mut render, _setup) = Render::new(800, 600, 16);
    render.confirm_target(false);
    assert_eq!(render.render(), Err(RenderError::Resize));
}

#[test]
fn resize_destroys_old_target_exactly_once() {
    let (mut render, _setup) = Render::new(800, 600, 16);
    render.confirm_target(true);
    assert!(render.render().is_ok());
    let cmds = render.resize(1920, 1080);
    assert_eq!(
        cmds,
        vec![
            GpuCmd::DestroyTargetPair { generation: 1 },
            GpuCmd::CreateTargetPair { width: 1920, height: 1080, generation: 2 },
            GpuCmd::RebindPostProcess { generation: 2 },
        ]
    );
    let destroys = cmds
        .iter()
        .filter(|c| matches!(c, GpuCmd::DestroyTargetPair { .. }))
        .count();
    assert_eq!(destroys, 1);
    render.confirm_target(true);
    let frame = render.render().unwrap();
    assert!(frame.contains(&GpuCmd::BeginOffscreenPass {
        generation: 2,
        width: 1920,
        height: 1080,
    }));
    assert!(render.render().is_ok());
}

#[test]
fn first_frame_plan_runs_all_stages() {
    let (mut render, _setup) = Render::new(320, 200, 16);
    render.confirm_target(true);
    let mesh = render.upload_buffers(triangle());
    render
        .set_instances(&mesh, vec![Instance::new(0, 0), Instance::new(1, 1)])
        .unwrap();
    let frame = render.render().unwrap();
    assert_eq!(
        frame,
        vec![
            GpuCmd::CreateBinding { call: 0, instance_capacity: 16 },
            GpuCmd::UploadInstances { call: 0 },
            GpuCmd::BeginOffscreenPass { generation: 1, width: 320, height: 200 },
            GpuCmd::DrawMesh { call: 0, index_count: 3, instance_count: 2 },
            GpuCmd::EndPass,
            GpuCmd::BeginDefaultPass,
            GpuCmd::ApplyPostProcess { width: 320, height: 200, generation: 1 },
            GpuCmd::DrawQuad,
            GpuCmd::EndPass,
            GpuCmd::Commit,
        ]
    );
    let second = render.render().unwrap();
    assert_eq!(
        second,
        vec![
            GpuCmd::BeginOffscreenPass { generation: 1, width: 320, height: 200 },
            GpuCmd::DrawMesh { call: 0, index_count: 3, instance_count: 2 },
            GpuCmd::EndPass,
            GpuCmd::BeginDefaultPass,
            GpuCmd::ApplyPostProcess { width: 320, height: 200, generation: 1 },
            GpuCmd::DrawQuad,
            GpuCmd::EndPass,
            GpuCmd::Commit,
        ]
    );
}

#[test]
fn post_process_runs_even_when_nothing_drawn() {
    let (mut render, _setup) = Render::new(100, 100, 4);
    render.confirm_target(true);
    let frame = render.render().unwrap();
    assert_eq!(
        frame,
        vec![
            GpuCmd::BeginOffscreenPass { generation: 1, width: 100, height: 100 },
            GpuCmd::EndPass,
            GpuCmd::BeginDefaultPass,
            GpuCmd::ApplyPostProcess { width: 100, height: 100, generation: 1 },
            GpuCmd::DrawQuad,
            GpuCmd::EndPass,
            GpuCmd::Commit,
        ]
    );
}

#[test]
fn empty_instance_list_is_a_no_op_not_a_failure() {
    let (mut render, _setup) = Render::new(100, 100, 4);
    render.confirm_target(true);
    let mesh = render.upload_buffers(triangle());
    let frame = render.render().unwrap();
    assert!(frame.contains(&GpuCmd::CreateBinding { call: 0, instance_capacity: 4 }));
    assert!(!frame.iter().any(|c| matches!(c, GpuCmd::DrawMesh { .. })));
    assert!(!frame.iter().any(|c| matches!(c, GpuCmd::UploadInstances { .. })));
    render.set_instances(&mesh, vec![Instance::new(0, 0)]).unwrap();
    let frame = render.render().unwrap();
    assert!(frame.contains(&GpuCmd::UploadInstances { call: 0 }));
    assert!(frame.contains(&GpuCmd::DrawMesh { call: 0, index_count: 3, instance_count: 1 }));
}

#[test]
fn engine_capacity_overflow_keeps_prior_instances() {
    let (mut render, _setup) = Render::new(100, 100, 2);
    render.confirm_target(true);
    let mesh = render.upload_buffers(triangle());
    let kept = vec![Instance::new(0, 0), Instance::new(1, 1)];
    assert_eq!(render.set_instances(&mesh, kept.clone()), Ok(()));
    let over = vec![Instance::new(0, 0); 3];
    assert_eq!(render.set_instances(&mesh, over), Err(RenderError::Capacity));
    assert_eq!(render.table().instances(&mesh), &kept);
}
