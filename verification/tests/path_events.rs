use vector_render::error::RenderError;
use vector_render::geom::Point;
use vector_render::path::{normalize, PathEvent, PathSegment};
use vector_render::text::GlyphBuilder;

fn pt(x: f32, y: f32) -> Point {
    Point { x: x.to_bits(), y: y.to_bits() }
}

#[test]
fn open_line_gets_implicit_end() {
    let p0 = pt(0.0, 0.0);
    let p1 = pt(10.0, 0.0);
    let segments = vec![PathSegment::MoveTo { to: p0 }, PathSegment::LineTo { to: p1 }];
    let events = normalize(&segments).unwrap();
    assert_eq!(
        events,
        vec![
            PathEvent::Begin { at: p0 },
            PathEvent::Line { from: p0, to: p1 },
            PathEvent::End { last: p1, first: p0, close: false },
        ]
    );
}

#[test]
fn two_moves_abandon_first_subpath() {
    let p0 = pt(1.0, 2.0);
    let p1 = pt(3.0, 4.0);
    let segments = vec![PathSegment::MoveTo { to: p0 }, PathSegment::MoveTo { to: p1 }];
    let events = normalize(&segments).unwrap();
    assert_eq!(
        events,
        vec![
            PathEvent::Begin { at: p0 },
            PathEvent::End { last: p0, first: p0, close: false },
            PathEvent::Begin { at: p1 },
            PathEvent::End { last: p1, first: p1, close: false },
        ]
    );
}

#[test]
fn closed_square_balances_begins_and_ends() {
    let corners = [pt(0.0, 0.0), pt(1.0, 0.0), pt(1.0, 1.0), pt(0.0, 1.0)];
    let segments = vec![
        PathSegment::MoveTo { to: corners[0] },
        PathSegment::LineTo { to: corners[1] },
        PathSegment::LineTo { to: corners[2] },
        PathSegment::LineTo { to: corners[3] },
        PathSegment::ClosePath,
    ];
    let events = normalize(&segments).unwrap();
    let begins = events.iter().filter(|e| matches!(e, PathEvent::Begin { .. })).count();
    let ends = events.iter().filter(|e| matches!(e, PathEvent::End { .. })).count();
    assert_eq!(begins, 1);
    assert_eq!(ends, 1);
    assert_eq!(
        events.last().unwrap(),
        &PathEvent::End { last: corners[0], first: corners[0], close: true }
    );
}

#[test]
fn close_flag_set_only_by_close_path() {
    let p0 = pt(0.0, 0.0);
    let p1 = pt(5.0, 0.0);
    let p2 = pt(9.0, 9.0);
    let p3 = pt(9.0, 0.0);
    let segments = vec![
        PathSegment::MoveTo { to: p0 },
        PathSegment::LineTo { to: p1 },
        PathSegment::ClosePath,
        PathSegment::MoveTo { to: p2 },
        PathSegment::LineTo { to: p3 },
    ];
    let events = normalize(&segments).unwrap();
    let closed_ends = events
        .iter()
        .filter(|e| matches!(e, PathEvent::End { close: true, .. }))
        .count();
    let open_ends = events
        .iter()
        .filter(|e| matches!(e, PathEvent::End { close: false, .. }))
        .count();
    assert_eq!(closed_ends, 1);
    assert_eq!(open_ends, 1);
}

#[test]
fn empty_path_has_no_events() {
    let segments: Vec<PathSegment> = vec![];
    assert_eq!(normalize(&segments).unwrap(), vec![]);
}

#[test]
fn drawing_before_any_move_is_rejected() {
    let segments = vec![PathSegment::LineTo { to: pt(1.0, 1.0) }];
    assert_eq!(normalize(&segments), Err(RenderError::Parse));
}

#[test]
fn closing_before_any_move_is_rejected() {
    let segments = vec![PathSegment::ClosePath];
    assert_eq!(normalize(&segments), Err(RenderError::Parse));
}

#[test]
fn drawing_after_close_without_move_is_rejected() {
    let segments = vec![
        PathSegment::MoveTo { to: pt(0.0, 0.0) },
        PathSegment::LineTo { to: pt(1.0, 0.0) },
        PathSegment::ClosePath,
        PathSegment::LineTo { to: pt(2.0, 0.0) },
    ];
    assert_eq!(normalize(&segments), Err(RenderError::Parse));
}

#[test]
fn curves_keep_their_control_points() {
    let p0 = pt(0.0, 0.0);
    let c1 = pt(1.0, 1.0);
    let c2 = pt(2.0, -1.0);
    let p1 = pt(3.0, 0.0);
    let segments = vec![
        PathSegment::MoveTo { to: p0 },
        PathSegment::QuadTo { ctrl: c1, to: p1 },
        PathSegment::CurveTo { ctrl1: c1, ctrl2: c2, to: p0 },
    ];
    let events = normalize(&segments).unwrap();
    assert_eq!(events[1], PathEvent::Quadratic { from: p0, ctrl: c1, to: p1 });
    assert_eq!(events[2], PathEvent::Cubic { from: p1, ctrl1: c1, ctrl2: c2, to: p0 });
    assert_eq!(events[3], PathEvent::End { last: p0, first: p0, close: false });
}

#[test]
fn glyph_builder_feeds_the_same_normalizer() {
    let mut builder = GlyphBuilder::new();
    builder.move_to(pt(0.0, 0.0));
    builder.line_to(pt(4.0, 0.0));
    builder.line_to(pt(4.0, 4.0));
    builder.close();
    let segments = builder.path();
    assert_eq!(segments.len(), 4);
    let events = normalize(&segments).unwrap();
    assert_eq!(events.len(), 4);
    assert!(matches!(events[3], PathEvent::End { close: true, .. }));
}
