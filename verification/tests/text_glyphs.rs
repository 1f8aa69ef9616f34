use vector_render::error::FontError;
use vector_render::geom::{Color, Instance, Point, Vertex};
use vector_render::geometry::Geometry;
use vector_render::table::{DrawCallTable, Mesh};
use vector_render::text::{record_from_parts, Font, FontInstance, Glyph, GlyphRecord, TextPlacement};

fn two_meshes() -> (Mesh, Mesh) {
    let color = Color {
        r: 1.0f32.to_bits(),
        g: 1.0f32.to_bits(),
        b: 1.0f32.to_bits(),
        a: 1.0f32.to_bits(),
    };
    let vertices = vec![
        Vertex { pos: Point { x: 0, y: 0 }, color },
        Vertex { pos: Point { x: 1, y: 0 }, color },
        Vertex { pos: Point { x: 0, y: 1 }, color },
    ];
    let mut table = DrawCallTable::new(4);
    let mut g1 = Geometry::new();
    g1.append_fill(&vertices, &vec![0, 1, 2]).unwrap();
    let mut g2 = Geometry::new();
    g2.append_fill(&vertices, &vec![0, 1, 2]).unwrap();
    (table.upload(g1), table.upload(g2))
}

#[test]
fn absent_glyph_is_an_error_not_a_panic() {
    assert_eq!(record_from_parts(None, None, None), Err(FontError::GlyphNotFound));
    assert_eq!(record_from_parts(None, Some(10), Some(1)), Err(FontError::GlyphNotFound));
}

#[test]
fn missing_advance_is_an_error() {
    assert_eq!(record_from_parts(Some(7), None, Some(1)), Err(FontError::MissingAdvance));
}

#[test]
fn missing_side_bearing_defaults_to_zero() {
    assert_eq!(
        record_from_parts(Some(7), Some(10), None),
        Ok(GlyphRecord { glyph: 7, advance: 10, side_bearing: 0 })
    );
    assert_eq!(
        record_from_parts(Some(7), Some(10), Some(-3)),
        Ok(GlyphRecord { glyph: 7, advance: 10, side_bearing: -3 })
    );
}

fn push_u16(out: &mut Vec<u8>, v: u16) {
    out.extend_from_slice(&v.to_be_bytes());
}

fn push_u32(out: &mut Vec<u8>, v: u32) {
    out.extend_from_slice(&v.to_be_bytes());
}

/// A minimal valid font: just the head, hhea and maxp tables, so it parses
/// and has metrics but covers no character at all.
fn minimal_font() -> Vec<u8> {
    let mut font = Vec::new();
    push_u32(&mut font, 0x0001_0000); // sfnt version
    push_u16(&mut font, 3); // table count
    push_u16(&mut font, 0); // search range
    push_u16(&mut font, 0); // entry selector
    push_u16(&mut font, 0); // range shift
    for (tag, offset, length) in
        [(*b"head", 60u32, 54u32), (*b"hhea", 114, 36), (*b"maxp", 150, 6)]
    {
        font.extend_from_slice(&tag);
        push_u32(&mut font, 0); // checksum
        push_u32(&mut font, offset);
        push_u32(&mut font, length);
    }

    // head
    push_u32(&mut font, 0x0001_0000); // version
    push_u32(&mut font, 0); // revision
    push_u32(&mut font, 0); // checksum adjustment
    push_u32(&mut font, 0x5F0F_3CF5); // magic
    push_u16(&mut font, 0); // flags
    push_u16(&mut font, 1000); // units per em
    font.extend_from_slice(&[0u8; 16]); // created + modified
    font.extend_from_slice(&[0u8; 8]); // bounding box
    push_u16(&mut font, 0); // mac style
    push_u16(&mut font, 0); // lowest rec ppem
    push_u16(&mut font, 0); // font direction hint
    push_u16(&mut font, 0); // index-to-location format
    push_u16(&mut font, 0); // glyph data format

    // hhea
    push_u32(&mut font, 0x0001_0000); // version
    push_u16(&mut font, 800); // ascender
    push_u16(&mut font, (-200i16) as u16); // descender
    push_u16(&mut font, 0); // line gap
    font.extend_from_slice(&[0u8; 24]);
    push_u16(&mut font, 0); // number of horizontal metrics

    // maxp
    push_u32(&mut font, 0x0001_0000); // version
    push_u16(&mut font, 1); // glyph count

    font
}

#[test]
fn minimal_font_parses_with_height_metrics() {
    let data = minimal_font();
    let font = Font::from_bytes(&data).unwrap();
    // No x-height table, so the scale metric falls back to the full height,
    // ascender minus descender.
    assert_eq!(font.scale_metric(), 1000);
    assert_eq!(font.space_units(), 1000);
}

#[test]
fn uncovered_character_gives_an_error_from_a_real_face() {
    let data = minimal_font();
    let font = Font::from_bytes(&data).unwrap();
    assert_eq!(font.glyph_record('a'), Err(FontError::GlyphNotFound));
}

#[test]
fn garbage_bytes_are_no_font() {
    let junk = b"this is not a font at all";
    match Font::from_bytes(junk) {
        Err(FontError::Parse) => {}
        _ => panic!("garbage bytes must be rejected as a parse error"),
    }
}

#[test]
fn letter_mesh_of_unknown_character_is_none() {
    let (mesh, _) = two_meshes();
    let mut font = FontInstance::new(100);
    font.add_glyph('a', Glyph { mesh, advance: 10, side_bearing: 2 });
    assert_eq!(font.letter_mesh('a'), Some(mesh));
    assert_eq!(font.letter_mesh('b'), None);
}

#[test]
fn later_glyph_record_wins() {
    let (first, second) = two_meshes();
    let mut font = FontInstance::new(100);
    font.add_glyph('a', Glyph { mesh: first, advance: 10, side_bearing: 0 });
    font.add_glyph('a', Glyph { mesh: second, advance: 12, side_bearing: 1 });
    assert_eq!(font.letter_mesh('a'), Some(second));
}

#[test]
fn layout_advances_cursor_and_applies_bearing() {
    let (mesh, _) = two_meshes();
    let mut font = FontInstance::new(7);
    font.add_glyph('a', Glyph { mesh, advance: 10, side_bearing: 2 });
    let placements = font.text(&vec!['a', 'a']);
    assert_eq!(
        placements,
        vec![
            TextPlacement { offset: 2, mesh },
            TextPlacement { offset: 12, mesh },
        ]
    );
}

#[test]
fn unmapped_character_falls_back_to_space_advance() {
    let (mesh, _) = two_meshes();
    let mut font = FontInstance::new(7);
    font.add_glyph('a', Glyph { mesh, advance: 10, side_bearing: 2 });
    let placements = font.text(&vec!['a', 'X', 'a']);
    assert_eq!(
        placements,
        vec![
            TextPlacement { offset: 2, mesh },
            TextPlacement { offset: 19, mesh },
        ]
    );
    assert_eq!(font.text(&vec!['X', 'Y']), vec![]);
}

#[test]
fn instance_transforms_round_trip_through_bits() {
    let mut instance = Instance::new(3.5f32.to_bits(), (-1.25f32).to_bits());
    assert_eq!(f32::from_bits(instance.x()), 3.5);
    assert_eq!(f32::from_bits(instance.y()), -1.25);
    assert_eq!(f32::from_bits(instance.rotation()), 0.0);
    assert_eq!(f32::from_bits(instance.scale()), 1.0);
    instance.set_scale(2.0f32.to_bits());
    instance.set_rotation(1.5f32.to_bits());
    instance.set_x(8.0f32.to_bits());
    instance.set_y(9.0f32.to_bits());
    assert_eq!(f32::from_bits(instance.scale()), 2.0);
    assert_eq!(f32::from_bits(instance.rotation()), 1.5);
    assert_eq!(f32::from_bits(instance.x()), 8.0);
    assert_eq!(f32::from_bits(instance.y()), 9.0);
}
