//! Fonts as producers of path segments, and text layout over glyph metrics.
//!
//! A font file is parsed by `ttf_parser`; the core reads only its plain
//! metric values — glyph coverage, horizontal advance, side bearing and the
//! height metrics — all in integer font design units.  Glyph outlines are
//! walked outside the core (their coordinates are floating point) and arrive
//! here as [`PathSegment`] values through [`GlyphBuilder`], joining vector
//! documents on the same normalization path.  Layout also runs in design
//! units: scaling placements to pixels is the platform layer's business.

use vstd::prelude::*;

use crate::error::FontError;
use crate::geom::Point;
use crate::path::PathSegment;
use crate::table::Mesh;

verus! {

#[verifier::external_type_specification]
#[verifier::external_body]
pub struct ExFace<'a>(ttf_parser::Face<'a>);

/// Whether `ttf_parser::Face::parse` accepts these bytes as a font (at face
/// index zero); a function of the bytes alone.
pub uninterp spec fn face_parses(data: Seq<u8>) -> bool;

/// The glyph (if any) that the font maps a character to; a function of the
/// font bytes and the character alone.
pub uninterp spec fn glyph_lookup(data: Seq<u8>, ch: char) -> Option<u16>;

/// The horizontal advance (if any) the font records for a glyph, in design
/// units; a function of the font bytes and the glyph alone.
pub uninterp spec fn advance_lookup(data: Seq<u8>, glyph: u16) -> Option<u16>;

/// The left side bearing (if any) the font records for a glyph, in design
/// units; a function of the font bytes and the glyph alone.
pub uninterp spec fn bearing_lookup(data: Seq<u8>, glyph: u16) -> Option<i16>;

/// The font's x-height metric (if any), in design units; a function of the
/// font bytes alone.
pub uninterp spec fn x_height_lookup(data: Seq<u8>) -> Option<i16>;

/// The font's height metric (ascender minus descender), in design units; a
/// function of the font bytes alone.
pub uninterp spec fn height_lookup(data: Seq<u8>) -> int;

/// A parsed font: the face together with the bytes it was parsed from.
/// Its view is those bytes, of which every metric is a function.
pub struct Font<'a> {
    face: ttf_parser::Face<'a>,
    data: &'a [u8],
}

impl<'a> View for Font<'a> {
    type V = Seq<u8>;

    closed spec fn view(&self) -> Seq<u8> {
        self.data@
    }
}

/// Relies on ttf_parser::Face::parse: it accepts or rejects the bytes
/// deterministically and without panicking, and the face it returns reads
/// from those same bytes.
#[verifier::external_body]
fn parse_font<'a>(data: &'a [u8]) -> (r: Option<Font<'a>>)
    ensures
        r is Some <==> face_parses(data@),
        r matches Some(f) ==> f@ == data@,
{
    match ttf_parser::Face::parse(data, 0) {
        Ok(face) => Some(Font { face, data }),
        Err(_) => None,
    }
}

/// Relies on ttf_parser::Face::glyph_index: the glyph a character maps to
/// is a function of the font bytes and the character.
#[verifier::external_body]
fn face_glyph_index(font: &Font<'_>, ch: char) -> (r: Option<u16>)
    ensures
        r == glyph_lookup(font@, ch),
{
    font.face.glyph_index(ch).map(|g| g.0)
}

/// Relies on ttf_parser::Face::glyph_hor_advance: the advance is a function
/// of the font bytes and the glyph.
#[verifier::external_body]
fn face_glyph_advance(font: &Font<'_>, glyph: u16) -> (r: Option<u16>)
    ensures
        r == advance_lookup(font@, glyph),
{
    font.face.glyph_hor_advance(ttf_parser::GlyphId(glyph))
}

/// Relies on ttf_parser::Face::glyph_hor_side_bearing: the bearing is a
/// function of the font bytes and the glyph.
#[verifier::external_body]
fn face_glyph_bearing(font: &Font<'_>, glyph: u16) -> (r: Option<i16>)
    ensures
        r == bearing_lookup(font@, glyph),
{
    font.face.glyph_hor_side_bearing(ttf_parser::GlyphId(glyph))
}

/// Relies on ttf_parser::Face::x_height: the metric is a function of the
/// font bytes.
#[verifier::external_body]
fn face_x_height(font: &Font<'_>) -> (r: Option<i16>)
    ensures
        r == x_height_lookup(font@),
{
    font.face.x_height()
}

/// Relies on ttf_parser::Face::height: the metric is ascender minus
/// descender, a function of the font bytes.
#[verifier::external_body]
fn face_height(font: &Font<'_>) -> (r: i16)
    ensures
        r as int == height_lookup(font@),
{
    font.face.height()
}

/// The metrics a glyph mesh is laid out with, in font design units.
#[derive(Debug, Clone, Copy, PartialEq, Eq, Structural)]
pub struct GlyphRecord {
    /// The glyph the font maps the character to.
    pub glyph: u16,
    /// Horizontal advance of the glyph.
    pub advance: u16,
    /// Left side bearing of the glyph; zero when the font records none.
    pub side_bearing: i16,
}

/// The record owed for looked-up glyph parts: no glyph is an error, a glyph
/// without an advance is an error, and a missing side bearing defaults to
/// zero.
pub open spec fn record_spec(
    glyph: Option<u16>,
    advance: Option<u16>,
    bearing: Option<i16>,
) -> Result<GlyphRecord, FontError> {
    match glyph {
        None => Err(FontError::GlyphNotFound),
        Some(g) => match advance {
            None => Err(FontError::MissingAdvance),
            Some(a) => Ok(
                GlyphRecord {
                    glyph: g,
                    advance: a,
                    side_bearing: match bearing {
                        Some(b) => b,
                        None => 0,
                    },
                },
            ),
        },
    }
}

/// Decide a glyph record from looked-up parts, exactly as [`record_spec`]
/// says: requesting a glyph absent from the coverage is an error, never a
/// panic.
pub fn record_from_parts(glyph: Option<u16>, advance: Option<u16>, bearing: Option<i16>) -> (r:
    Result<GlyphRecord, FontError>)
    ensures
        r == record_spec(glyph, advance, bearing),
{
    match glyph {
        None => Err(FontError::GlyphNotFound),
        Some(g) => match advance {
            None => Err(FontError::MissingAdvance),
            Some(a) => Ok(
                GlyphRecord {
                    glyph: g,
                    advance: a,
                    side_bearing: match bearing {
                        Some(b) => b,
                        None => 0,
                    },
                },
            ),
        },
    }
}

/// The glyph record a font owes for a character.
pub open spec fn glyph_record_spec(data: Seq<u8>, ch: char) -> Result<GlyphRecord, FontError> {
    match glyph_lookup(data, ch) {
        None => Err(FontError::GlyphNotFound),
        Some(g) => record_spec(Some(g), advance_lookup(data, g), bearing_lookup(data, g)),
    }
}

/// The metric glyph outlines are scaled by: the x-height when the font
/// records one, else the full height.
pub open spec fn metric_spec(x_height: Option<i16>, height: int) -> int {
    match x_height {
        Some(v) => v as int,
        None => height,
    }
}

/// The fallback advance of unmapped characters, in design units: the scale
/// metric, floored at zero so it can stand as a width.
pub open spec fn space_units_spec(metric: int) -> u16 {
    if metric < 0 {
        0
    } else if metric > 0xFFFF {
        0xFFFF
    } else {
        metric as u16
    }
}

impl<'a> Font<'a> {
    /// Parse a font file; bytes that are no font are an error, never a
    /// panic.
    pub fn from_bytes(data: &'a [u8]) -> (r: Result<Font<'a>, FontError>)
        ensures
            r matches Ok(f) ==> f@ == data@ && face_parses(data@),
            r is Err <==> !face_parses(data@),
            !face_parses(data@) ==> r == Err::<Font<'a>, FontError>(FontError::Parse),
    {
        match parse_font(data) {
            Some(font) => Ok(font),
            None => Err(FontError::Parse),
        }
    }

    /// Look up the record of one character: its glyph, advance and side
    /// bearing.  A character absent from the font's coverage is an error,
    /// never a panic.
    pub fn glyph_record(&self, ch: char) -> (r: Result<GlyphRecord, FontError>)
        ensures
            r == glyph_record_spec(self@, ch),
    {
        match face_glyph_index(self, ch) {
            None => Err(FontError::GlyphNotFound),
            Some(g) => record_from_parts(
                Some(g),
                face_glyph_advance(self, g),
                face_glyph_bearing(self, g),
            ),
        }
    }

    /// The design-unit metric that outlines are scaled by: the x-height
    /// when present, else the full height.
    pub fn scale_metric(&self) -> (r: i16)
        ensures
            r as int == metric_spec(x_height_lookup(self@), height_lookup(self@)),
    {
        match face_x_height(self) {
            Some(v) => v,
            None => face_height(self),
        }
    }

    /// The parsed face, for walking glyph outlines outside the core.
    pub fn face(&self) -> &ttf_parser::Face<'a> {
        &self.face
    }

    /// The fallback advance for unmapped characters, in design units.
    pub fn space_units(&self) -> (r: u16)
        ensures
            r == space_units_spec(metric_spec(x_height_lookup(self@), height_lookup(self@))),
    {
        let metric = self.scale_metric();
        if metric < 0 {
            0
        } else {
            metric as u16
        }
    }
}

/// One uploaded glyph: its mesh and the metrics it is laid out with, in
/// font design units.
#[derive(Debug, Clone, Copy, PartialEq, Eq, Structural)]
pub struct Glyph {
    /// The mesh the glyph's outline was uploaded as.
    pub mesh: Mesh,
    /// Horizontal advance, in design units.
    pub advance: u16,
    /// Left side bearing, in design units.
    pub side_bearing: i16,
}

/// One placed glyph of a laid-out text: the mesh and its horizontal offset
/// from the line origin, in design units, side bearing included.
#[derive(Debug, Clone, Copy, PartialEq, Eq, Structural)]
pub struct TextPlacement {
    pub offset: i64,
    pub mesh: Mesh,
}

/// The mathematical content of a [`FontInstance`].
#[verifier::ext_equal]
pub struct FontInstanceModel {
    pub glyphs: Seq<(char, Glyph)>,
    pub space_width: u16,
}

/// The glyph recorded for a character: the latest record wins, as a map
/// insert would have it.
pub open spec fn find_glyph(glyphs: Seq<(char, Glyph)>, ch: char) -> Option<Glyph>
    decreases glyphs.len(),
{
    if glyphs.len() == 0 {
        None
    } else if glyphs.last().0 == ch {
        Some(glyphs.last().1)
    } else {
        find_glyph(glyphs.drop_last(), ch)
    }
}

/// The placements of a text from position `i` on, the cursor standing at
/// `cursor` design units: a mapped character is placed at the cursor plus
/// its side bearing and advances the cursor by its advance; an unmapped
/// character is placed nowhere and advances the cursor by the fallback
/// width.
pub open spec fn layout_from(
    glyphs: Seq<(char, Glyph)>,
    space_width: u16,
    chars: Seq<char>,
    i: int,
    cursor: int,
) -> Seq<TextPlacement>
    decreases chars.len() - i,
{
    if i < 0 || i >= chars.len() {
        seq![]
    } else {
        match find_glyph(glyphs, chars[i]) {
            Some(g) => seq![
                TextPlacement { offset: (cursor + g.side_bearing) as i64, mesh: g.mesh },
            ] + layout_from(glyphs, space_width, chars, i + 1, cursor + g.advance),
            None => layout_from(glyphs, space_width, chars, i + 1, cursor + space_width),
        }
    }
}

/// The placements of a whole text laid out left to right from the origin.
pub open spec fn layout(m: FontInstanceModel, chars: Seq<char>) -> Seq<TextPlacement> {
    layout_from(m.glyphs, m.space_width, chars, 0, 0)
}

/// An uploaded font: meshes and metrics per character, plus the fallback
/// advance of unmapped characters.
pub struct FontInstance {
    glyphs: Vec<(char, Glyph)>,
    space_width: u16,
}

impl View for FontInstance {
    type V = FontInstanceModel;

    closed spec fn view(&self) -> FontInstanceModel {
        FontInstanceModel { glyphs: self.glyphs@, space_width: self.space_width }
    }
}

impl FontInstance {
    /// An instance with no glyphs yet and the given fallback advance in
    /// design units.
    pub fn new(space_width: u16) -> (r: FontInstance)
        ensures
            r@ == (FontInstanceModel { glyphs: Seq::<(char, Glyph)>::empty(), space_width }),
    {
        FontInstance { glyphs: Vec::new(), space_width }
    }

    /// Record the uploaded glyph of one character; a later record for the
    /// same character wins, as a map insert would.
    pub fn add_glyph(&mut self, ch: char, glyph: Glyph)
        ensures
            final(self)@ == (FontInstanceModel {
                glyphs: old(self)@.glyphs.push((ch, glyph)),
                space_width: old(self)@.space_width,
            }),
    {
        self.glyphs.push((ch, glyph));
    }

    /// The glyph recorded for a character, if any.
    fn lookup(&self, ch: char) -> (r: Option<Glyph>)
        ensures
            r == find_glyph(self@.glyphs, ch),
    {
        let mut i = self.glyphs.len();
        proof {
            assert(self@.glyphs.subrange(0, self@.glyphs.len() as int) =~= self@.glyphs);
        }
        while i > 0
            invariant
                0 <= i <= self@.glyphs.len(),
                find_glyph(self@.glyphs, ch) == find_glyph(self@.glyphs.subrange(0, i as int), ch),
            decreases i,
        {
            i = i - 1;
            let entry = &self.glyphs[i];
            proof {
                let prefix = self@.glyphs.subrange(0, i as int + 1);
                assert(prefix.last() == self@.glyphs[i as int]);
                assert(prefix.drop_last() =~= self@.glyphs.subrange(0, i as int));
            }
            if entry.0 == ch {
                return Some(entry.1);
            }
        }
        proof {
            assert(self@.glyphs.subrange(0, 0) =~= Seq::<(char, Glyph)>::empty());
        }
        None
    }

    /// The mesh recorded for a letter, if any.
    pub fn letter_mesh(&self, letter: char) -> (r: Option<Mesh>)
        ensures
            r == match find_glyph(self@.glyphs, letter) {
                Some(g) => Some(g.mesh),
                None => None::<Mesh>,
            },
    {
        match self.lookup(letter) {
            Some(g) => Some(g.mesh),
            None => None,
        }
    }

    /// Lay a text out left to right from the origin, in design units: each
    /// mapped character is placed at the cursor plus its side bearing and
    /// advances the cursor by its advance; an unmapped character (or
    /// whitespace) is skipped with the fallback advance.  No line wrapping.
    pub fn text(&self, chars: &Vec<char>) -> (r: Vec<TextPlacement>)
        requires
            chars@.len() <= 0x4000_0000_0000u64 as usize,
        ensures
            r@ == layout(self@, chars@),
    {
        let mut placements: Vec<TextPlacement> = Vec::new();
        let mut cursor: i64 = 0;
        let mut i: usize = 0;
        proof {
            assert(placements@ + layout_from(self@.glyphs, self@.space_width, chars@, 0, 0) =~= layout(
                self@,
                chars@,
            ));
        }
        while i < chars.len()
            invariant
                0 <= i <= chars@.len(),
                chars@.len() <= 0x4000_0000_0000u64 as usize,
                0 <= cursor <= 0xFFFF * (i as int),
                placements@ + layout_from(self@.glyphs, self@.space_width, chars@, i as int, cursor as int)
                    == layout(self@, chars@),
            decreases chars@.len() - i,
        {
            let ch = chars[i];
            match self.lookup(ch) {
                Some(g) => {
                    placements.push(
                        TextPlacement { offset: cursor + g.side_bearing as i64, mesh: g.mesh },
                    );
                    proof {
                        let step = seq![
                            TextPlacement {
                                offset: (cursor + g.side_bearing) as i64,
                                mesh: g.mesh,
                            },
                        ];
                        assert(placements@ + layout_from(
                            self@.glyphs,
                            self@.space_width,
                            chars@,
                            i as int + 1,
                            cursor + g.advance,
                        ) =~= layout(self@, chars@));
                    }
                    cursor = cursor + g.advance as i64;
                }
                None => {
                    proof {
                        assert(placements@ + layout_from(
                            self@.glyphs,
                            self@.space_width,
                            chars@,
                            i as int + 1,
                            cursor + self@.space_width,
                        ) =~= layout(self@, chars@));
                    }
                    cursor = cursor + self.space_width as i64;
                }
            }
            i = i + 1;
        }
        proof {
            assert(placements@ + layout_from(
                self@.glyphs,
                self@.space_width,
                chars@,
                chars@.len() as int,
                cursor as int,
            ) =~= placements@);
        }
        placements
    }
}

/// Collects the outline callbacks of one glyph as raw path segments, to be
/// normalized and tessellated like any other path.
pub struct GlyphBuilder {
    segments: Vec<PathSegment>,
}

impl View for GlyphBuilder {
    type V = Seq<PathSegment>;

    closed spec fn view(&self) -> Seq<PathSegment> {
        self.segments@
    }
}

impl GlyphBuilder {
    /// An empty builder.
    pub fn new() -> (r: GlyphBuilder)
        ensures
            r@.len() == 0,
    {
        GlyphBuilder { segments: Vec::new() }
    }

    /// Record the start of a new contour.
    pub fn move_to(&mut self, to: Point)
        ensures
            final(self)@ == old(self)@.push(PathSegment::MoveTo { to }),
    {
        self.segments.push(PathSegment::MoveTo { to });
    }

    /// Record a straight edge.
    pub fn line_to(&mut self, to: Point)
        ensures
            final(self)@ == old(self)@.push(PathSegment::LineTo { to }),
    {
        self.segments.push(PathSegment::LineTo { to });
    }

    /// Record a quadratic Bezier edge.
    pub fn quad_to(&mut self, ctrl: Point, to: Point)
        ensures
            final(self)@ == old(self)@.push(PathSegment::QuadTo { ctrl, to }),
    {
        self.segments.push(PathSegment::QuadTo { ctrl, to });
    }

    /// Record a cubic Bezier edge.
    pub fn curve_to(&mut self, ctrl1: Point, ctrl2: Point, to: Point)
        ensures
            final(self)@ == old(self)@.push(PathSegment::CurveTo { ctrl1, ctrl2, to }),
    {
        self.segments.push(PathSegment::CurveTo { ctrl1, ctrl2, to });
    }

    /// Record the close of the current contour.
    pub fn close(&mut self)
        ensures
            final(self)@ == old(self)@.push(PathSegment::ClosePath),
    {
        self.segments.push(PathSegment::ClosePath);
    }

    /// Hand the collected segments over, ending the build.
    pub fn path(self) -> (r: Vec<PathSegment>)
        ensures
            r@ == self@,
    {
        let GlyphBuilder { segments } = self;
        segments
    }
}

} // verus!
