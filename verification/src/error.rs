use vstd::prelude::*;

verus! {

/// Errors reported by the rendering core.
#[derive(Debug, Clone, Copy, PartialEq, Eq, Structural)]
pub enum RenderError {
    /// A malformed segment sequence, e.g. drawing before any `MoveTo`.
    Parse,
    /// Fill tessellation produced no usable geometry for an upload.
    Tessellation,
    /// An instance list exceeded the configured capacity.
    Capacity,
    /// The offscreen render target is unusable; rendering must not proceed.
    Resize,
}

/// Errors reported while turning a font into glyph meshes.
#[derive(Debug, Clone, Copy, PartialEq, Eq, Structural)]
pub enum FontError {
    /// The font bytes could not be parsed.
    Parse,
    /// The font's coverage has no glyph for the requested character.
    GlyphNotFound,
    /// The font records no horizontal advance for the glyph.
    MissingAdvance,
    /// The glyph has no outline to build a mesh from.
    NoOutline,
}

} // verus!
