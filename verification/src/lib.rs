//! A vector-graphics rendering core.
//!
//! Raw path segments — hand-built, from vector documents, or from font
//! glyph outlines — are normalized into a canonical event stream, carried
//! through tessellation into bounded 16-bit-indexed buffers, and uploaded
//! as draw calls with per-mesh instance lists.  A two-pass frame pipeline
//! (offscreen geometry, then an antialiasing post-process) composes each
//! frame as an explicit GPU command plan, with resize-safe render targets.
//! Everything numeric that a GPU or a tessellator computes with stays
//! outside; the core states and proves the bookkeeping around it.

pub mod error;
pub mod geom;
pub mod geometry;
pub mod gpu;
pub mod path;
pub mod pipeline;
pub mod render;
pub mod table;
pub mod text;
pub mod unit;
