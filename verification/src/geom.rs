//! Plain-value geometry carried through the rendering core.
//!
//! Coordinates, colors and transform components are 32-bit scalars stored as
//! raw bit patterns.  The core routes them between paths, vertex buffers and
//! instance lists without ever computing with them; producing and consuming
//! the numeric values is the business of the platform layer around the
//! library.

use vstd::prelude::*;

verus! {

/// Bit pattern of the identity scale factor.
pub const SCALE_ONE_BITS: u32 = 0x3F80_0000;

/// Bit pattern of the zero rotation angle.
pub const ROTATION_ZERO_BITS: u32 = 0;

/// A point in the drawing plane, both coordinates as scalar bit patterns.
#[derive(Debug, Clone, Copy, PartialEq, Eq, Structural)]
pub struct Point {
    pub x: u32,
    pub y: u32,
}

impl Point {
    /// The origin, which is also the bit pattern of numeric zero.
    pub fn origin() -> (p: Point)
        ensures
            p == (Point { x: 0, y: 0 }),
    {
        Point { x: 0, y: 0 }
    }
}

/// A solid color with opacity, four channels as scalar bit patterns.
#[derive(Debug, Clone, Copy, PartialEq, Eq, Structural)]
pub struct Color {
    pub r: u32,
    pub g: u32,
    pub b: u32,
    pub a: u32,
}

/// One tessellated vertex: a position and a color with opacity.
/// Immutable once produced by tessellation.
#[derive(Debug, Clone, Copy, PartialEq, Eq, Structural)]
pub struct Vertex {
    pub pos: Point,
    pub color: Color,
}

/// One placement of a mesh: position, rotation and scale, all as scalar bit
/// patterns.  Instance lists are replaced wholesale by the caller each frame.
#[derive(Debug, Clone, Copy, PartialEq, Eq, Structural)]
pub struct Instance {
    pub position: Point,
    pub rotation: u32,
    pub scale: u32,
}

impl Instance {
    /// Create a new instance at a position, with zero rotation and unit scale.
    pub fn new(x: u32, y: u32) -> (r: Instance)
        ensures
            r == (Instance {
                position: Point { x, y },
                rotation: ROTATION_ZERO_BITS,
                scale: SCALE_ONE_BITS,
            }),
    {
        Instance { position: Point { x, y }, rotation: ROTATION_ZERO_BITS, scale: SCALE_ONE_BITS }
    }

    /// Set the X position.
    pub fn set_x(&mut self, new: u32)
        ensures
            *final(self) == (Instance {
                position: Point { x: new, ..old(self).position },
                ..*old(self)
            }),
    {
        self.position.x = new;
    }

    /// Get the X position.
    pub fn x(&self) -> (r: u32)
        ensures
            r == self.position.x,
    {
        self.position.x
    }

    /// Set the Y position.
    pub fn set_y(&mut self, new: u32)
        ensures
            *final(self) == (Instance {
                position: Point { y: new, ..old(self).position },
                ..*old(self)
            }),
    {
        self.position.y = new;
    }

    /// Get the Y position.
    pub fn y(&self) -> (r: u32)
        ensures
            r == self.position.y,
    {
        self.position.y
    }

    /// Set the scale.
    pub fn set_scale(&mut self, scale: u32)
        ensures
            *final(self) == (Instance { scale, ..*old(self) }),
    {
        self.scale = scale;
    }

    /// Get the scale.
    pub fn scale(&self) -> (r: u32)
        ensures
            r == self.scale,
    {
        self.scale
    }

    /// Set the rotation.
    pub fn set_rotation(&mut self, rotation: u32)
        ensures
            *final(self) == (Instance { rotation, ..*old(self) }),
    {
        self.rotation = rotation;
    }

    /// Get the rotation.
    pub fn rotation(&self) -> (r: u32)
        ensures
            r == self.rotation,
    {
        self.rotation
    }
}

} // verus!
