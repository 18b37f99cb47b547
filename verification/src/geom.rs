//! Plain 2D vectors for cell and pixel coordinates.
//!
//! Cell coordinates address terminal rows and columns; pixel coordinates
//! address the doubled-resolution half-block grid. Both are unsigned.
//! Signed vectors carry drawing positions that may lie off-canvas.

use vstd::prelude::*;

verus! {

/// An unsigned 2D vector: a terminal size, a cell position, or a pixel
/// position in the doubled-resolution grid.
#[derive(Clone, Copy, Debug, PartialEq, Eq, Structural)]
pub struct Vec2u {
    pub x: u16,
    pub y: u16,
}

impl Vec2u {
    pub fn new(x: u16, y: u16) -> (r: Vec2u)
        ensures
            r.x == x,
            r.y == y,
    {
        Vec2u { x, y }
    }

    /// The number of cells in a grid of this size.
    pub open spec fn area(self) -> nat {
        (self.x * self.y) as nat
    }
}

/// A signed 2D vector: a drawing position that may lie off-canvas.
#[derive(Clone, Copy, Debug, PartialEq, Eq, Structural)]
pub struct Vec2i {
    pub x: i32,
    pub y: i32,
}

impl Vec2i {
    pub fn new(x: i32, y: i32) -> (r: Vec2i)
        ensures
            r.x == x,
            r.y == y,
    {
        Vec2i { x, y }
    }
}

} // verus!
