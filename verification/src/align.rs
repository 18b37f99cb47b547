//! Alignment flags and anchor resolution for placing a box on the canvas.
//!
//! The anchor starts at the canvas center, the midpoint of the span from
//! the first to the last cell. Each directional flag shifts it by half
//! the canvas size toward that edge; `CENTER` halves whatever offset the
//! directional flags accumulated. All positions are exact multiples of a
//! quarter cell, so the resolution is computed in integer quarter-cell
//! units, clamped at the canvas edge and rounded down at the end.

use vstd::prelude::*;

use crate::geom::Vec2u;

verus! {

/// The bit for the `CENTER` alignment flag.
pub const CENTER_BIT: u8 = 0x01;

/// The bit for the `TOP` alignment flag.
pub const TOP_BIT: u8 = 0x02;

/// The bit for the `BOTTOM` alignment flag.
pub const BOTTOM_BIT: u8 = 0x04;

/// The bit for the `LEFT` alignment flag.
pub const LEFT_BIT: u8 = 0x08;

/// The bit for the `RIGHT` alignment flag.
pub const RIGHT_BIT: u8 = 0x10;

/// A set of alignment flags, any combination of which is meaningful.
#[derive(Clone, Copy, Debug, PartialEq, Eq, Structural)]
pub struct CanvasAlignment {
    pub bits: u8,
}

/// One axis of anchor resolution, in quarter-cell units.
///
/// `s` is the canvas extent on this axis: the center sits at half the
/// span `s - 1`, and a directional pull is half the size `s`.
/// `neg`/`pos` say which directional flags pull on this axis, `center`
/// whether `CENTER` is set, and `any` whether any directional flag is
/// set on either axis (only then does `CENTER` halve the accumulated
/// offset). The result is the anchor coordinate, clamped at the canvas
/// edge.
pub open spec fn spec_align_axis(s: u16, neg: bool, pos: bool, center: bool, any: bool) -> u16 {
    let center_q = 2 * (s - 1);
    let offset_q: int = if center && any {
        s as int
    } else {
        2 * s
    };
    let res_q: int = if neg == pos {
        center_q
    } else if neg {
        center_q - offset_q
    } else {
        center_q + offset_q
    };
    if res_q < 0 {
        0
    } else {
        (res_q / 4) as u16
    }
}

impl CanvasAlignment {
    pub open spec fn spec_center(self) -> bool {
        self.bits & CENTER_BIT != 0
    }

    pub open spec fn spec_top(self) -> bool {
        self.bits & TOP_BIT != 0
    }

    pub open spec fn spec_bottom(self) -> bool {
        self.bits & BOTTOM_BIT != 0
    }

    pub open spec fn spec_left(self) -> bool {
        self.bits & LEFT_BIT != 0
    }

    pub open spec fn spec_right(self) -> bool {
        self.bits & RIGHT_BIT != 0
    }

    /// Whether any directional flag is set.
    pub open spec fn spec_directional(self) -> bool {
        self.spec_top() || self.spec_bottom() || self.spec_left() || self.spec_right()
    }

    /// The anchor that this alignment resolves to on a canvas of the
    /// given size.
    pub open spec fn spec_apply(self, canvas_size: Vec2u) -> Vec2u {
        Vec2u {
            x: spec_align_axis(
                canvas_size.x,
                self.spec_left(),
                self.spec_right(),
                self.spec_center(),
                self.spec_directional(),
            ),
            y: spec_align_axis(
                canvas_size.y,
                self.spec_top(),
                self.spec_bottom(),
                self.spec_center(),
                self.spec_directional(),
            ),
        }
    }

    /// No flags: the anchor is the canvas center.
    pub fn none() -> (a: CanvasAlignment)
        ensures
            a.bits == 0,
    {
        CanvasAlignment { bits: 0 }
    }

    pub fn center() -> (a: CanvasAlignment)
        ensures
            a.bits == CENTER_BIT,
    {
        CanvasAlignment { bits: CENTER_BIT }
    }

    pub fn top() -> (a: CanvasAlignment)
        ensures
            a.bits == TOP_BIT,
    {
        CanvasAlignment { bits: TOP_BIT }
    }

    pub fn bottom() -> (a: CanvasAlignment)
        ensures
            a.bits == BOTTOM_BIT,
    {
        CanvasAlignment { bits: BOTTOM_BIT }
    }

    pub fn left() -> (a: CanvasAlignment)
        ensures
            a.bits == LEFT_BIT,
    {
        CanvasAlignment { bits: LEFT_BIT }
    }

    pub fn right() -> (a: CanvasAlignment)
        ensures
            a.bits == RIGHT_BIT,
    {
        CanvasAlignment { bits: RIGHT_BIT }
    }

    /// The union of two flag sets.
    pub fn or(self, other: CanvasAlignment) -> (a: CanvasAlignment)
        ensures
            a.bits == self.bits | other.bits,
    {
        CanvasAlignment { bits: self.bits | other.bits }
    }

    /// Whether every flag of `other` is set in `self`.
    pub fn contains(self, other: CanvasAlignment) -> (r: bool)
        ensures
            r == (self.bits & other.bits == other.bits),
    {
        self.bits & other.bits == other.bits
    }

    /// Resolves the anchor position on a canvas of `canvas_size` cells.
    pub fn apply(&self, canvas_size: Vec2u) -> (anchor: Vec2u)
        ensures
            anchor == self.spec_apply(canvas_size),
    {
        let center = self.bits & CENTER_BIT != 0;
        let top = self.bits & TOP_BIT != 0;
        let bottom = self.bits & BOTTOM_BIT != 0;
        let left = self.bits & LEFT_BIT != 0;
        let right = self.bits & RIGHT_BIT != 0;
        let any = top || bottom || left || right;
        Vec2u {
            x: align_axis(canvas_size.x, left, right, center, any),
            y: align_axis(canvas_size.y, top, bottom, center, any),
        }
    }
}

/// One axis of anchor resolution; see [`spec_align_axis`].
fn align_axis(s: u16, neg: bool, pos: bool, center: bool, any: bool) -> (r: u16)
    ensures
        r == spec_align_axis(s, neg, pos, center, any),
{
    let center_q: i32 = 2 * (s as i32 - 1);
    let offset_q: i32 = if center && any {
        s as i32
    } else {
        2 * (s as i32)
    };
    let res_q: i32 = if neg == pos {
        center_q
    } else if neg {
        center_q - offset_q
    } else {
        center_q + offset_q
    };
    if res_q < 0 {
        0
    } else {
        (((res_q as u32) / 4) as u16)
    }
}

/// Opposite directional flags cancel: with all four set, the anchor is
/// the canvas center, the same as `CENTER` alone or no flags at all.
pub proof fn lemma_opposite_flags_cancel(a: CanvasAlignment, canvas_size: Vec2u)
    requires
        a.spec_top() == a.spec_bottom(),
        a.spec_left() == a.spec_right(),
    ensures
        a.spec_apply(canvas_size) == (CanvasAlignment { bits: 0 }).spec_apply(canvas_size),
        a.spec_apply(canvas_size) == (CanvasAlignment { bits: CENTER_BIT }).spec_apply(canvas_size),
{
    assert((0u8 & CENTER_BIT == 0) && (0u8 & TOP_BIT == 0) && (0u8 & BOTTOM_BIT == 0) && (0u8
        & LEFT_BIT == 0) && (0u8 & RIGHT_BIT == 0)) by (bit_vector);
    assert((CENTER_BIT & CENTER_BIT != 0) && (CENTER_BIT & TOP_BIT == 0) && (CENTER_BIT
        & BOTTOM_BIT == 0) && (CENTER_BIT & LEFT_BIT == 0) && (CENTER_BIT & RIGHT_BIT == 0))
        by (bit_vector);
}

} // verus!
