//! One terminal cell, and the half-block scheme that packs two vertically
//! stacked pixels into it.
//!
//! A cell's glyph decides which of its two color slots is visible where:
//! a space shows neither sub-pixel, `▀` shows the foreground on top (with
//! the background slot free to hold the bottom pixel), `▄` the reverse,
//! and `█` shows the foreground over both halves. The transition functions
//! below rewrite glyph and slots so that writing one sub-pixel keeps the
//! other sub-pixel's color where the encoding can represent it.

use vstd::prelude::*;

use crate::color::CellStyle;
use crate::color::Color;

verus! {

/// The glyph whose top half is filled by the foreground color slot.
pub const UPPER_HALF: char = '\u{2580}';

/// The glyph whose bottom half is filled by the foreground color slot.
pub const LOWER_HALF: char = '\u{2584}';

/// The glyph filled entirely by the foreground color slot.
pub const FULL_BLOCK: char = '\u{2588}';

/// One terminal character position: a glyph and its style.
#[derive(Clone, Copy, Debug, PartialEq, Eq, Structural)]
pub struct Cell {
    pub c: char,
    pub style: CellStyle,
}

impl Default for Cell {
    fn default() -> (cell: Cell)
        ensures
            cell == Cell::blank(),
    {
        Cell { c: ' ', style: CellStyle::new_empty() }
    }
}

/// The color of the top sub-pixel that `cell` displays, if any.
pub open spec fn top_of(cell: Cell) -> Option<Color> {
    if cell.c == ' ' {
        None
    } else if cell.c == UPPER_HALF || cell.c == FULL_BLOCK {
        cell.style.foreground_color
    } else if cell.c == LOWER_HALF {
        cell.style.background_color
    } else {
        None
    }
}

/// The color of the bottom sub-pixel that `cell` displays, if any.
pub open spec fn bottom_of(cell: Cell) -> Option<Color> {
    if cell.c == ' ' {
        None
    } else if cell.c == LOWER_HALF || cell.c == FULL_BLOCK {
        cell.style.foreground_color
    } else if cell.c == UPPER_HALF {
        cell.style.background_color
    } else {
        None
    }
}

/// The transition table for writing the top sub-pixel.
pub open spec fn spec_set_top(cell: Cell, color: Option<Color>) -> Cell {
    if color is None {
        spec_unset_top(cell)
    } else if cell.c == ' ' {
        Cell {
            c: UPPER_HALF,
            style: CellStyle { foreground_color: color, ..cell.style },
        }
    } else if cell.c == UPPER_HALF {
        Cell { c: cell.c, style: CellStyle { foreground_color: color, ..cell.style } }
    } else if cell.c == LOWER_HALF {
        Cell { c: cell.c, style: CellStyle { background_color: color, ..cell.style } }
    } else if cell.c == FULL_BLOCK {
        Cell {
            c: LOWER_HALF,
            style: CellStyle { background_color: color, ..cell.style },
        }
    } else {
        Cell {
            c: UPPER_HALF,
            style: CellStyle { foreground_color: color, background_color: None, ..cell.style },
        }
    }
}

/// The transition table for clearing the top sub-pixel. A latent
/// background color on a space or upper-half glyph is kept visible by
/// moving it into a lower-half glyph's foreground slot.
pub open spec fn spec_unset_top(cell: Cell) -> Cell {
    if cell.c == ' ' {
        if cell.style.background_color is Some {
            Cell {
                c: LOWER_HALF,
                style: CellStyle {
                    foreground_color: cell.style.background_color,
                    background_color: None,
                    ..cell.style
                },
            }
        } else {
            cell
        }
    } else if cell.c == UPPER_HALF {
        if cell.style.background_color is Some {
            Cell {
                c: LOWER_HALF,
                style: CellStyle {
                    foreground_color: cell.style.background_color,
                    background_color: None,
                    ..cell.style
                },
            }
        } else {
            Cell { c: ' ', style: CellStyle { foreground_color: None, ..cell.style } }
        }
    } else if cell.c == LOWER_HALF {
        Cell { c: cell.c, style: CellStyle { background_color: None, ..cell.style } }
    } else if cell.c == FULL_BLOCK {
        Cell { c: LOWER_HALF, style: CellStyle { background_color: None, ..cell.style } }
    } else {
        Cell {
            c: ' ',
            style: CellStyle { foreground_color: None, background_color: None, ..cell.style },
        }
    }
}

/// The transition table for writing the bottom sub-pixel.
pub open spec fn spec_set_bottom(cell: Cell, color: Option<Color>) -> Cell {
    if color is None {
        spec_unset_bottom(cell)
    } else if cell.c == ' ' {
        Cell {
            c: LOWER_HALF,
            style: CellStyle { foreground_color: color, ..cell.style },
        }
    } else if cell.c == UPPER_HALF {
        Cell { c: cell.c, style: CellStyle { background_color: color, ..cell.style } }
    } else if cell.c == LOWER_HALF {
        Cell { c: cell.c, style: CellStyle { foreground_color: color, ..cell.style } }
    } else if cell.c == FULL_BLOCK {
        Cell {
            c: UPPER_HALF,
            style: CellStyle { background_color: color, ..cell.style },
        }
    } else {
        Cell {
            c: LOWER_HALF,
            style: CellStyle { foreground_color: color, background_color: None, ..cell.style },
        }
    }
}

/// The transition table for clearing the bottom sub-pixel.
pub open spec fn spec_unset_bottom(cell: Cell) -> Cell {
    if cell.c == ' ' {
        if cell.style.background_color is Some {
            Cell {
                c: UPPER_HALF,
                style: CellStyle {
                    foreground_color: cell.style.background_color,
                    background_color: None,
                    ..cell.style
                },
            }
        } else {
            cell
        }
    } else if cell.c == UPPER_HALF {
        Cell { c: cell.c, style: CellStyle { background_color: None, ..cell.style } }
    } else if cell.c == LOWER_HALF {
        if cell.style.background_color is Some {
            Cell {
                c: UPPER_HALF,
                style: CellStyle {
                    foreground_color: cell.style.background_color,
                    background_color: None,
                    ..cell.style
                },
            }
        } else {
            Cell { c: ' ', style: CellStyle { foreground_color: None, ..cell.style } }
        }
    } else if cell.c == FULL_BLOCK {
        Cell { c: UPPER_HALF, style: CellStyle { background_color: None, ..cell.style } }
    } else {
        Cell {
            c: ' ',
            style: CellStyle { foreground_color: None, background_color: None, ..cell.style },
        }
    }
}

impl Cell {
    /// The cell a fresh buffer is filled with: a bare space, no style.
    pub open spec fn blank() -> Cell {
        Cell { c: ' ', style: CellStyle::empty() }
    }

    pub fn new_blank() -> (cell: Cell)
        ensures
            cell == Cell::blank(),
    {
        Cell { c: ' ', style: CellStyle::new_empty() }
    }

    /// A space over the given background color.
    pub open spec fn with_background_color_spec(color: Option<Color>) -> Cell {
        Cell { c: ' ', style: CellStyle { background_color: color, ..CellStyle::empty() } }
    }

    /// A space over the given background color: the fill for a canvas
    /// whose persistent background has been configured.
    pub fn with_background_color(color: Option<Color>) -> (cell: Cell)
        ensures
            cell == Cell::with_background_color_spec(color),
    {
        Cell {
            c: ' ',
            style: CellStyle {
                foreground_color: None,
                background_color: color,
                underline_color: None,
                attributes: crate::color::Attributes::none(),
            },
        }
    }

    /// The color of the displayed top sub-pixel, if any.
    pub fn at_top(&self) -> (r: Option<Color>)
        ensures
            r == top_of(*self),
    {
        if self.c == ' ' {
            None
        } else if self.c == UPPER_HALF || self.c == FULL_BLOCK {
            self.style.foreground_color
        } else if self.c == LOWER_HALF {
            self.style.background_color
        } else {
            None
        }
    }

    /// The color of the displayed bottom sub-pixel, if any.
    pub fn at_bottom(&self) -> (r: Option<Color>)
        ensures
            r == bottom_of(*self),
    {
        if self.c == ' ' {
            None
        } else if self.c == LOWER_HALF || self.c == FULL_BLOCK {
            self.style.foreground_color
        } else if self.c == UPPER_HALF {
            self.style.background_color
        } else {
            None
        }
    }

    /// Writes the top sub-pixel; `None` clears it.
    pub fn set_top(&mut self, color: Option<Color>)
        ensures
            *final(self) == spec_set_top(*old(self), color),
            top_of(*final(self)) == color,
    {
        if color.is_none() {
            self.unset_top();
            return;
        }
        if self.c == ' ' {
            self.c = UPPER_HALF;
            self.style.foreground_color = color;
        } else if self.c == UPPER_HALF {
            self.style.foreground_color = color;
        } else if self.c == LOWER_HALF {
            self.style.background_color = color;
        } else if self.c == FULL_BLOCK {
            self.c = LOWER_HALF;
            self.style.background_color = color;
        } else {
            self.c = UPPER_HALF;
            self.style.foreground_color = color;
            self.style.background_color = None;
        }
    }

    /// Writes the bottom sub-pixel; `None` clears it.
    pub fn set_bottom(&mut self, color: Option<Color>)
        ensures
            *final(self) == spec_set_bottom(*old(self), color),
            bottom_of(*final(self)) == color,
    {
        if color.is_none() {
            self.unset_bottom();
            return;
        }
        if self.c == ' ' {
            self.c = LOWER_HALF;
            self.style.foreground_color = color;
        } else if self.c == UPPER_HALF {
            self.style.background_color = color;
        } else if self.c == LOWER_HALF {
            self.style.foreground_color = color;
        } else if self.c == FULL_BLOCK {
            self.c = UPPER_HALF;
            self.style.background_color = color;
        } else {
            self.c = LOWER_HALF;
            self.style.foreground_color = color;
            self.style.background_color = None;
        }
    }

    /// Clears the top sub-pixel, keeping the bottom one visible.
    pub fn unset_top(&mut self)
        ensures
            *final(self) == spec_unset_top(*old(self)),
            top_of(*final(self)) is None,
    {
        if self.c == ' ' {
            if let Some(color) = self.style.background_color {
                self.c = LOWER_HALF;
                self.style.foreground_color = Some(color);
                self.style.background_color = None;
            }
        } else if self.c == UPPER_HALF {
            if let Some(color) = self.style.background_color {
                self.c = LOWER_HALF;
                self.style.foreground_color = Some(color);
                self.style.background_color = None;
            } else {
                self.c = ' ';
                self.style.foreground_color = None;
            }
        } else if self.c == LOWER_HALF {
            self.style.background_color = None;
        } else if self.c == FULL_BLOCK {
            self.c = LOWER_HALF;
            self.style.background_color = None;
        } else {
            self.c = ' ';
            self.style.foreground_color = None;
            self.style.background_color = None;
        }
    }

    /// Clears the bottom sub-pixel, keeping the top one visible.
    pub fn unset_bottom(&mut self)
        ensures
            *final(self) == spec_unset_bottom(*old(self)),
            bottom_of(*final(self)) is None,
    {
        if self.c == ' ' {
            if let Some(color) = self.style.background_color {
                self.c = UPPER_HALF;
                self.style.foreground_color = Some(color);
                self.style.background_color = None;
            }
        } else if self.c == UPPER_HALF {
            self.style.background_color = None;
        } else if self.c == LOWER_HALF {
            if let Some(color) = self.style.background_color {
                self.c = UPPER_HALF;
                self.style.foreground_color = Some(color);
                self.style.background_color = None;
            } else {
                self.c = ' ';
                self.style.foreground_color = None;
            }
        } else if self.c == FULL_BLOCK {
            self.c = UPPER_HALF;
            self.style.background_color = None;
        } else {
            self.c = ' ';
            self.style.foreground_color = None;
            self.style.background_color = None;
        }
    }
}

/// A cell on which the two sub-pixels are truly independent: every glyph
/// qualifies except a bare space that still carries a latent background
/// color, whose first sub-pixel write makes that color show on the other
/// half as well.
pub open spec fn sub_pixels_independent(cell: Cell) -> bool {
    !(cell.c == ' ' && cell.style.background_color is Some)
}

/// Writing the top sub-pixel never alters the bottom sub-pixel's color,
/// on any cell whose sub-pixels are independent.
pub proof fn lemma_set_top_preserves_bottom(cell: Cell, color: Option<Color>)
    requires
        sub_pixels_independent(cell),
    ensures
        bottom_of(spec_set_top(cell, color)) == bottom_of(cell),
{
}

/// Writing the bottom sub-pixel never alters the top sub-pixel's color,
/// on any cell whose sub-pixels are independent.
pub proof fn lemma_set_bottom_preserves_top(cell: Cell, color: Option<Color>)
    requires
        sub_pixels_independent(cell),
    ensures
        top_of(spec_set_bottom(cell, color)) == top_of(cell),
{
}

/// A sub-pixel write stores exactly the requested color: reading the same
/// half back yields it, whether it was a color or a clear.
pub proof fn lemma_set_then_read(cell: Cell, color: Option<Color>)
    ensures
        top_of(spec_set_top(cell, color)) == color,
        bottom_of(spec_set_bottom(cell, color)) == color,
{
}

} // verus!
