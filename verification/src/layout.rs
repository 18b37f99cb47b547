//! The text-box layout engine: places a styled piece of text on the
//! canvas and paints it.
//!
//! The box is the content (its display width by one row) grown by the
//! configured borders and padding. Its anchor comes from the alignment
//! flags; the far edge is clamped to the canvas first and the near edge
//! derived from it, so an overflowing box is pushed inward, never
//! clipped. Painting fills the whole box with the background color,
//! draws the configured border edges, and finally writes the content
//! glyphs, which alone carry the full style.

use vstd::prelude::*;

use crate::align::CanvasAlignment;
use crate::canvas::SimpleCanvas;
use crate::canvas::spec_draw_grid;
use crate::cell::Cell;
use crate::color::CellStyle;
use crate::color::Color;
use crate::geom::Vec2u;
use crate::style::BorderStyle;
use crate::style::PrintStyle;
use crate::style::StyledPrint;
use crate::text::display_width;
use crate::text::str_chars;
use crate::text::text_display_width;

verus! {

/// The resolved geometry of one text box: cell coordinates for the
/// content line, pixel coordinates for the painted box.
#[derive(Clone, Copy, Debug, PartialEq, Eq, Structural)]
pub struct BoxLayout {
    /// The cell column the content starts at.
    pub line_start_x: u16,
    /// The cell row the content occupies.
    pub line_start_y: u16,
    /// The first pixel column of the painted box.
    pub box_start_x: u16,
    /// The first pixel row of the painted box.
    pub box_start_y: u16,
    /// One past the last pixel column of the painted box.
    pub box_end_x: u16,
    /// One past the last pixel row of the painted box.
    pub box_end_y: u16,
}

/// The smaller of two values.
pub open spec fn spec_min(a: int, b: int) -> int {
    if a < b {
        a
    } else {
        b
    }
}

/// `a - b`, not below zero.
pub open spec fn spec_sat_sub(a: int, b: int) -> int {
    if a >= b {
        a - b
    } else {
        0
    }
}

/// The alignment a style resolves to: the configured one, or `CENTER`.
pub open spec fn spec_style_alignment(style: PrintStyle) -> CanvasAlignment {
    match style.alignment {
        Some(a) => a,
        None => CanvasAlignment { bits: crate::align::CENTER_BIT },
    }
}

/// The content height in rows: one, or zero for content of zero width.
pub open spec fn spec_content_height(cw: int) -> int {
    if cw == 0 {
        0
    } else {
        1
    }
}

/// The box geometry for content of display width `cw` under `style` on
/// a canvas of `size` cells.
pub open spec fn spec_layout(cw: int, style: PrintStyle, size: Vec2u) -> BoxLayout {
    let ch = spec_content_height(cw);
    let tw = cw + style.spec_extra_width();
    let th = ch + style.spec_extra_height();
    let anchor = spec_style_alignment(style).spec_apply(size);
    let end_x = spec_min(anchor.x + (tw + 1) / 2, size.x as int);
    let start_x = spec_sat_sub(end_x, tw);
    let end_y = spec_min(anchor.y + (th + 1) / 2, size.y as int);
    let start_y = spec_sat_sub(end_y, th);
    let line_start_x = start_x + style.spec_left_width();
    let line_start_y = start_y + (style.spec_top_width() + 1) / 2;
    let canvas_start_x = line_start_x;
    let canvas_start_y = 2 * line_start_y;
    let canvas_end_x = canvas_start_x + cw;
    let canvas_end_y = canvas_start_y + 2 * ch;
    let box_start_x = spec_sat_sub(canvas_start_x, style.spec_left_width());
    let box_start_y = spec_sat_sub(canvas_start_y, style.spec_top_width());
    let box_end_x = canvas_end_x + style.spec_right_width();
    let box_end_y = canvas_end_y + style.spec_bottom_width();
    BoxLayout {
        line_start_x: line_start_x as u16,
        line_start_y: line_start_y as u16,
        box_start_x: box_start_x as u16,
        box_start_y: box_start_y as u16,
        box_end_x: box_end_x as u16,
        box_end_y: box_end_y as u16,
    }
}

/// Whether every coordinate of the layout stays within the 16-bit range
/// the canvas can address, so that painting the box cannot overflow:
/// the box no wider than the canvas plus the grown content, no taller in
/// pixels than the doubled canvas plus the grown content, and no more
/// content characters than fit beside the left edge.
pub open spec fn spec_print_fits(style: PrintStyle, cw: int, chars_len: int, size: Vec2u) -> bool {
    &&& cw + style.spec_extra_width() <= u16::MAX
    &&& size.x + cw + style.spec_extra_width() <= u16::MAX
    &&& 2 * size.y + 3 * (1 + style.spec_extra_height()) + 2 <= u16::MAX
    &&& size.x + style.spec_extra_width() + chars_len <= u16::MAX
}

/// Computes the box geometry; see [`spec_layout`].
pub fn compute_layout(cw: u16, style: &PrintStyle, size: Vec2u) -> (layout: BoxLayout)
    requires
        cw + style.spec_extra_width() <= u16::MAX,
        size.x + cw + style.spec_extra_width() <= u16::MAX,
        2 * size.y + 3 * (1 + style.spec_extra_height()) + 2 <= u16::MAX,
    ensures
        layout == spec_layout(cw as int, *style, size),
        layout.line_start_x <= size.x + style.spec_left_width(),
{
    let ch: u32 = if cw == 0 {
        0
    } else {
        1
    };
    let cw32 = cw as u32;
    let extra_w: u32 = (style.padding.left_padding as u32 + style.border_style.left_width() as u32)
        + (style.padding.right_padding as u32 + style.border_style.right_width() as u32);
    let extra_h: u32 = (style.padding.top_padding as u32 + style.border_style.top_width() as u32)
        + (style.padding.bottom_padding as u32 + style.border_style.bottom_width() as u32);
    let tw: u32 = cw32 + extra_w;
    let th: u32 = ch + extra_h;
    let alignment = match style.alignment {
        Some(a) => a,
        None => CanvasAlignment::center(),
    };
    let anchor = alignment.apply(size);
    let end_x: u32 = {
        let e = anchor.x as u32 + (tw + 1) / 2;
        if e < size.x as u32 {
            e
        } else {
            size.x as u32
        }
    };
    let start_x: u32 = if end_x >= tw {
        end_x - tw
    } else {
        0
    };
    let end_y: u32 = {
        let e = anchor.y as u32 + (th + 1) / 2;
        if e < size.y as u32 {
            e
        } else {
            size.y as u32
        }
    };
    let start_y: u32 = if end_y >= th {
        end_y - th
    } else {
        0
    };
    let left_w: u32 = style.padding.left_padding as u32 + style.border_style.left_width() as u32;
    let top_w: u32 = style.padding.top_padding as u32 + style.border_style.top_width() as u32;
    let right_w: u32 = style.padding.right_padding as u32 + style.border_style.right_width() as u32;
    let bottom_w: u32 = style.padding.bottom_padding as u32 + style.border_style.bottom_width() as u32;
    let line_start_x: u32 = start_x + left_w;
    let line_start_y: u32 = start_y + (top_w + 1) / 2;
    let canvas_start_x: u32 = line_start_x;
    let canvas_start_y: u32 = 2 * line_start_y;
    let canvas_end_x: u32 = canvas_start_x + cw32;
    let canvas_end_y: u32 = canvas_start_y + 2 * ch;
    let box_start_x: u32 = if canvas_start_x >= left_w {
        canvas_start_x - left_w
    } else {
        0
    };
    let box_start_y: u32 = if canvas_start_y >= top_w {
        canvas_start_y - top_w
    } else {
        0
    };
    let box_end_x: u32 = canvas_end_x + right_w;
    let box_end_y: u32 = canvas_end_y + bottom_w;
    BoxLayout {
        line_start_x: line_start_x as u16,
        line_start_y: line_start_y as u16,
        box_start_x: box_start_x as u16,
        box_start_y: box_start_y as u16,
        box_end_x: box_end_x as u16,
        box_end_y: box_end_y as u16,
    }
}

/// The grid after filling the first `n` pixels of row `y` with `color`,
/// starting at column `x0`.
pub open spec fn spec_fill_row(
    grid: Seq<Cell>,
    size: Vec2u,
    color: Color,
    x0: int,
    y: int,
    n: nat,
) -> Seq<Cell>
    decreases n,
{
    if n == 0 {
        grid
    } else {
        spec_draw_grid(
            spec_fill_row(grid, size, color, x0, y, (n - 1) as nat),
            size,
            Vec2u { x: (x0 + n - 1) as u16, y: y as u16 },
            Some(color),
        )
    }
}

/// The grid after filling the first `ny` rows of the box with `color`.
pub open spec fn spec_fill_rect(
    grid: Seq<Cell>,
    size: Vec2u,
    color: Color,
    x0: int,
    nx: nat,
    y0: int,
    ny: nat,
) -> Seq<Cell>
    decreases ny,
{
    if ny == 0 {
        grid
    } else {
        spec_fill_row(
            spec_fill_rect(grid, size, color, x0, nx, y0, (ny - 1) as nat),
            size,
            color,
            x0,
            y0 + ny - 1,
            nx,
        )
    }
}

/// The grid after the border pass has handled the pixel at `(x, y)`:
/// each configured edge the pixel lies on paints it, left, right, top,
/// then bottom.
pub open spec fn spec_border_pixel(
    grid: Seq<Cell>,
    size: Vec2u,
    borders: BorderStyle,
    x0: int,
    x1: int,
    y0: int,
    y1: int,
    x: int,
    y: int,
) -> Seq<Cell> {
    let pos = Vec2u { x: x as u16, y: y as u16 };
    let g1 = match borders.left_border {
        Some(color) => if x == x0 {
            spec_draw_grid(grid, size, pos, Some(color))
        } else {
            grid
        },
        None => grid,
    };
    let g2 = match borders.right_border {
        Some(color) => if x == x1 - 1 {
            spec_draw_grid(g1, size, pos, Some(color))
        } else {
            g1
        },
        None => g1,
    };
    let g3 = match borders.top_border {
        Some(color) => if y == y0 {
            spec_draw_grid(g2, size, pos, Some(color))
        } else {
            g2
        },
        None => g2,
    };
    match borders.bottom_border {
        Some(color) => if y == y1 - 1 {
            spec_draw_grid(g3, size, pos, Some(color))
        } else {
            g3
        },
        None => g3,
    }
}

/// The grid after the border pass over the first `n` pixels of row `y`.
pub open spec fn spec_border_row(
    grid: Seq<Cell>,
    size: Vec2u,
    borders: BorderStyle,
    x0: int,
    x1: int,
    y0: int,
    y1: int,
    y: int,
    n: nat,
) -> Seq<Cell>
    decreases n,
{
    if n == 0 {
        grid
    } else {
        spec_border_pixel(
            spec_border_row(grid, size, borders, x0, x1, y0, y1, y, (n - 1) as nat),
            size,
            borders,
            x0,
            x1,
            y0,
            y1,
            x0 + n - 1,
            y,
        )
    }
}

/// The grid after the border pass over the first `ny` rows of the box.
pub open spec fn spec_border_rect(
    grid: Seq<Cell>,
    size: Vec2u,
    borders: BorderStyle,
    x0: int,
    x1: int,
    y0: int,
    y1: int,
    nx: nat,
    ny: nat,
) -> Seq<Cell>
    decreases ny,
{
    if ny == 0 {
        grid
    } else {
        spec_border_row(
            spec_border_rect(grid, size, borders, x0, x1, y0, y1, nx, (ny - 1) as nat),
            size,
            borders,
            x0,
            x1,
            y0,
            y1,
            y0 + ny - 1,
            nx,
        )
    }
}

/// The grid after writing the first `n` content glyphs onto cell row
/// `line_y` from cell column `line_x`, each carrying `cell_style`; a
/// glyph landing outside the grid is dropped.
pub open spec fn spec_put_content(
    grid: Seq<Cell>,
    size: Vec2u,
    content: Seq<char>,
    cell_style: CellStyle,
    line_x: int,
    line_y: int,
    n: nat,
) -> Seq<Cell>
    decreases n,
{
    if n == 0 {
        grid
    } else {
        let prev = spec_put_content(grid, size, content, cell_style, line_x, line_y, (n - 1) as nat);
        let pos = Vec2u { x: (line_x + n - 1) as u16, y: line_y as u16 };
        if crate::buffer::spec_in_bounds(size, pos) {
            prev.update(
                crate::buffer::spec_pos_to_index(size, pos),
                Cell { c: content[n - 1], style: cell_style },
            )
        } else {
            prev
        }
    }
}

/// The length of the half-open range `lo..hi`.
pub open spec fn spec_len(lo: int, hi: int) -> nat {
    if hi >= lo {
        (hi - lo) as nat
    } else {
        0
    }
}

/// The grid after painting one styled text box: the background fill over
/// the whole box, the configured border edges, then the content glyphs.
pub open spec fn spec_print(
    grid: Seq<Cell>,
    size: Vec2u,
    content: Seq<char>,
    cw: int,
    style: PrintStyle,
) -> Seq<Cell> {
    let layout = spec_layout(cw, style, size);
    let x0 = layout.box_start_x as int;
    let x1 = layout.box_end_x as int;
    let y0 = layout.box_start_y as int;
    let y1 = layout.box_end_y as int;
    let nx = spec_len(x0, x1);
    let ny = spec_len(y0, y1);
    let filled = match style.background_color {
        Some(color) => spec_fill_rect(grid, size, color, x0, nx, y0, ny),
        None => grid,
    };
    let bordered = spec_border_rect(filled, size, style.border_style, x0, x1, y0, y1, nx, ny);
    spec_put_content(
        bordered,
        size,
        content,
        style.spec_content_style(),
        layout.line_start_x as int,
        layout.line_start_y as int,
        content.len(),
    )
}

impl SimpleCanvas {
    /// Prints a styled text box onto the canvas. A box whose geometry
    /// would leave the addressable coordinate range is a silent no-op.
    pub fn print(&mut self, content: StyledPrint<'_>)
        requires
            old(self).wf(),
        ensures
            final(self).wf(),
            old(self).same_frame_state(*final(self)),
            spec_print_fits(
                content.spec_style(),
                text_display_width(content.spec_content()) as int,
                content.spec_content().len() as int,
                old(self).cell_size(),
            ) ==> final(self).grid() == spec_print(
                old(self).grid(),
                old(self).cell_size(),
                content.spec_content(),
                text_display_width(content.spec_content()) as int,
                content.spec_style(),
            ),
            !spec_print_fits(
                content.spec_style(),
                text_display_width(content.spec_content()) as int,
                content.spec_content().len() as int,
                old(self).cell_size(),
            ) ==> final(self).grid() == old(self).grid(),
    {
        let style = *content.style();
        let text = content.content();
        let w = display_width(text);
        let chars = str_chars(text);
        let size = self.grid_size();
        let extra_w: u64 = (style.padding.left_padding as u64
            + style.border_style.left_width() as u64) + (style.padding.right_padding as u64
            + style.border_style.right_width() as u64);
        let extra_h: u64 = (style.padding.top_padding as u64
            + style.border_style.top_width() as u64) + (style.padding.bottom_padding as u64
            + style.border_style.bottom_width() as u64);
        let clen = chars.len();
        let fits = w as u64 <= u16::MAX as u64 && (w as u64) + extra_w <= u16::MAX as u64
            && size.x as u64 + (w as u64) + extra_w <= u16::MAX as u64 && 2 * (size.y as u64) + 3
            * (1 + extra_h) + 2 <= u16::MAX as u64 && clen <= u16::MAX as usize && size.x as u64
            + extra_w + (clen as u64) <= u16::MAX as u64;
        if !fits {
            return;
        }
        self.print_styled_content(&chars, w as u16, &style);
    }

    /// Paints one text box whose width and characters are already
    /// measured; the geometry must fit the addressable range.
    fn print_styled_content(&mut self, chars: &Vec<char>, cw: u16, style: &PrintStyle)
        requires
            old(self).wf(),
            spec_print_fits(*style, cw as int, chars@.len() as int, old(self).cell_size()),
        ensures
            final(self).wf(),
            old(self).same_frame_state(*final(self)),
            final(self).grid() == spec_print(
                old(self).grid(),
                old(self).cell_size(),
                chars@,
                cw as int,
                *style,
            ),
    {
        let size = self.grid_size();
        let layout = compute_layout(cw, style, size);
        let ghost grid0 = self.grid();
        let ghost gsize = self.cell_size();
        let x0 = layout.box_start_x;
        let x1 = layout.box_end_x;
        let y0 = layout.box_start_y;
        let y1 = layout.box_end_y;
        let ghost nx = spec_len(x0 as int, x1 as int);
        let ghost ny = spec_len(y0 as int, y1 as int);

        if let Some(color) = style.background_color {
            let mut y = y0;
            while y < y1
                invariant
                    self.wf(),
                    old(self).same_frame_state(*self),
                    gsize == self.cell_size(),
                    y0 <= y,
                    y <= y1 || y == y0,
                    nx == spec_len(x0 as int, x1 as int),
                    style.background_color == Some(color),
                    self.grid() == spec_fill_rect(
                        grid0,
                        gsize,
                        color,
                        x0 as int,
                        nx,
                        y0 as int,
                        (y - y0) as nat,
                    ),
                decreases y1 - y,
            {
                let ghost row_base = self.grid();
                let mut x = x0;
                while x < x1
                    invariant
                        self.wf(),
                        old(self).same_frame_state(*self),
                        gsize == self.cell_size(),
                        x0 <= x,
                        x <= x1 || x == x0,
                        y0 <= y < y1,
                        style.background_color == Some(color),
                        self.grid() == spec_fill_row(
                            row_base,
                            gsize,
                            color,
                            x0 as int,
                            y as int,
                            (x - x0) as nat,
                        ),
                    decreases x1 - x,
                {
                    self.draw(Vec2u { x, y }, Some(color));
                    x = x + 1;
                }
                proof {
                    assert(spec_fill_rect(
                        grid0,
                        gsize,
                        color,
                        x0 as int,
                        nx,
                        y0 as int,
                        (y - y0 + 1) as nat,
                    ) == spec_fill_row(row_base, gsize, color, x0 as int, y0 as int + (y - y0), nx));
                }
                y = y + 1;
            }
            proof {
                assert((y1 - y0) as nat == ny || (y1 < y0 && 0nat == ny));
            }
        }
        proof {
            assert(self.grid() == match style.background_color {
                Some(color) => spec_fill_rect(grid0, gsize, color, x0 as int, nx, y0 as int, ny),
                None => grid0,
            });
        }

        let ghost fill_done = self.grid();
        let borders = style.border_style;
        let mut y = y0;
        while y < y1
            invariant
                self.wf(),
                old(self).same_frame_state(*self),
                gsize == self.cell_size(),
                y0 <= y,
                y <= y1 || y == y0,
                nx == spec_len(x0 as int, x1 as int),
                borders == style.border_style,
                self.grid() == spec_border_rect(
                    fill_done,
                    gsize,
                    borders,
                    x0 as int,
                    x1 as int,
                    y0 as int,
                    y1 as int,
                    nx,
                    (y - y0) as nat,
                ),
            decreases y1 - y,
        {
            let ghost row_base = self.grid();
            let mut x = x0;
            while x < x1
                invariant
                    self.wf(),
                    old(self).same_frame_state(*self),
                    gsize == self.cell_size(),
                    x0 <= x,
                    x <= x1 || x == x0,
                    y0 <= y < y1,
                    borders == style.border_style,
                    self.grid() == spec_border_row(
                        row_base,
                        gsize,
                        borders,
                        x0 as int,
                        x1 as int,
                        y0 as int,
                        y1 as int,
                        y as int,
                        (x - x0) as nat,
                    ),
                decreases x1 - x,
            {
                let pos = Vec2u { x, y };
                if let Some(color) = borders.left_border {
                    if x == x0 {
                        self.draw(pos, Some(color));
                    }
                }
                if let Some(color) = borders.right_border {
                    if x == x1 - 1 {
                        self.draw(pos, Some(color));
                    }
                }
                if let Some(color) = borders.top_border {
                    if y == y0 {
                        self.draw(pos, Some(color));
                    }
                }
                if let Some(color) = borders.bottom_border {
                    if y == y1 - 1 {
                        self.draw(pos, Some(color));
                    }
                }
                x = x + 1;
            }
            proof {
                assert(spec_border_rect(
                    fill_done,
                    gsize,
                    borders,
                    x0 as int,
                    x1 as int,
                    y0 as int,
                    y1 as int,
                    nx,
                    (y - y0 + 1) as nat,
                ) == spec_border_row(
                    row_base,
                    gsize,
                    borders,
                    x0 as int,
                    x1 as int,
                    y0 as int,
                    y1 as int,
                    y0 as int + (y - y0),
                    nx,
                ));
            }
            y = y + 1;
        }
        proof {
            assert(self.grid() == spec_border_rect(
                fill_done,
                gsize,
                borders,
                x0 as int,
                x1 as int,
                y0 as int,
                y1 as int,
                nx,
                ny,
            ));
        }

        let ghost border_done = self.grid();
        let cell_style = style.content_style();
        let n = chars.len();
        let mut i: usize = 0;
        while i < n
            invariant
                self.wf(),
                old(self).same_frame_state(*self),
                gsize == self.cell_size(),
                i <= n,
                n == chars@.len(),
                layout.line_start_x + n <= u16::MAX,
                cell_style == style.spec_content_style(),
                self.grid() == spec_put_content(
                    border_done,
                    gsize,
                    chars@,
                    cell_style,
                    layout.line_start_x as int,
                    layout.line_start_y as int,
                    i as nat,
                ),
            decreases n - i,
        {
            let pos = Vec2u { x: layout.line_start_x + i as u16, y: layout.line_start_y };
            self.set_cell(pos, Cell { c: chars[i], style: cell_style });
            i = i + 1;
        }
    }
}

} // verus!
