//! The anti-aliased circle rasterizer.
//!
//! Every pixel of the bounding box around `radius + outer stroke` is
//! classified by its four corner points against the squared band radii:
//! all corners beyond the outer radius or all inside the inner radius
//! leave the pixel untouched; all corners within the band paint it
//! fully; a mixed pixel is supersampled on a 5-by-5 grid and blended
//! with the background by the fraction of sample points landing in the
//! band. Centers, radii and strokes are quarter-pixel integers, so every
//! distance comparison is exact.

use vstd::prelude::*;
use vstd::arithmetic::div_mod::lemma_fundamental_div_mod;
use vstd::arithmetic::div_mod::lemma_fundamental_div_mod_converse;

use crate::canvas::SimpleCanvas;
use crate::canvas::lemma_draw_grid_preserves_other_pixels;
use crate::canvas::spec_background_rgb_grid;
use crate::canvas::spec_draw_grid;
use crate::canvas::spec_grid_cell_index;
use crate::canvas::spec_pixel_at_grid;
use crate::canvas::spec_pixel_bounds;
use crate::cell::sub_pixels_independent;
use crate::cell::Cell;
use crate::color::Color;
use crate::color::Rgb8;
use crate::color::blend_rgb;
use crate::geom::Vec2i;
use crate::geom::Vec2u;
use crate::raster::spec_blend_color;
use crate::raster::spec_rgb_or_white;
use crate::style::Circle;

verus! {

/// The squared distance between two points in quarter-pixel units.
pub open spec fn spec_dist_sq(cx: int, cy: int, qx: int, qy: int) -> int {
    (qx - cx) * (qx - cx) + (qy - cy) * (qy - cy)
}

/// Whether a squared distance lies within the ring band.
pub open spec fn spec_in_band(d: int, inner_sq: int, outer_sq: int) -> bool {
    inner_sq <= d <= outer_sq
}

/// How one pixel relates to the ring band.
#[derive(Clone, Copy, Debug, PartialEq, Eq, Structural)]
pub enum CircleClass {
    /// All corners beyond the outer radius: untouched.
    Outside,
    /// All corners inside the inner radius: the ring's hole, untouched.
    Hole,
    /// All corners within the band: painted fully.
    Full,
    /// Mixed corners: supersampled and blended.
    Boundary,
}

/// Classifies pixel `(x, y)` by its four corner points, each half a
/// pixel from the pixel's center.
pub open spec fn spec_classify(
    cx: int,
    cy: int,
    x: int,
    y: int,
    inner_sq: int,
    outer_sq: int,
) -> CircleClass {
    let d00 = spec_dist_sq(cx, cy, 4 * x - 2, 4 * y - 2);
    let d01 = spec_dist_sq(cx, cy, 4 * x + 2, 4 * y - 2);
    let d10 = spec_dist_sq(cx, cy, 4 * x - 2, 4 * y + 2);
    let d11 = spec_dist_sq(cx, cy, 4 * x + 2, 4 * y + 2);
    if d00 > outer_sq && d01 > outer_sq && d10 > outer_sq && d11 > outer_sq {
        CircleClass::Outside
    } else if d00 < inner_sq && d01 < inner_sq && d10 < inner_sq && d11 < inner_sq {
        CircleClass::Hole
    } else if spec_in_band(d00, inner_sq, outer_sq) && spec_in_band(d01, inner_sq, outer_sq)
        && spec_in_band(d10, inner_sq, outer_sq) && spec_in_band(d11, inner_sq, outer_sq) {
        CircleClass::Full
    } else {
        CircleClass::Boundary
    }
}

/// 1 when the sample point lies in the band, else 0.
pub open spec fn spec_band_ind(cx: int, cy: int, inner_sq: int, outer_sq: int, qx: int, qy: int) -> int {
    if spec_in_band(spec_dist_sq(cx, cy, qx, qy), inner_sq, outer_sq) {
        1
    } else {
        0
    }
}

/// The number of in-band sample points among the first `j` of a row of
/// supersample points starting at `(qx0, qy)`, one quarter-pixel apart.
pub open spec fn spec_sub_row(
    cx: int,
    cy: int,
    inner_sq: int,
    outer_sq: int,
    qx0: int,
    qy: int,
    j: nat,
) -> int
    decreases j,
{
    if j == 0 {
        0
    } else {
        spec_sub_row(cx, cy, inner_sq, outer_sq, qx0, qy, (j - 1) as nat) + spec_band_ind(
            cx,
            cy,
            inner_sq,
            outer_sq,
            qx0 + j - 1,
            qy,
        )
    }
}

/// The number of in-band sample points among the first `i` rows of the
/// 5-by-5 supersample grid of pixel `(x, y)`: rows of five points, one
/// quarter-pixel apart, starting half a pixel up and left of the center.
pub open spec fn spec_sub_count(
    cx: int,
    cy: int,
    inner_sq: int,
    outer_sq: int,
    x: int,
    y: int,
    i: nat,
) -> int
    decreases i,
{
    if i == 0 {
        0
    } else {
        spec_sub_count(cx, cy, inner_sq, outer_sq, x, y, (i - 1) as nat) + spec_sub_row(
            cx,
            cy,
            inner_sq,
            outer_sq,
            4 * x - 2,
            4 * y - 2 + i - 1,
            5,
        )
    }
}

/// A supersample row count lies in `[0, j]`.
pub proof fn lemma_sub_row_bounds(
    cx: int,
    cy: int,
    inner_sq: int,
    outer_sq: int,
    qx0: int,
    qy: int,
    j: nat,
)
    ensures
        0 <= spec_sub_row(cx, cy, inner_sq, outer_sq, qx0, qy, j) <= j,
    decreases j,
{
    if j > 0 {
        lemma_sub_row_bounds(cx, cy, inner_sq, outer_sq, qx0, qy, (j - 1) as nat);
    }
}

/// A supersample grid count lies in `[0, 5 * i]`.
pub proof fn lemma_sub_count_bounds(
    cx: int,
    cy: int,
    inner_sq: int,
    outer_sq: int,
    x: int,
    y: int,
    i: nat,
)
    ensures
        0 <= spec_sub_count(cx, cy, inner_sq, outer_sq, x, y, i) <= 5 * i,
    decreases i,
{
    if i > 0 {
        lemma_sub_count_bounds(cx, cy, inner_sq, outer_sq, x, y, (i - 1) as nat);
        lemma_sub_row_bounds(cx, cy, inner_sq, outer_sq, 4 * x - 2, 4 * y - 2 + i - 1, 5);
    }
}

/// The grid after the circle rasterizer has handled pixel `(x, y)`:
/// untouched outside the band and in the hole, painted with the stroke
/// color in the band, blended by supersample coverage on the boundary.
pub open spec fn spec_circle_pixel(
    grid: Seq<Cell>,
    size: Vec2u,
    default_cell: Option<Cell>,
    cx: int,
    cy: int,
    inner_sq: int,
    outer_sq: int,
    fg: Rgb8,
    x: int,
    y: int,
) -> Seq<Cell> {
    let pos = Vec2u { x: x as u16, y: y as u16 };
    match spec_classify(cx, cy, x, y, inner_sq, outer_sq) {
        CircleClass::Outside => grid,
        CircleClass::Hole => grid,
        CircleClass::Full => spec_draw_grid(
            grid,
            size,
            pos,
            Some(Color::Rgb { r: fg.r, g: fg.g, b: fg.b }),
        ),
        CircleClass::Boundary => {
            let count = spec_sub_count(cx, cy, inner_sq, outer_sq, x, y, 5);
            let bg = spec_background_rgb_grid(grid, size, default_cell, pos);
            spec_draw_grid(grid, size, pos, Some(spec_blend_color(bg, fg, count, 25)))
        },
    }
}

/// The grid after handling the first `n` pixels of row `y`, starting at
/// column `x0`.
pub open spec fn spec_circle_row(
    grid: Seq<Cell>,
    size: Vec2u,
    default_cell: Option<Cell>,
    cx: int,
    cy: int,
    inner_sq: int,
    outer_sq: int,
    fg: Rgb8,
    x0: int,
    y: int,
    n: nat,
) -> Seq<Cell>
    decreases n,
{
    if n == 0 {
        grid
    } else {
        spec_circle_pixel(
            spec_circle_row(
                grid,
                size,
                default_cell,
                cx,
                cy,
                inner_sq,
                outer_sq,
                fg,
                x0,
                y,
                (n - 1) as nat,
            ),
            size,
            default_cell,
            cx,
            cy,
            inner_sq,
            outer_sq,
            fg,
            x0 + n - 1,
            y,
        )
    }
}

/// The grid after handling the first `ny` rows of the bounding box,
/// each row covering `nx` pixels from column `x0`, starting at row `y0`.
pub open spec fn spec_circle_rect(
    grid: Seq<Cell>,
    size: Vec2u,
    default_cell: Option<Cell>,
    cx: int,
    cy: int,
    inner_sq: int,
    outer_sq: int,
    fg: Rgb8,
    x0: int,
    nx: nat,
    y0: int,
    ny: nat,
) -> Seq<Cell>
    decreases ny,
{
    if ny == 0 {
        grid
    } else {
        spec_circle_row(
            spec_circle_rect(
                grid,
                size,
                default_cell,
                cx,
                cy,
                inner_sq,
                outer_sq,
                fg,
                x0,
                nx,
                y0,
                (ny - 1) as nat,
            ),
            size,
            default_cell,
            cx,
            cy,
            inner_sq,
            outer_sq,
            fg,
            x0,
            y0 + ny - 1,
            nx,
        )
    }
}

/// The quarter-pixel reach of the circle from its center.
pub open spec fn spec_circle_span(circle: Circle) -> int {
    circle.radius + circle.spec_outer_stroke()
}

/// The squared outer radius of the band, in quarter-pixel units.
pub open spec fn spec_circle_outer_sq(circle: Circle) -> int {
    spec_circle_span(circle) * spec_circle_span(circle)
}

/// The squared inner radius of the band. A filled circle degenerates
/// the inner stroke to the radius; an inner stroke wider than the
/// radius is squared as-is, its sign lost, matching the arithmetic of
/// squaring the signed difference.
pub open spec fn spec_circle_inner_sq(circle: Circle) -> int {
    let inner = if circle.filled {
        circle.radius as int
    } else {
        circle.spec_inner_stroke() as int
    };
    (circle.radius - inner) * (circle.radius - inner)
}

/// A coordinate clamped to the addressable 16-bit pixel range.
pub open spec fn spec_clamp_u16(a: int) -> int {
    if a < 0 {
        0
    } else if a > u16::MAX {
        u16::MAX as int
    } else {
        a
    }
}

/// The first pixel column or row the bounding box reaches: the floor of
/// `(center - span + half a pixel)` in pixels, clamped.
pub open spec fn spec_bbox_lo(c: int, span: int) -> int {
    spec_clamp_u16((c - span + 2) / 4)
}

/// One past the last pixel column or row: the ceiling of
/// `(center + span + half a pixel)` in pixels, clamped.
pub open spec fn spec_bbox_hi(c: int, span: int) -> int {
    spec_clamp_u16((c + span + 2 + 3) / 4)
}

/// The length of the half-open range `lo..hi`.
pub open spec fn spec_range_len(lo: int, hi: int) -> nat {
    if hi >= lo {
        (hi - lo) as nat
    } else {
        0
    }
}

/// The floor of `a / 4`.
pub(crate) fn floor4(a: i64) -> (r: i64)
    requires
        -0x4000_0000_0000 <= a <= 0x4000_0000_0000,
    ensures
        r == a as int / 4,
{
    if a >= 0 {
        ((a as u64) / 4) as i64
    } else {
        let m = (-a) as u64;
        let q = (m + 3) / 4;
        proof {
            lemma_fundamental_div_mod((m + 3) as int, 4);
            let qi = ((m + 3) as int) / 4;
            let s = ((m + 3) as int) % 4;
            assert(m <= 4 * qi <= m + 3);
            lemma_fundamental_div_mod_converse(a as int, 4, -qi, a + 4 * qi);
        }
        -(q as i64)
    }
}

/// `a / 4` clamped into the 16-bit pixel range.
fn floor4_clamped(a: i64) -> (r: u16)
    requires
        -0x4000_0000_0000 <= a <= 0x4000_0000_0000,
    ensures
        r == spec_clamp_u16(a as int / 4),
{
    let f = floor4(a);
    if f < 0 {
        0
    } else if f > u16::MAX as i64 {
        u16::MAX
    } else {
        f as u16
    }
}

/// The squared distance between two points in quarter-pixel units.
fn dist_sq(cx: i64, cy: i64, qx: i64, qy: i64) -> (d: i64)
    requires
        -0x100_0000 <= cx <= 0x100_0000,
        -0x100_0000 <= cy <= 0x100_0000,
        -0x100_0000 <= qx <= 0x100_0000,
        -0x100_0000 <= qy <= 0x100_0000,
    ensures
        d == spec_dist_sq(cx as int, cy as int, qx as int, qy as int),
{
    let dx = qx - cx;
    let dy = qy - cy;
    proof {
        assert(0 <= dx * dx <= 0x200_0000 * 0x200_0000) by (nonlinear_arith)
            requires
                -0x200_0000 <= dx <= 0x200_0000,
        ;
        assert(0 <= dy * dy <= 0x200_0000 * 0x200_0000) by (nonlinear_arith)
            requires
                -0x200_0000 <= dy <= 0x200_0000,
        ;
    }
    dx * dx + dy * dy
}

/// Classifies pixel `(x, y)` by its four corner points.
fn classify_pixel(cx: i64, cy: i64, x: u16, y: u16, inner_sq: i64, outer_sq: i64) -> (class:
    CircleClass)
    requires
        -0x80_0000 <= cx <= 0x80_0000,
        -0x80_0000 <= cy <= 0x80_0000,
    ensures
        class == spec_classify(cx as int, cy as int, x as int, y as int, inner_sq as int, outer_sq as int),
{
    let qx = 4 * (x as i64);
    let qy = 4 * (y as i64);
    let d00 = dist_sq(cx, cy, qx - 2, qy - 2);
    let d01 = dist_sq(cx, cy, qx + 2, qy - 2);
    let d10 = dist_sq(cx, cy, qx - 2, qy + 2);
    let d11 = dist_sq(cx, cy, qx + 2, qy + 2);
    if d00 > outer_sq && d01 > outer_sq && d10 > outer_sq && d11 > outer_sq {
        CircleClass::Outside
    } else if d00 < inner_sq && d01 < inner_sq && d10 < inner_sq && d11 < inner_sq {
        CircleClass::Hole
    } else if inner_sq <= d00 && d00 <= outer_sq && inner_sq <= d01 && d01 <= outer_sq && inner_sq
        <= d10 && d10 <= outer_sq && inner_sq <= d11 && d11 <= outer_sq {
        CircleClass::Full
    } else {
        CircleClass::Boundary
    }
}

/// Counts the in-band points of the pixel's 5-by-5 supersample grid.
fn sub_count(cx: i64, cy: i64, x: u16, y: u16, inner_sq: i64, outer_sq: i64) -> (count: u32)
    requires
        -0x80_0000 <= cx <= 0x80_0000,
        -0x80_0000 <= cy <= 0x80_0000,
    ensures
        count == spec_sub_count(cx as int, cy as int, inner_sq as int, outer_sq as int, x as int, y as int, 5),
        count <= 25,
{
    let qx0 = 4 * (x as i64) - 2;
    let qy0 = 4 * (y as i64) - 2;
    let mut count: u32 = 0;
    let mut i: u32 = 0;
    while i < 5
        invariant
            i <= 5,
            count <= 5 * i,
            -0x80_0000 <= cx <= 0x80_0000,
            -0x80_0000 <= cy <= 0x80_0000,
            qx0 == 4 * (x as int) - 2,
            qy0 == 4 * (y as int) - 2,
            count == spec_sub_count(cx as int, cy as int, inner_sq as int, outer_sq as int, x as int, y as int, i as nat),
        decreases 5 - i,
    {
        let qy = qy0 + i as i64;
        let mut row: u32 = 0;
        let mut j: u32 = 0;
        while j < 5
            invariant
                j <= 5,
                row <= j,
                -0x80_0000 <= cx <= 0x80_0000,
                -0x80_0000 <= cy <= 0x80_0000,
                qx0 == 4 * (x as int) - 2,
                qy == 4 * (y as int) - 2 + i,
                i < 5,
                row == spec_sub_row(cx as int, cy as int, inner_sq as int, outer_sq as int, qx0 as int, qy as int, j as nat),
            decreases 5 - j,
        {
            let d = dist_sq(cx, cy, qx0 + j as i64, qy);
            if inner_sq <= d && d <= outer_sq {
                row = row + 1;
            }
            j = j + 1;
        }
        count = count + row;
        i = i + 1;
    }
    proof {
        lemma_sub_count_bounds(cx as int, cy as int, inner_sq as int, outer_sq as int, x as int, y as int, 5);
    }
    count
}

impl SimpleCanvas {
    /// Draws an anti-aliased circle or ring. The center is given in
    /// quarter-pixel units; a radius of zero is a silent no-op.
    pub fn aa_circle(&mut self, pos: Vec2i, circle: Circle)
        requires
            old(self).wf(),
            -0x10_0000 <= pos.x <= 0x10_0000,
            -0x10_0000 <= pos.y <= 0x10_0000,
            circle.radius + circle.spec_outer_stroke() <= 0x10_0000,
            circle.spec_inner_stroke() <= 0x10_0000,
        ensures
            final(self).wf(),
            old(self).same_frame_state(*final(self)),
            circle.radius == 0 ==> final(self).grid() == old(self).grid(),
            circle.radius > 0 ==> final(self).grid() == {
                let cx = pos.x as int;
                let cy = pos.y as int;
                let span = spec_circle_span(circle);
                let tx = spec_bbox_lo(cx, span);
                let bx = spec_bbox_hi(cx, span);
                let ty = spec_bbox_lo(cy, span);
                let by = spec_bbox_hi(cy, span);
                spec_circle_rect(
                    old(self).grid(),
                    old(self).cell_size(),
                    old(self).spec_renderer().spec_buffer().spec_default_cell(),
                    cx,
                    cy,
                    spec_circle_inner_sq(circle),
                    spec_circle_outer_sq(circle),
                    spec_rgb_or_white(circle.stroke_color),
                    tx,
                    spec_range_len(tx, bx),
                    ty,
                    spec_range_len(ty, by),
                )
            },
    {
        if circle.radius == 0 {
            return;
        }
        let fg = match circle.stroke_color {
            Some(c) => c,
            None => Rgb8 { r: 255, g: 255, b: 255 },
        };
        let cx = pos.x as i64;
        let cy = pos.y as i64;
        let outer = circle.outer_stroke_width();
        let inner = if circle.filled {
            circle.radius
        } else {
            circle.inner_stroke_width()
        };
        let span: i64 = circle.radius as i64 + outer as i64;
        let rdiff: i64 = circle.radius as i64 - inner as i64;
        proof {
            assert(0 <= span * span <= 0x10_0000 * 0x10_0000) by (nonlinear_arith)
                requires
                    0 <= span <= 0x10_0000,
            ;
            assert(0 <= rdiff * rdiff <= 0x10_0000 * 0x10_0000) by (nonlinear_arith)
                requires
                    -0x10_0000 <= rdiff <= 0x10_0000,
            ;
        }
        let outer_sq: i64 = span * span;
        let inner_sq: i64 = rdiff * rdiff;
        let tx = floor4_clamped(cx - span + 2);
        let bx0 = floor4_clamped(cx + span + 2 + 3);
        let ty = floor4_clamped(cy - span + 2);
        let by0 = floor4_clamped(cy + span + 2 + 3);
        let bx = if bx0 < tx {
            tx
        } else {
            bx0
        };
        let by = if by0 < ty {
            ty
        } else {
            by0
        };
        let ghost grid0 = self.grid();
        let ghost size = self.cell_size();
        let ghost dc = self.spec_renderer().spec_buffer().spec_default_cell();
        let ghost gcx = pos.x as int;
        let ghost gcy = pos.y as int;
        let ghost g_inner = spec_circle_inner_sq(circle);
        let ghost g_outer = spec_circle_outer_sq(circle);
        let ghost nx = spec_range_len(tx as int, bx0 as int);
        proof {
            assert(nx == spec_range_len(tx as int, bx as int));
            assert(spec_range_len(ty as int, by0 as int) == spec_range_len(ty as int, by as int));
        }
        let mut y = ty;
        while y < by
            invariant
                self.wf(),
                old(self).same_frame_state(*self),
                size == self.cell_size(),
                dc == self.spec_renderer().spec_buffer().spec_default_cell(),
                ty <= y <= by,
                tx <= bx,
                -0x80_0000 <= cx <= 0x80_0000,
                -0x80_0000 <= cy <= 0x80_0000,
                cx == gcx,
                cy == gcy,
                inner_sq == g_inner,
                outer_sq == g_outer,
                fg == spec_rgb_or_white(circle.stroke_color),
                nx == spec_range_len(tx as int, bx as int),
                self.grid() == spec_circle_rect(
                    grid0,
                    size,
                    dc,
                    gcx,
                    gcy,
                    g_inner,
                    g_outer,
                    fg,
                    tx as int,
                    nx,
                    ty as int,
                    (y - ty) as nat,
                ),
            decreases by - y,
        {
            let ghost row_base = self.grid();
            let mut x = tx;
            while x < bx
                invariant
                    self.wf(),
                    old(self).same_frame_state(*self),
                    size == self.cell_size(),
                    dc == self.spec_renderer().spec_buffer().spec_default_cell(),
                    tx <= x <= bx,
                    ty <= y < by,
                    -0x80_0000 <= cx <= 0x80_0000,
                    -0x80_0000 <= cy <= 0x80_0000,
                    cx == gcx,
                    cy == gcy,
                    inner_sq == g_inner,
                    outer_sq == g_outer,
                    fg == spec_rgb_or_white(circle.stroke_color),
                    self.grid() == spec_circle_row(
                        row_base,
                        size,
                        dc,
                        gcx,
                        gcy,
                        g_inner,
                        g_outer,
                        fg,
                        tx as int,
                        y as int,
                        (x - tx) as nat,
                    ),
                decreases bx - x,
            {
                let class = classify_pixel(cx, cy, x, y, inner_sq, outer_sq);
                let p = Vec2u { x, y };
                match class {
                    CircleClass::Outside => (),
                    CircleClass::Hole => (),
                    CircleClass::Full => {
                        self.draw(p, Some(Color::Rgb { r: fg.r, g: fg.g, b: fg.b }));
                    },
                    CircleClass::Boundary => {
                        let count = sub_count(cx, cy, x, y, inner_sq, outer_sq);
                        let bg = self.background_rgb_at_or_default(p);
                        let blended = blend_rgb(bg, fg, count, 25);
                        self.draw(p, Some(blended.to_color()));
                    },
                }
                x = x + 1;
            }
            proof {
                assert(spec_circle_rect(
                    grid0,
                    size,
                    dc,
                    gcx,
                    gcy,
                    g_inner,
                    g_outer,
                    fg,
                    tx as int,
                    nx,
                    ty as int,
                    (y - ty + 1) as nat,
                ) == spec_circle_row(
                    row_base,
                    size,
                    dc,
                    gcx,
                    gcy,
                    g_inner,
                    g_outer,
                    fg,
                    tx as int,
                    ty as int + (y - ty) as int,
                    nx,
                ));
            }
            y = y + 1;
        }
    }
}

/// A pixel all four of whose corners lie strictly inside the band is
/// always painted fully with the stroke color.
pub proof fn lemma_strict_band_pixel_fully_painted(
    grid: Seq<Cell>,
    size: Vec2u,
    default_cell: Option<Cell>,
    cx: int,
    cy: int,
    inner_sq: int,
    outer_sq: int,
    fg: Rgb8,
    x: int,
    y: int,
)
    requires
        inner_sq < spec_dist_sq(cx, cy, 4 * x - 2, 4 * y - 2) < outer_sq,
        inner_sq < spec_dist_sq(cx, cy, 4 * x + 2, 4 * y - 2) < outer_sq,
        inner_sq < spec_dist_sq(cx, cy, 4 * x - 2, 4 * y + 2) < outer_sq,
        inner_sq < spec_dist_sq(cx, cy, 4 * x + 2, 4 * y + 2) < outer_sq,
    ensures
        spec_classify(cx, cy, x, y, inner_sq, outer_sq) == CircleClass::Full,
        spec_circle_pixel(grid, size, default_cell, cx, cy, inner_sq, outer_sq, fg, x, y)
            == spec_draw_grid(
            grid,
            size,
            Vec2u { x: x as u16, y: y as u16 },
            Some(Color::Rgb { r: fg.r, g: fg.g, b: fg.b }),
        ),
{
}

/// A pixel all four of whose corners lie strictly outside the band —
/// all beyond the outer radius, or all inside the hole — is never
/// painted.
pub proof fn lemma_outside_band_pixel_untouched(
    grid: Seq<Cell>,
    size: Vec2u,
    default_cell: Option<Cell>,
    cx: int,
    cy: int,
    inner_sq: int,
    outer_sq: int,
    fg: Rgb8,
    x: int,
    y: int,
)
    requires
        (spec_dist_sq(cx, cy, 4 * x - 2, 4 * y - 2) > outer_sq && spec_dist_sq(cx, cy, 4 * x + 2, 4 * y - 2)
            > outer_sq && spec_dist_sq(cx, cy, 4 * x - 2, 4 * y + 2) > outer_sq && spec_dist_sq(
            cx,
            cy,
            4 * x + 2,
            4 * y + 2,
        ) > outer_sq) || (spec_dist_sq(cx, cy, 4 * x - 2, 4 * y - 2) < inner_sq && spec_dist_sq(
            cx,
            cy,
            4 * x + 2,
            4 * y - 2,
        ) < inner_sq && spec_dist_sq(cx, cy, 4 * x - 2, 4 * y + 2) < inner_sq && spec_dist_sq(
            cx,
            cy,
            4 * x + 2,
            4 * y + 2,
        ) < inner_sq),
    ensures
        spec_circle_pixel(grid, size, default_cell, cx, cy, inner_sq, outer_sq, fg, x, y) == grid,
{
}


/// One rasterizer step never changes the grid's cell count.
proof fn lemma_circle_pixel_len(
    grid: Seq<Cell>,
    size: Vec2u,
    default_cell: Option<Cell>,
    cx: int,
    cy: int,
    inner_sq: int,
    outer_sq: int,
    fg: Rgb8,
    x: int,
    y: int,
)
    requires
        grid.len() == size.area(),
        size.area() <= u16::MAX,
    ensures
        spec_circle_pixel(grid, size, default_cell, cx, cy, inner_sq, outer_sq, fg, x, y).len()
            == grid.len(),
{
    let pos = Vec2u { x: x as u16, y: y as u16 };
    if spec_pixel_bounds(size, pos) {
        crate::buffer::lemma_pos_to_index_to_pos(size, SimpleCanvas::spec_cell_pos(pos));
    }
}

/// A row of rasterizer steps never changes the grid's cell count.
proof fn lemma_circle_row_len(
    grid: Seq<Cell>,
    size: Vec2u,
    default_cell: Option<Cell>,
    cx: int,
    cy: int,
    inner_sq: int,
    outer_sq: int,
    fg: Rgb8,
    x0: int,
    y: int,
    n: nat,
)
    requires
        grid.len() == size.area(),
        size.area() <= u16::MAX,
    ensures
        spec_circle_row(grid, size, default_cell, cx, cy, inner_sq, outer_sq, fg, x0, y, n).len()
            == grid.len(),
    decreases n,
{
    if n > 0 {
        lemma_circle_row_len(
            grid,
            size,
            default_cell,
            cx,
            cy,
            inner_sq,
            outer_sq,
            fg,
            x0,
            y,
            (n - 1) as nat,
        );
        lemma_circle_pixel_len(
            spec_circle_row(
                grid,
                size,
                default_cell,
                cx,
                cy,
                inner_sq,
                outer_sq,
                fg,
                x0,
                y,
                (n - 1) as nat,
            ),
            size,
            default_cell,
            cx,
            cy,
            inner_sq,
            outer_sq,
            fg,
            x0 + n - 1,
            y,
        );
    }
}

/// The whole bounding-box pass never changes the grid's cell count.
proof fn lemma_circle_rect_len(
    grid: Seq<Cell>,
    size: Vec2u,
    default_cell: Option<Cell>,
    cx: int,
    cy: int,
    inner_sq: int,
    outer_sq: int,
    fg: Rgb8,
    x0: int,
    nx: nat,
    y0: int,
    ny: nat,
)
    requires
        grid.len() == size.area(),
        size.area() <= u16::MAX,
    ensures
        spec_circle_rect(
            grid,
            size,
            default_cell,
            cx,
            cy,
            inner_sq,
            outer_sq,
            fg,
            x0,
            nx,
            y0,
            ny,
        ).len() == grid.len(),
    decreases ny,
{
    if ny > 0 {
        lemma_circle_rect_len(
            grid,
            size,
            default_cell,
            cx,
            cy,
            inner_sq,
            outer_sq,
            fg,
            x0,
            nx,
            y0,
            (ny - 1) as nat,
        );
        lemma_circle_row_len(
            spec_circle_rect(
                grid,
                size,
                default_cell,
                cx,
                cy,
                inner_sq,
                outer_sq,
                fg,
                x0,
                nx,
                y0,
                (ny - 1) as nat,
            ),
            size,
            default_cell,
            cx,
            cy,
            inner_sq,
            outer_sq,
            fg,
            x0,
            y0 + ny - 1,
            nx,
        );
    }
}

/// The reading a pixel keeps through untouched steps: its displayed
/// color, and the independence of its cell's sub-pixels.
pub open spec fn spec_reads_independent(
    grid: Seq<Cell>,
    size: Vec2u,
    p: Vec2u,
    v: Option<Color>,
) -> bool {
    &&& spec_pixel_at_grid(grid, size, p) == v
    &&& sub_pixels_independent(grid[spec_grid_cell_index(size, p)])
}

/// A rasterizer step on a pixel other than `p` preserves `p`'s displayed
/// color, and keeps `p`'s cell independent.
proof fn lemma_circle_pixel_preserves(
    grid: Seq<Cell>,
    size: Vec2u,
    default_cell: Option<Cell>,
    cx: int,
    cy: int,
    inner_sq: int,
    outer_sq: int,
    fg: Rgb8,
    x: int,
    y: int,
    p: Vec2u,
    v: Option<Color>,
)
    requires
        grid.len() == size.area(),
        size.area() <= u16::MAX,
        0 <= x <= u16::MAX,
        0 <= y <= u16::MAX,
        spec_pixel_bounds(size, p),
        !(p.x == x && p.y == y),
        spec_reads_independent(grid, size, p, v),
    ensures
        spec_reads_independent(
            spec_circle_pixel(grid, size, default_cell, cx, cy, inner_sq, outer_sq, fg, x, y),
            size,
            p,
            v,
        ),
{
    let q = Vec2u { x: x as u16, y: y as u16 };
    assert(q != p);
    crate::buffer::lemma_pos_to_index_to_pos(size, SimpleCanvas::spec_cell_pos(p));
    let g2 = spec_circle_pixel(grid, size, default_cell, cx, cy, inner_sq, outer_sq, fg, x, y);
    let class = spec_classify(cx, cy, x, y, inner_sq, outer_sq);
    if class == CircleClass::Full || class == CircleClass::Boundary {
        let color = if class == CircleClass::Full {
            Color::Rgb { r: fg.r, g: fg.g, b: fg.b }
        } else {
            let count = spec_sub_count(cx, cy, inner_sq, outer_sq, x, y, 5);
            let bg = spec_background_rgb_grid(grid, size, default_cell, q);
            spec_blend_color(bg, fg, count, 25)
        };
        assert(g2 == spec_draw_grid(grid, size, q, Some(color)));
        lemma_draw_grid_preserves_other_pixels(grid, size, q, Some(color), p);
        if spec_pixel_bounds(size, q) {
            crate::buffer::lemma_pos_to_index_to_pos(size, SimpleCanvas::spec_cell_pos(q));
            let iq = spec_grid_cell_index(size, q);
            let ip = spec_grid_cell_index(size, p);
            if iq == ip {
                let drawn = SimpleCanvas::spec_drawn_cell(q, grid[iq], Some(color));
                assert(drawn.c != ' ');
                assert(g2[ip] == drawn);
            } else {
                assert(g2[ip] == grid[ip]);
            }
        }
    }
}

/// A row of rasterizer steps preserves `p`'s displayed color when `p`
/// lies outside the row, or is classified outside the band or in its
/// hole (and so is never painted).
proof fn lemma_circle_row_preserves(
    grid: Seq<Cell>,
    size: Vec2u,
    default_cell: Option<Cell>,
    cx: int,
    cy: int,
    inner_sq: int,
    outer_sq: int,
    fg: Rgb8,
    x0: int,
    y: int,
    n: nat,
    p: Vec2u,
    v: Option<Color>,
)
    requires
        grid.len() == size.area(),
        size.area() <= u16::MAX,
        0 <= x0,
        x0 + n <= u16::MAX + 1,
        0 <= y <= u16::MAX,
        spec_pixel_bounds(size, p),
        spec_reads_independent(grid, size, p, v),
        p.y != y || p.x < x0 || p.x >= x0 + n || spec_classify(
            cx,
            cy,
            p.x as int,
            p.y as int,
            inner_sq,
            outer_sq,
        ) == CircleClass::Outside || spec_classify(
            cx,
            cy,
            p.x as int,
            p.y as int,
            inner_sq,
            outer_sq,
        ) == CircleClass::Hole,
    ensures
        spec_reads_independent(
            spec_circle_row(grid, size, default_cell, cx, cy, inner_sq, outer_sq, fg, x0, y, n),
            size,
            p,
            v,
        ),
    decreases n,
{
    if n > 0 {
        lemma_circle_row_preserves(
            grid,
            size,
            default_cell,
            cx,
            cy,
            inner_sq,
            outer_sq,
            fg,
            x0,
            y,
            (n - 1) as nat,
            p,
            v,
        );
        let g1 = spec_circle_row(
            grid,
            size,
            default_cell,
            cx,
            cy,
            inner_sq,
            outer_sq,
            fg,
            x0,
            y,
            (n - 1) as nat,
        );
        lemma_circle_row_len(
            grid,
            size,
            default_cell,
            cx,
            cy,
            inner_sq,
            outer_sq,
            fg,
            x0,
            y,
            (n - 1) as nat,
        );
        let x = x0 + n - 1;
        if p.x == x && p.y == y {
            assert(spec_classify(cx, cy, x, y, inner_sq, outer_sq) == CircleClass::Outside
                || spec_classify(cx, cy, x, y, inner_sq, outer_sq) == CircleClass::Hole);
        } else {
            lemma_circle_pixel_preserves(
                g1,
                size,
                default_cell,
                cx,
                cy,
                inner_sq,
                outer_sq,
                fg,
                x,
                y,
                p,
                v,
            );
        }
    }
}

/// The whole bounding-box pass preserves `p`'s displayed color when `p`
/// lies outside the box, or is classified outside the band or in its
/// hole.
proof fn lemma_circle_rect_preserves(
    grid: Seq<Cell>,
    size: Vec2u,
    default_cell: Option<Cell>,
    cx: int,
    cy: int,
    inner_sq: int,
    outer_sq: int,
    fg: Rgb8,
    x0: int,
    nx: nat,
    y0: int,
    ny: nat,
    p: Vec2u,
    v: Option<Color>,
)
    requires
        grid.len() == size.area(),
        size.area() <= u16::MAX,
        0 <= x0,
        x0 + nx <= u16::MAX + 1,
        0 <= y0,
        y0 + ny <= u16::MAX + 1,
        spec_pixel_bounds(size, p),
        spec_reads_independent(grid, size, p, v),
        p.y < y0 || p.y >= y0 + ny || p.x < x0 || p.x >= x0 + nx || spec_classify(
            cx,
            cy,
            p.x as int,
            p.y as int,
            inner_sq,
            outer_sq,
        ) == CircleClass::Outside || spec_classify(
            cx,
            cy,
            p.x as int,
            p.y as int,
            inner_sq,
            outer_sq,
        ) == CircleClass::Hole,
    ensures
        spec_reads_independent(
            spec_circle_rect(
                grid,
                size,
                default_cell,
                cx,
                cy,
                inner_sq,
                outer_sq,
                fg,
                x0,
                nx,
                y0,
                ny,
            ),
            size,
            p,
            v,
        ),
    decreases ny,
{
    if ny > 0 {
        lemma_circle_rect_preserves(
            grid,
            size,
            default_cell,
            cx,
            cy,
            inner_sq,
            outer_sq,
            fg,
            x0,
            nx,
            y0,
            (ny - 1) as nat,
            p,
            v,
        );
        let g1 = spec_circle_rect(
            grid,
            size,
            default_cell,
            cx,
            cy,
            inner_sq,
            outer_sq,
            fg,
            x0,
            nx,
            y0,
            (ny - 1) as nat,
        );
        lemma_circle_rect_len(
            grid,
            size,
            default_cell,
            cx,
            cy,
            inner_sq,
            outer_sq,
            fg,
            x0,
            nx,
            y0,
            (ny - 1) as nat,
        );
        lemma_circle_row_preserves(
            g1,
            size,
            default_cell,
            cx,
            cy,
            inner_sq,
            outer_sq,
            fg,
            x0,
            y0 + ny - 1,
            nx,
            p,
            v,
        );
    }
}


/// A row of rasterizer steps that contains a fully-covered pixel `p`
/// leaves `p` reading the pure stroke color: `p`'s own step paints it,
/// and every later step preserves it.
proof fn lemma_circle_row_establishes(
    grid: Seq<Cell>,
    size: Vec2u,
    default_cell: Option<Cell>,
    cx: int,
    cy: int,
    inner_sq: int,
    outer_sq: int,
    fg: Rgb8,
    x0: int,
    y: int,
    n: nat,
    p: Vec2u,
)
    requires
        grid.len() == size.area(),
        size.area() <= u16::MAX,
        0 <= x0,
        x0 + n <= u16::MAX + 1,
        spec_pixel_bounds(size, p),
        p.y == y,
        x0 <= p.x < x0 + n,
        spec_classify(cx, cy, p.x as int, p.y as int, inner_sq, outer_sq) == CircleClass::Full,
    ensures
        spec_reads_independent(
            spec_circle_row(grid, size, default_cell, cx, cy, inner_sq, outer_sq, fg, x0, y, n),
            size,
            p,
            Some(Color::Rgb { r: fg.r, g: fg.g, b: fg.b }),
        ),
    decreases n,
{
    let g1 = spec_circle_row(
        grid,
        size,
        default_cell,
        cx,
        cy,
        inner_sq,
        outer_sq,
        fg,
        x0,
        y,
        (n - 1) as nat,
    );
    lemma_circle_row_len(
        grid,
        size,
        default_cell,
        cx,
        cy,
        inner_sq,
        outer_sq,
        fg,
        x0,
        y,
        (n - 1) as nat,
    );
    let x = x0 + n - 1;
    crate::buffer::lemma_pos_to_index_to_pos(size, SimpleCanvas::spec_cell_pos(p));
    if p.x == x {
        let g2 = spec_circle_pixel(g1, size, default_cell, cx, cy, inner_sq, outer_sq, fg, x, y);
        let ip = spec_grid_cell_index(size, p);
        assert(g2 == spec_draw_grid(g1, size, p, Some(Color::Rgb { r: fg.r, g: fg.g, b: fg.b })));
        let drawn = SimpleCanvas::spec_drawn_cell(
            p,
            g1[ip],
            Some(Color::Rgb { r: fg.r, g: fg.g, b: fg.b }),
        );
        assert(g2[ip] == drawn);
        assert(drawn.c != ' ');
    } else {
        lemma_circle_row_establishes(
            grid,
            size,
            default_cell,
            cx,
            cy,
            inner_sq,
            outer_sq,
            fg,
            x0,
            y,
            (n - 1) as nat,
            p,
        );
        lemma_circle_pixel_preserves(
            g1,
            size,
            default_cell,
            cx,
            cy,
            inner_sq,
            outer_sq,
            fg,
            x,
            y,
            p,
            Some(Color::Rgb { r: fg.r, g: fg.g, b: fg.b }),
        );
    }
}

/// A bounding-box pass that contains a fully-covered pixel `p` leaves
/// `p` reading the pure stroke color.
proof fn lemma_circle_rect_establishes(
    grid: Seq<Cell>,
    size: Vec2u,
    default_cell: Option<Cell>,
    cx: int,
    cy: int,
    inner_sq: int,
    outer_sq: int,
    fg: Rgb8,
    x0: int,
    nx: nat,
    y0: int,
    ny: nat,
    p: Vec2u,
)
    requires
        grid.len() == size.area(),
        size.area() <= u16::MAX,
        0 <= x0,
        x0 + nx <= u16::MAX + 1,
        0 <= y0,
        y0 + ny <= u16::MAX + 1,
        spec_pixel_bounds(size, p),
        x0 <= p.x < x0 + nx,
        y0 <= p.y < y0 + ny,
        spec_classify(cx, cy, p.x as int, p.y as int, inner_sq, outer_sq) == CircleClass::Full,
    ensures
        spec_reads_independent(
            spec_circle_rect(
                grid,
                size,
                default_cell,
                cx,
                cy,
                inner_sq,
                outer_sq,
                fg,
                x0,
                nx,
                y0,
                ny,
            ),
            size,
            p,
            Some(Color::Rgb { r: fg.r, g: fg.g, b: fg.b }),
        ),
    decreases ny,
{
    let g1 = spec_circle_rect(
        grid,
        size,
        default_cell,
        cx,
        cy,
        inner_sq,
        outer_sq,
        fg,
        x0,
        nx,
        y0,
        (ny - 1) as nat,
    );
    lemma_circle_rect_len(
        grid,
        size,
        default_cell,
        cx,
        cy,
        inner_sq,
        outer_sq,
        fg,
        x0,
        nx,
        y0,
        (ny - 1) as nat,
    );
    let y = y0 + ny - 1;
    if p.y == y {
        lemma_circle_row_establishes(
            g1,
            size,
            default_cell,
            cx,
            cy,
            inner_sq,
            outer_sq,
            fg,
            x0,
            y,
            nx,
            p,
        );
    } else {
        lemma_circle_rect_establishes(
            grid,
            size,
            default_cell,
            cx,
            cy,
            inner_sq,
            outer_sq,
            fg,
            x0,
            nx,
            y0,
            (ny - 1) as nat,
            p,
        );
        lemma_circle_row_preserves(
            g1,
            size,
            default_cell,
            cx,
            cy,
            inner_sq,
            outer_sq,
            fg,
            x0,
            y,
            nx,
            p,
            Some(Color::Rgb { r: fg.r, g: fg.g, b: fg.b }),
        );
    }
}

/// End-to-end coverage monotonicity, painted side: after the whole
/// bounding-box pass, a pixel of the box all four of whose corners lie
/// strictly inside the band reads back exactly the pure stroke color —
/// later steps can only touch its cell's other sub-pixel, which the
/// half-block encoding keeps independent once the pixel is painted.
pub proof fn lemma_circle_strict_band_read_back(
    grid: Seq<Cell>,
    size: Vec2u,
    default_cell: Option<Cell>,
    cx: int,
    cy: int,
    inner_sq: int,
    outer_sq: int,
    fg: Rgb8,
    x0: int,
    nx: nat,
    y0: int,
    ny: nat,
    p: Vec2u,
)
    requires
        grid.len() == size.area(),
        size.area() <= u16::MAX,
        0 <= x0,
        x0 + nx <= u16::MAX + 1,
        0 <= y0,
        y0 + ny <= u16::MAX + 1,
        spec_pixel_bounds(size, p),
        x0 <= p.x < x0 + nx,
        y0 <= p.y < y0 + ny,
        inner_sq < spec_dist_sq(cx, cy, 4 * p.x - 2, 4 * p.y - 2) < outer_sq,
        inner_sq < spec_dist_sq(cx, cy, 4 * p.x + 2, 4 * p.y - 2) < outer_sq,
        inner_sq < spec_dist_sq(cx, cy, 4 * p.x - 2, 4 * p.y + 2) < outer_sq,
        inner_sq < spec_dist_sq(cx, cy, 4 * p.x + 2, 4 * p.y + 2) < outer_sq,
    ensures
        spec_pixel_at_grid(
            spec_circle_rect(
                grid,
                size,
                default_cell,
                cx,
                cy,
                inner_sq,
                outer_sq,
                fg,
                x0,
                nx,
                y0,
                ny,
            ),
            size,
            p,
        ) == Some(Color::Rgb { r: fg.r, g: fg.g, b: fg.b }),
{
    lemma_circle_rect_establishes(
        grid,
        size,
        default_cell,
        cx,
        cy,
        inner_sq,
        outer_sq,
        fg,
        x0,
        nx,
        y0,
        ny,
        p,
    );
}

/// End-to-end coverage monotonicity, untouched side: after the whole
/// bounding-box pass, a pixel all four of whose corners lie strictly
/// outside the band — beyond the outer radius, or inside the hole —
/// reads back unchanged, provided its cell's sub-pixels are independent
/// (a bare-space cell with a latent background color can still have that
/// color surface when its sibling in-band pixel is painted).
pub proof fn lemma_circle_outside_band_read_unchanged(
    grid: Seq<Cell>,
    size: Vec2u,
    default_cell: Option<Cell>,
    cx: int,
    cy: int,
    inner_sq: int,
    outer_sq: int,
    fg: Rgb8,
    x0: int,
    nx: nat,
    y0: int,
    ny: nat,
    p: Vec2u,
)
    requires
        grid.len() == size.area(),
        size.area() <= u16::MAX,
        0 <= x0,
        x0 + nx <= u16::MAX + 1,
        0 <= y0,
        y0 + ny <= u16::MAX + 1,
        spec_pixel_bounds(size, p),
        sub_pixels_independent(grid[spec_grid_cell_index(size, p)]),
        (spec_dist_sq(cx, cy, 4 * p.x - 2, 4 * p.y - 2) > outer_sq && spec_dist_sq(
            cx,
            cy,
            4 * p.x + 2,
            4 * p.y - 2,
        ) > outer_sq && spec_dist_sq(cx, cy, 4 * p.x - 2, 4 * p.y + 2) > outer_sq && spec_dist_sq(
            cx,
            cy,
            4 * p.x + 2,
            4 * p.y + 2,
        ) > outer_sq) || (spec_dist_sq(cx, cy, 4 * p.x - 2, 4 * p.y - 2) < inner_sq
            && spec_dist_sq(cx, cy, 4 * p.x + 2, 4 * p.y - 2) < inner_sq && spec_dist_sq(
            cx,
            cy,
            4 * p.x - 2,
            4 * p.y + 2,
        ) < inner_sq && spec_dist_sq(cx, cy, 4 * p.x + 2, 4 * p.y + 2) < inner_sq),
    ensures
        spec_pixel_at_grid(
            spec_circle_rect(
                grid,
                size,
                default_cell,
                cx,
                cy,
                inner_sq,
                outer_sq,
                fg,
                x0,
                nx,
                y0,
                ny,
            ),
            size,
            p,
        ) == spec_pixel_at_grid(grid, size, p),
{
    crate::buffer::lemma_pos_to_index_to_pos(size, SimpleCanvas::spec_cell_pos(p));
    lemma_circle_rect_preserves(
        grid,
        size,
        default_cell,
        cx,
        cy,
        inner_sq,
        outer_sq,
        fg,
        x0,
        nx,
        y0,
        ny,
        p,
        spec_pixel_at_grid(grid, size, p),
    );
}


/// A pixel column or row whose corner coordinates stay within `span` of
/// the center lies inside the clamped bounding-box range on that axis.
proof fn lemma_bbox_contains_axis(c: int, span: int, v: u16)
    requires
        span >= 0,
        v < u16::MAX,
        c - span <= 4 * v - 2,
        4 * v + 2 <= c + span,
    ensures
        spec_bbox_lo(c, span) <= v < spec_bbox_hi(c, span),
{
    lemma_fundamental_div_mod_converse(4 * (v as int), 4, v as int, 0);
    lemma_fundamental_div_mod_converse(4 * (v as int + 1), 4, v as int + 1, 0);
    vstd::arithmetic::div_mod::lemma_div_is_ordered(c - span + 2, 4 * (v as int), 4);
    vstd::arithmetic::div_mod::lemma_div_is_ordered(4 * (v as int + 1), c + span + 2 + 3, 4);
}

/// A pixel of the canvas all four of whose corners lie strictly inside
/// the band is painted by the circle rasterizer with the pure stroke
/// color: such a pixel always lies within the bounding box the pass
/// covers, and nothing later overwrites its sub-pixel.
pub proof fn lemma_aa_circle_paints_strict_band_pixel(
    grid: Seq<Cell>,
    size: Vec2u,
    default_cell: Option<Cell>,
    pos: Vec2i,
    circle: Circle,
    p: Vec2u,
)
    requires
        grid.len() == size.area(),
        size.area() <= u16::MAX,
        2 * size.y <= u16::MAX,
        circle.radius > 0,
        circle.radius + circle.spec_outer_stroke() <= 0x10_0000,
        spec_pixel_bounds(size, p),
        spec_circle_inner_sq(circle) < spec_dist_sq(pos.x as int, pos.y as int, 4 * p.x - 2, 4 * p.y - 2)
            < spec_circle_outer_sq(circle),
        spec_circle_inner_sq(circle) < spec_dist_sq(pos.x as int, pos.y as int, 4 * p.x + 2, 4 * p.y - 2)
            < spec_circle_outer_sq(circle),
        spec_circle_inner_sq(circle) < spec_dist_sq(pos.x as int, pos.y as int, 4 * p.x - 2, 4 * p.y + 2)
            < spec_circle_outer_sq(circle),
        spec_circle_inner_sq(circle) < spec_dist_sq(pos.x as int, pos.y as int, 4 * p.x + 2, 4 * p.y + 2)
            < spec_circle_outer_sq(circle),
    ensures
        ({
            let cx = pos.x as int;
            let cy = pos.y as int;
            let span = spec_circle_span(circle);
            let tx = spec_bbox_lo(cx, span);
            let bx = spec_bbox_hi(cx, span);
            let ty = spec_bbox_lo(cy, span);
            let by = spec_bbox_hi(cy, span);
            spec_pixel_at_grid(
                spec_circle_rect(
                    grid,
                    size,
                    default_cell,
                    cx,
                    cy,
                    spec_circle_inner_sq(circle),
                    spec_circle_outer_sq(circle),
                    spec_rgb_or_white(circle.stroke_color),
                    tx,
                    spec_range_len(tx, bx),
                    ty,
                    spec_range_len(ty, by),
                ),
                size,
                p,
            ) == Some(
                Color::Rgb {
                    r: spec_rgb_or_white(circle.stroke_color).r,
                    g: spec_rgb_or_white(circle.stroke_color).g,
                    b: spec_rgb_or_white(circle.stroke_color).b,
                },
            )
        }),
{
    let cx = pos.x as int;
    let cy = pos.y as int;
    let span = spec_circle_span(circle);
    let outer_sq = spec_circle_outer_sq(circle);
    let px = 4 * (p.x as int);
    let py = 4 * (p.y as int);

    // Each corner within the outer radius bounds both coordinate offsets
    // by the span.
    assert(cx - span <= px - 2 && cy - span <= py - 2) by (nonlinear_arith)
        requires
            (px - 2 - cx) * (px - 2 - cx) + (py - 2 - cy) * (py - 2 - cy) <= span * span,
            span >= 0,
    ;
    assert(px + 2 <= cx + span && py + 2 <= cy + span) by (nonlinear_arith)
        requires
            (px + 2 - cx) * (px + 2 - cx) + (py + 2 - cy) * (py + 2 - cy) <= span * span,
            span >= 0,
    ;

    lemma_bbox_contains_axis(cx, span, p.x);
    lemma_bbox_contains_axis(cy, span, p.y);

    let tx = spec_bbox_lo(cx, span);
    let bx = spec_bbox_hi(cx, span);
    let ty = spec_bbox_lo(cy, span);
    let by = spec_bbox_hi(cy, span);
    lemma_circle_strict_band_read_back(
        grid,
        size,
        default_cell,
        cx,
        cy,
        spec_circle_inner_sq(circle),
        outer_sq,
        spec_rgb_or_white(circle.stroke_color),
        tx,
        spec_range_len(tx, bx),
        ty,
        spec_range_len(ty, by),
        p,
    );
}

} // verus!
