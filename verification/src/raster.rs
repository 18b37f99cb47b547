//! Rasterizers: solid and anti-aliased lines over the pixel grid.
//!
//! The solid line walks the integer grid points between two pixel
//! coordinates and paints each one opaquely; points off the canvas
//! (negative, or beyond the 16-bit coordinate range) are skipped.
//!
//! The anti-aliased line performs a Xiaolin-Wu traversal in exact
//! integer rationals: each column of the (normalized) line yields one
//! fully covered pixel when the line passes through a grid point, and
//! otherwise two pixels whose coverages are the complementary fractional
//! parts of the line's height there. Each covered pixel is blended
//! against the background read back from the canvas.

use vstd::prelude::*;
use vstd::arithmetic::div_mod::lemma_fundamental_div_mod_converse;

use crate::canvas::SimpleCanvas;
use crate::canvas::spec_background_rgb_grid;
use crate::canvas::spec_draw_grid;
use crate::cell::Cell;
use crate::color::Color;
use crate::color::Rgb8;
use crate::color::spec_blend_channel;
use crate::color::blend_rgb;
use crate::geom::Vec2i;
use crate::geom::Vec2u;

verus! {

/// The grid points that Bresenham's line algorithm visits from one point
/// to the other, in traversal order.
pub uninterp spec fn bresenham_path(start: (int, int), end: (int, int)) -> Seq<(int, int)>;

/// Relies on `line_drawing::Bresenham`: walks the grid points of the
/// line between the two points, including both endpoints, starting at
/// `start` and ending at `end`.
#[verifier::external_body]
fn bresenham_points(start: (i32, i32), end: (i32, i32)) -> (r: Vec<(i32, i32)>)
    requires
        -0x1000_0000 <= start.0 <= 0x1000_0000,
        -0x1000_0000 <= start.1 <= 0x1000_0000,
        -0x1000_0000 <= end.0 <= 0x1000_0000,
        -0x1000_0000 <= end.1 <= 0x1000_0000,
    ensures
        r@.map_values(|p: (i32, i32)| (p.0 as int, p.1 as int)) == bresenham_path(
            (start.0 as int, start.1 as int),
            (end.0 as int, end.1 as int),
        ),
        r@.len() >= 1,
        r@[0] == start,
        r@[r@.len() - 1] == end,
{
    line_drawing::Bresenham::new((start.0, start.1), (end.0, end.1)).collect()
}

/// The grid after drawing one possibly off-canvas point: negative
/// coordinates and coordinates beyond the 16-bit range are skipped.
pub open spec fn spec_draw_signed(
    grid: Seq<Cell>,
    size: Vec2u,
    p: (int, int),
    color: Option<Color>,
) -> Seq<Cell> {
    if 0 <= p.0 <= u16::MAX && 0 <= p.1 <= u16::MAX {
        spec_draw_grid(grid, size, Vec2u { x: p.0 as u16, y: p.1 as u16 }, color)
    } else {
        grid
    }
}

/// The grid after drawing the first `n` points of `pts` in order.
pub open spec fn spec_draw_points(
    grid: Seq<Cell>,
    size: Vec2u,
    pts: Seq<(int, int)>,
    color: Option<Color>,
    n: nat,
) -> Seq<Cell>
    decreases n,
{
    if n == 0 {
        grid
    } else {
        spec_draw_signed(
            spec_draw_points(grid, size, pts, color, (n - 1) as nat),
            size,
            pts[n - 1],
            color,
        )
    }
}

impl SimpleCanvas {
    /// Draws a solid line between two pixel positions in white.
    pub fn line(&mut self, start: Vec2i, end: Vec2i)
        requires
            old(self).wf(),
            -0x1000_0000 <= start.x <= 0x1000_0000,
            -0x1000_0000 <= start.y <= 0x1000_0000,
            -0x1000_0000 <= end.x <= 0x1000_0000,
            -0x1000_0000 <= end.y <= 0x1000_0000,
        ensures
            final(self).wf(),
            old(self).same_frame_state(*final(self)),
            final(self).grid() == {
                let path = bresenham_path((start.x as int, start.y as int), (end.x as int, end.y as int));
                spec_draw_points(old(self).grid(), old(self).cell_size(), path, Some(Color::White), path.len())
            },
    {
        self.line_with_color(start, end, Color::White);
    }

    /// Draws a solid line between two pixel positions in `color`.
    pub fn line_with_color(&mut self, start: Vec2i, end: Vec2i, color: Color)
        requires
            old(self).wf(),
            -0x1000_0000 <= start.x <= 0x1000_0000,
            -0x1000_0000 <= start.y <= 0x1000_0000,
            -0x1000_0000 <= end.x <= 0x1000_0000,
            -0x1000_0000 <= end.y <= 0x1000_0000,
        ensures
            final(self).wf(),
            old(self).same_frame_state(*final(self)),
            final(self).grid() == {
                let path = bresenham_path((start.x as int, start.y as int), (end.x as int, end.y as int));
                spec_draw_points(old(self).grid(), old(self).cell_size(), path, Some(color), path.len())
            },
    {
        self.draw_line(start, end, Some(color));
    }

    /// Traverses the line's grid points and draws each one; `None`
    /// erases along the line instead of painting it.
    pub fn draw_line(&mut self, start: Vec2i, end: Vec2i, color: Option<Color>)
        requires
            old(self).wf(),
            -0x1000_0000 <= start.x <= 0x1000_0000,
            -0x1000_0000 <= start.y <= 0x1000_0000,
            -0x1000_0000 <= end.x <= 0x1000_0000,
            -0x1000_0000 <= end.y <= 0x1000_0000,
        ensures
            final(self).wf(),
            old(self).same_frame_state(*final(self)),
            final(self).grid() == {
                let path = bresenham_path((start.x as int, start.y as int), (end.x as int, end.y as int));
                spec_draw_points(old(self).grid(), old(self).cell_size(), path, color, path.len())
            },
    {
        let points = bresenham_points((start.x, start.y), (end.x, end.y));
        let ghost path = bresenham_path(
            (start.x as int, start.y as int),
            (end.x as int, end.y as int),
        );
        let ghost grid0 = self.grid();
        let ghost size = self.cell_size();
        let n = points.len();
        let mut i: usize = 0;
        while i < n
            invariant
                self.wf(),
                old(self).same_frame_state(*self),
                size == self.cell_size(),
                n == points@.len(),
                i <= n,
                points@.map_values(|p: (i32, i32)| (p.0 as int, p.1 as int)) == path,
                self.grid() == spec_draw_points(grid0, size, path, color, i as nat),
            decreases n - i,
        {
            let (x, y) = points[i];
            proof {
                assert(path[i as int] == (points@.map_values(
                    |p: (i32, i32)| (p.0 as int, p.1 as int),
                ))[i as int]);
            }
            if x >= 0 && y >= 0 && x <= u16::MAX as i32 && y <= u16::MAX as i32 {
                self.draw(Vec2u { x: x as u16, y: y as u16 }, color);
            }
            i = i + 1;
        }
    }
}

/// Whether the traversal iterates over `y` instead of `x`: the line is
/// steeper than a diagonal.
pub open spec fn wu_steep(s: (int, int), e: (int, int)) -> bool {
    vstd::math::abs(e.1 - s.1) > vstd::math::abs(e.0 - s.0)
}

/// A point with its coordinates exchanged.
pub open spec fn wu_flip(p: (int, int)) -> (int, int) {
    (p.1, p.0)
}

/// The left endpoint of the normalized line: coordinates exchanged when
/// steep, endpoints exchanged so the traversal runs left to right.
pub open spec fn wu_start(s: (int, int), e: (int, int)) -> (int, int) {
    let s2 = if wu_steep(s, e) {
        wu_flip(s)
    } else {
        s
    };
    let e2 = if wu_steep(s, e) {
        wu_flip(e)
    } else {
        e
    };
    if s2.0 > e2.0 {
        e2
    } else {
        s2
    }
}

/// The right endpoint of the normalized line.
pub open spec fn wu_end(s: (int, int), e: (int, int)) -> (int, int) {
    let s2 = if wu_steep(s, e) {
        wu_flip(s)
    } else {
        s
    };
    let e2 = if wu_steep(s, e) {
        wu_flip(e)
    } else {
        e
    };
    if s2.0 > e2.0 {
        s2
    } else {
        e2
    }
}

/// The denominator of the traversal's coverage fractions for a
/// normalized horizontal extent of `dx` quarter-pixels: heights are
/// rationals over four times that extent, or over four for a single
/// column.
pub open spec fn wu_den_of(dx: int) -> int {
    if dx == 0 {
        4
    } else {
        4 * dx
    }
}

/// The denominator of the traversal's coverage fractions.
pub open spec fn wu_den(s: (int, int), e: (int, int)) -> int {
    wu_den_of(wu_end(s, e).0 - wu_start(s, e).0)
}

/// The pixel a quarter-pixel coordinate rounds to: to the nearest, and
/// half away from zero.
pub open spec fn wu_round(q: int) -> int {
    if q >= 0 {
        (q + 2) / 4
    } else {
        -(((-q) + 2) / 4)
    }
}

/// The height of the normalized line at pixel column `k`, in quarter
/// pixels, as the exact rational `num / wu_den_of(dx)`: the starting
/// height `y0 / 4` plus `k` steps of the gradient `dy / dx`.
pub open spec fn wu_num(y0: int, dy: int, dx: int, k: int) -> int {
    if dx == 0 {
        y0
    } else {
        y0 * dx + 4 * k * dy
    }
}

/// The entries of column `k` of the traversal: the pixel the line's
/// height truncates to, fully covered when the height is integral;
/// otherwise that pixel and the one below it, covered by the
/// complementary fractional parts. Coverages are numerators over
/// `wu_den_of(dx)`; a steep line exchanges the coordinates back.
pub open spec fn wu_col(
    xs: int,
    y0: int,
    dy: int,
    dx: int,
    steep: bool,
    k: int,
) -> Seq<((int, int), int)> {
    let num = wu_num(y0, dy, dx, k);
    let den = wu_den_of(dx);
    let fp = num % den;
    let yfloor = num / den;
    let ytrunc = if fp == 0 || num >= 0 {
        yfloor
    } else {
        yfloor + 1
    };
    let x = xs + k;
    if fp == 0 {
        seq![(if steep { (ytrunc, x) } else { (x, ytrunc) }, den)]
    } else {
        seq![
            (if steep { (ytrunc, x) } else { (x, ytrunc) }, den - fp),
            (if steep { (ytrunc + 1, x) } else { (x, ytrunc + 1) }, fp),
        ]
    }
}

/// The entries of the first `n` columns, in traversal order.
pub open spec fn wu_cols(
    xs: int,
    y0: int,
    dy: int,
    dx: int,
    steep: bool,
    n: nat,
) -> Seq<((int, int), int)>
    decreases n,
{
    if n == 0 {
        Seq::empty()
    } else {
        wu_cols(xs, y0, dy, dx, steep, (n - 1) as nat) + wu_col(
            xs,
            y0,
            dy,
            dx,
            steep,
            n - 1,
        )
    }
}

/// The number of pixel columns the traversal covers: from the rounded
/// left endpoint through the rounded right endpoint.
pub open spec fn wu_ncols(s: (int, int), e: (int, int)) -> nat {
    let xs = wu_round(wu_start(s, e).0);
    let xe = wu_round(wu_end(s, e).0);
    if xe + 1 >= xs {
        (xe + 1 - xs) as nat
    } else {
        0
    }
}

/// The full traversal of the anti-aliased line from `s` to `e`, both in
/// quarter-pixel units: every covered pixel with its coverage numerator
/// over [`wu_den`].
pub open spec fn wu_entries(s: (int, int), e: (int, int)) -> Seq<((int, int), int)> {
    let st = wu_start(s, e);
    let en = wu_end(s, e);
    wu_cols(
        wu_round(st.0),
        st.1,
        en.1 - st.1,
        en.0 - st.0,
        wu_steep(s, e),
        wu_ncols(s, e),
    )
}

/// Every coverage numerator lies in `(0, wu_den_of(dx)]`.
pub proof fn lemma_wu_cols_coverage_bounds(
    xs: int,
    y0: int,
    dy: int,
    dx: int,
    steep: bool,
    n: nat,
)
    requires
        dx >= 0,
    ensures
        forall|i: int|
            0 <= i < wu_cols(xs, y0, dy, dx, steep, n).len() ==> 0 < #[trigger] wu_cols(
                xs,
                y0,
                dy,
                dx,
                steep,
                n,
            )[i].1 <= wu_den_of(dx),
    decreases n,
{
    let den = wu_den_of(dx);
    if n > 0 {
        lemma_wu_cols_coverage_bounds(xs, y0, dy, dx, steep, (n - 1) as nat);
        let num = wu_num(y0, dy, dx, n - 1);
        vstd::arithmetic::div_mod::lemma_mod_bound(num, den);
        let prev = wu_cols(xs, y0, dy, dx, steep, (n - 1) as nat);
        let col = wu_col(xs, y0, dy, dx, steep, n - 1);
        let whole = wu_cols(xs, y0, dy, dx, steep, n);
        assert(whole == prev + col);
        assert forall|i: int| 0 <= i < whole.len() implies 0 < #[trigger] whole[i].1 <= den by {
            if i < prev.len() {
                assert(whole[i] == prev[i]);
            } else {
                assert(whole[i] == col[i - prev.len()]);
            }
        }
    }
}

/// On an axis-aligned line starting on the pixel grid the height is
/// integral in every column, so every traversed pixel is fully covered:
/// one entry per column, each with the full coverage fraction.
pub proof fn lemma_wu_cols_axis_aligned(xs: int, y0: int, dx: int, steep: bool, n: nat)
    requires
        dx >= 0,
        y0 % 4 == 0,
    ensures
        wu_cols(xs, y0, 0, dx, steep, n).len() == n,
        forall|i: int|
            0 <= i < n ==> #[trigger] wu_cols(xs, y0, 0, dx, steep, n)[i] == (
                if steep {
                    (y0 / 4, xs + i)
                } else {
                    (xs + i, y0 / 4)
                },
                wu_den_of(dx),
            ),
    decreases n,
{
    if n > 0 {
        lemma_wu_cols_axis_aligned(xs, y0, dx, steep, (n - 1) as nat);
        let k = n - 1;
        let num = wu_num(y0, 0, dx, k);
        let den = wu_den_of(dx);
        let m = y0 / 4;
        vstd::arithmetic::div_mod::lemma_fundamental_div_mod(y0, 4);
        assert(y0 == 4 * m);
        if dx == 0 {
            lemma_fundamental_div_mod_converse(num, den, m, 0);
        } else {
            assert(num == y0 * dx);
            assert(num == m * (4 * dx)) by (nonlinear_arith)
                requires
                    num == (4 * m) * dx,
            ;
            lemma_fundamental_div_mod_converse(num, den, m, 0);
        }
        assert(wu_col(xs, y0, 0, dx, steep, k) =~= seq![
            (if steep { (m, xs + k) } else { (xs + k, m) }, den),
        ]);
    }
}

/// An axis-aligned anti-aliased line that starts on the pixel grid
/// covers every traversed pixel fully: each of its entries carries the
/// full coverage fraction.
pub proof fn lemma_wu_axis_aligned_full_coverage(s: (int, int), e: (int, int))
    requires
        s.0 == e.0 || s.1 == e.1,
        wu_start(s, e).1 % 4 == 0,
    ensures
        wu_entries(s, e).len() == wu_ncols(s, e),
        forall|i: int|
            0 <= i < wu_entries(s, e).len() ==> #[trigger] wu_entries(s, e)[i].1 == wu_den(s, e),
{
    let st = wu_start(s, e);
    let en = wu_end(s, e);
    assert(en.1 == st.1);
    lemma_wu_cols_axis_aligned(wu_round(st.0), st.1, en.0 - st.0, wu_steep(s, e), wu_ncols(s, e));
}

/// The color that paints a pixel covered `cov/den` by `fg` over `bg`.
pub open spec fn spec_blend_color(bg: Rgb8, fg: Rgb8, cov: int, den: int) -> Color {
    Color::Rgb {
        r: spec_blend_channel(bg.r, fg.r, cov, den) as u8,
        g: spec_blend_channel(bg.g, fg.g, cov, den) as u8,
        b: spec_blend_channel(bg.b, fg.b, cov, den) as u8,
    }
}

/// The grid after blending one covered pixel: the coverage fraction of
/// `fg` over the background read back at that pixel; positions off the
/// addressable range are skipped.
pub open spec fn spec_blend_draw(
    grid: Seq<Cell>,
    size: Vec2u,
    default_cell: Option<Cell>,
    p: (int, int),
    fg: Rgb8,
    cov: int,
    den: int,
) -> Seq<Cell> {
    if 0 <= p.0 <= u16::MAX && 0 <= p.1 <= u16::MAX {
        let pos = Vec2u { x: p.0 as u16, y: p.1 as u16 };
        let bg = spec_background_rgb_grid(grid, size, default_cell, pos);
        spec_draw_grid(grid, size, pos, Some(spec_blend_color(bg, fg, cov, den)))
    } else {
        grid
    }
}

/// The grid after blending the first `n` traversal entries in order.
pub open spec fn spec_draw_wu(
    grid: Seq<Cell>,
    size: Vec2u,
    default_cell: Option<Cell>,
    entries: Seq<((int, int), int)>,
    den: int,
    fg: Rgb8,
    n: nat,
) -> Seq<Cell>
    decreases n,
{
    if n == 0 {
        grid
    } else {
        spec_blend_draw(
            spec_draw_wu(grid, size, default_cell, entries, den, fg, (n - 1) as nat),
            size,
            default_cell,
            entries[n - 1].0,
            fg,
            entries[n - 1].1,
            den,
        )
    }
}

/// The Xiaolin-Wu traversal of the line from `start` to `end`, both in
/// quarter-pixel units: every covered pixel with its coverage numerator,
/// and the common denominator.
fn wu_points(start: (i32, i32), end: (i32, i32)) -> (r: (Vec<((i64, i64), u32)>, u32))
    requires
        -0x10_0000 <= start.0 <= 0x10_0000,
        -0x10_0000 <= start.1 <= 0x10_0000,
        -0x10_0000 <= end.0 <= 0x10_0000,
        -0x10_0000 <= end.1 <= 0x10_0000,
    ensures
        r.1 == wu_den((start.0 as int, start.1 as int), (end.0 as int, end.1 as int)),
        4 <= r.1 <= 0x80_0000,
        r.0@.map_values(|entry: ((i64, i64), u32)| (((entry.0).0 as int, (entry.0).1 as int), entry.1 as int))
            == wu_entries((start.0 as int, start.1 as int), (end.0 as int, end.1 as int)),
{
    let ghost gs = (start.0 as int, start.1 as int);
    let ghost ge = (end.0 as int, end.1 as int);
    let steep = abs_i32(end.1 - start.1) > abs_i32(end.0 - start.0);
    let (mut s, mut e) = if steep {
        ((start.1, start.0), (end.1, end.0))
    } else {
        (start, end)
    };
    if s.0 > e.0 {
        let t = s;
        s = e;
        e = t;
    }
    proof {
        assert((s.0 as int, s.1 as int) == wu_start(gs, ge));
        assert((e.0 as int, e.1 as int) == wu_end(gs, ge));
    }
    let y0 = s.1;
    let dx = e.0 - s.0;
    let dy = e.1 - s.1;
    let den: u32 = if dx == 0 {
        4
    } else {
        4 * (dx as u32)
    };
    let xs = round_quarters(s.0);
    let xe = round_quarters(e.0);
    let n: u32 = if xe >= xs {
        (xe - xs) as u32 + 1
    } else {
        0
    };
    let ghost gden = wu_den(gs, ge);
    let mut out: Vec<((i64, i64), u32)> = Vec::new();
    let yfloor = crate::circle::floor4(y0 as i64);
    let rem: i64 = y0 as i64 - 4 * yfloor;
    proof {
        vstd::arithmetic::div_mod::lemma_fundamental_div_mod(y0 as int, 4);
        assert(0 <= rem < 4);
    }
    let mut y_int: i64 = yfloor;
    proof {
        assert(0 <= rem * dx <= 4 * 0x20_0000) by (nonlinear_arith)
            requires
                0 <= rem < 4,
                0 <= dx <= 0x20_0000,
        ;
    }
    let mut fnum: i64 = if dx == 0 {
        rem
    } else {
        rem * (dx as i64)
    };
    let ghost yf0 = y_int as int;
    let mut k: u32 = 0;
    proof {
        let num0 = wu_num(y0 as int, dy as int, dx as int, 0);
        if dx == 0 {
            lemma_fundamental_div_mod_converse(y0 as int, 4, yfloor as int, rem as int);
        } else {
            assert(num0 == y0 * dx) by (nonlinear_arith)
                requires
                    num0 == y0 * dx + 4 * 0 * dy,
            ;
            assert(num0 == yfloor * (4 * dx) + rem * dx && 0 <= rem * dx < 4 * dx)
                by (nonlinear_arith)
                requires
                    num0 == y0 * dx,
                    y0 == 4 * yfloor + rem,
                    0 <= rem < 4,
                    0 < dx,
            ;
            lemma_fundamental_div_mod_converse(num0, gden, yfloor as int, rem * dx);
        }
    }
    while k < n
        invariant
            0 <= k <= n,
            n == if wu_round(wu_end(gs, ge).0) >= wu_round(wu_start(gs, ge).0) {
                wu_round(wu_end(gs, ge).0) - wu_round(wu_start(gs, ge).0) + 1
            } else {
                0
            },
            n <= 0x10_0001,
            0 <= dx <= 0x20_0000,
            -0x20_0000 <= dy <= 0x20_0000,
            dx > 0 ==> vstd::math::abs(dy as int) <= dx,
            dx == 0 ==> dy == 0 && n <= 1,
            -0x10_0000 <= y0 <= 0x10_0000,
            den == gden,
            gden == wu_den_of(dx as int),
            0 <= fnum < den,
            -0x8_0001 <= yf0 <= 0x8_0000,
            yf0 - k <= y_int <= yf0 + k,
            k < n ==> y_int == wu_num(y0 as int, dy as int, dx as int, k as int) / gden,
            k < n ==> fnum == wu_num(y0 as int, dy as int, dx as int, k as int) % gden,
            out@.map_values(|entry: ((i64, i64), u32)| (((entry.0).0 as int, (entry.0).1 as int), entry.1 as int))
                == wu_cols(xs as int, y0 as int, dy as int, dx as int, steep, k as nat),
            steep == wu_steep(gs, ge),
            xs as int == wu_round(wu_start(gs, ge).0),
            -0x8_0001 <= xs <= 0x8_0001,
            y0 as int == wu_start(gs, ge).1,
            dy as int == wu_end(gs, ge).1 - wu_start(gs, ge).1,
            dx as int == wu_end(gs, ge).0 - wu_start(gs, ge).0,
        decreases n - k,
    {
        let ghost num = wu_num(y0 as int, dy as int, dx as int, k as int);
        let ghost prev_mapped = out@.map_values(
            |entry: ((i64, i64), u32)| (((entry.0).0 as int, (entry.0).1 as int), entry.1 as int),
        );
        proof {
            assert(num == y_int * gden + fnum) by {
                vstd::arithmetic::div_mod::lemma_fundamental_div_mod(num, gden);
            }
            assert(y_int >= 0 ==> num >= 0) by (nonlinear_arith)
                requires
                    num == y_int * gden + fnum,
                    gden >= 1,
                    0 <= fnum < gden,
            ;
            assert(y_int < 0 ==> num < 0) by (nonlinear_arith)
                requires
                    num == y_int * gden + fnum,
                    gden >= 1,
                    0 <= fnum < gden,
            ;
        }
        let ytrunc: i64 = if fnum == 0 || y_int >= 0 {
            y_int
        } else {
            y_int + 1
        };
        let x: i64 = xs as i64 + k as i64;
        if fnum == 0 {
            let point = if steep {
                (ytrunc, x)
            } else {
                (x, ytrunc)
            };
            out.push((point, den));
        } else {
            let cov_upper: u32 = den - (fnum as u32);
            let point_upper = if steep {
                (ytrunc, x)
            } else {
                (x, ytrunc)
            };
            let point_lower = if steep {
                (ytrunc + 1, x)
            } else {
                (x, ytrunc + 1)
            };
            out.push((point_upper, cov_upper));
            out.push((point_lower, fnum as u32));
        }
        proof {
            assert(out@.map_values(
                |entry: ((i64, i64), u32)| (((entry.0).0 as int, (entry.0).1 as int), entry.1 as int),
            ) =~= prev_mapped + wu_col(xs as int, y0 as int, dy as int, dx as int, steep, k as int));
            assert(wu_cols(xs as int, y0 as int, dy as int, dx as int, steep, (k + 1) as nat)
                == wu_cols(xs as int, y0 as int, dy as int, dx as int, steep, k as nat) + wu_col(
                xs as int,
                y0 as int,
                dy as int,
                dx as int,
                steep,
                k as int,
            ));
        }
        if k + 1 < n {
            let ghost num_next = wu_num(y0 as int, dy as int, dx as int, k as int + 1);
            let ghost y_old = y_int as int;
            proof {
                assert(num_next == num + 4 * dy) by (nonlinear_arith)
                    requires
                        dx != 0,
                        num == y0 * dx + 4 * (k as int) * dy,
                        num_next == y0 * dx + 4 * (k as int + 1) * dy,
                ;
            }
            let fsum: i64 = fnum + 4 * (dy as i64);
            if fsum >= den as i64 {
                proof {
                    assert(num_next == (y_old + 1) * gden + (fsum - gden)) by (nonlinear_arith)
                        requires
                            num_next == y_old * gden + fsum,
                    ;
                    lemma_fundamental_div_mod_converse(num_next, gden, y_old + 1, fsum - gden);
                }
                fnum = fsum - den as i64;
                y_int = y_int + 1;
            } else if fsum < 0 {
                proof {
                    assert(num_next == (y_old - 1) * gden + (fsum + gden)) by (nonlinear_arith)
                        requires
                            num_next == y_old * gden + fsum,
                    ;
                    lemma_fundamental_div_mod_converse(num_next, gden, y_old - 1, fsum + gden);
                }
                fnum = fsum + den as i64;
                y_int = y_int - 1;
            } else {
                proof {
                    lemma_fundamental_div_mod_converse(num_next, gden, y_old, fsum as int);
                }
                fnum = fsum;
            }
        }
        k = k + 1;
    }
    proof {
        assert(out@.map_values(
            |entry: ((i64, i64), u32)| (((entry.0).0 as int, (entry.0).1 as int), entry.1 as int),
        ) == wu_entries(gs, ge));
    }
    (out, den)
}

/// The pixel a quarter-pixel coordinate rounds to: to the nearest, and
/// half away from zero.
fn round_quarters(q: i32) -> (r: i32)
    requires
        -0x20_0000 <= q <= 0x20_0000,
    ensures
        r == wu_round(q as int),
{
    if q >= 0 {
        (((q as u32) + 2) / 4) as i32
    } else {
        -((((-q) as u32 + 2) / 4) as i32)
    }
}

/// The absolute value of a bounded signed integer.
fn abs_i32(x: i32) -> (r: i32)
    requires
        -0x4000_0000 <= x <= 0x4000_0000,
    ensures
        r == vstd::math::abs(x as int),
{
    if x < 0 {
        -x
    } else {
        x
    }
}

/// The stroke color an anti-aliased drawing call uses when none is
/// given: white.
pub open spec fn spec_rgb_or_white(color: Option<Rgb8>) -> Rgb8 {
    match color {
        Some(c) => c,
        None => Rgb8 { r: 255, g: 255, b: 255 },
    }
}

impl SimpleCanvas {
    /// Draws an anti-aliased line in white between two positions given
    /// in quarter-pixel units.
    pub fn aa_line(&mut self, start: Vec2i, end: Vec2i)
        requires
            old(self).wf(),
            -0x10_0000 <= start.x <= 0x10_0000,
            -0x10_0000 <= start.y <= 0x10_0000,
            -0x10_0000 <= end.x <= 0x10_0000,
            -0x10_0000 <= end.y <= 0x10_0000,
        ensures
            final(self).wf(),
            old(self).same_frame_state(*final(self)),
            final(self).grid() == {
                let s = (start.x as int, start.y as int);
                let e = (end.x as int, end.y as int);
                spec_draw_wu(
                    old(self).grid(),
                    old(self).cell_size(),
                    old(self).spec_renderer().spec_buffer().spec_default_cell(),
                    wu_entries(s, e),
                    wu_den(s, e),
                    Rgb8 { r: 255, g: 255, b: 255 },
                    wu_entries(s, e).len(),
                )
            },
    {
        self.draw_aa_line(start, end, None);
    }

    /// Draws an anti-aliased line in `color` between two positions given
    /// in quarter-pixel units.
    pub fn aa_line_with_color(&mut self, start: Vec2i, end: Vec2i, color: Rgb8)
        requires
            old(self).wf(),
            -0x10_0000 <= start.x <= 0x10_0000,
            -0x10_0000 <= start.y <= 0x10_0000,
            -0x10_0000 <= end.x <= 0x10_0000,
            -0x10_0000 <= end.y <= 0x10_0000,
        ensures
            final(self).wf(),
            old(self).same_frame_state(*final(self)),
            final(self).grid() == {
                let s = (start.x as int, start.y as int);
                let e = (end.x as int, end.y as int);
                spec_draw_wu(
                    old(self).grid(),
                    old(self).cell_size(),
                    old(self).spec_renderer().spec_buffer().spec_default_cell(),
                    wu_entries(s, e),
                    wu_den(s, e),
                    color,
                    wu_entries(s, e).len(),
                )
            },
    {
        self.draw_aa_line(start, end, Some(color));
    }

    /// Traverses the anti-aliased line and blends each covered pixel
    /// against the background read back from the canvas.
    pub fn draw_aa_line(&mut self, start: Vec2i, end: Vec2i, color: Option<Rgb8>)
        requires
            old(self).wf(),
            -0x10_0000 <= start.x <= 0x10_0000,
            -0x10_0000 <= start.y <= 0x10_0000,
            -0x10_0000 <= end.x <= 0x10_0000,
            -0x10_0000 <= end.y <= 0x10_0000,
        ensures
            final(self).wf(),
            old(self).same_frame_state(*final(self)),
            final(self).grid() == {
                let s = (start.x as int, start.y as int);
                let e = (end.x as int, end.y as int);
                spec_draw_wu(
                    old(self).grid(),
                    old(self).cell_size(),
                    old(self).spec_renderer().spec_buffer().spec_default_cell(),
                    wu_entries(s, e),
                    wu_den(s, e),
                    spec_rgb_or_white(color),
                    wu_entries(s, e).len(),
                )
            },
    {
        let fg = match color {
            Some(c) => c,
            None => Rgb8 { r: 255, g: 255, b: 255 },
        };
        let ghost gs = (start.x as int, start.y as int);
        let ghost ge = (end.x as int, end.y as int);
        let (entries, den) = wu_points((start.x, start.y), (end.x, end.y));
        let ghost spec_entries = wu_entries(gs, ge);
        let ghost grid0 = self.grid();
        let ghost size = self.cell_size();
        let ghost dc = self.spec_renderer().spec_buffer().spec_default_cell();
        proof {
            lemma_wu_cols_coverage_bounds(
                wu_round(wu_start(gs, ge).0),
                wu_start(gs, ge).1,
                wu_end(gs, ge).1 - wu_start(gs, ge).1,
                wu_end(gs, ge).0 - wu_start(gs, ge).0,
                wu_steep(gs, ge),
                wu_ncols(gs, ge),
            );
        }
        let n = entries.len();
        let mut i: usize = 0;
        while i < n
            invariant
                self.wf(),
                old(self).same_frame_state(*self),
                size == self.cell_size(),
                dc == self.spec_renderer().spec_buffer().spec_default_cell(),
                n == entries@.len(),
                i <= n,
                4 <= den <= 0x80_0000,
                den == wu_den(gs, ge),
                entries@.map_values(|entry: ((i64, i64), u32)| (((entry.0).0 as int, (entry.0).1 as int), entry.1 as int))
                    == spec_entries,
                forall|j: int| 0 <= j < spec_entries.len() ==> 0 < #[trigger] spec_entries[j].1 <= den,
                self.grid() == spec_draw_wu(grid0, size, dc, spec_entries, den as int, fg, i as nat),
            decreases n - i,
        {
            let ((px, py), cov) = entries[i];
            proof {
                assert(spec_entries[i as int] == (entries@.map_values(
                    |entry: ((i64, i64), u32)| (((entry.0).0 as int, (entry.0).1 as int), entry.1 as int),
                ))[i as int]);
            }
            if px >= 0 && py >= 0 && px <= u16::MAX as i64 && py <= u16::MAX as i64 {
                let pos = Vec2u { x: px as u16, y: py as u16 };
                let bg = self.background_rgb_at_or_default(pos);
                let blended = blend_rgb(bg, fg, cov, den);
                self.draw(pos, Some(blended.to_color()));
            }
            i = i + 1;
        }
    }
}

/// On an axis-aligned line the anti-aliased traversal degenerates to
/// opaque drawing: every covered pixel is painted with the pure stroke
/// color, whatever background it is blended against.
pub proof fn lemma_axis_aligned_aa_line_is_opaque(
    grid: Seq<Cell>,
    size: Vec2u,
    default_cell: Option<Cell>,
    s: (int, int),
    e: (int, int),
    fg: Rgb8,
    n: nat,
)
    requires
        s.0 == e.0 || s.1 == e.1,
        wu_start(s, e).1 % 4 == 0,
        n <= wu_entries(s, e).len(),
    ensures
        spec_draw_wu(grid, size, default_cell, wu_entries(s, e), wu_den(s, e), fg, n)
            == spec_draw_points(
            grid,
            size,
            wu_entries(s, e).map_values(|entry: ((int, int), int)| entry.0),
            Some(Color::Rgb { r: fg.r, g: fg.g, b: fg.b }),
            n,
        ),
    decreases n,
{
    lemma_wu_axis_aligned_full_coverage(s, e);
    let entries = wu_entries(s, e);
    let den = wu_den(s, e);
    let points = entries.map_values(|entry: ((int, int), int)| entry.0);
    if n > 0 {
        lemma_axis_aligned_aa_line_is_opaque(grid, size, default_cell, s, e, fg, (n - 1) as nat);
        let g = spec_draw_wu(grid, size, default_cell, entries, den, fg, (n - 1) as nat);
        let p = entries[n - 1].0;
        assert(entries[n - 1].1 == den);
        assert(points[n - 1] == p);
        if 0 <= p.0 <= u16::MAX && 0 <= p.1 <= u16::MAX {
            let pos = Vec2u { x: p.0 as u16, y: p.1 as u16 };
            let bg = spec_background_rgb_grid(g, size, default_cell, pos);
            crate::color::lemma_blend_extremes(bg.r, fg.r, den);
            crate::color::lemma_blend_extremes(bg.g, fg.g, den);
            crate::color::lemma_blend_extremes(bg.b, fg.b, den);
            assert(spec_blend_color(bg, fg, den, den) == (Color::Rgb { r: fg.r, g: fg.g, b: fg.b }));
        }
    }
}

} // verus!
