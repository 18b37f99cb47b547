//! The drawing surface: a cell grid addressed at doubled vertical
//! resolution.
//!
//! A pixel position `(x, y)` lands in cell `(x, y/2)`; an even `y`
//! addresses the cell's top sub-pixel, an odd `y` its bottom one.
//! Drawing with a negative or out-of-bounds coordinate is a silent
//! no-op: off-canvas draws are expected during clamped animation.

use vstd::prelude::*;

use crate::buffer::spec_in_bounds;
use crate::buffer::spec_pos_to_index;
use crate::buffer::lemma_pos_to_index_to_pos;
use crate::cell::Cell;
use crate::cell::bottom_of;
use crate::cell::spec_set_bottom;
use crate::cell::spec_set_top;
use crate::cell::sub_pixels_independent;
use crate::cell::top_of;
use crate::color::Color;
use crate::color::Rgb8;
use crate::geom::Vec2i;
use crate::geom::Vec2u;
use crate::renderer::Renderer;
use crate::renderer::TermCommand;

verus! {

/// Whether a pixel position lies on a canvas of `size` cells: the pixel
/// grid is as wide as the cell grid and twice as tall.
pub open spec fn spec_pixel_bounds(size: Vec2u, pos: Vec2u) -> bool {
    pos.x < size.x && pos.y < 2 * size.y
}

/// The color shown at a pixel of a cell grid: the matching half of its
/// cell, or nothing when the pixel is off-canvas or its half is unset.
pub open spec fn spec_pixel_at_grid(grid: Seq<Cell>, size: Vec2u, pos: Vec2u) -> Option<Color> {
    if !spec_pixel_bounds(size, pos) {
        None
    } else {
        let cell = grid[spec_pos_to_index(size, SimpleCanvas::spec_cell_pos(pos))];
        if pos.y % 2 == 0 {
            top_of(cell)
        } else {
            bottom_of(cell)
        }
    }
}

/// The grid after drawing `color` at pixel `pos`: the one touched cell
/// rewritten through the half-block transition table, everything else
/// untouched; off-canvas leaves the grid as it is.
pub open spec fn spec_draw_grid(
    grid: Seq<Cell>,
    size: Vec2u,
    pos: Vec2u,
    color: Option<Color>,
) -> Seq<Cell> {
    if spec_pixel_bounds(size, pos) {
        let i = spec_pos_to_index(size, SimpleCanvas::spec_cell_pos(pos));
        grid.update(i, SimpleCanvas::spec_drawn_cell(pos, grid[i], color))
    } else {
        grid
    }
}

/// The RGB background to blend against at a pixel of a cell grid: the
/// pixel's own color if shown, else the background of the default cell;
/// anything that is not a plain RGB value falls back to black.
pub open spec fn spec_background_rgb_grid(
    grid: Seq<Cell>,
    size: Vec2u,
    default_cell: Option<Cell>,
    pos: Vec2u,
) -> Rgb8 {
    let color = if spec_pixel_at_grid(grid, size, pos) is Some {
        spec_pixel_at_grid(grid, size, pos)
    } else {
        match default_cell {
            Some(cell) => cell.style.background_color,
            None => None,
        }
    };
    match color {
        Some(Color::Rgb { r, g, b }) => Rgb8 { r, g, b },
        _ => Rgb8 { r: 0, g: 0, b: 0 },
    }
}

/// The public drawing surface: owns the renderer and translates pixel
/// coordinates to cells and sub-pixels.
pub struct SimpleCanvas {
    renderer: Renderer,
}

impl SimpleCanvas {
    pub closed spec fn spec_renderer(self) -> Renderer {
        self.renderer
    }

    /// Well-formed: the buffer is, and the doubled height still fits a
    /// 16-bit coordinate.
    pub open spec fn wf(self) -> bool {
        &&& self.spec_renderer().wf()
        &&& 2 * self.spec_renderer().spec_size().y <= u16::MAX
    }

    /// The size of the underlying cell grid.
    pub open spec fn cell_size(self) -> Vec2u {
        self.spec_renderer().spec_size()
    }

    /// The size of the pixel grid: as wide as the cell grid, twice as
    /// tall.
    pub open spec fn pixel_size(self) -> Vec2u {
        Vec2u { x: self.cell_size().x, y: (2 * self.cell_size().y) as u16 }
    }

    /// The cell grid being drawn into.
    pub open spec fn grid(self) -> Seq<Cell> {
        self.spec_renderer().grid()
    }

    /// Whether a pixel position lies on the canvas.
    pub open spec fn pixel_in_bounds(self, pos: Vec2u) -> bool {
        spec_pixel_bounds(self.cell_size(), pos)
    }

    /// The cell a pixel position lands in.
    pub open spec fn spec_cell_pos(pos: Vec2u) -> Vec2u {
        Vec2u { x: pos.x, y: pos.y / 2 }
    }

    /// The grid index of the cell a pixel position lands in.
    pub open spec fn spec_cell_index(self, pos: Vec2u) -> int {
        spec_pos_to_index(self.cell_size(), Self::spec_cell_pos(pos))
    }

    /// The color shown at a pixel: the matching half of its cell, or
    /// nothing when the pixel is off-canvas or its half is unset.
    pub open spec fn spec_pixel_at(self, pos: Vec2u) -> Option<Color> {
        spec_pixel_at_grid(self.grid(), self.cell_size(), pos)
    }

    /// The cell stored after drawing `color` at pixel `pos` into `cell`.
    pub open spec fn spec_drawn_cell(pos: Vec2u, cell: Cell, color: Option<Color>) -> Cell {
        if pos.y % 2 == 0 {
            spec_set_top(cell, color)
        } else {
            spec_set_bottom(cell, color)
        }
    }

    /// The grid after drawing `color` at pixel `pos`: the one touched
    /// cell rewritten, everything else untouched; off-canvas leaves the
    /// grid as it is.
    pub open spec fn spec_draw(self, pos: Vec2u, color: Option<Color>) -> Seq<Cell> {
        spec_draw_grid(self.grid(), self.cell_size(), pos, color)
    }

    /// Everything `draw` leaves untouched besides the grid.
    pub open spec fn same_frame_state(self, other: SimpleCanvas) -> bool {
        &&& other.cell_size() == self.cell_size()
        &&& other.spec_renderer().last_shown() == self.spec_renderer().last_shown()
        &&& other.spec_renderer().spec_redraw() == self.spec_renderer().spec_redraw()
        &&& other.spec_renderer().spec_buffer().spec_default_cell()
            == self.spec_renderer().spec_buffer().spec_default_cell()
    }

    /// A canvas over a fresh buffer of `size` cells.
    pub fn from_size(size: Vec2u) -> (canvas: SimpleCanvas)
        requires
            size.x * size.y <= u16::MAX,
            2 * size.y <= u16::MAX,
        ensures
            canvas.wf(),
            canvas.cell_size() == size,
            forall|i: int| 0 <= i < canvas.grid().len() ==> canvas.grid()[i] == Cell::blank(),
    {
        SimpleCanvas { renderer: Renderer::from_size(size) }
    }

    /// The canvas size in cells: columns by terminal rows.
    pub fn grid_size(&self) -> (s: Vec2u)
        ensures
            s == self.cell_size(),
    {
        self.renderer.size()
    }

    /// The canvas size in pixels: cell columns by doubled rows.
    pub fn size(&self) -> (s: Vec2u)
        requires
            self.wf(),
        ensures
            s == self.pixel_size(),
    {
        let render_size = self.renderer.size();
        Vec2u { x: render_size.x, y: render_size.y * 2 }
    }

    /// Resizes the cell grid; the next frame redraws in full.
    pub fn resize(&mut self, size: Vec2u)
        requires
            old(self).wf(),
            size.x * size.y <= u16::MAX,
            2 * size.y <= u16::MAX,
        ensures
            final(self).wf(),
            size == old(self).cell_size() ==> final(self).grid() == old(self).grid(),
            final(self).cell_size() == size,
            final(self).spec_renderer().spec_redraw(),
    {
        self.renderer.resize(size);
    }

    /// Configures the persistent background color.
    pub fn set_background_color(&mut self, color: Option<Color>)
        requires
            old(self).wf(),
        ensures
            final(self).wf(),
            final(self).cell_size() == old(self).cell_size(),
            final(self).grid() == old(self).grid(),
            final(self).spec_renderer().spec_buffer().spec_default_cell() == Some(
                Cell::with_background_color_spec(color),
            ),
    {
        self.renderer.set_background_color(color);
    }

    /// The cell position a pixel position lands in, if it is on-canvas.
    pub fn half_block_position_to_rendered_position(&self, pos: Vec2u) -> (r: Option<Vec2u>)
        requires
            self.wf(),
        ensures
            self.pixel_in_bounds(pos) ==> r == Some(Self::spec_cell_pos(pos)),
            !self.pixel_in_bounds(pos) ==> r is None,
    {
        let canvas_size = self.size();
        if pos.x >= canvas_size.x || pos.y >= canvas_size.y {
            return None;
        }
        Some(Vec2u { x: pos.x, y: pos.y / 2 })
    }

    /// Writes one pixel: `Some` paints it, `None` clears it. Off-canvas
    /// positions are left alone. Reading the pixel back yields exactly
    /// what was written.
    pub fn draw(&mut self, pos: Vec2u, color: Option<Color>)
        requires
            old(self).wf(),
        ensures
            final(self).wf(),
            old(self).same_frame_state(*final(self)),
            final(self).grid() == old(self).spec_draw(pos, color),
            old(self).pixel_in_bounds(pos) ==> final(self).spec_pixel_at(pos) == color,
    {
        if let Some(cell_pos) = self.half_block_position_to_rendered_position(pos) {
            proof {
                lemma_pos_to_index_to_pos(self.cell_size(), cell_pos);
            }
            self.renderer.put_half(cell_pos, pos.y % 2 == 0, color);
        }
    }

    /// The color currently shown at a pixel; off-canvas reads nothing.
    pub fn color_at(&self, pos: Vec2u) -> (r: Option<Color>)
        requires
            self.wf(),
        ensures
            r == self.spec_pixel_at(pos),
    {
        if let Some(cell_pos) = self.half_block_position_to_rendered_position(pos) {
            proof {
                lemma_pos_to_index_to_pos(self.cell_size(), cell_pos);
            }
            match self.renderer.cell_at(cell_pos) {
                Some(cell) => {
                    if pos.y % 2 == 0 {
                        cell.at_top()
                    } else {
                        cell.at_bottom()
                    }
                },
                None => None,
            }
        } else {
            None
        }
    }

    /// Draws a pixel at a possibly negative position in white.
    pub fn point(&mut self, pos: Vec2i)
        requires
            old(self).wf(),
        ensures
            final(self).wf(),
            old(self).same_frame_state(*final(self)),
            in_pixel_range(pos) ==> final(self).grid() == old(self).spec_draw(
                clip_pos(pos),
                Some(Color::White),
            ),
            !in_pixel_range(pos) ==> final(self).grid() == old(self).grid(),
    {
        self.point_with_color(pos, Color::White);
    }

    /// Draws a pixel at a possibly negative position in `color`.
    pub fn point_with_color(&mut self, pos: Vec2i, color: Color)
        requires
            old(self).wf(),
        ensures
            final(self).wf(),
            old(self).same_frame_state(*final(self)),
            in_pixel_range(pos) ==> final(self).grid() == old(self).spec_draw(
                clip_pos(pos),
                Some(color),
            ),
            !in_pixel_range(pos) ==> final(self).grid() == old(self).grid(),
    {
        if pos.x < 0 || pos.y < 0 || pos.x > u16::MAX as i32 || pos.y > u16::MAX as i32 {
            return;
        }
        self.draw(Vec2u { x: pos.x as u16, y: pos.y as u16 }, Some(color));
    }

    /// Clears the pixel at a possibly negative position.
    pub fn erase(&mut self, pos: Vec2i)
        requires
            old(self).wf(),
        ensures
            final(self).wf(),
            old(self).same_frame_state(*final(self)),
            in_pixel_range(pos) ==> final(self).grid() == old(self).spec_draw(
                clip_pos(pos),
                None::<Color>,
            ),
            !in_pixel_range(pos) ==> final(self).grid() == old(self).grid(),
    {
        if pos.x < 0 || pos.y < 0 || pos.x > u16::MAX as i32 || pos.y > u16::MAX as i32 {
            return;
        }
        self.draw(Vec2u { x: pos.x as u16, y: pos.y as u16 }, None);
    }

    /// The color shown at a possibly negative pixel position.
    pub fn at(&self, pos: Vec2i) -> (r: Option<Color>)
        requires
            self.wf(),
        ensures
            in_pixel_range(pos) ==> r == self.spec_pixel_at(clip_pos(pos)),
            !in_pixel_range(pos) ==> r is None,
    {
        if pos.x < 0 || pos.y < 0 || pos.x > u16::MAX as i32 || pos.y > u16::MAX as i32 {
            return None;
        }
        self.color_at(Vec2u { x: pos.x as u16, y: pos.y as u16 })
    }

    /// The RGB background to blend against at a pixel: the pixel's own
    /// color if shown, else the configured canvas background; anything
    /// that is not a plain RGB value falls back to black.
    pub open spec fn spec_background_rgb_at(self, pos: Vec2u) -> Rgb8 {
        spec_background_rgb_grid(
            self.grid(),
            self.cell_size(),
            self.spec_renderer().spec_buffer().spec_default_cell(),
            pos,
        )
    }

    /// The RGB background to blend against at a pixel.
    pub fn background_rgb_at_or_default(&self, pos: Vec2u) -> (r: Rgb8)
        requires
            self.wf(),
        ensures
            r == self.spec_background_rgb_at(pos),
    {
        let color = match self.color_at(pos) {
            Some(c) => Some(c),
            None => self.renderer.get_background_color(),
        };
        match color {
            Some(Color::Rgb { r, g, b }) => Rgb8 { r, g, b },
            _ => Rgb8 { r: 0, g: 0, b: 0 },
        }
    }

    /// The cell at a cell (not pixel) position; out of bounds reads
    /// nothing.
    pub fn cell_at(&self, pos: Vec2u) -> (r: Option<Cell>)
        requires
            self.wf(),
        ensures
            spec_in_bounds(self.cell_size(), pos) ==> r == Some(
                self.grid()[spec_pos_to_index(self.cell_size(), pos)],
            ),
            !spec_in_bounds(self.cell_size(), pos) ==> r is None,
    {
        self.renderer.cell_at(pos)
    }

    /// Overwrites the whole cell at a cell (not pixel) position; out of
    /// bounds is a silent no-op.
    pub fn set_cell(&mut self, pos: Vec2u, cell: Cell)
        requires
            old(self).wf(),
        ensures
            final(self).wf(),
            old(self).same_frame_state(*final(self)),
            spec_in_bounds(old(self).cell_size(), pos) ==> final(self).grid() == old(
                self,
            ).grid().update(spec_pos_to_index(old(self).cell_size(), pos), cell),
            !spec_in_bounds(old(self).cell_size(), pos) ==> final(self).grid() == old(self).grid(),
    {
        self.renderer.put_cell(pos, cell);
    }

    /// The command plan for this frame.
    pub fn render_plan(&self) -> (plan: Vec<TermCommand>)
        requires
            self.wf(),
        ensures
            plan@ == crate::renderer::spec_render_plan(
                crate::buffer::spec_diff(
                    self.spec_renderer().grid(),
                    self.spec_renderer().last_shown(),
                    self.cell_size(),
                    self.spec_renderer().spec_redraw(),
                    self.spec_renderer().grid().len(),
                ),
            ),
    {
        self.renderer.render_plan()
    }

    /// Ends the frame once its plan has reached the terminal.
    pub fn finish_frame(&mut self)
        requires
            old(self).wf(),
        ensures
            final(self).wf(),
            final(self).cell_size() == old(self).cell_size(),
            !final(self).spec_renderer().spec_redraw(),
            final(self).spec_renderer().last_shown() == old(self).grid(),
    {
        self.renderer.finish_frame();
    }
}

/// Whether a signed position lies in the range pixel coordinates can
/// address at all.
pub open spec fn in_pixel_range(pos: Vec2i) -> bool {
    0 <= pos.x <= u16::MAX && 0 <= pos.y <= u16::MAX
}

/// The unsigned pixel position of an in-range signed position.
pub open spec fn clip_pos(pos: Vec2i) -> Vec2u {
    Vec2u { x: pos.x as u16, y: pos.y as u16 }
}

/// The two pixels `(x, 2k)` and `(x, 2k + 1)` land in the same cell
/// `(x, k)`: the cell's top and bottom sub-pixel.
pub proof fn lemma_sibling_pixels_share_cell(x: u16, k: u16)
    requires
        2 * k + 1 <= u16::MAX,
    ensures
        SimpleCanvas::spec_cell_pos(Vec2u { x, y: (2 * k) as u16 }) == (Vec2u { x, y: k }),
        SimpleCanvas::spec_cell_pos(Vec2u { x, y: (2 * k + 1) as u16 }) == (Vec2u { x, y: k }),
{
}

/// The grid index of the cell a pixel position lands in, on a canvas of
/// `size` cells.
pub open spec fn spec_grid_cell_index(size: Vec2u, pos: Vec2u) -> int {
    spec_pos_to_index(size, SimpleCanvas::spec_cell_pos(pos))
}

/// Grid-level form of the pixel-independence law: drawing at `pos`
/// leaves the color read at any other pixel `q` unchanged, provided the
/// drawn pixel's cell has independent sub-pixels or `q` lives in a
/// different cell.
pub proof fn lemma_draw_grid_preserves_other_pixels(
    grid: Seq<Cell>,
    size: Vec2u,
    pos: Vec2u,
    color: Option<Color>,
    q: Vec2u,
)
    requires
        grid.len() == size.area(),
        size.area() <= u16::MAX,
        q != pos,
        spec_pixel_bounds(size, pos) ==> spec_grid_cell_index(size, q) != spec_grid_cell_index(
            size,
            pos,
        ) || sub_pixels_independent(grid[spec_grid_cell_index(size, pos)]),
    ensures
        spec_pixel_at_grid(spec_draw_grid(grid, size, pos, color), size, q) == spec_pixel_at_grid(
            grid,
            size,
            q,
        ),
{
    if spec_pixel_bounds(size, pos) && spec_pixel_bounds(size, q) {
        let i = spec_grid_cell_index(size, pos);
        let iq = spec_grid_cell_index(size, q);
        lemma_pos_to_index_to_pos(size, SimpleCanvas::spec_cell_pos(pos));
        lemma_pos_to_index_to_pos(size, SimpleCanvas::spec_cell_pos(q));
        if iq != i {
            assert(spec_draw_grid(grid, size, pos, color)[iq] == grid[iq]);
        } else {
            assert(SimpleCanvas::spec_cell_pos(q) == SimpleCanvas::spec_cell_pos(pos));
            assert(q.x == pos.x && q.y / 2 == pos.y / 2);
            assert(q.y != pos.y);
            assert(q.y % 2 != pos.y % 2) by {
                vstd::arithmetic::div_mod::lemma_fundamental_div_mod(q.y as int, 2);
                vstd::arithmetic::div_mod::lemma_fundamental_div_mod(pos.y as int, 2);
            }
            let cell = grid[i];
            let drawn = SimpleCanvas::spec_drawn_cell(pos, cell, color);
            if pos.y % 2 == 0 {
                crate::cell::lemma_set_top_preserves_bottom(cell, color);
                assert(bottom_of(drawn) == bottom_of(cell));
            } else {
                crate::cell::lemma_set_bottom_preserves_top(cell, color);
                assert(top_of(drawn) == top_of(cell));
            }
        }
    }
}

/// Drawing one pixel never alters any other pixel, with one exception:
/// the sibling sub-pixel of a bare-space cell that carries a latent
/// background color becomes visible in that color. On cells whose
/// sub-pixels are independent, and at every pixel of any other cell, the
/// canvas reads back unchanged.
pub proof fn lemma_draw_preserves_other_pixels(
    pre: SimpleCanvas,
    post: SimpleCanvas,
    pos: Vec2u,
    color: Option<Color>,
    q: Vec2u,
)
    requires
        pre.wf(),
        pre.pixel_in_bounds(pos),
        post.cell_size() == pre.cell_size(),
        post.grid() == pre.spec_draw(pos, color),
        q != pos,
        pre.spec_cell_index(q) != pre.spec_cell_index(pos) || sub_pixels_independent(
            pre.grid()[pre.spec_cell_index(pos)],
        ),
    ensures
        post.spec_pixel_at(q) == pre.spec_pixel_at(q),
{
    if pre.pixel_in_bounds(q) {
        let i = pre.spec_cell_index(pos);
        let iq = pre.spec_cell_index(q);
        lemma_pos_to_index_to_pos(pre.cell_size(), SimpleCanvas::spec_cell_pos(pos));
        lemma_pos_to_index_to_pos(pre.cell_size(), SimpleCanvas::spec_cell_pos(q));
        if iq != i {
            assert(post.grid()[iq] == pre.grid()[iq]);
        } else {
            assert(SimpleCanvas::spec_cell_pos(q) == SimpleCanvas::spec_cell_pos(pos));
            assert(q.x == pos.x && q.y / 2 == pos.y / 2);
            assert(q.y != pos.y);
            assert(q.y % 2 != pos.y % 2) by {
                vstd::arithmetic::div_mod::lemma_fundamental_div_mod(q.y as int, 2);
                vstd::arithmetic::div_mod::lemma_fundamental_div_mod(pos.y as int, 2);
            }
            let cell = pre.grid()[i];
            let drawn = SimpleCanvas::spec_drawn_cell(pos, cell, color);
            if pos.y % 2 == 0 {
                crate::cell::lemma_set_top_preserves_bottom(cell, color);
                assert(bottom_of(drawn) == bottom_of(cell));
            } else {
                crate::cell::lemma_set_bottom_preserves_top(cell, color);
                assert(top_of(drawn) == top_of(cell));
            }
        }
    }
}

} // verus!
