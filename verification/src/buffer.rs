//! The double-buffered cell grid: a write grid, the last-rendered grid,
//! and the diff between them.
//!
//! Both grids are row-major vectors of exactly `size.x * size.y` cells.
//! Drawing mutates the write grid; rendering reads the diff against the
//! last-rendered grid and then swaps the two, so a frame only ever emits
//! cells that changed since the previous one.

use vstd::prelude::*;
use vstd::pervasive::VecAdditionalExecFns;
use vstd::arithmetic::div_mod::lemma_fundamental_div_mod;
use vstd::arithmetic::div_mod::lemma_fundamental_div_mod_converse;

use crate::cell::Cell;
use crate::geom::Vec2u;

verus! {

/// The row-major index of `pos` in a grid of width `size.x`.
pub open spec fn spec_pos_to_index(size: Vec2u, pos: Vec2u) -> int {
    size.x * pos.y + pos.x
}

/// The position whose row-major index in a grid of width `size.x` is `i`.
pub open spec fn spec_index_to_pos(size: Vec2u, i: int) -> Vec2u {
    Vec2u { x: (i % (size.x as int)) as u16, y: (i / (size.x as int)) as u16 }
}

/// Whether `pos` lies inside a grid of the given size.
pub open spec fn spec_in_bounds(size: Vec2u, pos: Vec2u) -> bool {
    pos.x < size.x && pos.y < size.y
}

/// Row-major indexing is a bijection: an in-bounds position maps to an
/// in-range index and back to itself.
pub proof fn lemma_pos_to_index_to_pos(size: Vec2u, pos: Vec2u)
    requires
        spec_in_bounds(size, pos),
    ensures
        0 <= spec_pos_to_index(size, pos) < size.area(),
        spec_index_to_pos(size, spec_pos_to_index(size, pos)) == pos,
{
    let sx = size.x as int;
    let sy = size.y as int;
    let x = pos.x as int;
    let y = pos.y as int;
    let i = sx * y + x;
    assert(i < sx * sy && i == y * sx + x) by (nonlinear_arith)
        requires
            0 <= x < sx,
            0 <= y < sy,
            i == sx * y + x,
    ;
    lemma_fundamental_div_mod_converse(i, sx, y, x);
}

/// Row-major indexing is a bijection: an in-range index maps to an
/// in-bounds position and back to itself.
pub proof fn lemma_index_to_pos_to_index(size: Vec2u, i: int)
    requires
        0 <= i < size.area(),
    ensures
        spec_in_bounds(size, spec_index_to_pos(size, i)),
        spec_pos_to_index(size, spec_index_to_pos(size, i)) == i,
{
    let sx = size.x as int;
    let sy = size.y as int;
    assert(sx > 0) by (nonlinear_arith)
        requires
            0 <= i < sx * sy,
            0 <= sx,
            0 <= sy,
    ;
    lemma_fundamental_div_mod(i, sx);
    let q = i / sx;
    let r = i % sx;
    assert(q < sy) by (nonlinear_arith)
        requires
            i == q * sx + r,
            0 <= r < sx,
            i < sx * sy,
            0 <= q,
            0 < sx,
    ;
}

/// The diff of the first `n` cells of the two grids: the write-grid cell
/// and its position, at every index where the grids differ, in index
/// order; every index when `redraw` is set.
pub open spec fn spec_diff(
    write: Seq<Cell>,
    shown: Seq<Cell>,
    size: Vec2u,
    redraw: bool,
    n: nat,
) -> Seq<(Cell, Vec2u)>
    decreases n,
{
    if n == 0 {
        Seq::empty()
    } else {
        let i = n - 1;
        let prev = spec_diff(write, shown, size, redraw, (n - 1) as nat);
        if redraw || write[i] != shown[i] {
            prev.push((write[i], spec_index_to_pos(size, i)))
        } else {
            prev
        }
    }
}

/// With `redraw` set, the diff has one entry per cell.
pub proof fn lemma_diff_full_len(write: Seq<Cell>, shown: Seq<Cell>, size: Vec2u, n: nat)
    ensures
        spec_diff(write, shown, size, true, n).len() == n,
    decreases n,
{
    if n > 0 {
        lemma_diff_full_len(write, shown, size, (n - 1) as nat);
    }
}

/// With no forced redraw, grids that agree pointwise produce an empty diff.
pub proof fn lemma_diff_no_changes_empty(write: Seq<Cell>, shown: Seq<Cell>, size: Vec2u, n: nat)
    requires
        forall|i: int| 0 <= i < n ==> write[i] == shown[i],
    ensures
        spec_diff(write, shown, size, false, n) =~= Seq::<(Cell, Vec2u)>::empty(),
    decreases n,
{
    if n > 0 {
        lemma_diff_no_changes_empty(write, shown, size, (n - 1) as nat);
    }
}

/// Two cell grids of identical size: the write target and the grid the
/// terminal currently shows.
pub struct DoubleBuffer {
    shown: Vec<Cell>,
    write: Vec<Cell>,
    size: Vec2u,
    default_cell: Option<Cell>,
}

impl DoubleBuffer {
    /// Both grids hold exactly one cell per position, and the cell count
    /// stays within the 16-bit range the terminal's coordinates allow.
    pub open spec fn wf(self) -> bool {
        &&& self.grid().len() == self.spec_size().area()
        &&& self.last_shown().len() == self.spec_size().area()
        &&& self.spec_size().area() <= u16::MAX
    }

    /// The grid drawing writes into.
    pub closed spec fn grid(self) -> Seq<Cell> {
        self.write@
    }

    /// The grid the terminal was last left showing.
    pub closed spec fn last_shown(self) -> Seq<Cell> {
        self.shown@
    }

    pub closed spec fn spec_size(self) -> Vec2u {
        self.size
    }

    pub closed spec fn spec_default_cell(self) -> Option<Cell> {
        self.default_cell
    }

    /// The cell a reset or a freshly exposed grid is filled with.
    pub closed spec fn fill_cell(self) -> Cell {
        match self.default_cell {
            Some(cell) => cell,
            None => Cell::blank(),
        }
    }

    /// The fill cell is the configured default cell, or a blank cell
    /// when none is configured.
    pub proof fn lemma_fill_cell(self)
        ensures
            self.fill_cell() == match self.spec_default_cell() {
                Some(cell) => cell,
                None => Cell::blank(),
            },
    {
    }

    pub fn from_values(height: u16, width: u16) -> (buffer: DoubleBuffer)
        requires
            width * height <= u16::MAX,
        ensures
            buffer.wf(),
            buffer.spec_size() == (Vec2u { x: width, y: height }),
            buffer.spec_default_cell() is None,
            forall|i: int| 0 <= i < buffer.grid().len() ==> buffer.grid()[i] == Cell::blank(),
            forall|i: int|
                0 <= i < buffer.last_shown().len() ==> buffer.last_shown()[i] == Cell::blank(),
    {
        Self::from_size(Vec2u { x: width, y: height })
    }

    pub fn from_size(size: Vec2u) -> (buffer: DoubleBuffer)
        requires
            size.x * size.y <= u16::MAX,
        ensures
            buffer.wf(),
            buffer.spec_size() == size,
            buffer.spec_default_cell() is None,
            forall|i: int| 0 <= i < buffer.grid().len() ==> buffer.grid()[i] == Cell::blank(),
            forall|i: int|
                0 <= i < buffer.last_shown().len() ==> buffer.last_shown()[i] == Cell::blank(),
    {
        let n: usize = (size.x as usize) * (size.y as usize);
        let shown = Self::filled(n, Cell::new_blank());
        let write = Self::filled(n, Cell::new_blank());
        DoubleBuffer { shown, write, size, default_cell: None }
    }

    /// A grid of `n` copies of `cell`.
    fn filled(n: usize, cell: Cell) -> (v: Vec<Cell>)
        ensures
            v@.len() == n,
            forall|i: int| 0 <= i < n ==> v@[i] == cell,
    {
        let mut v: Vec<Cell> = Vec::new();
        let mut k: usize = 0;
        while k < n
            invariant
                k <= n,
                v@.len() == k,
                forall|i: int| 0 <= i < k ==> v@[i] == cell,
            decreases n - k,
        {
            v.push(cell);
            k = k + 1;
        }
        v
    }

    /// Reallocates both grids at the new size, filled with the default
    /// cell; a resize to the current size is a no-op.
    pub fn resize(&mut self, size: Vec2u)
        requires
            old(self).wf(),
            size.x * size.y <= u16::MAX,
        ensures
            final(self).wf(),
            final(self).spec_default_cell() == old(self).spec_default_cell(),
            size == old(self).spec_size() ==> *final(self) == *old(self),
            size != old(self).spec_size() ==> {
                &&& final(self).spec_size() == size
                &&& forall|i: int|
                    0 <= i < final(self).grid().len() ==> final(self).grid()[i]
                        == final(self).fill_cell()
                &&& forall|i: int|
                    0 <= i < final(self).last_shown().len() ==> final(self).last_shown()[i]
                        == final(self).fill_cell()
            },
    {
        if self.size.x == size.x && self.size.y == size.y {
            return;
        }
        let fill = self.default_fill();
        let n: usize = (size.x as usize) * (size.y as usize);
        self.shown = Self::filled(n, fill);
        self.write = Self::filled(n, fill);
        self.size = size;
    }

    /// The cell used to reset the write grid: the configured default, or
    /// a blank cell.
    fn default_fill(&self) -> (cell: Cell)
        ensures
            cell == self.fill_cell(),
    {
        match &self.default_cell {
            Some(cell) => *cell,
            None => Cell::new_blank(),
        }
    }

    /// The cells the terminal must be brought up to date on: every
    /// position where the write grid differs from what is shown, or the
    /// whole grid when `redraw` is set.
    pub fn diff(&self, redraw: bool) -> (d: Vec<(Cell, Vec2u)>)
        requires
            self.wf(),
        ensures
            d@ == spec_diff(self.grid(), self.last_shown(), self.spec_size(), redraw, self.grid().len()),
            redraw ==> d@.len() == self.spec_size().area(),
    {
        let mut d: Vec<(Cell, Vec2u)> = Vec::new();
        let n = self.write.len();
        let mut i: usize = 0;
        while i < n
            invariant
                self.wf(),
                i <= n,
                n == self.grid().len(),
                d@ == spec_diff(self.grid(), self.last_shown(), self.spec_size(), redraw, i as nat),
            decreases n - i,
        {
            if redraw || !cells_equal(&self.write[i], &self.shown[i]) {
                d.push((self.write[i], self.index_to_position(i)));
            }
            i = i + 1;
        }
        proof {
            if redraw {
                lemma_diff_full_len(self.grid(), self.last_shown(), self.spec_size(), n as nat);
            }
        }
        d
    }

    /// Publishes the write grid: it becomes the shown grid, and a fresh
    /// write grid filled with the default cell takes its place. The grids
    /// trade places; no cell is copied.
    pub fn swap(&mut self)
        requires
            old(self).wf(),
        ensures
            final(self).wf(),
            final(self).spec_size() == old(self).spec_size(),
            final(self).spec_default_cell() == old(self).spec_default_cell(),
            final(self).last_shown() == old(self).grid(),
            final(self).grid().len() == old(self).last_shown().len(),
            forall|i: int|
                0 <= i < final(self).grid().len() ==> final(self).grid()[i]
                    == final(self).fill_cell(),
    {
        core::mem::swap(&mut self.shown, &mut self.write);
        let fill = self.default_fill();
        let n = self.write.len();
        let mut i: usize = 0;
        while i < n
            invariant
                i <= n,
                n == self.write@.len(),
                self.shown@ == old(self).grid(),
                self.size == old(self).size,
                self.default_cell == old(self).default_cell,
                self.write@.len() == old(self).last_shown().len(),
                fill == self.fill_cell(),
                forall|j: int| 0 <= j < i ==> self.write@[j] == fill,
            decreases n - i,
        {
            self.write.set(i, fill);
            i = i + 1;
        }
    }

    /// The grid size, in cells.
    pub fn size(&self) -> (s: Vec2u)
        ensures
            s == self.spec_size(),
    {
        self.size
    }

    /// Whether `position` lies inside the grid.
    pub fn bounds(&self, position: &Vec2u) -> (r: bool)
        ensures
            r == spec_in_bounds(self.spec_size(), *position),
    {
        self.size.x > position.x && self.size.y > position.y
    }

    /// The write-grid cell at `position`; out of bounds reads nothing.
    pub fn at(&self, position: Vec2u) -> (r: Option<Cell>)
        requires
            self.wf(),
        ensures
            spec_in_bounds(self.spec_size(), position) ==> r == Some(
                self.grid()[spec_pos_to_index(self.spec_size(), position)],
            ),
            !spec_in_bounds(self.spec_size(), position) ==> r is None,
    {
        if !self.bounds(&position) {
            return None;
        }
        let idx = self.position_to_index(&position);
        Some(self.write[idx])
    }

    /// Overwrites the write-grid cell at `position`; out of bounds is a
    /// silent no-op.
    pub fn put(&mut self, position: Vec2u, cell: Cell)
        requires
            old(self).wf(),
        ensures
            final(self).wf(),
            final(self).spec_size() == old(self).spec_size(),
            final(self).spec_default_cell() == old(self).spec_default_cell(),
            final(self).last_shown() == old(self).last_shown(),
            spec_in_bounds(old(self).spec_size(), position) ==> final(self).grid() == old(
                self,
            ).grid().update(spec_pos_to_index(old(self).spec_size(), position), cell),
            !spec_in_bounds(old(self).spec_size(), position) ==> final(self).grid() == old(
                self,
            ).grid(),
    {
        if !self.bounds(&position) {
            return;
        }
        let idx = self.position_to_index(&position);
        self.write.set(idx, cell);
    }

    /// Applies a sub-pixel write to the cell at `position`: the top half
    /// when `top` is set, else the bottom half. Out of bounds is a silent
    /// no-op.
    pub fn put_half(&mut self, position: Vec2u, top: bool, color: Option<crate::color::Color>)
        requires
            old(self).wf(),
        ensures
            final(self).wf(),
            final(self).spec_size() == old(self).spec_size(),
            final(self).spec_default_cell() == old(self).spec_default_cell(),
            final(self).last_shown() == old(self).last_shown(),
            spec_in_bounds(old(self).spec_size(), position) ==> {
                let i = spec_pos_to_index(old(self).spec_size(), position);
                let updated = if top {
                    crate::cell::spec_set_top(old(self).grid()[i], color)
                } else {
                    crate::cell::spec_set_bottom(old(self).grid()[i], color)
                };
                final(self).grid() == old(self).grid().update(i, updated)
            },
            !spec_in_bounds(old(self).spec_size(), position) ==> final(self).grid() == old(
                self,
            ).grid(),
    {
        if !self.bounds(&position) {
            return;
        }
        let idx = self.position_to_index(&position);
        let mut cell = self.write[idx];
        if top {
            cell.set_top(color);
        } else {
            cell.set_bottom(color);
        }
        self.write.set(idx, cell);
    }

    /// The configured default cell, if any.
    pub fn default_cell(&self) -> (cell: Option<Cell>)
        ensures
            cell == self.spec_default_cell(),
    {
        self.default_cell
    }

    /// Configures the cell that future resets and resizes fill with.
    pub fn set_default_cell(&mut self, cell: Option<Cell>)
        requires
            old(self).wf(),
        ensures
            final(self).wf(),
            final(self).spec_default_cell() == cell,
            final(self).grid() == old(self).grid(),
            final(self).last_shown() == old(self).last_shown(),
            final(self).spec_size() == old(self).spec_size(),
    {
        self.default_cell = cell;
    }

    /// The row-major index of an in-bounds position.
    pub fn position_to_index(&self, pos: &Vec2u) -> (idx: usize)
        requires
            self.wf(),
            spec_in_bounds(self.spec_size(), *pos),
        ensures
            idx == spec_pos_to_index(self.spec_size(), *pos),
            idx < self.spec_size().area(),
    {
        proof {
            lemma_pos_to_index_to_pos(self.size, *pos);
        }
        (self.size.x as usize) * (pos.y as usize) + (pos.x as usize)
    }

    /// The position of an in-range row-major index.
    pub fn index_to_position(&self, idx: usize) -> (pos: Vec2u)
        requires
            self.wf(),
            idx < self.spec_size().area(),
        ensures
            pos == spec_index_to_pos(self.spec_size(), idx as int),
            spec_in_bounds(self.spec_size(), pos),
    {
        proof {
            lemma_index_to_pos_to_index(self.size, idx as int);
        }
        let idx16 = idx as u16;
        Vec2u { x: idx16 % self.size.x, y: idx16 / self.size.x }
    }
}

/// Cell comparison used by the diff.
fn cells_equal(a: &Cell, b: &Cell) -> (r: bool)
    ensures
        r == (a == b),
{
    *a == *b
}

/// The relation `swap` establishes between the buffer before and after.
pub open spec fn spec_swapped(pre: DoubleBuffer, post: DoubleBuffer) -> bool {
    &&& post.wf()
    &&& post.spec_size() == pre.spec_size()
    &&& post.spec_default_cell() == pre.spec_default_cell()
    &&& post.last_shown() == pre.grid()
    &&& post.grid().len() == pre.last_shown().len()
    &&& forall|i: int| 0 <= i < post.grid().len() ==> post.grid()[i] == post.fill_cell()
}

/// Two consecutive swaps with no writes in between leave nothing to
/// diff: both grids hold only the default cell, so `diff(false)` is
/// empty.
pub proof fn lemma_two_swaps_diff_empty(b0: DoubleBuffer, b1: DoubleBuffer, b2: DoubleBuffer)
    requires
        b0.wf(),
        spec_swapped(b0, b1),
        spec_swapped(b1, b2),
    ensures
        spec_diff(b2.grid(), b2.last_shown(), b2.spec_size(), false, b2.grid().len())
            =~= Seq::<(Cell, Vec2u)>::empty(),
{
    assert(forall|i: int| 0 <= i < b2.grid().len() ==> b2.grid()[i] == b2.last_shown()[i]);
    lemma_diff_no_changes_empty(b2.grid(), b2.last_shown(), b2.spec_size(), b2.grid().len());
}

} // verus!
