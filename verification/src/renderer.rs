//! The diffed renderer: turns the double buffer's diff into the minimal
//! sequence of terminal commands for one frame.
//!
//! The plan moves the cursor to each changed cell and prints its glyph,
//! emitting style-change commands only when the cell's style differs from
//! the style most recently emitted. When the attribute set changes, the
//! attributes are reset and both colors re-emitted, since a terminal
//! attribute reset also clears color state. Executing the plan against a
//! real terminal is left to the caller; the renderer itself never
//! performs output.

use vstd::prelude::*;

use crate::buffer::DoubleBuffer;
use crate::buffer::spec_diff;
use crate::cell::Cell;
use crate::color::CellStyle;
use crate::color::Color;
use crate::color::Attributes;
use crate::geom::Vec2u;

verus! {

/// One terminal command of a frame's output plan.
#[derive(Clone, Copy, Debug, PartialEq, Eq, Structural)]
pub enum TermCommand {
    /// Reset both colors to the terminal defaults.
    ResetColor,
    /// Move the cursor to a column and row.
    MoveTo(u16, u16),
    /// Set the foreground color (`Color::Reset` restores the default).
    SetForegroundColor(Color),
    /// Set the background color (`Color::Reset` restores the default).
    SetBackgroundColor(Color),
    /// Reset all attributes (this also clears the terminal's color state).
    ResetAttributes,
    /// Set the given attribute set.
    SetAttributes(Attributes),
    /// Print one glyph at the cursor.
    Print(char),
}

/// The color command that realizes an optional color slot: the color
/// itself, or a reset to the terminal default.
pub open spec fn spec_color_or_reset(c: Option<Color>) -> Color {
    match c {
        Some(color) => color,
        None => Color::Reset,
    }
}

/// The commands that change the terminal's styling from `from` to `to`:
/// each differing color slot is set (or reset), and a changed attribute
/// set forces an attribute reset followed by re-emitting both colors.
pub open spec fn spec_style_transition(from: CellStyle, to: CellStyle) -> Seq<TermCommand> {
    let bg: Seq<TermCommand> = if from.background_color != to.background_color {
        seq![TermCommand::SetBackgroundColor(spec_color_or_reset(to.background_color))]
    } else {
        Seq::empty()
    };
    let fg: Seq<TermCommand> = if from.foreground_color != to.foreground_color {
        seq![TermCommand::SetForegroundColor(spec_color_or_reset(to.foreground_color))]
    } else {
        Seq::empty()
    };
    let attrs: Seq<TermCommand> = if from.attributes != to.attributes {
        let refg: Seq<TermCommand> = match to.foreground_color {
            Some(color) => seq![TermCommand::SetForegroundColor(color)],
            None => Seq::empty(),
        };
        let rebg: Seq<TermCommand> = match to.background_color {
            Some(color) => seq![TermCommand::SetBackgroundColor(color)],
            None => Seq::empty(),
        };
        seq![TermCommand::ResetAttributes] + refg + rebg + seq![
            TermCommand::SetAttributes(to.attributes),
        ]
    } else {
        Seq::empty()
    };
    bg + fg + attrs
}

/// The commands for one diff entry, given the style last emitted: move,
/// restyle if the cell's style differs, print.
pub open spec fn spec_cell_commands(entry: (Cell, Vec2u), emitted: CellStyle) -> Seq<TermCommand> {
    let (cell, pos) = entry;
    let restyle: Seq<TermCommand> = if emitted != cell.style {
        spec_style_transition(emitted, cell.style)
    } else {
        Seq::empty()
    };
    seq![TermCommand::MoveTo(pos.x, pos.y)] + restyle + seq![TermCommand::Print(cell.c)]
}

/// The style on the wire after an entry is emitted.
pub open spec fn spec_style_after_cell(entry: (Cell, Vec2u), emitted: CellStyle) -> CellStyle {
    entry.0.style
}

/// The style on the wire after a whole diff is emitted, starting from
/// `emitted`.
pub open spec fn spec_style_after(entries: Seq<(Cell, Vec2u)>, emitted: CellStyle) -> CellStyle
    decreases entries.len(),
{
    if entries.len() == 0 {
        emitted
    } else {
        spec_style_after(entries.drop_first(), spec_style_after_cell(entries[0], emitted))
    }
}

/// The command sequence for a whole diff, starting from style `emitted`.
pub open spec fn spec_plan(entries: Seq<(Cell, Vec2u)>, emitted: CellStyle) -> Seq<TermCommand>
    decreases entries.len(),
{
    if entries.len() == 0 {
        Seq::empty()
    } else {
        spec_cell_commands(entries[0], emitted) + spec_plan(
            entries.drop_first(),
            spec_style_after_cell(entries[0], emitted),
        )
    }
}

/// Processing one more entry extends the plan by that entry's commands,
/// evaluated at the style the prefix left emitted.
proof fn lemma_plan_push(entries: Seq<(Cell, Vec2u)>, entry: (Cell, Vec2u), emitted: CellStyle)
    ensures
        spec_plan(entries.push(entry), emitted) == spec_plan(entries, emitted)
            + spec_cell_commands(entry, spec_style_after(entries, emitted)),
        spec_style_after(entries.push(entry), emitted) == spec_style_after_cell(
            entry,
            spec_style_after(entries, emitted),
        ),
    decreases entries.len(),
{
    let p = entries.push(entry);
    if entries.len() == 0 {
        let after = spec_style_after_cell(entry, emitted);
        assert(p[0] == entry);
        assert(p.drop_first() =~= Seq::<(Cell, Vec2u)>::empty());
        assert(spec_plan(p.drop_first(), after) =~= Seq::<TermCommand>::empty());
        assert(spec_plan(p, emitted) == spec_cell_commands(entry, emitted) + spec_plan(
            p.drop_first(),
            after,
        ));
        assert(spec_plan(entries, emitted) =~= Seq::<TermCommand>::empty());
        assert(spec_plan(p, emitted) =~= spec_plan(entries, emitted) + spec_cell_commands(
            entry,
            spec_style_after(entries, emitted),
        ));
        assert(spec_style_after(p, emitted) == spec_style_after(p.drop_first(), after));
        assert(spec_style_after(p.drop_first(), after) == after);
    } else {
        let tail = entries.drop_first();
        let after0 = spec_style_after_cell(entries[0], emitted);
        lemma_plan_push(tail, entry, after0);
        assert(p[0] == entries[0]);
        assert(p.drop_first() =~= tail.push(entry));
        assert(spec_plan(p, emitted) == spec_cell_commands(entries[0], emitted) + spec_plan(
            tail.push(entry),
            after0,
        ));
        assert(spec_cell_commands(entries[0], emitted) + (spec_plan(tail, after0)
            + spec_cell_commands(entry, spec_style_after(tail, after0))) =~= (spec_cell_commands(
            entries[0],
            emitted,
        ) + spec_plan(tail, after0)) + spec_cell_commands(entry, spec_style_after(tail, after0)));
    }
}

/// The full plan of one frame: a color reset, then the diff's commands
/// starting from an empty emitted style.
pub open spec fn spec_render_plan(diff: Seq<(Cell, Vec2u)>) -> Seq<TermCommand> {
    seq![TermCommand::ResetColor] + spec_plan(diff, CellStyle::empty())
}

/// A frame whose write grid matches what is shown, with no redraw
/// pending, plans no output beyond the initial color reset.
pub proof fn lemma_idle_frame_plans_nothing(write: Seq<Cell>, shown: Seq<Cell>, size: Vec2u)
    requires
        forall|i: int| 0 <= i < write.len() ==> write[i] == shown[i],
    ensures
        spec_render_plan(spec_diff(write, shown, size, false, write.len()))
            =~= seq![TermCommand::ResetColor],
{
    crate::buffer::lemma_diff_no_changes_empty(write, shown, size, write.len());
    assert(spec_plan(Seq::empty(), CellStyle::empty()) =~= Seq::<TermCommand>::empty());
}

/// The commands that change the terminal's styling from `from` to `to`.
pub fn style_transition(from: &CellStyle, to: &CellStyle) -> (v: Vec<TermCommand>)
    ensures
        v@ == spec_style_transition(*from, *to),
{
    let mut v: Vec<TermCommand> = Vec::new();
    if !opt_color_eq(&from.background_color, &to.background_color) {
        match to.background_color {
            Some(color) => v.push(TermCommand::SetBackgroundColor(color)),
            None => v.push(TermCommand::SetBackgroundColor(Color::Reset)),
        }
    }
    if !opt_color_eq(&from.foreground_color, &to.foreground_color) {
        match to.foreground_color {
            Some(color) => v.push(TermCommand::SetForegroundColor(color)),
            None => v.push(TermCommand::SetForegroundColor(Color::Reset)),
        }
    }
    if from.attributes.bits != to.attributes.bits {
        v.push(TermCommand::ResetAttributes);
        if let Some(color) = to.foreground_color {
            v.push(TermCommand::SetForegroundColor(color));
        }
        if let Some(color) = to.background_color {
            v.push(TermCommand::SetBackgroundColor(color));
        }
        v.push(TermCommand::SetAttributes(to.attributes));
    }
    proof {
        assert(v@ =~= spec_style_transition(*from, *to));
    }
    v
}

/// Equality of two optional colors.
fn opt_color_eq(a: &Option<Color>, b: &Option<Color>) -> (r: bool)
    ensures
        r == (a == b),
{
    match (a, b) {
        (None, None) => true,
        (Some(x), Some(y)) => *x == *y,
        _ => false,
    }
}

/// Equality of two cell styles.
fn style_eq(a: &CellStyle, b: &CellStyle) -> (r: bool)
    ensures
        r == (a == b),
{
    opt_color_eq(&a.foreground_color, &b.foreground_color) && opt_color_eq(
        &a.background_color,
        &b.background_color,
    ) && opt_color_eq(&a.underline_color, &b.underline_color) && a.attributes.bits
        == b.attributes.bits
}

/// The double buffer together with the pending-full-redraw flag.
pub struct Renderer {
    buffer: DoubleBuffer,
    redraw: bool,
}

impl Renderer {
    pub closed spec fn spec_buffer(self) -> DoubleBuffer {
        self.buffer
    }

    pub closed spec fn spec_redraw(self) -> bool {
        self.redraw
    }

    pub open spec fn wf(self) -> bool {
        self.spec_buffer().wf()
    }

    /// The grid drawing writes into.
    pub open spec fn grid(self) -> Seq<Cell> {
        self.spec_buffer().grid()
    }

    /// The grid the terminal was last left showing.
    pub open spec fn last_shown(self) -> Seq<Cell> {
        self.spec_buffer().last_shown()
    }

    pub open spec fn spec_size(self) -> Vec2u {
        self.spec_buffer().spec_size()
    }

    /// A renderer over a fresh buffer of the given size. The first frame
    /// renders in full.
    pub fn from_size(size: Vec2u) -> (r: Renderer)
        requires
            size.x * size.y <= u16::MAX,
        ensures
            r.wf(),
            r.spec_size() == size,
            r.spec_redraw(),
            r.spec_buffer().spec_default_cell() is None,
            forall|i: int| 0 <= i < r.grid().len() ==> r.grid()[i] == Cell::blank(),
    {
        Renderer { buffer: DoubleBuffer::from_size(size), redraw: true }
    }

    /// The buffer size, in cells.
    pub fn size(&self) -> (s: Vec2u)
        ensures
            s == self.spec_size(),
    {
        self.buffer.size()
    }

    /// Reallocates the buffer at the new size and marks a pending full
    /// redraw; a resize to the current size is a no-op.
    pub fn resize(&mut self, size: Vec2u)
        requires
            old(self).wf(),
            size.x * size.y <= u16::MAX,
        ensures
            final(self).wf(),
            final(self).spec_redraw(),
            size == old(self).spec_size()
                ==> final(self).spec_buffer() == old(self).spec_buffer(),
            size != old(self).spec_size() ==> {
                &&& final(self).spec_size() == size
                &&& forall|i: int|
                    0 <= i < final(self).grid().len()
                        ==> final(self).grid()[i] == final(self).spec_buffer().fill_cell()
            },
    {
        self.buffer.resize(size);
        self.redraw = true;
    }

    /// The configured persistent background color, if any.
    pub fn get_background_color(&self) -> (c: Option<Color>)
        ensures
            c == match self.spec_buffer().spec_default_cell() {
                Some(cell) => cell.style.background_color,
                None => None::<Color>,
            },
    {
        match self.buffer.default_cell() {
            Some(cell) => cell.style.background_color,
            None => None,
        }
    }

    /// Configures the persistent background color: every reset cell
    /// carries it, and the next frame redraws in full.
    pub fn set_background_color(&mut self, color: Option<Color>)
        requires
            old(self).wf(),
        ensures
            final(self).wf(),
            final(self).spec_redraw(),
            final(self).grid() == old(self).grid(),
            final(self).last_shown() == old(self).last_shown(),
            final(self).spec_size() == old(self).spec_size(),
            final(self).spec_buffer().spec_default_cell() == Some(
                Cell::with_background_color_spec(color),
            ),
    {
        self.buffer.set_default_cell(Some(Cell::with_background_color(color)));
        self.redraw = true;
    }

    /// The write-grid cell at `position`; out of bounds reads nothing.
    pub fn cell_at(&self, position: Vec2u) -> (r: Option<Cell>)
        requires
            self.wf(),
        ensures
            crate::buffer::spec_in_bounds(self.spec_size(), position) ==> r == Some(
                self.grid()[crate::buffer::spec_pos_to_index(self.spec_size(), position)],
            ),
            !crate::buffer::spec_in_bounds(self.spec_size(), position) ==> r is None,
    {
        self.buffer.at(position)
    }

    /// Overwrites the write-grid cell at `position`; out of bounds is a
    /// silent no-op.
    pub fn put_cell(&mut self, position: Vec2u, cell: Cell)
        requires
            old(self).wf(),
        ensures
            final(self).wf(),
            final(self).spec_size() == old(self).spec_size(),
            final(self).spec_redraw() == old(self).spec_redraw(),
            final(self).spec_buffer().spec_default_cell()
                == old(self).spec_buffer().spec_default_cell(),
            final(self).last_shown() == old(self).last_shown(),
            crate::buffer::spec_in_bounds(old(self).spec_size(), position) ==> final(self).grid()
                == old(self).grid().update(
                crate::buffer::spec_pos_to_index(old(self).spec_size(), position),
                cell,
            ),
            !crate::buffer::spec_in_bounds(old(self).spec_size(), position) ==> final(self).grid()
                == old(self).grid(),
    {
        self.buffer.put(position, cell);
    }

    /// Applies a sub-pixel write to the cell at `position`: the top half
    /// when `top` is set, else the bottom half. Out of bounds is a silent
    /// no-op.
    pub fn put_half(&mut self, position: Vec2u, top: bool, color: Option<Color>)
        requires
            old(self).wf(),
        ensures
            final(self).wf(),
            final(self).spec_size() == old(self).spec_size(),
            final(self).spec_redraw() == old(self).spec_redraw(),
            final(self).spec_buffer().spec_default_cell()
                == old(self).spec_buffer().spec_default_cell(),
            final(self).last_shown() == old(self).last_shown(),
            crate::buffer::spec_in_bounds(old(self).spec_size(), position) ==> {
                let i = crate::buffer::spec_pos_to_index(old(self).spec_size(), position);
                let updated = if top {
                    crate::cell::spec_set_top(old(self).grid()[i], color)
                } else {
                    crate::cell::spec_set_bottom(old(self).grid()[i], color)
                };
                final(self).grid() == old(self).grid().update(i, updated)
            },
            !crate::buffer::spec_in_bounds(old(self).spec_size(), position) ==> final(self).grid()
                == old(self).grid(),
    {
        self.buffer.put_half(position, top, color);
    }

    /// The command plan for this frame: the minimal terminal output that
    /// brings the shown grid up to date with the write grid.
    pub fn render_plan(&self) -> (plan: Vec<TermCommand>)
        requires
            self.wf(),
        ensures
            plan@ == spec_render_plan(
                spec_diff(
                    self.grid(),
                    self.last_shown(),
                    self.spec_size(),
                    self.spec_redraw(),
                    self.grid().len(),
                ),
            ),
    {
        let diff = self.buffer.diff(self.redraw);
        let ghost diff_seq = diff@;
        let mut plan: Vec<TermCommand> = Vec::new();
        plan.push(TermCommand::ResetColor);
        let mut emitted = CellStyle::new_empty();
        let mut i: usize = 0;
        let n = diff.len();
        while i < n
            invariant
                n == diff_seq.len(),
                i <= n,
                diff@ == diff_seq,
                plan@ == seq![TermCommand::ResetColor] + spec_plan(
                    diff_seq.take(i as int),
                    CellStyle::empty(),
                ),
                emitted == spec_style_after(diff_seq.take(i as int), CellStyle::empty()),
            decreases n - i,
        {
            let (cell, pos) = diff[i];
            proof {
                lemma_plan_push(diff_seq.take(i as int), diff_seq[i as int], CellStyle::empty());
                assert(diff_seq.take(i as int).push(diff_seq[i as int]) =~= diff_seq.take(
                    i as int + 1,
                ));
            }
            plan.push(TermCommand::MoveTo(pos.x, pos.y));
            if !style_eq(&emitted, &cell.style) {
                let mut transition = style_transition(&emitted, &cell.style);
                plan.append(&mut transition);
                emitted = cell.style;
            }
            plan.push(TermCommand::Print(cell.c));
            proof {
                assert(plan@ =~= seq![TermCommand::ResetColor] + spec_plan(
                    diff_seq.take(i as int + 1),
                    CellStyle::empty(),
                ));
            }
            i = i + 1;
        }
        proof {
            assert(diff_seq.take(n as int) =~= diff_seq);
        }
        plan
    }

    /// Ends the frame once its plan has reached the terminal: publishes
    /// the write grid and clears the pending-redraw flag.
    pub fn finish_frame(&mut self)
        requires
            old(self).wf(),
        ensures
            final(self).wf(),
            !final(self).spec_redraw(),
            final(self).spec_size() == old(self).spec_size(),
            final(self).spec_buffer().spec_default_cell()
                == old(self).spec_buffer().spec_default_cell(),
            final(self).last_shown() == old(self).grid(),
            final(self).grid().len() == old(self).last_shown().len(),
            forall|i: int|
                0 <= i < final(self).grid().len()
                    ==> final(self).grid()[i] == final(self).spec_buffer().fill_cell(),
    {
        self.redraw = false;
        self.buffer.swap();
    }
}

} // verus!
