//! A grid together with the cursor of its frame.

use crate::cell::{row_put, row_write};
use crate::grid::{blank_rows, rows_reset, Grid};
use crate::output::{cursor_drawn_all, rows_drawn_all, Draw, Output};
use crate::style::{Cursor, Style};
use crate::vec2::Vec2;
use vstd::prelude::*;

verus! {

/// What one frame shows: a grid of cells and, where it is shown, the cursor.
#[derive(Debug, Clone, PartialEq, Eq)]
pub struct Buffer {
    /// The cells.
    pub grid: Grid,
    /// The cursor, or `None` where it is hidden.
    pub cursor: Option<Cursor>,
}

impl Buffer {
    /// Whether the grid is well formed.
    pub open spec fn wf(&self) -> bool {
        self.grid.wf()
    }

    /// Create a buffer of empty cells without a cursor.
    pub fn new(size: Vec2<u16>) -> (r: Buffer)
        ensures
            r.wf(),
            r.grid.spec_size() == size,
            r.grid@ == blank_rows(size.x as int, size.y as int),
            r.cursor is None,
    {
        Buffer { grid: Grid::new(size), cursor: None }
    }

    /// Create a buffer that shows a grid and no cursor.
    pub fn from_grid(grid: Grid) -> (r: Buffer)
        ensures
            r.grid == grid,
            r.cursor is None,
    {
        Buffer { grid, cursor: None }
    }

    /// The width and height of the grid.
    pub fn size(&self) -> (r: Vec2<u16>)
        ensures
            r == self.grid.spec_size(),
    {
        self.grid.size()
    }

    /// Empties every cell and hides the cursor.
    pub fn reset(&mut self)
        requires
            old(self).wf(),
        ensures
            final(self).wf(),
            final(self).grid.spec_size() == old(self).grid.spec_size(),
            final(self).grid@ == rows_reset(old(self).grid@),
            final(self).grid@ == blank_rows(
                old(self).grid.spec_size().x as int,
                old(self).grid.spec_size().y as int,
            ),
            final(self).cursor is None,
    {
        self.grid.reset();
        self.cursor = None;
    }

    /// Writes one character at `pos`, as `Grid::write_char` does.
    pub fn write_char(&mut self, pos: Vec2<u16>, c: char, style: Style)
        requires
            old(self).wf(),
        ensures
            final(self).wf(),
            final(self).grid.spec_size() == old(self).grid.spec_size(),
            final(self).cursor == old(self).cursor,
            final(self).grid@ == if pos.y < old(self).grid.spec_size().y {
                old(self).grid@.update(
                    pos.y as int,
                    row_put(old(self).grid@[pos.y as int], pos.x as int, c, style),
                )
            } else {
                old(self).grid@
            },
    {
        self.grid.write_char(pos, c, style);
    }

    /// Writes text from `pos` on, as `Grid::write` does.
    pub fn write(&mut self, pos: Vec2<u16>, text: &str, style: Style)
        requires
            old(self).wf(),
        ensures
            final(self).wf(),
            final(self).grid.spec_size() == old(self).grid.spec_size(),
            final(self).cursor == old(self).cursor,
            final(self).grid@ == if pos.y < old(self).grid.spec_size().y {
                old(self).grid@.update(
                    pos.y as int,
                    row_write(old(self).grid@[pos.y as int], pos.x as int, text@, style),
                )
            } else {
                old(self).grid@
            },
    {
        self.grid.write(pos, text, style);
    }

    /// Carries out on the buffer what was drawn to an output, in its order.
    pub fn draw(&mut self, output: &Output)
        requires
            old(self).wf(),
        ensures
            final(self).wf(),
            final(self).grid.spec_size() == old(self).grid.spec_size(),
            final(self).grid@ == rows_drawn_all(old(self).grid@, output@),
            final(self).cursor == cursor_drawn_all(old(self).cursor, output@),
    {
        let draws = output.draws();
        let mut i: usize = 0;
        assert(draws@.take(0) =~= Seq::<Draw>::empty());
        while i < draws.len()
            invariant
                i <= draws.len(),
                draws@ == output@,
                self.wf(),
                self.grid.spec_size() == old(self).grid.spec_size(),
                self.grid@ == rows_drawn_all(old(self).grid@, draws@.take(i as int)),
                self.cursor == cursor_drawn_all(old(self).cursor, draws@.take(i as int)),
            decreases draws.len() - i,
        {
            proof {
                let next = draws@.take(i + 1);
                assert(next.drop_last() =~= draws@.take(i as int));
                assert(next.last() == draws@[i as int]);
            }
            match draws[i] {
                Draw::Char { pos, c, style } => {
                    self.grid.write_char(pos, c, style);
                },
                Draw::Cursor(cursor) => {
                    self.cursor = cursor;
                },
            }
            i = i + 1;
        }
        assert(draws@.take(draws.len() as int) =~= draws@);
    }

    /// Sets the cursor of the frame; the last call of a frame decides.
    pub fn set_cursor(&mut self, cursor: Option<Cursor>)
        ensures
            final(self).grid == old(self).grid,
            final(self).cursor == cursor,
    {
        self.cursor = cursor;
    }
}

} // verus!
