//! The cell grid: a rectangle of cells that text is written to.

use crate::cell::{
    blank_row, cell_fits, lemma_blank_row_wf, lemma_put, lemma_release, lemma_resize, row_put,
    row_release, row_resize, row_text, row_wf, row_write, Cell,
};
use crate::output::{rows_drawn_all, Draw, Output};
use crate::style::Style;
use crate::vec2::Vec2;
use crate::width::{advance, advance_of};
use vstd::prelude::*;

verus! {

/// `String::push` adds the character at the end of the string.
pub assume_specification[ String::push ](s: &mut String, c: char)
    ensures
        final(s)@ == old(s)@.push(c),
;

/// One row of a grid.
#[derive(Debug, Clone, PartialEq, Eq)]
pub struct Line {
    cells: Vec<Cell>,
}

impl View for Line {
    type V = Seq<Cell>;

    closed spec fn view(&self) -> Seq<Cell> {
        self.cells@
    }
}

impl Line {
    /// Create a row of `width` empty cells.
    pub fn new(width: u16) -> (r: Line)
        ensures
            r@ == blank_row(width as int),
            row_wf(r@),
    {
        let mut cells: Vec<Cell> = Vec::new();
        let mut i: u16 = 0;
        while i < width
            invariant
                i <= width,
                cells@ == blank_row(i as int),
            decreases width - i,
        {
            cells.push(Cell::empty());
            i = i + 1;
            assert(cells@ =~= blank_row(i as int));
        }
        proof {
            lemma_blank_row_wf(width as int);
        }
        Line { cells }
    }

    /// The cells of the row.
    pub fn cells(&self) -> (r: &Vec<Cell>)
        ensures
            r@ == self@,
    {
        &self.cells
    }

    /// The number of cells in the row.
    pub fn len(&self) -> (r: usize)
        ensures
            r == self@.len(),
    {
        self.cells.len()
    }

    /// The characters of the row's glyphs, from the left.
    pub fn text(&self) -> (r: String)
        ensures
            r@ == row_text(self@),
    {
        let mut r = String::new();
        let mut i: usize = 0;
        while i < self.cells.len()
            invariant
                i <= self.cells.len(),
                r@ == row_text(self.cells@.take(i as int)),
            decreases self.cells.len() - i,
        {
            proof {
                let next = self.cells@.take(i + 1);
                assert(next.drop_last() =~= self.cells@.take(i as int));
                assert(next.last() == self.cells@[i as int]);
            }
            match self.cells[i] {
                Cell::Char { contents, .. } => {
                    r.push(contents);
                },
                Cell::Continuation => {},
            }
            i = i + 1;
        }
        proof {
            assert(self.cells@.take(self.cells.len() as int) =~= self.cells@);
        }
        r
    }

    /// Empties the cell at `x`, and with it the other half of its glyph.
    fn release(&mut self, x: usize)
        requires
            row_wf(old(self)@),
            x < old(self)@.len(),
        ensures
            final(self)@ == row_release(old(self)@, x as int),
            row_wf(final(self)@),
    {
        proof {
            lemma_release(self@, x as int);
            assert(cell_fits(self@, x as int));
        }
        let cell = self.cells[x];
        if cell.continuation() && x > 0 {
            self.cells.set(x - 1, Cell::empty());
            self.cells.set(x, Cell::empty());
        } else if cell.double() && x < self.cells.len() - 1 {
            self.cells.set(x, Cell::empty());
            self.cells.set(x + 1, Cell::empty());
        } else {
            self.cells.set(x, Cell::empty());
        }
    }

    /// Writes one character at column `x`.
    pub fn put(&mut self, x: u16, c: char, style: Style)
        requires
            row_wf(old(self)@),
        ensures
            final(self)@ == row_put(old(self)@, x as int, c, style),
            row_wf(final(self)@),
    {
        proof {
            lemma_put(self@, x as int, c, style);
        }
        let x: usize = x as usize;
        if x >= self.cells.len() {
            return ;
        }
        let w = advance(c);
        if w == 0 {
        } else if w == 1 {
            self.release(x);
            self.cells.set(x, Cell::Char { contents: c, double: false, style });
        } else if x + 1 >= self.cells.len() {
            self.release(x);
        } else {
            self.release(x);
            self.release(x + 1);
            self.cells.set(x, Cell::Char { contents: c, double: true, style });
            self.cells.set(x + 1, Cell::Continuation);
        }
    }

    /// Cuts the row, or fills it up with empty cells, to `width` cells.
    pub fn resize(&mut self, width: u16)
        requires
            row_wf(old(self)@),
        ensures
            final(self)@ == row_resize(old(self)@, width as int),
            row_wf(final(self)@),
    {
        proof {
            lemma_resize(self@, width as int);
        }
        let width: usize = width as usize;
        let ghost before = self@;
        if width >= self.cells.len() {
            while self.cells.len() < width
                invariant
                    before.len() <= self.cells.len() <= width,
                    self.cells@ == before + blank_row(self.cells.len() - before.len()),
                decreases width - self.cells.len(),
            {
                self.cells.push(Cell::empty());
                assert(self.cells@ =~= before + blank_row(self.cells.len() - before.len()));
            }
        } else {
            let cut = self.cells[width].continuation();
            self.cells.truncate(width);
            assert(self.cells@ =~= before.subrange(0, width as int));
            if cut && width > 0 {
                self.cells.set(width - 1, Cell::empty());
            }
        }
    }
}

/// `n` rows of `width` empty cells.
pub open spec fn blank_rows(width: int, n: int) -> Seq<Seq<Cell>> {
    Seq::new(n as nat, |y: int| blank_row(width))
}

/// Whether the rows are `size.y` well-formed rows of `size.x` cells.
pub open spec fn rows_wf(rows: Seq<Seq<Cell>>, size: Vec2<u16>) -> bool {
    &&& rows.len() == size.y
    &&& forall|y: int|
        0 <= y < rows.len() ==> (#[trigger] rows[y]).len() == size.x && row_wf(rows[y])
}

/// The number of rows above the anchor row; the anchor is held inside the rows.
pub open spec fn rows_above(height: int, anchor: int) -> int {
    if height <= 0 {
        0
    } else if anchor < height {
        anchor
    } else {
        height - 1
    }
}

/// The number of rows below the anchor row.
pub open spec fn rows_below(height: int, anchor: int) -> int {
    if height <= 0 {
        0
    } else {
        height - 1 - rows_above(height, anchor)
    }
}

/// Whether the bottom is the end farther from the anchor row; with both as far, it is.
pub open spec fn bottom_farther(height: int, anchor: int) -> bool {
    rows_below(height, anchor) >= rows_above(height, anchor)
}

/// The number of rows taken from the top when `height` rows shrink to `new_height`: rows leave
/// at the end farther from the anchor first, then at the other end, the anchor row last.
pub open spec fn cut_top(height: int, new_height: int, anchor: int) -> int {
    let d = height - new_height;
    if bottom_farther(height, anchor) {
        if d <= rows_below(height, anchor) {
            0
        } else {
            d - rows_below(height, anchor)
        }
    } else {
        if d <= rows_above(height, anchor) {
            d
        } else {
            rows_above(height, anchor)
        }
    }
}

/// The rows after a change of height to `new_height` around the row `anchor`: empty rows are
/// added at the end farther from the anchor, and rows leave as `cut_top` says.
pub open spec fn rows_resize(rows: Seq<Seq<Cell>>, width: int, new_height: int, anchor: int) -> Seq<
    Seq<Cell>,
> {
    let height = rows.len() as int;
    if new_height >= height {
        if bottom_farther(height, anchor) {
            rows + blank_rows(width, new_height - height)
        } else {
            blank_rows(width, new_height - height) + rows
        }
    } else {
        let top = cut_top(height, new_height, anchor);
        rows.subrange(top, top + new_height)
    }
}

/// Where the row `y` stands after a change of height, or `None` where it has left.
pub open spec fn row_moved(height: int, new_height: int, anchor: int, y: int) -> Option<int> {
    if new_height >= height {
        if bottom_farther(height, anchor) {
            Some(y)
        } else {
            Some(y + new_height - height)
        }
    } else {
        let top = cut_top(height, new_height, anchor);
        if top <= y < top + new_height {
            Some(y - top)
        } else {
            None
        }
    }
}

/// A rectangle of cells.
#[derive(Debug, Clone, PartialEq, Eq)]
pub struct Grid {
    size: Vec2<u16>,
    lines: Vec<Line>,
}

impl View for Grid {
    type V = Seq<Seq<Cell>>;

    closed spec fn view(&self) -> Seq<Seq<Cell>> {
        Seq::new(self.lines.len() as nat, |y: int| self.lines[y]@)
    }
}

impl Grid {
    /// The width and height of the grid.
    pub closed spec fn spec_size(&self) -> Vec2<u16> {
        self.size
    }

    /// Whether the grid holds as many well-formed rows and columns as its size says.
    pub open spec fn wf(&self) -> bool {
        rows_wf(self@, self.spec_size())
    }

    /// The cell at column `x` of row `y`.
    pub open spec fn at(&self, x: int, y: int) -> Cell {
        self@[y][x]
    }

    /// Create a grid of empty cells.
    pub fn new(size: Vec2<u16>) -> (r: Grid)
        ensures
            r.wf(),
            r.spec_size() == size,
            r@ == blank_rows(size.x as int, size.y as int),
    {
        let mut lines: Vec<Line> = Vec::new();
        let mut y: u16 = 0;
        while y < size.y
            invariant
                y <= size.y,
                lines.len() == y,
                forall|j: int| 0 <= j < y ==> (#[trigger] lines[j])@ == blank_row(size.x as int),
            decreases size.y - y,
        {
            lines.push(Line::new(size.x));
            y = y + 1;
        }
        let r = Grid { size, lines };
        proof {
            lemma_blank_row_wf(size.x as int);
            assert(r@ =~= blank_rows(size.x as int, size.y as int));
        }
        r
    }

    /// The width and height of the grid.
    pub fn size(&self) -> (r: Vec2<u16>)
        ensures
            r == self.spec_size(),
    {
        self.size
    }

    /// The number of columns.
    pub fn width(&self) -> (r: u16)
        ensures
            r == self.spec_size().x,
    {
        self.size.x
    }

    /// The number of rows.
    pub fn height(&self) -> (r: u16)
        ensures
            r == self.spec_size().y,
    {
        self.size.y
    }

    /// The rows of the grid, from the top.
    pub fn lines(&self) -> (r: &Vec<Line>)
        ensures
            r.len() == self@.len(),
            forall|y: int| 0 <= y < r.len() ==> (#[trigger] r[y])@ == self@[y],
    {
        &self.lines
    }

    /// The text of each row, from the top.
    pub fn contents(&self) -> (r: Vec<String>)
        ensures
            r.len() == self@.len(),
            forall|y: int| 0 <= y < r.len() ==> (#[trigger] r[y])@ == row_text(self@[y]),
    {
        let mut r: Vec<String> = Vec::new();
        let mut y: usize = 0;
        while y < self.lines.len()
            invariant
                y <= self.lines.len(),
                r.len() == y,
                forall|j: int| 0 <= j < y ==> (#[trigger] r[j])@ == row_text(self@[j]),
            decreases self.lines.len() - y,
        {
            r.push(self.lines[y].text());
            y = y + 1;
        }
        r
    }

    /// The cell at `pos`, or `None` where `pos` is outside the grid.
    pub fn cell(&self, pos: Vec2<u16>) -> (r: Option<Cell>)
        requires
            self.wf(),
        ensures
            r == if pos.x < self.spec_size().x && pos.y < self.spec_size().y {
                Some(self.at(pos.x as int, pos.y as int))
            } else {
                None
            },
    {
        if pos.x < self.size.x && pos.y < self.size.y {
            assert(self@[pos.y as int].len() == self.size.x);
            Some(self.lines[pos.y as usize].cells[pos.x as usize])
        } else {
            None
        }
    }

    /// Fills the grid with empty cells.
    pub fn reset(&mut self)
        requires
            old(self).wf(),
        ensures
            final(self).wf(),
            final(self).spec_size() == old(self).spec_size(),
            final(self)@ == blank_rows(
                old(self).spec_size().x as int,
                old(self).spec_size().y as int,
            ),
            final(self)@ == rows_reset(old(self)@),
    {
        let mut y: usize = 0;
        while y < self.lines.len()
            invariant
                y <= self.lines.len(),
                self.lines.len() == self.size.y,
                self.size == old(self).size,
                forall|j: int| 0 <= j < y ==> (#[trigger] self.lines[j])@ == blank_row(self.size.x as int),
            decreases self.lines.len() - y,
        {
            self.lines.set(y, Line::new(self.size.x));
            y = y + 1;
        }
        proof {
            lemma_blank_row_wf(self.size.x as int);
            assert(self@ =~= blank_rows(self.size.x as int, self.size.y as int));
            assert(self@ =~= rows_reset(old(self)@));
        }
    }

    /// Writes one character at `pos`.
    ///
    /// Nothing is written where `pos` is outside the grid, or for a control character or one
    /// without width.
    pub fn write_char(&mut self, pos: Vec2<u16>, c: char, style: Style)
        requires
            old(self).wf(),
        ensures
            final(self).wf(),
            final(self).spec_size() == old(self).spec_size(),
            final(self)@ == if pos.y < old(self).spec_size().y {
                old(self)@.update(
                    pos.y as int,
                    row_put(old(self)@[pos.y as int], pos.x as int, c, style),
                )
            } else {
                old(self)@
            },
    {
        if pos.y >= self.size.y {
            return ;
        }
        let ghost before = self@;
        proof {
            lemma_put(before[pos.y as int], pos.x as int, c, style);
        }
        let line = &mut self.lines[pos.y as usize];
        line.put(pos.x, c, style);
        assert(self@ =~= before.update(
            pos.y as int,
            row_put(before[pos.y as int], pos.x as int, c, style),
        ));
    }

    /// Writes `text` on the row `pos.y` from the column `pos.x` on. Each character stands as
    /// many columns after the one before as that one is wide; what falls outside the grid is
    /// left out.
    pub fn write(&mut self, pos: Vec2<u16>, text: &str, style: Style)
        requires
            old(self).wf(),
        ensures
            final(self).wf(),
            final(self).spec_size() == old(self).spec_size(),
            final(self)@ == if pos.y < old(self).spec_size().y {
                old(self)@.update(
                    pos.y as int,
                    row_write(old(self)@[pos.y as int], pos.x as int, text@, style),
                )
            } else {
                old(self)@
            },
    {
        if pos.y >= self.size.y {
            return ;
        }
        let ghost before = self@;
        let ghost row = before[pos.y as int];
        let n = text.unicode_len();
        let mut i: usize = 0;
        let mut x: u16 = pos.x;
        // The column of the next character, which may lie past what a `u16` holds.
        let ghost mut column: int = pos.x as int;
        let mut past: bool = false;
        proof {
            assert(text@.skip(0) =~= text@);
            assert(self@ =~= before.update(pos.y as int, self@[pos.y as int]));
        }
        while i < n && !past
            invariant
                i <= n,
                n == text@.len(),
                pos.y < self.size.y,
                self.wf(),
                self.size == old(self).size,
                before == old(self)@,
                before.len() == self.size.y,
                row == before[pos.y as int],
                self@ == before.update(pos.y as int, self@[pos.y as int]),
                past ==> column >= self.size.x,
                !past ==> column == x,
                row_write(row, pos.x as int, text@, style) == row_write(
                    self@[pos.y as int],
                    column,
                    text@.skip(i as int),
                    style,
                ),
            decreases n - i,
        {
            let c = text.get_char(i);
            proof {
                let rest = text@.skip(i as int);
                assert(rest[0] == c);
                assert(rest.drop_first() =~= text@.skip(i + 1));
            }
            self.write_char(Vec2 { x, y: pos.y }, c, style);
            assert(self@ =~= before.update(pos.y as int, self@[pos.y as int]));
            let w = advance(c);
            proof {
                column = column + w as int;
            }
            if x > 65535 - w {
                past = true;
            } else {
                x = x + w;
            }
            i = i + 1;
        }
        proof {
            if past {
                lemma_write_outside(self@[pos.y as int], column, text@.skip(i as int), style);
            } else {
                assert(text@.skip(n as int) =~= Seq::<char>::empty());
            }
        }
    }

    /// Carries out on the grid the characters that were drawn to an output, in their order.
    pub fn draw(&mut self, output: &Output)
        requires
            old(self).wf(),
        ensures
            final(self).wf(),
            final(self).spec_size() == old(self).spec_size(),
            final(self)@ == rows_drawn_all(old(self)@, output@),
    {
        let draws = output.draws();
        let mut i: usize = 0;
        assert(draws@.take(0) =~= Seq::<Draw>::empty());
        while i < draws.len()
            invariant
                i <= draws.len(),
                draws@ == output@,
                self.wf(),
                self.spec_size() == old(self).spec_size(),
                self@ == rows_drawn_all(old(self)@, draws@.take(i as int)),
            decreases draws.len() - i,
        {
            proof {
                let next = draws@.take(i + 1);
                assert(next.drop_last() =~= draws@.take(i as int));
                assert(next.last() == draws@[i as int]);
            }
            match draws[i] {
                Draw::Char { pos, c, style } => {
                    self.write_char(pos, c, style);
                },
                Draw::Cursor(_) => {},
            }
            i = i + 1;
        }
        assert(draws@.take(draws.len() as int) =~= draws@);
    }

    /// Cuts every row, or fills it up with empty cells on the right, to `width` cells. A glyph
    /// of two columns that loses its right half becomes an empty cell.
    pub fn resize_width(&mut self, width: u16)
        requires
            old(self).wf(),
        ensures
            final(self).wf(),
            final(self).spec_size() == (Vec2 { x: width, y: old(self).spec_size().y }),
            final(self)@ == rows_resize_width(old(self)@, width as int),
    {
        let ghost before = self@;
        let mut y: usize = 0;
        while y < self.lines.len()
            invariant
                y <= self.lines.len(),
                self.lines.len() == before.len(),
                self.size == old(self).size,
                before == old(self)@,
                old(self).wf(),
                forall|j: int| 0 <= j < y ==> (#[trigger] self.lines[j])@ == row_resize(before[j], width as int),
                forall|j: int| y <= j < self.lines.len() ==> (#[trigger] self.lines[j])@ == before[j],
            decreases self.lines.len() - y,
        {
            let line = &mut self.lines[y];
            line.resize(width);
            y = y + 1;
        }
        self.size.x = width;
        proof {
            assert(self@ =~= rows_resize_width(before, width as int));
            assert forall|j: int| 0 <= j < self@.len() implies (#[trigger] self@[j]).len()
                == width && row_wf(self@[j]) by {
                lemma_resize(before[j], width as int);
            }
        }
    }

    /// Changes the number of rows to `height` and keeps the row `anchor` where that can be:
    /// empty rows are added at the end farther from it, and rows leave at the end farther from
    /// it first, at the bottom where both ends are as far.
    pub fn resize_height_with_anchor(&mut self, height: u16, anchor: u16)
        requires
            old(self).wf(),
        ensures
            final(self).wf(),
            final(self).spec_size() == (Vec2 { x: old(self).spec_size().x, y: height }),
            final(self)@ == rows_resize(
                old(self)@,
                old(self).spec_size().x as int,
                height as int,
                anchor as int,
            ),
    {
        let ghost before = self@;
        let ghost lines_before = self.lines@;
        let old_height: u16 = self.size.y;
        let width: u16 = self.size.x;
        let above: u16 = if old_height == 0 {
            0
        } else if anchor < old_height {
            anchor
        } else {
            old_height - 1
        };
        let below: u16 = if old_height == 0 {
            0
        } else {
            old_height - 1 - above
        };
        assert(above as int == rows_above(old_height as int, anchor as int));
        assert(below as int == rows_below(old_height as int, anchor as int));
        if height >= old_height {
            let d: u16 = height - old_height;
            let mut k: u16 = 0;
            if below >= above {
                while k < d
                    invariant
                        k <= d,
                        self.size == old(self).size,
                        self.lines@.len() == lines_before.len() + k,
                        forall|j: int| 0 <= j < lines_before.len() ==> (#[trigger] self.lines[j]) == lines_before[j],
                        forall|j: int| lines_before.len() <= j < self.lines.len() ==> (#[trigger] self.lines[j])@ == blank_row(width as int),
                    decreases d - k,
                {
                    self.lines.push(Line::new(width));
                    k = k + 1;
                }
                assert(self@ =~= before + blank_rows(width as int, d as int));
            } else {
                while k < d
                    invariant
                        k <= d,
                        self.size == old(self).size,
                        self.lines@.len() == lines_before.len() + k,
                        forall|j: int| 0 <= j < k ==> (#[trigger] self.lines[j])@ == blank_row(width as int),
                        forall|j: int| k <= j < self.lines.len() ==> (#[trigger] self.lines[j]) == lines_before[j - k],
                    decreases d - k,
                {
                    self.lines.insert(0, Line::new(width));
                    k = k + 1;
                }
                assert(self@ =~= blank_rows(width as int, d as int) + before);
            }
        } else {
            let d: u16 = old_height - height;
            let top: u16 = if below >= above {
                if d <= below {
                    0
                } else {
                    d - below
                }
            } else {
                if d <= above {
                    d
                } else {
                    above
                }
            };
            assert(top as int == cut_top(old_height as int, height as int, anchor as int));
            let mut k: u16 = 0;
            while k < top
                invariant
                    k <= top <= d <= old_height,
                    self.size == old(self).size,
                    lines_before.len() == old_height,
                    self.lines@ == lines_before.subrange(k as int, old_height as int),
                decreases top - k,
            {
                let _ = self.lines.remove(0);
                k = k + 1;
                assert(self.lines@ =~= lines_before.subrange(k as int, old_height as int));
            }
            self.lines.truncate(height as usize);
            assert(self@ =~= before.subrange(top as int, top as int + height as int));
        }
        self.size.y = height;
        proof {
            lemma_blank_row_wf(width as int);
            lemma_rows_resize_wf(before, old(self).size, height as int, anchor as int);
        }
    }

    /// Changes the number of rows to `height`, at the bottom.
    pub fn resize_height(&mut self, height: u16)
        requires
            old(self).wf(),
        ensures
            final(self).wf(),
            final(self).spec_size() == (Vec2 { x: old(self).spec_size().x, y: height }),
            final(self)@ == rows_resize(old(self)@, old(self).spec_size().x as int, height as int, 0),
    {
        self.resize_height_with_anchor(height, 0);
    }
}

/// The rows with each of them cut or filled up to `width` cells.
pub open spec fn rows_resize_width(rows: Seq<Seq<Cell>>, width: int) -> Seq<Seq<Cell>> {
    Seq::new(rows.len(), |y: int| row_resize(rows[y], width))
}

/// A change of height keeps the rows well formed and gives the new number of them.
pub proof fn lemma_rows_resize_wf(rows: Seq<Seq<Cell>>, size: Vec2<u16>, new_height: int, anchor: int)
    requires
        rows_wf(rows, size),
        0 <= new_height <= u16::MAX,
    ensures
        rows_wf(
            rows_resize(rows, size.x as int, new_height, anchor),
            Vec2 { x: size.x, y: new_height as u16 },
        ),
{
    lemma_blank_row_wf(size.x as int);
    let r = rows_resize(rows, size.x as int, new_height, anchor);
    let top = cut_top(rows.len() as int, new_height, anchor);
    assert forall|y: int| 0 <= y < r.len() implies (#[trigger] r[y]).len() == size.x && row_wf(
        r[y],
    ) by {
        if new_height >= rows.len() {
            if bottom_farther(rows.len() as int, anchor) {
                if y < rows.len() {
                    assert(r[y] == rows[y]);
                } else {
                    assert(r[y] == blank_row(size.x as int));
                }
            } else {
                if y < new_height - rows.len() {
                    assert(r[y] == blank_row(size.x as int));
                } else {
                    assert(r[y] == rows[y - (new_height - rows.len())]);
                }
            }
        } else {
            assert(r[y] == rows[y + top]);
        }
    }
}

/// The rows with every cell emptied.
pub open spec fn rows_reset(rows: Seq<Seq<Cell>>) -> Seq<Seq<Cell>> {
    Seq::new(rows.len(), |y: int| blank_row(rows[y].len() as int))
}

/// Emptying the rows twice gives what emptying them once gives.
pub proof fn lemma_reset_idempotent(rows: Seq<Seq<Cell>>)
    ensures
        rows_reset(rows_reset(rows)) == rows_reset(rows),
{
    assert(rows_reset(rows_reset(rows)) =~= rows_reset(rows));
}

/// A change of height leaves each row that stays as it was, at the place that `row_moved` gives.
pub proof fn lemma_resize_keeps_row(
    rows: Seq<Seq<Cell>>,
    width: int,
    new_height: int,
    anchor: int,
    y: int,
)
    requires
        0 <= y < rows.len(),
        0 <= new_height,
        0 <= anchor,
        row_moved(rows.len() as int, new_height, anchor, y) is Some,
    ensures
        0 <= row_moved(rows.len() as int, new_height, anchor, y).unwrap() < new_height,
        rows_resize(rows, width, new_height, anchor)[row_moved(
            rows.len() as int,
            new_height,
            anchor,
            y,
        ).unwrap()] == rows[y],
{
}

/// The anchor row stays through a change of height that leaves any row.
pub proof fn lemma_anchor_stays(height: int, new_height: int, anchor: int)
    requires
        0 <= anchor < height,
        0 < new_height,
    ensures
        row_moved(height, new_height, anchor, anchor) is Some,
{
}

/// Through two changes of height, the second around the place to which the first moved the
/// anchor row, that row keeps its contents.
pub proof fn lemma_anchor_row_kept_twice(
    rows: Seq<Seq<Cell>>,
    width: int,
    first: int,
    second: int,
    anchor: int,
)
    requires
        0 <= anchor < rows.len(),
        0 < first,
        0 < second,
    ensures
        ({
            let moved = row_moved(rows.len() as int, first, anchor, anchor).unwrap();
            let once = rows_resize(rows, width, first, anchor);
            let twice = rows_resize(once, width, second, moved);
            twice[row_moved(first, second, moved, moved).unwrap()] == rows[anchor]
        }),
{
    lemma_anchor_stays(rows.len() as int, first, anchor);
    lemma_resize_keeps_row(rows, width, first, anchor, anchor);
    let moved = row_moved(rows.len() as int, first, anchor, anchor).unwrap();
    let once = rows_resize(rows, width, first, anchor);
    assert(once.len() == first);
    lemma_anchor_stays(first, second, moved);
    lemma_resize_keeps_row(once, width, second, moved, moved);
}

/// Through two changes of height around any rows, a row that neither of them takes away keeps
/// its contents.
pub proof fn lemma_row_kept_twice(
    rows: Seq<Seq<Cell>>,
    width: int,
    first: int,
    first_anchor: int,
    second: int,
    second_anchor: int,
    y: int,
)
    requires
        0 <= y < rows.len(),
        0 <= first,
        0 <= second,
        0 <= first_anchor,
        0 <= second_anchor,
        row_moved(rows.len() as int, first, first_anchor, y) is Some,
        row_moved(
            first,
            second,
            second_anchor,
            row_moved(rows.len() as int, first, first_anchor, y).unwrap(),
        ) is Some,
    ensures
        ({
            let moved = row_moved(rows.len() as int, first, first_anchor, y).unwrap();
            let once = rows_resize(rows, width, first, first_anchor);
            let twice = rows_resize(once, width, second, second_anchor);
            twice[row_moved(first, second, second_anchor, moved).unwrap()] == rows[y]
        }),
{
    lemma_resize_keeps_row(rows, width, first, first_anchor, y);
    let moved = row_moved(rows.len() as int, first, first_anchor, y).unwrap();
    let once = rows_resize(rows, width, first, first_anchor);
    assert(once.len() == first);
    lemma_resize_keeps_row(once, width, second, second_anchor, moved);
}

/// Nothing can be written to a row without cells.
pub proof fn lemma_write_on_empty_row(row: Seq<Cell>, x: int, text: Seq<char>, style: Style)
    requires
        row.len() == 0,
        0 <= x,
    ensures
        row_write(row, x, text, style) == row,
{
    lemma_write_outside(row, x, text, style);
}

/// Text written at or after the end of a row leaves the row as it is.
pub proof fn lemma_write_outside(row: Seq<Cell>, x: int, text: Seq<char>, style: Style)
    requires
        x >= row.len(),
    ensures
        row_write(row, x, text, style) == row,
    decreases text.len(),
{
    if text.len() > 0 {
        lemma_write_outside(row, x + advance_of(text[0]), text.drop_first(), style);
    }
}

} // verus!
