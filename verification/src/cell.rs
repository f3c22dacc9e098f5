//! Cells, and rows of cells with glyphs that are two columns wide.

use crate::style::Style;
use crate::width::{advance_of, cells_of};
use vstd::prelude::*;

verus! {

/// One column of one row of a grid.
#[derive(Debug, Clone, Copy, Hash, PartialEq, Eq, Structural)]
pub enum Cell {
    /// A glyph.
    Char {
        /// The character shown.
        contents: char,
        /// Whether the glyph also covers the cell to its right.
        double: bool,
        /// The style it is shown in.
        style: Style,
    },
    /// The right half of the glyph in the cell to the left.
    Continuation,
}

impl Cell {
    /// The empty cell: a space in the default style.
    pub open spec fn blank() -> Cell {
        Cell::Char { contents: ' ', double: false, style: Style::plain() }
    }

    /// A glyph that fills one cell.
    pub open spec fn narrow(c: char, style: Style) -> Cell {
        Cell::Char { contents: c, double: false, style }
    }

    /// A glyph that fills two cells.
    pub open spec fn wide(c: char, style: Style) -> Cell {
        Cell::Char { contents: c, double: true, style }
    }

    /// Whether the cell holds the left half of a glyph of two columns.
    pub open spec fn is_double(self) -> bool {
        self matches Cell::Char { double, .. } && double
    }

    /// Whether the cell is the right half of a glyph.
    pub open spec fn is_continuation(self) -> bool {
        self is Continuation
    }

    /// Whether the cell's flag agrees with the width of its character.
    pub open spec fn glyph_ok(self) -> bool {
        match self {
            Cell::Char { contents, double, .. } => cells_of(contents) == if double {
                2int
            } else {
                1int
            },
            Cell::Continuation => true,
        }
    }

    /// Create an empty cell.
    pub fn empty() -> (r: Cell)
        ensures
            r == Cell::blank(),
    {
        Cell::Char { contents: ' ', double: false, style: Style::default() }
    }

    /// The style of a glyph; a continuation has none.
    pub fn style(&self) -> (r: Option<Style>)
        ensures
            r == match *self {
                Cell::Char { style, .. } => Some(style),
                Cell::Continuation => None,
            },
    {
        match *self {
            Cell::Char { style, .. } => Some(style),
            Cell::Continuation => None,
        }
    }

    /// The character of a glyph; a continuation has none.
    pub fn contents(&self) -> (r: Option<char>)
        ensures
            r == match *self {
                Cell::Char { contents, .. } => Some(contents),
                Cell::Continuation => None,
            },
    {
        match *self {
            Cell::Char { contents, .. } => Some(contents),
            Cell::Continuation => None,
        }
    }

    /// Whether the cell holds the left half of a glyph of two columns.
    pub fn double(&self) -> (r: bool)
        ensures
            r == self.is_double(),
    {
        match *self {
            Cell::Char { double, .. } => double,
            Cell::Continuation => false,
        }
    }

    /// Whether the cell is the right half of a glyph.
    pub fn continuation(&self) -> (r: bool)
        ensures
            r == self.is_continuation(),
    {
        match *self {
            Cell::Char { .. } => false,
            Cell::Continuation => true,
        }
    }
}

/// Whether the cell at `i` agrees with its neighbours: a continuation follows a glyph of two
/// columns, and such a glyph is followed by its continuation.
pub open spec fn cell_fits(row: Seq<Cell>, i: int) -> bool {
    &&& row[i].glyph_ok()
    &&& row[i].is_continuation() ==> i > 0 && row[i - 1].is_double()
    &&& row[i].is_double() ==> i + 1 < row.len() && row[i + 1].is_continuation()
}

/// Whether every cell of the row agrees with its neighbours.
pub open spec fn row_wf(row: Seq<Cell>) -> bool {
    forall|i: int| 0 <= i < row.len() ==> #[trigger] cell_fits(row, i)
}

/// A row of `width` empty cells.
pub open spec fn blank_row(width: int) -> Seq<Cell> {
    Seq::new(width as nat, |i: int| Cell::blank())
}

/// The row with the cell at `x` emptied, together with the other half of a glyph of two columns
/// that it was part of.
pub open spec fn row_release(row: Seq<Cell>, x: int) -> Seq<Cell> {
    if row[x].is_continuation() && x > 0 {
        row.update(x - 1, Cell::blank()).update(x, Cell::blank())
    } else if row[x].is_double() && x + 1 < row.len() {
        row.update(x, Cell::blank()).update(x + 1, Cell::blank())
    } else {
        row.update(x, Cell::blank())
    }
}

/// The row after the character `c` is written at column `x`.
///
/// Nothing changes where `x` is outside the row or the character fills no cell. A glyph of two
/// columns in the last column leaves an empty cell there. A cell that is overwritten takes the
/// other half of its glyph with it.
pub open spec fn row_put(row: Seq<Cell>, x: int, c: char, style: Style) -> Seq<Cell> {
    if x < 0 || x >= row.len() || cells_of(c) == 0 {
        row
    } else if cells_of(c) == 1 {
        row_release(row, x).update(x, Cell::narrow(c, style))
    } else if x + 1 >= row.len() {
        row_release(row, x)
    } else {
        row_release(row_release(row, x), x + 1).update(x, Cell::wide(c, style)).update(
            x + 1,
            Cell::Continuation,
        )
    }
}

/// The row after the characters of `text` are written from column `x` on, each moved on by the
/// widths of those before it.
pub open spec fn row_write(row: Seq<Cell>, x: int, text: Seq<char>, style: Style) -> Seq<Cell>
    decreases text.len(),
{
    if text.len() == 0 {
        row
    } else {
        row_write(
            row_put(row, x, text[0], style),
            x + advance_of(text[0]),
            text.drop_first(),
            style,
        )
    }
}

/// The row cut or filled up with empty cells on the right to `width` cells; a glyph of two
/// columns that loses its right half becomes an empty cell.
pub open spec fn row_resize(row: Seq<Cell>, width: int) -> Seq<Cell> {
    if width >= row.len() {
        row + blank_row(width - row.len())
    } else if row[width].is_continuation() && width > 0 {
        row.subrange(0, width).update(width - 1, Cell::blank())
    } else {
        row.subrange(0, width)
    }
}

/// A row of empty cells is well formed.
pub proof fn lemma_blank_row_wf(width: int)
    requires
        0 <= width,
    ensures
        row_wf(blank_row(width)),
        blank_row(width).len() == width,
{
    assert forall|i: int| 0 <= i < blank_row(width).len() implies #[trigger] cell_fits(
        blank_row(width),
        i,
    ) by {}
}

/// Emptying a cell keeps a row well formed, leaves an empty cell there, and changes no cell but
/// that one and at most one neighbour, which becomes empty.
pub proof fn lemma_release(row: Seq<Cell>, x: int)
    requires
        row_wf(row),
        0 <= x < row.len(),
    ensures
        row_wf(row_release(row, x)),
        row_release(row, x).len() == row.len(),
        row_release(row, x)[x] == Cell::blank(),
        forall|j: int|
            0 <= j < row.len() ==> #[trigger] row_release(row, x)[j] == row[j] || row_release(
                row,
                x,
            )[j] == Cell::blank(),
        forall|j: int|
            0 <= j < row.len() && (j < x - 1 || j > x + 1) ==> #[trigger] row_release(row, x)[j]
                == row[j],
{
    let r = row_release(row, x);
    assert(cell_fits(row, x));
    assert forall|i: int| 0 <= i < r.len() implies #[trigger] cell_fits(r, i) by {
        assert(cell_fits(row, i));
        if i > 0 {
            assert(cell_fits(row, i - 1));
        }
        if i + 1 < row.len() {
            assert(cell_fits(row, i + 1));
        }
    }
}

/// Writing a character keeps a row well formed and its length.
pub proof fn lemma_put(row: Seq<Cell>, x: int, c: char, style: Style)
    requires
        row_wf(row),
    ensures
        row_wf(row_put(row, x, c, style)),
        row_put(row, x, c, style).len() == row.len(),
{
    let r = row_put(row, x, c, style);
    if x < 0 || x >= row.len() || cells_of(c) == 0 {
    } else if cells_of(c) == 1 {
        lemma_release(row, x);
        let a = row_release(row, x);
        assert forall|i: int| 0 <= i < r.len() implies #[trigger] cell_fits(r, i) by {
            assert(cell_fits(a, i));
            if i > 0 {
                assert(cell_fits(a, i - 1));
            }
            if i + 1 < row.len() {
                assert(cell_fits(a, i + 1));
            }
            assert(cell_fits(a, x));
        }
    } else if x + 1 >= row.len() {
        lemma_release(row, x);
    } else {
        lemma_release(row, x);
        let a = row_release(row, x);
        lemma_release(a, x + 1);
        let b = row_release(a, x + 1);
        assert(cell_fits(a, x));
        assert(b[x] == Cell::blank());
        assert forall|i: int| 0 <= i < r.len() implies #[trigger] cell_fits(r, i) by {
            assert(cell_fits(b, i));
            if i > 0 {
                assert(cell_fits(b, i - 1));
            }
            if i + 1 < row.len() {
                assert(cell_fits(b, i + 1));
            }
            assert(cell_fits(b, x));
            assert(cell_fits(b, x + 1));
        }
    }
}

/// Writing text keeps a row well formed and its length.
pub proof fn lemma_write(row: Seq<Cell>, x: int, text: Seq<char>, style: Style)
    requires
        row_wf(row),
    ensures
        row_wf(row_write(row, x, text, style)),
        row_write(row, x, text, style).len() == row.len(),
    decreases text.len(),
{
    if text.len() > 0 {
        lemma_put(row, x, text[0], style);
        lemma_write(
            row_put(row, x, text[0], style),
            x + advance_of(text[0]),
            text.drop_first(),
            style,
        );
    }
}

/// Cutting or filling up a row keeps it well formed and gives it the new width.
pub proof fn lemma_resize(row: Seq<Cell>, width: int)
    requires
        row_wf(row),
        0 <= width,
    ensures
        row_wf(row_resize(row, width)),
        row_resize(row, width).len() == width,
{
    let r = row_resize(row, width);
    assert forall|i: int| 0 <= i < r.len() implies #[trigger] cell_fits(r, i) by {
        if i < row.len() {
            assert(cell_fits(row, i));
            if i > 0 {
                assert(cell_fits(row, i - 1));
            }
            if i + 1 < row.len() {
                assert(cell_fits(row, i + 1));
            }
        }
        if width < row.len() {
            assert(cell_fits(row, width));
        }
    }
}

/// The characters of the glyphs of a row, from the left; a continuation adds none.
pub open spec fn row_text(row: Seq<Cell>) -> Seq<char>
    decreases row.len(),
{
    if row.len() == 0 {
        Seq::empty()
    } else {
        match row.last() {
            Cell::Char { contents, .. } => row_text(row.drop_last()).push(contents),
            Cell::Continuation => row_text(row.drop_last()),
        }
    }
}

/// In a well-formed row, the cell to the left of a continuation holds a glyph of two columns.
pub proof fn lemma_continuation_follows_double(row: Seq<Cell>, i: int)
    requires
        row_wf(row),
        0 <= i < row.len(),
        row[i].is_continuation(),
    ensures
        i > 0,
        row[i - 1].is_double(),
{
    assert(cell_fits(row, i));
}

/// In a well-formed row, no glyph of two columns stands in the last column.
pub proof fn lemma_no_double_in_last_column(row: Seq<Cell>)
    requires
        row_wf(row),
        row.len() > 0,
    ensures
        !row.last().is_double(),
{
    assert(cell_fits(row, row.len() - 1));
}

/// A glyph of two columns written at the last column leaves an empty cell there and makes no
/// cell a continuation.
pub proof fn lemma_wide_at_last_column(row: Seq<Cell>, c: char, style: Style)
    requires
        row_wf(row),
        row.len() > 0,
        cells_of(c) == 2,
    ensures
        row_put(row, row.len() - 1, c, style)[row.len() - 1] == Cell::blank(),
        forall|j: int|
            0 <= j < row.len() && (#[trigger] row_put(
                row,
                row.len() - 1,
                c,
                style,
            )[j]).is_continuation() ==> row[j].is_continuation(),
{
    lemma_release(row, row.len() - 1);
}

/// A narrow character written over a glyph of two columns leaves an empty cell where the
/// right half of that glyph was.
pub proof fn lemma_narrow_over_double(row: Seq<Cell>, x: int, c: char, style: Style)
    requires
        row_wf(row),
        0 <= x < row.len(),
        row[x].is_double(),
        cells_of(c) == 1,
    ensures
        x + 1 < row.len(),
        row_put(row, x, c, style)[x] == Cell::narrow(c, style),
        row_put(row, x, c, style)[x + 1] == Cell::blank(),
{
    assert(cell_fits(row, x));
}

/// A character written over a continuation leaves an empty cell where the left half of its
/// glyph was.
pub proof fn lemma_over_continuation(row: Seq<Cell>, x: int, c: char, style: Style)
    requires
        row_wf(row),
        0 <= x < row.len(),
        row[x].is_continuation(),
        cells_of(c) >= 1,
    ensures
        x > 0,
        row_put(row, x, c, style)[x - 1] == Cell::blank(),
{
    assert(cell_fits(row, x));
    lemma_release(row, x);
    if cells_of(c) == 2 && x + 1 < row.len() {
        lemma_release(row_release(row, x), x + 1);
    }
}

} // verus!
