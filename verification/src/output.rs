//! What elements draw to: a record of the characters written and of the cursor set, within a
//! size.

use crate::cell::{lemma_put, lemma_release, row_put, row_wf, row_write, Cell};
use crate::style::{Cursor, Style};
use crate::vec2::{sat_add, Vec2};
use crate::width::{advance, advance_of, cells_of};
use vstd::prelude::*;

verus! {

/// One thing drawn.
#[derive(Debug, Clone, Copy, Hash, PartialEq, Eq, Structural)]
pub enum Draw {
    /// A character written at a place.
    Char {
        /// Where it is written.
        pos: Vec2<u16>,
        /// The character.
        c: char,
        /// The style it is written in.
        style: Style,
    },
    /// The cursor set, or hidden with `None`.
    Cursor(Option<Cursor>),
}

/// What writing the character `c` at column `x` of row `y` draws within `size`: nothing
/// outside the size and for a character that fills no cell, an empty cell for a glyph of two
/// columns in the last column, else the character.
pub open spec fn char_draws(size: Vec2<u16>, x: int, y: int, c: char, style: Style) -> Seq<Draw> {
    if x < 0 || y < 0 || x >= size.x || y >= size.y || cells_of(c) == 0 {
        Seq::empty()
    } else if cells_of(c) == 2 && x + 1 >= size.x {
        seq![Draw::Char { pos: Vec2 { x: x as u16, y: y as u16 }, c: ' ', style: Style::plain() }]
    } else {
        seq![Draw::Char { pos: Vec2 { x: x as u16, y: y as u16 }, c, style }]
    }
}

/// What writing `text` from column `x` of row `y` on draws within `size`, each character as
/// many columns after the one before as that one is wide.
pub open spec fn text_draws(size: Vec2<u16>, x: int, y: int, text: Seq<char>, style: Style) -> Seq<
    Draw,
>
    decreases text.len(),
{
    if text.len() == 0 {
        Seq::empty()
    } else {
        char_draws(size, x, y, text[0], style) + text_draws(
            size,
            x + advance_of(text[0]),
            y,
            text.drop_first(),
            style,
        )
    }
}

/// The cursor moved by `offset`, each coordinate held at the upper bound.
pub open spec fn cursor_moved(cursor: Option<Cursor>, offset: Vec2<u16>) -> Option<Cursor> {
    match cursor {
        Some(c) => Some(
            Cursor {
                pos: Vec2 {
                    x: sat_add(c.pos.x as int, offset.x as int) as u16,
                    y: sat_add(c.pos.y as int, offset.y as int) as u16,
                },
                ..c
            },
        ),
        None => None,
    }
}

/// What one thing drawn in an area at `offset` draws within `size`.
pub open spec fn draw_moved(size: Vec2<u16>, offset: Vec2<u16>, d: Draw) -> Seq<Draw> {
    match d {
        Draw::Char { pos, c, style } => char_draws(
            size,
            pos.x as int + offset.x as int,
            pos.y as int + offset.y as int,
            c,
            style,
        ),
        Draw::Cursor(cursor) => seq![Draw::Cursor(cursor_moved(cursor, offset))],
    }
}

/// What the things drawn in an area at `offset` draw within `size`, in their order.
pub open spec fn draws_moved(size: Vec2<u16>, offset: Vec2<u16>, draws: Seq<Draw>) -> Seq<Draw>
    decreases draws.len(),
{
    if draws.len() == 0 {
        Seq::empty()
    } else {
        draws_moved(size, offset, draws.drop_last()) + draw_moved(size, offset, draws.last())
    }
}

/// The rows after one thing was drawn on them.
pub open spec fn rows_drawn(rows: Seq<Seq<Cell>>, d: Draw) -> Seq<Seq<Cell>> {
    match d {
        Draw::Char { pos, c, style } => if pos.y < rows.len() {
            rows.update(pos.y as int, row_put(rows[pos.y as int], pos.x as int, c, style))
        } else {
            rows
        },
        Draw::Cursor(_) => rows,
    }
}

/// The rows after the things were drawn on them, in their order.
pub open spec fn rows_drawn_all(rows: Seq<Seq<Cell>>, draws: Seq<Draw>) -> Seq<Seq<Cell>>
    decreases draws.len(),
{
    if draws.len() == 0 {
        rows
    } else {
        rows_drawn(rows_drawn_all(rows, draws.drop_last()), draws.last())
    }
}

/// The cursor after the things were drawn: the one set last, or the one before where none
/// was set.
pub open spec fn cursor_drawn_all(cursor: Option<Cursor>, draws: Seq<Draw>) -> Option<Cursor>
    decreases draws.len(),
{
    if draws.len() == 0 {
        cursor
    } else {
        match draws.last() {
            Draw::Cursor(set) => set,
            Draw::Char { .. } => cursor_drawn_all(cursor, draws.drop_last()),
        }
    }
}

/// A record of what was drawn within a size.
#[derive(Debug, Clone, PartialEq, Eq)]
pub struct Output {
    size: Vec2<u16>,
    draws: Vec<Draw>,
}

impl View for Output {
    type V = Seq<Draw>;

    closed spec fn view(&self) -> Seq<Draw> {
        self.draws@
    }
}

impl Output {
    /// The size drawn within.
    pub closed spec fn spec_size(&self) -> Vec2<u16> {
        self.size
    }

    /// Create an output of a size with nothing drawn.
    pub fn new(size: Vec2<u16>) -> (r: Output)
        ensures
            r.spec_size() == size,
            r@ == Seq::<Draw>::empty(),
    {
        Output { size, draws: Vec::new() }
    }

    /// The size drawn within.
    pub fn size(&self) -> (r: Vec2<u16>)
        ensures
            r == self.spec_size(),
    {
        self.size
    }

    /// What was drawn, in its order.
    pub fn draws(&self) -> (r: &Vec<Draw>)
        ensures
            r@ == self@,
    {
        &self.draws
    }

    /// Writes at a place given by wider numbers than a position holds.
    fn write_at(&mut self, x: u32, y: u32, c: char, style: Style)
        ensures
            final(self).spec_size() == old(self).spec_size(),
            final(self)@ == old(self)@ + char_draws(old(self).spec_size(), x as int, y as int, c, style),
    {
        let ghost before = self@;
        if x >= self.size.x as u32 || y >= self.size.y as u32 {
            assert(self@ =~= before + char_draws(self.size, x as int, y as int, c, style));
            return ;
        }
        let pos = Vec2 { x: x as u16, y: y as u16 };
        let w = advance(c);
        if w == 0 {
        } else if w >= 2 && x + 1 >= self.size.x as u32 {
            self.draws.push(Draw::Char { pos, c: ' ', style: Style::default() });
        } else {
            self.draws.push(Draw::Char { pos, c, style });
        }
        assert(self@ =~= before + char_draws(self.size, x as int, y as int, c, style));
    }

    /// Writes one character at `pos`.
    ///
    /// Nothing is written where `pos` is outside the size, or for a control character or one
    /// without width. A glyph of two columns in the last column becomes an empty cell.
    pub fn write_char(&mut self, pos: Vec2<u16>, c: char, style: Style)
        ensures
            final(self).spec_size() == old(self).spec_size(),
            final(self)@ == old(self)@ + char_draws(
                old(self).spec_size(),
                pos.x as int,
                pos.y as int,
                c,
                style,
            ),
    {
        self.write_at(pos.x as u32, pos.y as u32, c, style);
    }

    /// Sets the cursor of the frame; the last call of a frame decides.
    pub fn set_cursor(&mut self, cursor: Option<Cursor>)
        ensures
            final(self).spec_size() == old(self).spec_size(),
            final(self)@ == old(self)@.push(Draw::Cursor(cursor)),
    {
        self.draws.push(Draw::Cursor(cursor));
    }

    /// Writes `text` on the row `pos.y` from the column `pos.x` on. Each character stands as
    /// many columns after the one before as that one is wide.
    pub fn write(&mut self, pos: Vec2<u16>, text: &str, style: Style)
        ensures
            final(self).spec_size() == old(self).spec_size(),
            final(self)@ == old(self)@ + text_draws(
                old(self).spec_size(),
                pos.x as int,
                pos.y as int,
                text@,
                style,
            ),
    {
        let ghost before = self@;
        let ghost size = self.size;
        let n = text.unicode_len();
        let mut i: usize = 0;
        let mut x: u32 = pos.x as u32;
        let ghost mut column: int = pos.x as int;
        proof {
            assert(text@.skip(0) =~= text@);
            assert(before + Seq::<Draw>::empty() =~= before);
        }
        let ghost mut done: Seq<Draw> = Seq::empty();
        while i < n && x < 65536
            invariant
                i <= n,
                n == text@.len(),
                self.size == size,
                column == x,
                self@ == before + done,
                text_draws(size, pos.x as int, pos.y as int, text@, style) == done + text_draws(
                    size,
                    column,
                    pos.y as int,
                    text@.skip(i as int),
                    style,
                ),
            decreases n - i,
        {
            let c = text.get_char(i);
            proof {
                let rest = text@.skip(i as int);
                assert(rest[0] == c);
                assert(rest.drop_first() =~= text@.skip(i + 1));
                let one = char_draws(size, column, pos.y as int, c, style);
                let more = text_draws(
                    size,
                    column + advance_of(c),
                    pos.y as int,
                    text@.skip(i + 1),
                    style,
                );
                assert(done + (one + more) =~= (done + one) + more);
                assert(before + (done + one) =~= (before + done) + one);
                done = done + one;
            }
            self.write_at(x, pos.y as u32, c, style);
            let w = advance(c);
            x = x + w as u32;
            proof {
                column = column + w as int;
            }
            i = i + 1;
        }
        proof {
            if i < n {
                lemma_text_draws_outside(size, column, pos.y as int, text@.skip(i as int), style);
            }
            assert(done + Seq::<Draw>::empty() =~= done);
        }
    }

    /// Draws what was drawn in an area whose top left corner is at `offset`: each thing as if
    /// it were drawn here at its place moved by `offset`.
    pub fn area(&mut self, offset: Vec2<u16>, inner: &Output)
        ensures
            final(self).spec_size() == old(self).spec_size(),
            final(self)@ == old(self)@ + draws_moved(old(self).spec_size(), offset, inner@),
    {
        let ghost before = self@;
        let ghost size = self.size;
        let mut i: usize = 0;
        proof {
            assert(inner@.take(0) =~= Seq::<Draw>::empty());
            assert(before + Seq::<Draw>::empty() =~= before);
        }
        while i < inner.draws.len()
            invariant
                i <= inner.draws.len(),
                self.size == size,
                self@ == before + draws_moved(size, offset, inner@.take(i as int)),
            decreases inner.draws.len() - i,
        {
            proof {
                let next = inner@.take(i + 1);
                assert(next.drop_last() =~= inner@.take(i as int));
                assert(next.last() == inner@[i as int]);
                let done = draws_moved(size, offset, inner@.take(i as int));
                let one = draw_moved(size, offset, inner@[i as int]);
                assert(before + (done + one) =~= (before + done) + one);
            }
            match inner.draws[i] {
                Draw::Char { pos, c, style } => {
                    self.write_at(
                        pos.x as u32 + offset.x as u32,
                        pos.y as u32 + offset.y as u32,
                        c,
                        style,
                    );
                },
                Draw::Cursor(cursor) => {
                    let moved = match cursor {
                        Some(c) => Some(
                            Cursor {
                                pos: Vec2 {
                                    x: c.pos.x.saturating_add(offset.x),
                                    y: c.pos.y.saturating_add(offset.y),
                                },
                                shape: c.shape,
                                blinking: c.blinking,
                            },
                        ),
                        None => None,
                    };
                    self.draws.push(Draw::Cursor(moved));
                    assert(self@ =~= before + draws_moved(size, offset, inner@.take(i + 1)));
                },
            }
            i = i + 1;
        }
        assert(inner@.take(inner.draws.len() as int) =~= inner@);
    }
}

/// Text written from a column past the last one that a position holds draws nothing.
pub proof fn lemma_text_draws_outside(
    size: Vec2<u16>,
    x: int,
    y: int,
    text: Seq<char>,
    style: Style,
)
    requires
        x >= size.x,
    ensures
        text_draws(size, x, y, text, style) == Seq::<Draw>::empty(),
    decreases text.len(),
{
    if text.len() > 0 {
        lemma_text_draws_outside(size, x + advance_of(text[0]), y, text.drop_first(), style);
        assert(text_draws(size, x, y, text, style) =~= Seq::<Draw>::empty());
    }
}

/// Things drawn one after the other act on the rows one after the other.
pub proof fn lemma_rows_drawn_concat(rows: Seq<Seq<Cell>>, a: Seq<Draw>, b: Seq<Draw>)
    ensures
        rows_drawn_all(rows, a + b) == rows_drawn_all(rows_drawn_all(rows, a), b),
    decreases b.len(),
{
    if b.len() == 0 {
        assert(a + b =~= a);
    } else {
        assert((a + b).drop_last() =~= a + b.drop_last());
        assert((a + b).last() == b.last());
        lemma_rows_drawn_concat(rows, a, b.drop_last());
    }
}

/// What one written character draws changes the rows as writing the character on its row
/// does.
pub proof fn lemma_char_draws_put(
    rows: Seq<Seq<Cell>>,
    size: Vec2<u16>,
    x: int,
    y: int,
    c: char,
    style: Style,
)
    requires
        rows.len() == size.y,
        0 <= y < size.y,
        0 <= x,
        rows[y].len() == size.x,
        row_wf(rows[y]),
    ensures
        rows_drawn_all(rows, char_draws(size, x, y, c, style)) == rows.update(
            y,
            row_put(rows[y], x, c, style),
        ),
{
    let draws = char_draws(size, x, y, c, style);
    if draws.len() == 0 {
        assert(rows.update(y, rows[y]) =~= rows);
    } else {
        assert(draws.drop_last() =~= Seq::<Draw>::empty());
        assert(rows_drawn_all(rows, draws.drop_last()) == rows);
        if cells_of(c) == 2 && x + 1 >= size.x {
            lemma_release(rows[y], x);
            assert(row_put(rows[y], x, ' ', Style::plain()) =~= row_put(rows[y], x, c, style));
        }
    }
}

/// What written text draws changes the rows as writing the text on its row does: drawing to
/// an output and carrying that out on a grid comes to the same as writing to the grid.
pub proof fn lemma_text_draws_write(
    rows: Seq<Seq<Cell>>,
    size: Vec2<u16>,
    x: int,
    y: int,
    text: Seq<char>,
    style: Style,
)
    requires
        rows.len() == size.y,
        0 <= y < size.y,
        0 <= x,
        rows[y].len() == size.x,
        row_wf(rows[y]),
    ensures
        rows_drawn_all(rows, text_draws(size, x, y, text, style)) == rows.update(
            y,
            row_write(rows[y], x, text, style),
        ),
    decreases text.len(),
{
    if text.len() == 0 {
        assert(rows.update(y, rows[y]) =~= rows);
    } else {
        let first = char_draws(size, x, y, text[0], style);
        let rest = text_draws(size, x + advance_of(text[0]), y, text.drop_first(), style);
        lemma_rows_drawn_concat(rows, first, rest);
        lemma_char_draws_put(rows, size, x, y, text[0], style);
        lemma_put(rows[y], x, text[0], style);
        let next = rows.update(y, row_put(rows[y], x, text[0], style));
        lemma_text_draws_write(next, size, x + advance_of(text[0]), y, text.drop_first(), style);
        assert(next.update(
            y,
            row_write(next[y], x + advance_of(text[0]), text.drop_first(), style),
        ) =~= rows.update(y, row_write(rows[y], x, text, style)));
    }
}

} // verus!
