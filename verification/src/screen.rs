//! A model of what a backend shows, and the proof that the differ's operations bring it from
//! one frame to the next.

use crate::backend::Operation;
use crate::cell::{cell_fits, lemma_put, lemma_release, row_put, row_release, row_wf, Cell};
use crate::diff::{
    cell_ops, column_after, cursor_ops, diff_held, diff_ops, field_differs, field_op, row_held,
    row_ops, rows_held, rows_ops, set_if, shared, style_ops, style_ops_upto, Held,
};
use crate::grid::rows_wf;
use crate::style::{Attributes, Color, Cursor, CursorShape, Style};
use crate::terminal::{start_ops, Terminal};
use crate::vec2::Vec2;
use crate::width::cells_of;
use vstd::prelude::*;

verus! {

/// What a backend shows and writes with.
pub struct Screen {
    /// The cells shown, row by row.
    pub rows: Seq<Seq<Cell>>,
    /// The number of columns.
    pub width: int,
    /// The style that glyphs are written in.
    pub style: Style,
    /// Where the cursor is.
    pub cursor: Vec2<u16>,
    /// Whether the cursor is shown.
    pub visible: bool,
    /// The shape of the cursor.
    pub shape: CursorShape,
    /// Whether the cursor blinks.
    pub blinking: bool,
}

/// The column of the cursor after the character `c` was written at column `x`: behind the
/// glyph, and no further than the last column.
pub open spec fn column_written(x: int, c: char, width: int) -> int {
    if cells_of(c) == 0 || width <= 0 {
        x
    } else {
        column_after(x, cells_of(c) == 2, width)
    }
}

/// What the backend shows after one operation.
#[verifier::opaque]
pub open spec fn apply_op(s: Screen, op: Operation) -> Screen {
    match op {
        Operation::HideCursor => Screen { visible: false, ..s },
        Operation::ShowCursor => Screen { visible: true, ..s },
        Operation::SetCursorShape(shape) => Screen { shape, ..s },
        Operation::SetCursorBlinking(blinking) => Screen { blinking, ..s },
        Operation::SetCursorPos(cursor) => Screen { cursor, ..s },
        Operation::SetForeground(foreground) => Screen {
            style: Style { foreground, ..s.style },
            ..s
        },
        Operation::SetBackground(background) => Screen {
            style: Style { background, ..s.style },
            ..s
        },
        Operation::SetIntensity(intensity) => Screen {
            style: Style { attributes: Attributes { intensity, ..s.style.attributes }, ..s.style },
            ..s
        },
        Operation::SetItalic(italic) => Screen {
            style: Style { attributes: Attributes { italic, ..s.style.attributes }, ..s.style },
            ..s
        },
        Operation::SetUnderlined(underlined) => Screen {
            style: Style { attributes: Attributes { underlined, ..s.style.attributes }, ..s.style },
            ..s
        },
        Operation::SetBlinking(blinking) => Screen {
            style: Style {
                attributes: Attributes { blinking, ..s.style.attributes },
                ..s.style
            },
            ..s
        },
        Operation::SetCrossedOut(crossed_out) => Screen {
            style: Style {
                attributes: Attributes { crossed_out, ..s.style.attributes },
                ..s.style
            },
            ..s
        },
        Operation::Write(c) => Screen {
            rows: if s.cursor.y < s.rows.len() {
                s.rows.update(
                    s.cursor.y as int,
                    row_put(s.rows[s.cursor.y as int], s.cursor.x as int, c, s.style),
                )
            } else {
                s.rows
            },
            cursor: Vec2 {
                x: column_written(s.cursor.x as int, c, s.width) as u16,
                y: s.cursor.y,
            },
            ..s
        },
    }
}

/// What the backend shows after the operations, one after the other.
pub open spec fn apply_ops(s: Screen, ops: Seq<Operation>) -> Screen
    decreases ops.len(),
{
    if ops.len() == 0 {
        s
    } else {
        apply_op(apply_ops(s, ops.drop_last()), ops.last())
    }
}

/// Operations joined one after the other act one after the other.
pub proof fn lemma_apply_concat(s: Screen, a: Seq<Operation>, b: Seq<Operation>)
    ensures
        apply_ops(s, a + b) == apply_ops(apply_ops(s, a), b),
    decreases b.len(),
{
    if b.len() == 0 {
        assert(a + b =~= a);
    } else {
        assert((a + b).drop_last() =~= a + b.drop_last());
        assert((a + b).last() == b.last());
        lemma_apply_concat(s, a, b.drop_last());
    }
}

/// An operation that stands where `change` holds acts where `change` holds.
pub proof fn lemma_apply_set_if(s: Screen, change: bool, op: Operation)
    ensures
        apply_ops(s, set_if(change, op)) == if change {
            apply_op(s, op)
        } else {
            s
        },
{
    reveal(set_if);
    if change {
        lemma_apply_one(s, op);
    }
}

/// One operation alone acts as itself.
pub proof fn lemma_apply_one(s: Screen, op: Operation)
    ensures
        apply_ops(s, seq![op]) == apply_op(s, op),
{
    let ops = seq![op];
    assert(ops.drop_last() =~= Seq::<Operation>::empty());
    assert(ops.last() == op);
    assert(apply_ops(s, ops.drop_last()) == s);
}

/// After operations `a`, an operation that stands where `change` holds acts where it holds.
pub proof fn lemma_apply_then(s: Screen, a: Seq<Operation>, change: bool, op: Operation)
    ensures
        apply_ops(s, a + set_if(change, op)) == if change {
            apply_op(apply_ops(s, a), op)
        } else {
            apply_ops(s, a)
        },
{
    lemma_apply_concat(s, a, set_if(change, op));
    lemma_apply_set_if(apply_ops(s, a), change, op);
}

/// The style `held` with the first `k` of its seven fields taken from `new`, in the order in
/// which `style_ops` sets them.
pub open spec fn style_upto(held: Style, new: Style, k: int) -> Style {
    Style {
        foreground: if k >= 1 {
            new.foreground
        } else {
            held.foreground
        },
        background: if k >= 2 {
            new.background
        } else {
            held.background
        },
        attributes: Attributes {
            intensity: if k >= 3 {
                new.attributes.intensity
            } else {
                held.attributes.intensity
            },
            italic: if k >= 4 {
                new.attributes.italic
            } else {
                held.attributes.italic
            },
            underlined: if k >= 5 {
                new.attributes.underlined
            } else {
                held.attributes.underlined
            },
            blinking: if k >= 6 {
                new.attributes.blinking
            } else {
                held.attributes.blinking
            },
            crossed_out: if k >= 7 {
                new.attributes.crossed_out
            } else {
                held.attributes.crossed_out
            },
        },
    }
}

/// The style `style` with the field `k` as it is in `new`.
pub open spec fn style_with(style: Style, new: Style, k: int) -> Style {
    if k == 0 {
        Style { foreground: new.foreground, ..style }
    } else if k == 1 {
        Style { background: new.background, ..style }
    } else if k == 2 {
        Style {
            attributes: Attributes { intensity: new.attributes.intensity, ..style.attributes },
            ..style
        }
    } else if k == 3 {
        Style {
            attributes: Attributes { italic: new.attributes.italic, ..style.attributes },
            ..style
        }
    } else if k == 4 {
        Style {
            attributes: Attributes { underlined: new.attributes.underlined, ..style.attributes },
            ..style
        }
    } else if k == 5 {
        Style {
            attributes: Attributes { blinking: new.attributes.blinking, ..style.attributes },
            ..style
        }
    } else {
        Style {
            attributes: Attributes { crossed_out: new.attributes.crossed_out, ..style.attributes },
            ..style
        }
    }
}

/// The operation for the field `k` sets that field of the style that the backend writes with,
/// and changes nothing else.
pub proof fn lemma_apply_field_op(s: Screen, new: Style, k: int)
    requires
        0 <= k < 7,
    ensures
        apply_op(s, field_op(new, k)) == (Screen { style: style_with(s.style, new, k), ..s }),
{
    reveal(apply_op);
    if k == 0 {
    } else if k == 1 {
    } else if k == 2 {
    } else if k == 3 {
    } else if k == 4 {
    } else if k == 5 {
    } else {
    }
}

/// Taking one more field from `new` sets that field where the styles differ in it.
pub proof fn lemma_style_upto_step(held: Style, new: Style, k: int)
    requires
        0 <= k < 7,
    ensures
        style_upto(held, new, k + 1) == if field_differs(held, new, k) {
            style_with(style_upto(held, new, k), new, k)
        } else {
            style_upto(held, new, k)
        },
{
    if k == 0 {
    } else if k == 1 {
    } else if k == 2 {
    } else if k == 3 {
    } else if k == 4 {
    } else if k == 5 {
    } else {
    }
}

/// The operations for the first `k` fields leave the backend writing with those fields as
/// they are in `new`, and change nothing else.
pub proof fn lemma_apply_style_ops_upto(s: Screen, new: Style, k: int)
    requires
        0 <= k <= 7,
    ensures
        apply_ops(s, style_ops_upto(s.style, new, k)) == (Screen {
            style: style_upto(s.style, new, k),
            ..s
        }),
    decreases k,
{
    if k > 0 {
        lemma_apply_style_ops_upto(s, new, k - 1);
        let mid = Screen { style: style_upto(s.style, new, k - 1), ..s };
        lemma_apply_then(
            s,
            style_ops_upto(s.style, new, k - 1),
            field_differs(s.style, new, k - 1),
            field_op(new, k - 1),
        );
        lemma_apply_field_op(mid, new, k - 1);
        lemma_style_upto_step(s.style, new, k - 1);
    } else {
        assert(style_upto(s.style, new, 0) == s.style);
    }
}

/// The operations that bring one style to another leave the backend writing in the other, and
/// change nothing else.
pub proof fn lemma_apply_style_ops(s: Screen, new: Style)
    ensures
        apply_ops(s, style_ops(s.style, new)) == (Screen { style: new, ..s }),
{
    lemma_apply_style_ops_upto(s, new, 7);
    assert(style_upto(s.style, new, 7) == new);
}

/// Whether a row `v` of the backend stands between the rows `a` and `b` of two frames after
/// the first `n` cells were brought over: it shows `b` in those cells, and `a` in each later
/// cell in which the frames agree.
pub open spec fn row_synced(v: Seq<Cell>, a: Seq<Cell>, b: Seq<Cell>, n: int) -> bool {
    &&& v.len() == a.len()
    &&& v.len() == b.len()
    &&& row_wf(v)
    &&& forall|j: int| 0 <= j < n && j < v.len() ==> #[trigger] v[j] == b[j]
    &&& forall|j: int| n <= j < v.len() && a[j] == b[j] ==> #[trigger] v[j] == a[j]
}

/// A cell that the differ passes over already shows what the next frame holds.
pub proof fn lemma_skip_syncs(v: Seq<Cell>, a: Seq<Cell>, b: Seq<Cell>, n: int)
    requires
        row_synced(v, a, b, n),
        row_wf(b),
        0 <= n < v.len(),
        b[n] == a[n] || b[n].is_continuation(),
    ensures
        row_synced(v, a, b, n + 1),
{
    if b[n] != a[n] {
        assert(cell_fits(b, n));
        assert(v[n - 1] == b[n - 1]);
        assert(cell_fits(v, n - 1));
    } else {
        assert(v[n] == a[n]);
    }
    assert forall|j: int| 0 <= j < n + 1 && j < v.len() implies #[trigger] v[j] == b[j] by {
        if j < n {
            assert(v[j] == b[j]);
        }
    }
}

/// Writing the glyph of the next frame brings the cell over and keeps the row between the
/// frames.
pub proof fn lemma_put_syncs(v: Seq<Cell>, a: Seq<Cell>, b: Seq<Cell>, n: int)
    requires
        row_synced(v, a, b, n),
        row_wf(b),
        0 <= n < v.len(),
        b[n] != a[n],
        b[n] is Char,
    ensures
        row_synced(row_put(v, n, b[n]->contents, b[n]->style), a, b, n + 1),
{
    let c = b[n]->contents;
    let style = b[n]->style;
    let r = row_put(v, n, c, style);
    lemma_put(v, n, c, style);
    assert(cell_fits(b, n));
    assert(cell_fits(v, n));
    // The cell is no continuation on the backend: the glyph to its left would be one of two
    // columns in the next frame too.
    if v[n].is_continuation() {
        assert(v[n - 1] == b[n - 1]);
        assert(cell_fits(b, n - 1));
        assert(false);
    }
    lemma_release(v, n);
    let v1 = row_release(v, n);
    if b[n].is_double() {
        assert(n + 1 < v.len());
        assert(cell_fits(b, n + 1));
        lemma_release(v1, n + 1);
        let v2 = row_release(v1, n + 1);
        assert(cell_fits(v, n + 1));
        assert(r =~= v2.update(n, Cell::wide(c, style)).update(n + 1, Cell::Continuation));
        assert forall|j: int| 0 <= j < n + 1 && j < r.len() implies #[trigger] r[j] == b[j] by {
            if j < n {
                assert(v[j] == b[j]);
                assert(v1[j] == v[j]);
                assert(v2[j] == v1[j]);
            }
        }
        assert forall|j: int| n + 1 <= j < r.len() && a[j] == b[j] implies #[trigger] r[j]
            == a[j] by {
            assert(v[j] == a[j]);
            if j == n + 1 {
            } else if j == n + 2 {
                assert(cell_fits(b, n + 2));
                assert(cell_fits(v, n + 2));
                if v1[n + 1].is_double() {
                    assert(v[n + 1].is_double());
                    assert(false);
                }
                assert(v2[j] == v1[j]);
                assert(v1[j] == v[j]);
            } else {
                assert(v1[j] == v[j]);
                assert(v2[j] == v1[j]);
            }
        }
    } else {
        assert(r =~= v1.update(n, Cell::narrow(c, style)));
        assert forall|j: int| 0 <= j < n + 1 && j < r.len() implies #[trigger] r[j] == b[j] by {
            if j < n {
                assert(v[j] == b[j]);
                assert(v1[j] == v[j]);
            }
        }
        assert forall|j: int| n + 1 <= j < r.len() && a[j] == b[j] implies #[trigger] r[j]
            == a[j] by {
            assert(v[j] == a[j]);
            if j == n + 1 {
                assert(cell_fits(b, n + 1));
                assert(cell_fits(v, n + 1));
                if v[n].is_double() {
                    assert(false);
                }
                assert(v1[j] == v[j]);
            } else {
                assert(v1[j] == v[j]);
            }
        }
    }
}

/// What the backend shows after the character `c` was written in the style `style` at `pos`.
pub open spec fn written_at(s: Screen, pos: Vec2<u16>, c: char, style: Style) -> Screen {
    Screen {
        rows: if pos.y < s.rows.len() {
            s.rows.update(pos.y as int, row_put(s.rows[pos.y as int], pos.x as int, c, style))
        } else {
            s.rows
        },
        style,
        cursor: Vec2 { x: column_written(pos.x as int, c, s.width) as u16, y: pos.y },
        ..s
    }
}

/// The operations for a cell that is written leave its glyph at its place, in its style, and
/// the cursor behind it.
pub proof fn lemma_apply_cell_ops(s: Screen, old: Cell, new: Cell, pos: Vec2<u16>, held: Held)
    requires
        s.style == held.style,
        s.cursor == held.cursor,
    ensures
        apply_ops(s, cell_ops(old, new, pos, held)) == if new != old && new is Char {
            written_at(s, pos, new->contents, new->style)
        } else {
            s
        },
{
    if new != old && new is Char {
        let c = new->contents;
        let style = new->style;
        let a = style_ops(held.style, style);
        let b = set_if(held.cursor != pos, Operation::SetCursorPos(pos));
        let w = seq![Operation::Write(c)];
        assert(cell_ops(old, new, pos, held) == a + b + w);
        lemma_apply_concat(s, a + b, w);
        lemma_apply_concat(s, a, b);
        lemma_apply_style_ops(s, style);
        let s1 = Screen { style, ..s };
        assert(apply_ops(s, a) == s1);
        lemma_apply_set_if(s1, held.cursor != pos, Operation::SetCursorPos(pos));
        let s2 = Screen { cursor: pos, ..s1 };
        assert(apply_ops(s1, b) == s2) by {
            reveal(apply_op);
        }
        lemma_apply_one(s2, Operation::Write(c));
        assert(apply_op(s2, Operation::Write(c)) == written_at(s, pos, c, style)) by {
            reveal(apply_op);
        }
    } else {
        assert(cell_ops(old, new, pos, held) =~= Seq::<Operation>::empty());
    }
}

/// Whether the backend `t` shows what `s` shows but in the row `y`, with the cursor shown,
/// shaped and blinking as in `s`.
pub open spec fn same_but_row(t: Screen, s: Screen, y: int) -> bool {
    &&& t.rows.len() == s.rows.len()
    &&& forall|j: int| 0 <= j < s.rows.len() && j != y ==> #[trigger] t.rows[j] == s.rows[j]
    &&& t.width == s.width
    &&& t.visible == s.visible
    &&& t.shape == s.shape
    &&& t.blinking == s.blinking
}

/// The operations for the first `n` cells of a row bring those cells over to the next frame,
/// keep the row between the frames, and leave the backend's style and cursor as held.
pub proof fn lemma_apply_row_ops(
    s: Screen,
    a: Seq<Cell>,
    b: Seq<Cell>,
    y: u16,
    n: int,
    held: Held,
)
    requires
        0 <= n <= b.len(),
        a.len() == b.len(),
        b.len() == s.width,
        s.width <= u16::MAX,
        y < s.rows.len(),
        s.rows[y as int] == a,
        row_wf(a),
        row_wf(b),
        s.style == held.style,
        s.cursor == held.cursor,
    ensures
        ({
            let t = apply_ops(s, row_ops(a, b, y, n, s.width, held));
            let h = row_held(a, b, y, n, s.width, held);
            &&& same_but_row(t, s, y as int)
            &&& row_synced(t.rows[y as int], a, b, n)
            &&& t.style == h.style
            &&& t.cursor == h.cursor
        }),
    decreases n,
{
    if n > 0 {
        lemma_apply_row_ops(s, a, b, y, n - 1, held);
        let before = row_ops(a, b, y, n - 1, s.width, held);
        let h = row_held(a, b, y, n - 1, s.width, held);
        let t = apply_ops(s, before);
        let pos = Vec2 { x: (n - 1) as u16, y };
        lemma_apply_concat(s, before, cell_ops(a[n - 1], b[n - 1], pos, h));
        lemma_apply_cell_ops(t, a[n - 1], b[n - 1], pos, h);
        let v = t.rows[y as int];
        if b[n - 1] != a[n - 1] && b[n - 1] is Char {
            lemma_put_syncs(v, a, b, n - 1);
            assert(cell_fits(b, n - 1));
            let u = written_at(t, pos, b[n - 1]->contents, b[n - 1]->style);
            assert(same_but_row(u, s, y as int));
        } else {
            lemma_skip_syncs(v, a, b, n - 1);
        }
    } else {
        assert(row_ops(a, b, y, n, s.width, held) =~= Seq::<Operation>::empty());
    }
}

/// Whether the backend shows the first `m` rows of the frame `b` and, below them, the rows of
/// the frame `a`.
pub open spec fn rows_synced(v: Seq<Seq<Cell>>, a: Seq<Seq<Cell>>, b: Seq<Seq<Cell>>, m: int) -> bool {
    &&& v.len() == a.len()
    &&& v.len() == b.len()
    &&& forall|j: int| 0 <= j < m && j < v.len() ==> #[trigger] v[j] == b[j]
    &&& forall|j: int| m <= j < v.len() ==> #[trigger] v[j] == a[j]
}

/// The operations for the first `m` rows bring those rows over to the next frame, leave the
/// rows below as they were, and leave the backend's style and cursor as held.
pub proof fn lemma_apply_rows_ops(
    s: Screen,
    a: Seq<Seq<Cell>>,
    b: Seq<Seq<Cell>>,
    size: Vec2<u16>,
    m: int,
    held: Held,
)
    requires
        0 <= m <= b.len(),
        rows_wf(a, size),
        rows_wf(b, size),
        s.rows == a,
        s.width == size.x,
        s.style == held.style,
        s.cursor == held.cursor,
    ensures
        ({
            let t = apply_ops(s, rows_ops(a, b, m, s.width, s.width, held));
            let h = rows_held(a, b, m, s.width, s.width, held);
            &&& rows_synced(t.rows, a, b, m)
            &&& t.width == s.width
            &&& t.visible == s.visible
            &&& t.shape == s.shape
            &&& t.blinking == s.blinking
            &&& t.style == h.style
            &&& t.cursor == h.cursor
        }),
    decreases m,
{
    if m > 0 {
        lemma_apply_rows_ops(s, a, b, size, m - 1, held);
        let before = rows_ops(a, b, m - 1, s.width, s.width, held);
        let h = rows_held(a, b, m - 1, s.width, s.width, held);
        let t = apply_ops(s, before);
        let y = (m - 1) as u16;
        lemma_apply_concat(s, before, row_ops(a[m - 1], b[m - 1], y, s.width, s.width, h));
        assert(t.rows[m - 1] == a[m - 1]);
        lemma_apply_row_ops(t, a[m - 1], b[m - 1], y, s.width, h);
        let u = apply_ops(t, row_ops(a[m - 1], b[m - 1], y, s.width, s.width, h));
        assert(u.rows[m - 1] =~= b[m - 1]);
        assert forall|j: int| 0 <= j < m && j < u.rows.len() implies #[trigger] u.rows[j]
            == b[j] by {
            if j < m - 1 {
                assert(t.rows[j] == b[j]);
            }
        }
        assert forall|j: int| m <= j < u.rows.len() implies #[trigger] u.rows[j] == a[j] by {
            assert(t.rows[j] == a[j]);
        }
    } else {
        assert(rows_ops(a, b, m, s.width, s.width, held) =~= Seq::<Operation>::empty());
    }
}

/// Whether the backend shows the frame: its cells, and its cursor with its shape and blinking
/// where the frame has one.
pub open spec fn shows(s: Screen, rows: Seq<Seq<Cell>>, cursor: Option<Cursor>) -> bool {
    &&& s.rows == rows
    &&& s.visible == (cursor is Some)
    &&& cursor matches Some(c) ==> s.shape == c.shape && s.blinking == c.blinking
}

/// The operations for the cursor leave it shown, shaped, blinking and placed as the next frame
/// asks, and change nothing else.
pub proof fn lemma_apply_cursor_ops(s: Screen, old: Option<Cursor>, new: Option<Cursor>)
    requires
        s.visible == (old is Some),
        old matches Some(c) ==> s.shape == c.shape && s.blinking == c.blinking,
    ensures
        ({
            let t = apply_ops(s, cursor_ops(old, new, s.cursor));
            &&& t.rows == s.rows
            &&& t.width == s.width
            &&& t.style == s.style
            &&& t.visible == (new is Some)
            &&& match new {
                Some(c) => t.shape == c.shape && t.blinking == c.blinking && t.cursor == c.pos,
                None => t.cursor == s.cursor,
            }
        }),
{
    match new {
        Some(c) => {
            let c1 = old is None;
            let c2 = old is None || old.unwrap().shape != c.shape;
            let c3 = old is None || old.unwrap().blinking != c.blinking;
            let c4 = s.cursor != c.pos;
            let o1 = set_if(c1, Operation::ShowCursor);
            let o2 = o1 + set_if(c2, Operation::SetCursorShape(c.shape));
            let o3 = o2 + set_if(c3, Operation::SetCursorBlinking(c.blinking));
            let t1 = Screen { visible: true, ..s };
            let t2 = Screen { shape: c.shape, ..t1 };
            let t3 = Screen { blinking: c.blinking, ..t2 };
            let t4 = Screen { cursor: c.pos, ..t3 };
            assert(apply_ops(s, o1) == t1) by {
                reveal(apply_op);
                lemma_apply_set_if(s, c1, Operation::ShowCursor);
            }
            assert(apply_ops(s, o2) == t2) by {
                reveal(apply_op);
                lemma_apply_then(s, o1, c2, Operation::SetCursorShape(c.shape));
            }
            assert(apply_ops(s, o3) == t3) by {
                reveal(apply_op);
                lemma_apply_then(s, o2, c3, Operation::SetCursorBlinking(c.blinking));
            }
            assert(apply_ops(s, o3 + set_if(c4, Operation::SetCursorPos(c.pos))) == t4) by {
                reveal(apply_op);
                lemma_apply_then(s, o3, c4, Operation::SetCursorPos(c.pos));
            }
        },
        None => {
            reveal(apply_op);
            lemma_apply_set_if(s, old is Some, Operation::HideCursor);
        },
    }
}

/// The differ's operations bring a backend that shows one frame to show the next.
///
/// Where both frames have the same size, the backend shows the frame `a`, and it writes in
/// the held style with its cursor at the held place, then after the operations of `diff_ops`
/// it shows the frame `b`, its cursor is where that frame asks, and it writes in the style and
/// has its cursor at the place that `diff_held` gives.
pub proof fn lemma_diff_shows_new(
    s: Screen,
    a: Seq<Seq<Cell>>,
    a_cursor: Option<Cursor>,
    b: Seq<Seq<Cell>>,
    b_cursor: Option<Cursor>,
    size: Vec2<u16>,
    held: Held,
)
    requires
        rows_wf(a, size),
        rows_wf(b, size),
        s.width == size.x,
        shows(s, a, a_cursor),
        s.style == held.style,
        s.cursor == held.cursor,
    ensures
        ({
            let t = apply_ops(
                s,
                diff_ops(a, a_cursor, b, b_cursor, size.x as int, size.x as int, held),
            );
            let h = diff_held(a, b, b_cursor, size.x as int, size.x as int, held);
            &&& shows(t, b, b_cursor)
            &&& b_cursor matches Some(c) ==> t.cursor == c.pos
            &&& t.width == s.width
            &&& t.style == h.style
            &&& t.cursor == h.cursor
        }),
{
    let w = size.x as int;
    let m = shared(a.len() as int, b.len() as int);
    let cells = rows_ops(a, b, m, w, w, held);
    let h = rows_held(a, b, m, w, w, held);
    let back = seq![Operation::SetBackground(Color::Default)];
    let cur = cursor_ops(a_cursor, b_cursor, h.cursor);
    lemma_apply_rows_ops(s, a, b, size, m, held);
    let t1 = apply_ops(s, cells);
    assert(t1.rows =~= b);
    lemma_apply_concat(s, cells + back, cur);
    lemma_apply_concat(s, cells, back);
    lemma_apply_one(t1, Operation::SetBackground(Color::Default));
    let t2 = Screen { style: Style { background: Color::Default, ..t1.style }, ..t1 };
    assert(apply_ops(t1, back) == t2) by {
        reveal(apply_op);
    }
    lemma_apply_cursor_ops(t2, a_cursor, b_cursor);
}

impl Terminal {
    /// Whether the backend is as the terminal holds it to be: it shows the frame that the
    /// terminal has as shown, in the terminal's size, and writes with the held style with its
    /// cursor at the held place.
    pub open spec fn in_step(&self, s: Screen) -> bool {
        &&& shows(s, self.shown().grid@, self.shown().cursor)
        &&& s.width == self.spec_size().x
        &&& s.style == self.spec_held().style
        &&& s.cursor == self.spec_held().cursor
    }
}

/// One more operation acts after those before it.
pub proof fn lemma_apply_push(s: Screen, ops: Seq<Operation>, op: Operation)
    ensures
        apply_ops(s, ops.push(op)) == apply_op(apply_ops(s, ops), op),
{
    assert(ops.push(op).drop_last() =~= ops);
    assert(ops.push(op).last() == op);
}

/// The operations of a new terminal leave the backend with its cursor hidden at the top left
/// and writing in the default style, and change nothing that it shows.
pub proof fn lemma_start_ops(s: Screen)
    ensures
        apply_ops(s, start_ops()) == (Screen {
            visible: false,
            cursor: Vec2 { x: 0u16, y: 0u16 },
            style: Style::plain(),
            ..s
        }),
{
    let e = Seq::<Operation>::empty();
    let o1 = e.push(Operation::HideCursor);
    let o2 = o1.push(Operation::SetCursorPos(Vec2 { x: 0u16, y: 0u16 }));
    let o3 = o2.push(Operation::SetForeground(Color::Default));
    let o4 = o3.push(Operation::SetBackground(Color::Default));
    let o5 = o4.push(Operation::SetIntensity(crate::style::Intensity::Normal));
    let o6 = o5.push(Operation::SetItalic(false));
    let o7 = o6.push(Operation::SetUnderlined(false));
    let o8 = o7.push(Operation::SetBlinking(false));
    let o9 = o8.push(Operation::SetCrossedOut(false));
    assert(o9 =~= start_ops());
    let plain = Style::plain();
    let t1 = Screen { visible: false, ..s };
    let t2 = Screen { cursor: Vec2 { x: 0u16, y: 0u16 }, ..t1 };
    let t3 = Screen { style: style_upto(s.style, plain, 1), ..t2 };
    let t4 = Screen { style: style_upto(s.style, plain, 2), ..t2 };
    let t5 = Screen { style: style_upto(s.style, plain, 3), ..t2 };
    let t6 = Screen { style: style_upto(s.style, plain, 4), ..t2 };
    let t7 = Screen { style: style_upto(s.style, plain, 5), ..t2 };
    let t8 = Screen { style: style_upto(s.style, plain, 6), ..t2 };
    let t9 = Screen { style: style_upto(s.style, plain, 7), ..t2 };
    assert(apply_ops(s, o1) == t1) by {
        reveal(apply_op);
        lemma_apply_push(s, e, Operation::HideCursor);
    }
    assert(apply_ops(s, o2) == t2) by {
        reveal(apply_op);
        lemma_apply_push(s, o1, Operation::SetCursorPos(Vec2 { x: 0u16, y: 0u16 }));
    }
    assert(apply_ops(s, o3) == t3) by {
        lemma_apply_push(s, o2, field_op(plain, 0));
        lemma_apply_field_op(t2, plain, 0);
    }
    assert(apply_ops(s, o4) == t4) by {
        lemma_apply_push(s, o3, field_op(plain, 1));
        lemma_apply_field_op(t3, plain, 1);
    }
    assert(apply_ops(s, o5) == t5) by {
        lemma_apply_push(s, o4, field_op(plain, 2));
        lemma_apply_field_op(t4, plain, 2);
    }
    assert(apply_ops(s, o6) == t6) by {
        lemma_apply_push(s, o5, field_op(plain, 3));
        lemma_apply_field_op(t5, plain, 3);
    }
    assert(apply_ops(s, o7) == t7) by {
        lemma_apply_push(s, o6, field_op(plain, 4));
        lemma_apply_field_op(t6, plain, 4);
    }
    assert(apply_ops(s, o8) == t8) by {
        lemma_apply_push(s, o7, field_op(plain, 5));
        lemma_apply_field_op(t7, plain, 5);
    }
    assert(apply_ops(s, o9) == t9) by {
        lemma_apply_push(s, o8, field_op(plain, 6));
        lemma_apply_field_op(t8, plain, 6);
    }
    assert(style_upto(s.style, plain, 7) == plain);
}

/// A backend that shows empty cells is, after the operations of a new terminal of its size,
/// as that terminal holds it to be.
pub proof fn lemma_new_in_step(terminal: Terminal, s: Screen)
    requires
        terminal.wf(),
        terminal.shown().grid@ == s.rows,
        terminal.shown().cursor is None,
        terminal.spec_held() == (Held { style: Style::plain(), cursor: Vec2 { x: 0u16, y: 0u16 } }),
        s.width == terminal.spec_size().x,
    ensures
        terminal.in_step(apply_ops(s, start_ops())),
{
    lemma_start_ops(s);
}

/// A frame keeps the backend in step with the terminal: where the backend is as the terminal
/// holds it to be before a frame, it is so again after the operations of the frame, with the
/// frame shown and the cursor where the frame asks.
pub proof fn lemma_frame_in_step(before: Terminal, after: Terminal, ops: Seq<Operation>, s: Screen)
    requires
        before.wf(),
        after.wf(),
        after.spec_size() == before.spec_size(),
        before.in_step(s),
        ops == diff_ops(
            before.shown().grid@,
            before.shown().cursor,
            after.shown().grid@,
            after.shown().cursor,
            before.spec_size().x as int,
            before.spec_size().x as int,
            before.spec_held(),
        ),
        after.spec_held() == diff_held(
            before.shown().grid@,
            after.shown().grid@,
            after.shown().cursor,
            before.spec_size().x as int,
            before.spec_size().x as int,
            before.spec_held(),
        ),
    ensures
        after.in_step(apply_ops(s, ops)),
        after.shown().cursor matches Some(c) ==> apply_ops(s, ops).cursor == c.pos,
{
    lemma_diff_shows_new(
        s,
        before.shown().grid@,
        before.shown().cursor,
        after.shown().grid@,
        after.shown().cursor,
        before.spec_size(),
        before.spec_held(),
    );
}

} // verus!
