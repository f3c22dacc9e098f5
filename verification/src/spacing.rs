//! The differ asks for nothing twice: between two operations that set the same part of the
//! backend's state there is always a glyph written.

use crate::backend::Operation;
use crate::cell::Cell;
use crate::diff::{
    cell_ops, cursor_ops, diff_ops, field_op, lemma_concat_assoc, row_held, row_ops, rows_held,
    rows_ops, set_if, shared, style_ops, style_ops_upto, Held,
};
use crate::style::{Color, Cursor, Style};
use crate::vec2::Vec2;
use vstd::prelude::*;

verus! {

/// The part of the backend's state that an operation sets, as a number; a written glyph sets
/// none of them and has -1.
pub open spec fn field_of(op: Operation) -> int {
    match op {
        Operation::SetForeground(_) => 0,
        Operation::SetBackground(_) => 1,
        Operation::SetIntensity(_) => 2,
        Operation::SetItalic(_) => 3,
        Operation::SetUnderlined(_) => 4,
        Operation::SetBlinking(_) => 5,
        Operation::SetCrossedOut(_) => 6,
        Operation::SetCursorPos(_) => 7,
        Operation::ShowCursor => 8,
        Operation::HideCursor => 8,
        Operation::SetCursorShape(_) => 9,
        Operation::SetCursorBlinking(_) => 10,
        Operation::Write(_) => -1,
    }
}

/// Whether a glyph is written between the operations at `i` and at `j`.
pub open spec fn write_between(ops: Seq<Operation>, i: int, j: int) -> bool {
    exists|k: int| i < k < j && (#[trigger] ops[k]) is Write
}

/// Whether a glyph is written between any two operations that set the same part of the
/// backend's state: no operation is undone or repeated before it has served a glyph.
pub open spec fn spaced(ops: Seq<Operation>) -> bool {
    forall|i: int, j: int|
        0 <= i < j < ops.len() && field_of(ops[i]) >= 0 && field_of(ops[i]) == field_of(ops[j])
            ==> #[trigger] write_between(ops, i, j)
}

/// Whether the operations are spaced and end with a written glyph, where there are any.
pub open spec fn tidy(ops: Seq<Operation>) -> bool {
    spaced(ops) && (ops.len() > 0 ==> ops.last() is Write)
}

/// Whether no two of the operations set the same part of the backend's state.
pub open spec fn distinct(ops: Seq<Operation>) -> bool {
    forall|i: int, j: int|
        0 <= i < j < ops.len() && field_of(#[trigger] ops[i]) >= 0 ==> field_of(ops[i])
            != field_of(#[trigger] ops[j])
}

/// Whether the operations set parts of the state below `bound`, each a later part than the one
/// before.
pub open spec fn ascending(ops: Seq<Operation>, bound: int) -> bool {
    &&& forall|i: int| 0 <= i < ops.len() ==> 0 <= field_of(#[trigger] ops[i]) < bound
    &&& forall|i: int, j: int|
        0 <= i < j < ops.len() ==> field_of(#[trigger] ops[i]) < field_of(#[trigger] ops[j])
}

/// Tidy operations followed by operations on distinct parts of the state are spaced.
pub proof fn lemma_spaced_append(p: Seq<Operation>, q: Seq<Operation>)
    requires
        tidy(p),
        distinct(q),
    ensures
        spaced(p + q),
{
    let r = p + q;
    assert forall|i: int, j: int|
        0 <= i < j < r.len() && field_of(r[i]) >= 0 && field_of(r[i]) == field_of(
            r[j],
        ) implies #[trigger] write_between(r, i, j) by {
        if j < p.len() {
            assert(r[i] == p[i] && r[j] == p[j]);
            assert(write_between(p, i, j));
            let k = choose|k: int| i < k < j && (#[trigger] p[k]) is Write;
            assert(r[k] == p[k]);
        } else if i >= p.len() {
            assert(r[i] == q[i - p.len()]);
            assert(r[j] == q[j - p.len()]);
            assert(false);
        } else {
            let k = p.len() - 1;
            assert(r[k] == p.last());
            assert(r[i] == p[i]);
            assert(i != k);
        }
    }
}

/// Tidy operations followed by a block on distinct parts of the state that ends with a glyph
/// are tidy.
pub proof fn lemma_tidy_append(p: Seq<Operation>, q: Seq<Operation>)
    requires
        tidy(p),
        distinct(q),
        q.len() > 0 ==> q.last() is Write,
    ensures
        tidy(p + q),
{
    lemma_spaced_append(p, q);
    if q.len() > 0 {
        assert((p + q).last() == q.last());
    } else {
        assert(p + q =~= p);
    }
}

/// The operations for the first `k` fields of a style set those fields in their order.
pub proof fn lemma_style_ops_ascending(held: Style, new: Style, k: int)
    requires
        0 <= k <= 7,
    ensures
        ascending(style_ops_upto(held, new, k), k),
    decreases k,
{
    reveal(set_if);
    if k > 0 {
        lemma_style_ops_ascending(held, new, k - 1);
        let p = style_ops_upto(held, new, k - 1);
        let r = style_ops_upto(held, new, k);
        assert(field_of(field_op(new, k - 1)) == k - 1);
        assert forall|i: int| 0 <= i < r.len() implies 0 <= field_of(#[trigger] r[i]) < k by {
            if i < p.len() {
                assert(r[i] == p[i]);
            }
        }
        assert forall|i: int, j: int| 0 <= i < j < r.len() implies field_of(#[trigger] r[i])
            < field_of(#[trigger] r[j]) by {
            assert(r[i] == p[i]);
            if j < p.len() {
                assert(r[j] == p[j]);
            }
        }
    }
}

/// The operations for one cell set distinct parts of the state and end with the glyph.
pub proof fn lemma_cell_ops_block(old: Cell, new: Cell, pos: Vec2<u16>, held: Held)
    ensures
        distinct(cell_ops(old, new, pos, held)),
        cell_ops(old, new, pos, held).len() > 0 ==> cell_ops(old, new, pos, held).last() is Write,
{
    reveal(set_if);
    let q = cell_ops(old, new, pos, held);
    if new != old && new is Char {
        let a = style_ops(held.style, new->style);
        let b = set_if(held.cursor != pos, Operation::SetCursorPos(pos));
        lemma_style_ops_ascending(held.style, new->style, 7);
        assert(q == a + b + seq![Operation::Write(new->contents)]);
        assert forall|i: int, j: int|
            0 <= i < j < q.len() && field_of(#[trigger] q[i]) >= 0 implies field_of(q[i])
                != field_of(#[trigger] q[j]) by {
            if i < a.len() {
                assert(q[i] == a[i]);
            }
            if j < a.len() {
                assert(q[j] == a[j]);
            }
        }
    } else {
        assert(q =~= Seq::<Operation>::empty());
    }
}

/// Tidy operations followed by those for the first `n` cells of a row are tidy.
pub proof fn lemma_row_ops_tidy(
    p: Seq<Operation>,
    old: Seq<Cell>,
    new: Seq<Cell>,
    y: u16,
    n: int,
    width: int,
    held: Held,
)
    requires
        tidy(p),
    ensures
        tidy(p + row_ops(old, new, y, n, width, held)),
    decreases n,
{
    if n > 0 {
        lemma_row_ops_tidy(p, old, new, y, n - 1, width, held);
        let before = row_ops(old, new, y, n - 1, width, held);
        let q = cell_ops(
            old[n - 1],
            new[n - 1],
            Vec2 { x: (n - 1) as u16, y },
            row_held(old, new, y, n - 1, width, held),
        );
        lemma_cell_ops_block(
            old[n - 1],
            new[n - 1],
            Vec2 { x: (n - 1) as u16, y },
            row_held(old, new, y, n - 1, width, held),
        );
        lemma_tidy_append(p + before, q);
        lemma_concat_assoc(p, before, q);
    } else {
        assert(p + row_ops(old, new, y, n, width, held) =~= p);
    }
}

/// The operations for the first `m` rows are tidy.
pub proof fn lemma_rows_ops_tidy(
    old: Seq<Seq<Cell>>,
    new: Seq<Seq<Cell>>,
    m: int,
    cols: int,
    width: int,
    held: Held,
)
    ensures
        tidy(rows_ops(old, new, m, cols, width, held)),
    decreases m,
{
    if m > 0 {
        lemma_rows_ops_tidy(old, new, m - 1, cols, width, held);
        lemma_row_ops_tidy(
            rows_ops(old, new, m - 1, cols, width, held),
            old[m - 1],
            new[m - 1],
            (m - 1) as u16,
            cols,
            width,
            rows_held(old, new, m - 1, cols, width, held),
        );
    }
}

/// In what the differ asks for, a glyph is written between any two operations that set the
/// same part of the backend's state.
pub proof fn lemma_diff_spaced(
    old: Seq<Seq<Cell>>,
    old_cursor: Option<Cursor>,
    new: Seq<Seq<Cell>>,
    new_cursor: Option<Cursor>,
    cols: int,
    width: int,
    held: Held,
)
    ensures
        spaced(diff_ops(old, old_cursor, new, new_cursor, cols, width, held)),
{
    reveal(set_if);
    let m = shared(old.len() as int, new.len() as int);
    let cells = rows_ops(old, new, m, cols, width, held);
    let back = seq![Operation::SetBackground(Color::Default)];
    let cur = cursor_ops(old_cursor, new_cursor, rows_held(old, new, m, cols, width, held).cursor);
    lemma_rows_ops_tidy(old, new, m, cols, width, held);
    let tail = back + cur;
    assert(distinct(tail));
    lemma_spaced_append(cells, tail);
    lemma_concat_assoc(cells, back, cur);
}

} // verus!
