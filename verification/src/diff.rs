//! The frame differ: the operations that turn what a backend shows into the next frame.

use crate::backend::Operation;
use crate::buffer::Buffer;
use crate::cell::Cell;
use crate::style::{Color, Cursor, Style};
use crate::vec2::{min_int, Vec2};
use vstd::prelude::*;

verus! {

/// What the library holds to be the backend's state between frames: the style it writes with
/// and the place of its cursor.
#[derive(Debug, Clone, Copy, Hash, PartialEq, Eq, Structural)]
pub struct Held {
    /// The style that the backend writes with.
    pub style: Style,
    /// Where the backend's cursor is.
    pub cursor: Vec2<u16>,
}

/// The operation alone where `change` holds, nothing otherwise.
#[verifier::opaque]
pub open spec fn set_if(change: bool, op: Operation) -> Seq<Operation> {
    if change {
        seq![op]
    } else {
        Seq::empty()
    }
}

/// Whether the styles differ in the field `k`, the fields counted in the order foreground,
/// background, intensity, italic, underlined, blinking, crossed out.
pub open spec fn field_differs(held: Style, new: Style, k: int) -> bool {
    if k == 0 {
        held.foreground != new.foreground
    } else if k == 1 {
        held.background != new.background
    } else if k == 2 {
        held.attributes.intensity != new.attributes.intensity
    } else if k == 3 {
        held.attributes.italic != new.attributes.italic
    } else if k == 4 {
        held.attributes.underlined != new.attributes.underlined
    } else if k == 5 {
        held.attributes.blinking != new.attributes.blinking
    } else {
        held.attributes.crossed_out != new.attributes.crossed_out
    }
}

/// The operation that sets the field `k` to what it is in `new`.
pub open spec fn field_op(new: Style, k: int) -> Operation {
    if k == 0 {
        Operation::SetForeground(new.foreground)
    } else if k == 1 {
        Operation::SetBackground(new.background)
    } else if k == 2 {
        Operation::SetIntensity(new.attributes.intensity)
    } else if k == 3 {
        Operation::SetItalic(new.attributes.italic)
    } else if k == 4 {
        Operation::SetUnderlined(new.attributes.underlined)
    } else if k == 5 {
        Operation::SetBlinking(new.attributes.blinking)
    } else {
        Operation::SetCrossedOut(new.attributes.crossed_out)
    }
}

/// The operations that bring the first `k` fields of the style `held` to what they are in
/// `new`: one for each of them in which the styles differ, in the order of the fields.
pub open spec fn style_ops_upto(held: Style, new: Style, k: int) -> Seq<Operation>
    decreases k,
{
    if k <= 0 {
        Seq::empty()
    } else {
        style_ops_upto(held, new, k - 1) + set_if(
            field_differs(held, new, k - 1),
            field_op(new, k - 1),
        )
    }
}

/// The operations that bring the style `held` to the style `new`: one for each of the seven
/// fields in which they differ, in the order foreground, background, intensity, italic,
/// underlined, blinking, crossed out.
pub open spec fn style_ops(held: Style, new: Style) -> Seq<Operation> {
    style_ops_upto(held, new, 7)
}

/// The column of the backend's cursor after a glyph was written at column `x` of a grid of
/// `width` columns.
pub open spec fn column_after(x: int, double: bool, width: int) -> int {
    min_int(
        x + if double {
            2int
        } else {
            1int
        },
        width - 1,
    )
}

/// The operations for one cell: nothing where it is not written, else the changes of style,
/// then a move where the cursor is elsewhere, then the glyph.
pub open spec fn cell_ops(old: Cell, new: Cell, pos: Vec2<u16>, held: Held) -> Seq<Operation> {
    match new {
        Cell::Char { contents, double, style } if new != old => style_ops(held.style, style)
            + set_if(held.cursor != pos, Operation::SetCursorPos(pos)) + seq![
            Operation::Write(contents),
        ],
        _ => Seq::empty(),
    }
}

/// What is held after one cell: the style of a written glyph, and the cursor behind it.
pub open spec fn cell_held(old: Cell, new: Cell, pos: Vec2<u16>, width: int, held: Held) -> Held {
    match new {
        Cell::Char { contents, double, style } if new != old => Held {
            style,
            cursor: Vec2 { x: column_after(pos.x as int, double, width) as u16, y: pos.y },
        },
        _ => held,
    }
}

/// What is held after the first `n` cells of the row `y`.
pub open spec fn row_held(
    old: Seq<Cell>,
    new: Seq<Cell>,
    y: u16,
    n: int,
    width: int,
    held: Held,
) -> Held
    decreases n,
{
    if n <= 0 {
        held
    } else {
        cell_held(
            old[n - 1],
            new[n - 1],
            Vec2 { x: (n - 1) as u16, y },
            width,
            row_held(old, new, y, n - 1, width, held),
        )
    }
}

/// The operations for the first `n` cells of the row `y`, from the left.
pub open spec fn row_ops(
    old: Seq<Cell>,
    new: Seq<Cell>,
    y: u16,
    n: int,
    width: int,
    held: Held,
) -> Seq<Operation>
    decreases n,
{
    if n <= 0 {
        Seq::empty()
    } else {
        row_ops(old, new, y, n - 1, width, held) + cell_ops(
            old[n - 1],
            new[n - 1],
            Vec2 { x: (n - 1) as u16, y },
            row_held(old, new, y, n - 1, width, held),
        )
    }
}

/// What is held after the first `cols` cells of each of the first `m` rows.
pub open spec fn rows_held(
    old: Seq<Seq<Cell>>,
    new: Seq<Seq<Cell>>,
    m: int,
    cols: int,
    width: int,
    held: Held,
) -> Held
    decreases m,
{
    if m <= 0 {
        held
    } else {
        row_held(
            old[m - 1],
            new[m - 1],
            (m - 1) as u16,
            cols,
            width,
            rows_held(old, new, m - 1, cols, width, held),
        )
    }
}

/// The operations for the first `cols` cells of each of the first `m` rows, from the top.
pub open spec fn rows_ops(
    old: Seq<Seq<Cell>>,
    new: Seq<Seq<Cell>>,
    m: int,
    cols: int,
    width: int,
    held: Held,
) -> Seq<Operation>
    decreases m,
{
    if m <= 0 {
        Seq::empty()
    } else {
        rows_ops(old, new, m - 1, cols, width, held) + row_ops(
            old[m - 1],
            new[m - 1],
            (m - 1) as u16,
            cols,
            width,
            rows_held(old, new, m - 1, cols, width, held),
        )
    }
}

/// The operations that bring the backend's cursor from that of the frame shown to that of the
/// next frame, with the backend's cursor at `at`.
pub open spec fn cursor_ops(old: Option<Cursor>, new: Option<Cursor>, at: Vec2<u16>) -> Seq<
    Operation,
> {
    match new {
        Some(cursor) => set_if(old is None, Operation::ShowCursor) + set_if(
            old is None || old.unwrap().shape != cursor.shape,
            Operation::SetCursorShape(cursor.shape),
        ) + set_if(
            old is None || old.unwrap().blinking != cursor.blinking,
            Operation::SetCursorBlinking(cursor.blinking),
        ) + set_if(at != cursor.pos, Operation::SetCursorPos(cursor.pos)),
        None => set_if(old is Some, Operation::HideCursor),
    }
}

/// The part of two frames that the differ compares: as many rows and columns as both have.
pub open spec fn shared(a: int, b: int) -> int {
    min_int(a, b)
}

/// The operations that bring a backend which shows the frame `old` to show the frame `new`:
/// those for the cells, row by row, then the background set back to the default, then those
/// for the cursor.
pub open spec fn diff_ops(
    old: Seq<Seq<Cell>>,
    old_cursor: Option<Cursor>,
    new: Seq<Seq<Cell>>,
    new_cursor: Option<Cursor>,
    cols: int,
    width: int,
    held: Held,
) -> Seq<Operation> {
    let rows = shared(old.len() as int, new.len() as int);
    rows_ops(old, new, rows, cols, width, held) + seq![Operation::SetBackground(Color::Default)]
        + cursor_ops(old_cursor, new_cursor, rows_held(old, new, rows, cols, width, held).cursor)
}

/// What is held after the operations of `diff_ops`.
pub open spec fn diff_held(
    old: Seq<Seq<Cell>>,
    new: Seq<Seq<Cell>>,
    new_cursor: Option<Cursor>,
    cols: int,
    width: int,
    held: Held,
) -> Held {
    let rows = shared(old.len() as int, new.len() as int);
    let after = rows_held(old, new, rows, cols, width, held);
    Held {
        style: Style { background: Color::Default, ..after.style },
        cursor: match new_cursor {
            Some(cursor) => cursor.pos,
            None => after.cursor,
        },
    }
}

/// Cells that are the same in both frames ask for no operation and leave what is held.
pub proof fn lemma_row_same(row: Seq<Cell>, y: u16, n: int, width: int, held: Held)
    ensures
        row_ops(row, row, y, n, width, held) == Seq::<Operation>::empty(),
        row_held(row, row, y, n, width, held) == held,
    decreases n,
{
    if n > 0 {
        lemma_row_same(row, y, n - 1, width, held);
        assert(row_ops(row, row, y, n, width, held) =~= Seq::<Operation>::empty());
    }
}

/// Rows that are the same in both frames ask for no operation and leave what is held.
pub proof fn lemma_rows_same(rows: Seq<Seq<Cell>>, m: int, cols: int, width: int, held: Held)
    ensures
        rows_ops(rows, rows, m, cols, width, held) == Seq::<Operation>::empty(),
        rows_held(rows, rows, m, cols, width, held) == held,
    decreases m,
{
    if m > 0 {
        lemma_rows_same(rows, m - 1, cols, width, held);
        lemma_row_same(rows[m - 1], (m - 1) as u16, cols, width, held);
        assert(rows_ops(rows, rows, m, cols, width, held) =~= Seq::<Operation>::empty());
    }
}

/// From a frame to itself the differ asks only for the background to be set back, and for the
/// cursor to move where the frame has one that is not at the held place.
pub proof fn lemma_diff_same(
    rows: Seq<Seq<Cell>>,
    cursor: Option<Cursor>,
    cols: int,
    width: int,
    held: Held,
)
    ensures
        diff_ops(rows, cursor, rows, cursor, cols, width, held) == seq![
            Operation::SetBackground(Color::Default),
        ] + set_if(
            cursor is Some && held.cursor != cursor.unwrap().pos,
            Operation::SetCursorPos(cursor.unwrap().pos),
        ),
        cursor is None || held.cursor == cursor.unwrap().pos ==> diff_ops(
            rows,
            cursor,
            rows,
            cursor,
            cols,
            width,
            held,
        ) == seq![Operation::SetBackground(Color::Default)],
{
    reveal(set_if);
    let m = shared(rows.len() as int, rows.len() as int);
    lemma_rows_same(rows, m, cols, width, held);
    let back = seq![Operation::SetBackground(Color::Default)];
    let cur = cursor_ops(cursor, cursor, held.cursor);
    assert(cur =~= set_if(
        cursor is Some && held.cursor != cursor.unwrap().pos,
        Operation::SetCursorPos(cursor.unwrap().pos),
    ));
    assert(Seq::<Operation>::empty() + back =~= back);
    assert(back + Seq::<Operation>::empty() =~= back);
}

/// Frames without columns to compare ask for no operation on cells and leave what is held.
pub proof fn lemma_rows_none(
    old: Seq<Seq<Cell>>,
    new: Seq<Seq<Cell>>,
    m: int,
    width: int,
    held: Held,
)
    ensures
        rows_ops(old, new, m, 0, width, held) == Seq::<Operation>::empty(),
        rows_held(old, new, m, 0, width, held) == held,
    decreases m,
{
    if m > 0 {
        lemma_rows_none(old, new, m - 1, width, held);
        assert(rows_ops(old, new, m, 0, width, held) =~= Seq::<Operation>::empty());
    }
}

/// Towards a frame without rows or without columns the differ asks for no write and no move
/// for a cell: only for the background to be set back, and then for what the cursor needs.
pub proof fn lemma_diff_empty(
    old: Seq<Seq<Cell>>,
    old_cursor: Option<Cursor>,
    new: Seq<Seq<Cell>>,
    new_cursor: Option<Cursor>,
    cols: int,
    width: int,
    held: Held,
)
    requires
        new.len() == 0 || cols == 0,
    ensures
        diff_ops(old, old_cursor, new, new_cursor, cols, width, held) == seq![
            Operation::SetBackground(Color::Default),
        ] + cursor_ops(old_cursor, new_cursor, held.cursor),
        old_cursor is None && new_cursor is None ==> diff_ops(
            old,
            old_cursor,
            new,
            new_cursor,
            cols,
            width,
            held,
        ) == seq![Operation::SetBackground(Color::Default)],
{
    reveal(set_if);
    let m = shared(old.len() as int, new.len() as int);
    if cols == 0 {
        lemma_rows_none(old, new, m, width, held);
    }
    let back = seq![Operation::SetBackground(Color::Default)];
    assert(Seq::<Operation>::empty() + back =~= back);
    assert(back + Seq::<Operation>::empty() =~= back);
}

/// For the first `k` fields of two equal styles there is no operation.
pub proof fn lemma_same_style_upto(style: Style, k: int)
    ensures
        style_ops_upto(style, style, k) == Seq::<Operation>::empty(),
    decreases k,
{
    reveal(set_if);
    if k > 0 {
        lemma_same_style_upto(style, k - 1);
        assert(style_ops_upto(style, style, k) =~= Seq::<Operation>::empty());
    }
}

/// Between two glyphs of one style the differ asks for no change of style.
pub proof fn lemma_same_style_no_ops(style: Style)
    ensures
        style_ops(style, style) == Seq::<Operation>::empty(),
{
    lemma_same_style_upto(style, 7);
}

/// Joining sequences one after the other gives the same whichever two are joined first.
pub proof fn lemma_concat_assoc<T>(a: Seq<T>, b: Seq<T>, c: Seq<T>)
    ensures
        (a + b) + c == a + (b + c),
{
    assert((a + b) + c =~= a + (b + c));
}

/// Appends the operation where `change` holds.
fn push_if(ops: &mut Vec<Operation>, change: bool, op: Operation)
    ensures
        final(ops)@ == old(ops)@ + set_if(change, op),
{
    reveal(set_if);
    if change {
        ops.push(op);
    }
    assert(ops@ =~= old(ops)@ + set_if(change, op));
}

/// Appends the operation for the field `k` where the styles differ in it.
fn push_field(
    ops: &mut Vec<Operation>,
    change: bool,
    op: Operation,
    Ghost(before): Ghost<Seq<Operation>>,
    Ghost(held): Ghost<Style>,
    Ghost(new): Ghost<Style>,
    Ghost(k): Ghost<int>,
)
    requires
        0 <= k,
        old(ops)@ == before + style_ops_upto(held, new, k),
        change == field_differs(held, new, k),
        op == field_op(new, k),
    ensures
        final(ops)@ == before + style_ops_upto(held, new, k + 1),
{
    push_if(ops, change, op);
    proof {
        lemma_concat_assoc(before, style_ops_upto(held, new, k), set_if(change, op));
    }
}

/// Appends the operations that bring the style `held` to the style `new`.
fn push_style_ops(ops: &mut Vec<Operation>, held: Style, new: Style)
    ensures
        final(ops)@ == old(ops)@ + style_ops(held, new),
{
    let ghost before = ops@;
    assert(ops@ =~= before + style_ops_upto(held, new, 0));
    push_field(
        ops,
        held.foreground != new.foreground,
        Operation::SetForeground(new.foreground),
        Ghost(before),
        Ghost(held),
        Ghost(new),
        Ghost(0),
    );
    push_field(
        ops,
        held.background != new.background,
        Operation::SetBackground(new.background),
        Ghost(before),
        Ghost(held),
        Ghost(new),
        Ghost(1),
    );
    push_field(
        ops,
        held.attributes.intensity != new.attributes.intensity,
        Operation::SetIntensity(new.attributes.intensity),
        Ghost(before),
        Ghost(held),
        Ghost(new),
        Ghost(2),
    );
    push_field(
        ops,
        held.attributes.italic != new.attributes.italic,
        Operation::SetItalic(new.attributes.italic),
        Ghost(before),
        Ghost(held),
        Ghost(new),
        Ghost(3),
    );
    push_field(
        ops,
        held.attributes.underlined != new.attributes.underlined,
        Operation::SetUnderlined(new.attributes.underlined),
        Ghost(before),
        Ghost(held),
        Ghost(new),
        Ghost(4),
    );
    push_field(
        ops,
        held.attributes.blinking != new.attributes.blinking,
        Operation::SetBlinking(new.attributes.blinking),
        Ghost(before),
        Ghost(held),
        Ghost(new),
        Ghost(5),
    );
    push_field(
        ops,
        held.attributes.crossed_out != new.attributes.crossed_out,
        Operation::SetCrossedOut(new.attributes.crossed_out),
        Ghost(before),
        Ghost(held),
        Ghost(new),
        Ghost(6),
    );
}

/// Appends the operations for one cell and gives what is held after them.
fn diff_cell(
    ops: &mut Vec<Operation>,
    old_cell: Cell,
    new_cell: Cell,
    pos: Vec2<u16>,
    width: u16,
    held: Held,
) -> (r: Held)
    requires
        pos.x < width,
    ensures
        final(ops)@ == old(ops)@ + cell_ops(old_cell, new_cell, pos, held),
        r == cell_held(old_cell, new_cell, pos, width as int, held),
{
    let ghost before = ops@;
    if new_cell == old_cell {
        assert(ops@ =~= before + cell_ops(old_cell, new_cell, pos, held));
        return held;
    }
    match new_cell {
        Cell::Char { contents, double, style } => {
            push_style_ops(ops, held.style, style);
            push_if(ops, held.cursor != pos, Operation::SetCursorPos(pos));
            ops.push(Operation::Write(contents));
            let step: u16 = if double {
                2
            } else {
                1
            };
            let x: u16 = if width - 1 - pos.x < step {
                width - 1
            } else {
                pos.x + step
            };
            proof {
                let a = style_ops(held.style, style);
                let b = set_if(held.cursor != pos, Operation::SetCursorPos(pos));
                let c = seq![Operation::Write(contents)];
                assert(ops@ =~= ((before + a) + b) + c);
                lemma_concat_assoc(before, a, b);
                lemma_concat_assoc(before, a + b, c);
            }
            Held { style, cursor: Vec2 { x, y: pos.y } }
        },
        Cell::Continuation => {
            assert(ops@ =~= before + cell_ops(old_cell, new_cell, pos, held));
            held
        },
    }
}

/// Appends the operations that bring the backend's cursor to that of the next frame.
fn push_cursor_ops(
    ops: &mut Vec<Operation>,
    old_cursor: Option<Cursor>,
    new_cursor: Option<Cursor>,
    at: Vec2<u16>,
)
    ensures
        final(ops)@ == old(ops)@ + cursor_ops(old_cursor, new_cursor, at),
{
    let ghost before = ops@;
    match new_cursor {
        Some(cursor) => {
            let shape = match old_cursor {
                Some(shown) => shown.shape != cursor.shape,
                None => true,
            };
            let blinking = match old_cursor {
                Some(shown) => shown.blinking != cursor.blinking,
                None => true,
            };
            let ghost s1 = set_if(old_cursor is None, Operation::ShowCursor);
            let ghost s2 = s1 + set_if(shape, Operation::SetCursorShape(cursor.shape));
            let ghost s3 = s2 + set_if(blinking, Operation::SetCursorBlinking(cursor.blinking));
            push_if(ops, old_cursor.is_none(), Operation::ShowCursor);
            push_if(ops, shape, Operation::SetCursorShape(cursor.shape));
            proof {
                lemma_concat_assoc(before, s1, set_if(shape, Operation::SetCursorShape(cursor.shape)));
            }
            push_if(ops, blinking, Operation::SetCursorBlinking(cursor.blinking));
            proof {
                lemma_concat_assoc(before, s2, set_if(
                    blinking,
                    Operation::SetCursorBlinking(cursor.blinking),
                ));
            }
            push_if(ops, at != cursor.pos, Operation::SetCursorPos(cursor.pos));
            proof {
                lemma_concat_assoc(before, s3, set_if(
                    at != cursor.pos,
                    Operation::SetCursorPos(cursor.pos),
                ));
            }
        },
        None => {
            push_if(ops, old_cursor.is_some(), Operation::HideCursor);
        },
    }
}

/// Compares the frame that the backend shows with the next frame and gives the operations that
/// bring the backend from the one to the other, together with what is held after them.
///
/// `held` is the style that the backend writes with and the place of its cursor. The frames
/// are compared cell by cell over the rows and columns that both have.
pub fn diff(old: &Buffer, new: &Buffer, held: Held) -> (r: (Vec<Operation>, Held))
    requires
        old.wf(),
        new.wf(),
    ensures
        r.0@ == diff_ops(
            old.grid@,
            old.cursor,
            new.grid@,
            new.cursor,
            shared(old.grid.spec_size().x as int, new.grid.spec_size().x as int),
            new.grid.spec_size().x as int,
            held,
        ),
        r.1 == diff_held(
            old.grid@,
            new.grid@,
            new.cursor,
            shared(old.grid.spec_size().x as int, new.grid.spec_size().x as int),
            new.grid.spec_size().x as int,
            held,
        ),
{
    let width: u16 = new.grid.width();
    let cols: u16 = if old.grid.width() <= width {
        old.grid.width()
    } else {
        width
    };
    let rows: u16 = if old.grid.height() <= new.grid.height() {
        old.grid.height()
    } else {
        new.grid.height()
    };
    let old_lines = old.grid.lines();
    let new_lines = new.grid.lines();
    let mut ops: Vec<Operation> = Vec::new();
    let mut now: Held = held;
    let mut y: u16 = 0;
    while y < rows
        invariant
            y <= rows,
            rows as int == shared(old.grid@.len() as int, new.grid@.len() as int),
            cols as int == shared(old.grid.spec_size().x as int, new.grid.spec_size().x as int),
            width == new.grid.spec_size().x,
            old.wf(),
            new.wf(),
            old_lines.len() == old.grid@.len(),
            new_lines.len() == new.grid@.len(),
            forall|j: int| 0 <= j < old_lines.len() ==> (#[trigger] old_lines[j])@ == old.grid@[j],
            forall|j: int| 0 <= j < new_lines.len() ==> (#[trigger] new_lines[j])@ == new.grid@[j],
            ops@ == rows_ops(old.grid@, new.grid@, y as int, cols as int, width as int, held),
            now == rows_held(old.grid@, new.grid@, y as int, cols as int, width as int, held),
        decreases rows - y,
    {
        let old_cells = old_lines[y as usize].cells();
        let new_cells = new_lines[y as usize].cells();
        let ghost start = now;
        let ghost before = ops@;
        assert(old_cells@ == old.grid@[y as int]);
        assert(new_cells@ == new.grid@[y as int]);
        assert(old.grid@[y as int].len() == old.grid.spec_size().x);
        assert(new.grid@[y as int].len() == new.grid.spec_size().x);
        let mut x: u16 = 0;
        while x < cols
            invariant
                x <= cols <= width,
                cols <= old_cells@.len(),
                cols <= new_cells@.len(),
                ops@ == before + row_ops(old_cells@, new_cells@, y, x as int, width as int, start),
                now == row_held(old_cells@, new_cells@, y, x as int, width as int, start),
            decreases cols - x,
        {
            let ghost so_far = ops@;
            now =
            diff_cell(
                &mut ops,
                old_cells[x as usize],
                new_cells[x as usize],
                Vec2 { x, y },
                width,
                now,
            );
            x = x + 1;
            assert(ops@ =~= before + row_ops(
                old_cells@,
                new_cells@,
                y,
                x as int,
                width as int,
                start,
            ));
        }
        y = y + 1;
    }
    ops.push(Operation::SetBackground(Color::Default));
    push_cursor_ops(&mut ops, old.cursor, new.cursor, now.cursor);
    let after = Held {
        style: Style { background: Color::Default, ..now.style },
        cursor: match new.cursor {
            Some(cursor) => cursor.pos,
            None => now.cursor,
        },
    };
    (ops, after)
}

} // verus!
