//! A backend that keeps what it shows in memory.

use crate::backend::Operation;
use crate::grid::{blank_rows, Grid};
use crate::screen::{apply_op, apply_ops, column_written, Screen};
use crate::style::{CursorShape, Style};
use crate::vec2::Vec2;
use crate::width::advance;
use vstd::prelude::*;

verus! {

/// A backend without a terminal: it carries out operations on a grid of its own and keeps a
/// record of them.
#[derive(Debug, Clone, PartialEq, Eq)]
pub struct Dummy {
    /// The cells shown.
    pub grid: Grid,
    /// The style that glyphs are written in.
    pub style: Style,
    /// Where the cursor is.
    pub cursor_pos: Vec2<u16>,
    /// Whether the cursor is shown.
    pub cursor_visible: bool,
    /// The shape of the cursor.
    pub cursor_shape: CursorShape,
    /// Whether the cursor blinks.
    pub cursor_blinking: bool,
    /// The operations carried out so far.
    pub operations: Vec<Operation>,
}

impl Dummy {
    /// What the backend shows and writes with.
    pub open spec fn screen(&self) -> Screen {
        Screen {
            rows: self.grid@,
            width: self.grid.spec_size().x as int,
            style: self.style,
            cursor: self.cursor_pos,
            visible: self.cursor_visible,
            shape: self.cursor_shape,
            blinking: self.cursor_blinking,
        }
    }

    /// Create a backend that shows `size` empty cells and no cursor.
    pub fn new(size: Vec2<u16>) -> (r: Dummy)
        ensures
            r.grid.wf(),
            r.grid.spec_size() == size,
            r.grid@ == blank_rows(size.x as int, size.y as int),
            r.style == Style::plain(),
            r.cursor_pos == (Vec2 { x: 0u16, y: 0u16 }),
            !r.cursor_visible,
            r.cursor_shape == CursorShape::Block,
            !r.cursor_blinking,
            r.operations@ == Seq::<Operation>::empty(),
    {
        Dummy {
            grid: Grid::new(size),
            style: Style::default(),
            cursor_pos: Vec2 { x: 0, y: 0 },
            cursor_visible: false,
            cursor_shape: CursorShape::Block,
            cursor_blinking: false,
            operations: Vec::new(),
        }
    }

    /// Writes one glyph at the cursor and moves the cursor behind it, no further than the last
    /// column.
    fn write(&mut self, c: char)
        requires
            old(self).grid.wf(),
        ensures
            final(self).grid.wf(),
            final(self).grid.spec_size() == old(self).grid.spec_size(),
            final(self).operations == old(self).operations,
            final(self).screen() == apply_op(old(self).screen(), Operation::Write(c)),
    {
        reveal(apply_op);
        self.grid.write_char(self.cursor_pos, c, self.style);
        let w: u16 = advance(c);
        let width: u16 = self.grid.width();
        let x: u16 = self.cursor_pos.x;
        if w > 0 && width > 0 {
            let step: u16 = if w >= 2 {
                2
            } else {
                1
            };
            self.cursor_pos.x = if width - 1 < x {
                width - 1
            } else if width - 1 - x < step {
                width - 1
            } else {
                x + step
            };
        }
        assert(self.cursor_pos.x as int == column_written(x as int, c, width as int));
    }

    /// Carries out one operation and adds it to the record.
    pub fn apply(&mut self, op: Operation)
        requires
            old(self).grid.wf(),
        ensures
            final(self).grid.wf(),
            final(self).grid.spec_size() == old(self).grid.spec_size(),
            final(self).screen() == apply_op(old(self).screen(), op),
            final(self).operations@ == old(self).operations@.push(op),
    {
        self.operations.push(op);
        match op {
            Operation::Write(c) => {
                self.write(c);
            },
            _ => {
                self.set(op);
            },
        }
    }

    /// Carries out an operation that writes no glyph.
    fn set(&mut self, op: Operation)
        requires
            !(op is Write),
        ensures
            final(self).grid == old(self).grid,
            final(self).operations == old(self).operations,
            final(self).screen() == apply_op(old(self).screen(), op),
    {
        reveal(apply_op);
        match op {
            Operation::HideCursor => {
                self.cursor_visible = false;
            },
            Operation::ShowCursor => {
                self.cursor_visible = true;
            },
            Operation::SetCursorShape(shape) => {
                self.cursor_shape = shape;
            },
            Operation::SetCursorBlinking(blinking) => {
                self.cursor_blinking = blinking;
            },
            Operation::SetCursorPos(pos) => {
                self.cursor_pos = pos;
            },
            Operation::SetForeground(color) => {
                self.style.foreground = color;
            },
            Operation::SetBackground(color) => {
                self.style.background = color;
            },
            Operation::SetIntensity(intensity) => {
                self.style.attributes.intensity = intensity;
            },
            Operation::SetItalic(italic) => {
                self.style.attributes.italic = italic;
            },
            Operation::SetUnderlined(underlined) => {
                self.style.attributes.underlined = underlined;
            },
            Operation::SetBlinking(blinking) => {
                self.style.attributes.blinking = blinking;
            },
            Operation::SetCrossedOut(crossed_out) => {
                self.style.attributes.crossed_out = crossed_out;
            },
            Operation::Write(_) => {},
        }
    }

    /// Carries out the operations one after the other and adds them to the record.
    pub fn run(&mut self, ops: &Vec<Operation>)
        requires
            old(self).grid.wf(),
        ensures
            final(self).grid.wf(),
            final(self).grid.spec_size() == old(self).grid.spec_size(),
            final(self).screen() == apply_ops(old(self).screen(), ops@),
            final(self).operations@ == old(self).operations@ + ops@,
    {
        let mut i: usize = 0;
        assert(ops@.take(0) =~= Seq::<Operation>::empty());
        assert(self.operations@ =~= old(self).operations@ + ops@.take(0));
        while i < ops.len()
            invariant
                i <= ops.len(),
                self.grid.wf(),
                self.grid.spec_size() == old(self).grid.spec_size(),
                self.screen() == apply_ops(old(self).screen(), ops@.take(i as int)),
                self.operations@ == old(self).operations@ + ops@.take(i as int),
            decreases ops.len() - i,
        {
            proof {
                let next = ops@.take(i + 1);
                assert(next.drop_last() =~= ops@.take(i as int));
                assert(next.last() == ops@[i as int]);
                assert(old(self).operations@ + next =~= (old(self).operations@ + ops@.take(
                    i as int,
                )).push(ops@[i as int]));
            }
            self.apply(ops[i]);
            i = i + 1;
        }
        assert(ops@.take(ops.len() as int) =~= ops@);
    }
}

} // verus!
