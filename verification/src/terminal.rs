//! The rules of the draw and event loop: what a terminal holds between frames, what a frame
//! asks of the backend, and what an event of the backend leads to.

use crate::backend::{Operation, TerminalEvent, TerminalMouse, TerminalMouseKind};
use crate::buffer::Buffer;
use crate::diff::{diff, diff_held, diff_ops, Held};
use crate::grid::{blank_rows, rows_resize, rows_resize_width};
use crate::input::{Input, Mouse, MouseButton, MouseKind};
use crate::output::{cursor_drawn_all, rows_drawn_all, Output};
use crate::style::{Color, Intensity, Style};
use crate::vec2::{min_int, sat_sub, Vec2};
use vstd::prelude::*;

verus! {

/// What an event of the backend leads to.
#[derive(Debug, Clone, Copy, Hash, PartialEq, Eq, Structural)]
pub enum Step {
    /// An input to hand to the element.
    Input(Input),
    /// Nothing: the next event is awaited.
    Ignore,
    /// The terminal has a new size: the element is drawn again.
    Redraw,
}

/// The button held and the kind of mouse input that an event of the backend leads to, with the
/// button `held` before it; `None` for an event that is dropped.
///
/// A press holds its button. A release lets go of the button held and is dropped where none
/// is held. A move with a button held is a drag.
pub open spec fn mouse_step(held: Option<MouseButton>, kind: TerminalMouseKind) -> (
    Option<MouseButton>,
    Option<MouseKind>,
) {
    match kind {
        TerminalMouseKind::Press(button) => (Some(button), Some(MouseKind::Press(button))),
        TerminalMouseKind::Release => match held {
            Some(button) => (None, Some(MouseKind::Release(button))),
            None => (None, None),
        },
        TerminalMouseKind::Move => match held {
            Some(button) => (held, Some(MouseKind::Drag(button))),
            None => (held, Some(MouseKind::Move)),
        },
        TerminalMouseKind::ScrollUp => (held, Some(MouseKind::ScrollUp)),
        TerminalMouseKind::ScrollDown => (held, Some(MouseKind::ScrollDown)),
    }
}

/// The button held after a run of events of the backend, with none held before them.
pub open spec fn held_after(events: Seq<TerminalMouseKind>) -> Option<MouseButton>
    decreases events.len(),
{
    if events.len() == 0 {
        None
    } else {
        mouse_step(held_after(events.drop_last()), events.last()).0
    }
}

/// The kind of mouse input that the last of a run of events leads to, with no button held
/// before the run; `None` where it is dropped.
pub open spec fn kind_after(events: Seq<TerminalMouseKind>) -> Option<MouseKind>
    recommends
        events.len() > 0,
{
    mouse_step(held_after(events.drop_last()), events.last()).1
}

/// The button of the latest press in a run of events that no release has followed.
pub open spec fn open_press(events: Seq<TerminalMouseKind>) -> Option<MouseButton>
    decreases events.len(),
{
    if events.len() == 0 {
        None
    } else {
        match events.last() {
            TerminalMouseKind::Press(button) => Some(button),
            TerminalMouseKind::Release => None,
            _ => open_press(events.drop_last()),
        }
    }
}

/// The button held after a run of events is that of the latest press that no release has
/// followed.
pub proof fn lemma_held_is_open_press(events: Seq<TerminalMouseKind>)
    ensures
        held_after(events) == open_press(events),
    decreases events.len(),
{
    if events.len() > 0 {
        lemma_held_is_open_press(events.drop_last());
    }
}

/// A release at the end of a run of events leads to the release of the button of the latest
/// press before it that no release has followed, and is dropped where there is none.
pub proof fn lemma_release_matches_press(events: Seq<TerminalMouseKind>)
    requires
        events.len() > 0,
        events.last() is Release,
    ensures
        kind_after(events) == match open_press(events.drop_last()) {
            Some(button) => Some(MouseKind::Release(button)),
            None => None,
        },
        held_after(events) is None,
{
    lemma_held_is_open_press(events.drop_last());
}

/// A move at the end of a run of events is a drag of the button of the latest press before it
/// that no release has followed, and a plain move where there is none.
pub proof fn lemma_move_matches_press(events: Seq<TerminalMouseKind>)
    requires
        events.len() > 0,
        events.last() is Move,
    ensures
        kind_after(events) == match open_press(events.drop_last()) {
            Some(button) => Some(MouseKind::Drag(button)),
            None => Some(MouseKind::Move),
        },
{
    lemma_held_is_open_press(events.drop_last());
}

/// The operations that bring a backend to the state that a new terminal holds it to be in:
/// the cursor hidden at the top left, and the default style.
pub open spec fn start_ops() -> Seq<Operation> {
    seq![
        Operation::HideCursor,
        Operation::SetCursorPos(Vec2 { x: 0u16, y: 0u16 }),
        Operation::SetForeground(Color::Default),
        Operation::SetBackground(Color::Default),
        Operation::SetIntensity(Intensity::Normal),
        Operation::SetItalic(false),
        Operation::SetUnderlined(false),
        Operation::SetBlinking(false),
        Operation::SetCrossedOut(false),
    ]
}

/// The title that a terminal without one of its own is given.
pub open spec fn default_title() -> Seq<char> {
    seq!['A', 'p', 'p']
}

/// The coordinate `at` held inside `len` columns or rows.
pub open spec fn clamped(at: int, len: int) -> int {
    min_int(at, sat_sub(len, 1))
}

/// What a terminal holds between frames.
#[derive(Debug, Clone, PartialEq, Eq)]
pub struct Terminal {
    /// The title last set on the backend.
    title: String,
    /// The frame that the backend shows.
    old_buffer: Buffer,
    /// The frame to draw next; empty between frames.
    buffer: Buffer,
    /// The style that the backend writes with and the place of its cursor.
    held: Held,
    /// The mouse button held down.
    mouse: Option<MouseButton>,
}

impl Terminal {
    /// The title last set on the backend.
    pub closed spec fn spec_title(&self) -> Seq<char> {
        self.title@
    }

    /// The frame that the backend shows.
    pub closed spec fn shown(&self) -> Buffer {
        self.old_buffer
    }

    /// The frame to draw next.
    pub closed spec fn next(&self) -> Buffer {
        self.buffer
    }

    /// The style that the backend writes with and the place of its cursor.
    pub closed spec fn spec_held(&self) -> Held {
        self.held
    }

    /// The mouse button held down.
    pub closed spec fn spec_mouse(&self) -> Option<MouseButton> {
        self.mouse
    }

    /// The size of the terminal.
    pub open spec fn spec_size(&self) -> Vec2<u16> {
        self.next().grid.spec_size()
    }

    /// Whether both frames are well formed and of one size, and the next one is empty.
    pub open spec fn wf(&self) -> bool {
        &&& self.shown().wf()
        &&& self.next().wf()
        &&& self.shown().grid.spec_size() == self.next().grid.spec_size()
        &&& self.next().grid@ == blank_rows(self.spec_size().x as int, self.spec_size().y as int)
        &&& self.next().cursor is None
    }

    /// Create what a terminal of the size `size` holds at its start, together with the
    /// operations that bring the backend to that start.
    pub fn new(size: Vec2<u16>) -> (r: (Terminal, Vec<Operation>))
        ensures
            r.0.wf(),
            r.0.spec_size() == size,
            r.0.shown().grid@ == blank_rows(size.x as int, size.y as int),
            r.0.shown().cursor is None,
            r.0.spec_title() == Seq::<char>::empty(),
            r.0.spec_held() == (Held { style: Style::plain(), cursor: Vec2 { x: 0u16, y: 0u16 } }),
            r.0.spec_mouse() is None,
            r.1@ == start_ops(),
    {
        let mut ops: Vec<Operation> = Vec::new();
        ops.push(Operation::HideCursor);
        ops.push(Operation::SetCursorPos(Vec2 { x: 0, y: 0 }));
        ops.push(Operation::SetForeground(Color::Default));
        ops.push(Operation::SetBackground(Color::Default));
        ops.push(Operation::SetIntensity(Intensity::Normal));
        ops.push(Operation::SetItalic(false));
        ops.push(Operation::SetUnderlined(false));
        ops.push(Operation::SetBlinking(false));
        ops.push(Operation::SetCrossedOut(false));
        assert(ops@ =~= start_ops());
        let terminal = Terminal {
            title: String::new(),
            old_buffer: Buffer::new(size),
            buffer: Buffer::new(size),
            held: Held { style: Style::default(), cursor: Vec2 { x: 0, y: 0 } },
            mouse: None,
        };
        (terminal, ops)
    }

    /// The size of the terminal.
    pub fn size(&self) -> (r: Vec2<u16>)
        ensures
            r == self.spec_size(),
    {
        self.buffer.size()
    }

    /// The frame that the backend shows.
    pub fn old_buffer(&self) -> (r: &Buffer)
        ensures
            *r == self.shown(),
    {
        &self.old_buffer
    }

    /// The style that the backend writes with and the place of its cursor.
    pub fn held(&self) -> (r: Held)
        ensures
            r == self.spec_held(),
    {
        self.held
    }

    /// The mouse button held down.
    pub fn mouse(&self) -> (r: Option<MouseButton>)
        ensures
            r == self.spec_mouse(),
    {
        self.mouse
    }

    /// The title last set on the backend.
    pub fn title(&self) -> (r: &String)
        ensures
            r@ == self.spec_title(),
    {
        &self.title
    }

    /// Takes the title of the element for this frame and says whether the backend has to be
    /// given a title: it has where the terminal has none yet or the title differs from the one
    /// last set. The title to set is then the one held after the call: the element's, or the
    /// default one where the element's is empty.
    pub fn retitle(&mut self, title: &str) -> (r: bool)
        ensures
            r == (old(self).spec_title().len() == 0 || title@ != old(self).spec_title()),
            final(self).spec_title() == if !r {
                old(self).spec_title()
            } else if title@.len() == 0 {
                default_title()
            } else {
                title@
            },
            final(self).shown() == old(self).shown(),
            final(self).next() == old(self).next(),
            final(self).spec_held() == old(self).spec_held(),
            final(self).spec_mouse() == old(self).spec_mouse(),
    {
        let new_title = title.to_owned();
        if !self.title.as_str().is_empty() && new_title == self.title {
            return false;
        }
        if title.is_empty() {
            proof {
                reveal_strlit("App");
            }
            self.title = "App".to_owned();
            assert(self.title@ =~= default_title());
        } else {
            self.title = new_title;
        }
        true
    }

    /// Takes what the element drew as the next frame and gives the operations that bring the
    /// backend from the frame shown to it. After them the backend shows that frame, and the
    /// next frame is empty again.
    pub fn frame(&mut self, drawn: &Output) -> (r: Vec<Operation>)
        requires
            old(self).wf(),
        ensures
            final(self).wf(),
            final(self).spec_size() == old(self).spec_size(),
            final(self).shown().grid@ == rows_drawn_all(old(self).next().grid@, drawn@),
            final(self).shown().cursor == cursor_drawn_all(None, drawn@),
            r@ == diff_ops(
                old(self).shown().grid@,
                old(self).shown().cursor,
                final(self).shown().grid@,
                final(self).shown().cursor,
                old(self).spec_size().x as int,
                old(self).spec_size().x as int,
                old(self).spec_held(),
            ),
            final(self).spec_held() == diff_held(
                old(self).shown().grid@,
                final(self).shown().grid@,
                final(self).shown().cursor,
                old(self).spec_size().x as int,
                old(self).spec_size().x as int,
                old(self).spec_held(),
            ),
            final(self).spec_title() == old(self).spec_title(),
            final(self).spec_mouse() == old(self).spec_mouse(),
    {
        self.buffer.draw(drawn);
        let (ops, held) = diff(&self.old_buffer, &self.buffer, self.held);
        self.held = held;
        self.old_buffer.reset();
        core::mem::swap(&mut self.old_buffer, &mut self.buffer);
        ops
    }

    /// Takes a mouse event of the backend and gives the input that it leads to, or `None` for
    /// a release with no button held, which is dropped.
    pub fn mouse_event(&mut self, mouse: TerminalMouse) -> (r: Option<Mouse>)
        ensures
            final(self).spec_mouse() == mouse_step(old(self).spec_mouse(), mouse.kind).0,
            r == match mouse_step(old(self).spec_mouse(), mouse.kind).1 {
                Some(kind) => Some(
                    Mouse {
                        kind,
                        at: mouse.at,
                        size: old(self).spec_size(),
                        modifiers: mouse.modifiers,
                    },
                ),
                None => None,
            },
            final(self).shown() == old(self).shown(),
            final(self).next() == old(self).next(),
            final(self).spec_held() == old(self).spec_held(),
            final(self).spec_title() == old(self).spec_title(),
    {
        let kind = match mouse.kind {
            TerminalMouseKind::Press(button) => {
                self.mouse = Some(button);
                MouseKind::Press(button)
            },
            TerminalMouseKind::Release => {
                let held = self.mouse;
                self.mouse = None;
                match held {
                    Some(button) => MouseKind::Release(button),
                    None => {
                        return None;
                    },
                }
            },
            TerminalMouseKind::Move => match self.mouse {
                Some(button) => MouseKind::Drag(button),
                None => MouseKind::Move,
            },
            TerminalMouseKind::ScrollUp => MouseKind::ScrollUp,
            TerminalMouseKind::ScrollDown => MouseKind::ScrollDown,
        };
        Some(Mouse { kind, at: mouse.at, size: self.buffer.size(), modifiers: mouse.modifiers })
    }

    /// Gives both frames a new size, around the row of the backend's cursor, and holds the
    /// cursor inside the new size.
    pub fn resize(&mut self, size: Vec2<u16>)
        requires
            old(self).wf(),
        ensures
            final(self).wf(),
            final(self).spec_size() == size,
            final(self).shown().grid@ == rows_resize(
                rows_resize_width(old(self).shown().grid@, size.x as int),
                size.x as int,
                size.y as int,
                old(self).spec_held().cursor.y as int,
            ),
            final(self).shown().cursor == old(self).shown().cursor,
            final(self).spec_held() == (Held {
                style: old(self).spec_held().style,
                cursor: Vec2 {
                    x: clamped(old(self).spec_held().cursor.x as int, size.x as int) as u16,
                    y: clamped(old(self).spec_held().cursor.y as int, size.y as int) as u16,
                },
            }),
            final(self).spec_title() == old(self).spec_title(),
            final(self).spec_mouse() == old(self).spec_mouse(),
    {
        let anchor = self.held.cursor.y;
        self.buffer.grid.resize_width(size.x);
        self.old_buffer.grid.resize_width(size.x);
        self.buffer.grid.resize_height_with_anchor(size.y, anchor);
        self.old_buffer.grid.resize_height_with_anchor(size.y, anchor);
        // The next frame is kept empty whatever rows and columns it has lost or won.
        self.buffer.reset();
        let last = Vec2 { x: size.x.saturating_sub(1), y: size.y.saturating_sub(1) };
        self.held.cursor = self.held.cursor.min(last);
    }

    /// Takes an event of the backend and says what it leads to: an input for the element,
    /// nothing, or a new size and with it a new frame.
    ///
    /// A key is handed on. A mouse event is handed on as `mouse_event` gives it. A resize to
    /// the size that the terminal has is nothing; any other is carried out as `resize` does.
    pub fn event(&mut self, event: TerminalEvent) -> (r: Step)
        requires
            old(self).wf(),
        ensures
            final(self).wf(),
            final(self).spec_title() == old(self).spec_title(),
            match event {
                TerminalEvent::Key(key) => {
                    &&& r == Step::Input(Input::Key(key))
                    &&& *final(self) == *old(self)
                },
                TerminalEvent::Mouse(mouse) => {
                    &&& final(self).spec_mouse() == mouse_step(old(self).spec_mouse(), mouse.kind).0
                    &&& r == match mouse_step(old(self).spec_mouse(), mouse.kind).1 {
                        Some(kind) => Step::Input(
                            Input::Mouse(
                                Mouse {
                                    kind,
                                    at: mouse.at,
                                    size: old(self).spec_size(),
                                    modifiers: mouse.modifiers,
                                },
                            ),
                        ),
                        None => Step::Ignore,
                    }
                    &&& final(self).shown() == old(self).shown()
                    &&& final(self).next() == old(self).next()
                    &&& final(self).spec_held() == old(self).spec_held()
                },
                TerminalEvent::Resize(size) => if size == old(self).spec_size() {
                    &&& r == Step::Ignore
                    &&& *final(self) == *old(self)
                } else {
                    &&& r == Step::Redraw
                    &&& final(self).spec_size() == size
                    &&& final(self).shown().grid@ == rows_resize(
                        rows_resize_width(old(self).shown().grid@, size.x as int),
                        size.x as int,
                        size.y as int,
                        old(self).spec_held().cursor.y as int,
                    )
                    &&& final(self).shown().cursor == old(self).shown().cursor
                    &&& final(self).spec_held() == (Held {
                        style: old(self).spec_held().style,
                        cursor: Vec2 {
                            x: clamped(old(self).spec_held().cursor.x as int, size.x as int) as u16,
                            y: clamped(old(self).spec_held().cursor.y as int, size.y as int) as u16,
                        },
                    })
                    &&& final(self).spec_mouse() == old(self).spec_mouse()
                },
            },
    {
        match event {
            TerminalEvent::Key(key) => Step::Input(Input::Key(key)),
            TerminalEvent::Mouse(mouse) => match self.mouse_event(mouse) {
                Some(input) => Step::Input(Input::Mouse(input)),
                None => Step::Ignore,
            },
            TerminalEvent::Resize(size) => {
                if size == self.buffer.size() {
                    Step::Ignore
                } else {
                    self.resize(size);
                    Step::Redraw
                }
            },
        }
    }
}

} // verus!
