//! What passes between the library and a terminal backend: the operations that a frame asks
//! of it and the events that it reports.

use crate::input::{KeyPress, Modifiers, MouseButton};
use crate::style::{Color, CursorShape, Intensity};
use crate::vec2::Vec2;
use vstd::prelude::*;

verus! {

/// One operation on a backend.
#[derive(Debug, Clone, Copy, Hash, PartialEq, Eq, Structural)]
pub enum Operation {
    /// Hide the cursor.
    HideCursor,
    /// Show the cursor.
    ShowCursor,
    /// Set the shape of the cursor.
    SetCursorShape(CursorShape),
    /// Set whether the cursor blinks.
    SetCursorBlinking(bool),
    /// Move the cursor.
    SetCursorPos(Vec2<u16>),
    /// Set the foreground color to write with.
    SetForeground(Color),
    /// Set the background color to write with.
    SetBackground(Color),
    /// Set the intensity to write with.
    SetIntensity(Intensity),
    /// Set whether to write in italics.
    SetItalic(bool),
    /// Set whether to write underlined.
    SetUnderlined(bool),
    /// Set whether to write blinking text.
    SetBlinking(bool),
    /// Set whether to write crossed-out text.
    SetCrossedOut(bool),
    /// Write a glyph at the cursor and move the cursor past it.
    Write(char),
}

/// An event on the terminal.
#[derive(Debug, Clone, Copy, Hash, PartialEq, Eq, Structural)]
pub enum TerminalEvent {
    /// A key was pressed.
    Key(KeyPress),
    /// The mouse did something.
    Mouse(TerminalMouse),
    /// The terminal was resized. Contains the new size.
    Resize(Vec2<u16>),
}

/// A mouse event on the terminal.
#[derive(Debug, Clone, Copy, Hash, PartialEq, Eq, Structural)]
pub struct TerminalMouse {
    /// What kind of mouse event it was.
    pub kind: TerminalMouseKind,
    /// Where the mouse event occurred.
    pub at: Vec2<u16>,
    /// The modifiers active while the event occurred.
    pub modifiers: Modifiers,
}

/// A kind of mouse event on the terminal.
#[derive(Debug, Clone, Copy, Hash, PartialEq, Eq, Structural)]
pub enum TerminalMouseKind {
    /// A mouse button was pressed.
    Press(MouseButton),
    /// A mouse button was released.
    Release,
    /// The mouse was moved.
    Move,
    /// The scroll wheel was scrolled down.
    ScrollDown,
    /// The scroll wheel was scrolled up.
    ScrollUp,
}

} // verus!
