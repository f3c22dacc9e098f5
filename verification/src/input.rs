//! Inputs that elements receive: key presses and mouse events.

use crate::vec2::Vec2;
use vstd::prelude::*;

verus! {

/// The modifier keys held down during an input.
#[derive(Debug, Clone, Copy, Hash, PartialEq, Eq, Structural)]
pub struct Modifiers {
    /// Whether shift was held.
    pub shift: bool,
    /// Whether control was held.
    pub control: bool,
    /// Whether alt was held.
    pub alt: bool,
}

impl Modifiers {
    /// No modifier key held.
    pub open spec fn none() -> Self {
        Modifiers { shift: false, control: false, alt: false }
    }

    /// Create modifiers with no key held.
    pub fn new() -> (r: Self)
        ensures
            r == Self::none(),
    {
        Modifiers { shift: false, control: false, alt: false }
    }
}

/// A key on the keyboard.
#[derive(Debug, Clone, Copy, Hash, PartialEq, Eq, Structural)]
pub enum Key {
    /// The backspace key.
    Backspace,
    /// The return key.
    Return,
    /// The left arrow key.
    Left,
    /// The right arrow key.
    Right,
    /// The up arrow key.
    Up,
    /// The down arrow key.
    Down,
    /// The home key.
    Home,
    /// The end key.
    End,
    /// The page up key.
    PageUp,
    /// The page down key.
    PageDown,
    /// The tab key.
    Tab,
    /// The delete key.
    Delete,
    /// The insert key.
    Insert,
    /// The escape key.
    Escape,
    /// A function key.
    F(u8),
    /// A key that types a character.
    Char(char),
}

/// A key that was pressed, with the modifiers held.
#[derive(Debug, Clone, Copy, Hash, PartialEq, Eq, Structural)]
pub struct KeyPress {
    /// The key.
    pub key: Key,
    /// The modifiers held.
    pub modifiers: Modifiers,
}

/// A button of the mouse.
#[derive(Debug, Clone, Copy, Hash, PartialEq, Eq, Structural)]
pub enum MouseButton {
    /// The left button.
    Left,
    /// The middle button.
    Middle,
    /// The right button.
    Right,
}

/// What the mouse did, as elements see it.
#[derive(Debug, Clone, Copy, Hash, PartialEq, Eq, Structural)]
pub enum MouseKind {
    /// A button was pressed.
    Press(MouseButton),
    /// The button that was held was released.
    Release(MouseButton),
    /// The mouse moved with no button held.
    Move,
    /// The mouse moved with a button held.
    Drag(MouseButton),
    /// The wheel was turned up.
    ScrollUp,
    /// The wheel was turned down.
    ScrollDown,
}

/// A mouse event, as elements see it.
#[derive(Debug, Clone, Copy, Hash, PartialEq, Eq, Structural)]
pub struct Mouse {
    /// What the mouse did.
    pub kind: MouseKind,
    /// Where it did so, from the top left of the element.
    pub at: Vec2<u16>,
    /// The size of the element that receives the event.
    pub size: Vec2<u16>,
    /// The modifiers held.
    pub modifiers: Modifiers,
}

/// An input to an element.
#[derive(Debug, Clone, Copy, Hash, PartialEq, Eq, Structural)]
pub enum Input {
    /// A key was pressed.
    Key(KeyPress),
    /// The mouse did something.
    Mouse(Mouse),
}

} // verus!
