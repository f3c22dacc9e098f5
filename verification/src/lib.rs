//! The core of a retained-mode terminal user interface: geometry, styles, the cell grid, the
//! elements and filters that draw to it, the frame differ and the rules of the draw and event
//! loop.

pub mod backend;
pub mod border;
pub mod buffer;
pub mod cell;
pub mod diff;
pub mod dummy;
pub mod element;
pub mod empty;
pub mod error;
pub mod fill;
pub mod filter;
pub mod grid;
pub mod input;
pub mod output;
pub mod screen;
pub mod spacing;
pub mod span;
pub mod style;
pub mod terminal;
pub mod title;
pub mod vec2;
pub mod width;

pub use backend::{Operation, TerminalEvent, TerminalMouse, TerminalMouseKind};
pub use border::Border;
pub use buffer::Buffer;
pub use cell::Cell;
pub use diff::{diff, Held};
pub use dummy::Dummy;
pub use element::Element;
pub use empty::{empty, Empty};
pub use error::Error;
pub use fill::FillBackground;
pub use filter::{Alignment, Filter, Filtered, Remap};
pub use grid::{Grid, Line};
pub use input::{Input, Key, KeyPress, Modifiers, Mouse, MouseButton, MouseKind};
pub use output::{Draw, Output};
pub use span::{span, Span};
pub use style::{Attributes, Color, Cursor, CursorShape, Intensity, Style};
pub use terminal::{Step, Terminal};
pub use title::Title;
pub use vec2::Vec2;
