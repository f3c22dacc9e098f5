//! Colors, text attributes, styles and the cursor descriptor.

use crate::vec2::Vec2;
use vstd::prelude::*;

verus! {

/// A color of the foreground or the background of a cell.
///
/// The eight base colors each come in a dark and a bright variant.
#[derive(Debug, Clone, Copy, Hash, PartialEq, Eq, Structural)]
pub enum Color {
    /// The terminal's own default color.
    Default,
    /// Black.
    Black,
    /// Bright black.
    DarkGray,
    /// White.
    LightGray,
    /// Bright white.
    White,
    /// Bright red.
    Red,
    /// Red.
    DarkRed,
    /// Bright green.
    Green,
    /// Green.
    DarkGreen,
    /// Bright yellow.
    Yellow,
    /// Yellow.
    DarkYellow,
    /// Bright blue.
    Blue,
    /// Blue.
    DarkBlue,
    /// Bright magenta.
    Magenta,
    /// Magenta.
    DarkMagenta,
    /// Bright cyan.
    Cyan,
    /// Cyan.
    DarkCyan,
    /// An index into the 256-color palette.
    AnsiValue(u8),
    /// A 24-bit color.
    Rgb {
        /// The red component.
        r: u8,
        /// The green component.
        g: u8,
        /// The blue component.
        b: u8,
    },
}

/// How intense text is.
#[derive(Debug, Clone, Copy, Hash, PartialEq, Eq, Structural)]
pub enum Intensity {
    /// Dim text.
    Dim,
    /// Normal text.
    Normal,
    /// Bold text.
    Bold,
}

/// The attributes of text.
#[derive(Debug, Clone, Copy, Hash, PartialEq, Eq, Structural)]
pub struct Attributes {
    /// How intense the text is.
    pub intensity: Intensity,
    /// Whether the text is in italics.
    pub italic: bool,
    /// Whether the text is underlined.
    pub underlined: bool,
    /// Whether the text blinks.
    pub blinking: bool,
    /// Whether the text is crossed out.
    pub crossed_out: bool,
}

impl Attributes {
    /// Attributes of normal intensity with every flag off.
    pub open spec fn plain() -> Self {
        Attributes {
            intensity: Intensity::Normal,
            italic: false,
            underlined: false,
            blinking: false,
            crossed_out: false,
        }
    }

    /// Create attributes of normal intensity with every flag off.
    pub fn new() -> (r: Self)
        ensures
            r == Self::plain(),
    {
        Attributes {
            intensity: Intensity::Normal,
            italic: false,
            underlined: false,
            blinking: false,
            crossed_out: false,
        }
    }
}

impl Default for Attributes {
    fn default() -> (r: Self)
        ensures
            r == Attributes::plain(),
    {
        Attributes::new()
    }
}

/// The style of a cell: its two colors and its attributes.
#[derive(Debug, Clone, Copy, Hash, PartialEq, Eq, Structural)]
pub struct Style {
    /// The color of the text.
    pub foreground: Color,
    /// The color behind the text.
    pub background: Color,
    /// The attributes of the text.
    pub attributes: Attributes,
}

impl Style {
    /// The style of default colors and plain attributes.
    pub open spec fn plain() -> Self {
        Style {
            foreground: Color::Default,
            background: Color::Default,
            attributes: Attributes::plain(),
        }
    }

    /// Create a style from its parts.
    pub fn new(foreground: Color, background: Color, attributes: Attributes) -> (r: Self)
        ensures
            r.foreground == foreground,
            r.background == background,
            r.attributes == attributes,
    {
        Style { foreground, background, attributes }
    }

    /// The style with another foreground color.
    pub fn foreground(self, color: Color) -> (r: Self)
        ensures
            r == (Style { foreground: color, ..self }),
    {
        Style { foreground: color, ..self }
    }

    /// The style with another background color.
    pub fn background(self, color: Color) -> (r: Self)
        ensures
            r == (Style { background: color, ..self }),
    {
        Style { background: color, ..self }
    }

    /// The style with another intensity.
    pub open spec fn intensity_spec(self, intensity: Intensity) -> Self {
        Style { attributes: Attributes { intensity, ..self.attributes }, ..self }
    }

    /// The style with another intensity.
    pub fn intensity(self, intensity: Intensity) -> (r: Self)
        ensures
            r == self.intensity_spec(intensity),
    {
        Style { attributes: Attributes { intensity, ..self.attributes }, ..self }
    }

    /// The style with a black foreground.
    pub fn black(self) -> (r: Self)
        ensures
            r == (Style { foreground: Color::Black, ..self }),
    {
        self.foreground(Color::Black)
    }

    /// The style with a bright red foreground.
    pub fn red(self) -> (r: Self)
        ensures
            r == (Style { foreground: Color::Red, ..self }),
    {
        self.foreground(Color::Red)
    }

    /// The style with a bright white background.
    pub fn on_white(self) -> (r: Self)
        ensures
            r == (Style { background: Color::White, ..self }),
    {
        self.background(Color::White)
    }

    /// The style with a black background.
    pub fn on_black(self) -> (r: Self)
        ensures
            r == (Style { background: Color::Black, ..self }),
    {
        self.background(Color::Black)
    }

    /// The style with bold text.
    pub fn bold(self) -> (r: Self)
        ensures
            r == self.intensity_spec(Intensity::Bold),
    {
        self.intensity(Intensity::Bold)
    }
}

impl Default for Style {
    fn default() -> (r: Self)
        ensures
            r == Style::plain(),
    {
        Style {
            foreground: Color::Default,
            background: Color::Default,
            attributes: Attributes::new(),
        }
    }
}

/// The shape of the cursor.
#[derive(Debug, Clone, Copy, Hash, PartialEq, Eq, Structural)]
pub enum CursorShape {
    /// A bar to the left of the character.
    Bar,
    /// A block over the character.
    Block,
    /// A line under the character.
    Underline,
}

/// The cursor of a frame.
#[derive(Debug, Clone, Copy, Hash, PartialEq, Eq, Structural)]
pub struct Cursor {
    /// Where the cursor is.
    pub pos: Vec2<u16>,
    /// The shape of the cursor.
    pub shape: CursorShape,
    /// Whether the cursor blinks.
    pub blinking: bool,
}

impl Cursor {
    /// Create a cursor from its parts.
    pub fn new(pos: Vec2<u16>, shape: CursorShape, blinking: bool) -> (r: Self)
        ensures
            r.pos == pos,
            r.shape == shape,
            r.blinking == blinking,
    {
        Cursor { pos, shape, blinking }
    }
}

} // verus!
