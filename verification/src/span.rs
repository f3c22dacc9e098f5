//! A span of text.

use crate::element::Element;
use crate::input::Input;
use crate::output::{text_draws, Draw, Output};
use crate::style::{Color, Intensity, Style};
use crate::vec2::{min_int, Vec2};
use crate::width::{advance, advance_of};
use core::marker::PhantomData;
use vstd::prelude::*;

verus! {

/// The sum of the display widths of the characters of a text; a control character adds
/// nothing.
pub open spec fn text_width(text: Seq<char>) -> int
    decreases text.len(),
{
    if text.len() == 0 {
        0
    } else {
        text_width(text.drop_last()) + advance_of(text.last())
    }
}

/// The display width of a text in columns, held at the upper bound of `u16`.
pub fn width_of_text(text: &str) -> (r: u16)
    ensures
        r as int == min_int(text_width(text@), u16::MAX as int),
{
    let n = text.unicode_len();
    let mut i: usize = 0;
    let mut width: u16 = 0;
    assert(text@.take(0) =~= Seq::<char>::empty());
    while i < n
        invariant
            i <= n,
            n == text@.len(),
            width as int == min_int(text_width(text@.take(i as int)), u16::MAX as int),
            text_width(text@.take(i as int)) >= 0,
        decreases n - i,
    {
        proof {
            let next = text@.take(i + 1);
            assert(next.drop_last() =~= text@.take(i as int));
            assert(next.last() == text@[i as int]);
        }
        width = width.saturating_add(advance(text.get_char(i)));
        i = i + 1;
    }
    assert(text@.take(n as int) =~= text@);
    width
}

/// A span of text, created by the [`span`] function.
#[derive(Debug, PartialEq, Eq)]
pub struct Span<Event> {
    /// The text being displayed.
    pub text: String,
    /// The style to display the text in.
    pub style: Style,
    /// The events that the span never sends.
    pub event: PhantomData<Event>,
}

impl<Event> Span<Event> {
    /// Get the width of the span.
    pub fn width(&self) -> (r: u16)
        ensures
            r as int == min_int(text_width(self.text@), u16::MAX as int),
    {
        width_of_text(self.text.as_str())
    }

    /// The span in another style.
    pub fn styled(self, style: Style) -> (r: Self)
        ensures
            r.text == self.text,
            r.style == style,
    {
        Span { text: self.text, style, event: PhantomData }
    }

    /// The span with another foreground color.
    pub fn foreground(self, color: Color) -> (r: Self)
        ensures
            r.text == self.text,
            r.style == (Style { foreground: color, ..self.style }),
    {
        let style = self.style.foreground(color);
        self.styled(style)
    }

    /// The span with another background color.
    pub fn background(self, color: Color) -> (r: Self)
        ensures
            r.text == self.text,
            r.style == (Style { background: color, ..self.style }),
    {
        let style = self.style.background(color);
        self.styled(style)
    }

    /// The span with a black foreground.
    pub fn black(self) -> (r: Self)
        ensures
            r.text == self.text,
            r.style == (Style { foreground: Color::Black, ..self.style }),
    {
        self.foreground(Color::Black)
    }

    /// The span with a bright white background.
    pub fn on_white(self) -> (r: Self)
        ensures
            r.text == self.text,
            r.style == (Style { background: Color::White, ..self.style }),
    {
        self.background(Color::White)
    }

    /// The span with bold text.
    pub fn bold(self) -> (r: Self)
        ensures
            r.text == self.text,
            r.style == self.style.intensity_spec(Intensity::Bold),
    {
        let style = self.style.intensity(Intensity::Bold);
        self.styled(style)
    }
}

impl<Event> Element for Span<Event> {
    type Event = Event;

    open spec fn drawn(&self, size: Vec2<u16>) -> Seq<Draw> {
        text_draws(size, 0, 0, self.text@, self.style)
    }

    fn draw(&self, output: &mut Output) {
        output.write(Vec2 { x: 0, y: 0 }, self.text.as_str(), self.style);
    }

    open spec fn spec_title(&self) -> Seq<char> {
        Seq::empty()
    }

    fn title(&self) -> (r: String) {
        String::new()
    }

    open spec fn spec_ideal_width(&self, height: u16, max_width: Option<u16>) -> u16 {
        min_int(text_width(self.text@), u16::MAX as int) as u16
    }

    fn ideal_width(&self, height: u16, max_width: Option<u16>) -> (r: u16) {
        self.width()
    }

    open spec fn spec_ideal_height(&self, width: u16, max_height: Option<u16>) -> u16 {
        1
    }

    fn ideal_height(&self, width: u16, max_height: Option<u16>) -> (r: u16) {
        1
    }

    open spec fn spec_ideal_size(&self, maximum: Vec2<Option<u16>>) -> Vec2<u16> {
        Vec2 { x: min_int(text_width(self.text@), u16::MAX as int) as u16, y: 1 }
    }

    fn ideal_size(&self, maximum: Vec2<Option<u16>>) -> (r: Vec2<u16>) {
        Vec2 { x: self.width(), y: 1 }
    }

    open spec fn spec_width(&self, height: Option<u16>) -> (u16, u16) {
        (
            min_int(text_width(self.text@), u16::MAX as int) as u16,
            min_int(text_width(self.text@), u16::MAX as int) as u16,
        )
    }

    fn width(&self, height: Option<u16>) -> (r: (u16, u16)) {
        let w = width_of_text(self.text.as_str());
        (w, w)
    }

    open spec fn spec_height(&self, width: Option<u16>) -> (u16, u16) {
        (1, 1)
    }

    fn height(&self, width: Option<u16>) -> (r: (u16, u16)) {
        (1, 1)
    }

    open spec fn handled(&self, input: Input) -> Seq<Self::Event> {
        Seq::empty()
    }

    fn handle(&self, input: Input, events: &mut Vec<Self::Event>) {
        assert(events@ + Seq::<Event>::empty() =~= events@);
    }
}

/// Create a span of text in the default style.
#[must_use]
pub fn span<Event>(text: &str) -> (r: Span<Event>)
    ensures
        r.text@ == text@,
        r.style == Style::plain(),
{
    Span { text: text.to_owned(), style: Style::default(), event: PhantomData }
}

} // verus!
