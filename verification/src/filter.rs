//! Filters: wrappers that change how an element draws, what sizes suit it and what input it
//! receives.

use crate::element::{
    drawer, handler, height_of, ideal_height_of, ideal_size_of, ideal_width_of, width_of, Element,
};
use crate::input::{Input, KeyPress, Mouse};
use crate::output::{char_draws, Draw, Output};
use crate::style::{Cursor, Style};
use crate::vec2::Vec2;
use vstd::prelude::*;

verus! {

/// A wrapper around a single element that changes it.
///
/// Each method is handed the wrapped element and decides whether and how to turn to it. What a
/// method gives is what the spec function beside it says of the filter, of the arguments and of
/// what the element gives.
pub trait Filter<Event> {
    /// What the filtered element draws within `size`, where the element draws `inner` and has
    /// the title `title`.
    spec fn drawn(
        &self,
        inner: spec_fn(Vec2<u16>) -> Seq<Draw>,
        title: Seq<char>,
        size: Vec2<u16>,
    ) -> Seq<Draw>;

    /// Draws the filtered element to the output.
    fn draw<E: Element>(&self, element: &E, output: &mut Output)
        ensures
            final(output).spec_size() == old(output).spec_size(),
            final(output)@ == old(output)@ + self.drawn(
                drawer(element),
                element.spec_title(),
                old(output).spec_size(),
            ),
    ;

    /// The title of the filtered element, where the element has the title `inner`.
    spec fn spec_title(&self, inner: Seq<char>) -> Seq<char>;

    /// The title of the filtered element.
    fn title<E: Element>(&self, element: &E) -> (r: String)
        ensures
            r@ == self.spec_title(element.spec_title()),
    ;

    /// The width that suits the filtered element.
    spec fn spec_ideal_width(
        &self,
        inner: spec_fn(u16, Option<u16>) -> u16,
        height: u16,
        max_width: Option<u16>,
    ) -> u16;

    /// The width that suits the filtered element at a height, below a largest width where one
    /// is given.
    fn ideal_width<E: Element>(&self, element: &E, height: u16, max_width: Option<u16>) -> (r: u16)
        ensures
            r == self.spec_ideal_width(ideal_width_of(element), height, max_width),
    ;

    /// The height that suits the filtered element.
    spec fn spec_ideal_height(
        &self,
        inner: spec_fn(u16, Option<u16>) -> u16,
        width: u16,
        max_height: Option<u16>,
    ) -> u16;

    /// The height that suits the filtered element at a width, below a largest height where one
    /// is given.
    fn ideal_height<E: Element>(&self, element: &E, width: u16, max_height: Option<u16>) -> (r:
        u16)
        ensures
            r == self.spec_ideal_height(ideal_height_of(element), width, max_height),
    ;

    /// The size that suits the filtered element.
    spec fn spec_ideal_size(
        &self,
        inner: spec_fn(Vec2<Option<u16>>) -> Vec2<u16>,
        maximum: Vec2<Option<u16>>,
    ) -> Vec2<u16>;

    /// The size that suits the filtered element below the largest width and height given.
    fn ideal_size<E: Element>(&self, element: &E, maximum: Vec2<Option<u16>>) -> (r: Vec2<u16>)
        ensures
            r == self.spec_ideal_size(ideal_size_of(element), maximum),
    ;

    /// The widths that the filtered element can take.
    spec fn spec_width(&self, inner: spec_fn(Option<u16>) -> (u16, u16), height: Option<u16>) -> (
        u16,
        u16,
    );

    /// The smallest and the largest width that the filtered element can take.
    fn width<E: Element>(&self, element: &E, height: Option<u16>) -> (r: (u16, u16))
        ensures
            r == self.spec_width(width_of(element), height),
    ;

    /// The heights that the filtered element can take.
    spec fn spec_height(&self, inner: spec_fn(Option<u16>) -> (u16, u16), width: Option<u16>) -> (
        u16,
        u16,
    );

    /// The smallest and the largest height that the filtered element can take.
    fn height<E: Element>(&self, element: &E, width: Option<u16>) -> (r: (u16, u16))
        ensures
            r == self.spec_height(height_of(element), width),
    ;

    /// The events that the filtered element reacts to an input with, where the element reacts
    /// as `inner` says.
    spec fn handled(&self, inner: spec_fn(Input) -> Seq<Event>, input: Input) -> Seq<Event>;

    /// Hands an input to the filtered element.
    fn handle<E: Element<Event = Event>>(&self, element: &E, input: Input, events: &mut Vec<Event>)
        ensures
            final(events)@ == old(events)@ + self.handled(handler(element), input),
    ;
}

/// What a filter makes of single characters, of the cursor and of single inputs. A filter that
/// only recolors or exchanges glyphs is described by this alone.
pub trait Remap {
    /// The character written in place of `c`.
    spec fn char_of(&self, c: char) -> char;

    /// Filter the value of a character being written to the output.
    fn filter_char(&self, c: char) -> (r: char)
        ensures
            r == self.char_of(c),
    ;

    /// The style written in place of `style`.
    spec fn style_of(&self, style: Style) -> Style;

    /// Filter the style of a character being written to the output.
    fn filter_style(&self, style: Style) -> (r: Style)
        ensures
            r == self.style_of(style),
    ;

    /// The cursor set in place of `cursor`.
    spec fn cursor_of(&self, cursor: Option<Cursor>) -> Option<Cursor>;

    /// Filter the cursor of the output.
    fn filter_cursor(&self, cursor: Option<Cursor>) -> (r: Option<Cursor>)
        ensures
            r == self.cursor_of(cursor),
    ;

    /// The key press handed on in place of `key`.
    spec fn key_press_of(&self, key: KeyPress) -> KeyPress;

    /// Filter the key input to the element.
    fn filter_key_press(&self, key: KeyPress) -> (r: KeyPress)
        ensures
            r == self.key_press_of(key),
    ;

    /// The mouse event handed on in place of `mouse`.
    spec fn mouse_of(&self, mouse: Mouse) -> Mouse;

    /// Filter the mouse input to the element.
    fn filter_mouse(&self, mouse: Mouse) -> (r: Mouse)
        ensures
            r == self.mouse_of(mouse),
    ;
}

/// What one thing that an element draws comes to when it goes through the filter: a character
/// is written with its value and its style filtered, a cursor is set filtered.
pub open spec fn remapped_one<R: Remap>(remap: &R, size: Vec2<u16>, d: Draw) -> Seq<Draw> {
    match d {
        Draw::Char { pos, c, style } => char_draws(
            size,
            pos.x as int,
            pos.y as int,
            remap.char_of(c),
            remap.style_of(style),
        ),
        Draw::Cursor(cursor) => seq![Draw::Cursor(remap.cursor_of(cursor))],
    }
}

/// What the things that an element draws come to when each goes through the filter, in their
/// order.
pub open spec fn remapped<R: Remap>(remap: &R, size: Vec2<u16>, draws: Seq<Draw>) -> Seq<Draw>
    decreases draws.len(),
{
    if draws.len() == 0 {
        Seq::empty()
    } else {
        remapped(remap, size, draws.drop_last()) + remapped_one(remap, size, draws.last())
    }
}

/// The input that a filter hands on in place of `input`.
pub open spec fn input_of<R: Remap>(remap: &R, input: Input) -> Input {
    match input {
        Input::Key(key) => Input::Key(remap.key_press_of(key)),
        Input::Mouse(mouse) => Input::Mouse(remap.mouse_of(mouse)),
    }
}

/// Write a single filtered character to the output: the character and the style go through the
/// filter and are then written.
pub fn write_char<R: Remap>(remap: &R, base: &mut Output, pos: Vec2<u16>, c: char, style: Style)
    ensures
        final(base).spec_size() == old(base).spec_size(),
        final(base)@ == old(base)@ + remapped_one(
            remap,
            old(base).spec_size(),
            Draw::Char { pos, c, style },
        ),
{
    base.write_char(pos, remap.filter_char(c), remap.filter_style(style));
}

/// Set the filtered cursor of the output.
pub fn set_cursor<R: Remap>(remap: &R, base: &mut Output, cursor: Option<Cursor>)
    ensures
        final(base).spec_size() == old(base).spec_size(),
        final(base)@ == old(base)@ + remapped_one(
            remap,
            old(base).spec_size(),
            Draw::Cursor(cursor),
        ),
{
    base.set_cursor(remap.filter_cursor(cursor));
    assert(base@ =~= old(base)@ + seq![Draw::Cursor(remap.cursor_of(cursor))]);
}

/// Filter inputs given to the wrapped element: a key press and a mouse event each go through
/// the filter.
pub fn filter_input<R: Remap>(remap: &R, input: Input) -> (r: Input)
    ensures
        r == input_of(remap, input),
{
    match input {
        Input::Key(key) => Input::Key(remap.filter_key_press(key)),
        Input::Mouse(mouse) => Input::Mouse(remap.filter_mouse(mouse)),
    }
}

/// Draws an element through a filter that changes only single characters and the cursor: the
/// element draws to an output of its own, and whatever it draws there is written to `output`
/// through the filter, in its order.
pub fn draw_piped<R: Remap, E: Element>(remap: &R, element: &E, output: &mut Output)
    ensures
        final(output).spec_size() == old(output).spec_size(),
        final(output)@ == old(output)@ + remapped(
            remap,
            old(output).spec_size(),
            element.drawn(old(output).spec_size()),
        ),
{
    let ghost before = output@;
    let ghost size = output.spec_size();
    let mut inner = Output::new(output.size());
    element.draw(&mut inner);
    assert(inner@ =~= element.drawn(size));
    let draws = inner.draws();
    let mut i: usize = 0;
    proof {
        assert(draws@.take(0) =~= Seq::<Draw>::empty());
        assert(before + Seq::<Draw>::empty() =~= before);
    }
    while i < draws.len()
        invariant
            i <= draws.len(),
            draws@ == element.drawn(size),
            output.spec_size() == size,
            output@ == before + remapped(remap, size, draws@.take(i as int)),
        decreases draws.len() - i,
    {
        proof {
            let next = draws@.take(i + 1);
            assert(next.drop_last() =~= draws@.take(i as int));
            assert(next.last() == draws@[i as int]);
            let done = remapped(remap, size, draws@.take(i as int));
            let one = remapped_one(remap, size, draws@[i as int]);
            assert(before + (done + one) =~= (before + done) + one);
        }
        match draws[i] {
            Draw::Char { pos, c, style } => {
                write_char(remap, output, pos, c, style);
            },
            Draw::Cursor(cursor) => {
                set_cursor(remap, output, cursor);
            },
        }
        i = i + 1;
    }
    assert(draws@.take(draws.len() as int) =~= draws@);
}

/// An element with a filter applied.
#[derive(Debug, Default, Clone, Copy, PartialEq, Eq)]
pub struct Filtered<T, F> {
    /// The inner element.
    pub element: T,
    /// The filter applied to the element.
    pub filter: F,
}

impl<T, F> Filtered<T, F> {
    /// Filter an element.
    #[must_use]
    pub fn new(element: T, filter: F) -> (r: Self)
        ensures
            r.element == element,
            r.filter == filter,
    {
        Self { element, filter }
    }
}

impl<T: Element, F: Filter<T::Event>> Element for Filtered<T, F> {
    type Event = T::Event;

    open spec fn drawn(&self, size: Vec2<u16>) -> Seq<Draw> {
        self.filter.drawn(drawer(&self.element), self.element.spec_title(), size)
    }

    fn draw(&self, output: &mut Output) {
        self.filter.draw(&self.element, output)
    }

    open spec fn spec_title(&self) -> Seq<char> {
        self.filter.spec_title(self.element.spec_title())
    }

    fn title(&self) -> (r: String) {
        self.filter.title(&self.element)
    }

    open spec fn spec_ideal_width(&self, height: u16, max_width: Option<u16>) -> u16 {
        self.filter.spec_ideal_width(ideal_width_of(&self.element), height, max_width)
    }

    fn ideal_width(&self, height: u16, max_width: Option<u16>) -> (r: u16) {
        self.filter.ideal_width(&self.element, height, max_width)
    }

    open spec fn spec_ideal_height(&self, width: u16, max_height: Option<u16>) -> u16 {
        self.filter.spec_ideal_height(ideal_height_of(&self.element), width, max_height)
    }

    fn ideal_height(&self, width: u16, max_height: Option<u16>) -> (r: u16) {
        self.filter.ideal_height(&self.element, width, max_height)
    }

    open spec fn spec_ideal_size(&self, maximum: Vec2<Option<u16>>) -> Vec2<u16> {
        self.filter.spec_ideal_size(ideal_size_of(&self.element), maximum)
    }

    fn ideal_size(&self, maximum: Vec2<Option<u16>>) -> (r: Vec2<u16>) {
        self.filter.ideal_size(&self.element, maximum)
    }

    open spec fn spec_width(&self, height: Option<u16>) -> (u16, u16) {
        self.filter.spec_width(width_of(&self.element), height)
    }

    fn width(&self, height: Option<u16>) -> (r: (u16, u16)) {
        self.filter.width(&self.element, height)
    }

    open spec fn spec_height(&self, width: Option<u16>) -> (u16, u16) {
        self.filter.spec_height(height_of(&self.element), width)
    }

    fn height(&self, width: Option<u16>) -> (r: (u16, u16)) {
        self.filter.height(&self.element, width)
    }

    open spec fn handled(&self, input: Input) -> Seq<Self::Event> {
        self.filter.handled(handler(&self.element), input)
    }

    fn handle(&self, input: Input, events: &mut Vec<Self::Event>) {
        self.filter.handle(&self.element, input, events);
    }
}

/// Alignment to the start, middle or end.
#[derive(Debug, Clone, Copy, PartialEq, Eq, Hash, Structural)]
pub enum Alignment {
    /// Aligned to the start of the container.
    Start,
    /// Aligned to the middle of the container.
    Middle,
    /// Aligned to the end of the container.
    End,
}

} // verus!
