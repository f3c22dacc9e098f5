//! A filter that gives an element a title.

use crate::element::Element;
use crate::filter::{draw_piped, filter_input, input_of, remapped, Filter, Remap};
use crate::input::{Input, KeyPress, Mouse};
use crate::output::{Draw, Output};
use crate::style::{Cursor, Style};
use crate::vec2::Vec2;
use vstd::prelude::*;

verus! {

/// A filter that sets the title of an element and leaves everything else as it is.
#[derive(Debug, Clone, PartialEq, Eq)]
pub struct Title {
    /// The title.
    pub title: String,
}

impl Title {
    /// Create a filter that gives the title `title`.
    #[must_use]
    pub fn new(title: &str) -> (r: Self)
        ensures
            r.title@ == title@,
    {
        Title { title: title.to_owned() }
    }
}

impl Remap for Title {
    open spec fn char_of(&self, c: char) -> char {
        c
    }

    fn filter_char(&self, c: char) -> (r: char) {
        c
    }

    open spec fn style_of(&self, style: Style) -> Style {
        style
    }

    fn filter_style(&self, style: Style) -> (r: Style) {
        style
    }

    open spec fn cursor_of(&self, cursor: Option<Cursor>) -> Option<Cursor> {
        cursor
    }

    fn filter_cursor(&self, cursor: Option<Cursor>) -> (r: Option<Cursor>) {
        cursor
    }

    open spec fn key_press_of(&self, key: KeyPress) -> KeyPress {
        key
    }

    fn filter_key_press(&self, key: KeyPress) -> (r: KeyPress) {
        key
    }

    open spec fn mouse_of(&self, mouse: Mouse) -> Mouse {
        mouse
    }

    fn filter_mouse(&self, mouse: Mouse) -> (r: Mouse) {
        mouse
    }
}

impl<Event> Filter<Event> for Title {
    open spec fn drawn(
        &self,
        inner: spec_fn(Vec2<u16>) -> Seq<Draw>,
        title: Seq<char>,
        size: Vec2<u16>,
    ) -> Seq<Draw> {
        remapped(self, size, inner(size))
    }

    fn draw<E: Element>(&self, element: &E, output: &mut Output) {
        draw_piped(self, element, output);
    }

    open spec fn spec_title(&self, inner: Seq<char>) -> Seq<char> {
        self.title@
    }

    fn title<E: Element>(&self, element: &E) -> (r: String) {
        self.title.clone()
    }

    open spec fn spec_ideal_width(
        &self,
        inner: spec_fn(u16, Option<u16>) -> u16,
        height: u16,
        max_width: Option<u16>,
    ) -> u16 {
        inner(height, max_width)
    }

    fn ideal_width<E: Element>(&self, element: &E, height: u16, max_width: Option<u16>) -> (r:
        u16) {
        element.ideal_width(height, max_width)
    }

    open spec fn spec_ideal_height(
        &self,
        inner: spec_fn(u16, Option<u16>) -> u16,
        width: u16,
        max_height: Option<u16>,
    ) -> u16 {
        inner(width, max_height)
    }

    fn ideal_height<E: Element>(&self, element: &E, width: u16, max_height: Option<u16>) -> (r:
        u16) {
        element.ideal_height(width, max_height)
    }

    open spec fn spec_ideal_size(
        &self,
        inner: spec_fn(Vec2<Option<u16>>) -> Vec2<u16>,
        maximum: Vec2<Option<u16>>,
    ) -> Vec2<u16> {
        inner(maximum)
    }

    fn ideal_size<E: Element>(&self, element: &E, maximum: Vec2<Option<u16>>) -> (r: Vec2<u16>) {
        element.ideal_size(maximum)
    }

    open spec fn spec_width(&self, inner: spec_fn(Option<u16>) -> (u16, u16), height: Option<u16>) -> (
        u16,
        u16,
    ) {
        inner(height)
    }

    fn width<E: Element>(&self, element: &E, height: Option<u16>) -> (r: (u16, u16)) {
        element.width(height)
    }

    open spec fn spec_height(&self, inner: spec_fn(Option<u16>) -> (u16, u16), width: Option<u16>) -> (
        u16,
        u16,
    ) {
        inner(width)
    }

    fn height<E: Element>(&self, element: &E, width: Option<u16>) -> (r: (u16, u16)) {
        element.height(width)
    }

    open spec fn handled(&self, inner: spec_fn(Input) -> Seq<Event>, input: Input) -> Seq<Event> {
        inner(input_of(self, input))
    }

    fn handle<E: Element<Event = Event>>(&self, element: &E, input: Input, events: &mut Vec<Event>) {
        element.handle(filter_input(self, input), events);
    }
}

} // verus!
