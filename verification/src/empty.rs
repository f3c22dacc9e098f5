//! An element that draws nothing.

use crate::element::Element;
use crate::input::Input;
use crate::output::{Draw, Output};
use crate::vec2::Vec2;
use core::marker::PhantomData;
use vstd::prelude::*;

verus! {

/// An element that draws nothing, has no title, takes no room and reacts to no input.
#[derive(Debug, PartialEq, Eq)]
pub struct Empty<Event> {
    /// The events that the element never sends.
    pub event: PhantomData<Event>,
}

/// Create an element that draws nothing.
#[must_use]
pub fn empty<Event>() -> (r: Empty<Event>)
    ensures
        r == (Empty::<Event> { event: PhantomData }),
{
    Empty { event: PhantomData }
}

impl<Event> Element for Empty<Event> {
    type Event = Event;

    open spec fn drawn(&self, size: Vec2<u16>) -> Seq<Draw> {
        Seq::empty()
    }

    fn draw(&self, output: &mut Output) {
        assert(output@ + Seq::<Draw>::empty() =~= output@);
    }

    open spec fn spec_title(&self) -> Seq<char> {
        Seq::empty()
    }

    fn title(&self) -> (r: String) {
        String::new()
    }

    open spec fn spec_ideal_width(&self, height: u16, max_width: Option<u16>) -> u16 {
        0
    }

    fn ideal_width(&self, height: u16, max_width: Option<u16>) -> (r: u16) {
        0
    }

    open spec fn spec_ideal_height(&self, width: u16, max_height: Option<u16>) -> u16 {
        0
    }

    fn ideal_height(&self, width: u16, max_height: Option<u16>) -> (r: u16) {
        0
    }

    open spec fn spec_ideal_size(&self, maximum: Vec2<Option<u16>>) -> Vec2<u16> {
        Vec2 { x: 0, y: 0 }
    }

    fn ideal_size(&self, maximum: Vec2<Option<u16>>) -> (r: Vec2<u16>) {
        Vec2 { x: 0, y: 0 }
    }

    open spec fn spec_width(&self, height: Option<u16>) -> (u16, u16) {
        (0, u16::MAX)
    }

    fn width(&self, height: Option<u16>) -> (r: (u16, u16)) {
        (0, u16::MAX)
    }

    open spec fn spec_height(&self, width: Option<u16>) -> (u16, u16) {
        (0, u16::MAX)
    }

    fn height(&self, width: Option<u16>) -> (r: (u16, u16)) {
        (0, u16::MAX)
    }

    open spec fn handled(&self, input: Input) -> Seq<Self::Event> {
        Seq::empty()
    }

    fn handle(&self, input: Input, events: &mut Vec<Self::Event>) {
        assert(events@ + Seq::<Event>::empty() =~= events@);
    }
}

} // verus!
