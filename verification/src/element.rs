//! What every drawable thing provides: drawing, a title, sizes and the handling of input.

use crate::input::Input;
use crate::output::{Draw, Output};
use crate::vec2::Vec2;
use vstd::prelude::*;

verus! {

/// Something that draws itself within a size, has a title, knows what size suits it and reacts
/// to input with events.
///
/// Each method gives what the spec function beside it says, which depends on the element and
/// the arguments alone: an element draws the same whenever it is asked to.
pub trait Element {
    /// The events that the element reacts to input with.
    type Event;

    /// What the element draws within `size`.
    spec fn drawn(&self, size: Vec2<u16>) -> Seq<Draw>;

    /// Draws the element to the output, within the output's size.
    fn draw(&self, output: &mut Output)
        ensures
            final(output).spec_size() == old(output).spec_size(),
            final(output)@ == old(output)@ + self.drawn(old(output).spec_size()),
    ;

    /// The title of the element.
    spec fn spec_title(&self) -> Seq<char>;

    /// The title of the element.
    fn title(&self) -> (r: String)
        ensures
            r@ == self.spec_title(),
    ;

    /// The width that suits the element at a height, below a largest width where one is given.
    spec fn spec_ideal_width(&self, height: u16, max_width: Option<u16>) -> u16;

    /// The width that suits the element at a height, below a largest width where one is given.
    fn ideal_width(&self, height: u16, max_width: Option<u16>) -> (r: u16)
        ensures
            r == self.spec_ideal_width(height, max_width),
    ;

    /// The height that suits the element at a width, below a largest height where one is
    /// given.
    spec fn spec_ideal_height(&self, width: u16, max_height: Option<u16>) -> u16;

    /// The height that suits the element at a width, below a largest height where one is
    /// given.
    fn ideal_height(&self, width: u16, max_height: Option<u16>) -> (r: u16)
        ensures
            r == self.spec_ideal_height(width, max_height),
    ;

    /// The size that suits the element below the largest width and height given.
    spec fn spec_ideal_size(&self, maximum: Vec2<Option<u16>>) -> Vec2<u16>;

    /// The size that suits the element below the largest width and height given.
    fn ideal_size(&self, maximum: Vec2<Option<u16>>) -> (r: Vec2<u16>)
        ensures
            r == self.spec_ideal_size(maximum),
    ;

    /// The smallest and the largest width that the element can take, at a height where one is
    /// given.
    spec fn spec_width(&self, height: Option<u16>) -> (u16, u16);

    /// The smallest and the largest width that the element can take, at a height where one is
    /// given.
    fn width(&self, height: Option<u16>) -> (r: (u16, u16))
        ensures
            r == self.spec_width(height),
    ;

    /// The smallest and the largest height that the element can take, at a width where one is
    /// given.
    spec fn spec_height(&self, width: Option<u16>) -> (u16, u16);

    /// The smallest and the largest height that the element can take, at a width where one is
    /// given.
    fn height(&self, width: Option<u16>) -> (r: (u16, u16))
        ensures
            r == self.spec_height(width),
    ;

    /// The events that the element reacts to an input with.
    spec fn handled(&self, input: Input) -> Seq<Self::Event>;

    /// Hands an input to the element, which adds the events that it reacts with.
    fn handle(&self, input: Input, events: &mut Vec<Self::Event>)
        ensures
            final(events)@ == old(events)@ + self.handled(input),
    ;
}

/// What an element draws, as a function of the size.
pub open spec fn drawer<E: Element>(element: &E) -> spec_fn(Vec2<u16>) -> Seq<Draw> {
    |size: Vec2<u16>| element.drawn(size)
}

/// The width that suits an element, as a function of the height and the largest width.
pub open spec fn ideal_width_of<E: Element>(element: &E) -> spec_fn(u16, Option<u16>) -> u16 {
    |height: u16, max_width: Option<u16>| element.spec_ideal_width(height, max_width)
}

/// The height that suits an element, as a function of the width and the largest height.
pub open spec fn ideal_height_of<E: Element>(element: &E) -> spec_fn(u16, Option<u16>) -> u16 {
    |width: u16, max_height: Option<u16>| element.spec_ideal_height(width, max_height)
}

/// The size that suits an element, as a function of the largest size.
pub open spec fn ideal_size_of<E: Element>(element: &E) -> spec_fn(Vec2<Option<u16>>) -> Vec2<
    u16,
> {
    |maximum: Vec2<Option<u16>>| element.spec_ideal_size(maximum)
}

/// The widths that an element can take, as a function of the height.
pub open spec fn width_of<E: Element>(element: &E) -> spec_fn(Option<u16>) -> (u16, u16) {
    |height: Option<u16>| element.spec_width(height)
}

/// The heights that an element can take, as a function of the width.
pub open spec fn height_of<E: Element>(element: &E) -> spec_fn(Option<u16>) -> (u16, u16) {
    |width: Option<u16>| element.spec_height(width)
}

/// The events that an element reacts with, as a function of the input.
pub open spec fn handler<E: Element>(element: &E) -> spec_fn(Input) -> Seq<E::Event> {
    |input: Input| element.handled(input)
}

/// The size that suits an element where it is taken from the width and the height that suit
/// it: the width at the largest height, then the height at that width.
pub open spec fn ideal_size_from(
    ideal_width: spec_fn(u16, Option<u16>) -> u16,
    ideal_height: spec_fn(u16, Option<u16>) -> u16,
    maximum: Vec2<Option<u16>>,
) -> Vec2<u16> {
    let width = ideal_width(
        match maximum.y {
            Some(height) => height,
            None => u16::MAX,
        },
        maximum.x,
    );
    Vec2 { x: width, y: ideal_height(width, maximum.y) }
}

/// The size that suits an element, taken from the width and the height that suit it.
pub fn ideal_size_from_sides<E: Element>(element: &E, maximum: Vec2<Option<u16>>) -> (r: Vec2<u16>)
    ensures
        r == ideal_size_from(ideal_width_of(element), ideal_height_of(element), maximum),
{
    let height = match maximum.y {
        Some(height) => height,
        None => u16::MAX,
    };
    let width = element.ideal_width(height, maximum.x);
    Vec2 { x: width, y: element.ideal_height(width, maximum.y) }
}

} // verus!
