//! A filter that draws a border around an element.

use crate::diff::lemma_concat_assoc;
use crate::element::Element;
use crate::filter::{Alignment, Filter};
use crate::input::{Input, Mouse};
use crate::output::{char_draws, draws_moved, Draw, Output};
use crate::span::{text_width, width_of_text};
use crate::style::Style;
use crate::vec2::{min_int, sat_add, sat_sub, Vec2};
use crate::width::{advance, advance_of};
use vstd::prelude::*;

verus! {

/// A filter that adds a border to an element.
#[derive(Debug, Hash, PartialEq, Eq, Clone, Copy)]
pub struct Border {
    /// The characters that make up the sides of the border, in the order of top, left, right,
    /// bottom. These must not be double-width characters.
    pub sides: (char, char, char, char),
    /// The characters that make up the corners of the border, in the order of top left, top
    /// right, bottom left, bottom right. These must not be double-width characters.
    pub corners: (char, char, char, char),
    /// The style of the border.
    pub style: Style,
    /// The style of the title.
    pub title_style: Style,
    /// The alignment of the title if it's displayed on the top of the border.
    pub top_title_align: Option<Alignment>,
    /// The alignment of the title if it's displayed on the bottom of the border.
    pub bottom_title_align: Option<Alignment>,
    /// Whether the content has one character of padding on either side.
    pub padding: bool,
}

/// The last column or row of `len` of them, where there is more than one.
pub open spec fn far_edge(len: u16) -> Option<int> {
    if len > 1 {
        Some(len - 1)
    } else {
        None
    }
}

/// What two columns of one character each draw on the rows from `from` up to `to`, row by
/// row: the character `c1` at column `x1`, then `c2` at column `x2` where there is such a
/// column.
pub open spec fn pair_draws(
    size: Vec2<u16>,
    x1: int,
    c1: char,
    x2: Option<int>,
    c2: char,
    style: Style,
    from: int,
    to: int,
) -> Seq<Draw>
    decreases to - from,
{
    if to <= from {
        Seq::empty()
    } else {
        pair_draws(size, x1, c1, x2, c2, style, from, to - 1) + char_draws(
            size,
            x1,
            to - 1,
            c1,
            style,
        ) + match x2 {
            Some(x) => char_draws(size, x, to - 1, c2, style),
            None => Seq::empty(),
        }
    }
}

/// Where a title starts on a border of `available` columns between its corners.
pub open spec fn title_start(align: Alignment, available: int, title_width: int) -> int {
    1 + match align {
        Alignment::Start => 0,
        Alignment::Middle => sat_sub(available / 2, title_width / 2),
        Alignment::End => sat_sub(available, title_width),
    }
}

/// How far the drawing of a title has come.
pub struct TitleState {
    /// The column of the next character on the top border, where the title is shown there.
    pub top: Option<int>,
    /// The column of the next character on the bottom border, where it is shown there.
    pub bottom: Option<int>,
    /// Whether a character did not fit before the right border, which ends the title.
    pub stopped: bool,
    /// What was drawn of the title.
    pub draws: Seq<Draw>,
}

/// How far the title has come after the character `c`.
///
/// A character without width is passed over. A character that would reach the right border
/// ends the title, on the top first. Else it is drawn on the top border and on the bottom
/// border, wherever the title is shown.
pub open spec fn title_step(
    st: TitleState,
    c: char,
    size: Vec2<u16>,
    style: Style,
) -> TitleState {
    let w = advance_of(c);
    let right = far_edge(size.x);
    let low = far_edge(size.y);
    if st.stopped || w == 0 {
        st
    } else if st.top is Some && !(right is Some && st.top.unwrap() + w <= right.unwrap()) {
        TitleState { stopped: true, ..st }
    } else {
        let first = match st.top {
            Some(x) => char_draws(size, x, 0, c, style),
            None => Seq::empty(),
        };
        let top = match st.top {
            Some(x) => Some(x + w),
            None => None,
        };
        if st.bottom is Some && low is Some {
            if right is Some && st.bottom.unwrap() + w <= right.unwrap() {
                TitleState {
                    top,
                    bottom: Some(st.bottom.unwrap() + w),
                    stopped: false,
                    draws: st.draws + first + char_draws(
                        size,
                        st.bottom.unwrap(),
                        low.unwrap(),
                        c,
                        style,
                    ),
                }
            } else {
                TitleState { top, bottom: st.bottom, stopped: true, draws: st.draws + first }
            }
        } else {
            TitleState { top, bottom: st.bottom, stopped: false, draws: st.draws + first }
        }
    }
}

/// How far the title has come after all the characters of `title`, from the state `start`.
pub open spec fn title_state(
    start: TitleState,
    title: Seq<char>,
    size: Vec2<u16>,
    style: Style,
) -> TitleState
    decreases title.len(),
{
    if title.len() == 0 {
        start
    } else {
        title_step(title_state(start, title.drop_last(), size, style), title.last(), size, style)
    }
}

/// Whether the column `x` of a border is free of the title that starts at `start` and ends
/// before `end`.
pub open spec fn edge_free(x: int, start: Option<int>, end: Option<int>) -> bool {
    start is None || x < start.unwrap() || (end is Some && x >= end.unwrap())
}

/// What the top and the bottom border draw on the columns from 1 up to `to`, column by column,
/// wherever the title leaves them free.
pub open spec fn edge_draws(
    size: Vec2<u16>,
    top: char,
    bottom: char,
    style: Style,
    top_start: Option<int>,
    top_end: Option<int>,
    bottom_start: Option<int>,
    bottom_end: Option<int>,
    to: int,
) -> Seq<Draw>
    decreases to,
{
    if to <= 1 {
        Seq::empty()
    } else {
        let x = to - 1;
        edge_draws(
            size,
            top,
            bottom,
            style,
            top_start,
            top_end,
            bottom_start,
            bottom_end,
            to - 1,
        ) + (if edge_free(x, top_start, top_end) {
            char_draws(size, x, 0, top, style)
        } else {
            Seq::empty()
        }) + (if far_edge(size.y) is Some && edge_free(x, bottom_start, bottom_end) {
            char_draws(size, x, far_edge(size.y).unwrap(), bottom, style)
        } else {
            Seq::empty()
        })
    }
}

impl Border {
    /// The number of columns that the border takes on each side.
    pub open spec fn pad(&self) -> int {
        if self.padding {
            2
        } else {
            1
        }
    }

    /// Where the element is drawn inside the border.
    pub open spec fn inner_offset(&self) -> Vec2<u16> {
        Vec2 { x: self.pad() as u16, y: 1 }
    }

    /// The size that is left for the element inside a border of the size `size`.
    pub open spec fn inner_size(&self, size: Vec2<u16>) -> Vec2<u16> {
        Vec2 {
            x: sat_sub(size.x as int, 2 * self.pad()) as u16,
            y: sat_sub(size.y as int, 2) as u16,
        }
    }

    /// What the padding draws: a space in the column beside each side border, on every row
    /// between the top and the bottom border.
    pub open spec fn padding_draws(&self, size: Vec2<u16>) -> Seq<Draw> {
        if self.padding {
            pair_draws(
                size,
                1,
                ' ',
                match far_edge(size.x) {
                    Some(x) => Some(x - 1),
                    None => None,
                },
                ' ',
                self.style,
                1,
                sat_sub(size.y as int, 1),
            )
        } else {
            Seq::empty()
        }
    }

    /// What the four corners draw, where the size has them.
    pub open spec fn corner_draws(&self, size: Vec2<u16>) -> Seq<Draw> {
        let right = far_edge(size.x);
        let low = far_edge(size.y);
        char_draws(size, 0, 0, self.corners.0, self.style) + (match right {
            Some(x) => char_draws(size, x, 0, self.corners.1, self.style),
            None => Seq::empty(),
        }) + (match low {
            Some(y) => char_draws(size, 0, y, self.corners.2, self.style),
            None => Seq::empty(),
        }) + (if right is Some && low is Some {
            char_draws(size, right.unwrap(), low.unwrap(), self.corners.3, self.style)
        } else {
            Seq::empty()
        })
    }

    /// What the left and the right border draw.
    pub open spec fn side_draws(&self, size: Vec2<u16>) -> Seq<Draw> {
        pair_draws(
            size,
            0,
            self.sides.1,
            far_edge(size.x),
            self.sides.2,
            self.style,
            1,
            sat_sub(size.y as int, 1),
        )
    }

    /// Where the title starts on the top border, where it is shown there.
    pub open spec fn top_start(&self, title: Seq<char>, size: Vec2<u16>) -> Option<int> {
        match self.top_title_align {
            Some(align) => Some(
                title_start(
                    align,
                    sat_sub(size.x as int, 2),
                    min_int(text_width(title), u16::MAX as int),
                ),
            ),
            None => None,
        }
    }

    /// Where the title starts on the bottom border, where it is shown there.
    pub open spec fn bottom_start(&self, title: Seq<char>, size: Vec2<u16>) -> Option<int> {
        match self.bottom_title_align {
            Some(align) => Some(
                title_start(
                    align,
                    sat_sub(size.x as int, 2),
                    min_int(text_width(title), u16::MAX as int),
                ),
            ),
            None => None,
        }
    }

    /// How far the title comes on a border of the size `size`.
    pub open spec fn titled(&self, title: Seq<char>, size: Vec2<u16>) -> TitleState {
        title_state(
            TitleState {
                top: self.top_start(title, size),
                bottom: self.bottom_start(title, size),
                stopped: false,
                draws: Seq::empty(),
            },
            title,
            size,
            self.title_style,
        )
    }

    /// What the top and the bottom border draw around the title.
    pub open spec fn edges(&self, title: Seq<char>, size: Vec2<u16>) -> Seq<Draw> {
        edge_draws(
            size,
            self.sides.0,
            self.sides.3,
            self.style,
            self.top_start(title, size),
            self.titled(title, size).top,
            self.bottom_start(title, size),
            self.titled(title, size).bottom,
            sat_sub(size.x as int, 1),
        )
    }

    /// What a border draws around an element that draws `inner` and has the title `title`:
    /// the element inside the border, then the padding, the corners, the sides, the title, and
    /// the top and the bottom border around the title.
    pub open spec fn border_draws(
        &self,
        inner: Seq<Draw>,
        title: Seq<char>,
        size: Vec2<u16>,
    ) -> Seq<Draw> {
        draws_moved(size, self.inner_offset(), inner) + self.padding_draws(size)
            + self.corner_draws(size) + self.side_draws(size) + self.titled(title, size).draws
            + self.edges(title, size)
    }

    /// The mouse event as the element inside the border sees it, or `None` where it falls on
    /// the border or outside.
    pub open spec fn mouse_inside(&self, mouse: Mouse) -> Option<Mouse> {
        if sat_add(mouse.at.x as int, self.pad()) >= mouse.size.x || sat_add(
            mouse.at.y as int,
            1,
        ) >= mouse.size.y || mouse.at.x < self.pad() || mouse.at.y < 1 || mouse.size.x < 2
            * self.pad() || mouse.size.y < 2 {
            None
        } else {
            Some(
                Mouse {
                    at: Vec2 {
                        x: (mouse.at.x - self.pad()) as u16,
                        y: (mouse.at.y - 1) as u16,
                    },
                    size: Vec2 {
                        x: (mouse.size.x - 2 * self.pad()) as u16,
                        y: (mouse.size.y - 2) as u16,
                    },
                    ..mouse
                },
            )
        }
    }

    /// The input as the element inside the border sees it, or `None` for a mouse event that
    /// falls on the border or outside.
    pub open spec fn input_inside(&self, input: Input) -> Option<Input> {
        match input {
            Input::Key(key) => Some(Input::Key(key)),
            Input::Mouse(mouse) => match self.mouse_inside(mouse) {
                Some(inside) => Some(Input::Mouse(inside)),
                None => None,
            },
        }
    }

    /// Create a new border from the sides and corners, with padding, in the default style and
    /// without a title.
    #[must_use]
    pub fn new(sides: (char, char, char, char), corners: (char, char, char, char)) -> (r: Self)
        ensures
            r == (Border {
                sides,
                corners,
                style: Style::plain(),
                title_style: Style::plain(),
                top_title_align: None,
                bottom_title_align: None,
                padding: true,
            }),
    {
        Self {
            sides,
            corners,
            style: Style::default(),
            title_style: Style::default(),
            top_title_align: None,
            bottom_title_align: None,
            padding: true,
        }
    }

    /// Set the alignment of the top title of the border.
    #[must_use]
    pub fn top_title(self, align: Alignment) -> (r: Self)
        ensures
            r == (Border { top_title_align: Some(align), ..self }),
    {
        Self { top_title_align: Some(align), ..self }
    }

    /// Set the alignment of the bottom title of the border.
    #[must_use]
    pub fn bottom_title(self, align: Alignment) -> (r: Self)
        ensures
            r == (Border { bottom_title_align: Some(align), ..self }),
    {
        Self { bottom_title_align: Some(align), ..self }
    }

    /// Set the title's style.
    #[must_use]
    pub fn title_style(self, title_style: Style) -> (r: Self)
        ensures
            r == (Border { title_style, ..self }),
    {
        Self { title_style, ..self }
    }

    /// Turn off the padding around the contents.
    #[must_use]
    pub fn no_padding(self) -> (r: Self)
        ensures
            r == (Border { padding: false, ..self }),
    {
        Self { padding: false, ..self }
    }

    /// Set the style of the border.
    #[must_use]
    pub fn style(self, style: Style) -> (r: Self)
        ensures
            r == (Border { style, ..self }),
    {
        Self { style, ..self }
    }

    /// The input as the element inside the border sees it, or `None` for a mouse event that
    /// falls on the border or outside.
    pub fn filter_input(&self, input: Input) -> (r: Option<Input>)
        ensures
            r == self.input_inside(input),
    {
        match input {
            Input::Key(key) => Some(Input::Key(key)),
            Input::Mouse(mouse) => {
                let xborder: u16 = if self.padding {
                    2
                } else {
                    1
                };
                if mouse.at.x.saturating_add(xborder) >= mouse.size.x || mouse.at.y.saturating_add(
                    1,
                ) >= mouse.size.y {
                    return None;
                }
                if mouse.at.x < xborder || mouse.at.y < 1 || mouse.size.x < 2 * xborder
                    || mouse.size.y < 2 {
                    return None;
                }
                Some(
                    Input::Mouse(
                        Mouse {
                            kind: mouse.kind,
                            at: Vec2 { x: mouse.at.x - xborder, y: mouse.at.y - 1 },
                            size: Vec2 { x: mouse.size.x - 2 * xborder, y: mouse.size.y - 2 },
                            modifiers: mouse.modifiers,
                        },
                    ),
                )
            },
        }
    }
}

impl Border {
    /// An ASCII border using pluses.
    #[must_use]
    pub fn ascii_plus() -> (r: Self)
        ensures
            r.sides == ('-', '|', '|', '-'),
            r.corners == ('+', '+', '+', '+'),
            r.style == Style::plain(),
            r.title_style == Style::plain(),
            r.top_title_align is None,
            r.bottom_title_align is None,
            r.padding,
    {
        Self::new(('-', '|', '|', '-'), ('+', '+', '+', '+'))
    }

    /// A curved ASCII border using dots and quotes.
    #[must_use]
    pub fn ascii_curved() -> (r: Self)
        ensures
            r.sides == ('-', '|', '|', '-'),
            r.corners == ('.', '.', '\'', '\''),
            r.style == Style::plain(),
            r.title_style == Style::plain(),
            r.top_title_align is None,
            r.bottom_title_align is None,
            r.padding,
    {
        Self::new(('-', '|', '|', '-'), ('.', '.', '\'', '\''))
    }

    /// A thin border.
    #[must_use]
    pub fn thin() -> (r: Self)
        ensures
            r.sides == ('\u{2500}', '\u{2502}', '\u{2502}', '\u{2500}'),
            r.corners == ('\u{250C}', '\u{2510}', '\u{2514}', '\u{2518}'),
            r.style == Style::plain(),
            r.title_style == Style::plain(),
            r.top_title_align is None,
            r.bottom_title_align is None,
            r.padding,
    {
        Self::new(('\u{2500}', '\u{2502}', '\u{2502}', '\u{2500}'), ('\u{250C}', '\u{2510}', '\u{2514}', '\u{2518}'))
    }

    /// A thin, curved border.
    #[must_use]
    pub fn thin_curved() -> (r: Self)
        ensures
            r.sides == ('\u{2500}', '\u{2502}', '\u{2502}', '\u{2500}'),
            r.corners == ('\u{256D}', '\u{256E}', '\u{2570}', '\u{256F}'),
            r.style == Style::plain(),
            r.title_style == Style::plain(),
            r.top_title_align is None,
            r.bottom_title_align is None,
            r.padding,
    {
        Self::new(('\u{2500}', '\u{2502}', '\u{2502}', '\u{2500}'), ('\u{256D}', '\u{256E}', '\u{2570}', '\u{256F}'))
    }

    /// A thick border.
    #[must_use]
    pub fn thick() -> (r: Self)
        ensures
            r.sides == ('\u{2501}', '\u{2503}', '\u{2503}', '\u{2501}'),
            r.corners == ('\u{250F}', '\u{2513}', '\u{2517}', '\u{251B}'),
            r.style == Style::plain(),
            r.title_style == Style::plain(),
            r.top_title_align is None,
            r.bottom_title_align is None,
            r.padding,
    {
        Self::new(('\u{2501}', '\u{2503}', '\u{2503}', '\u{2501}'), ('\u{250F}', '\u{2513}', '\u{2517}', '\u{251B}'))
    }

    /// A double border.
    #[must_use]
    pub fn double() -> (r: Self)
        ensures
            r.sides == ('\u{2550}', '\u{2551}', '\u{2551}', '\u{2550}'),
            r.corners == ('\u{2554}', '\u{2557}', '\u{255A}', '\u{255D}'),
            r.style == Style::plain(),
            r.title_style == Style::plain(),
            r.top_title_align is None,
            r.bottom_title_align is None,
            r.padding,
    {
        Self::new(('\u{2550}', '\u{2551}', '\u{2551}', '\u{2550}'), ('\u{2554}', '\u{2557}', '\u{255A}', '\u{255D}'))
    }

    /// A block border. This will look connected on most terminals.
    #[must_use]
    pub fn block() -> (r: Self)
        ensures
            r.sides == ('\u{2580}', '\u{2588}', '\u{2588}', '\u{2584}'),
            r.corners == ('\u{2588}', '\u{2588}', '\u{2588}', '\u{2588}'),
            r.style == Style::plain(),
            r.title_style == Style::plain(),
            r.top_title_align is None,
            r.bottom_title_align is None,
            r.padding,
    {
        Self::new(('\u{2580}', '\u{2588}', '\u{2588}', '\u{2584}'), ('\u{2588}', '\u{2588}', '\u{2588}', '\u{2588}'))
    }

    /// A thin braille border.
    #[must_use]
    pub fn braille_thin() -> (r: Self)
        ensures
            r.sides == ('\u{2809}', '\u{2847}', '\u{28B8}', '\u{28C0}'),
            r.corners == ('\u{284F}', '\u{28B9}', '\u{28C7}', '\u{28F8}'),
            r.style == Style::plain(),
            r.title_style == Style::plain(),
            r.top_title_align is None,
            r.bottom_title_align is None,
            r.padding,
    {
        Self::new(('\u{2809}', '\u{2847}', '\u{28B8}', '\u{28C0}'), ('\u{284F}', '\u{28B9}', '\u{28C7}', '\u{28F8}'))
    }

    /// A thick braille border. This will appear like the block border on some terminals.
    #[must_use]
    pub fn braille_thick() -> (r: Self)
        ensures
            r.sides == ('\u{281B}', '\u{28FF}', '\u{28FF}', '\u{28E4}'),
            r.corners == ('\u{28FF}', '\u{28FF}', '\u{28FF}', '\u{28FF}'),
            r.style == Style::plain(),
            r.title_style == Style::plain(),
            r.top_title_align is None,
            r.bottom_title_align is None,
            r.padding,
    {
        Self::new(('\u{281B}', '\u{28FF}', '\u{28FF}', '\u{28E4}'), ('\u{28FF}', '\u{28FF}', '\u{28FF}', '\u{28FF}'))
    }
}

/// A border hands a mouse event on to its element exactly where the event falls on the area
/// that the element is drawn to, and then with the place counted from the corner of that area
/// and with the size of that area.
pub proof fn lemma_mouse_matches_inside(border: Border, mouse: Mouse)
    ensures
        border.mouse_inside(mouse) is Some <==> {
            &&& border.inner_offset().x <= mouse.at.x < border.inner_offset().x
                + border.inner_size(mouse.size).x
            &&& border.inner_offset().y <= mouse.at.y < border.inner_offset().y
                + border.inner_size(mouse.size).y
        },
        border.mouse_inside(mouse) matches Some(inside) ==> {
            &&& inside.at.x == mouse.at.x - border.inner_offset().x
            &&& inside.at.y == mouse.at.y - border.inner_offset().y
            &&& inside.size == border.inner_size(mouse.size)
            &&& inside.kind == mouse.kind
            &&& inside.modifiers == mouse.modifiers
        },
{
}

/// The column or row as an integer, where there is one.
pub open spec fn as_int(at: Option<u16>) -> Option<int> {
    match at {
        Some(v) => Some(v as int),
        None => None,
    }
}

/// Draws two columns of one character each on the rows from 1 up to `to`.
fn draw_pairs(
    output: &mut Output,
    x1: u16,
    c1: char,
    x2: Option<u16>,
    c2: char,
    style: Style,
    to: u16,
)
    ensures
        final(output).spec_size() == old(output).spec_size(),
        final(output)@ == old(output)@ + pair_draws(
            old(output).spec_size(),
            x1 as int,
            c1,
            as_int(x2),
            c2,
            style,
            1,
            to as int,
        ),
{
    let ghost before = output@;
    let ghost size = output.spec_size();
    let mut y: u16 = 1;
    proof {
        assert(before + Seq::<Draw>::empty() =~= before);
    }
    if to <= 1 {
        return ;
    }
    while y < to
        invariant
            1 <= y <= to,
            output.spec_size() == size,
            output@ == before + pair_draws(size, x1 as int, c1, as_int(x2), c2, style, 1, y as int),
        decreases to - y,
    {
        let ghost done = pair_draws(size, x1 as int, c1, as_int(x2), c2, style, 1, y as int);
        let ghost one = char_draws(size, x1 as int, y as int, c1, style);
        let ghost two = match as_int(x2) {
            Some(x) => char_draws(size, x, y as int, c2, style),
            None => Seq::empty(),
        };
        output.write_char(Vec2 { x: x1, y }, c1, style);
        match x2 {
            Some(x) => {
                output.write_char(Vec2 { x, y }, c2, style);
            },
            None => {},
        }
        proof {
            assert(output@ =~= before + (done + one + two));
        }
        y = y + 1;
    }
}

/// Draws the title on the top and the bottom border from the columns given, and gives the
/// columns behind what was drawn.
fn draw_title(
    output: &mut Output,
    title: &str,
    top: Option<u16>,
    bottom: Option<u16>,
    style: Style,
) -> (r: (Option<u16>, Option<u16>))
    requires
        top matches Some(x) ==> x < u16::MAX,
        bottom matches Some(x) ==> x < u16::MAX,
    ensures
        final(output).spec_size() == old(output).spec_size(),
        ({
            let end = title_state(
                TitleState {
                    top: as_int(top),
                    bottom: as_int(bottom),
                    stopped: false,
                    draws: Seq::empty(),
                },
                title@,
                old(output).spec_size(),
                style,
            );
            &&& final(output)@ == old(output)@ + end.draws
            &&& as_int(r.0) == end.top
            &&& as_int(r.1) == end.bottom
        }),
{
    let ghost before = output@;
    let ghost size = output.spec_size();
    let ghost start = TitleState {
        top: as_int(top),
        bottom: as_int(bottom),
        stopped: false,
        draws: Seq::empty(),
    };
    let size_now = output.size();
    let right: Option<u16> = if size_now.x > 1 {
        Some(size_now.x - 1)
    } else {
        None
    };
    let low: Option<u16> = if size_now.y > 1 {
        Some(size_now.y - 1)
    } else {
        None
    };
    let n = title.unicode_len();
    let mut i: usize = 0;
    let mut at_top = top;
    let mut at_bottom = bottom;
    let mut stopped = false;
    proof {
        assert(title@.take(0) =~= Seq::<char>::empty());
        assert(before + Seq::<Draw>::empty() =~= before);
    }
    while i < n
        invariant
            i <= n,
            n == title@.len(),
            output.spec_size() == size,
            size_now == size,
            as_int(right) == far_edge(size.x),
            as_int(low) == far_edge(size.y),
            at_top matches Some(x) ==> x < u16::MAX,
            at_bottom matches Some(x) ==> x < u16::MAX,
            ({
                let st = title_state(start, title@.take(i as int), size, style);
                &&& output@ == before + st.draws
                &&& as_int(at_top) == st.top
                &&& as_int(at_bottom) == st.bottom
                &&& stopped == st.stopped
            }),
        decreases n - i,
    {
        let c = title.get_char(i);
        let ghost st = title_state(start, title@.take(i as int), size, style);
        proof {
            let next = title@.take(i + 1);
            assert(next.drop_last() =~= title@.take(i as int));
            assert(next.last() == c);
        }
        let w = advance(c);
        if !stopped && w != 0 {
            let fits_top = match at_top {
                Some(x) => match right {
                    Some(edge) => x <= edge && w <= edge - x,
                    None => false,
                },
                None => true,
            };
            if !fits_top {
                stopped = true;
            } else {
                match at_top {
                    Some(x) => {
                        output.write_char(Vec2 { x, y: 0 }, c, style);
                        at_top = Some(x + w);
                    },
                    None => {
                        assert(output@ + Seq::<Draw>::empty() =~= output@);
                    },
                }
                let ghost first = match st.top {
                    Some(x) => char_draws(size, x, 0, c, style),
                    None => Seq::empty(),
                };
                assert(output@ =~= before + (st.draws + first));
                match (at_bottom, low) {
                    (Some(x), Some(y)) => {
                        let fits = match right {
                            Some(edge) => x <= edge && w <= edge - x,
                            None => false,
                        };
                        if fits {
                            output.write_char(Vec2 { x, y }, c, style);
                            at_bottom = Some(x + w);
                            assert(output@ =~= before + (st.draws + first + char_draws(
                                size,
                                x as int,
                                y as int,
                                c,
                                style,
                            )));
                        } else {
                            stopped = true;
                        }
                    },
                    _ => {},
                }
            }
        }
        i = i + 1;
    }
    assert(title@.take(n as int) =~= title@);
    (at_top, at_bottom)
}

/// Draws the top and the bottom border on the columns between the corners, wherever the title
/// leaves them free.
fn draw_edges(
    output: &mut Output,
    top: char,
    bottom: char,
    style: Style,
    top_start: Option<u16>,
    top_end: Option<u16>,
    bottom_start: Option<u16>,
    bottom_end: Option<u16>,
)
    ensures
        final(output).spec_size() == old(output).spec_size(),
        final(output)@ == old(output)@ + edge_draws(
            old(output).spec_size(),
            top,
            bottom,
            style,
            as_int(top_start),
            as_int(top_end),
            as_int(bottom_start),
            as_int(bottom_end),
            sat_sub(old(output).spec_size().x as int, 1),
        ),
{
    let ghost before = output@;
    let ghost size = output.spec_size();
    let size_now = output.size();
    let to: u16 = size_now.x.saturating_sub(1);
    let low: Option<u16> = if size_now.y > 1 {
        Some(size_now.y - 1)
    } else {
        None
    };
    proof {
        assert(before + Seq::<Draw>::empty() =~= before);
    }
    if to <= 1 {
        return ;
    }
    let mut x: u16 = 1;
    while x < to
        invariant
            1 <= x <= to,
            to as int == sat_sub(size.x as int, 1),
            output.spec_size() == size,
            as_int(low) == far_edge(size.y),
            output@ == before + edge_draws(
                size,
                top,
                bottom,
                style,
                as_int(top_start),
                as_int(top_end),
                as_int(bottom_start),
                as_int(bottom_end),
                x as int,
            ),
        decreases to - x,
    {
        let ghost done = edge_draws(
            size,
            top,
            bottom,
            style,
            as_int(top_start),
            as_int(top_end),
            as_int(bottom_start),
            as_int(bottom_end),
            x as int,
        );
        let free_top = match top_start {
            Some(start) => x < start || match top_end {
                Some(end) => x >= end,
                None => false,
            },
            None => true,
        };
        let ghost one = if edge_free(x as int, as_int(top_start), as_int(top_end)) {
            char_draws(size, x as int, 0, top, style)
        } else {
            Seq::empty()
        };
        if free_top {
            output.write_char(Vec2 { x, y: 0 }, top, style);
        }
        assert(output@ =~= before + (done + one));
        match low {
            Some(y) => {
                let free_bottom = match bottom_start {
                    Some(start) => x < start || match bottom_end {
                        Some(end) => x >= end,
                        None => false,
                    },
                    None => true,
                };
                if free_bottom {
                    output.write_char(Vec2 { x, y }, bottom, style);
                }
            },
            None => {},
        }
        proof {
            let two = if far_edge(size.y) is Some && edge_free(
                x as int,
                as_int(bottom_start),
                as_int(bottom_end),
            ) {
                char_draws(size, x as int, far_edge(size.y).unwrap(), bottom, style)
            } else {
                Seq::empty()
            };
            assert(output@ =~= before + (done + one + two));
        }
        x = x + 1;
    }
}

/// Where a title starts on a border of `available` columns between its corners.
fn start_of_title(align: Alignment, available: u16, title_width: u16) -> (r: u16)
    requires
        available < u16::MAX - 1,
    ensures
        r as int == title_start(align, available as int, title_width as int),
        r < u16::MAX,
{
    1 + match align {
        Alignment::Start => 0,
        Alignment::Middle => (available / 2).saturating_sub(title_width / 2),
        Alignment::End => available.saturating_sub(title_width),
    }
}

impl Border {
    /// Draws the element inside the border.
    fn draw_inside<E: Element>(&self, element: &E, output: &mut Output)
        ensures
            final(output).spec_size() == old(output).spec_size(),
            final(output)@ == old(output)@ + draws_moved(
                old(output).spec_size(),
                self.inner_offset(),
                element.drawn(self.inner_size(old(output).spec_size())),
            ),
    {
        let output_size = output.size();
        let xborder: u16 = if self.padding {
            2
        } else {
            1
        };
        let mut inner = Output::new(
            Vec2 {
                x: output_size.x.saturating_sub(2 * xborder),
                y: output_size.y.saturating_sub(2),
            },
        );
        element.draw(&mut inner);
        assert(inner@ =~= element.drawn(self.inner_size(output_size)));
        output.area(Vec2 { x: xborder, y: 1 }, &inner);
    }

    /// Fills the padding.
    fn draw_padding(&self, output: &mut Output)
        ensures
            final(output).spec_size() == old(output).spec_size(),
            final(output)@ == old(output)@ + self.padding_draws(old(output).spec_size()),
    {
        let output_size = output.size();
        if self.padding {
            let beside: Option<u16> = if output_size.x > 1 {
                Some(output_size.x - 2)
            } else {
                None
            };
            draw_pairs(output, 1, ' ', beside, ' ', self.style, output_size.y.saturating_sub(1));
        } else {
            assert(output@ + Seq::<Draw>::empty() =~= output@);
        }
    }

    /// Writes the corners.
    fn draw_corners(&self, output: &mut Output)
        ensures
            final(output).spec_size() == old(output).spec_size(),
            final(output)@ == old(output)@ + self.corner_draws(old(output).spec_size()),
    {
        let ghost before = output@;
        let ghost size = output.spec_size();
        let output_size = output.size();
        let (top_left, top_right, bottom_left, bottom_right) = self.corners;
        let ghost c1 = char_draws(size, 0, 0, top_left, self.style);
        let ghost c2 = match far_edge(size.x) {
            Some(x) => char_draws(size, x, 0, top_right, self.style),
            None => Seq::empty(),
        };
        let ghost c3 = match far_edge(size.y) {
            Some(y) => char_draws(size, 0, y, bottom_left, self.style),
            None => Seq::empty(),
        };
        output.write_char(Vec2 { x: 0, y: 0 }, top_left, self.style);
        if output_size.x > 1 {
            output.write_char(Vec2 { x: output_size.x - 1, y: 0 }, top_right, self.style);
        }
        assert(output@ =~= before + (c1 + c2));
        if output_size.y > 1 {
            output.write_char(Vec2 { x: 0, y: output_size.y - 1 }, bottom_left, self.style);
        }
        assert(output@ =~= before + (c1 + c2 + c3));
        if output_size.x > 1 && output_size.y > 1 {
            output.write_char(
                Vec2 { x: output_size.x - 1, y: output_size.y - 1 },
                bottom_right,
                self.style,
            );
        }
        assert(output@ =~= before + self.corner_draws(size));
    }

    /// Writes both sides.
    fn draw_sides(&self, output: &mut Output)
        ensures
            final(output).spec_size() == old(output).spec_size(),
            final(output)@ == old(output)@ + self.side_draws(old(output).spec_size()),
    {
        let output_size = output.size();
        let right_border: Option<u16> = if output_size.x > 1 {
            Some(output_size.x - 1)
        } else {
            None
        };
        draw_pairs(
            output,
            0,
            self.sides.1,
            right_border,
            self.sides.2,
            self.style,
            output_size.y.saturating_sub(1),
        );
    }

    /// Where the title starts on the top and on the bottom border. The width of the title is
    /// measured only where a title is aligned to the middle or to the end.
    fn title_starts(&self, title: &str, size: Vec2<u16>) -> (r: (Option<u16>, Option<u16>))
        ensures
            as_int(r.0) == self.top_start(title@, size),
            as_int(r.1) == self.bottom_start(title@, size),
            r.0 matches Some(x) ==> x < u16::MAX,
            r.1 matches Some(x) ==> x < u16::MAX,
    {
        let needs_width = match self.top_title_align {
            Some(Alignment::Middle) => true,
            Some(Alignment::End) => true,
            _ => false,
        } || match self.bottom_title_align {
            Some(Alignment::Middle) => true,
            Some(Alignment::End) => true,
            _ => false,
        };
        let title_width: u16 = if needs_width {
            width_of_text(title)
        } else {
            0
        };
        let available_width = size.x.saturating_sub(2);
        let top: Option<u16> = match self.top_title_align {
            Some(align) => Some(start_of_title(align, available_width, title_width)),
            None => None,
        };
        let bottom: Option<u16> = match self.bottom_title_align {
            Some(align) => Some(start_of_title(align, available_width, title_width)),
            None => None,
        };
        (top, bottom)
    }

    /// Draws the title and gives the columns at which it starts and the columns behind what
    /// was drawn of it, on the top and on the bottom border.
    fn draw_titles(&self, output: &mut Output, title: &str) -> (r: (
        (Option<u16>, Option<u16>),
        (Option<u16>, Option<u16>),
    ))
        ensures
            final(output).spec_size() == old(output).spec_size(),
            final(output)@ == old(output)@ + self.titled(title@, old(output).spec_size()).draws,
            as_int(r.0.0) == self.top_start(title@, old(output).spec_size()),
            as_int(r.0.1) == self.bottom_start(title@, old(output).spec_size()),
            as_int(r.1.0) == self.titled(title@, old(output).spec_size()).top,
            as_int(r.1.1) == self.titled(title@, old(output).spec_size()).bottom,
    {
        let starts = self.title_starts(title, output.size());
        let ends = draw_title(output, title, starts.0, starts.1, self.title_style);
        (starts, ends)
    }

    /// Writes the top and the bottom border, not overwriting the title that starts and ends
    /// at the columns given.
    fn draw_edges(
        &self,
        output: &mut Output,
        Ghost(title): Ghost<Seq<char>>,
        starts: (Option<u16>, Option<u16>),
        ends: (Option<u16>, Option<u16>),
    )
        requires
            as_int(starts.0) == self.top_start(title, old(output).spec_size()),
            as_int(starts.1) == self.bottom_start(title, old(output).spec_size()),
            as_int(ends.0) == self.titled(title, old(output).spec_size()).top,
            as_int(ends.1) == self.titled(title, old(output).spec_size()).bottom,
        ensures
            final(output).spec_size() == old(output).spec_size(),
            final(output)@ == old(output)@ + self.edges(title, old(output).spec_size()),
    {
        draw_edges(
            output,
            self.sides.0,
            self.sides.3,
            self.style,
            starts.0,
            ends.0,
            starts.1,
            ends.1,
        );
    }
}

impl<Event> Filter<Event> for Border {
    open spec fn drawn(
        &self,
        inner: spec_fn(Vec2<u16>) -> Seq<Draw>,
        title: Seq<char>,
        size: Vec2<u16>,
    ) -> Seq<Draw> {
        self.border_draws(inner(self.inner_size(size)), title, size)
    }

    fn draw<E: Element>(&self, element: &E, output: &mut Output) {
        let ghost before = output@;
        let ghost size = output.spec_size();
        let ghost title_seq = element.spec_title();
        let ghost a = draws_moved(
            size,
            self.inner_offset(),
            element.drawn(self.inner_size(size)),
        );
        let ghost b = self.padding_draws(size);
        let ghost c = self.corner_draws(size);
        let ghost d = self.side_draws(size);
        let ghost e = self.titled(title_seq, size).draws;
        let ghost f = self.edges(title_seq, size);
        self.draw_inside(element, output);
        self.draw_padding(output);
        proof {
            lemma_concat_assoc(before, a, b);
        }
        self.draw_corners(output);
        proof {
            lemma_concat_assoc(before, a + b, c);
        }
        self.draw_sides(output);
        proof {
            lemma_concat_assoc(before, a + b + c, d);
        }
        let title = element.title();
        let (starts, ends) = self.draw_titles(output, title.as_str());
        proof {
            lemma_concat_assoc(before, a + b + c + d, e);
        }
        self.draw_edges(output, Ghost(title_seq), starts, ends);
        proof {
            lemma_concat_assoc(before, a + b + c + d + e, f);
        }
    }

    open spec fn spec_title(&self, inner: Seq<char>) -> Seq<char> {
        inner
    }

    fn title<E: Element>(&self, element: &E) -> (r: String) {
        element.title()
    }

    open spec fn spec_ideal_width(
        &self,
        inner: spec_fn(u16, Option<u16>) -> u16,
        height: u16,
        max_width: Option<u16>,
    ) -> u16 {
        sat_add(
            inner(
                sat_sub(height as int, 2) as u16,
                match max_width {
                    Some(most) => Some(sat_sub(most as int, 2 * self.pad()) as u16),
                    None => None,
                },
            ) as int,
            2 * self.pad(),
        ) as u16
    }

    fn ideal_width<E: Element>(&self, element: &E, height: u16, max_width: Option<u16>) -> (r:
        u16) {
        let added_x: u16 = if self.padding {
            4
        } else {
            2
        };
        let most = match max_width {
            Some(most) => Some(most.saturating_sub(added_x)),
            None => None,
        };
        element.ideal_width(height.saturating_sub(2), most).saturating_add(added_x)
    }

    open spec fn spec_ideal_height(
        &self,
        inner: spec_fn(u16, Option<u16>) -> u16,
        width: u16,
        max_height: Option<u16>,
    ) -> u16 {
        sat_add(
            inner(
                sat_sub(width as int, 2 * self.pad()) as u16,
                match max_height {
                    Some(most) => Some(sat_sub(most as int, 2) as u16),
                    None => None,
                },
            ) as int,
            2,
        ) as u16
    }

    fn ideal_height<E: Element>(&self, element: &E, width: u16, max_height: Option<u16>) -> (r:
        u16) {
        let added_x: u16 = if self.padding {
            4
        } else {
            2
        };
        let most = match max_height {
            Some(most) => Some(most.saturating_sub(2)),
            None => None,
        };
        element.ideal_height(width.saturating_sub(added_x), most).saturating_add(2)
    }

    open spec fn spec_ideal_size(
        &self,
        inner: spec_fn(Vec2<Option<u16>>) -> Vec2<u16>,
        maximum: Vec2<Option<u16>>,
    ) -> Vec2<u16> {
        Vec2 {
            x: sat_add(inner(maximum).x as int, 2 * self.pad()) as u16,
            y: sat_add(inner(maximum).y as int, 2) as u16,
        }
    }

    fn ideal_size<E: Element>(&self, element: &E, maximum: Vec2<Option<u16>>) -> (r: Vec2<u16>) {
        let size = element.ideal_size(maximum);
        Vec2 {
            x: size.x.saturating_add(
                if self.padding {
                    4
                } else {
                    2
                },
            ),
            y: size.y.saturating_add(2),
        }
    }

    open spec fn spec_width(&self, inner: spec_fn(Option<u16>) -> (u16, u16), height: Option<u16>) -> (
        u16,
        u16,
    ) {
        let range = inner(
            match height {
                Some(h) => Some(sat_sub(h as int, 2) as u16),
                None => None,
            },
        );
        (
            sat_add(range.0 as int, 2 * self.pad()) as u16,
            sat_add(range.1 as int, 2 * self.pad()) as u16,
        )
    }

    fn width<E: Element>(&self, element: &E, height: Option<u16>) -> (r: (u16, u16)) {
        let added_x: u16 = if self.padding {
            4
        } else {
            2
        };
        let inside = match height {
            Some(h) => Some(h.saturating_sub(2)),
            None => None,
        };
        let range = element.width(inside);
        (range.0.saturating_add(added_x), range.1.saturating_add(added_x))
    }

    open spec fn spec_height(&self, inner: spec_fn(Option<u16>) -> (u16, u16), width: Option<u16>) -> (
        u16,
        u16,
    ) {
        let range = inner(
            match width {
                Some(w) => Some(sat_sub(w as int, 2 * self.pad()) as u16),
                None => None,
            },
        );
        (sat_add(range.0 as int, 2) as u16, sat_add(range.1 as int, 2) as u16)
    }

    fn height<E: Element>(&self, element: &E, width: Option<u16>) -> (r: (u16, u16)) {
        let added_x: u16 = if self.padding {
            4
        } else {
            2
        };
        let inside = match width {
            Some(w) => Some(w.saturating_sub(added_x)),
            None => None,
        };
        let range = element.height(inside);
        (range.0.saturating_add(2), range.1.saturating_add(2))
    }

    open spec fn handled(&self, inner: spec_fn(Input) -> Seq<Event>, input: Input) -> Seq<Event> {
        match self.input_inside(input) {
            Some(inside) => inner(inside),
            None => Seq::empty(),
        }
    }

    fn handle<E: Element<Event = Event>>(&self, element: &E, input: Input, events: &mut Vec<Event>) {
        match self.filter_input(input) {
            Some(inside) => {
                element.handle(inside, events);
            },
            None => {
                assert(events@ + Seq::<Event>::empty() =~= events@);
            },
        }
    }
}

} // verus!
