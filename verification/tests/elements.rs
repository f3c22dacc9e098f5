use toon::{
    empty, span, Alignment, Border, Color, Draw, Element, FillBackground, Filter, Filtered, Grid,
    Input, Key, KeyPress, Modifiers, Mouse, MouseButton, MouseKind, Output, Span, Style, Title,
    Vec2,
};

fn drawn<E: Element>(element: &E, grid: &mut Grid) {
    let mut output = Output::new(grid.size());
    element.draw(&mut output);
    grid.draw(&output);
}

#[test]
fn test_span() {
    let mut grid = Grid::new(Vec2::new(3, 2));

    drawn(&span::<()>("asdf").black().on_white(), &mut grid);

    assert_eq!(grid.contents(), ["asd", "   ",]);

    for (top, bottom) in grid.lines()[0].cells().iter().zip(grid.lines()[1].cells()) {
        assert_eq!(top.style().unwrap(), Style::default().black().on_white());
        assert_eq!(bottom.style().unwrap(), Style::default());
    }
}

#[test]
fn test_border() {
    let mut grid = Grid::new(Vec2::new(5, 4));

    drawn(
        &Filtered::new(
            span::<()>("-+-"),
            Border::new(('a', 'b', 'c', 'd'), ('e', 'f', 'g', 'h')),
        ),
        &mut grid,
    );

    assert_eq!(grid.contents(), ["eaaaf", "b - c", "b   c", "gdddh"]);
}

#[test]
fn test_padding() {
    let mut grid = Grid::new(Vec2::new(16, 3));

    drawn(&Filtered::new(span::<()>("Hello World!"), Border::thin()), &mut grid);

    assert_eq!(
        grid.contents(),
        ["┌──────────────┐", "│ Hello World! │", "└──────────────┘",]
    );

    grid.resize_width(14);
    drawn(&Filtered::new(span::<()>("Hello World!"), Border::thin().no_padding()), &mut grid);

    assert_eq!(
        grid.contents(),
        ["┌────────────┐", "│Hello World!│", "└────────────┘",]
    );
}

#[test]
fn test_title() {
    let mut grid = Grid::new(Vec2::new(18, 2));

    let element = || Filtered::new(empty::<()>(), Title::new("Hello😊World❗"));

    drawn(
        &Filtered::new(
            element(),
            Border::ascii_plus().top_title(Alignment::Start).bottom_title(Alignment::End),
        ),
        &mut grid,
    );
    assert_eq!(
        grid.contents(),
        ["+Hello😊World❗--+", "+--Hello😊World❗+",]
    );

    drawn(
        &Filtered::new(element(), Border::ascii_plus().bottom_title(Alignment::Middle)),
        &mut grid,
    );
    assert_eq!(
        grid.contents(),
        ["+----------------+", "+-Hello😊World❗-+",]
    );

    grid.resize_width(8);
    grid.resize_height(1);

    drawn(
        &Filtered::new(element(), Border::ascii_plus().top_title(Alignment::Middle)),
        &mut grid,
    );
    assert_eq!(grid.contents(), ["+Hello-+",]);
}

#[test]
fn span_width_sums_glyph_widths() {
    assert_eq!(span::<()>("asdf").width(), 4);
    assert_eq!(span::<()>("Hello😊World❗").width(), 14);
    assert_eq!(span::<()>("a\u{7}b").width(), 2);
    assert_eq!(span::<()>("").width(), 0);
    let long: String = std::iter::repeat('😊').take(40000).collect();
    assert_eq!(span::<()>(&long).width(), 65535);
    let text: Span<()> = span("abc").bold();
    assert_eq!(text.style, Style::default().bold());
    assert_eq!(text.ideal_width(1, None), 3);
    assert_eq!(text.ideal_height(3, None), 1);
    assert_eq!(text.ideal_size(Vec2::new(None, None)), Vec2::new(3, 1));
    assert_eq!(text.width(), 3);
    assert_eq!(Element::width(&text, None), (3, 3));
    assert_eq!(text.height(None), (1, 1));
    assert_eq!(text.title(), "");
}

#[test]
fn border_sizes_add_the_border() {
    let padded = Border::thin();
    let tight = Border::thin().no_padding();
    let text: Span<()> = span("abc");
    assert_eq!(Filter::<()>::ideal_width(&padded, &text, 5, Some(10)), 7);
    assert_eq!(Filter::<()>::ideal_width(&tight, &text, 5, None), 5);
    assert_eq!(Filter::<()>::ideal_height(&padded, &text, 9, None), 3);
    assert_eq!(Filter::<()>::ideal_size(&padded, &text, Vec2::new(None, None)), Vec2::new(7, 3));
    assert_eq!(Filter::<()>::ideal_size(&tight, &text, Vec2::new(None, None)), Vec2::new(5, 3));
    assert_eq!(Filter::<()>::width(&padded, &text, None), (7, 7));
    assert_eq!(Filter::<()>::height(&tight, &text, Some(4)), (3, 3));
    let huge: String = std::iter::repeat('a').take(65534).collect();
    let wide: Span<()> = span(&huge);
    assert_eq!(Filter::<()>::ideal_width(&padded, &wide, 5, None), 65535);
    assert_eq!(
        toon::element::ideal_size_from_sides(&text, Vec2::new(Some(2), Some(9))),
        Vec2::new(3, 1)
    );
    let both = Filtered::new(span::<()>("abc"), padded);
    assert_eq!(both.ideal_size(Vec2::new(None, None)), Vec2::new(7, 3));
    assert_eq!(both.title(), "");
}

fn click(x: u16, y: u16, size: Vec2<u16>) -> Input {
    Input::Mouse(Mouse {
        kind: MouseKind::Press(MouseButton::Left),
        at: Vec2::new(x, y),
        size,
        modifiers: Modifiers::new(),
    })
}

#[test]
fn border_moves_mouse_events() {
    let size = Vec2::new(10, 5);
    let padded = Border::thin();
    assert_eq!(padded.filter_input(click(2, 1, size)), Some(click(0, 0, Vec2::new(6, 3))));
    assert_eq!(padded.filter_input(click(7, 3, size)), Some(click(5, 2, Vec2::new(6, 3))));
    // On the border, on the padding and outside.
    assert_eq!(padded.filter_input(click(1, 1, size)), None);
    assert_eq!(padded.filter_input(click(8, 1, size)), None);
    assert_eq!(padded.filter_input(click(2, 0, size)), None);
    assert_eq!(padded.filter_input(click(2, 4, size)), None);
    assert_eq!(padded.filter_input(click(65535, 65535, size)), None);
    let tight = Border::thin().no_padding();
    assert_eq!(tight.filter_input(click(1, 1, size)), Some(click(0, 0, Vec2::new(8, 3))));
    assert_eq!(tight.filter_input(click(8, 3, size)), Some(click(7, 2, Vec2::new(8, 3))));
    assert_eq!(tight.filter_input(click(9, 3, size)), None);
    assert_eq!(tight.filter_input(click(0, 1, size)), None);
    let key = Input::Key(KeyPress { key: Key::Return, modifiers: Modifiers::new() });
    assert_eq!(padded.filter_input(key), Some(key));
}

#[test]
fn border_on_small_sizes() {
    for (width, height, expected) in [
        (0u16, 0u16, vec![]),
        (1, 1, vec!["e"]),
        (2, 1, vec!["ef"]),
        (1, 2, vec!["e", "g"]),
        (2, 2, vec!["ef", "gh"]),
        (3, 3, vec!["eaf", "b c", "gdh"]),
    ] {
        let mut grid = Grid::new(Vec2::new(width, height));
        drawn(
            &Filtered::new(
                span::<()>("xyz"),
                Border::new(('a', 'b', 'c', 'd'), ('e', 'f', 'g', 'h')),
            ),
            &mut grid,
        );
        assert_eq!(grid.contents(), expected);
    }
    let mut grid = Grid::new(Vec2::new(3, 3));
    drawn(
        &Filtered::new(
            span::<()>("xyz"),
            Border::new(('a', 'b', 'c', 'd'), ('e', 'f', 'g', 'h')).no_padding(),
        ),
        &mut grid,
    );
    assert_eq!(grid.contents(), ["eaf", "bxc", "gdh"]);
}

#[test]
fn border_presets() {
    assert_eq!(Border::ascii_plus(), Border::new(('-', '|', '|', '-'), ('+', '+', '+', '+')));
    assert_eq!(Border::ascii_curved(), Border::new(('-', '|', '|', '-'), ('.', '.', '\'', '\'')));
    assert_eq!(Border::thin(), Border::new(('─', '│', '│', '─'), ('┌', '┐', '└', '┘')));
    assert_eq!(Border::thin_curved(), Border::new(('─', '│', '│', '─'), ('╭', '╮', '╰', '╯')));
    assert_eq!(Border::thick(), Border::new(('━', '┃', '┃', '━'), ('┏', '┓', '┗', '┛')));
    assert_eq!(Border::double(), Border::new(('═', '║', '║', '═'), ('╔', '╗', '╚', '╝')));
    assert_eq!(Border::block(), Border::new(('▀', '█', '█', '▄'), ('█', '█', '█', '█')));
    assert_eq!(Border::braille_thin(), Border::new(('⠉', '⡇', '⢸', '⣀'), ('⡏', '⢹', '⣇', '⣸')));
    assert_eq!(Border::braille_thick(), Border::new(('⠛', '⣿', '⣿', '⣤'), ('⣿', '⣿', '⣿', '⣿')));
    let styled = Border::thin().style(Style::default().red()).title_style(Style::default().bold());
    assert_eq!(styled.style, Style::default().red());
    assert_eq!(styled.title_style, Style::default().bold());
    assert!(styled.padding);
    assert_eq!(styled.top_title_align, None);
}

#[test]
fn piped_drawing_filters_each_character() {
    let fill = FillBackground::new(Color::Blue);
    let mut output = Output::new(Vec2::new(4, 1));
    let mut text: Span<()> = span("ab");
    text.style = Style::default().red();
    toon::filter::draw_piped(&fill, &text, &mut output);
    let mut grid = Grid::new(Vec2::new(4, 1));
    grid.draw(&output);
    assert_eq!(grid.contents(), ["ab  "]);
    let cells = grid.lines()[0].cells();
    assert_eq!(cells[0].style(), Some(Style::default().red().background(Color::Blue)));
    assert_eq!(cells[1].style(), Some(Style::default().red().background(Color::Blue)));
    assert_eq!(cells[2].style(), Some(Style::default()));

    // A background that is set stays.
    let mut grid = Grid::new(Vec2::new(2, 1));
    drawn(&Filtered::new(span::<()>("ab").on_white(), fill), &mut grid);
    assert_eq!(grid.lines()[0].cells()[0].style(), Some(Style::default().on_white()));

    let mut base = Output::new(Vec2::new(2, 1));
    toon::filter::write_char(&fill, &mut base, Vec2::new(1, 0), 'x', Style::default());
    toon::filter::set_cursor(&fill, &mut base, None);
    assert_eq!(
        base.draws(),
        &vec![
            Draw::Char {
                pos: Vec2::new(1, 0),
                c: 'x',
                style: Style::default().background(Color::Blue)
            },
            Draw::Cursor(None),
        ]
    );
    let key = Input::Key(KeyPress { key: Key::Char('x'), modifiers: Modifiers::new() });
    assert_eq!(toon::filter::filter_input(&fill, key), key);
}

#[test]
fn elements_pass_input_through_filters() {
    let element = Filtered::new(Filtered::new(empty::<u8>(), Title::new("t")), Border::thin());
    let mut events: Vec<u8> = vec![1];
    element.handle(click(3, 1, Vec2::new(10, 5)), &mut events);
    element.handle(click(0, 0, Vec2::new(10, 5)), &mut events);
    assert_eq!(events, vec![1]);
    assert_eq!(element.title(), "t");
    assert_eq!(element.ideal_size(Vec2::new(None, None)), Vec2::new(4, 2));
}
