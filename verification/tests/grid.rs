use toon::{Buffer, Cell, Color, Cursor, CursorShape, Grid, Intensity, Output, Style, Vec2};

fn narrow(c: char, style: Style) -> Cell {
    Cell::Char { contents: c, double: false, style }
}

fn blank() -> Cell {
    narrow(' ', Style::default())
}

fn row(grid: &Grid, y: usize) -> Vec<Cell> {
    grid.lines()[y].cells().clone()
}

#[test]
fn hello_world_on_blank_row() {
    let mut grid = Grid::new(Vec2::new(5, 1));
    grid.write(Vec2::new(0, 0), "Hello", Style::default());
    let expected: Vec<Cell> = "Hello".chars().map(|c| narrow(c, Style::default())).collect();
    assert_eq!(row(&grid, 0), expected);
    assert_eq!(grid.contents(), vec!["Hello".to_owned()]);
}

#[test]
fn new_grid_is_blank() {
    let grid = Grid::new(Vec2::new(3, 2));
    assert_eq!(grid.size(), Vec2::new(3, 2));
    assert_eq!(grid.width(), 3);
    assert_eq!(grid.height(), 2);
    assert_eq!(grid.contents(), vec!["   ".to_owned(), "   ".to_owned()]);
    assert_eq!(grid.cell(Vec2::new(2, 1)), Some(blank()));
    assert_eq!(grid.cell(Vec2::new(3, 1)), None);
    assert_eq!(grid.cell(Vec2::new(0, 2)), None);
}

#[test]
fn wide_glyph_displaces_neighbor() {
    let mut grid = Grid::new(Vec2::new(5, 1));
    grid.write(Vec2::new(0, 0), "ABCDE", Style::default());
    grid.write(Vec2::new(1, 0), "😃", Style::default());
    let style = Style::default();
    assert_eq!(
        row(&grid, 0),
        vec![
            narrow('A', style),
            Cell::Char { contents: '😃', double: true, style },
            Cell::Continuation,
            narrow('D', style),
            narrow('E', style),
        ]
    );
}

#[test]
fn wide_glyph_at_last_column_is_blank() {
    let mut grid = Grid::new(Vec2::new(3, 1));
    let red = Style::default().red();
    grid.write_char(Vec2::new(2, 0), '😃', red);
    assert_eq!(row(&grid, 0), vec![blank(), blank(), blank()]);
    grid.write(Vec2::new(0, 0), "ab", red);
    grid.write_char(Vec2::new(2, 0), '😃', red);
    assert_eq!(row(&grid, 0), vec![narrow('a', red), narrow('b', red), blank()]);
}

#[test]
fn narrow_over_double_blanks_continuation() {
    let mut grid = Grid::new(Vec2::new(4, 1));
    grid.write_char(Vec2::new(1, 0), '😃', Style::default());
    assert_eq!(grid.cell(Vec2::new(2, 0)), Some(Cell::Continuation));
    grid.write_char(Vec2::new(1, 0), 'x', Style::default());
    assert_eq!(
        row(&grid, 0),
        vec![blank(), narrow('x', Style::default()), blank(), blank()]
    );
}

#[test]
fn writing_over_continuation_blanks_the_glyph() {
    let mut grid = Grid::new(Vec2::new(4, 1));
    grid.write_char(Vec2::new(1, 0), '😃', Style::default());
    grid.write_char(Vec2::new(2, 0), 'x', Style::default());
    assert_eq!(
        row(&grid, 0),
        vec![blank(), blank(), narrow('x', Style::default()), blank()]
    );
}

#[test]
fn wide_over_wide_shifted_by_one() {
    let mut grid = Grid::new(Vec2::new(5, 1));
    let style = Style::default();
    grid.write_char(Vec2::new(2, 0), '😃', style);
    grid.write_char(Vec2::new(1, 0), '😊', style);
    assert_eq!(
        row(&grid, 0),
        vec![
            blank(),
            Cell::Char { contents: '😊', double: true, style },
            Cell::Continuation,
            blank(),
            blank(),
        ]
    );
}

#[test]
fn every_continuation_follows_a_double() {
    let mut grid = Grid::new(Vec2::new(6, 2));
    let style = Style::default();
    grid.write(Vec2::new(0, 0), "a😃b😃", style);
    grid.write(Vec2::new(1, 0), "😊😊", style);
    grid.write(Vec2::new(4, 1), "😃😃", style);
    grid.write_char(Vec2::new(2, 0), 'z', style);
    for line in grid.lines() {
        let cells = line.cells();
        for (x, cell) in cells.iter().enumerate() {
            if cell.continuation() {
                assert!(x > 0);
                assert!(cells[x - 1].double());
            }
            if cell.double() {
                assert!(x + 1 < cells.len());
                assert!(cells[x + 1].continuation());
            }
        }
    }
}

#[test]
fn control_characters_are_dropped() {
    let mut grid = Grid::new(Vec2::new(4, 1));
    grid.write(Vec2::new(0, 0), "a\u{7}\nb\u{1b}c", Style::default());
    assert_eq!(grid.contents(), vec!["abc ".to_owned()]);
}

#[test]
fn text_is_cut_at_the_right_edge() {
    let mut grid = Grid::new(Vec2::new(3, 2));
    grid.write(Vec2::new(1, 1), "wxyz", Style::default());
    assert_eq!(grid.contents(), vec!["   ".to_owned(), " wx".to_owned()]);
    grid.write(Vec2::new(0, 2), "out", Style::default());
    grid.write(Vec2::new(65535, 0), "far", Style::default());
    assert_eq!(grid.contents(), vec!["   ".to_owned(), " wx".to_owned()]);
}

#[test]
fn reset_twice_equals_reset_once() {
    let mut grid = Grid::new(Vec2::new(4, 2));
    grid.write(Vec2::new(0, 0), "a😃", Style::default().bold());
    grid.reset();
    let once = grid.clone();
    grid.reset();
    assert_eq!(grid, once);
    assert_eq!(grid, Grid::new(Vec2::new(4, 2)));
}

#[test]
fn resize_with_anchor() {
    let mut grid = Grid::new(Vec2::new(10, 5));
    grid.write(Vec2::new(0, 2), "X", Style::default());
    grid.resize_height_with_anchor(3, 2);
    assert_eq!(grid.size(), Vec2::new(10, 3));
    assert_eq!(
        grid.contents(),
        vec!["          ".to_owned(), "          ".to_owned(), "X         ".to_owned()]
    );
}

#[test]
fn shrinking_takes_rows_from_the_farther_end() {
    let mut grid = Grid::new(Vec2::new(1, 5));
    for (y, text) in ["0", "1", "2", "3", "4"].iter().enumerate() {
        grid.write(Vec2::new(0, y as u16), text, Style::default());
    }
    let mut top_heavy = grid.clone();
    top_heavy.resize_height_with_anchor(3, 3);
    assert_eq!(top_heavy.contents(), vec!["2".to_owned(), "3".to_owned(), "4".to_owned()]);
    let mut deep = grid.clone();
    deep.resize_height_with_anchor(1, 3);
    assert_eq!(deep.contents(), vec!["3".to_owned()]);
    let mut shallow = grid.clone();
    shallow.resize_height_with_anchor(2, 1);
    assert_eq!(shallow.contents(), vec!["0".to_owned(), "1".to_owned()]);
    let mut gone = grid.clone();
    gone.resize_height_with_anchor(0, 2);
    assert_eq!(gone.contents(), Vec::<String>::new());
    assert_eq!(gone.size(), Vec2::new(1, 0));
}

#[test]
fn growing_adds_rows_at_the_farther_end() {
    let mut grid = Grid::new(Vec2::new(1, 3));
    for (y, text) in ["0", "1", "2"].iter().enumerate() {
        grid.write(Vec2::new(0, y as u16), text, Style::default());
    }
    let mut below = grid.clone();
    below.resize_height_with_anchor(5, 0);
    assert_eq!(
        below.contents(),
        vec!["0".to_owned(), "1".to_owned(), "2".to_owned(), " ".to_owned(), " ".to_owned()]
    );
    let mut above = grid.clone();
    above.resize_height_with_anchor(4, 2);
    assert_eq!(
        above.contents(),
        vec![" ".to_owned(), "0".to_owned(), "1".to_owned(), "2".to_owned()]
    );
    let mut plain = grid.clone();
    plain.resize_height(2);
    assert_eq!(plain.contents(), vec!["0".to_owned(), "1".to_owned()]);
}

#[test]
fn anchor_row_survives_two_resizes() {
    let mut grid = Grid::new(Vec2::new(3, 7));
    grid.write(Vec2::new(0, 5), "row", Style::default());
    grid.resize_height_with_anchor(4, 5);
    // Three rows left at the top: the anchor row now stands at 2.
    assert_eq!(grid.contents()[2], "row");
    grid.resize_height_with_anchor(6, 2);
    // Rows are added at the top, which is the farther end.
    assert_eq!(grid.contents()[4], "row");
    grid.resize_height_with_anchor(1, 4);
    assert_eq!(grid.contents(), vec!["row".to_owned()]);
}

#[test]
fn resize_width_pads_and_truncates() {
    let mut grid = Grid::new(Vec2::new(4, 1));
    grid.write(Vec2::new(0, 0), "ab😃", Style::default());
    grid.resize_width(6);
    assert_eq!(grid.contents(), vec!["ab😃  ".to_owned()]);
    assert_eq!(grid.size(), Vec2::new(6, 1));
    // The cut lands on the continuation: the glyph to its left becomes a blank.
    grid.resize_width(3);
    assert_eq!(row(&grid, 0), vec![
        narrow('a', Style::default()),
        narrow('b', Style::default()),
        blank(),
    ]);
    grid.resize_width(0);
    assert_eq!(grid.contents(), vec!["".to_owned()]);
}

#[test]
fn nothing_is_written_to_an_empty_grid() {
    let mut grid = Grid::new(Vec2::new(4, 4));
    grid.resize_width(0);
    grid.resize_height(0);
    assert_eq!(grid.size(), Vec2::new(0, 0));
    grid.write(Vec2::new(0, 0), "text", Style::default());
    grid.write_char(Vec2::new(0, 0), 'c', Style::default());
    assert_eq!(grid, Grid::new(Vec2::new(0, 0)));
}

#[test]
fn buffer_reset_clears_cells_and_cursor() {
    let mut buffer = Buffer::new(Vec2::new(3, 1));
    buffer.write(Vec2::new(0, 0), "abc", Style::default());
    buffer.write_char(Vec2::new(1, 0), 'x', Style::default());
    buffer.set_cursor(Some(Cursor::new(Vec2::new(1, 0), CursorShape::Bar, true)));
    assert_eq!(buffer.grid.contents(), vec!["axc".to_owned()]);
    assert!(buffer.cursor.is_some());
    buffer.reset();
    assert_eq!(buffer, Buffer::new(Vec2::new(3, 1)));
    assert_eq!(buffer.size(), Vec2::new(3, 1));
    assert_eq!(buffer, Buffer::from_grid(Grid::new(Vec2::new(3, 1))));
}

#[test]
fn output_records_and_replays() {
    let mut output = Output::new(Vec2::new(4, 2));
    let style = Style::new(Color::Red, Color::Black, toon::Attributes::new()).intensity(Intensity::Bold);
    output.write(Vec2::new(1, 0), "a😃b", style);
    output.write_char(Vec2::new(9, 9), 'x', style);
    output.set_cursor(Some(Cursor::new(Vec2::new(0, 1), CursorShape::Block, false)));
    output.set_cursor(Some(Cursor::new(Vec2::new(1, 1), CursorShape::Underline, false)));
    // 'b' would stand at column 4, outside.
    assert_eq!(output.draws().len(), 4);
    let mut buffer = Buffer::new(output.size());
    buffer.draw(&output);
    let mut direct = Grid::new(Vec2::new(4, 2));
    direct.write(Vec2::new(1, 0), "a😃b", style);
    assert_eq!(buffer.grid, direct);
    assert_eq!(buffer.cursor, Some(Cursor::new(Vec2::new(1, 1), CursorShape::Underline, false)));
    let mut grid = Grid::new(Vec2::new(4, 2));
    grid.draw(&output);
    assert_eq!(grid, direct);
}

#[test]
fn area_moves_and_clips() {
    let mut inner = Output::new(Vec2::new(2, 1));
    inner.write(Vec2::new(0, 0), "abc", Style::default());
    inner.set_cursor(Some(Cursor::new(Vec2::new(1, 0), CursorShape::Block, true)));
    let mut outer = Output::new(Vec2::new(4, 3));
    outer.area(Vec2::new(1, 2), &inner);
    let mut buffer = Buffer::new(Vec2::new(4, 3));
    buffer.draw(&outer);
    assert_eq!(
        buffer.grid.contents(),
        vec!["    ".to_owned(), "    ".to_owned(), " ab ".to_owned()]
    );
    assert_eq!(buffer.cursor, Some(Cursor::new(Vec2::new(2, 2), CursorShape::Block, true)));
    // An area that reaches over the edge is cut by the output around it.
    let mut narrow_outer = Output::new(Vec2::new(2, 3));
    narrow_outer.area(Vec2::new(1, 2), &inner);
    let mut small = Buffer::new(Vec2::new(2, 3));
    small.draw(&narrow_outer);
    assert_eq!(small.grid.contents(), vec!["  ".to_owned(), "  ".to_owned(), " a".to_owned()]);
}
