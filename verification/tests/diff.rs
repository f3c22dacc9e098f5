use toon::{
    diff, Attributes, Buffer, Color, Cursor, CursorShape, Dummy, Grid, Held, Intensity, Operation,
    Style, Vec2,
};

fn start() -> Held {
    Held { style: Style::default(), cursor: Vec2::new(0, 0) }
}

fn shown(grid: &Grid) -> Dummy {
    let mut backend = Dummy::new(grid.size());
    backend.grid = grid.clone();
    backend
}

#[test]
fn test_diff_grid() {
    let mut old_grid = Grid::new(Vec2::new(16, 8));
    old_grid.write(Vec2::new(2, 5), "Hello World!", Style::default());
    old_grid.write(Vec2::new(3, 6), "😃", Style::default());
    let old_grid = old_grid;

    let mut new_grid = old_grid.clone();

    let mut style = Style::new(
        Color::Red,
        Color::Blue,
        Attributes { intensity: Intensity::Bold, underlined: true, ..Attributes::default() },
    );

    new_grid.write(Vec2::new(15, 2), "abcd", style);
    style.foreground = Color::Green;
    new_grid.write(Vec2::new(1, 5), "foo", style);
    new_grid.write(Vec2::new(4, 6), "😃", style);

    let new_grid = new_grid;

    let mut backend = shown(&old_grid);
    let (operations, _) = diff(
        &Buffer::from_grid(old_grid),
        &Buffer::from_grid(new_grid.clone()),
        start(),
    );
    backend.run(&operations);

    assert_eq!(backend.grid, new_grid);

    assert_eq!(
        backend.operations,
        &[
            Operation::SetForeground(Color::Red),
            Operation::SetBackground(Color::Blue),
            Operation::SetIntensity(Intensity::Bold),
            Operation::SetUnderlined(true),
            Operation::SetCursorPos(Vec2::new(15, 2)),
            Operation::Write('a'),
            Operation::SetForeground(Color::Green),
            Operation::SetCursorPos(Vec2::new(1, 5)),
            Operation::Write('f'),
            Operation::Write('o'),
            Operation::Write('o'),
            Operation::SetForeground(Color::Default),
            Operation::SetBackground(Color::Default),
            Operation::SetIntensity(Intensity::Normal),
            Operation::SetUnderlined(false),
            Operation::SetCursorPos(Vec2::new(3, 6)),
            Operation::Write(' '),
            Operation::SetForeground(Color::Green),
            Operation::SetBackground(Color::Blue),
            Operation::SetIntensity(Intensity::Bold),
            Operation::SetUnderlined(true),
            Operation::Write('😃'),
            Operation::SetBackground(Color::Default),
        ],
    );
}

#[test]
fn hello_world_from_empty() {
    let old = Buffer::new(Vec2::new(5, 1));
    let mut new = Buffer::new(Vec2::new(5, 1));
    new.write(Vec2::new(0, 0), "Hello", Style::default());
    let (operations, held) = diff(&old, &new, start());
    assert_eq!(
        operations,
        vec![
            Operation::Write('H'),
            Operation::Write('e'),
            Operation::Write('l'),
            Operation::Write('l'),
            Operation::Write('o'),
            Operation::SetBackground(Color::Default),
        ]
    );
    // The cursor stays on the last column.
    assert_eq!(held, Held { style: Style::default(), cursor: Vec2::new(4, 0) });
}

#[test]
fn style_change_mid_line() {
    let loud = Style::default().red().on_black().bold();
    let mut with_ab = Buffer::new(Vec2::new(10, 1));
    with_ab.write(Vec2::new(0, 0), "ab", Style::default());
    let mut new = with_ab.clone();
    new.write(Vec2::new(2, 0), "cd", loud);

    let (operations, held) = diff(&with_ab, &new, start());
    assert_eq!(
        operations,
        vec![
            Operation::SetForeground(Color::Red),
            Operation::SetBackground(Color::Black),
            Operation::SetIntensity(Intensity::Bold),
            Operation::SetCursorPos(Vec2::new(2, 0)),
            Operation::Write('c'),
            Operation::Write('d'),
            Operation::SetBackground(Color::Default),
        ]
    );
    assert_eq!(
        held,
        Held {
            style: Style { background: Color::Default, ..loud },
            cursor: Vec2::new(4, 0),
        }
    );

    let (from_empty, _) = diff(&Buffer::new(Vec2::new(10, 1)), &new, start());
    assert_eq!(
        from_empty,
        vec![
            Operation::Write('a'),
            Operation::Write('b'),
            Operation::SetForeground(Color::Red),
            Operation::SetBackground(Color::Black),
            Operation::SetIntensity(Intensity::Bold),
            Operation::Write('c'),
            Operation::Write('d'),
            Operation::SetBackground(Color::Default),
        ]
    );
}

#[test]
fn wide_glyph_is_one_write() {
    let mut old = Buffer::new(Vec2::new(5, 1));
    old.write(Vec2::new(0, 0), "ABCDE", Style::default());
    let mut new = old.clone();
    new.write(Vec2::new(1, 0), "😃", Style::default());
    let (operations, held) = diff(&old, &new, start());
    assert_eq!(
        operations,
        vec![
            Operation::SetCursorPos(Vec2::new(1, 0)),
            Operation::Write('😃'),
            Operation::SetBackground(Color::Default),
        ]
    );
    assert_eq!(held.cursor, Vec2::new(3, 0));
    let mut backend = shown(&old.grid);
    backend.run(&operations);
    assert_eq!(backend.grid, new.grid);
    assert_eq!(backend.cursor_pos, Vec2::new(3, 0));
}

#[test]
fn cursor_shown_then_hidden() {
    let size = Vec2::new(5, 1);
    let empty = Buffer::new(size);
    let mut first = Buffer::new(size);
    first.set_cursor(Some(Cursor::new(Vec2::new(3, 0), CursorShape::Block, false)));
    let (show, held) = diff(&empty, &first, start());
    assert_eq!(
        show,
        vec![
            Operation::SetBackground(Color::Default),
            Operation::ShowCursor,
            Operation::SetCursorShape(CursorShape::Block),
            Operation::SetCursorBlinking(false),
            Operation::SetCursorPos(Vec2::new(3, 0)),
        ]
    );
    assert_eq!(held.cursor, Vec2::new(3, 0));
    let (hide, _) = diff(&first, &empty, held);
    assert_eq!(hide, vec![Operation::SetBackground(Color::Default), Operation::HideCursor]);
}

#[test]
fn cursor_changes_only_what_differs() {
    let size = Vec2::new(5, 1);
    let mut first = Buffer::new(size);
    first.set_cursor(Some(Cursor::new(Vec2::new(3, 0), CursorShape::Block, false)));
    let mut second = Buffer::new(size);
    second.set_cursor(Some(Cursor::new(Vec2::new(3, 0), CursorShape::Bar, false)));
    let held = Held { style: Style::default(), cursor: Vec2::new(3, 0) };
    let (operations, _) = diff(&first, &second, held);
    assert_eq!(
        operations,
        vec![
            Operation::SetBackground(Color::Default),
            Operation::SetCursorShape(CursorShape::Bar),
        ]
    );
    let mut third = Buffer::new(size);
    third.set_cursor(Some(Cursor::new(Vec2::new(1, 0), CursorShape::Bar, true)));
    let (operations, held) = diff(&second, &third, held);
    assert_eq!(
        operations,
        vec![
            Operation::SetBackground(Color::Default),
            Operation::SetCursorBlinking(true),
            Operation::SetCursorPos(Vec2::new(1, 0)),
        ]
    );
    assert_eq!(held.cursor, Vec2::new(1, 0));
}

#[test]
fn same_frame_only_resets_background() {
    let mut frame = Buffer::new(Vec2::new(6, 2));
    frame.write(Vec2::new(0, 1), "a😃b", Style::default().red());
    let held = Held { style: Style::default().on_black(), cursor: Vec2::new(2, 1) };
    let (operations, after) = diff(&frame, &frame.clone(), held);
    assert_eq!(operations, vec![Operation::SetBackground(Color::Default)]);
    assert_eq!(after, Held { style: Style::default(), cursor: Vec2::new(2, 1) });
}

#[test]
fn empty_frames_ask_for_no_write() {
    let empty = Buffer::new(Vec2::new(0, 0));
    let (operations, held) = diff(&empty, &empty.clone(), start());
    assert_eq!(operations, vec![Operation::SetBackground(Color::Default)]);
    assert_eq!(held, start());
    let mut full = Buffer::new(Vec2::new(3, 3));
    full.write(Vec2::new(0, 0), "abc", Style::default());
    let (operations, _) = diff(&full, &empty, start());
    assert_eq!(operations, vec![Operation::SetBackground(Color::Default)]);
}

#[test]
fn all_seven_style_fields_are_set_in_order() {
    let style = Style::new(
        Color::AnsiValue(7),
        Color::Rgb { r: 1, g: 2, b: 3 },
        Attributes {
            intensity: Intensity::Dim,
            italic: true,
            underlined: true,
            blinking: true,
            crossed_out: true,
        },
    );
    let old = Buffer::new(Vec2::new(2, 2));
    let mut new = Buffer::new(Vec2::new(2, 2));
    new.write_char(Vec2::new(1, 1), 'x', style);
    let (operations, held) = diff(&old, &new, start());
    assert_eq!(
        operations,
        vec![
            Operation::SetForeground(Color::AnsiValue(7)),
            Operation::SetBackground(Color::Rgb { r: 1, g: 2, b: 3 }),
            Operation::SetIntensity(Intensity::Dim),
            Operation::SetItalic(true),
            Operation::SetUnderlined(true),
            Operation::SetBlinking(true),
            Operation::SetCrossedOut(true),
            Operation::SetCursorPos(Vec2::new(1, 1)),
            Operation::Write('x'),
            Operation::SetBackground(Color::Default),
        ]
    );
    assert_eq!(held.style, Style { background: Color::Default, ..style });
    assert_eq!(held.cursor, Vec2::new(1, 1));
}

fn sets_same_field(a: &Operation, b: &Operation) -> bool {
    !matches!(a, Operation::Write(_)) && std::mem::discriminant(a) == std::mem::discriminant(b)
}

#[test]
fn backend_ends_up_showing_the_new_frame() {
    let size = Vec2::new(7, 3);
    let red = Style::default().red();
    let mut a = Buffer::new(size);
    a.write(Vec2::new(0, 0), "a😃😃bc", Style::default());
    a.write(Vec2::new(1, 1), "😊xy😊", red);
    a.write(Vec2::new(5, 2), "😃", red);
    let mut b = Buffer::new(size);
    b.write(Vec2::new(0, 0), "😃a😃b", red);
    b.write(Vec2::new(0, 1), "😊xy😊z", red);
    b.write(Vec2::new(4, 2), "😃!", Style::default().bold());
    b.set_cursor(Some(Cursor::new(Vec2::new(6, 2), CursorShape::Underline, true)));

    for (from, to) in [(&a, &b), (&b, &a)] {
        let mut backend = shown(&from.grid);
        backend.style = red;
        backend.cursor_pos = Vec2::new(2, 1);
        if let Some(cursor) = from.cursor {
            backend.cursor_visible = true;
            backend.cursor_shape = cursor.shape;
            backend.cursor_blinking = cursor.blinking;
        }
        let (operations, held) = diff(from, to, Held { style: red, cursor: Vec2::new(2, 1) });
        backend.run(&operations);
        assert_eq!(backend.grid, to.grid);
        assert_eq!(backend.style, held.style);
        assert_eq!(backend.cursor_pos, held.cursor);
        assert_eq!(backend.cursor_visible, to.cursor.is_some());
        if let Some(cursor) = to.cursor {
            assert_eq!(backend.cursor_pos, cursor.pos);
            assert_eq!(backend.cursor_shape, cursor.shape);
            assert_eq!(backend.cursor_blinking, cursor.blinking);
        }
        // Between two operations on the same part of the state a glyph is written.
        for i in 0..operations.len() {
            for j in i + 1..operations.len() {
                if sets_same_field(&operations[i], &operations[j]) {
                    assert!(operations[i + 1..j].iter().any(|op| matches!(op, Operation::Write(_))));
                }
            }
        }
    }
}

#[test]
fn frames_of_different_sizes_are_compared_where_they_overlap() {
    let mut old = Buffer::new(Vec2::new(2, 1));
    old.write(Vec2::new(0, 0), "ab", Style::default());
    let mut new = Buffer::new(Vec2::new(4, 2));
    new.write(Vec2::new(0, 0), "axcd", Style::default());
    new.write(Vec2::new(0, 1), "zz", Style::default());
    let (operations, _) = diff(&old, &new, start());
    assert_eq!(
        operations,
        vec![
            Operation::SetCursorPos(Vec2::new(1, 0)),
            Operation::Write('x'),
            Operation::SetBackground(Color::Default),
        ]
    );
}

#[test]
fn dummy_carries_out_each_operation() {
    let mut backend = Dummy::new(Vec2::new(3, 1));
    backend.apply(Operation::ShowCursor);
    backend.apply(Operation::SetCursorShape(CursorShape::Bar));
    backend.apply(Operation::SetCursorBlinking(true));
    backend.apply(Operation::SetForeground(Color::Cyan));
    backend.apply(Operation::SetItalic(true));
    backend.apply(Operation::SetBlinking(true));
    backend.apply(Operation::SetCrossedOut(true));
    backend.apply(Operation::SetCursorPos(Vec2::new(1, 0)));
    backend.apply(Operation::Write('😃'));
    assert!(backend.cursor_visible);
    assert_eq!(backend.cursor_shape, CursorShape::Bar);
    assert!(backend.cursor_blinking);
    let style = Style::new(
        Color::Cyan,
        Color::Default,
        Attributes { italic: true, blinking: true, crossed_out: true, ..Attributes::default() },
    );
    assert_eq!(backend.style, style);
    // The cursor does not leave the last column.
    assert_eq!(backend.cursor_pos, Vec2::new(2, 0));
    assert_eq!(backend.grid.contents(), vec![" 😃".to_owned()]);
    backend.apply(Operation::HideCursor);
    assert!(!backend.cursor_visible);
    assert_eq!(backend.operations.len(), 10);
}
