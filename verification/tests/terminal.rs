use toon::{
    Color, Cursor, CursorShape, Held, Input, Intensity, Key, KeyPress, Modifiers, Mouse,
    MouseButton, MouseKind, Operation, Output, Step, Style, Terminal, TerminalEvent,
    TerminalMouse, TerminalMouseKind, Vec2,
};

fn raw(kind: TerminalMouseKind, x: u16, y: u16) -> TerminalEvent {
    TerminalEvent::Mouse(TerminalMouse { kind, at: Vec2::new(x, y), modifiers: Modifiers::new() })
}

fn seen(kind: MouseKind, x: u16, y: u16, size: Vec2<u16>) -> Step {
    Step::Input(Input::Mouse(Mouse {
        kind,
        at: Vec2::new(x, y),
        size,
        modifiers: Modifiers::new(),
    }))
}

#[test]
fn new_terminal_brings_the_backend_to_its_start() {
    let (terminal, operations) = Terminal::new(Vec2::new(4, 2));
    assert_eq!(
        operations,
        vec![
            Operation::HideCursor,
            Operation::SetCursorPos(Vec2::new(0, 0)),
            Operation::SetForeground(Color::Default),
            Operation::SetBackground(Color::Default),
            Operation::SetIntensity(Intensity::Normal),
            Operation::SetItalic(false),
            Operation::SetUnderlined(false),
            Operation::SetBlinking(false),
            Operation::SetCrossedOut(false),
        ]
    );
    assert_eq!(terminal.size(), Vec2::new(4, 2));
    assert_eq!(terminal.held(), Held { style: Style::default(), cursor: Vec2::new(0, 0) });
    assert_eq!(terminal.mouse(), None);
    assert_eq!(terminal.title(), "");
    assert_eq!(terminal.old_buffer().grid.contents(), vec!["    ".to_owned(), "    ".to_owned()]);
}

#[test]
fn hello_world_frame() {
    let (mut terminal, start) = Terminal::new(Vec2::new(5, 1));
    let mut output = Output::new(terminal.size());
    output.write(Vec2::new(0, 0), "Hello", Style::default());
    let frame = terminal.frame(&output);
    let all: Vec<Operation> = start.iter().chain(frame.iter()).copied().collect();
    let moves: Vec<&Operation> =
        all.iter().filter(|op| matches!(op, Operation::SetCursorPos(_))).collect();
    assert_eq!(moves, vec![&Operation::SetCursorPos(Vec2::new(0, 0))]);
    assert_eq!(
        frame,
        vec![
            Operation::Write('H'),
            Operation::Write('e'),
            Operation::Write('l'),
            Operation::Write('l'),
            Operation::Write('o'),
            Operation::SetBackground(Color::Default),
        ]
    );
    assert_eq!(terminal.old_buffer().grid.contents(), vec!["Hello".to_owned()]);
    // The same frame again asks only for the background.
    let again = terminal.frame(&output);
    assert_eq!(again, vec![Operation::SetBackground(Color::Default)]);
}

#[test]
fn frames_show_and_hide_the_cursor() {
    let (mut terminal, _) = Terminal::new(Vec2::new(5, 1));
    let mut first = Output::new(terminal.size());
    first.set_cursor(Some(Cursor::new(Vec2::new(3, 0), CursorShape::Block, false)));
    let shown = terminal.frame(&first);
    assert_eq!(
        shown,
        vec![
            Operation::SetBackground(Color::Default),
            Operation::ShowCursor,
            Operation::SetCursorShape(CursorShape::Block),
            Operation::SetCursorBlinking(false),
            Operation::SetCursorPos(Vec2::new(3, 0)),
        ]
    );
    let mut second = Output::new(terminal.size());
    second.set_cursor(None);
    let hidden = terminal.frame(&second);
    assert_eq!(hidden, vec![Operation::SetBackground(Color::Default), Operation::HideCursor]);
}

#[test]
fn mouse_drag_synthesis() {
    let size = Vec2::new(8, 4);
    let (mut terminal, _) = Terminal::new(size);
    assert_eq!(
        terminal.event(raw(TerminalMouseKind::Press(MouseButton::Left), 1, 1)),
        seen(MouseKind::Press(MouseButton::Left), 1, 1, size)
    );
    assert_eq!(terminal.mouse(), Some(MouseButton::Left));
    assert_eq!(
        terminal.event(raw(TerminalMouseKind::Move, 2, 1)),
        seen(MouseKind::Drag(MouseButton::Left), 2, 1, size)
    );
    assert_eq!(
        terminal.event(raw(TerminalMouseKind::Move, 2, 2)),
        seen(MouseKind::Drag(MouseButton::Left), 2, 2, size)
    );
    assert_eq!(
        terminal.event(raw(TerminalMouseKind::Release, 2, 2)),
        seen(MouseKind::Release(MouseButton::Left), 2, 2, size)
    );
    assert_eq!(terminal.mouse(), None);
    // A release with no button held is dropped.
    assert_eq!(terminal.event(raw(TerminalMouseKind::Release, 2, 2)), Step::Ignore);
    assert_eq!(terminal.mouse(), None);
}

#[test]
fn release_matches_the_latest_press() {
    let size = Vec2::new(8, 4);
    let (mut terminal, _) = Terminal::new(size);
    terminal.event(raw(TerminalMouseKind::Press(MouseButton::Left), 0, 0));
    terminal.event(raw(TerminalMouseKind::ScrollUp, 0, 0));
    terminal.event(raw(TerminalMouseKind::Press(MouseButton::Right), 0, 0));
    assert_eq!(
        terminal.event(raw(TerminalMouseKind::Release, 3, 3)),
        seen(MouseKind::Release(MouseButton::Right), 3, 3, size)
    );
    assert_eq!(terminal.event(raw(TerminalMouseKind::Release, 3, 3)), Step::Ignore);
    assert_eq!(
        terminal.event(raw(TerminalMouseKind::Move, 3, 3)),
        seen(MouseKind::Move, 3, 3, size)
    );
    assert_eq!(
        terminal.event(raw(TerminalMouseKind::ScrollDown, 1, 0)),
        seen(MouseKind::ScrollDown, 1, 0, size)
    );
    assert_eq!(
        terminal.event(raw(TerminalMouseKind::ScrollUp, 1, 0)),
        seen(MouseKind::ScrollUp, 1, 0, size)
    );
}

#[test]
fn keys_are_handed_on() {
    let (mut terminal, _) = Terminal::new(Vec2::new(2, 2));
    let key = KeyPress { key: Key::Char('q'), modifiers: Modifiers::new() };
    assert_eq!(terminal.event(TerminalEvent::Key(key)), Step::Input(Input::Key(key)));
}

#[test]
fn resize_redraws_and_clamps_the_cursor() {
    let (mut terminal, _) = Terminal::new(Vec2::new(6, 4));
    let mut output = Output::new(terminal.size());
    output.write(Vec2::new(0, 3), "bottom", Style::default());
    output.write(Vec2::new(0, 0), "top", Style::default());
    terminal.frame(&output);
    assert_eq!(terminal.held().cursor, Vec2::new(5, 3));

    // A resize to the same size is nothing.
    assert_eq!(terminal.event(TerminalEvent::Resize(Vec2::new(6, 4))), Step::Ignore);
    assert_eq!(terminal.size(), Vec2::new(6, 4));

    assert_eq!(terminal.event(TerminalEvent::Resize(Vec2::new(3, 2))), Step::Redraw);
    assert_eq!(terminal.size(), Vec2::new(3, 2));
    assert_eq!(terminal.held().cursor, Vec2::new(2, 1));
    // The rows leave at the top: the row of the cursor is the last one.
    assert_eq!(terminal.old_buffer().grid.contents(), vec!["   ".to_owned(), "bot".to_owned()]);

    assert_eq!(terminal.event(TerminalEvent::Resize(Vec2::new(0, 0))), Step::Redraw);
    assert_eq!(terminal.size(), Vec2::new(0, 0));
    assert_eq!(terminal.held().cursor, Vec2::new(0, 0));
    let mut nothing = Output::new(terminal.size());
    nothing.write(Vec2::new(0, 0), "text", Style::default());
    assert_eq!(nothing.draws().len(), 0);
    assert_eq!(terminal.frame(&nothing), vec![Operation::SetBackground(Color::Default)]);
}

#[test]
fn title_is_set_when_it_changes() {
    let (mut terminal, _) = Terminal::new(Vec2::new(2, 2));
    assert!(terminal.retitle("first"));
    assert_eq!(terminal.title(), "first");
    assert!(!terminal.retitle("first"));
    assert!(terminal.retitle("second"));
    assert_eq!(terminal.title(), "second");
    // An element without a title gets the default one.
    assert!(terminal.retitle(""));
    assert_eq!(terminal.title(), "App");
    assert!(terminal.retitle(""));
    assert_eq!(terminal.title(), "App");
    assert!(!terminal.retitle("App"));
}

#[test]
fn errors_keep_where_they_came_from() {
    let backend: toon::Error<u8> = toon::Error::from(7);
    assert!(backend.is_backend());
    assert!(matches!(backend, toon::Error::Backend(7)));
    assert!(toon::Error::from_backend("lost").is_backend());
    let stdio: toon::Error<u8> =
        toon::Error::from_stdio(std::io::Error::new(std::io::ErrorKind::Other, "closed"));
    assert!(!stdio.is_backend());
    assert!(matches!(stdio, toon::Error::Stdio(_)));
}
