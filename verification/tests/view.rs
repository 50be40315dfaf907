use ecto::{Buffer, Command, Coordinates, Terminal, View, EDITOR_NAME, EDITOR_VERSION};

fn text(text: &str) -> Command {
    Command::Print(text.to_string())
}

fn row(at: u16, line: &str) -> Vec<Command> {
    vec![Command::MoveTo { column: 0, row: at }, Command::ClearLine, text(line)]
}

fn rows(lines: &[(u16, &str)]) -> Vec<Command> {
    lines.iter().flat_map(|(at, line)| row(*at, line)).collect()
}

fn view_of(document: &str, width: usize, height: usize) -> View {
    let mut view = View::new(Coordinates { x: width, y: height });
    view.load(Buffer::from_text(document));
    view
}

fn painted(view: &mut View) -> Vec<Command> {
    let mut terminal = Terminal::new();
    view.render_full(&mut terminal);
    terminal.flush_queue()
}

#[test]
fn a_long_line_is_cut_at_the_width_and_rows_below_are_left_alone() {
    let mut view = view_of("Hello, friends!", 8, 3);
    assert_eq!(painted(&mut view), row(0, "Hello, f"));
}

#[test]
fn a_second_render_paints_nothing() {
    let mut view = view_of("one\ntwo", 8, 3);
    assert_eq!(painted(&mut view), rows(&[(0, "one"), (1, "two")]));
    assert_eq!(painted(&mut view), Vec::<Command>::new());
    assert_eq!(painted(&mut view), Vec::<Command>::new());
}

#[test]
fn a_second_render_of_the_welcome_screen_paints_nothing() {
    let mut view = view_of("", 10, 3);
    assert_eq!(painted(&mut view).len(), 3 * (3 + 2));
    assert_eq!(painted(&mut view), Vec::<Command>::new());
}

#[test]
fn the_painted_text_is_the_start_of_the_line() {
    let line = "0123456789";
    for width in 1..=12usize {
        let mut view = view_of(line, width, 1);
        let kept = width.min(line.len());
        assert_eq!(painted(&mut view), row(0, &line[..kept]), "width {width}");
    }
}

#[test]
fn a_line_as_long_as_the_width_is_painted_whole() {
    let mut view = view_of("12345678", 8, 3);
    assert_eq!(painted(&mut view), row(0, "12345678"));
}

#[test]
fn a_line_is_cut_by_characters_not_bytes() {
    let mut view = view_of("h\u{e9}llo w\u{f6}rld", 4, 1);
    assert_eq!(painted(&mut view), row(0, "h\u{e9}ll"));
}

#[test]
fn lines_past_the_height_are_not_painted() {
    let mut view = view_of("a\nb\nc\nd\ne", 8, 3);
    assert_eq!(painted(&mut view), rows(&[(0, "a"), (1, "b"), (2, "c")]));
}

#[test]
fn an_empty_line_clears_its_row() {
    let mut view = view_of("a\n\nc", 8, 3);
    assert_eq!(painted(&mut view), rows(&[(0, "a"), (1, ""), (2, "c")]));
}

#[test]
fn a_new_view_shows_the_greeting() {
    let mut view = View::new(Coordinates { x: 80, y: 24 });
    assert_eq!(painted(&mut view), row(0, "Hello, World!"));
}

#[test]
fn the_default_view_has_no_cells_until_it_is_resized() {
    let mut view = View::default();
    assert_eq!(painted(&mut view), Vec::<Command>::new());
    view.resize(Coordinates { x: 5, y: 2 });
    assert_eq!(painted(&mut view), row(0, "Hello"));
}

#[test]
fn a_buffer_without_lines_gets_the_welcome_screen() {
    let mut view = view_of("", 10, 6);
    assert_eq!(
        painted(&mut view),
        rows(&[
            (0, "~"),
            (1, "~"),
            (2, "~"),
            (3, "~"),
            (4, "~"),
            (5, "~"),
            (2, "~  Ecto"),
            (3, "~  v0.0"),
        ])
    );
}

#[test]
fn the_welcome_message_names_the_editor_and_its_version() {
    assert_eq!(EDITOR_NAME, "Ecto");
    assert_eq!(EDITOR_VERSION, "0.0");
    let mut view = view_of("", 20, 3);
    let frame = painted(&mut view);
    let name = format!("~{}{}", " ".repeat(7), EDITOR_NAME);
    let version = format!("~{}v{}", " ".repeat(7), EDITOR_VERSION);
    assert_eq!(frame[3 * 3..], rows(&[(1, &name), (2, &version)]));
}

#[test]
fn the_welcome_message_is_centred_by_halving() {
    let mut view = view_of("", 80, 24);
    let frame = painted(&mut view);
    assert_eq!(frame.len(), 3 * 26);
    let name = format!("~{}Ecto", " ".repeat(37));
    let version = format!("~{}v0.0", " ".repeat(37));
    assert_eq!(frame[3 * 24..], rows(&[(8, &name), (9, &version)]));
}

#[test]
fn the_welcome_message_on_a_narrow_screen_has_no_padding() {
    for width in 1..=7usize {
        let mut view = view_of("", width, 1);
        assert_eq!(
            painted(&mut view),
            rows(&[(0, "~"), (0, "~Ecto"), (1, "~v0.0")]),
            "width {width}"
        );
    }
    let mut view = view_of("", 8, 1);
    assert_eq!(painted(&mut view), rows(&[(0, "~"), (0, "~ Ecto"), (1, "~ v0.0")]));
}

#[test]
fn a_buffer_with_a_line_never_gets_the_welcome_screen() {
    for document in ["x", "\n", "~", "~  Ecto\n~  v0.0", "Ecto"] {
        let mut view = view_of(document, 10, 6);
        let frame = painted(&mut view);
        let lines = Buffer::from_text(document).data;
        let expected: Vec<Command> =
            lines.iter().enumerate().flat_map(|(at, line)| row(at as u16, line)).collect();
        assert_eq!(frame, expected, "{document:?}");
        assert!(frame.len() < 3 * (6 + 2), "{document:?}");
    }
}

#[test]
fn a_screen_without_cells_is_not_painted_and_stays_due() {
    for (width, height) in [(0, 0), (0, 3), (8, 0)] {
        let mut view = view_of("line", width, height);
        assert_eq!(painted(&mut view), Vec::<Command>::new());
        assert_eq!(painted(&mut view), Vec::<Command>::new());
        view.resize(Coordinates { x: 8, y: 3 });
        assert_eq!(painted(&mut view), row(0, "line"));
    }
}

#[test]
fn a_resize_to_the_same_size_repaints() {
    let size = Coordinates { x: 8, y: 3 };
    let mut view = view_of("Hello, friends!", size.x, size.y);
    assert_eq!(painted(&mut view), row(0, "Hello, f"));
    view.resize(size);
    assert_eq!(painted(&mut view), row(0, "Hello, f"));
    assert_eq!(painted(&mut view), Vec::<Command>::new());
}

#[test]
fn a_resize_repaints_for_the_new_size() {
    let mut view = view_of("Hello, friends!\nsecond", 8, 3);
    assert_eq!(painted(&mut view), rows(&[(0, "Hello, f"), (1, "second")]));
    view.resize(Coordinates { x: 3, y: 1 });
    assert_eq!(painted(&mut view), row(0, "Hel"));
}

#[test]
fn a_load_repaints_with_the_new_document() {
    let mut view = view_of("old", 8, 3);
    assert_eq!(painted(&mut view), row(0, "old"));
    view.load(Buffer::from_text("new\nlines"));
    assert_eq!(painted(&mut view), rows(&[(0, "new"), (1, "lines")]));
    assert_eq!(painted(&mut view), Vec::<Command>::new());
}

#[test]
fn render_appends_to_what_is_queued() {
    let mut terminal = Terminal::new();
    terminal.hide_cursor();
    let mut view = view_of("a", 8, 3);
    view.render_full(&mut terminal);
    let mut expected = vec![Command::Hide];
    expected.extend(row(0, "a"));
    assert_eq!(terminal.flush_queue(), expected);
}

#[test]
fn render_line_paints_one_row() {
    let mut terminal = Terminal::new();
    View::render_line(&mut terminal, 4, "anything at all");
    assert_eq!(terminal.flush_queue(), row(4, "anything at all"));
}

#[test]
fn initialize_paints_the_empty_screen_and_then_the_document() {
    let mut terminal = Terminal::new();
    let mut view = view_of("Hello, friends!", 8, 3);
    view.initialize(&mut terminal);
    assert_eq!(
        terminal.flush_queue(),
        rows(&[(0, "~"), (1, "~"), (2, "~"), (0, "Hello, f")])
    );
    // The document is on the screen, so no repaint is due.
    assert_eq!(painted(&mut view), Vec::<Command>::new());
}

#[test]
fn initialize_paints_the_welcome_message_for_a_buffer_without_lines() {
    let mut terminal = Terminal::new();
    let mut view = view_of("", 10, 3);
    view.initialize(&mut terminal);
    let welcome = rows(&[(0, "~"), (1, "~"), (2, "~"), (1, "~  Ecto"), (2, "~  v0.0")]);
    assert_eq!(terminal.flush_queue(), welcome);
    // The repaint is still due: the next render paints the welcome screen.
    assert_eq!(painted(&mut view), welcome);
    assert_eq!(painted(&mut view), Vec::<Command>::new());
}

#[test]
fn initialize_on_a_screen_without_cells_paints_nothing() {
    let mut terminal = Terminal::new();
    let mut view = view_of("line", 0, 0);
    view.initialize(&mut terminal);
    assert_eq!(terminal.flush_queue(), Vec::<Command>::new());
}
