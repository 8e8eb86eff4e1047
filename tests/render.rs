use hecto::{Command, Editor, Position, Size, Terminal};

fn print(text: &str) -> Command {
    Command::Print(text.to_string())
}

fn at(column: u16, row: u16) -> Command {
    Command::MoveTo(Position { column, row })
}

#[test]
fn banner_is_centred() {
    let mut terminal = Terminal::new();
    let size = Size { columns: 80, rows: 24 };
    Editor::draw_welcome_message(size, "abcdefghij", "1.2.3", &mut terminal);
    assert_eq!(
        terminal.execute(),
        vec![at(35, 8), print("abcdefghij"), at(38, 9), print("1.2.3")]
    );
}

#[test]
fn banner_column_exact_values() {
    assert_eq!(Editor::banner_column(80, 10), 35);
    assert_eq!(Editor::banner_column(81, 11), 35);
    assert_eq!(Editor::banner_column(10, 10), 0);
    assert_eq!(Editor::banner_column(0, 0), 0);
}

#[test]
fn banner_on_narrow_screen_starts_at_zero() {
    let mut terminal = Terminal::new();
    let size = Size { columns: 6, rows: 2 };
    Editor::draw_welcome_message(size, "a-long-name", "0.1.0", &mut terminal);
    assert_eq!(terminal.execute(), vec![at(0, 0), print("a-long-name"), at(1, 1), print("0.1.0")]);
}

#[test]
fn rows_have_no_trailing_line_break() {
    let mut terminal = Terminal::new();
    let size = Size { columns: 20, rows: 3 };
    Editor::draw_rows(size, "ed", "1", &mut terminal);
    assert_eq!(
        terminal.execute(),
        vec![
            at(0, 0),
            Command::ClearLine,
            print("~"),
            print("\r\n"),
            Command::ClearLine,
            print("~"),
            print("\r\n"),
            Command::ClearLine,
            print("~"),
            at(9, 1),
            print("ed"),
            at(10, 2),
            print("1"),
        ]
    );
}

#[test]
fn single_row_has_no_line_break() {
    let mut terminal = Terminal::new();
    let size = Size { columns: 4, rows: 1 };
    Editor::draw_rows(size, "", "", &mut terminal);
    let batch = terminal.execute();
    assert!(!batch.contains(&print("\r\n")));
    assert_eq!(batch[1..3], [Command::ClearLine, print("~")]);
}

#[test]
fn many_rows_have_one_break_fewer_than_rows() {
    let mut terminal = Terminal::new();
    let size = Size { columns: 80, rows: 24 };
    Editor::draw_rows(size, "hecto", "0.1.0", &mut terminal);
    let batch = terminal.execute();
    assert_eq!(batch.iter().filter(|c| **c == print("\r\n")).count(), 23);
    assert_eq!(batch.iter().filter(|c| **c == print("~")).count(), 24);
    assert_eq!(batch[3 * 24 - 1], print("~"));
}

#[test]
fn editing_frame_hides_draws_places_cursor_and_shows() {
    let editor = Editor::default();
    let mut terminal = Terminal::new();
    let size = Size { columns: 10, rows: 2 };
    editor.refresh_screen(size, "ab", "1", &mut terminal);
    assert_eq!(
        terminal.execute(),
        vec![
            Command::HideCursor,
            at(0, 0),
            Command::ClearLine,
            print("~"),
            print("\r\n"),
            Command::ClearLine,
            print("~"),
            at(4, 0),
            print("ab"),
            at(5, 1),
            print("1"),
            at(1, 0),
            Command::ShowCursor,
        ]
    );
}

#[test]
fn initialize_queues_a_screen_clear() {
    let mut terminal = Terminal::initialize();
    assert_eq!(terminal.execute(), vec![Command::ClearAll]);
    assert!(terminal.execute().is_empty());
}

#[test]
fn queued_commands_come_out_in_order() {
    let mut terminal = Terminal::new();
    terminal.hide_cursor();
    terminal.clear_screen();
    terminal.print("x");
    terminal.move_cursor_to(Position { column: 3, row: 4 });
    terminal.clear_line();
    terminal.queue_command(Command::ShowCursor);
    assert_eq!(
        terminal.execute(),
        vec![Command::HideCursor, Command::ClearAll, print("x"), at(3, 4), Command::ClearLine, Command::ShowCursor]
    );
    assert!(terminal.execute().is_empty());
}
