use vstd::prelude::*;

use crate::terminal::{CommandView, Position, Size, Terminal};

verus! {

/// The key that an event reports.
#[derive(Clone, Copy, PartialEq, Eq, Structural, Debug)]
pub enum KeyCode {
    Left,
    Right,
    Up,
    Down,
    PageUp,
    PageDown,
    Home,
    End,
    Char(char),
    /// Any key that the editor does not tell apart.
    Other,
}

/// Whether a key went down, auto-repeated, or went up.
#[derive(Clone, Copy, PartialEq, Eq, Structural, Debug)]
pub enum KeyEventKind {
    Press,
    Repeat,
    Release,
}

/// The modifier keys held during a key event.
#[derive(Clone, Copy, PartialEq, Eq, Structural, Debug)]
pub struct KeyModifiers {
    pub shift: bool,
    pub control: bool,
    pub alt: bool,
    pub super_key: bool,
    pub hyper: bool,
    pub meta: bool,
}

/// A key event: the key, the modifiers held, and whether it went down, repeated or went up.
#[derive(Clone, Copy, PartialEq, Eq, Structural, Debug)]
pub struct KeyEvent {
    pub code: KeyCode,
    pub modifiers: KeyModifiers,
    pub kind: KeyEventKind,
}

/// An input event: a key event, or anything else (mouse, focus, paste, resize).
#[derive(Clone, Copy, PartialEq, Eq, Structural, Debug)]
pub enum Event {
    Key(KeyEvent),
    Other,
}

/// The editor's state: whether it is quitting, and where the cursor is.
#[derive(Clone, Copy, PartialEq, Eq, Structural, Debug)]
pub struct EditorView {
    pub should_quit: bool,
    pub cursor_position: Position,
}

/// The text shown on the last frame.
pub open spec fn farewell() -> Seq<char> {
    "Goodbye!\r\n"@
}

/// Control held, and no other modifier.
pub open spec fn is_control_only(m: KeyModifiers) -> bool {
    m.control && !m.shift && !m.alt && !m.super_key && !m.hyper && !m.meta
}

/// Ctrl+Q, pressed.
pub open spec fn is_quit_key(k: KeyEvent) -> bool {
    k.kind == KeyEventKind::Press && k.code == KeyCode::Char('q') && is_control_only(k.modifiers)
}

/// The keys that move the cursor.
pub open spec fn is_motion(code: KeyCode) -> bool {
    match code {
        KeyCode::Char(_) | KeyCode::Other => false,
        _ => true,
    }
}

/// A pressed cursor-motion key that is not the quit key.
pub open spec fn is_motion_press(k: KeyEvent) -> bool {
    k.kind == KeyEventKind::Press && is_motion(k.code) && !is_quit_key(k)
}

/// The rightmost column a cursor may take: `columns - 1`, or 0 on a screen without columns.
pub open spec fn last_column(size: Size) -> u16 {
    if size.columns > 0 { (size.columns - 1) as u16 } else { 0 }
}

/// The bottom row a cursor may take: `rows - 1`, or 0 on a screen without rows.
pub open spec fn last_row(size: Size) -> u16 {
    if size.rows > 0 { (size.rows - 1) as u16 } else { 0 }
}

/// Where a motion key takes the cursor on a screen of `size`. Every move
/// saturates: left stops at column 1, right at the last column, up at row 0,
/// down at the last row; nothing wraps between rows and columns.
pub open spec fn moved(p: Position, code: KeyCode, size: Size) -> Position {
    match code {
        KeyCode::Left => Position { column: if p.column > 1 { (p.column - 1) as u16 } else { 1 }, ..p },
        KeyCode::Right => Position {
            column: if p.column < last_column(size) { (p.column + 1) as u16 } else { last_column(size) },
            ..p
        },
        KeyCode::Up => Position { row: if p.row > 0 { (p.row - 1) as u16 } else { 0 }, ..p },
        KeyCode::Down => Position {
            row: if p.row < last_row(size) { (p.row + 1) as u16 } else { last_row(size) },
            ..p
        },
        KeyCode::PageUp | KeyCode::PageDown | KeyCode::Home => Position { row: 0, ..p },
        KeyCode::End => Position { row: last_row(size), ..p },
        _ => p,
    }
}

/// The state after `event` on a screen of `size`. Only key presses count; once
/// the editor is quitting, no event is dispatched any more.
pub open spec fn dispatch(e: EditorView, event: Event, size: Size) -> EditorView {
    if e.should_quit {
        e
    } else {
        match event {
            Event::Key(k) => if is_quit_key(k) {
                EditorView { should_quit: true, ..e }
            } else if is_motion_press(k) {
                EditorView { cursor_position: moved(e.cursor_position, k.code, size), ..e }
            } else {
                e
            },
            Event::Other => e,
        }
    }
}

/// What dispatching `event` queues on the terminal: the cursor's new place after a move.
pub open spec fn dispatch_ops(e: EditorView, event: Event, size: Size) -> Seq<CommandView> {
    match event {
        Event::Key(k) => if !e.should_quit && is_motion_press(k) {
            seq![CommandView::MoveTo(moved(e.cursor_position, k.code, size))]
        } else {
            Seq::empty()
        },
        Event::Other => Seq::empty(),
    }
}

/// The state after dispatching each of `events` in turn on a screen of `size`.
pub open spec fn dispatch_all(e: EditorView, events: Seq<Event>, size: Size) -> EditorView
    decreases events.len(),
{
    if events.len() == 0 {
        e
    } else {
        dispatch_all(dispatch(e, events[0], size), events.drop_first(), size)
    }
}

/// The column at which a text of `len` bytes starts when centred on `columns`:
/// `columns / 2 - len / 2`, saturated at 0.
pub open spec fn banner_column(columns: u16, len: nat) -> u16 {
    if len / 2 >= columns / 2 { 0 } else { (columns / 2 - len / 2) as u16 }
}

/// The commands of one placeholder row `i` of `rows`: a line clear, a tilde, and
/// a line break unless it is the last row.
pub open spec fn row_ops(i: nat, rows: nat) -> Seq<CommandView> {
    seq![CommandView::ClearLine, CommandView::Print("~"@)] + if i + 1 < rows {
        seq![CommandView::Print("\r\n"@)]
    } else {
        Seq::empty()
    }
}

/// The commands of the first `n` placeholder rows of `rows`.
pub open spec fn rows_ops(n: nat, rows: nat) -> Seq<CommandView>
    decreases n,
{
    if n == 0 {
        Seq::empty()
    } else {
        rows_ops((n - 1) as nat, rows) + row_ops((n - 1) as nat, rows)
    }
}

/// The welcome banner: `name` and `version`, each centred, on rows `rows / 3` and `rows / 3 + 1`.
pub open spec fn welcome_ops(size: Size, name: &str, version: &str) -> Seq<CommandView> {
    seq![
        CommandView::MoveTo(
            Position { column: banner_column(size.columns, name.len() as nat), row: (size.rows / 3) as u16 },
        ),
        CommandView::Print(name@),
        CommandView::MoveTo(
            Position {
                column: banner_column(size.columns, version.len() as nat),
                row: (size.rows / 3 + 1) as u16,
            },
        ),
        CommandView::Print(version@),
    ]
}

/// The editing screen: every placeholder row from the top-left corner, then the banner.
pub open spec fn screen_ops(size: Size, name: &str, version: &str) -> Seq<CommandView> {
    seq![CommandView::MoveTo(Position { column: 0, row: 0 })] + rows_ops(size.rows as nat, size.rows as nat)
        + welcome_ops(size, name, version)
}

/// One frame, drawn with the cursor hidden: the farewell once quitting, otherwise
/// the editing screen with the cursor put back in its place.
pub open spec fn frame_ops(e: EditorView, size: Size, name: &str, version: &str) -> Seq<CommandView> {
    if e.should_quit {
        seq![
            CommandView::HideCursor,
            CommandView::ClearAll,
            CommandView::Print(farewell()),
            CommandView::ShowCursor,
        ]
    } else {
        seq![CommandView::HideCursor] + screen_ops(size, name, version) + seq![
            CommandView::MoveTo(e.cursor_position),
            CommandView::ShowCursor,
        ]
    }
}

/// The editor controller: it owns the cursor and the quit flag, renders frames
/// into a [`Terminal`] and turns key events into cursor moves or termination.
pub struct Editor {
    should_quit: bool,
    cursor_position: Position,
}

impl View for Editor {
    type V = EditorView;

    closed spec fn view(&self) -> EditorView {
        EditorView { should_quit: self.should_quit, cursor_position: self.cursor_position }
    }
}

impl Editor {
    /// A running editor with the cursor at column 1, row 0: column 0 is the left margin.
    pub fn default() -> (r: Editor)
        ensures
            r@ == (EditorView { should_quit: false, cursor_position: Position { column: 1, row: 0 } }),
    {
        Editor { should_quit: false, cursor_position: Position { column: 1, row: 0 } }
    }

    pub fn should_quit(&self) -> (r: bool)
        ensures
            r == self@.should_quit,
    {
        self.should_quit
    }

    pub fn cursor_position(&self) -> (r: Position)
        ensures
            r == self@.cursor_position,
    {
        self.cursor_position
    }

    /// Moves the cursor for `code` on a screen of `size`, and queues the cursor's new place.
    fn move_cursor(&mut self, code: KeyCode, size: Size, terminal: &mut Terminal)
        ensures
            final(self)@ == (EditorView {
                cursor_position: moved(old(self)@.cursor_position, code, size),
                ..old(self)@
            }),
            final(terminal)@ == old(terminal)@.push(CommandView::MoveTo(final(self)@.cursor_position)),
    {
        let Size { columns, rows } = size;
        let Position { column, row } = self.cursor_position;
        match code {
            KeyCode::Left => {
                self.cursor_position = Position { row, column: column.saturating_sub(1).max(1) };
            },
            KeyCode::Right => {
                self.cursor_position = Position {
                    row,
                    column: column.saturating_add(1).min(columns.saturating_sub(1)),
                };
            },
            KeyCode::Up => {
                self.cursor_position = Position { row: row.saturating_sub(1), column };
            },
            KeyCode::Down => {
                self.cursor_position = Position {
                    row: row.saturating_add(1).min(rows.saturating_sub(1)),
                    column,
                };
            },
            KeyCode::PageUp => {
                self.cursor_position = Position { row: 0, column };
            },
            KeyCode::PageDown => {
                self.cursor_position = Position { row: 0, column };
            },
            KeyCode::Home => {
                self.cursor_position = Position { row: 0, column };
            },
            KeyCode::End => {
                self.cursor_position = Position { row: rows.saturating_sub(1), column };
            },
            _ => {},
        }
        terminal.move_cursor_to(self.cursor_position);
    }

    /// Dispatches one input event, with `size` read just before it. Ctrl+Q starts
    /// quitting; a motion key moves the cursor; anything else, and every event
    /// once quitting, changes nothing.
    pub fn evaluate_event(&mut self, event: &Event, size: Size, terminal: &mut Terminal)
        ensures
            final(self)@ == dispatch(old(self)@, *event, size),
            final(terminal)@ == old(terminal)@ + dispatch_ops(old(self)@, *event, size),
    {
        if self.should_quit {
            assert(old(terminal)@ + Seq::empty() =~= old(terminal)@);
            return;
        }
        if let Event::Key(KeyEvent { code, modifiers, kind: KeyEventKind::Press }) = event {
            let control_only = modifiers.control && !modifiers.shift && !modifiers.alt
                && !modifiers.super_key && !modifiers.hyper && !modifiers.meta;
            match code {
                KeyCode::Char('q') if control_only => {
                    self.should_quit = true;
                    assert(old(terminal)@ + Seq::empty() =~= old(terminal)@);
                },
                KeyCode::Left
                | KeyCode::Right
                | KeyCode::Up
                | KeyCode::Down
                | KeyCode::PageUp
                | KeyCode::PageDown
                | KeyCode::Home
                | KeyCode::End => {
                    self.move_cursor(*code, size, terminal);
                    assert(terminal@ =~= old(terminal)@ + dispatch_ops(old(self)@, *event, size));
                },
                _ => {
                    assert(old(terminal)@ + Seq::empty() =~= old(terminal)@);
                },
            }
        } else {
            assert(old(terminal)@ + Seq::empty() =~= old(terminal)@);
        }
    }

    /// Queues one frame: the farewell once quitting, otherwise the editing
    /// screen with the cursor in its place, all between hiding and showing the cursor.
    pub fn refresh_screen(&self, size: Size, name: &str, version: &str, terminal: &mut Terminal)
        ensures
            final(terminal)@ == old(terminal)@ + frame_ops(self@, size, name, version),
    {
        terminal.hide_cursor();
        if self.should_quit {
            terminal.clear_screen();
            terminal.print("Goodbye!\r\n");
        } else {
            Self::draw_rows(size, name, version, terminal);
            terminal.move_cursor_to(self.cursor_position);
        }
        terminal.show_cursor();
        assert(terminal@ =~= old(terminal)@ + frame_ops(self@, size, name, version));
    }

    /// Queues the welcome banner: `name` and `version`, each centred on the screen's
    /// width, on rows `rows / 3` and `rows / 3 + 1`.
    pub fn draw_welcome_message(size: Size, name: &str, version: &str, terminal: &mut Terminal)
        ensures
            final(terminal)@ == old(terminal)@ + welcome_ops(size, name, version),
    {
        let Size { columns, rows } = size;
        terminal.move_cursor_to(Position { column: Self::banner_column(columns, name.len()), row: rows / 3 });
        terminal.print(name);
        terminal.move_cursor_to(Position { column: Self::banner_column(columns, version.len()), row: rows / 3 + 1 });
        terminal.print(version);
        assert(terminal@ =~= old(terminal)@ + welcome_ops(size, name, version));
    }

    /// The column at which a text of `len` bytes starts when centred on `columns`.
    pub fn banner_column(columns: u16, len: usize) -> (r: u16)
        ensures
            r == banner_column(columns, len as nat),
    {
        let half: usize = len / 2;
        if half >= (columns / 2) as usize {
            0
        } else {
            columns / 2 - half as u16
        }
    }

    /// Queues the editing screen: from the top-left corner, each row is cleared and
    /// shows a tilde, with a line break between rows but none after the last; then
    /// the welcome banner.
    pub fn draw_rows(size: Size, name: &str, version: &str, terminal: &mut Terminal)
        ensures
            final(terminal)@ == old(terminal)@ + screen_ops(size, name, version),
    {
        terminal.move_cursor_to(Position { row: 0, column: 0 });
        let rows = size.rows;
        let ghost start = terminal@;
        let mut i: u16 = 0;
        while i < rows
            invariant
                i <= rows,
                terminal@ == start + rows_ops(i as nat, rows as nat),
            decreases rows - i,
        {
            terminal.clear_line();
            terminal.print("~");
            if i + 1 < rows {
                terminal.print("\r\n");
            }
            assert(terminal@ =~= start + rows_ops((i + 1) as nat, rows as nat));
            i = i + 1;
        }
        Self::draw_welcome_message(size, name, version, terminal);
        assert(terminal@ =~= old(terminal)@ + screen_ops(size, name, version));
    }
}

} // verus!
