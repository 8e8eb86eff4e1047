//! Properties that hold across calls: cursor bounds over any run of events,
//! the effect of Home and End, the finality of quitting, banner centring and
//! the shape of the placeholder rows.

use vstd::prelude::*;

use crate::editor::{
    banner_column, dispatch, dispatch_all, dispatch_ops, farewell, frame_ops, row_ops,
    rows_ops, EditorView, Event, KeyCode, KeyEvent, KeyEventKind,
};
use crate::terminal::{CommandView, Size};

verus! {

/// From a column within `[1, columns - 1]`, any run of events on a screen of a
/// fixed size (Left and Right presses among them) leaves the column in that range:
/// it never falls under the left margin nor passes the right edge.
pub proof fn lemma_column_stays_in_bounds(e: EditorView, events: Seq<Event>, size: Size)
    requires
        1 <= e.cursor_position.column,
        e.cursor_position.column < size.columns,
    ensures
        1 <= dispatch_all(e, events, size).cursor_position.column,
        dispatch_all(e, events, size).cursor_position.column < size.columns,
    decreases events.len(),
{
    if events.len() > 0 {
        lemma_column_stays_in_bounds(dispatch(e, events[0], size), events.drop_first(), size);
    }
}

/// From a row within `[0, rows - 1]`, any run of events on a screen of a fixed
/// size (Up and Down presses among them) leaves the row in that range.
pub proof fn lemma_row_stays_in_bounds(e: EditorView, events: Seq<Event>, size: Size)
    requires
        e.cursor_position.row < size.rows,
    ensures
        dispatch_all(e, events, size).cursor_position.row < size.rows,
    decreases events.len(),
{
    if events.len() > 0 {
        lemma_row_stays_in_bounds(dispatch(e, events[0], size), events.drop_first(), size);
    }
}

/// Pressing Home puts the cursor on row 0, and pressing End on row `rows - 1`,
/// wherever the cursor was; the column stays.
pub proof fn lemma_home_and_end(e: EditorView, k: KeyEvent, size: Size)
    requires
        !e.should_quit,
        k.kind == KeyEventKind::Press,
        k.code == KeyCode::Home || k.code == KeyCode::End,
    ensures
        k.code == KeyCode::Home ==> dispatch(e, Event::Key(k), size).cursor_position.row == 0,
        k.code == KeyCode::End && size.rows >= 1 ==> dispatch(e, Event::Key(k), size).cursor_position.row
            == size.rows - 1,
        dispatch(e, Event::Key(k), size).cursor_position.column == e.cursor_position.column,
{
}

/// Issuing Home twice in a row gives the same state as issuing it once.
pub proof fn lemma_home_is_idempotent(e: EditorView, k: KeyEvent, size: Size)
    requires
        k.code == KeyCode::Home,
    ensures
        dispatch(dispatch(e, Event::Key(k), size), Event::Key(k), size) == dispatch(e, Event::Key(k), size),
{
}

/// Quitting is one way: once the quit flag is set, no event changes the state or
/// queues anything, however many follow, and the frame drawn is the farewell.
pub proof fn lemma_quit_is_final(
    e: EditorView,
    event: Event,
    events: Seq<Event>,
    size: Size,
    name: &str,
    version: &str,
)
    requires
        e.should_quit,
    ensures
        dispatch(e, event, size) == e,
        dispatch_ops(e, event, size) == Seq::<CommandView>::empty(),
        dispatch_all(e, events, size) == e,
        frame_ops(e, size, name, version) == seq![
            CommandView::HideCursor,
            CommandView::ClearAll,
            CommandView::Print(farewell()),
            CommandView::ShowCursor,
        ],
    decreases events.len(),
{
    if events.len() > 0 {
        lemma_quit_is_final(e, event, events.drop_first(), size, name, version);
    }
}

/// A text longer than the screen is wide starts at column 0: the centring
/// offset saturates instead of wrapping.
pub proof fn lemma_banner_column_saturates(columns: u16, len: nat)
    requires
        len > columns,
    ensures
        banner_column(columns, len) == 0,
{
}

/// The first `n` of `rows` placeholder rows take three commands each while a
/// row follows them, and the last row two.
proof fn lemma_rows_ops_len(n: nat, rows: nat)
    requires
        n <= rows,
    ensures
        rows_ops(n, rows).len() == if n == rows && rows > 0 { 3 * n - 1 } else { 3 * n as int },
    decreases n,
{
    if n > 0 {
        lemma_rows_ops_len((n - 1) as nat, rows);
    }
}

/// For any `rows >= 1`, drawing the placeholder rows ends with the last row's
/// tilde, never with a line break: `rows - 1` breaks for `rows` rows, in
/// `3 * rows - 1` commands.
pub proof fn lemma_no_trailing_line_break(rows: nat)
    requires
        rows >= 1,
    ensures
        rows_ops(rows, rows).last() == CommandView::Print("~"@),
        rows_ops(rows, rows).len() == 3 * rows - 1,
{
    lemma_rows_ops_len(rows, rows);
    assert(row_ops((rows - 1) as nat, rows) =~= seq![CommandView::ClearLine, CommandView::Print("~"@)]);
}

} // verus!
