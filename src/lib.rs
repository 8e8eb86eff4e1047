//! A terminal text editor's core: a batched terminal command buffer and the
//! editor's cursor / quit state machine that renders frames into it.

pub mod editor;
pub mod lemmas;
pub mod terminal;

pub use editor::{Editor, EditorView, Event, KeyCode, KeyEvent, KeyEventKind, KeyModifiers};
pub use terminal::{Command, CommandView, Position, Size, Terminal};
