use vstd::prelude::*;

verus! {

/// The terminal's size in character cells.
#[derive(Clone, Copy, PartialEq, Eq, Structural, Debug)]
pub struct Size {
    pub columns: u16,
    pub rows: u16,
}

/// A 0-indexed cell on the screen.
#[derive(Clone, Copy, PartialEq, Eq, Structural, Debug)]
pub struct Position {
    pub column: u16,
    pub row: u16,
}

/// One queued terminal operation.
#[derive(PartialEq, Eq, Debug)]
pub enum Command {
    MoveTo(Position),
    ClearAll,
    ClearLine,
    HideCursor,
    ShowCursor,
    Print(String),
}

/// The mathematical value of a [`Command`]: printed text is a character sequence.
pub enum CommandView {
    MoveTo(Position),
    ClearAll,
    ClearLine,
    HideCursor,
    ShowCursor,
    Print(Seq<char>),
}

impl View for Command {
    type V = CommandView;

    open spec fn view(&self) -> CommandView {
        match self {
            Command::MoveTo(p) => CommandView::MoveTo(*p),
            Command::ClearAll => CommandView::ClearAll,
            Command::ClearLine => CommandView::ClearLine,
            Command::HideCursor => CommandView::HideCursor,
            Command::ShowCursor => CommandView::ShowCursor,
            Command::Print(s) => CommandView::Print(s@),
        }
    }
}

/// The terminal adapter: editor-level intents are queued here as commands and
/// handed over as one batch by [`Terminal::execute`], so that a frame reaches the
/// device in a single flush.
pub struct Terminal {
    pending: Vec<Command>,
}

impl View for Terminal {
    type V = Seq<CommandView>;

    /// The commands queued since the last flush, oldest first.
    closed spec fn view(&self) -> Seq<CommandView> {
        self.pending@.map_values(|c: Command| c@)
    }
}

impl Terminal {
    /// A terminal adapter with nothing queued.
    pub fn new() -> (r: Terminal)
        ensures
            r@ == Seq::<CommandView>::empty(),
    {
        let r = Terminal { pending: Vec::new() };
        assert(r@ =~= Seq::<CommandView>::empty());
        r
    }

    /// A freshly started session: the screen clear is queued first.
    pub fn initialize() -> (r: Terminal)
        ensures
            r@ == seq![CommandView::ClearAll],
    {
        let mut r = Terminal::new();
        r.clear_screen();
        r
    }

    /// Appends `command` to the batch.
    pub fn queue_command(&mut self, command: Command)
        ensures
            final(self)@ == old(self)@.push(command@),
    {
        self.pending.push(command);
        assert(self@ =~= old(self)@.push(command@));
    }

    pub fn clear_screen(&mut self)
        ensures
            final(self)@ == old(self)@.push(CommandView::ClearAll),
    {
        self.queue_command(Command::ClearAll);
    }

    pub fn clear_line(&mut self)
        ensures
            final(self)@ == old(self)@.push(CommandView::ClearLine),
    {
        self.queue_command(Command::ClearLine);
    }

    pub fn move_cursor_to(&mut self, position: Position)
        ensures
            final(self)@ == old(self)@.push(CommandView::MoveTo(position)),
    {
        self.queue_command(Command::MoveTo(position));
    }

    pub fn hide_cursor(&mut self)
        ensures
            final(self)@ == old(self)@.push(CommandView::HideCursor),
    {
        self.queue_command(Command::HideCursor);
    }

    pub fn show_cursor(&mut self)
        ensures
            final(self)@ == old(self)@.push(CommandView::ShowCursor),
    {
        self.queue_command(Command::ShowCursor);
    }

    /// Queues `text` as is: no line break or wrapping is added.
    pub fn print(&mut self, text: &str)
        ensures
            final(self)@ == old(self)@.push(CommandView::Print(text@)),
    {
        self.queue_command(Command::Print(text.to_owned()));
    }

    /// Hands over every queued command, oldest first, and leaves the batch empty.
    pub fn execute(&mut self) -> (batch: Vec<Command>)
        ensures
            batch@.map_values(|c: Command| c@) == old(self)@,
            final(self)@ == Seq::<CommandView>::empty(),
    {
        let mut batch: Vec<Command> = Vec::new();
        core::mem::swap(&mut batch, &mut self.pending);
        assert(self@ =~= Seq::<CommandView>::empty());
        batch
    }
}

} // verus!
