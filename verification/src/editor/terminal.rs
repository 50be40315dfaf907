use vstd::prelude::*;

verus! {

/// A cell of the terminal grid. `x` is the column and `y` the row; `(0, 0)` is
/// the top-left corner and both grow toward the bottom right. The same type
/// serves as a size, `x` columns wide and `y` rows high.
#[derive(Copy, Clone, Debug, PartialEq, Eq, Structural)]
pub struct Coordinates {
    pub x: usize,
    pub y: usize,
}

impl Default for Coordinates {
    fn default() -> (origin: Self)
        ensures
            origin == (Coordinates { x: 0, y: 0 }),
    {
        Coordinates { x: 0, y: 0 }
    }
}

/// One instruction for the terminal, in the terminal's own units.
#[derive(Debug, PartialEq, Eq)]
pub enum Command {
    /// Put the cursor on the given cell.
    MoveTo { column: u16, row: u16 },
    /// Stop showing the cursor.
    Hide,
    /// Show the cursor again.
    Show,
    /// Blank the whole screen.
    ClearScreen,
    /// Blank the row the cursor is on.
    ClearLine,
    /// Write text at the cursor.
    Print(String),
}

/// A [`Command`] as contracts see it: the same instruction, its text a
/// sequence of characters.
pub enum CommandView {
    MoveTo { column: u16, row: u16 },
    Hide,
    Show,
    ClearScreen,
    ClearLine,
    Print(Seq<char>),
}

impl View for Command {
    type V = CommandView;

    open spec fn view(&self) -> CommandView {
        match self {
            Command::MoveTo { column, row } => CommandView::MoveTo { column: *column, row: *row },
            Command::Hide => CommandView::Hide,
            Command::Show => CommandView::Show,
            Command::ClearScreen => CommandView::ClearScreen,
            Command::ClearLine => CommandView::ClearLine,
            Command::Print(text) => CommandView::Print(text@),
        }
    }
}

impl Clone for Command {
    fn clone(&self) -> (copy: Self)
        ensures
            copy@ == self@,
    {
        match self {
            Command::MoveTo { column, row } => Command::MoveTo { column: *column, row: *row },
            Command::Hide => Command::Hide,
            Command::Show => Command::Show,
            Command::ClearScreen => Command::ClearScreen,
            Command::ClearLine => Command::ClearLine,
            Command::Print(text) => Command::Print(text.clone()),
        }
    }
}

/// The views of a run of commands, in order.
pub open spec fn command_views(commands: Seq<Command>) -> Seq<CommandView> {
    Seq::new(commands.len(), |i: int| commands[i]@)
}

/// The largest coordinate that the terminal can address.
pub const NATIVE_MAX: u16 = 0xFFFF;

/// The terminal coordinate that a grid coordinate lands on: itself where the
/// terminal can address it, and the terminal's largest coordinate where it
/// lies beyond. So the cells that can be reached are those of the narrower
/// of the two ranges, and nothing fails or wraps around.
pub open spec fn native(coordinate: usize) -> u16 {
    if coordinate > NATIVE_MAX {
        NATIVE_MAX
    } else {
        coordinate as u16
    }
}

/// A coordinate within the terminal's range lands on itself. So what the
/// terminal reports as a size or a cell comes back unchanged when the cursor
/// is sent there.
pub proof fn lemma_native_round_trip(coordinate: u16)
    ensures
        native(coordinate as usize) == coordinate,
{
}

/// The cursor move that reaches `position`.
pub open spec fn move_to(position: Coordinates) -> CommandView {
    CommandView::MoveTo { column: native(position.x), row: native(position.y) }
}

/// What painting one row queues: go to the start of the row, blank it, write.
pub open spec fn line_commands(row: usize, text: Seq<char>) -> Seq<CommandView> {
    seq![
        move_to(Coordinates { x: 0, y: row }),
        CommandView::ClearLine,
        CommandView::Print(text),
    ]
}

/// Brings a grid coordinate into the terminal's range.
fn to_native(coordinate: usize) -> (reached: u16)
    ensures
        reached == native(coordinate),
{
    if coordinate > NATIVE_MAX as usize {
        NATIVE_MAX
    } else {
        coordinate as u16
    }
}

/// The commands waiting to be sent to the terminal, oldest first. Its view is
/// that queue.
///
/// Every operation only appends; nothing reaches the screen until the owner
/// of the real terminal takes the queue with [`Terminal::flush_queue`] and
/// carries it out.
pub struct Terminal {
    queue: Vec<Command>,
}

impl View for Terminal {
    type V = Seq<CommandView>;

    closed spec fn view(&self) -> Seq<CommandView> {
        command_views(self.queue@)
    }
}

impl Terminal {
    /// A terminal with nothing queued.
    pub fn new() -> (terminal: Self)
        ensures
            terminal@ == Seq::<CommandView>::empty(),
    {
        let terminal = Terminal { queue: Vec::new() };
        assert(terminal@ =~= Seq::<CommandView>::empty());
        terminal
    }

    /// Queues the start-up state: a blank screen with the cursor in the
    /// top-left corner.
    pub fn initialize(&mut self)
        ensures
            final(self)@ == old(self)@ + seq![
                CommandView::ClearScreen,
                move_to(Coordinates { x: 0, y: 0 }),
            ],
    {
        self.clear_screen();
        self.move_cursor_to(Coordinates { x: 0, y: 0 });
    }

    /// Queues the hiding of the cursor.
    pub fn hide_cursor(&mut self)
        ensures
            final(self)@ == old(self)@.push(CommandView::Hide),
    {
        self.queue_command(Command::Hide);
    }

    /// Queues the showing of the cursor.
    pub fn show_cursor(&mut self)
        ensures
            final(self)@ == old(self)@.push(CommandView::Show),
    {
        self.queue_command(Command::Show);
    }

    /// Queues the blanking of the whole screen.
    pub fn clear_screen(&mut self)
        ensures
            final(self)@ == old(self)@.push(CommandView::ClearScreen),
    {
        self.queue_command(Command::ClearScreen);
    }

    /// Queues the blanking of the row that the cursor is on.
    pub fn clear_line(&mut self)
        ensures
            final(self)@ == old(self)@.push(CommandView::ClearLine),
    {
        self.queue_command(Command::ClearLine);
    }

    /// Queues a cursor move to `position`. A coordinate beyond the terminal's
    /// range stops at the largest that the terminal can address.
    pub fn move_cursor_to(&mut self, position: Coordinates)
        ensures
            final(self)@ == old(self)@.push(move_to(position)),
    {
        let column = to_native(position.x);
        let row = to_native(position.y);
        self.queue_command(Command::MoveTo { column, row });
    }

    /// Queues `text` to be written at the cursor.
    pub fn write(&mut self, text: &str)
        ensures
            final(self)@ == old(self)@.push(CommandView::Print(text@)),
    {
        self.queue_command(Command::Print(text.to_owned()));
    }

    /// Queues the painting of one row: the cursor goes to its first cell, the
    /// row is blanked, and `text` is written.
    pub fn write_line(&mut self, row: usize, text: &str)
        ensures
            final(self)@ == old(self)@ + line_commands(row, text@),
    {
        self.move_cursor_to(Coordinates { x: 0, y: row });
        self.clear_line();
        self.write(text);
    }

    /// Appends one command to the queue.
    pub fn queue_command(&mut self, command: Command)
        ensures
            final(self)@ == old(self)@.push(command@),
    {
        self.queue.push(command);
        assert(self@ =~= old(self)@.push(command@));
    }

    /// Hands out everything queued, oldest first, and leaves the queue empty.
    /// The caller sends the commands to the terminal.
    pub fn flush_queue(&mut self) -> (flushed: Vec<Command>)
        ensures
            command_views(flushed@) == old(self)@,
            final(self)@ == Seq::<CommandView>::empty(),
    {
        let mut flushed = Vec::new();
        core::mem::swap(&mut self.queue, &mut flushed);
        assert(self@ =~= Seq::<CommandView>::empty());
        flushed
    }

    /// The size of a terminal that reports `columns` by `rows`. Every size
    /// that a terminal can report fits.
    pub fn size(columns: u16, rows: u16) -> (size: Coordinates)
        ensures
            size == (Coordinates { x: columns as usize, y: rows as usize }),
    {
        Coordinates { x: columns as usize, y: rows as usize }
    }
}

} // verus!
