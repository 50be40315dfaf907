use super::terminal::{line_commands, move_to, CommandView, Coordinates, Terminal};
use buffer::{Buffer, GREETING};
use vstd::prelude::*;
use vstd::view::View as _;

pub mod buffer;

verus! {

/// The name shown on the welcome screen.
pub const EDITOR_NAME: &'static str = "Ecto";

/// The version shown on the welcome screen, after a `v`.
pub const EDITOR_VERSION: &'static str = "0.0";

/// One row of a frame: the text that is painted on row `at`, from its first
/// column on.
pub struct Row {
    pub at: usize,
    pub text: Seq<char>,
}

/// The commands that paint `rows`, one row after the other.
pub open spec fn commands(rows: Seq<Row>) -> Seq<CommandView> {
    rows.map_values(|row: Row| line_commands(row.at, row.text)).flatten()
}

/// The first `width` characters of `line`, or all of it when it has fewer.
pub open spec fn clipped(line: Seq<char>, width: usize) -> Seq<char> {
    line.take(vstd::math::min(line.len() as int, width as int))
}

/// The rows that show a document on a screen of the given size. Row `at`
/// holds line `at`, clipped to the width; there are as many rows as the
/// screen has, or as the document has lines if those are fewer.
pub open spec fn buffer_rows(lines: Seq<Seq<char>>, size: Coordinates) -> Seq<Row> {
    Seq::new(
        vstd::math::min(size.y as int, lines.len() as int) as nat,
        |at: int| Row { at: at as usize, text: clipped(lines[at], size.x) },
    )
}

/// The rows of a screen without a document: a `~` on each of the first
/// `height` rows.
pub open spec fn empty_rows(height: usize) -> Seq<Row> {
    Seq::new(height as nat, |at: int| Row { at: at as usize, text: "~"@ })
}

/// How many spaces stand between the `~` and the text of a welcome line on a
/// screen `width` columns wide: half of what the editor's name leaves free,
/// rounded down, less the column of the `~`.
pub open spec fn welcome_padding(width: usize) -> nat {
    let free = if width > EDITOR_NAME@.len() {
        width - EDITOR_NAME@.len()
    } else {
        0
    };
    if free / 2 > 0 {
        (free / 2 - 1) as nat
    } else {
        0
    }
}

/// A welcome line: a `~`, the padding, then `label`.
pub open spec fn welcome_line(width: usize, label: Seq<char>) -> Seq<char> {
    "~"@ + Seq::new(welcome_padding(width), |i: int| ' ') + label
}

/// The two rows of the welcome message on a screen of the given size: the
/// name a third of the way down, the version on the row below it.
pub open spec fn welcome_rows(size: Coordinates) -> Seq<Row> {
    seq![
        Row { at: (size.y / 3) as usize, text: welcome_line(size.x, EDITOR_NAME@) },
        Row {
            at: (size.y / 3 + 1) as usize,
            text: welcome_line(size.x, "v"@ + EDITOR_VERSION@),
        },
    ]
}

/// The whole welcome screen: the empty rows, then the welcome message over
/// them.
pub open spec fn welcome_screen(size: Coordinates) -> Seq<Row> {
    empty_rows(size.y) + welcome_rows(size)
}

/// Everything a repaint paints: the welcome screen for a document without
/// lines, the document's rows otherwise.
pub open spec fn full_frame(lines: Seq<Seq<char>>, size: Coordinates) -> Seq<Row> {
    if lines.len() == 0 {
        welcome_screen(size)
    } else {
        buffer_rows(lines, size)
    }
}

/// A [`View`] as contracts see it.
pub struct ViewState {
    /// The lines of the document.
    pub lines: Seq<Seq<char>>,
    /// Whether the screen no longer shows what it should.
    pub needs_redraw: bool,
    /// The size of the screen, as last told.
    pub size: Coordinates,
}

impl ViewState {
    /// Whether the screen has any cell to paint.
    pub open spec fn paintable(self) -> bool {
        self.size.x > 0 && self.size.y > 0
    }

    /// The rows that [`View::render_full`] paints in this state: the full
    /// frame if a redraw is due and the screen has cells, nothing otherwise.
    pub open spec fn frame(self) -> Seq<Row> {
        if self.needs_redraw && self.paintable() {
            full_frame(self.lines, self.size)
        } else {
            Seq::empty()
        }
    }

    /// The state that [`View::render_full`] leaves: no redraw is due any
    /// more, unless the screen had no cells to paint.
    pub open spec fn rendered(self) -> ViewState {
        ViewState { needs_redraw: self.needs_redraw && !self.paintable(), ..self }
    }

    /// The rows that [`View::initialize`] paints in this state: the empty
    /// screen, then the welcome message for a document without lines and a
    /// frame of the document otherwise.
    pub open spec fn first_frame(self) -> Seq<Row> {
        empty_rows(self.size.y) + if self.lines.len() == 0 {
            welcome_rows(self.size)
        } else {
            self.frame()
        }
    }

    /// The state that [`View::initialize`] leaves.
    pub open spec fn initialized(self) -> ViewState {
        if self.lines.len() == 0 {
            self
        } else {
            self.rendered()
        }
    }

    /// The state after [`View::resize`].
    pub open spec fn resized(self, to: Coordinates) -> ViewState {
        ViewState { needs_redraw: true, size: to, ..self }
    }

    /// The state after [`View::load`].
    pub open spec fn loaded(self, lines: Seq<Seq<char>>) -> ViewState {
        ViewState { needs_redraw: true, lines, ..self }
    }
}

/// The part of the editor that paints the document. It remembers the size of
/// the screen and whether a repaint is due, so that rendering on every turn
/// of the session costs nothing while nothing has changed.
pub struct View {
    buffer: Buffer,
    needs_redraw: bool,
    size: Coordinates,
}

impl vstd::view::View for View {
    type V = ViewState;

    closed spec fn view(&self) -> ViewState {
        ViewState { lines: self.buffer@, needs_redraw: self.needs_redraw, size: self.size }
    }
}

/// Painting no rows queues nothing: the queue stays as it is.
pub proof fn lemma_commands_of_no_rows(rows: Seq<Row>, queue: Seq<CommandView>)
    requires
        rows.len() == 0,
    ensures
        commands(rows) == Seq::<CommandView>::empty(),
        queue + commands(rows) == queue,
{
    assert(commands(rows) =~= Seq::<CommandView>::empty());
    assert(queue + commands(rows) =~= queue);
}

/// Painting one more row adds its commands after those of the rows before.
pub proof fn lemma_commands_push(rows: Seq<Row>, row: Row)
    ensures
        commands(rows.push(row)) == commands(rows) + line_commands(row.at, row.text),
{
    let paint = |row: Row| line_commands(row.at, row.text);
    assert(rows.push(row).map_values(paint) =~= rows.map_values(paint).push(paint(row)));
    rows.map_values(paint).lemma_flatten_push(paint(row));
}

/// Painting two runs of rows in turn is painting them as one.
pub proof fn lemma_commands_concat(first: Seq<Row>, second: Seq<Row>)
    ensures
        commands(first + second) == commands(first) + commands(second),
{
    let paint = |row: Row| line_commands(row.at, row.text);
    assert((first + second).map_values(paint) =~= first.map_values(paint) + second.map_values(
        paint,
    ));
    vstd::seq_lib::lemma_flatten_concat(first.map_values(paint), second.map_values(paint));
}

/// Every row is painted by three commands of its own: a move to the start
/// of the row, a clearing of the row, and the writing of its text.
pub proof fn lemma_commands_layout(rows: Seq<Row>)
    ensures
        commands(rows).len() == 3 * rows.len(),
        forall|i: int|
            0 <= i < rows.len() ==> {
                &&& commands(rows)[3 * i] == move_to(Coordinates { x: 0, y: (#[trigger] rows[i]).at })
                &&& commands(rows)[3 * i + 1] == CommandView::ClearLine
                &&& commands(rows)[3 * i + 2] == CommandView::Print(rows[i].text)
            },
    decreases rows.len(),
{
    if rows.len() == 0 {
        lemma_commands_of_no_rows(rows, Seq::empty());
    } else {
        let front = rows.drop_last();
        let last = rows.last();
        assert(rows =~= front.push(last));
        lemma_commands_layout(front);
        lemma_commands_push(front, last);
        assert forall|i: int| 0 <= i < rows.len() implies {
            &&& commands(rows)[3 * i] == move_to(Coordinates { x: 0, y: (#[trigger] rows[i]).at })
            &&& commands(rows)[3 * i + 1] == CommandView::ClearLine
            &&& commands(rows)[3 * i + 2] == CommandView::Print(rows[i].text)
        } by {
            if i < front.len() {
                assert(front[i] == rows[i]);
            }
        }
    }
}

/// Rendering twice in a row paints at most once: right after a call of
/// [`View::render_full`], another call queues nothing and changes nothing.
pub proof fn lemma_render_full_twice(state: ViewState)
    ensures
        commands(state.rendered().frame()) == Seq::<CommandView>::empty(),
        state.rendered().rendered() == state.rendered(),
{
    lemma_commands_of_no_rows(state.rendered().frame(), Seq::empty());
}

/// What is written on a row that shows a line of the document is the start
/// of that line: all of it if it fits the width of the screen, and as many
/// characters as the screen is wide if it does not.
pub proof fn lemma_painted_text_is_clipped(lines: Seq<Seq<char>>, size: Coordinates, row: int)
    requires
        0 <= row < buffer_rows(lines, size).len(),
    ensures
        row < lines.len(),
        buffer_rows(lines, size)[row].at == row,
        buffer_rows(lines, size)[row].text.len() == vstd::math::min(
            lines[row].len() as int,
            size.x as int,
        ),
        buffer_rows(lines, size)[row].text == lines[row].subrange(
            0,
            vstd::math::min(lines[row].len() as int, size.x as int),
        ),
        commands(buffer_rows(lines, size))[3 * row + 2] == CommandView::Print(
            clipped(lines[row], size.x),
        ),
{
    lemma_commands_layout(buffer_rows(lines, size));
}

/// The welcome screen is painted for a document without lines and for no
/// other: [`View::render_full`] paints it exactly when a repaint is due, the
/// screen has cells, and the document has no lines. A document with a line
/// gets its own rows, whatever its lines hold.
pub proof fn lemma_welcome_iff_no_lines(state: ViewState)
    ensures
        state.frame() == welcome_screen(state.size) <==> state.lines.len() == 0
            && state.needs_redraw && state.paintable(),
        state.lines.len() > 0 && state.needs_redraw && state.paintable() ==> state.frame()
            == buffer_rows(state.lines, state.size),
{
    let welcome = welcome_screen(state.size);
    assert(welcome.len() == state.size.y + 2);
    assert(buffer_rows(state.lines, state.size).len() <= state.size.y);
}

/// A resize always leads to a full repaint, also when the size is the one
/// the view had: the next call of [`View::render_full`] paints the whole
/// frame for the new size, provided that a screen of that size has cells.
pub proof fn lemma_resize_forces_repaint(state: ViewState, to: Coordinates)
    requires
        to.x > 0,
        to.y > 0,
    ensures
        state.resized(to).frame() == full_frame(state.lines, to),
        state.resized(to).frame().len() > 0,
        commands(state.resized(to).frame()).len() > 0,
{
    lemma_commands_layout(state.resized(to).frame());
}

/// `count` spaces.
fn spaces(count: usize) -> (padding: String)
    ensures
        padding@ == Seq::new(count as nat, |i: int| ' '),
{
    let mut padding = String::new();
    for done in 0..count
        invariant
            padding@ == Seq::new(done as nat, |i: int| ' '),
    {
        proof {
            reveal_strlit(" ");
        }
        padding.append(" ");
        assert(padding@ =~= Seq::new((done + 1) as nat, |i: int| ' '));
    }
    padding
}

/// The text that is painted for `line` on a screen `width` columns wide.
fn clip(line: &str, width: usize) -> (text: &str)
    ensures
        text@ == clipped(line@, width),
        text@.len() == vstd::math::min(line@.len() as int, width as int),
{
    let length = line.unicode_len();
    if length >= width {
        line.substring_char(0, width)
    } else {
        assert(line@.take(line@.len() as int) =~= line@);
        line
    }
}

impl View {
    /// A view of the greeting document on a screen of the given size, with a
    /// repaint due.
    pub fn new(size: Coordinates) -> (view: Self)
        ensures
            view@ == (ViewState { lines: seq![GREETING@], needs_redraw: true, size }),
    {
        View { buffer: Buffer::default(), needs_redraw: true, size }
    }

    /// Paints the screen for the first time: the empty screen, and over it
    /// the welcome message if the document has no lines, a frame of the
    /// document if it has.
    pub fn initialize(&mut self, terminal: &mut Terminal)
        ensures
            final(terminal)@ == old(terminal)@ + commands(old(self)@.first_frame()),
            final(self)@ == old(self)@.initialized(),
    {
        self.draw_empty_screen(terminal);
        if self.buffer.is_empty() {
            self.draw_welcome_message(terminal);
        } else {
            self.render_full(terminal);
        }
        proof {
            let state = old(self)@;
            let rest = if state.lines.len() == 0 {
                welcome_rows(state.size)
            } else {
                state.frame()
            };
            lemma_commands_concat(empty_rows(state.size.y), rest);
            assert(terminal@ =~= old(terminal)@ + commands(state.first_frame()));
        }
    }

    /// Repaints the screen if a repaint is due, and does nothing if none is.
    ///
    /// A screen without cells cannot be painted: then nothing is queued and
    /// the repaint stays due. Otherwise a document without lines gets the
    /// welcome screen, and any other gets its lines, each clipped to the
    /// width of the screen, on the rows from the top; rows below the last
    /// line are left as they are. After that no repaint is due.
    pub fn render_full(&mut self, terminal: &mut Terminal)
        ensures
            final(terminal)@ == old(terminal)@ + commands(old(self)@.frame()),
            final(self)@ == old(self)@.rendered(),
    {
        if !self.needs_redraw {
            proof {
                lemma_commands_of_no_rows(self@.frame(), terminal@);
            }
            return ;
        }
        let width = self.size.x;
        let height = self.size.y;
        if height == 0 || width == 0 {
            proof {
                lemma_commands_of_no_rows(self@.frame(), terminal@);
            }
            return ;
        }
        if self.buffer.is_empty() {
            self.draw_empty_screen(terminal);
            self.draw_welcome_message(terminal);
            self.needs_redraw = false;
            proof {
                lemma_commands_concat(empty_rows(height), welcome_rows(self.size));
                assert(terminal@ =~= old(terminal)@ + commands(welcome_screen(self.size)));
            }
            return ;
        }
        let ghost lines = self.buffer@;
        proof {
            lemma_commands_of_no_rows(buffer_rows(lines, Coordinates { x: width, y: 0 }), terminal@);
        }
        for current_row in 0..height
            invariant
                lines == self.buffer@,
                terminal@ == old(terminal)@ + commands(
                    buffer_rows(lines, Coordinates { x: width, y: current_row }),
                ),
        {
            let ghost painted = buffer_rows(lines, Coordinates { x: width, y: current_row });
            let ghost longer = buffer_rows(
                lines,
                Coordinates { x: width, y: (current_row + 1) as usize },
            );
            if current_row < self.buffer.data.len() {
                let truncated_line = clip(self.buffer.data[current_row].as_str(), width);
                Self::render_line(terminal, current_row, truncated_line);
                proof {
                    let row = Row { at: current_row, text: truncated_line@ };
                    assert(longer =~= painted.push(row));
                    lemma_commands_push(painted, row);
                    assert(terminal@ =~= old(terminal)@ + commands(longer));
                }
            } else {
                assert(longer =~= painted);
            }
        }
        self.needs_redraw = false;
    }

    /// Paints `text` on row `at`, over whatever the row held.
    pub fn render_line(terminal: &mut Terminal, at: usize, text: &str)
        ensures
            final(terminal)@ == old(terminal)@ + line_commands(at, text@),
    {
        terminal.write_line(at, text);
    }

    /// Takes `buffer` as the document to show. A repaint is then due.
    pub fn load(&mut self, buffer: Buffer)
        ensures
            final(self)@ == old(self)@.loaded(buffer@),
    {
        self.buffer = buffer;
        self.needs_redraw = true;
    }

    /// Takes `to` as the size of the screen. A repaint is then due, also if
    /// the size is the one it had.
    pub fn resize(&mut self, to: Coordinates)
        ensures
            final(self)@ == old(self)@.resized(to),
    {
        self.size = to;
        self.needs_redraw = true;
    }

    fn draw_welcome_message(&self, terminal: &mut Terminal)
        ensures
            final(terminal)@ == old(terminal)@ + commands(welcome_rows(self@.size)),
    {
        let width = self.size.x;
        let height = self.size.y;
        let welcome_strlen = EDITOR_NAME.unicode_len();
        let editor_line = height / 3;
        let version_line = editor_line.saturating_add(1);
        let padding_count = (width.saturating_sub(welcome_strlen) / 2).saturating_sub(1);
        let padding = spaces(padding_count);

        let mut editor_text = "~".to_owned();
        editor_text.append(padding.as_str());
        editor_text.append(EDITOR_NAME);
        Self::render_line(terminal, editor_line, editor_text.as_str());

        let mut version_text = "~".to_owned();
        version_text.append(padding.as_str());
        version_text.append("v");
        version_text.append(EDITOR_VERSION);
        Self::render_line(terminal, version_line, version_text.as_str());

        proof {
            let name = Row { at: editor_line, text: editor_text@ };
            let version = Row { at: version_line, text: version_text@ };
            assert(version_text@ =~= welcome_line(width, "v"@ + EDITOR_VERSION@));
            assert(welcome_rows(self@.size) =~= Seq::<Row>::empty().push(name).push(version));
            lemma_commands_push(Seq::<Row>::empty(), name);
            lemma_commands_push(Seq::<Row>::empty().push(name), version);
            lemma_commands_of_no_rows(Seq::<Row>::empty(), terminal@);
            assert(terminal@ =~= old(terminal)@ + commands(welcome_rows(self@.size)));
        }
    }

    fn draw_empty_screen(&self, terminal: &mut Terminal)
        ensures
            final(terminal)@ == old(terminal)@ + commands(empty_rows(self@.size.y)),
    {
        let height = self.size.y;
        proof {
            lemma_commands_of_no_rows(empty_rows(0), terminal@);
        }
        for n in 0..height
            invariant
                terminal@ == old(terminal)@ + commands(empty_rows(n)),
        {
            Self::render_line(terminal, n, "~");
            proof {
                let row = Row { at: n, text: "~"@ };
                assert(empty_rows((n + 1) as usize) =~= empty_rows(n).push(row));
                lemma_commands_push(empty_rows(n), row);
                assert(terminal@ =~= old(terminal)@ + commands(empty_rows((n + 1) as usize)));
            }
        }
    }
}

impl Default for View {
    /// A view of the greeting document on a screen whose size is not known
    /// yet, and so has no cells.
    fn default() -> (view: Self)
        ensures
            view@ == (ViewState {
                lines: seq![GREETING@],
                needs_redraw: true,
                size: Coordinates { x: 0, y: 0 },
            }),
    {
        View::new(Coordinates::default())
    }
}

} // verus!
