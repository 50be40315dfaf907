use caret::{move_caret, moved};
use event::{Event, KeyCode, KeyEvent, KeyEventKind};
use terminal::{move_to, CommandView, Coordinates, Terminal};
use view::buffer::{split_lines, Buffer, GREETING};
use view::{commands, ViewState};
use vstd::prelude::*;
use vstd::utf8::{decode_utf8, valid_utf8};

pub mod caret;
pub mod event;
pub mod terminal;
pub mod view;

verus! {

/// An [`Editor`] as contracts see it.
pub struct EditorState {
    /// Whether the session is over.
    pub should_quit: bool,
    /// Where the caret is.
    pub caret: Coordinates,
    /// The state of the view.
    pub view: ViewState,
}

/// The view that a session starts from on a screen of the given size: it
/// shows the document in `file` if there is one and its bytes are UTF-8, and
/// the greeting otherwise.
pub open spec fn opening_view(size: Coordinates, file: Option<&[u8]>) -> ViewState {
    let greeting = ViewState { lines: seq![GREETING@], needs_redraw: true, size };
    match file {
        Some(contents) if valid_utf8(contents@) => greeting.loaded(
            split_lines(decode_utf8(contents@)),
        ),
        _ => greeting,
    }
}

impl EditorState {
    /// The state after `event`, which arrived while the terminal had the
    /// size `bounds`.
    ///
    /// A press of `q` with control alone ends the session. A press of a
    /// navigation key moves the caret within `bounds`. A resize gives the
    /// view its new size. Nothing else changes anything.
    pub open spec fn after_event(self, event: Event, bounds: Coordinates) -> EditorState {
        match event {
            Event::Key(key) => {
                if key.quits() {
                    EditorState { should_quit: true, ..self }
                } else if key.moves_caret() {
                    EditorState { caret: moved(self.caret, key.code, bounds), ..self }
                } else {
                    self
                }
            },
            Event::Resize(columns, rows) => EditorState {
                view: self.view.resized(Coordinates { x: columns as usize, y: rows as usize }),
                ..self
            },
            Event::Other => self,
        }
    }

    /// What [`Editor::refresh_screen`] queues in this state: with the cursor
    /// hidden, the frame that is due, then the cursor on the caret and shown.
    pub open spec fn screen_update(self) -> Seq<CommandView> {
        seq![CommandView::Hide] + commands(self.view.frame()) + seq![
            move_to(self.caret),
            CommandView::Show,
        ]
    }

    /// The state that [`Editor::refresh_screen`] leaves.
    pub open spec fn refreshed(self) -> EditorState {
        EditorState { view: self.view.rendered(), ..self }
    }

    /// The state in which the screen is refreshed on a turn of the session:
    /// the one after the turn's event, if it brought one.
    pub open spec fn answered(self, event: Option<Event>, bounds: Coordinates) -> EditorState {
        match event {
            Some(event) => self.after_event(event, bounds),
            None => self,
        }
    }

    /// The state after a turn of the session. A session that is over stays
    /// as it is; any other answers the event and refreshes the screen.
    pub open spec fn after_turn(self, event: Option<Event>, bounds: Coordinates) -> EditorState {
        if self.should_quit {
            self
        } else {
            self.answered(event, bounds).refreshed()
        }
    }

    /// What a turn of the session queues: nothing once the session is over,
    /// and else the screen update for the state that answers the event.
    pub open spec fn turn_output(self, event: Option<Event>, bounds: Coordinates) -> Seq<
        CommandView,
    > {
        if self.should_quit {
            Seq::empty()
        } else {
            self.answered(event, bounds).screen_update()
        }
    }
}

/// Leaving is final: no event brings a session back that is over, and a
/// turn of such a session changes nothing and queues nothing.
pub proof fn lemma_quit_is_final(state: EditorState, event: Option<Event>, bounds: Coordinates)
    requires
        state.should_quit,
    ensures
        state.answered(event, bounds).should_quit,
        state.after_turn(event, bounds) == state,
        state.turn_output(event, bounds) == Seq::<CommandView>::empty(),
{
}

/// A session of the editor: the view, the caret, and whether the user has
/// asked to leave.
pub struct Editor {
    should_quit: bool,
    caret_position: Coordinates,
    view: view::View,
}

impl View for Editor {
    type V = EditorState;

    closed spec fn view(&self) -> EditorState {
        EditorState {
            should_quit: self.should_quit,
            caret: self.caret_position,
            view: self.view@,
        }
    }
}

impl Editor {
    /// Starts a session on a terminal of the given size.
    ///
    /// `file` holds the bytes of the file to show, if one was named and could
    /// be read. If they are UTF-8 the session shows their lines; in every
    /// other case it shows the greeting. The terminal is cleared and the
    /// screen painted for the first time; the caret starts in the top-left
    /// corner.
    pub fn new(terminal: &mut Terminal, size: Coordinates, file: Option<&[u8]>) -> (editor: Self)
        ensures
            editor@ == (EditorState {
                should_quit: false,
                caret: Coordinates { x: 0, y: 0 },
                view: opening_view(size, file).initialized(),
            }),
            final(terminal)@ == old(terminal)@ + seq![
                CommandView::ClearScreen,
                move_to(Coordinates { x: 0, y: 0 }),
            ] + commands(opening_view(size, file).first_frame()),
    {
        terminal.initialize();
        let mut view = view::View::new(size);
        if let Some(contents) = file {
            if let Ok(buffer) = Buffer::load(contents) {
                view.load(buffer);
            }
        }
        view.initialize(terminal);
        Editor { should_quit: false, caret_position: Coordinates::default(), view }
    }

    /// Takes one turn of the session: answers `event`, if the turn brought
    /// one, and refreshes the screen. Tells whether the session goes on.
    ///
    /// `bounds` is the size of the terminal as the event arrived; only an
    /// event that moves the caret looks at it. On the turn that ends the
    /// session the screen is still refreshed. After that a turn does nothing.
    pub fn run(
        &mut self,
        terminal: &mut Terminal,
        event: Option<Event>,
        bounds: Coordinates,
    ) -> (running: bool)
        ensures
            final(self)@ == old(self)@.after_turn(event, bounds),
            final(terminal)@ == old(terminal)@ + old(self)@.turn_output(event, bounds),
            running == !final(self)@.should_quit,
    {
        if self.should_quit {
            assert(terminal@ =~= old(terminal)@ + Seq::<CommandView>::empty());
            return false;
        }
        if let Some(event) = event {
            self.evaluate_event(&event, bounds);
        }
        self.refresh_screen(terminal);
        !self.should_quit
    }

    /// Answers one event, which arrived while the terminal had the size
    /// `bounds`.
    pub fn evaluate_event(&mut self, event: &Event, bounds: Coordinates)
        ensures
            final(self)@ == old(self)@.after_event(*event, bounds),
    {
        match event {
            Event::Key(KeyEvent { code, kind: KeyEventKind::Press, modifiers }) => {
                match code {
                    KeyCode::Char('q') if modifiers.is_only_control() => {
                        self.should_quit = true;
                    },
                    KeyCode::Up
                    | KeyCode::Down
                    | KeyCode::Left
                    | KeyCode::Right
                    | KeyCode::PageDown
                    | KeyCode::PageUp
                    | KeyCode::Home
                    | KeyCode::End => {
                        self.handle_move_caret(*code, bounds);
                    },
                    _ => {},
                }
            },
            Event::Resize(width_u16, height_u16) => {
                let height = *height_u16 as usize;
                let width = *width_u16 as usize;
                self.view.resize(Coordinates { x: width, y: height });
            },
            _ => {},
        }
    }

    /// Puts the caret on `coordinates`.
    pub fn update_caret_position(&mut self, coordinates: Coordinates)
        ensures
            final(self)@ == (EditorState { caret: coordinates, ..old(self)@ }),
    {
        self.caret_position = coordinates;
    }

    /// Moves the caret as `key_code` asks, within a terminal of the size
    /// `bounds`.
    pub fn handle_move_caret(&mut self, key_code: KeyCode, bounds: Coordinates)
        ensures
            final(self)@ == (EditorState {
                caret: moved(old(self)@.caret, key_code, bounds),
                ..old(self)@
            }),
    {
        let caret = move_caret(self.caret_position, key_code, bounds);
        self.update_caret_position(caret);
    }

    /// Brings the screen up to date: repaints what is due with the cursor
    /// hidden, then shows the cursor on the caret.
    pub fn refresh_screen(&mut self, terminal: &mut Terminal)
        ensures
            final(self)@ == old(self)@.refreshed(),
            final(terminal)@ == old(terminal)@ + old(self)@.screen_update(),
    {
        terminal.hide_cursor();
        self.view.render_full(terminal);
        terminal.move_cursor_to(self.caret_position);
        terminal.show_cursor();
        assert(terminal@ =~= old(terminal)@ + old(self)@.screen_update());
    }

    /// Queues the farewell, if the session ended because the user asked to
    /// leave.
    pub fn farewell(&self, terminal: &mut Terminal)
        ensures
            final(terminal)@ == if self@.should_quit {
                old(terminal)@.push(CommandView::Print("Goodbye\r\n"@))
            } else {
                old(terminal)@
            },
    {
        if self.should_quit {
            terminal.write("Goodbye\r\n");
        }
    }

    /// Whether the user has asked to leave.
    pub fn should_quit(&self) -> (quit: bool)
        ensures
            quit == self@.should_quit,
    {
        self.should_quit
    }

    /// Where the caret is.
    pub fn caret_position(&self) -> (caret: Coordinates)
        ensures
            caret == self@.caret,
    {
        self.caret_position
    }
}

} // verus!
