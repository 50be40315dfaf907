use vstd::prelude::*;

verus! {

/// The key of a key event. Keys that the editor gives no meaning to are all
/// `Other`.
#[derive(Copy, Clone, Debug, PartialEq, Eq, Structural)]
pub enum KeyCode {
    Char(char),
    Up,
    Down,
    Left,
    Right,
    PageUp,
    PageDown,
    Home,
    End,
    Other,
}

/// The modifier keys held down while a key event happened.
#[derive(Copy, Clone, Debug, PartialEq, Eq, Structural)]
pub struct KeyModifiers {
    pub shift: bool,
    pub control: bool,
    pub alt: bool,
    pub super_key: bool,
    pub hyper: bool,
    pub meta: bool,
}

/// Whether a key went down, is being held, or came up.
#[derive(Copy, Clone, Debug, PartialEq, Eq, Structural)]
pub enum KeyEventKind {
    Press,
    Repeat,
    Release,
}

/// A key, the modifiers held with it, and what happened to it.
#[derive(Copy, Clone, Debug, PartialEq, Eq, Structural)]
pub struct KeyEvent {
    pub code: KeyCode,
    pub modifiers: KeyModifiers,
    pub kind: KeyEventKind,
}

/// Something that happened at the terminal.
#[derive(Copy, Clone, Debug, PartialEq, Eq, Structural)]
pub enum Event {
    Key(KeyEvent),
    /// The terminal now has this many columns and rows.
    Resize(u16, u16),
    /// Anything the editor does not react to.
    Other,
}

impl KeyModifiers {
    /// Control and nothing else.
    pub open spec fn only_control(self) -> bool {
        self == (KeyModifiers {
            shift: false,
            control: true,
            alt: false,
            super_key: false,
            hyper: false,
            meta: false,
        })
    }

    /// Whether control is held and no other modifier is.
    pub fn is_only_control(&self) -> (only: bool)
        ensures
            only == self.only_control(),
    {
        self.control && !self.shift && !self.alt && !self.super_key && !self.hyper && !self.meta
    }
}

impl KeyCode {
    /// The keys that move the caret.
    pub open spec fn navigates(self) -> bool {
        self is Up || self is Down || self is Left || self is Right || self is PageUp
            || self is PageDown || self is Home || self is End
    }

    /// Whether this key moves the caret.
    pub fn is_navigation(&self) -> (navigation: bool)
        ensures
            navigation == self.navigates(),
    {
        match self {
            KeyCode::Up
            | KeyCode::Down
            | KeyCode::Left
            | KeyCode::Right
            | KeyCode::PageUp
            | KeyCode::PageDown
            | KeyCode::Home
            | KeyCode::End => true,
            _ => false,
        }
    }
}

impl KeyEvent {
    /// The key press that ends the session: `q` with control and no other
    /// modifier.
    pub open spec fn quits(self) -> bool {
        self.kind is Press && self.code == KeyCode::Char('q') && self.modifiers.only_control()
    }

    /// A press of a navigation key. The modifiers make no difference.
    pub open spec fn moves_caret(self) -> bool {
        self.kind is Press && self.code.navigates()
    }
}

impl Event {
    /// Whether the editor answers this event by moving the caret, and so has
    /// to be told the terminal's size along with it.
    pub open spec fn moves_caret(self) -> bool {
        self matches Event::Key(key) && key.moves_caret()
    }

    /// Whether this event moves the caret. Only then does the size of the
    /// terminal matter to [`Editor::evaluate_event`](crate::Editor::evaluate_event).
    pub fn needs_bounds(&self) -> (needed: bool)
        ensures
            needed == self.moves_caret(),
    {
        match self {
            Event::Key(key) => match key.kind {
                KeyEventKind::Press => key.code.is_navigation(),
                _ => false,
            },
            _ => false,
        }
    }
}

} // verus!
