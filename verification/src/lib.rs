//! The core of a small terminal text viewer: a buffer of lines, a view that
//! paints them, a caret that stays on the grid, and the rules that tie them
//! to keyboard and resize events.
//!
//! Nothing here touches a real terminal. Painting appends [`Command`]s to a
//! [`Terminal`] queue, and input arrives as plain [`Event`] values, so every
//! function is a function of its arguments and is proved against its
//! contract. The program around this library owns the real terminal: it reads
//! the events, and sends what [`Terminal::flush_queue`] hands out.

pub mod editor;

pub use editor::caret::move_caret;
pub use editor::event::{Event, KeyCode, KeyEvent, KeyEventKind, KeyModifiers};
pub use editor::terminal::{Command, Coordinates, Terminal};
pub use editor::view::buffer::{Buffer, LoadError, GREETING};
pub use editor::view::{View, EDITOR_NAME, EDITOR_VERSION};
pub use editor::Editor;
