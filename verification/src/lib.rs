//! The interaction core of a terminal text editor.
//!
//! The crate turns key presses into cursor movement, document edits,
//! incremental search and recovery snapshots, and keeps the visible window in
//! step with the text. It performs no input or output itself: every operation
//! is a transition of [`Editor`] that takes an event and the current time, and
//! names the outside work that the session waits for as a [`Request`].

pub mod document;
pub mod editor;
pub mod key;
pub mod model;
pub mod prompt;
pub mod screen;
pub mod status;
pub mod text;
pub mod viewport;

pub use document::{Document, Row};
pub use editor::{Editor, Mode, Position, Request, SearchDirection, Size, Startup};
pub use key::Key;
pub use screen::Frame;
pub use status::StatusMessage;
