//! The key dispatcher of a terminal text editor.
//!
//! A [`Command`] holds the current [`Mode`] and, for each key, edits the
//! content, updates what the screen shows, or ends the session.

pub mod command;
pub mod content;
pub mod key;
pub mod laws;
pub mod mode;
pub mod screen;
pub mod text;

pub use crate::command::Command;
pub use crate::key::Key;
pub use crate::mode::Mode;
pub use crate::screen::{Screen, Status};
