//! Key events as the dispatcher sees them.

use vstd::prelude::*;

verus! {

/// One key press.
///
/// Only the keys that some mode reacts to have a variant of their own; every
/// other key a terminal can report is `Other`. Enter arrives as `Char('\n')`.
#[derive(Clone, Copy, Debug, PartialEq, Eq, Structural)]
pub enum Key {
    Backspace,
    Left,
    Right,
    Up,
    Down,
    Home,
    End,
    PageUp,
    PageDown,
    /// A character typed without a modifier.
    Char(char),
    /// A character typed while Ctrl is held.
    Ctrl(char),
    /// Any key without a meaning of its own.
    Other,
}

impl Key {
    /// The key that confirms a prompt.
    pub open spec fn is_enter(self) -> bool {
        self == Key::Char('\n')
    }

    /// The key that ends the session.
    pub open spec fn is_quit(self) -> bool {
        self == Key::Ctrl('q')
    }

    /// The key that opens the save prompt.
    pub open spec fn is_save(self) -> bool {
        self == Key::Ctrl('s')
    }

    /// The key that pastes the clipboard.
    pub open spec fn is_paste(self) -> bool {
        self == Key::Ctrl('v')
    }
}

} // verus!
