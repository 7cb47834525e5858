//! The modes of interaction.

use vstd::prelude::*;

verus! {

/// What the next key means.
#[derive(Debug, PartialEq, Eq)]
pub enum Mode {
    /// Keys edit the text.
    Insert,
    /// A notification is on display; the next key clears it and is then
    /// handled as in `Insert`.
    Message(String),
    /// The user is composing an answer: the caption, then the answer so far.
    Prompt(String, String),
    /// The session is over. No key is handled in this mode.
    Exit,
}

/// A mode with its texts as sequences of characters.
pub enum ModeView {
    Insert,
    Message(Seq<char>),
    Prompt(Seq<char>, Seq<char>),
    Exit,
}

impl View for Mode {
    type V = ModeView;

    open spec fn view(&self) -> ModeView {
        match *self {
            Mode::Insert => ModeView::Insert,
            Mode::Message(text) => ModeView::Message(text@),
            Mode::Prompt(label, buffer) => ModeView::Prompt(label@, buffer@),
            Mode::Exit => ModeView::Exit,
        }
    }
}

} // verus!
