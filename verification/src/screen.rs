//! What the dispatcher shows: the notification line, and the number of text
//! lines in sight. Drawing it on a terminal is left to the caller.

use vstd::prelude::*;

verus! {

/// The content of the notification line.
#[derive(Debug, PartialEq, Eq)]
pub enum Status {
    /// Nothing is shown.
    Quiet,
    /// A notification.
    Message(String),
    /// A caption and the answer typed so far.
    Prompt(String, String),
}

/// A notification line with its texts as sequences of characters.
pub enum StatusView {
    Quiet,
    Message(Seq<char>),
    Prompt(Seq<char>, Seq<char>),
}

impl View for Status {
    type V = StatusView;

    open spec fn view(&self) -> StatusView {
        match *self {
            Status::Quiet => StatusView::Quiet,
            Status::Message(text) => StatusView::Message(text@),
            Status::Prompt(label, text) => StatusView::Prompt(label@, text@),
        }
    }
}

/// The screen as the dispatcher knows it.
pub struct Screen {
    status: Status,
    lines: u16,
}

/// A screen as plain values.
pub struct ScreenView {
    pub status: StatusView,
    /// The number of text lines in sight.
    pub lines: nat,
}

impl ScreenView {
    /// The same screen with another notification line.
    pub open spec fn showing(self, status: StatusView) -> ScreenView {
        ScreenView { status, lines: self.lines }
    }
}

impl View for Screen {
    type V = ScreenView;

    closed spec fn view(&self) -> ScreenView {
        ScreenView { status: self.status@, lines: self.lines as nat }
    }
}

impl Screen {
    /// A screen with `lines_height` text lines and an empty notification line.
    pub fn new(lines_height: u16) -> (screen: Screen)
        ensures
            screen@ == (ScreenView { status: StatusView::Quiet, lines: lines_height as nat }),
    {
        Screen { status: Status::Quiet, lines: lines_height }
    }

    /// Shows a prompt: its caption and the answer so far.
    pub fn prompt(&mut self, label: &String, text: &String)
        ensures
            final(self)@ == old(self)@.showing(StatusView::Prompt(label@, text@)),
    {
        self.status = Status::Prompt(label.clone(), text.clone());
    }

    /// Shows a notification.
    pub fn message(&mut self, text: &String)
        ensures
            final(self)@ == old(self)@.showing(StatusView::Message(text@)),
    {
        self.status = Status::Message(text.clone());
    }

    /// Clears the notification line.
    pub fn quiet(&mut self)
        ensures
            final(self)@ == old(self)@.showing(StatusView::Quiet),
    {
        self.status = Status::Quiet;
    }

    /// The number of text lines in sight.
    pub fn lines_height(&self) -> (lines: u16)
        ensures
            lines as nat == self@.lines,
    {
        self.lines
    }

    /// What the notification line holds.
    pub fn status(&self) -> (status: &Status)
        ensures
            status@ == self@.status,
    {
        &self.status
    }
}

} // verus!
