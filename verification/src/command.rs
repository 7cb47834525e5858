//! The dispatcher: one mode, and a handler for each mode that takes keys.

use vstd::prelude::*;
use vstd::string::StringExecFns;
use crate::content::{pasted, Editable, Movement, Saveable, Undoable};
use crate::key::Key;
use crate::mode::{Mode, ModeView};
use crate::screen::{Screen, ScreenView, StatusView};

verus! {

/// The caption of the prompt that asks where to save.
pub open spec fn save_label() -> Seq<char> {
    "Save to: "@
}

/// What a confirmation says in front of the name.
pub open spec fn saved_prefix() -> Seq<char> {
    "Saved file "@
}

/// The text that a clipboard reading carries; none where nothing was read.
pub open spec fn clipboard_text(clipboard: Option<String>) -> Seq<char> {
    match clipboard {
        Some(text) => text@,
        None => Seq::empty(),
    }
}

/// A text without its last character; the empty text stays empty.
pub open spec fn without_last(text: Seq<char>) -> Seq<char> {
    if text.len() == 0 {
        text
    } else {
        text.drop_last()
    }
}

/// Whether handling `key` in `mode` reads the clipboard.
pub open spec fn reads_clipboard(mode: ModeView, key: Key) -> bool {
    key.is_paste() && (mode is Insert || mode is Message)
}

/// The mode that follows `key` in insert mode, for a content named `name`.
pub open spec fn insert_mode(key: Key, name: Seq<char>) -> ModeView {
    if key.is_quit() {
        ModeView::Exit
    } else if key.is_save() {
        ModeView::Prompt(save_label(), name)
    } else {
        ModeView::Insert
    }
}

/// The content after `key` in insert mode, with `lines` text lines in sight
/// and `clipboard` as the text to paste.
pub open spec fn insert_content<T: Editable + Undoable>(
    m: T::Model,
    key: Key,
    lines: nat,
    clipboard: Seq<char>,
) -> T::Model {
    match key {
        Key::Ctrl(c) => if c == 'z' {
            T::undone(m)
        } else if c == 'y' {
            T::redone(m)
        } else if c == 'v' {
            pasted::<T>(m, clipboard)
        } else {
            m
        },
        Key::Up => T::stepped(m, Movement::Up),
        Key::Down => T::stepped(m, Movement::Down),
        Key::Left => T::stepped(m, Movement::Left),
        Key::Right => T::stepped(m, Movement::Right),
        Key::PageUp => T::stepped(m, Movement::PageUp(lines as usize)),
        Key::PageDown => T::stepped(m, Movement::PageDown(lines as usize)),
        Key::Home => T::stepped(m, Movement::LineStart),
        Key::End => T::stepped(m, Movement::LineEnd),
        Key::Backspace => T::deleted(m),
        Key::Char(c) => T::inserted(m, c),
        Key::Other => m,
    }
}

/// The screen after `key` in insert mode, for a content named `name`.
pub open spec fn insert_screen(shown: ScreenView, key: Key, name: Seq<char>) -> ScreenView {
    if key.is_save() {
        shown.showing(StatusView::Prompt(save_label(), name))
    } else {
        shown
    }
}

/// One key handled in insert mode: the mode, content and screen that follow.
pub open spec fn insert_step<T: Editable + Saveable + Undoable>(
    before: T::Model,
    shown: ScreenView,
    key: Key,
    clipboard: Seq<char>,
    mode: ModeView,
    after: T::Model,
    showing: ScreenView,
) -> bool {
    &&& mode == insert_mode(key, T::name_of(before)@)
    &&& after == insert_content::<T>(before, key, shown.lines, clipboard)
    &&& showing == insert_screen(shown, key, T::name_of(before)@)
}

/// One key handled while a notification is on display: the notification is
/// cleared, and the key is handled as in insert mode.
pub open spec fn message_step<T: Editable + Saveable + Undoable>(
    before: T::Model,
    shown: ScreenView,
    key: Key,
    clipboard: Seq<char>,
    mode: ModeView,
    after: T::Model,
    showing: ScreenView,
) -> bool {
    insert_step::<T>(
        before,
        shown.showing(StatusView::Quiet),
        key,
        clipboard,
        mode,
        after,
        showing,
    )
}

/// The mode that follows `key` in a prompt, for every key but Enter.
pub open spec fn prompt_mode(label: Seq<char>, buffer: Seq<char>, key: Key) -> ModeView {
    match key {
        Key::Char(c) => ModeView::Prompt(label, buffer.push(c)),
        Key::Backspace => ModeView::Prompt(label, without_last(buffer)),
        Key::Ctrl(c) => if c == 'q' {
            ModeView::Exit
        } else {
            ModeView::Prompt(label, buffer)
        },
        _ => ModeView::Prompt(label, buffer),
    }
}

/// The screen after `key` in a prompt, for every key but Enter: a key that
/// changes the answer has the prompt shown again.
pub open spec fn prompt_screen(
    shown: ScreenView,
    label: Seq<char>,
    buffer: Seq<char>,
    key: Key,
) -> ScreenView {
    match key {
        Key::Char(c) => shown.showing(StatusView::Prompt(label, buffer.push(c))),
        Key::Backspace => shown.showing(StatusView::Prompt(label, without_last(buffer))),
        _ => shown,
    }
}

/// An attempt to save under the name `buffer` that ended with `outcome`:
/// the content was offered for storing under that name, storing left it as
/// `kept`, and what followed was decided by the outcome.
pub open spec fn confirm_with<T: Saveable>(
    outcome: Result<(), String>,
    offered: T::Model,
    kept: T::Model,
    before: T::Model,
    shown: ScreenView,
    buffer: Seq<char>,
    mode: ModeView,
    after: T::Model,
    showing: ScreenView,
) -> bool {
    &&& T::name_of(offered)@ == buffer
    &&& T::stored(offered, outcome, kept)
    &&& T::name_of(kept)@ == buffer
    &&& mode matches ModeView::Message(text)
    &&& save_concluded::<T>(outcome, T::name_of(before)@, kept, after, text)
    &&& showing == shown.showing(StatusView::Message(text))
}

/// Enter in a prompt with the answer `buffer`: an attempt to save under that
/// name, with whatever outcome storing had.
pub open spec fn confirm_step<T: Saveable>(
    before: T::Model,
    shown: ScreenView,
    buffer: Seq<char>,
    mode: ModeView,
    after: T::Model,
    showing: ScreenView,
) -> bool {
    exists|outcome: Result<(), String>, offered: T::Model, kept: T::Model| #[trigger]
        confirm_with::<T>(outcome, offered, kept, before, shown, buffer, mode, after, showing)
}

/// One key handled in the prompt `label` with the answer `buffer` so far.
pub open spec fn prompt_step<T: Saveable>(
    label: Seq<char>,
    buffer: Seq<char>,
    before: T::Model,
    shown: ScreenView,
    key: Key,
    mode: ModeView,
    after: T::Model,
    showing: ScreenView,
) -> bool {
    if key.is_enter() {
        confirm_step::<T>(before, shown, buffer, mode, after, showing)
    } else {
        &&& mode == prompt_mode(label, buffer, key)
        &&& after == before
        &&& showing == prompt_screen(shown, label, buffer, key)
    }
}

/// One key handled in `from`, whichever mode that is.
pub open spec fn step<T: Editable + Saveable + Undoable>(
    from: ModeView,
    before: T::Model,
    shown: ScreenView,
    key: Key,
    clipboard: Seq<char>,
    mode: ModeView,
    after: T::Model,
    showing: ScreenView,
) -> bool {
    match from {
        ModeView::Insert => insert_step::<T>(before, shown, key, clipboard, mode, after, showing),
        ModeView::Message(_) => message_step::<T>(
            before,
            shown,
            key,
            clipboard,
            mode,
            after,
            showing,
        ),
        ModeView::Prompt(label, buffer) => prompt_step::<T>(
            label,
            buffer,
            before,
            shown,
            key,
            mode,
            after,
            showing,
        ),
        ModeView::Exit => false,
    }
}

/// What an attempt to save reports, and the content it leaves, once the
/// outcome is known: on success the content is untouched and the text names
/// it; on failure the content is named `former` again and the text is the
/// failure's description.
pub open spec fn save_concluded<T: Saveable>(
    outcome: Result<(), String>,
    former: Seq<char>,
    before: T::Model,
    after: T::Model,
    text: Seq<char>,
) -> bool {
    match outcome {
        Ok(_) => after == before && text == saved_prefix() + T::name_of(before)@,
        Err(description) => T::name_of(after)@ == former && text == description@,
    }
}

/// Inserts every character of `text` at the cursor, first to last.
pub fn paste<T: Editable>(content: &mut T, text: &String)
    ensures
        final(content).model() == pasted::<T>(old(content).model(), text@),
{
    let ghost before = content.model();
    for c in it: text.as_str().chars()
        invariant
            it.seq() == text@,
            content.model() == pasted::<T>(before, text@.take(it.index() as int)),
    {
        assert(text@.take(it.index() + 1).drop_last() == text@.take(it.index() as int));
        content.insert(c);
    }
    assert(text@.take(text@.len() as int) == text@);
}

/// Ends an attempt to save whose outcome is known: after a failure the
/// content gets its former name back. Shows and returns the notification.
pub fn conclude_save<T: Saveable>(
    content: &mut T,
    screen: &mut Screen,
    outcome: Result<(), String>,
    former: String,
) -> (text: String)
    ensures
        save_concluded::<T>(outcome, former@, old(content).model(), final(content).model(), text@),
        final(screen)@ == old(screen)@.showing(StatusView::Message(text@)),
{
    let text = match outcome {
        Err(description) => {
            content.set_name(former);
            description
        },
        Ok(_) => {
            let mut text = String::from_str("Saved file ");
            text.append(content.name().as_str());
            text
        },
    };
    screen.message(&text);
    text
}

/// Handles one key in insert mode.
pub fn treat_insert_event<T>(
    content: &mut T,
    screen: &mut Screen,
    key: Key,
    clipboard: Option<String>,
    state: &mut Mode,
) where T: Editable + Saveable + Undoable
    requires
        key.is_paste() ==> clipboard is Some,
    ensures
        insert_step::<T>(
            old(content).model(),
            old(screen)@,
            key,
            clipboard_text(clipboard),
            final(state)@,
            final(content).model(),
            final(screen)@,
        ),
{
    match key {
        Key::Ctrl('q') => {
            *state = Mode::Exit;
        },
        Key::Ctrl('s') => {
            let prompt = String::from_str("Save to: ");
            let message = content.name().clone();
            screen.prompt(&prompt, &message);
            *state = Mode::Prompt(prompt, message);
        },
        key => {
            match key {
                Key::Ctrl('z') => content.undo(),
                Key::Ctrl('y') => content.redo(),
                Key::Ctrl('v') => {
                    match clipboard {
                        Some(text) => paste(content, &text),
                        None => {},
                    }
                },
                Key::Up => content.step(Movement::Up),
                Key::Down => content.step(Movement::Down),
                Key::Left => content.step(Movement::Left),
                Key::Right => content.step(Movement::Right),
                Key::PageUp => content.step(Movement::PageUp(screen.lines_height() as usize)),
                Key::PageDown => content.step(Movement::PageDown(screen.lines_height() as usize)),
                Key::Home => content.step(Movement::LineStart),
                Key::End => content.step(Movement::LineEnd),
                Key::Backspace => content.delete(),
                Key::Char(c) => content.insert(c),
                _ => {},
            }
            *state = Mode::Insert;
        },
    }
}

/// Handles one key while a notification is on display.
pub fn treat_message_event<T>(
    content: &mut T,
    screen: &mut Screen,
    key: Key,
    clipboard: Option<String>,
    state: &mut Mode,
) where T: Editable + Saveable + Undoable
    requires
        key.is_paste() ==> clipboard is Some,
    ensures
        message_step::<T>(
            old(content).model(),
            old(screen)@,
            key,
            clipboard_text(clipboard),
            final(state)@,
            final(content).model(),
            final(screen)@,
        ),
{
    screen.quiet();
    treat_insert_event(content, screen, key, clipboard, state)
}

/// Handles one key in a prompt.
pub fn treat_prompt_event<T>(content: &mut T, screen: &mut Screen, key: Key, state: &mut Mode) where
    T: Editable + Saveable + Undoable,

    requires
        old(state)@ is Prompt,
    ensures
        prompt_step::<T>(
            old(state)@->Prompt_0,
            old(state)@->Prompt_1,
            old(content).model(),
            old(screen)@,
            key,
            final(state)@,
            final(content).model(),
            final(screen)@,
        ),
{
    match state {
        Mode::Prompt(prompt, message) => match key {
            Key::Char('\n') => {
                let old_name = content.name().clone();
                content.set_name(message.clone());
                let ghost offered = content.model();
                let outcome = content.save();
                let ghost kept = content.model();
                let msg = conclude_save(content, screen, outcome, old_name);
                assert(confirm_with::<T>(
                    outcome,
                    offered,
                    kept,
                    old(content).model(),
                    old(screen)@,
                    message@,
                    ModeView::Message(msg@),
                    content.model(),
                    screen@,
                ));
                *state = Mode::Message(msg);
            },
            Key::Char(c) => {
                message.push(c);
                screen.prompt(prompt, message);
            },
            Key::Backspace => {
                message.pop();
                screen.prompt(prompt, message);
            },
            Key::Ctrl('q') => {
                *state = Mode::Exit;
            },
            _ => {},
        },
        _ => {},
    }
}

/// The dispatcher. It starts in insert mode and is done once it has reached
/// `Exit`.
pub struct Command {
    state: Mode,
}

impl View for Command {
    type V = ModeView;

    closed spec fn view(&self) -> ModeView {
        self.state@
    }
}

impl Command {
    /// A dispatcher in insert mode.
    pub fn new() -> (command: Command)
        ensures
            command@ == ModeView::Insert,
    {
        Command { state: Mode::Insert }
    }

    /// The current mode.
    pub fn mode(&self) -> (mode: &Mode)
        ensures
            mode@ == self@,
    {
        &self.state
    }

    /// Whether `treat_event` needs the clipboard's text to handle `key`.
    pub fn reads_clipboard(&self, key: Key) -> (reads: bool)
        ensures
            reads == reads_clipboard(self@, key),
    {
        match key {
            Key::Ctrl('v') => match self.state {
                Mode::Insert => true,
                Mode::Message(_) => true,
                _ => false,
            },
            _ => false,
        }
    }

    /// Handles one key in the current mode. Returns `true` when the session
    /// is over; no further key may be handed in after that.
    pub fn treat_event<T>(
        &mut self,
        content: &mut T,
        screen: &mut Screen,
        key: Key,
        clipboard: Option<String>,
    ) -> (exit: bool) where T: Editable + Saveable + Undoable
        requires
            !(old(self)@ is Exit),
            reads_clipboard(old(self)@, key) ==> clipboard is Some,
        ensures
            step::<T>(
                old(self)@,
                old(content).model(),
                old(screen)@,
                key,
                clipboard_text(clipboard),
                final(self)@,
                final(content).model(),
                final(screen)@,
            ),
            exit == (final(self)@ is Exit),
    {
        match self.state {
            Mode::Insert => treat_insert_event(content, screen, key, clipboard, &mut self.state),
            Mode::Prompt(_, _) => treat_prompt_event(content, screen, key, &mut self.state),
            Mode::Message(_) => treat_message_event(
                content,
                screen,
                key,
                clipboard,
                &mut self.state,
            ),
            Mode::Exit => {},
        }
        if let Mode::Exit = self.state {
            return true;
        }
        false
    }
}

} // verus!
