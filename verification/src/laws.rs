//! What holds of the dispatcher whatever content it works on.
//!
//! Each statement is over the relations of `command`, which are what the
//! handlers promise of every call.

use vstd::prelude::*;
use crate::command::{
    confirm_with, insert_mode, prompt_step, save_label, saved_prefix, step,
};
use crate::content::{Editable, Saveable, Undoable};
use crate::key::Key;
use crate::mode::ModeView;
use crate::screen::{ScreenView, StatusView};

verus! {

/// Ctrl-Q ends the session from every mode that takes keys, and leaves the
/// content as it was.
pub proof fn quit_ends_session<T: Editable + Saveable + Undoable>(
    from: ModeView,
    before: T::Model,
    shown: ScreenView,
    clipboard: Seq<char>,
    mode: ModeView,
    after: T::Model,
    showing: ScreenView,
)
    requires
        step::<T>(from, before, shown, Key::Ctrl('q'), clipboard, mode, after, showing),
    ensures
        mode is Exit,
        after == before,
{
}

/// No key is handled once the session is over.
pub proof fn exit_is_final<T: Editable + Saveable + Undoable>(
    before: T::Model,
    shown: ScreenView,
    key: Key,
    clipboard: Seq<char>,
    mode: ModeView,
    after: T::Model,
    showing: ScreenView,
)
    ensures
        !step::<T>(ModeView::Exit, before, shown, key, clipboard, mode, after, showing),
{
}

/// A key that arrives while a notification is on display is handled exactly
/// as in insert mode on a screen whose notification line was cleared first.
/// The notification's text has no part in it, and no notification follows.
pub proof fn message_clears_then_inserts<T: Editable + Saveable + Undoable>(
    text: Seq<char>,
    before: T::Model,
    shown: ScreenView,
    key: Key,
    clipboard: Seq<char>,
    mode: ModeView,
    after: T::Model,
    showing: ScreenView,
)
    ensures
        step::<T>(ModeView::Message(text), before, shown, key, clipboard, mode, after, showing)
            <==> step::<T>(
            ModeView::Insert,
            before,
            shown.showing(StatusView::Quiet),
            key,
            clipboard,
            mode,
            after,
            showing,
        ),
        step::<T>(ModeView::Message(text), before, shown, key, clipboard, mode, after, showing)
            ==> !(mode is Message) && (key.is_save() || showing.status is Quiet),
{
}

/// Insert mode never leads to a notification.
pub proof fn insert_never_notifies(key: Key, name: Seq<char>)
    ensures
        !(insert_mode(key, name) is Message),
{
}

/// Ctrl-S, in insert mode or on a notification, opens the save prompt with
/// the content's name at that moment as the answer so far, and shows it.
pub proof fn save_prompt_starts_with_name<T: Editable + Saveable + Undoable>(
    from: ModeView,
    before: T::Model,
    shown: ScreenView,
    clipboard: Seq<char>,
    mode: ModeView,
    after: T::Model,
    showing: ScreenView,
)
    requires
        from is Insert || from is Message,
        step::<T>(from, before, shown, Key::Ctrl('s'), clipboard, mode, after, showing),
    ensures
        mode == ModeView::Prompt(save_label(), T::name_of(before)@),
        showing.status == StatusView::Prompt(save_label(), T::name_of(before)@),
        showing.lines == shown.lines,
        after == before,
{
}

/// In a prompt, a character typed and then Backspace leave the answer as it
/// was, and the screen shows that answer.
pub proof fn typed_then_erased_restores<T: Saveable>(
    label: Seq<char>,
    buffer: Seq<char>,
    c: char,
    before: T::Model,
    shown: ScreenView,
    typed_mode: ModeView,
    typed_content: T::Model,
    typed_screen: ScreenView,
    mode: ModeView,
    after: T::Model,
    showing: ScreenView,
)
    requires
        c != '\n',
        prompt_step::<T>(
            label,
            buffer,
            before,
            shown,
            Key::Char(c),
            typed_mode,
            typed_content,
            typed_screen,
        ),
        typed_mode matches ModeView::Prompt(typed_label, typed_buffer) && prompt_step::<T>(
            typed_label,
            typed_buffer,
            typed_content,
            typed_screen,
            Key::Backspace,
            mode,
            after,
            showing,
        ),
    ensures
        typed_mode == ModeView::Prompt(label, buffer.push(c)),
        mode == ModeView::Prompt(label, buffer),
        after == before,
        showing == shown.showing(StatusView::Prompt(label, buffer)),
{
    assert(buffer.push(c).drop_last() == buffer);
}

/// In a prompt with an empty answer, Backspace leaves the prompt as it is,
/// and the screen shows it again with the empty answer.
pub proof fn erasing_nothing_changes_nothing<T: Saveable>(
    label: Seq<char>,
    before: T::Model,
    shown: ScreenView,
    mode: ModeView,
    after: T::Model,
    showing: ScreenView,
)
    requires
        prompt_step::<T>(
            label,
            Seq::empty(),
            before,
            shown,
            Key::Backspace,
            mode,
            after,
            showing,
        ),
    ensures
        mode == ModeView::Prompt(label, Seq::<char>::empty()),
        after == before,
        showing == shown.showing(StatusView::Prompt(label, Seq::<char>::empty())),
{
}

/// Enter in a prompt always leads to a notification, which the screen shows,
/// and the content then carries either the answer or its former name.
pub proof fn confirming_names_or_restores<T: Saveable>(
    label: Seq<char>,
    buffer: Seq<char>,
    before: T::Model,
    shown: ScreenView,
    mode: ModeView,
    after: T::Model,
    showing: ScreenView,
)
    requires
        prompt_step::<T>(label, buffer, before, shown, Key::Char('\n'), mode, after, showing),
    ensures
        mode is Message,
        showing == shown.showing(StatusView::Message(mode->Message_0)),
        T::name_of(after)@ == buffer || T::name_of(after)@ == T::name_of(before)@,
{
}

/// An attempt to save under the answer of a prompt, by its outcome. After a
/// success the content carries the answer as its name, and the notification
/// is the confirmation followed by that name. After a failure the content
/// carries the name it had before, and the notification is the failure's
/// description.
pub proof fn outcome_decides_name_and_text<T: Saveable>(
    outcome: Result<(), String>,
    offered: T::Model,
    kept: T::Model,
    before: T::Model,
    shown: ScreenView,
    buffer: Seq<char>,
    mode: ModeView,
    after: T::Model,
    showing: ScreenView,
)
    requires
        confirm_with::<T>(outcome, offered, kept, before, shown, buffer, mode, after, showing),
    ensures
        mode is Message,
        outcome is Ok ==> {
            let text = mode->Message_0;
            &&& T::name_of(after)@ == buffer
            &&& text == saved_prefix() + buffer
            &&& text.subrange(saved_prefix().len() as int, text.len() as int) == buffer
        },
        outcome matches Err(description) ==> {
            &&& T::name_of(after)@ == T::name_of(before)@
            &&& mode->Message_0 == description@
        },
{
    if outcome is Ok {
        let text = mode->Message_0;
        assert(text == saved_prefix() + buffer);
        assert(text.subrange(saved_prefix().len() as int, text.len() as int) == buffer);
    }
}

/// Where undoing takes back what redoing did, Ctrl-Y followed at once by
/// Ctrl-Z leaves the content as it was, in insert mode.
pub proof fn undo_after_redo_restores<T: Editable + Saveable + Undoable>(
    from: ModeView,
    before: T::Model,
    shown: ScreenView,
    clipboard: Seq<char>,
    redo_mode: ModeView,
    redone: T::Model,
    redo_screen: ScreenView,
    mode: ModeView,
    after: T::Model,
    showing: ScreenView,
)
    requires
        from is Insert || from is Message,
        T::undone(T::redone(before)) == before,
        step::<T>(from, before, shown, Key::Ctrl('y'), clipboard, redo_mode, redone, redo_screen),
        step::<T>(redo_mode, redone, redo_screen, Key::Ctrl('z'), clipboard, mode, after, showing),
    ensures
        redo_mode is Insert,
        mode is Insert,
        after == before,
{
}

/// Where redoing applies again what undoing took back, Ctrl-Z followed at
/// once by Ctrl-Y leaves the content as it was, in insert mode.
pub proof fn redo_after_undo_restores<T: Editable + Saveable + Undoable>(
    from: ModeView,
    before: T::Model,
    shown: ScreenView,
    clipboard: Seq<char>,
    undo_mode: ModeView,
    undone: T::Model,
    undo_screen: ScreenView,
    mode: ModeView,
    after: T::Model,
    showing: ScreenView,
)
    requires
        from is Insert || from is Message,
        T::redone(T::undone(before)) == before,
        step::<T>(from, before, shown, Key::Ctrl('z'), clipboard, undo_mode, undone, undo_screen),
        step::<T>(undo_mode, undone, undo_screen, Key::Ctrl('y'), clipboard, mode, after, showing),
    ensures
        undo_mode is Insert,
        mode is Insert,
        after == before,
{
}

} // verus!
