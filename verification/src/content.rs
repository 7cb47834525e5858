//! What the dispatcher asks of the text it edits.
//!
//! The text itself is not modelled here. A type that can be edited names a
//! mathematical `Model` of its whole state and, for each operation, the model
//! that the operation leads to. The dispatcher's contracts are stated over
//! those names, so they hold for every such type.
//!
//! The `ensures` clauses of the methods are obligations on the implementing
//! type: what the dispatcher promises holds for implementations that meet
//! them. In compiled code the `spec` functions are ordinary trait items that
//! nothing calls; an implementation outside verified code gives them any
//! body of the right type.

use vstd::prelude::*;

verus! {

/// A cursor movement.
#[derive(Clone, Copy, Debug, PartialEq, Eq, Structural)]
pub enum Movement {
    Up,
    Down,
    Left,
    Right,
    /// Up by the given number of lines.
    PageUp(usize),
    /// Down by the given number of lines.
    PageDown(usize),
    LineStart,
    LineEnd,
}

/// A value with a mathematical model of its state.
pub trait Document {
    type Model;

    spec fn model(&self) -> Self::Model;
}

/// Text with a cursor.
pub trait Editable: Document {
    /// The model after `c` was inserted at the cursor.
    spec fn inserted(m: Self::Model, c: char) -> Self::Model;

    /// The model after the unit before the cursor was removed.
    spec fn deleted(m: Self::Model) -> Self::Model;

    /// The model after the cursor moved.
    spec fn stepped(m: Self::Model, mov: Movement) -> Self::Model;

    fn insert(&mut self, c: char)
        ensures
            final(self).model() == Self::inserted(old(self).model(), c),
    ;

    fn delete(&mut self)
        ensures
            final(self).model() == Self::deleted(old(self).model()),
    ;

    fn step(&mut self, mov: Movement)
        ensures
            final(self).model() == Self::stepped(old(self).model(), mov),
    ;
}

/// Text with a history of changes.
pub trait Undoable: Document {
    /// The model after the last change was taken back.
    spec fn undone(m: Self::Model) -> Self::Model;

    /// The model after the last change taken back was applied again.
    spec fn redone(m: Self::Model) -> Self::Model;

    fn undo(&mut self)
        ensures
            final(self).model() == Self::undone(old(self).model()),
    ;

    fn redo(&mut self)
        ensures
            final(self).model() == Self::redone(old(self).model()),
    ;
}

/// Text with a name under which it can be stored.
pub trait Saveable: Document {
    /// The name that the model carries.
    spec fn name_of(m: Self::Model) -> String;

    fn name(&self) -> (name: &String)
        ensures
            name@ == Self::name_of(self.model())@,
    ;

    /// Gives the text a new name. Nothing is stored yet.
    fn set_name(&mut self, name: String)
        ensures
            Self::name_of(final(self).model())@ == name@,
    ;

    /// Whether storing a text in state `before` can end with `outcome` and
    /// leave the text in state `after`.
    spec fn stored(before: Self::Model, outcome: Result<(), String>, after: Self::Model) -> bool;

    /// Stores the text under its name. A failure comes with its description.
    /// The name stays as it is either way.
    fn save(&mut self) -> (outcome: Result<(), String>)
        ensures
            Self::stored(old(self).model(), outcome, final(self).model()),
            Self::name_of(final(self).model())@ == Self::name_of(old(self).model())@,
    ;
}

/// The model after every character of `text` was inserted, first to last.
pub open spec fn pasted<T: Editable>(m: T::Model, text: Seq<char>) -> T::Model
    decreases text.len(),
{
    if text.len() == 0 {
        m
    } else {
        T::inserted(pasted::<T>(m, text.drop_last()), text.last())
    }
}

} // verus!
