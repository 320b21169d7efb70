//! The record type.

use vstd::prelude::*;

verus! {

/// One todo record.
///
/// Nothing is demanded of a record beyond the types of its fields: two records
/// of a store may carry the same identifier, and a title may be empty or long.
#[derive(Debug, PartialEq, Eq)]
pub struct Todo {
    /// The identifier by which update and delete look a record up.
    pub id: usize,
    /// The label.
    pub title: String,
    /// Whether the task is done.
    pub completed: bool,
}

/// What a [`Todo`] holds, as mathematical values.
pub struct TodoView {
    pub id: nat,
    pub title: Seq<char>,
    pub completed: bool,
}

impl View for Todo {
    type V = TodoView;

    open spec fn view(&self) -> TodoView {
        TodoView { id: self.id as nat, title: self.title@, completed: self.completed }
    }
}

impl Clone for Todo {
    /// A copy that equals the record field by field.
    fn clone(&self) -> (copy: Self)
        ensures
            copy == *self,
    {
        Todo { id: self.id, title: self.title.clone(), completed: self.completed }
    }
}

} // verus!
