//! The four operations of the service on a store.
//!
//! A caller that shares the store between threads holds its lock for the
//! length of one call: each function is one uninterrupted step on the store.

use vstd::prelude::*;
use crate::reply::{Reply, ReplyView};
use crate::store::{created, deleted, has_id, lemma_first_match, updated, TodoStore, CREATED_ID};
use crate::todo::{Todo, TodoView};

verus! {

/// Lists the store: answers with a copy of every record, oldest first, and
/// leaves the store as it is.
pub fn get_todos(data: &TodoStore) -> (reply: Reply)
    ensures
        reply@ == ReplyView::Listing(data@),
{
    let records = data.todo_list.clone();
    assert(records@ =~= data.todo_list@);
    let reply = Reply::Listing(records);
    assert(reply@ =~= ReplyView::Listing(data@));
    reply
}

/// Creates a record from the title and the flag of `todo` and appends it to
/// the store; the identifier of `todo` is ignored and the new record gets
/// `CREATED_ID`. Answers with the new record.
pub fn create_todo(data: &mut TodoStore, todo: &Todo) -> (reply: Reply)
    ensures
        final(data)@ == created(old(data)@, todo@.title, todo@.completed),
        final(data)@.len() == old(data)@.len() + 1,
        reply@ == ReplyView::Record(
            TodoView { id: CREATED_ID as nat, title: todo@.title, completed: todo@.completed },
        ),
{
    let new_todo = Todo { id: CREATED_ID, title: todo.title.clone(), completed: todo.completed };
    data.todo_list.push(new_todo.clone());
    assert(data@ =~= created(old(data)@, todo@.title, todo@.completed));
    Reply::Record(new_todo)
}

/// Overwrites the title and the flag of the first record whose identifier is
/// `id` with those of `todo` and answers with the record as it then is; the
/// record keeps its identifier and its place, and the identifier of `todo` is
/// ignored. Where no record has the identifier, answers `NotFound` and leaves
/// the store as it is.
pub fn update_todo(data: &mut TodoStore, id: usize, todo: &Todo) -> (reply: Reply)
    ensures
        final(data)@ == updated(old(data)@, id as nat, todo@.title, todo@.completed),
        final(data)@.len() == old(data)@.len(),
        reply@ == if has_id(old(data)@, id as nat) {
            ReplyView::Record(
                TodoView { id: id as nat, title: todo@.title, completed: todo@.completed },
            )
        } else {
            ReplyView::NotFound
        },
        !has_id(old(data)@, id as nat) ==> *final(data) == *old(data),
{
    proof {
        lemma_first_match(data@, id as nat);
    }
    match data.position(id) {
        Some(i) => {
            let t = &mut data.todo_list[i];
            t.title = todo.title.clone();
            t.completed = todo.completed;
            let record = t.clone();
            assert(data@ =~= old(data)@.update(
                i as int,
                TodoView { id: id as nat, title: todo@.title, completed: todo@.completed },
            ));
            Reply::Record(record)
        },
        None => Reply::NotFound,
    }
}

/// Removes the first record whose identifier is `id` and answers `Done`; the
/// records that stay keep their order. Where no record has the identifier,
/// answers `NotFound` and leaves the store as it is.
pub fn delete_todo(data: &mut TodoStore, id: usize) -> (reply: Reply)
    ensures
        final(data)@ == deleted(old(data)@, id as nat),
        reply@ == if has_id(old(data)@, id as nat) {
            ReplyView::Done
        } else {
            ReplyView::NotFound
        },
        has_id(old(data)@, id as nat) ==> final(data)@.len() == old(data)@.len() - 1,
        !has_id(old(data)@, id as nat) ==> *final(data) == *old(data),
{
    proof {
        lemma_first_match(data@, id as nat);
    }
    match data.position(id) {
        Some(index) => {
            data.todo_list.remove(index);
            assert(data@ =~= old(data)@.remove(index as int));
            Reply::Done
        },
        None => Reply::NotFound,
    }
}

} // verus!
