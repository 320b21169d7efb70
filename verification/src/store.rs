//! The record store: an ordered sequence of records, looked up by a linear
//! scan that stops at the first record with the identifier asked for.

use vstd::prelude::*;
use crate::todo::{Todo, TodoView};

verus! {

/// The identifier that every created record receives.
///
/// Records therefore share it, and a lookup by it always lands on the oldest
/// record that is still in the store.
pub const CREATED_ID: usize = 123;

/// The records of the service, oldest first.
#[derive(Debug, PartialEq, Eq)]
pub struct TodoStore {
    pub todo_list: Vec<Todo>,
}

impl View for TodoStore {
    type V = Seq<TodoView>;

    open spec fn view(&self) -> Seq<TodoView> {
        Seq::new(self.todo_list@.len(), |i: int| self.todo_list@[i]@)
    }
}

/// Whether some record of `s` has the identifier `id`.
pub open spec fn has_id(s: Seq<TodoView>, id: nat) -> bool {
    exists|i: int| 0 <= i < s.len() && #[trigger] s[i].id == id
}

/// Whether `i` is the position of the first record of `s` with the identifier `id`.
pub open spec fn is_first_match(s: Seq<TodoView>, id: nat, i: int) -> bool {
    &&& 0 <= i < s.len()
    &&& s[i].id == id
    &&& forall|j: int| 0 <= j < i ==> #[trigger] s[j].id != id
}

/// The position of the first record of `s` with the identifier `id`, if there is one.
pub open spec fn first_match(s: Seq<TodoView>, id: nat) -> Option<int> {
    if has_id(s, id) {
        Some(choose|i: int| is_first_match(s, id, i))
    } else {
        None
    }
}

/// The store `s` after a create: one more record at the end, with the fixed
/// identifier and the given title and flag.
pub open spec fn created(s: Seq<TodoView>, title: Seq<char>, completed: bool) -> Seq<TodoView> {
    s.push(TodoView { id: CREATED_ID as nat, title, completed })
}

/// The store `s` after an update by `id`: the first record with that
/// identifier has the given title and flag and keeps its identifier; without
/// such a record the store is as it was.
pub open spec fn updated(s: Seq<TodoView>, id: nat, title: Seq<char>, completed: bool) -> Seq<
    TodoView,
> {
    match first_match(s, id) {
        Some(i) => s.update(i, TodoView { id, title, completed }),
        None => s,
    }
}

/// The store `s` after a delete by `id`: the first record with that identifier
/// is gone and the others keep their order; without such a record the store is
/// as it was.
pub open spec fn deleted(s: Seq<TodoView>, id: nat) -> Seq<TodoView> {
    match first_match(s, id) {
        Some(i) => s.remove(i),
        None => s,
    }
}

/// `first_match` is `Some(i)` exactly for the one position `i` that
/// `is_first_match` accepts, and `None` exactly when no record has the identifier.
pub proof fn lemma_first_match(s: Seq<TodoView>, id: nat)
    ensures
        match first_match(s, id) {
            Some(i) => is_first_match(s, id, i),
            None => !has_id(s, id),
        },
        forall|i: int| is_first_match(s, id, i) ==> first_match(s, id) == Some(i),
{
    if has_id(s, id) {
        let k = choose|k: int| 0 <= k < s.len() && #[trigger] s[k].id == id;
        lemma_least_match(s, id, k);
    }
    assert forall|i: int| is_first_match(s, id, i) implies first_match(s, id) == Some(i) by {
        let c = choose|c: int| is_first_match(s, id, c);
        assert(is_first_match(s, id, c));
        assert(s[i].id == id);
        assert(!(c < i));
        assert(!(i < c));
    }
}

/// Below any record with the identifier there is a first one.
proof fn lemma_least_match(s: Seq<TodoView>, id: nat, k: int)
    requires
        0 <= k < s.len(),
        s[k].id == id,
    ensures
        exists|i: int| is_first_match(s, id, i),
    decreases k,
{
    if exists|j: int| 0 <= j < k && #[trigger] s[j].id == id {
        let j = choose|j: int| 0 <= j < k && #[trigger] s[j].id == id;
        lemma_least_match(s, id, j);
    } else {
        assert(is_first_match(s, id, k));
    }
}

impl TodoStore {
    /// A store without records.
    pub fn new() -> (store: TodoStore)
        ensures
            store@ == Seq::<TodoView>::empty(),
    {
        let store = TodoStore { todo_list: Vec::new() };
        assert(store@ =~= Seq::<TodoView>::empty());
        store
    }

    /// The number of records.
    pub fn len(&self) -> (n: usize)
        ensures
            n == self@.len(),
    {
        self.todo_list.len()
    }

    /// The position of the first record whose identifier is `id`, found by
    /// scanning from the oldest record on.
    pub fn position(&self, id: usize) -> (found: Option<usize>)
        ensures
            match found {
                Some(i) => first_match(self@, id as nat) == Some(i as int),
                None => first_match(self@, id as nat) is None,
            },
    {
        let mut i: usize = 0;
        while i < self.todo_list.len()
            invariant
                i <= self.todo_list@.len(),
                forall|j: int| 0 <= j < i ==> #[trigger] self@[j].id != id as nat,
            decreases self.todo_list@.len() - i,
        {
            if self.todo_list[i].id == id {
                proof {
                    assert(is_first_match(self@, id as nat, i as int));
                    lemma_first_match(self@, id as nat);
                }
                return Some(i);
            }
            i += 1;
        }
        proof {
            lemma_first_match(self@, id as nat);
        }
        None
    }
}

} // verus!
