//! What holds of the operations taken together, over the store's view.

use vstd::prelude::*;
use crate::store::{created, deleted, first_match, has_id, is_first_match, lemma_first_match, updated, CREATED_ID};
use crate::todo::TodoView;

verus! {

/// The store `s` after one create for each entry of `inputs`, in order. An
/// entry is the title and the flag of one request.
pub open spec fn created_all(s: Seq<TodoView>, inputs: Seq<(Seq<char>, bool)>) -> Seq<TodoView>
    decreases inputs.len(),
{
    if inputs.len() == 0 {
        s
    } else {
        created(created_all(s, inputs.drop_last()), inputs.last().0, inputs.last().1)
    }
}

/// The store `s` after one delete for each identifier of `ids`, in order.
pub open spec fn deleted_all(s: Seq<TodoView>, ids: Seq<nat>) -> Seq<TodoView>
    decreases ids.len(),
{
    if ids.len() == 0 {
        s
    } else {
        deleted(deleted_all(s, ids.drop_last()), ids.last())
    }
}

/// Whether the last `n` records of `s` all have the identifier `id`.
pub open spec fn ends_with_id(s: Seq<TodoView>, n: nat, id: nat) -> bool {
    &&& n <= s.len()
    &&& forall|j: int| s.len() - n <= j < s.len() ==> #[trigger] s[j].id == id
}

/// Every create lengthens the store by exactly one record: after any sequence
/// of creates the store is as many records longer as there were creates. The
/// records that were there stay in their places, and each new record carries
/// the fixed identifier and the title and flag of its request.
pub proof fn law_creates_append(s: Seq<TodoView>, inputs: Seq<(Seq<char>, bool)>)
    ensures
        created_all(s, inputs).len() == s.len() + inputs.len(),
        forall|j: int| 0 <= j < s.len() ==> created_all(s, inputs)[j] == s[j],
        forall|k: int|
            0 <= k < inputs.len() ==> #[trigger] created_all(s, inputs)[s.len() + k] == (TodoView {
                id: CREATED_ID as nat,
                title: inputs[k].0,
                completed: inputs[k].1,
            }),
    decreases inputs.len(),
{
    if inputs.len() > 0 {
        law_creates_append(s, inputs.drop_last());
    }
}

/// A delete shortens the store by one record where some record has the
/// identifier, and by none where no record has it.
pub proof fn law_delete_len(s: Seq<TodoView>, id: nat)
    ensures
        has_id(s, id) ==> deleted(s, id).len() == s.len() - 1,
        !has_id(s, id) ==> deleted(s, id) == s,
{
    lemma_first_match(s, id);
}

/// After `inputs.len()` creates and then `ids.len()` deletes by the created
/// identifier, no more deletes than creates, the store holds as many records
/// more than before as there were creates, less the deletes: each delete took
/// a record of its own. From the empty store that is the number of creates
/// less the number of deletes.
pub proof fn law_creates_then_deletes(
    s: Seq<TodoView>,
    inputs: Seq<(Seq<char>, bool)>,
    ids: Seq<nat>,
)
    requires
        ids.len() <= inputs.len(),
        forall|k: int| 0 <= k < ids.len() ==> ids[k] == CREATED_ID as nat,
    ensures
        deleted_all(created_all(s, inputs), ids).len() == s.len() + inputs.len() - ids.len(),
{
    law_creates_append(s, inputs);
    let c = created_all(s, inputs);
    assert(ends_with_id(c, inputs.len(), CREATED_ID as nat)) by {
        assert forall|j: int| c.len() - inputs.len() <= j < c.len() implies #[trigger] c[j].id
            == CREATED_ID as nat by {
            let k = j - s.len();
            assert(c[s.len() + k].id == CREATED_ID as nat);
        }
    }
    lemma_deletes_of_tail(c, inputs.len(), ids);
}

/// Deletes by an identifier that the last `n` records all have, no more than
/// `n` of them, each remove one record and leave the rest of that tail in place.
proof fn lemma_deletes_of_tail(c: Seq<TodoView>, n: nat, ids: Seq<nat>)
    requires
        ids.len() <= n,
        ends_with_id(c, n, CREATED_ID as nat),
        forall|k: int| 0 <= k < ids.len() ==> ids[k] == CREATED_ID as nat,
    ensures
        deleted_all(c, ids).len() == c.len() - ids.len(),
        ends_with_id(deleted_all(c, ids), (n - ids.len()) as nat, CREATED_ID as nat),
    decreases ids.len(),
{
    if ids.len() > 0 {
        let id = CREATED_ID as nat;
        let before = deleted_all(c, ids.drop_last());
        lemma_deletes_of_tail(c, n, ids.drop_last());
        assert(ids.last() == id);
        assert(before[before.len() - 1].id == id);
        lemma_first_match(before, id);
        let i = first_match(before, id).unwrap();
        let after = before.remove(i);
        assert(after == deleted_all(c, ids));
        let m = (n - ids.len()) as nat;
        assert forall|j: int| after.len() - m <= j < after.len() implies #[trigger] after[j].id
            == id by {
            if j < i {
                assert(after[j] == before[j]);
            } else {
                assert(after[j] == before[j + 1]);
            }
        }
    }
}

/// An update leaves the length of the store, the order of its records and
/// every identifier as they were, and changes at most the title and the flag
/// of one record: the first with the identifier asked for. Where no record
/// has that identifier, nothing changes.
pub proof fn law_update_changes_one_record(
    s: Seq<TodoView>,
    id: nat,
    title: Seq<char>,
    completed: bool,
)
    ensures
        !has_id(s, id) ==> updated(s, id, title, completed) == s,
        updated(s, id, title, completed).len() == s.len(),
        forall|j: int| 0 <= j < s.len() ==> updated(s, id, title, completed)[j].id == s[j].id,
        forall|j: int|
            0 <= j < s.len() && !is_first_match(s, id, j) ==> updated(s, id, title, completed)[j]
                == s[j],
        forall|j: int|
            is_first_match(s, id, j) ==> updated(s, id, title, completed)[j] == (TodoView {
                id,
                title,
                completed,
            }),
{
    lemma_first_match(s, id);
}

/// A create followed by an update by the created identifier: the update
/// finds a record, keeps the length of the store and every identifier, and
/// changes the title and the flag of one record only. Where no earlier record
/// has the created identifier, that record is the new one, the last; otherwise
/// it is the oldest record with that identifier and the new one stays as
/// created.
pub proof fn law_update_after_create(
    s: Seq<TodoView>,
    title: Seq<char>,
    completed: bool,
    new_title: Seq<char>,
    new_completed: bool,
)
    ensures
        ({
            let id = CREATED_ID as nat;
            let c = created(s, title, completed);
            let u = updated(c, id, new_title, new_completed);
            let changed = TodoView { id, title: new_title, completed: new_completed };
            &&& has_id(c, id)
            &&& u.len() == c.len()
            &&& forall|j: int| 0 <= j < c.len() ==> u[j].id == c[j].id
            &&& !has_id(s, id) ==> u == s.push(changed)
            &&& has_id(s, id) ==> u == updated(s, id, new_title, new_completed).push(c.last())
        }),
{
    let id = CREATED_ID as nat;
    let c = created(s, title, completed);
    let u = updated(c, id, new_title, new_completed);
    let changed = TodoView { id, title: new_title, completed: new_completed };
    assert(c[s.len() as int].id == id);
    lemma_first_match(c, id);
    lemma_first_match(s, id);
    law_update_changes_one_record(c, id, new_title, new_completed);
    let i = first_match(c, id).unwrap();
    if has_id(s, id) {
        let k = first_match(s, id).unwrap();
        assert(c[k] == s[k]);
        assert(is_first_match(c, id, k)) by {
            assert forall|j: int| 0 <= j < k implies #[trigger] c[j].id != id by {
                assert(c[j] == s[j]);
            }
        }
        assert(i == k);
        assert(u =~= updated(s, id, new_title, new_completed).push(c.last()));
    } else {
        assert(is_first_match(c, id, s.len() as int)) by {
            assert forall|j: int| 0 <= j < s.len() implies #[trigger] c[j].id != id by {
                assert(c[j] == s[j]);
                assert(s[j].id != id);
            }
        }
        assert(i == s.len());
        assert(u =~= s.push(changed));
    }
}

} // verus!
