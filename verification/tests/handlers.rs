use todo_service::{
    create_todo, delete_todo, get_todos, update_todo, Reply, Todo, TodoStore, CREATED_ID,
    STATUS_NOT_FOUND, STATUS_OK,
};

fn todo(id: usize, title: &str, completed: bool) -> Todo {
    Todo { id, title: title.to_string(), completed }
}

fn listing(store: &TodoStore) -> Vec<Todo> {
    match get_todos(store) {
        Reply::Listing(records) => records,
        other => panic!("a listing was expected, not {:?}", other),
    }
}

#[test]
fn new_store_is_empty() {
    let store = TodoStore::new();
    assert_eq!(store.len(), 0);
    assert_eq!(get_todos(&store), Reply::Listing(vec![]));
    assert_eq!(store.position(CREATED_ID), None);
}

#[test]
fn created_id_is_the_fixed_value() {
    assert_eq!(CREATED_ID, 123);
}

#[test]
fn status_of_each_reply() {
    assert_eq!(STATUS_OK, 200);
    assert_eq!(STATUS_NOT_FOUND, 404);
    assert_eq!(Reply::Listing(vec![]).status(), 200);
    assert_eq!(Reply::Record(todo(1, "a", false)).status(), 200);
    assert_eq!(Reply::Done.status(), 200);
    assert_eq!(Reply::NotFound.status(), 404);
}

#[test]
fn clone_keeps_every_field() {
    let record = todo(7, "water the plants", true);
    let copy = record.clone();
    assert_eq!(copy, record);
    assert_eq!(copy.id, 7);
    assert_eq!(copy.title, "water the plants");
    assert!(copy.completed);
}

#[test]
fn create_answers_with_the_fixed_id() {
    let mut store = TodoStore::new();
    let reply = create_todo(&mut store, &todo(0, "buy milk", false));
    assert_eq!(reply, Reply::Record(todo(123, "buy milk", false)));
    assert_eq!(reply.status(), 200);
    assert_eq!(listing(&store), vec![todo(123, "buy milk", false)]);
}

#[test]
fn create_ignores_the_supplied_id() {
    let mut store = TodoStore::new();
    let reply = create_todo(&mut store, &todo(77, "call home", true));
    assert_eq!(reply, Reply::Record(todo(123, "call home", true)));
    assert_eq!(store.position(77), None);
    assert_eq!(store.position(123), Some(0));
}

#[test]
fn two_creates_share_the_id() {
    let mut store = TodoStore::new();
    let first = create_todo(&mut store, &todo(0, "buy milk", false));
    let second = create_todo(&mut store, &todo(0, "walk the dog", false));
    assert_eq!(first, Reply::Record(todo(123, "buy milk", false)));
    assert_eq!(second, Reply::Record(todo(123, "walk the dog", false)));
    assert_eq!(
        listing(&store),
        vec![todo(123, "buy milk", false), todo(123, "walk the dog", false)]
    );
}

#[test]
fn each_create_adds_one_record() {
    let mut store = TodoStore::new();
    for n in 0..25usize {
        assert_eq!(store.len(), n);
        let title = format!("task {}", n);
        let reply = create_todo(&mut store, &todo(n, &title, n % 2 == 0));
        assert_eq!(reply.status(), 200);
        assert_eq!(store.len(), n + 1);
        assert_eq!(store.todo_list[n], todo(123, &title, n % 2 == 0));
    }
}

#[test]
fn creates_then_deletes_leave_the_difference() {
    for creates in 0..6usize {
        for deletes in 0..=creates {
            let mut store = TodoStore::new();
            for n in 0..creates {
                create_todo(&mut store, &todo(0, &format!("task {}", n), false));
            }
            for _ in 0..deletes {
                assert_eq!(delete_todo(&mut store, 123), Reply::Done);
            }
            assert_eq!(listing(&store).len(), creates - deletes);
            assert_eq!(store.len(), creates - deletes);
        }
    }
}

#[test]
fn deletes_take_the_oldest_first() {
    let mut store = TodoStore::new();
    create_todo(&mut store, &todo(0, "a", false));
    create_todo(&mut store, &todo(0, "b", false));
    create_todo(&mut store, &todo(0, "c", true));
    assert_eq!(delete_todo(&mut store, 123), Reply::Done);
    assert_eq!(listing(&store), vec![todo(123, "b", false), todo(123, "c", true)]);
    assert_eq!(delete_todo(&mut store, 123), Reply::Done);
    assert_eq!(listing(&store), vec![todo(123, "c", true)]);
    assert_eq!(delete_todo(&mut store, 123), Reply::Done);
    assert_eq!(listing(&store), vec![]);
    assert_eq!(delete_todo(&mut store, 123), Reply::NotFound);
}

#[test]
fn update_after_create_keeps_the_id() {
    let mut store = TodoStore::new();
    let id = match create_todo(&mut store, &todo(0, "draft", false)) {
        Reply::Record(record) => record.id,
        other => panic!("a record was expected, not {:?}", other),
    };
    let reply = update_todo(&mut store, id, &todo(5, "final", true));
    assert_eq!(reply, Reply::Record(todo(123, "final", true)));
    assert_eq!(listing(&store), vec![todo(123, "final", true)]);
}

#[test]
fn update_with_shared_id_changes_only_the_first() {
    let mut store = TodoStore::new();
    create_todo(&mut store, &todo(0, "buy milk", false));
    create_todo(&mut store, &todo(0, "walk the dog", false));
    let reply = update_todo(&mut store, 123, &todo(0, "done", true));
    assert_eq!(reply, Reply::Record(todo(123, "done", true)));
    assert_eq!(reply.status(), 200);
    assert_eq!(
        listing(&store),
        vec![todo(123, "done", true), todo(123, "walk the dog", false)]
    );
}

#[test]
fn update_ignores_the_id_of_the_body() {
    let mut store = TodoStore { todo_list: vec![todo(1, "a", false), todo(2, "b", false)] };
    let reply = update_todo(&mut store, 2, &todo(1, "bb", true));
    assert_eq!(reply, Reply::Record(todo(2, "bb", true)));
    assert_eq!(listing(&store), vec![todo(1, "a", false), todo(2, "bb", true)]);
}

#[test]
fn update_of_absent_id_is_not_found() {
    let mut store = TodoStore { todo_list: vec![todo(1, "a", false), todo(2, "b", true)] };
    let before = listing(&store);
    let reply = update_todo(&mut store, 3, &todo(3, "c", true));
    assert_eq!(reply, Reply::NotFound);
    assert_eq!(reply.status(), 404);
    assert_eq!(listing(&store), before);
    assert_eq!(store.len(), 2);
}

#[test]
fn update_on_empty_store_is_not_found() {
    let mut store = TodoStore::new();
    assert_eq!(update_todo(&mut store, 123, &todo(0, "x", false)), Reply::NotFound);
    assert_eq!(store.len(), 0);
}

#[test]
fn delete_of_absent_id_is_not_found() {
    let mut store = TodoStore::new();
    create_todo(&mut store, &todo(0, "buy milk", false));
    create_todo(&mut store, &todo(0, "walk the dog", true));
    let before = listing(&store);
    let reply = delete_todo(&mut store, 999);
    assert_eq!(reply, Reply::NotFound);
    assert_eq!(reply.status(), 404);
    assert_eq!(listing(&store), before);
    assert_eq!(
        before,
        vec![todo(123, "buy milk", false), todo(123, "walk the dog", true)]
    );
}

#[test]
fn delete_on_empty_store_is_not_found() {
    let mut store = TodoStore::new();
    assert_eq!(delete_todo(&mut store, 0), Reply::NotFound);
    assert_eq!(store.len(), 0);
}

#[test]
fn delete_keeps_the_order_of_the_rest() {
    let mut store = TodoStore {
        todo_list: vec![
            todo(4, "a", false),
            todo(9, "b", false),
            todo(4, "c", true),
            todo(9, "d", true),
            todo(5, "e", false),
        ],
    };
    let reply = delete_todo(&mut store, 9);
    assert_eq!(reply, Reply::Done);
    assert_eq!(reply.status(), 200);
    assert_eq!(
        listing(&store),
        vec![todo(4, "a", false), todo(4, "c", true), todo(9, "d", true), todo(5, "e", false)]
    );
}

#[test]
fn position_is_the_first_match() {
    let store = TodoStore {
        todo_list: vec![todo(4, "a", false), todo(9, "b", false), todo(4, "c", true)],
    };
    assert_eq!(store.position(4), Some(0));
    assert_eq!(store.position(9), Some(1));
    assert_eq!(store.position(5), None);
    assert_eq!(store.len(), 3);
}

#[test]
fn listing_is_a_copy_in_insertion_order() {
    let mut store = TodoStore::new();
    create_todo(&mut store, &todo(0, "one", false));
    create_todo(&mut store, &todo(0, "two", true));
    let first = get_todos(&store);
    create_todo(&mut store, &todo(0, "three", false));
    assert_eq!(first, Reply::Listing(vec![todo(123, "one", false), todo(123, "two", true)]));
    assert_eq!(first.status(), 200);
    assert_eq!(
        get_todos(&store),
        Reply::Listing(vec![
            todo(123, "one", false),
            todo(123, "two", true),
            todo(123, "three", false)
        ])
    );
}

#[test]
fn empty_and_long_titles_are_accepted() {
    let mut store = TodoStore::new();
    let long = "x".repeat(10_000);
    assert_eq!(create_todo(&mut store, &todo(0, "", false)), Reply::Record(todo(123, "", false)));
    assert_eq!(
        create_todo(&mut store, &todo(0, &long, true)),
        Reply::Record(todo(123, &long, true))
    );
    assert_eq!(store.len(), 2);
}
