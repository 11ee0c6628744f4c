use todo_cli::domain::Todo;
use todo_cli::persistence::CrudAction;
use todo_cli::persistence::Response;
use todo_cli::store::MemStore;

fn todo(title: &str, content: &str) -> Todo {
    Todo::new(title.to_string(), content.to_string())
}

#[test]
fn save_then_find_all_has_exactly_one_new_record() {
    let mut store = MemStore::new();
    let first_id = store.save(todo("first", "one"));
    let all = store.find_all();
    assert_eq!(all.len(), 1);
    assert_eq!(all[0].id, Some(first_id));
    assert_eq!(all[0].title, "first");
    assert_eq!(all[0].content, "one");
    assert_eq!(all[0].user_name.as_deref(), Some("Root"));

    let second_id = store.save(todo("second", "two"));
    assert_ne!(second_id, first_id);
    let all = store.find_all();
    assert_eq!(all.len(), 2);
    let with_new_id = all.iter().filter(|t| t.id == Some(second_id)).count();
    assert_eq!(with_new_id, 1);
    assert_eq!(all[0].title, "first");
    assert_eq!(all[1].title, "second");
}

#[test]
fn find_by_id_after_save_yields_that_record() {
    let mut store = MemStore::new();
    let id = store.save(todo("title", "content"));
    let found = store.find_by_id(id).unwrap();
    assert_eq!(found.id, Some(id));
    assert_eq!(found.title, "title");
    assert_eq!(found.content, "content");
}

#[test]
fn find_by_id_of_unassigned_id_is_empty_not_an_error() {
    let mut store = MemStore::new();
    store.save(todo("a", "b"));
    assert!(store.find_by_id(999).is_none());
}

#[test]
fn delete_by_id_is_idempotent_and_keeps_other_records() {
    let mut store = MemStore::new();
    let keep_a = store.save(todo("a", "1"));
    let keep_b = store.save(todo("b", "2"));

    store.remove_by_id(424242);
    assert_eq!(store.find_all().len(), 2);
    assert!(store.find_by_id(keep_a).is_some());
    assert!(store.find_by_id(keep_b).is_some());

    store.remove_by_id(keep_a);
    assert_eq!(store.find_all().len(), 1);
    assert!(store.find_by_id(keep_a).is_none());
    assert!(store.find_by_id(keep_b).is_some());

    store.remove_by_id(keep_a);
    assert_eq!(store.find_all().len(), 1);
    assert!(store.find_by_id(keep_b).is_some());
}

#[test]
fn delete_all_then_find_all_is_empty() {
    let mut store = MemStore::new();
    store.save(todo("a", "1"));
    store.save(todo("b", "2"));
    store.remove_all();
    assert!(store.find_all().is_empty());
}

#[test]
fn ids_are_not_reused_after_delete() {
    let mut store = MemStore::new();
    let first = store.save(todo("a", "1"));
    store.remove_by_id(first);
    let second = store.save(todo("b", "2"));
    assert_ne!(first, second);
}

#[test]
fn apply_speaks_the_storage_vocabulary() {
    let mut store = MemStore::new();
    assert!(matches!(store.apply(CrudAction::Save(todo("a", "1"))), Response::Success));
    match store.apply(CrudAction::FindAll) {
        Response::List(list) => assert_eq!(list.len(), 1),
        _ => panic!("expected a list"),
    }
    match store.apply(CrudAction::Find(1)) {
        Response::One(Some(t)) => assert_eq!(t.title, "a"),
        _ => panic!("expected the saved record"),
    }
    match store.apply(CrudAction::Find(77)) {
        Response::One(None) => {}
        _ => panic!("expected an empty lookup"),
    }
    assert!(matches!(store.apply(CrudAction::HealthCheck), Response::Success));
    assert!(matches!(store.apply(CrudAction::Remove(1)), Response::Success));
    assert!(matches!(store.apply(CrudAction::RemoveAll), Response::Success));
    match store.apply(CrudAction::FindAll) {
        Response::List(list) => assert!(list.is_empty()),
        _ => panic!("expected a list"),
    }
}
