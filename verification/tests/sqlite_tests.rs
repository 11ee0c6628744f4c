use std::time::SystemTime;
use std::time::UNIX_EPOCH;

use rusqlite::Connection;
use todo_cli::config::test_router;
use todo_cli::domain::Action;
use todo_cli::domain::Settings;
use todo_cli::domain::Todo;
use todo_cli::domain::TodoErrorType;
use todo_cli::domain::TodoResponse;
use todo_cli::persistence::check;
use todo_cli::persistence::db_action;
use todo_cli::persistence::init_db;
use todo_cli::persistence::CrudAction;
use todo_cli::persistence::Response;
use todo_cli::service::action_router;

fn fresh_name(tag: &str) -> String {
    let nanos = SystemTime::now().duration_since(UNIX_EPOCH).unwrap().as_nanos();
    format!("/tmp/todo_cli_{}_{}", tag, nanos)
}

fn fresh_store_path(tag: &str) -> String {
    format!("{}.store", fresh_name(tag))
}

fn sample_todo(title: &str, content: &str) -> Todo {
    Todo::new(title.to_string(), content.to_string())
}

#[test]
fn init_db_creates_schema_and_default_user() {
    let path = fresh_store_path("init");
    let response = init_db(&path).unwrap();
    assert!(matches!(response, Response::Success));

    let conn = Connection::open(&path).unwrap();
    let mut stmt = conn.prepare("SELECT name FROM user").unwrap();
    let names: Vec<String> = stmt
        .query_map((), |row| row.get(0))
        .unwrap()
        .collect::<Result<_, _>>()
        .unwrap();
    assert_eq!(names, vec!["Root".to_string()]);

    match db_action(CrudAction::FindAll, path) {
        Response::List(list) => assert!(list.is_empty()),
        _ => panic!("expected an empty list in a fresh store"),
    }
}

#[test]
fn init_db_twice_keeps_one_user() {
    let path = fresh_store_path("reinit");
    assert!(matches!(init_db(&path).unwrap(), Response::Success));
    assert!(matches!(init_db(&path).unwrap(), Response::Success));

    let conn = Connection::open(&path).unwrap();
    let count: i64 = conn
        .query_row("SELECT count(*) FROM user", (), |row| row.get(0))
        .unwrap();
    assert_eq!(count, 1);
}

#[test]
fn crud_cycle_against_the_store() {
    let path = fresh_store_path("crud");
    init_db(&path).unwrap();

    assert!(matches!(
        db_action(CrudAction::Save(sample_todo("first", "one")), path.clone()),
        Response::Success
    ));

    let saved_id = match db_action(CrudAction::FindAll, path.clone()) {
        Response::List(list) => {
            assert_eq!(list.len(), 1);
            assert_eq!(list[0].title, "first");
            assert_eq!(list[0].content, "one");
            assert_eq!(list[0].user_name.as_deref(), Some("Root"));
            list[0].id.unwrap()
        }
        _ => panic!("expected the saved record"),
    };

    match db_action(CrudAction::Find(saved_id), path.clone()) {
        Response::One(Some(found)) => {
            assert_eq!(found.id, Some(saved_id));
            assert_eq!(found.title, "first");
        }
        _ => panic!("expected to find the saved record"),
    }

    match db_action(CrudAction::Find(999_999), path.clone()) {
        Response::One(None) => {}
        _ => panic!("an unassigned id must yield an empty result, not an error"),
    }

    assert!(matches!(db_action(CrudAction::Remove(999_999), path.clone()), Response::Success));
    match db_action(CrudAction::FindAll, path.clone()) {
        Response::List(list) => assert_eq!(list.len(), 1),
        _ => panic!("deleting an absent id must not affect other records"),
    }

    assert!(matches!(db_action(CrudAction::Remove(saved_id), path.clone()), Response::Success));
    match db_action(CrudAction::FindAll, path.clone()) {
        Response::List(list) => assert!(list.is_empty()),
        _ => panic!("expected an empty list after the delete"),
    }

    db_action(CrudAction::Save(sample_todo("a", "1")), path.clone());
    db_action(CrudAction::Save(sample_todo("b", "2")), path.clone());
    assert!(matches!(db_action(CrudAction::RemoveAll, path.clone()), Response::Success));
    match db_action(CrudAction::FindAll, path) {
        Response::List(list) => assert!(list.is_empty()),
        _ => panic!("expected an empty list after delete-all"),
    }
}

#[test]
fn health_check_succeeds_after_init() {
    let path = fresh_store_path("health");
    init_db(&path).unwrap();
    assert!(matches!(db_action(CrudAction::HealthCheck, path.clone()), Response::Success));

    let conn = Connection::open(&path).unwrap();
    let count: i64 = conn
        .query_row("SELECT count(*) FROM health", (), |row| row.get(0))
        .unwrap();
    assert_eq!(count, 0);
}

#[test]
fn health_check_reports_error_without_schema() {
    let path = fresh_store_path("nohealth");
    match db_action(CrudAction::HealthCheck, path) {
        Response::Error(msg) => assert_eq!(msg, "Database check has failed"),
        _ => panic!("a probe against a store without schema must report an error"),
    }
}

#[test]
fn check_probes_an_open_connection() {
    let conn = Connection::open_in_memory().unwrap();
    assert!(check(&conn).is_err());
    conn.execute("create table health (name text not null)", ()).unwrap();
    assert!(matches!(check(&conn).unwrap(), Response::Success));
}

#[test]
fn routers_end_to_end_against_the_store() {
    let name = fresh_name("router");
    let settings = Settings::create(name, true);
    let physical = settings.get_db();
    init_db(&physical).unwrap();

    let response = action_router(&settings, Action::Save(sample_todo("t", "c"))).unwrap();
    assert!(matches!(response, TodoResponse::Done));

    match action_router(&settings, Action::Fetch).unwrap() {
        TodoResponse::All(list) => assert_eq!(list.len(), 1),
        _ => panic!("expected the saved record through the router"),
    }

    let response = test_router(&settings).unwrap();
    assert!(matches!(response, TodoResponse::Done));
}

#[test]
fn router_save_fails_without_schema() {
    let settings = Settings::create(fresh_name("noschema"), true);
    let err = action_router(&settings, Action::Save(sample_todo("t", "c"))).unwrap_err();
    assert!(matches!(err.error_type, TodoErrorType::InitNotAvailable));
}
