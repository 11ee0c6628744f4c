use rusqlite::Error;
use todo_cli::persistence::one_of_rows;
use todo_cli::persistence::todos_of_rows;

type Row = (i64, String, String, String);

fn row(id: i64, title: &str, content: &str) -> Result<Row, Error> {
    Ok((id, title.to_string(), content.to_string(), "Root".to_string()))
}

fn bad_row() -> Result<Row, Error> {
    Err(Error::SqliteSingleThreadedMode)
}

#[test]
fn todos_of_rows_lists_every_converted_row_in_order() {
    let rows = vec![row(1, "a", "1"), row(2, "b", "2"), row(3, "c", "3")];
    let list = todos_of_rows(rows);
    assert_eq!(list.len(), 3);
    assert_eq!(list[0].id, Some(1));
    assert_eq!(list[0].title, "a");
    assert_eq!(list[0].content, "1");
    assert_eq!(list[0].user_name.as_deref(), Some("Root"));
    assert_eq!(list[1].id, Some(2));
    assert_eq!(list[2].id, Some(3));
}

#[test]
fn todos_of_rows_of_no_rows_is_empty() {
    assert!(todos_of_rows(vec![]).is_empty());
}

#[test]
fn todos_of_rows_swallows_a_failed_row_into_an_empty_list() {
    let rows = vec![row(1, "a", "1"), bad_row(), row(3, "c", "3")];
    assert!(todos_of_rows(rows).is_empty());
}

#[test]
fn one_of_rows_of_no_rows_is_none() {
    let found = one_of_rows(vec![]).unwrap();
    assert!(found.is_none());
}

#[test]
fn one_of_rows_reports_the_last_row() {
    let rows = vec![row(7, "old", "o"), row(7, "new", "n")];
    let found = one_of_rows(rows).unwrap().unwrap();
    assert_eq!(found.id, Some(7));
    assert_eq!(found.title, "new");
    assert_eq!(found.content, "n");
    assert_eq!(found.user_name.as_deref(), Some("Root"));
}

#[test]
fn one_of_rows_surfaces_a_failed_row_as_an_error() {
    let rows = vec![row(7, "a", "1"), bad_row()];
    assert!(one_of_rows(rows).is_err());
}
