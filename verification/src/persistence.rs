//! The persistence layer over the embedded relational store. Every call into
//! the database engine goes through a small trusted wrapper. What is handed
//! to the engine — each statement's text and its parameters — is pinned by
//! exact contracts on the producing functions, and what comes back is
//! interpreted by verified functions that take the fetched rows as
//! arguments, whose contracts state the row conversion, which row a lookup
//! reports, and which failures are surfaced and which are swallowed.

use vstd::prelude::*;
use vstd::string::StringExecFns;

use crate::domain::Todo;
use crate::domain::TodoView;

verus! {

#[verifier::external_type_specification]
#[verifier::external_body]
pub struct ExConnection(rusqlite::Connection);

#[verifier::external_type_specification]
#[verifier::external_body]
pub struct ExSqlError(rusqlite::Error);

/// Relies on rusqlite's `Connection::open`: opens (creating if absent) the
/// database file at `path`.
#[verifier::external_body]
fn open_connection(path: &str) -> Result<rusqlite::Connection, rusqlite::Error> {
    rusqlite::Connection::open(path)
}

/// Relies on rusqlite's `Connection::execute`: runs one parameterless SQL
/// statement, returning how many rows it changed.
#[verifier::external_body]
fn exec_sql(conn: &rusqlite::Connection, sql: &str) -> Result<usize, rusqlite::Error> {
    conn.execute(sql, ())
}

/// Relies on rusqlite's `Connection::execute`: runs one SQL statement with
/// the given text parameters bound in order.
#[verifier::external_body]
fn exec_sql_texts(
    conn: &rusqlite::Connection,
    sql: &str,
    args: &Vec<String>,
) -> Result<usize, rusqlite::Error> {
    conn.execute(sql, rusqlite::params_from_iter(args.iter()))
}

/// Relies on rusqlite's `Connection::execute`: runs one SQL statement with
/// an integer and a text parameter bound in order.
#[verifier::external_body]
fn exec_sql_i64_text(
    conn: &rusqlite::Connection,
    sql: &str,
    a: i64,
    b: &str,
) -> Result<usize, rusqlite::Error> {
    conn.execute(sql, (a, b))
}

/// Relies on rusqlite's `Connection::execute`: runs one SQL statement with a
/// single integer parameter.
#[verifier::external_body]
fn exec_sql_i64(conn: &rusqlite::Connection, sql: &str, a: i64) -> Result<usize, rusqlite::Error> {
    conn.execute(sql, (a,))
}

/// Relies on rusqlite's `Connection::last_insert_rowid`: the rowid of the
/// most recent successful insert on this connection, 0 when there is none.
#[verifier::external_body]
fn last_insert_rowid(conn: &rusqlite::Connection) -> i64 {
    conn.last_insert_rowid()
}

/// Relies on rusqlite's `Connection::prepare` and `Statement::query_map`:
/// runs a parameterless query whose rows are (integer, text, text, text),
/// each row reported as converted or failed, as the row iterator yields it.
#[verifier::external_body]
fn query_todo_rows(
    conn: &rusqlite::Connection,
    sql: &str,
) -> Result<Vec<Result<(i64, String, String, String), rusqlite::Error>>, rusqlite::Error> {
    let mut stmt = conn.prepare(sql)?;
    let rows = stmt.query_map((), |row| {
        Ok((row.get(0)?, row.get(1)?, row.get(2)?, row.get(3)?))
    })?;
    Ok(rows.collect())
}

/// Relies on rusqlite's `Connection::prepare` and `Statement::query_map`: as
/// `query_todo_rows`, with an integer and a text parameter bound in order.
#[verifier::external_body]
fn query_todo_rows_by_id(
    conn: &rusqlite::Connection,
    sql: &str,
    id: i64,
    user: &str,
) -> Result<Vec<Result<(i64, String, String, String), rusqlite::Error>>, rusqlite::Error> {
    let mut stmt = conn.prepare(sql)?;
    let rows = stmt.query_map((id, user), |row| {
        Ok((row.get(0)?, row.get(1)?, row.get(2)?, row.get(3)?))
    })?;
    Ok(rows.collect())
}

/// Relies on rusqlite's `Connection::prepare` and `Statement::query_map`:
/// runs a parameterless query and reads each row's first column as text.
#[verifier::external_body]
fn query_text_rows(
    conn: &rusqlite::Connection,
    sql: &str,
) -> Result<Vec<Result<String, rusqlite::Error>>, rusqlite::Error> {
    let mut stmt = conn.prepare(sql)?;
    let rows = stmt.query_map((), |row| row.get(0))?;
    Ok(rows.collect())
}

/// A primitive storage operation, as the action router requests them.
pub enum CrudAction {
    Save(Todo),
    Find(i64),
    Remove(i64),
    FindAll,
    RemoveAll,
    HealthCheck,
}

/// The storage layer's own outcome vocabulary.
pub enum Response {
    List(Vec<Todo>),
    One(Option<Todo>),
    Success,
    Error(String),
}

/// The statement that creates the user relation.
fn user_table_sql() -> (r: &'static str)
    ensures
        r@ == "create table if not exists user (\n             id integer primary key,\n             name text not null unique\n         )"@,
{
    "create table if not exists user (\n             id integer primary key,\n             name text not null unique\n         )"
}

/// The statement that creates the todo relation.
fn todo_table_sql() -> (r: &'static str)
    ensures
        r@ == "create table if not exists todo (\n             id integer primary key,\n             title text not null,\n             content text not null,\n             user_id integer not null references user(id)\n         )"@,
{
    "create table if not exists todo (\n             id integer primary key,\n             title text not null,\n             content text not null,\n             user_id integer not null references user(id)\n         )"
}

/// The statement that creates the health relation.
fn health_table_sql() -> (r: &'static str)
    ensures
        r@ == "create table if not exists health (\n             name text not null\n         )"@,
{
    "create table if not exists health (\n             name text not null\n         )"
}

/// The statement that inserts the default user row.
fn insert_user_sql() -> (r: &'static str)
    ensures
        r@ == "INSERT INTO user (id,name) values (?1,?2)"@,
{
    "INSERT INTO user (id,name) values (?1,?2)"
}

/// The statement that inserts one todo row, owned by the user whose name is
/// the third parameter.
fn insert_todo_sql() -> (r: &'static str)
    ensures
        r@ == "INSERT INTO todo (title,content,user_id) values (?1,?2, (SELECT id FROM user where name = ?3));"@,
{
    "INSERT INTO todo (title,content,user_id) values (?1,?2, (SELECT id FROM user where name = ?3));"
}

/// The query for every todo row joined with its owning user's name, in the
/// store's natural order.
fn select_todos_sql() -> (r: &'static str)
    ensures
        r@ == "SELECT t.id,t.title,t.content,u.name from todo t\n        INNER JOIN user u\n        ON u.id = t.user_id;"@,
{
    "SELECT t.id,t.title,t.content,u.name from todo t\n        INNER JOIN user u\n        ON u.id = t.user_id;"
}

/// The query for the todo rows with a given id owned by a given user, joined
/// with the owning user's name.
fn select_todo_by_id_sql() -> (r: &'static str)
    ensures
        r@ == "SELECT t.id,t.title,t.content,u.name from todo t\n        INNER JOIN user u\n        ON u.id = t.user_id where t.id = ?1 and u.id = (SELECT id FROM user where name = ?2)"@,
{
    "SELECT t.id,t.title,t.content,u.name from todo t\n        INNER JOIN user u\n        ON u.id = t.user_id where t.id = ?1 and u.id = (SELECT id FROM user where name = ?2)"
}

/// The statement that deletes every todo row.
fn delete_todos_sql() -> (r: &'static str)
    ensures
        r@ == "DELETE FROM todo"@,
{
    "DELETE FROM todo"
}

/// The statement that deletes the todo rows with a given id.
fn delete_todo_by_id_sql() -> (r: &'static str)
    ensures
        r@ == "DELETE FROM todo where id =?"@,
{
    "DELETE FROM todo where id =?"
}

/// The statement that inserts one probe row into the health relation.
fn health_insert_sql() -> (r: &'static str)
    ensures
        r@ == "INSERT INTO health (name) values (?1)"@,
{
    "INSERT INTO health (name) values (?1)"
}

/// The query that reads the health relation back.
fn health_select_sql() -> (r: &'static str)
    ensures
        r@ == "SELECT * FROM health;"@,
{
    "SELECT * FROM health;"
}

/// The statement that clears the health relation.
fn health_delete_sql() -> (r: &'static str)
    ensures
        r@ == "DELETE FROM health"@,
{
    "DELETE FROM health"
}

/// The default user's name: the fixed owner of every todo row.
fn default_user_name() -> (r: &'static str)
    ensures
        r@ == "Root"@,
{
    "Root"
}

/// The parameter handed to the health probe's insert: the fixed probe text.
fn health_probe_args() -> (r: Vec<String>)
    ensures
        r@.len() == 1,
        r@[0]@ == "health str"@,
{
    vec![String::from_str("health str")]
}

/// The parameters handed to the todo insert: the record's title and content,
/// and the default user's name for the owner lookup.
fn todo_insert_args(title: String, content: String) -> (r: Vec<String>)
    ensures
        r@.len() == 3,
        r@[0] == title,
        r@[1] == content,
        r@[2]@ == "Root"@,
{
    vec![title, content, String::from_str("Root")]
}

/// How the default-user insert's outcome is reported: a failure — the user
/// already existing is the expected one — is treated as success, so schema
/// setup completes once the statements themselves ran.
fn user_insert_outcome(outcome: Result<Response, rusqlite::Error>) -> (r: Response)
    ensures
        r is Success,
{
    match outcome {
        Ok(_) => Response::Success,
        Err(_) => Response::Success,
    }
}

/// The record one fetched (id, title, content, user name) row stands for.
pub open spec fn row_view(row: (i64, String, String, String)) -> TodoView {
    TodoView { id: Some(row.0), title: row.1@, content: row.2@, user_name: Some(row.3@) }
}

/// Whether every fetched row converted.
pub open spec fn all_converted(
    rows: Seq<Result<(i64, String, String, String), rusqlite::Error>>,
) -> bool {
    forall|i: int| 0 <= i < rows.len() ==> (#[trigger] rows[i]) is Ok
}

/// The record a converted row yields.
fn todo_of_row(row: &(i64, String, String, String)) -> (r: Todo)
    ensures
        r@ == row_view(*row),
{
    Todo {
        id: Some(row.0),
        title: row.1.clone(),
        content: row.2.clone(),
        user_name: Some(row.3.clone()),
    }
}

/// The list fetch-all reports, given the fetched rows: when every row
/// converted, one record per row, in order, each carrying the row's id,
/// title, content and owning user's name; when any row failed to convert,
/// the empty list.
pub fn todos_of_rows(rows: Vec<Result<(i64, String, String, String), rusqlite::Error>>) -> (r:
    Vec<Todo>)
    ensures
        all_converted(rows@) ==> (r@.len() == rows@.len() && (forall|i: int|
            0 <= i < rows@.len() ==> (rows@[i] matches Ok(row) ==> (#[trigger] r@[i])@
                == row_view(row)))),
        !all_converted(rows@) ==> r@.len() == 0,
{
    let mut list: Vec<Todo> = Vec::new();
    let n = rows.len();
    let mut i: usize = 0;
    while i < n
        invariant
            i <= n,
            n == rows@.len(),
            list@.len() == i as int,
            forall|j: int| 0 <= j < i ==> (#[trigger] rows@[j]) is Ok,
            forall|j: int|
                0 <= j < i ==> (rows@[j] matches Ok(row) ==> (#[trigger] list@[j])@ == row_view(
                    row,
                )),
        decreases n - i,
    {
        match &rows[i] {
            Ok(row) => {
                list.push(todo_of_row(row));
            },
            Err(_) => {
                return Vec::new();
            },
        }
        i = i + 1;
    }
    list
}

/// The result fetch-by-id reports, given the fetched rows: scanning in
/// order, each converted row replaces the result, so the last row wins; the
/// first row that failed to convert aborts the scan with its error; no rows
/// yield an empty result.
pub fn one_of_rows(rows: Vec<Result<(i64, String, String, String), rusqlite::Error>>) -> (r:
    Result<Option<Todo>, rusqlite::Error>)
    ensures
        (all_converted(rows@) && rows@.len() == 0) ==> (r matches Ok(o) && o is None),
        (all_converted(rows@) && rows@.len() > 0) ==> (r matches Ok(o) && o matches Some(t)
            && (rows@.last() matches Ok(row) && t@ == row_view(row))),
        !all_converted(rows@) ==> (r matches Err(e) && (exists|i: int|
            0 <= i < rows@.len() && rows@[i] == Err::<
                (i64, String, String, String),
                rusqlite::Error,
            >(e) && (forall|j: int| 0 <= j < i ==> rows@[j] is Ok))),
{
    let mut result: Option<Todo> = None;
    let n = rows.len();
    let mut i: usize = 0;
    while i < n
        invariant
            i <= n,
            n == rows@.len(),
            forall|j: int| 0 <= j < i ==> (#[trigger] rows@[j]) is Ok,
            i == 0 ==> result is None,
            i > 0 ==> (result matches Some(t) && (rows@[i - 1] matches Ok(row) && t@ == row_view(
                row,
            ))),
        decreases n - i,
    {
        match &rows[i] {
            Ok(row) => {
                result = Some(todo_of_row(row));
            },
            Err(_) => {
                let ghost bad = i as int;
                let e = take_row_error(rows, i);
                proof {
                    assert(rows@[bad] == Err::<(i64, String, String, String), rusqlite::Error>(e));
                }
                return Err(e);
            },
        }
        i = i + 1;
    }
    Ok(result)
}

/// Moves the error out of the failed row at `i`.
fn take_row_error(
    rows: Vec<Result<(i64, String, String, String), rusqlite::Error>>,
    i: usize,
) -> (r: rusqlite::Error)
    requires
        i < rows@.len(),
        rows@[i as int] is Err,
    ensures
        rows@[i as int] matches Err(e) && e == r,
{
    let mut rows = rows;
    match rows.remove(i) {
        Ok(_) => unreached(),
        Err(e) => e,
    }
}

/// Opens (creating if needed) the store at `db` and ensures the three
/// relations and the single default user row exist. Each statement's text is
/// pinned by its producer's contract; `user_insert_outcome` states that a
/// failing default-user insert is treated as the user already existing.
pub fn init_db(db: &String) -> (r: Result<Response, rusqlite::Error>)
    ensures
        r matches Ok(resp) ==> resp is Success,
{
    let conn = match open_connection(db.as_str()) {
        Ok(c) => c,
        Err(e) => {
            return Err(e);
        },
    };
    match exec_sql(&conn, user_table_sql()) {
        Ok(_) => {},
        Err(e) => {
            return Err(e);
        },
    }
    match exec_sql(&conn, todo_table_sql()) {
        Ok(_) => {},
        Err(e) => {
            return Err(e);
        },
    }
    match exec_sql(&conn, health_table_sql()) {
        Ok(_) => {},
        Err(e) => {
            return Err(e);
        },
    }
    Ok(user_insert_outcome(insert_user(default_user_name(), &conn)))
}

/// Probes the store's liveness: inserts the fixed probe row into the health
/// relation, reads the relation back, and clears it; the statements and the
/// probe text are pinned by their producers' contracts.
pub fn check(conn: &rusqlite::Connection) -> (r: Result<Response, rusqlite::Error>)
    ensures
        r matches Ok(resp) ==> resp is Success,
{
    let args = health_probe_args();
    match exec_sql_texts(conn, health_insert_sql(), &args) {
        Ok(_) => {},
        Err(e) => {
            return Err(e);
        },
    }
    let _rows = match query_text_rows(conn, health_select_sql()) {
        Ok(rows) => rows,
        Err(e) => {
            return Err(e);
        },
    };
    match exec_sql(conn, health_delete_sql()) {
        Ok(_) => {},
        Err(e) => {
            return Err(e);
        },
    }
    Ok(Response::Success)
}

/// Runs one storage operation against the store at `db`. A store that cannot
/// be opened, and any failure the operation itself reports, comes back as
/// `Error`; no failure aborts the process.
pub fn db_action(action: CrudAction, db: String) -> (r: Response)
    ensures
        action is Save ==> (r is Success || r is Error),
        action is Find ==> (r is One || r is Error),
        action is FindAll ==> (r is List || r is Error),
        action is Remove ==> (r is Success || r is Error),
        action is RemoveAll ==> (r is Success || r is Error),
        action is HealthCheck ==> (r is Success || r is Error),
        r matches Response::Error(m) ==> (m@
            == "Db store is not found, Please setup application"@ || (!(action is HealthCheck)
            && m@ == "Failure"@) || (action is HealthCheck && m@
            == "Database check has failed"@)),
{
    let conn = match open_connection(db.as_str()) {
        Ok(c) => c,
        Err(_) => {
            return Response::Error(
                String::from_str("Db store is not found, Please setup application"),
            );
        },
    };
    match action {
        CrudAction::Save(todo) => match insert_todo(todo, &conn) {
            Ok(resp) => resp,
            Err(_) => Response::Error(String::from_str("Failure")),
        },
        CrudAction::Find(id) => match read_one(id, &conn) {
            Ok(resp) => resp,
            Err(_) => Response::Error(String::from_str("Failure")),
        },
        CrudAction::FindAll => match read_all(&conn) {
            Ok(resp) => resp,
            Err(_) => Response::Error(String::from_str("Failure")),
        },
        CrudAction::Remove(id) => match remove_record(id, &conn) {
            Ok(resp) => resp,
            Err(_) => Response::Error(String::from_str("Failure")),
        },
        CrudAction::RemoveAll => match remove_all_records(&conn) {
            Ok(resp) => resp,
            Err(_) => Response::Error(String::from_str("Failure")),
        },
        CrudAction::HealthCheck => match check(&conn) {
            Ok(resp) => resp,
            Err(_) => Response::Error(String::from_str("Database check has failed")),
        },
    }
}

/// Inserts the default user row, with the id sqlite reported for the most
/// recent insert, as the schema setup does.
fn insert_user(name: &str, conn: &rusqlite::Connection) -> (r: Result<
    Response,
    rusqlite::Error,
>)
    ensures
        r matches Ok(resp) ==> resp is Success,
{
    let last_id = last_insert_rowid(conn);
    match exec_sql_i64_text(conn, insert_user_sql(), last_id, name) {
        Ok(_) => Ok(Response::Success),
        Err(e) => Err(e),
    }
}

/// Inserts one todo row, owned by the default user; the handed title,
/// content and owner name are pinned by `todo_insert_args`' contract.
fn insert_todo(todo: Todo, conn: &rusqlite::Connection) -> (r: Result<Response, rusqlite::Error>)
    ensures
        r matches Ok(resp) ==> resp is Success,
{
    let Todo { id: _, title, content, user_name: _ } = todo;
    let args = todo_insert_args(title, content);
    match exec_sql_texts(conn, insert_todo_sql(), &args) {
        Ok(_) => Ok(Response::Success),
        Err(e) => Err(e),
    }
}

/// Reads the todo row with the given id owned by the default user;
/// `one_of_rows` states exactly which fetched row is reported.
fn read_one(id: i64, conn: &rusqlite::Connection) -> (r: Result<Response, rusqlite::Error>)
    ensures
        r matches Ok(resp) ==> resp is One,
{
    let rows = match query_todo_rows_by_id(conn, select_todo_by_id_sql(), id, default_user_name())
        {
        Ok(rows) => rows,
        Err(e) => {
            return Err(e);
        },
    };
    match one_of_rows(rows) {
        Ok(found) => Ok(Response::One(found)),
        Err(e) => Err(e),
    }
}

/// Reads every todo row joined with its owning user's name, in the store's
/// natural order; `todos_of_rows` states exactly how the fetched rows become
/// the list, including that a row which fails to convert empties it.
fn read_all(conn: &rusqlite::Connection) -> (r: Result<Response, rusqlite::Error>)
    ensures
        r matches Ok(resp) ==> resp is List,
{
    let rows = match query_todo_rows(conn, select_todos_sql()) {
        Ok(rows) => rows,
        Err(e) => {
            return Err(e);
        },
    };
    Ok(Response::List(todos_of_rows(rows)))
}

/// Deletes every todo row.
fn remove_all_records(conn: &rusqlite::Connection) -> (r: Result<Response, rusqlite::Error>)
    ensures
        r matches Ok(resp) ==> resp is Success,
{
    match exec_sql(conn, delete_todos_sql()) {
        Ok(_) => Ok(Response::Success),
        Err(e) => Err(e),
    }
}

/// Deletes the todo row with the given id; deleting an absent id succeeds.
fn remove_record(id: i64, conn: &rusqlite::Connection) -> (r: Result<Response, rusqlite::Error>)
    ensures
        r matches Ok(resp) ==> resp is Success,
{
    match exec_sql_i64(conn, delete_todo_by_id_sql(), id) {
        Ok(_) => Ok(Response::Success),
        Err(e) => Err(e),
    }
}

} // verus!
