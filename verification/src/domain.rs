//! Core vocabulary of the todo manager: records, requested actions, responses,
//! the error taxonomy, and the resolved configuration (`Settings`).

use vstd::prelude::*;
use vstd::string::StringExecFns;

verus! {

/// A todo record. The identifier is absent until the store assigns one; the
/// owning user name is filled in by the store when a record is read back.
#[derive(Debug)]
pub struct Todo {
    pub id: Option<i64>,
    pub title: String,
    pub content: String,
    pub user_name: Option<String>,
}

/// The mathematical reading of a `Todo`: the same fields over sequences of
/// characters.
#[verifier::ext_equal]
pub ghost struct TodoView {
    pub id: Option<i64>,
    pub title: Seq<char>,
    pub content: Seq<char>,
    pub user_name: Option<Seq<char>>,
}

impl View for Todo {
    type V = TodoView;

    open spec fn view(&self) -> TodoView {
        TodoView {
            id: self.id,
            title: self.title@,
            content: self.content@,
            user_name: match self.user_name {
                Some(u) => Some(u@),
                None => None,
            },
        }
    }
}

impl Todo {
    /// A copy of this record; identifiers, texts and the owner name are all
    /// kept.
    pub fn duplicate(&self) -> (r: Todo)
        ensures
            r@ == self@,
    {
        Todo {
            id: self.id,
            title: self.title.clone(),
            content: self.content.clone(),
            user_name: match &self.user_name {
                Some(u) => Some(u.clone()),
                None => None,
            },
        }
    }

    /// A fresh, unsaved record owned by the default user.
    pub fn new(title: String, content: String) -> (r: Self)
        ensures
            r.id is None,
            r.title == title,
            r.content == content,
            r.user_name matches Some(u) && u@ == "root"@,
    {
        Self { id: None, title, content, user_name: Some("root".to_owned()) }
    }
}

/// A record identifier, as the store assigns them.
pub type ID = i64;

/// A requested operation on the todo store; consumed exactly once by the
/// action router.
pub enum Action {
    Save(Todo),
    Fetch,
    FetchById(ID),
    Delete,
    DeleteById(ID),
}

/// The uniform outcome vocabulary of the routers.
#[derive(Debug)]
pub enum TodoResponse {
    Done,
    One(Option<Todo>),
    All(Vec<Todo>),
    Empty,
}

/// A categorised failure. The category alone is recorded; errors never chain
/// to an underlying cause.
#[derive(Debug)]
pub struct TodoError {
    pub msg: String,
    pub error_type: TodoErrorType,
}

/// The closed set of failure categories.
#[derive(Clone, Copy, Debug, PartialEq, Eq, Structural)]
pub enum TodoErrorType {
    InitNotAvailable,
    UnableToInitialize,
    TestFailed,
    RecordNotFound,
}

impl TodoError {
    /// The fixed human-readable message for each category.
    pub fn build(todo: TodoErrorType) -> (r: TodoError)
        ensures
            r.error_type == todo,
            todo is InitNotAvailable ==> r.msg@ == "Please initialize application,use help"@,
            todo is UnableToInitialize ==> r.msg@ == "Unable to initizlize application, contact support"@,
            todo is TestFailed ==> r.msg@ == "Database check has failed"@,
            todo is RecordNotFound ==> r.msg@ == "Record Not Found"@,
    {
        match todo {
            TodoErrorType::InitNotAvailable => TodoError {
                msg: "Please initialize application,use help".to_owned(),
                error_type: TodoErrorType::InitNotAvailable,
            },
            TodoErrorType::UnableToInitialize => TodoError {
                msg: "Unable to initizlize application, contact support".to_owned(),
                error_type: TodoErrorType::UnableToInitialize,
            },
            TodoErrorType::TestFailed => TodoError {
                msg: "Database check has failed".to_owned(),
                error_type: TodoErrorType::TestFailed,
            },
            TodoErrorType::RecordNotFound => TodoError {
                msg: "Record Not Found".to_owned(),
                error_type: TodoErrorType::RecordNotFound,
            },
        }
    }
}

/// The two setup actions a caller can request from the setup router.
pub enum Setup {
    Init,
    Test,
}

/// Resolved configuration: a logical database name and whether it came from a
/// persisted source. The physical store path is always the logical name with
/// a fixed suffix appended; values are never mutated in place.
#[derive(Debug)]
pub struct Settings {
    pub db: String,
    pub is_saved: bool,
}

impl Settings {
    /// The built-in fallback configuration; not marked as saved.
    pub fn system_default() -> (r: Self)
        ensures
            r.db@ == "todo"@,
            !r.is_saved,
    {
        Self { db: "todo".to_owned(), is_saved: false }
    }

    pub fn create(db: String, is_saved: bool) -> (r: Self)
        ensures
            r.db == db,
            r.is_saved == is_saved,
    {
        Self { db, is_saved }
    }

    /// A copy with the logical name replaced; the saved flag is preserved.
    pub fn update(&self, db: String) -> (r: Self)
        ensures
            r.db == db,
            r.is_saved == self.is_saved,
    {
        Self { db, is_saved: self.is_saved }
    }

    /// The physical store path: the logical name with the fixed suffix.
    pub fn get_db(&self) -> (r: String)
        ensures
            r@ == self.db@ + ".store"@,
    {
        self.db.clone().concat(".store")
    }

    /// True iff this configuration was produced by a successful load from the
    /// persisted config file.
    pub fn is_config_available(&self) -> (r: bool)
        ensures
            r == self.is_saved,
    {
        self.is_saved
    }

    /// Reserved extension point; succeeds without doing anything.
    pub fn write_custom_config(&self) -> (r: Result<TodoResponse, TodoError>)
        ensures
            r matches Ok(resp) && resp is Done,
    {
        Ok(TodoResponse::Done)
    }
}

} // verus!
