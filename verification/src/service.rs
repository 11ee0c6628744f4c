//! The action router: validates that configuration is usable, dispatches one
//! CRUD action to the store, and translates storage outcomes into the uniform
//! response and error vocabulary.

use vstd::prelude::*;

use crate::domain::Action;
use crate::domain::Settings;
use crate::domain::Todo;
use crate::domain::ID;
use crate::domain::TodoError;
use crate::domain::TodoErrorType;
use crate::domain::TodoResponse;
use crate::persistence::db_action;
use crate::persistence::CrudAction;
use crate::persistence::Response;

verus! {

/// How a save's storage outcome is reported: only a completed insert counts,
/// anything else surfaces as the not-initialized error.
pub fn save_outcome(resp: Response) -> (r: Result<TodoResponse, TodoError>)
    ensures
        resp is Success ==> (r matches Ok(t) && t is Done),
        !(resp is Success) ==> (r matches Err(e) && e.error_type is InitNotAvailable && e.msg@
            == "Please initialize application,use help"@),
{
    match resp {
        Response::Success => Ok(TodoResponse::Done),
        _ => Err(TodoError::build(TodoErrorType::InitNotAvailable)),
    }
}

/// How a fetch-all storage outcome is reported: the list as the store gave
/// it, and `Empty` for anything else; never a hard error.
pub fn fetch_outcome(resp: Response) -> (r: Result<TodoResponse, TodoError>)
    ensures
        (resp matches Response::List(v) ==> r matches Ok(t) && t matches TodoResponse::All(w)
            && w == v),
        !(resp is List) ==> (r matches Ok(t) && t is Empty),
{
    match resp {
        Response::List(result) => Ok(TodoResponse::All(result)),
        _ => Ok(TodoResponse::Empty),
    }
}

/// How a fetch-by-id storage outcome is reported: the zero-or-one result as
/// the store gave it, and `Empty` for anything else; never a hard error.
pub fn fetch_by_id_outcome(resp: Response) -> (r: Result<TodoResponse, TodoError>)
    ensures
        (resp matches Response::One(o) ==> r matches Ok(t) && t matches TodoResponse::One(p)
            && p == o),
        !(resp is One) ==> (r matches Ok(t) && t is Empty),
{
    match resp {
        Response::One(result) => Ok(TodoResponse::One(result)),
        _ => Ok(TodoResponse::Empty),
    }
}

/// How a delete's storage outcome is reported: only a completed delete
/// counts, anything else surfaces as the not-initialized error.
pub fn delete_outcome(resp: Response) -> (r: Result<TodoResponse, TodoError>)
    ensures
        resp is Success ==> (r matches Ok(t) && t is Done),
        !(resp is Success) ==> (r matches Err(e) && e.error_type is InitNotAvailable && e.msg@
            == "Please initialize application,use help"@),
{
    match resp {
        Response::Success => Ok(TodoResponse::Done),
        _ => Err(TodoError::build(TodoErrorType::InitNotAvailable)),
    }
}

fn save(todo: Todo, db: String) -> (r: Result<TodoResponse, TodoError>)
    ensures
        (r matches Ok(t) && t is Done) || (r matches Err(e) && e.error_type is InitNotAvailable
            && e.msg@ == "Please initialize application,use help"@),
{
    save_outcome(db_action(CrudAction::Save(todo), db))
}

fn fetch(db: String) -> (r: Result<TodoResponse, TodoError>)
    ensures
        r matches Ok(t) && (t is All || t is Empty),
{
    fetch_outcome(db_action(CrudAction::FindAll, db))
}

fn fetch_by_id(id: ID, db: String) -> (r: Result<TodoResponse, TodoError>)
    ensures
        r matches Ok(t) && (t is One || t is Empty),
{
    fetch_by_id_outcome(db_action(CrudAction::Find(id), db))
}

fn delete(db: String) -> (r: Result<TodoResponse, TodoError>)
    ensures
        (r matches Ok(t) && t is Done) || (r matches Err(e) && e.error_type is InitNotAvailable
            && e.msg@ == "Please initialize application,use help"@),
{
    delete_outcome(db_action(CrudAction::RemoveAll, db))
}

fn delete_by_id(id: ID, db: String) -> (r: Result<TodoResponse, TodoError>)
    ensures
        (r matches Ok(t) && t is Done) || (r matches Err(e) && e.error_type is InitNotAvailable
            && e.msg@ == "Please initialize application,use help"@),
{
    delete_outcome(db_action(CrudAction::Remove(id), db))
}

/// Dispatches one requested action. No storage operation is ever attempted
/// against an unconfigured store: without a loaded configuration every
/// action fails with the not-initialized error.
pub fn action_router(configuration: &Settings, action: Action) -> (r: Result<
    TodoResponse,
    TodoError,
>)
    ensures
        !configuration.is_saved ==> (r matches Err(e) && e.error_type is InitNotAvailable
            && e.msg@ == "Please initialize application,use help"@),
        configuration.is_saved ==> match action {
            Action::Save(_) => (r matches Ok(t) && t is Done) || (r matches Err(e)
                && e.error_type is InitNotAvailable && e.msg@ == "Please initialize application,use help"@),
            Action::Fetch => r matches Ok(t) && (t is All || t is Empty),
            Action::FetchById(_) => r matches Ok(t) && (t is One || t is Empty),
            Action::Delete => (r matches Ok(t) && t is Done) || (r matches Err(e)
                && e.error_type is InitNotAvailable && e.msg@ == "Please initialize application,use help"@),
            Action::DeleteById(_) => (r matches Ok(t) && t is Done) || (r matches Err(e)
                && e.error_type is InitNotAvailable && e.msg@ == "Please initialize application,use help"@),
        },
{
    let db = configuration.get_db();
    if configuration.is_config_available() {
        match action {
            Action::Save(todo) => save(todo, db),
            Action::Fetch => fetch(db),
            Action::FetchById(id) => fetch_by_id(id, db),
            Action::Delete => delete(db),
            Action::DeleteById(id) => delete_by_id(id, db),
        }
    } else {
        Err(TodoError::build(TodoErrorType::InitNotAvailable))
    }
}

} // verus!
