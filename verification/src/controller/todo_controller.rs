//! The handlers of the task routes.
//!
//! A handler resolves the caller from the authorization header, reads the
//! task's identity from the path where the route has one, and says what is
//! to be asked of the storage layer, always on the caller's behalf. The
//! functions named with `_as` take the resolved caller as an argument; the
//! functions named with `_reply` turn the storage layer's answer into the
//! handler's result.

use crate::database::filter::{first_index, lemma_first_index, TodoFilter};
use crate::database::todo_collection::{after_update, update_result, UpdateResult};
use crate::middleware::auth::{caller_identity, header_text, identity_result, resolve};
use crate::model::object_id::{hex_bytes, is_object_id_text, ObjectId};
use crate::model::todo_model::{Todo, TodoDocument, TodoDocumentView, TodoView};
use crate::service::todo_service::{wrote_one, TodoService};
use crate::service::token_service::TokenService;
use crate::utils::error::CustomError;
use vstd::prelude::*;

verus! {

/// What a request to create a task carries.
#[derive(Debug, PartialEq, Eq)]
pub struct CreateTodoRequest {
    pub title: String,
    pub description: String,
}

/// What a request to update a task carries: a value for each field that is
/// to change. A field that is absent keeps its value.
#[derive(Debug, PartialEq, Eq)]
pub struct UpdateTodoRequest {
    pub title: Option<String>,
    pub description: Option<String>,
    pub completed: Option<bool>,
}

/// The fields of an update as mathematical values.
pub struct UpdateTodoRequestView {
    pub title: Option<Seq<char>>,
    pub description: Option<Seq<char>>,
    pub completed: Option<bool>,
}

impl UpdateTodoRequestView {
    /// The task with the fields that the update carries written over it.
    pub open spec fn merged(self, task: TodoView) -> TodoView {
        TodoView {
            id: task.id,
            title: match self.title {
                Some(title) => title,
                None => task.title,
            },
            description: match self.description {
                Some(description) => description,
                None => task.description,
            },
            completed: match self.completed {
                Some(completed) => completed,
                None => task.completed,
            },
            user_id: task.user_id,
        }
    }

    /// Whether the update carries no field.
    pub open spec fn is_empty(self) -> bool {
        self.title is None && self.description is None && self.completed is None
    }
}

impl View for UpdateTodoRequest {
    type V = UpdateTodoRequestView;

    open spec fn view(&self) -> UpdateTodoRequestView {
        UpdateTodoRequestView {
            title: match self.title {
                Some(title) => Some(title@),
                None => None,
            },
            description: match self.description {
                Some(description) => Some(description@),
                None => None,
            },
            completed: self.completed,
        }
    }
}

impl UpdateTodoRequest {
    /// The task with the fields that the update carries written over it.
    /// Identity and owner are never written.
    pub fn apply(&self, task: Todo) -> (merged: Todo)
        ensures
            merged@ == self@.merged(task@),
    {
        Todo {
            id: task.id,
            title: match &self.title {
                Some(title) => title.clone(),
                None => task.title,
            },
            description: match &self.description {
                Some(description) => description.clone(),
                None => task.description,
            },
            completed: match self.completed {
                Some(completed) => completed,
                None => task.completed,
            },
            user_id: task.user_id,
        }
    }
}

/// The identity that the path of a request names.
///
/// A path without an identity, and one whose identity is not the text form
/// of one, are both [`CustomError::MalformedRequest`].
pub open spec fn path_identity(id: Option<Seq<char>>) -> Result<Seq<u8>, CustomError> {
    match id {
        Some(text) => if is_object_id_text(text) {
            Ok(hex_bytes(text))
        } else {
            Err(CustomError::MalformedRequest)
        },
        None => Err(CustomError::MalformedRequest),
    }
}

/// Reads the identity that the path of a request names.
pub fn parse_path_id(id: Option<&str>) -> (r: Result<ObjectId, CustomError>)
    ensures
        identity_result(r) == path_identity(header_text(id)),
{
    match id {
        Some(text) => match ObjectId::parse_str(text) {
            Some(id) => Ok(id),
            None => Err(CustomError::MalformedRequest),
        },
        None => Err(CustomError::MalformedRequest),
    }
}

/// What a handler asks of storage for one task of the caller: the filter
/// names the caller and the task. A caller that is not resolved fails first,
/// a path that names no task second.
pub open spec fn owned_task_plan(
    caller: Result<Seq<u8>, CustomError>,
    id: Option<Seq<char>>,
    r: Result<TodoFilter, CustomError>,
) -> bool {
    match caller {
        Ok(user_id) => match path_identity(id) {
            Ok(task_id) => {
                &&& r matches Ok(filter)
                &&& filter.user_id@ == user_id
                &&& filter.id matches Some(found)
                &&& found@ == task_id
            },
            Err(e) => r == Err::<TodoFilter, CustomError>(e),
        },
        Err(e) => r == Err::<TodoFilter, CustomError>(e),
    }
}

/// What the handler of a creation asks of storage: to store a task of the
/// caller, not completed, with the title and description of the request.
pub open spec fn create_plan(
    caller: Result<Seq<u8>, CustomError>,
    todo_info: CreateTodoRequest,
    r: Result<Todo, CustomError>,
) -> bool {
    match caller {
        Ok(user_id) => r matches Ok(todo) && todo@ == (TodoView {
            id: None,
            title: todo_info.title@,
            description: todo_info.description@,
            completed: false,
            user_id,
        }),
        Err(e) => r == Err::<Todo, CustomError>(e),
    }
}

/// What the handler of a listing asks of storage: the tasks of the caller.
pub open spec fn list_plan(
    caller: Result<Seq<u8>, CustomError>,
    r: Result<TodoFilter, CustomError>,
) -> bool {
    match caller {
        Ok(user_id) => r matches Ok(filter) && filter.user_id@ == user_id && filter.id is None,
        Err(e) => r == Err::<TodoFilter, CustomError>(e),
    }
}

/// Creating a task, for a caller that has been resolved: the task to store.
pub fn create_todo_as(
    caller: Result<ObjectId, CustomError>,
    todo_service: &TodoService,
    todo_info: &CreateTodoRequest,
) -> (r: Result<Todo, CustomError>)
    ensures
        create_plan(identity_result(caller), *todo_info, r),
{
    match caller {
        Ok(user_id) => Ok(
            todo_service.create_todo(
                todo_info.title.clone(),
                todo_info.description.clone(),
                user_id,
            ),
        ),
        Err(e) => Err(e),
    }
}

/// Creating a task: resolves the caller and gives the task to store.
pub fn create_todo(
    authorization: Option<&str>,
    tokens: &TokenService,
    todo_service: &TodoService,
    todo_info: &CreateTodoRequest,
) -> (r: Result<Todo, CustomError>)
    ensures
        exists|now: i64|
            create_plan(
                #[trigger] caller_identity(header_text(authorization), *tokens, now),
                *todo_info,
                r,
            ),
{
    let caller = resolve(authorization, tokens);
    let r = create_todo_as(caller, todo_service, todo_info);
    proof {
        let now = choose|now: i64|
            identity_result(caller) == #[trigger] caller_identity(
                header_text(authorization),
                *tokens,
                now,
            );
        assert(create_plan(caller_identity(header_text(authorization), *tokens, now), *todo_info, r));
    }
    r
}

/// The identity of the task created, from what storage answered.
pub fn create_todo_reply(todo_service: &TodoService, inserted: Result<Option<ObjectId>, String>) -> (r:
    Result<ObjectId, CustomError>)
    ensures
        r == match inserted {
            Ok(Some(id)) => Ok::<ObjectId, CustomError>(id),
            _ => Err::<ObjectId, CustomError>(CustomError::StorageError),
        },
{
    todo_service.create_todo_result(inserted)
}

/// Listing the caller's tasks, for a caller that has been resolved: the
/// filter to find them with.
pub fn list_all_as(caller: Result<ObjectId, CustomError>, todo_service: &TodoService) -> (r: Result<
    TodoFilter,
    CustomError,
>)
    ensures
        list_plan(identity_result(caller), r),
{
    match caller {
        Ok(user_id) => Ok(todo_service.list_todos(user_id)),
        Err(e) => Err(e),
    }
}

/// Listing the caller's tasks: resolves the caller and gives the filter to
/// find them with.
pub fn list_all(authorization: Option<&str>, tokens: &TokenService, todo_service: &TodoService) -> (r:
    Result<TodoFilter, CustomError>)
    ensures
        exists|now: i64|
            list_plan(#[trigger] caller_identity(header_text(authorization), *tokens, now), r),
{
    let caller = resolve(authorization, tokens);
    let r = list_all_as(caller, todo_service);
    proof {
        let now = choose|now: i64|
            identity_result(caller) == #[trigger] caller_identity(
                header_text(authorization),
                *tokens,
                now,
            );
        assert(list_plan(caller_identity(header_text(authorization), *tokens, now), r));
    }
    r
}

/// The caller's tasks, from what storage answered.
pub fn list_all_reply(todo_service: &TodoService, found: Result<Vec<Todo>, String>) -> (r: Result<
    Vec<Todo>,
    CustomError,
>)
    ensures
        match found {
            Ok(todos) => r == Ok::<Vec<Todo>, CustomError>(todos),
            Err(_) => r == Err::<Vec<Todo>, CustomError>(CustomError::StorageError),
        },
{
    todo_service.list_todos_result(found)
}

/// Reading one task, for a caller that has been resolved: the filter to
/// find it with.
pub fn list_one_as(
    caller: Result<ObjectId, CustomError>,
    todo_service: &TodoService,
    id: Option<&str>,
) -> (r: Result<TodoFilter, CustomError>)
    ensures
        owned_task_plan(identity_result(caller), header_text(id), r),
{
    match caller {
        Ok(user_id) => match parse_path_id(id) {
            Ok(task_id) => Ok(todo_service.get_todo(task_id, user_id)),
            Err(e) => Err(e),
        },
        Err(e) => Err(e),
    }
}

/// Reading one task: resolves the caller, reads the task's identity from
/// the path and gives the filter to find the task with.
pub fn list_one(
    authorization: Option<&str>,
    tokens: &TokenService,
    todo_service: &TodoService,
    id: Option<&str>,
) -> (r: Result<TodoFilter, CustomError>)
    ensures
        exists|now: i64|
            owned_task_plan(
                #[trigger] caller_identity(header_text(authorization), *tokens, now),
                header_text(id),
                r,
            ),
{
    let caller = resolve(authorization, tokens);
    let r = list_one_as(caller, todo_service, id);
    proof {
        let now = choose|now: i64|
            identity_result(caller) == #[trigger] caller_identity(
                header_text(authorization),
                *tokens,
                now,
            );
        assert(owned_task_plan(
            caller_identity(header_text(authorization), *tokens, now),
            header_text(id),
            r,
        ));
    }
    r
}

/// The task read, from what storage answered; [`CustomError::NotFound`]
/// where it found none.
pub fn list_one_reply(todo_service: &TodoService, found: Result<Option<Todo>, String>) -> (r: Result<
    Todo,
    CustomError,
>)
    ensures
        match found {
            Ok(Some(todo)) => r == Ok::<Todo, CustomError>(todo),
            Ok(None) => r == Err::<Todo, CustomError>(CustomError::NotFound),
            Err(_) => r == Err::<Todo, CustomError>(CustomError::StorageError),
        },
{
    todo_service.get_todo_result(found)
}

/// Updating a task, for a caller that has been resolved: the filter to
/// fetch the task with before anything is written.
pub fn update_todo_as(
    caller: Result<ObjectId, CustomError>,
    todo_service: &TodoService,
    id: Option<&str>,
) -> (r: Result<TodoFilter, CustomError>)
    ensures
        owned_task_plan(identity_result(caller), header_text(id), r),
{
    list_one_as(caller, todo_service, id)
}

/// Updating a task: resolves the caller, reads the task's identity from the
/// path and gives the filter to fetch the task with before anything is
/// written.
pub fn update_todo(
    authorization: Option<&str>,
    tokens: &TokenService,
    todo_service: &TodoService,
    id: Option<&str>,
) -> (r: Result<TodoFilter, CustomError>)
    ensures
        exists|now: i64|
            owned_task_plan(
                #[trigger] caller_identity(header_text(authorization), *tokens, now),
                header_text(id),
                r,
            ),
{
    list_one(authorization, tokens, todo_service, id)
}

/// The second step of an update: merges the request into the task that
/// storage fetched and gives the filter and the fields to write.
///
/// The filter is the one that the task was fetched with. Fails with
/// [`CustomError::NotFound`] where storage fetched no task, as for a task
/// that does not exist.
pub fn update_todo_merge(
    todo_service: &TodoService,
    filter: TodoFilter,
    found: Result<Option<Todo>, String>,
    todo_update: &UpdateTodoRequest,
) -> (r: Result<(TodoFilter, TodoDocument), CustomError>)
    ensures
        match found {
            Ok(Some(task)) => r matches Ok(write) && write.0 == filter && write.1@
                == todo_update@.merged(task@).document(),
            Ok(None) => r == Err::<(TodoFilter, TodoDocument), CustomError>(
                CustomError::NotFound,
            ),
            Err(_) => r == Err::<(TodoFilter, TodoDocument), CustomError>(
                CustomError::StorageError,
            ),
        },
{
    match todo_service.get_todo_result(found) {
        Ok(task) => {
            let merged = todo_update.apply(task);
            Ok((filter, merged.to_doc()))
        },
        Err(e) => Err(e),
    }
}

/// The outcome of an update, from what storage answered to the write.
///
/// A write that reached no task is [`CustomError::NotFound`]. A write of
/// values that the task held already is a success like any other.
pub fn update_todo_reply(todo_service: &TodoService, updated: Result<UpdateResult, String>) -> (r:
    Result<(), CustomError>)
    ensures
        r == match updated {
            Ok(result) => if wrote_one(result) {
                Ok::<(), CustomError>(())
            } else {
                Err::<(), CustomError>(CustomError::NotFound)
            },
            Err(_) => Err::<(), CustomError>(CustomError::StorageError),
        },
{
    match todo_service.update_todo_result(updated) {
        Ok(true) => Ok(()),
        Ok(false) => Err(CustomError::NotFound),
        Err(e) => Err(e),
    }
}

/// Removing a task, for a caller that has been resolved: the filter to
/// remove it with.
pub fn delete_todo_as(
    caller: Result<ObjectId, CustomError>,
    todo_service: &TodoService,
    id: Option<&str>,
) -> (r: Result<TodoFilter, CustomError>)
    ensures
        owned_task_plan(identity_result(caller), header_text(id), r),
{
    match caller {
        Ok(user_id) => match parse_path_id(id) {
            Ok(task_id) => Ok(todo_service.delete_todo(task_id, user_id)),
            Err(e) => Err(e),
        },
        Err(e) => Err(e),
    }
}

/// Removing a task: resolves the caller, reads the task's identity from the
/// path and gives the filter to remove the task with.
pub fn delete_todo(
    authorization: Option<&str>,
    tokens: &TokenService,
    todo_service: &TodoService,
    id: Option<&str>,
) -> (r: Result<TodoFilter, CustomError>)
    ensures
        exists|now: i64|
            owned_task_plan(
                #[trigger] caller_identity(header_text(authorization), *tokens, now),
                header_text(id),
                r,
            ),
{
    let caller = resolve(authorization, tokens);
    let r = delete_todo_as(caller, todo_service, id);
    proof {
        let now = choose|now: i64|
            identity_result(caller) == #[trigger] caller_identity(
                header_text(authorization),
                *tokens,
                now,
            );
        assert(owned_task_plan(
            caller_identity(header_text(authorization), *tokens, now),
            header_text(id),
            r,
        ));
    }
    r
}

/// The outcome of a removal, from what storage answered: a removal that
/// reached no task is [`CustomError::NotFound`].
pub fn delete_todo_reply(todo_service: &TodoService, deleted: Result<u64, String>) -> (r: Result<
    (),
    CustomError,
>)
    ensures
        r == match deleted {
            Ok(count) => if count == 1 {
                Ok::<(), CustomError>(())
            } else {
                Err::<(), CustomError>(CustomError::NotFound)
            },
            Err(_) => Err::<(), CustomError>(CustomError::StorageError),
        },
{
    match todo_service.delete_todo_result(deleted) {
        Ok(true) => Ok(()),
        Ok(false) => Err(CustomError::NotFound),
        Err(e) => Err(e),
    }
}

/// An update that carries no field changes nothing and still succeeds: the
/// fields written are those that the task holds, the tasks stay as they
/// are, and the write counts as one task written.
pub proof fn lemma_empty_update_changes_nothing(
    docs: Seq<TodoView>,
    filter: TodoFilter,
    todo_update: UpdateTodoRequestView,
)
    requires
        todo_update.is_empty(),
        first_index(docs, filter.predicate()) is Some,
    ensures
        ({
            let task = docs[first_index(docs, filter.predicate())->0];
            let doc = todo_update.merged(task).document();
            &&& todo_update.merged(task) == task
            &&& after_update(docs, filter, doc) == docs
            &&& update_result(docs, filter, doc) == (UpdateResult {
                matched_count: 1,
                modified_count: 0,
            })
            &&& wrote_one(update_result(docs, filter, doc))
        }),
{
    lemma_first_index(docs, filter.predicate());
    let i = first_index(docs, filter.predicate())->0;
    let task = docs[i];
    let doc = todo_update.merged(task).document();
    assert(doc.write_over(task) == task);
    assert(after_update(docs, filter, doc) =~= docs);
}

/// An update never moves a task to another owner nor gives it another
/// identity, whatever the request carries.
pub proof fn lemma_update_keeps_identity_and_owner(
    docs: Seq<TodoView>,
    filter: TodoFilter,
    doc: TodoDocumentView,
    at: int,
)
    requires
        0 <= at < docs.len(),
    ensures
        after_update(docs, filter, doc).len() == docs.len(),
        after_update(docs, filter, doc)[at].id == docs[at].id,
        after_update(docs, filter, doc)[at].user_id == docs[at].user_id,
{
    lemma_first_index(docs, filter.predicate());
}

} // verus!
