//! The task store: what is asked of the storage layer for each operation on
//! tasks, and what its answer means.
//!
//! The service holds no state. Each operation comes in two halves: one makes
//! the filter or document to hand to the storage layer, the other, named
//! with `_result`, reads the answer. Every filter names the caller, so that
//! a task is never reached by its identity alone. The operations named as in
//! the second half of this file run both halves against a [`TodoCollection`].

use crate::database::filter::{
    first_index, first_match, lemma_first_index, without_first_match, TodoFilter,
};
use crate::database::todo_collection::{
    after_update, todo_views, TodoCollection, UpdateResult,
};
use crate::model::object_id::ObjectId;
use crate::model::todo_model::{Todo, TodoDocument, TodoDocumentView, TodoView};
use crate::utils::error::CustomError;
use vstd::prelude::*;

verus! {

/// The operations on tasks.
pub struct TodoService {}

/// What an update is taken to have done: it wrote a task when the filter
/// admitted exactly one, whether or not the values written were new.
pub open spec fn wrote_one(result: UpdateResult) -> bool {
    result.matched_count == 1
}

impl TodoService {
    /// The service. It holds nothing.
    pub fn new() -> (service: TodoService) {
        TodoService {}
    }

    /// The task to store for a new task of `user_id`: not completed, and
    /// without an identity, which storage assigns.
    pub fn create_todo(&self, title: String, description: String, user_id: ObjectId) -> (todo: Todo)
        ensures
            todo@ == (TodoView {
                id: None,
                title: title@,
                description: description@,
                completed: false,
                user_id: user_id@,
            }),
    {
        Todo::new(title, description, user_id)
    }

    /// The identity of the stored task, from what storage answered.
    ///
    /// Fails with [`CustomError::StorageError`] where storage failed or named
    /// no identity.
    pub fn create_todo_result(&self, inserted: Result<Option<ObjectId>, String>) -> (r: Result<
        ObjectId,
        CustomError,
    >)
        ensures
            r == match inserted {
                Ok(Some(id)) => Ok::<ObjectId, CustomError>(id),
                _ => Err::<ObjectId, CustomError>(CustomError::StorageError),
            },
    {
        match inserted {
            Ok(Some(id)) => Ok(id),
            _ => Err(CustomError::StorageError),
        }
    }

    /// The filter that finds the tasks of `user_id`.
    pub fn list_todos(&self, user_id: ObjectId) -> (filter: TodoFilter)
        ensures
            filter == (TodoFilter { user_id, id: None }),
    {
        TodoFilter::owned_by(user_id)
    }

    /// The tasks found, from what storage answered. None found is an empty
    /// list, not a failure.
    pub fn list_todos_result(&self, found: Result<Vec<Todo>, String>) -> (r: Result<
        Vec<Todo>,
        CustomError,
    >)
        ensures
            match found {
                Ok(todos) => r == Ok::<Vec<Todo>, CustomError>(todos),
                Err(_) => r == Err::<Vec<Todo>, CustomError>(CustomError::StorageError),
            },
    {
        match found {
            Ok(todos) => Ok(todos),
            Err(_) => Err(CustomError::StorageError),
        }
    }

    /// The filter that finds the task `id` where it belongs to `user_id`.
    pub fn get_todo(&self, id: ObjectId, user_id: ObjectId) -> (filter: TodoFilter)
        ensures
            filter == (TodoFilter { user_id, id: Some(id) }),
    {
        TodoFilter::owned_task(id, user_id)
    }

    /// The task found, from what storage answered.
    ///
    /// Fails with [`CustomError::NotFound`] where storage found none: the
    /// caller is not told whether the task exists under another owner.
    pub fn get_todo_result(&self, found: Result<Option<Todo>, String>) -> (r: Result<
        Todo,
        CustomError,
    >)
        ensures
            match found {
                Ok(Some(todo)) => r == Ok::<Todo, CustomError>(todo),
                Ok(None) => r == Err::<Todo, CustomError>(CustomError::NotFound),
                Err(_) => r == Err::<Todo, CustomError>(CustomError::StorageError),
            },
    {
        match found {
            Ok(Some(todo)) => Ok(todo),
            Ok(None) => Err(CustomError::NotFound),
            Err(_) => Err(CustomError::StorageError),
        }
    }

    /// The filter and the fields to write for an update of the task `id` of
    /// `user_id` to the values of `todo`. Identity and owner are not written.
    pub fn update_todo(&self, id: ObjectId, user_id: ObjectId, todo: &Todo) -> (r: (
        TodoFilter,
        TodoDocument,
    ))
        ensures
            r.0 == (TodoFilter { user_id, id: Some(id) }),
            r.1@ == todo@.document(),
    {
        (TodoFilter::owned_task(id, user_id), todo.to_doc())
    }

    /// Whether the update wrote exactly one task, from what storage answered.
    ///
    /// A task that held the written values already counts as written.
    pub fn update_todo_result(&self, updated: Result<UpdateResult, String>) -> (r: Result<
        bool,
        CustomError,
    >)
        ensures
            r == match updated {
                Ok(result) => Ok::<bool, CustomError>(wrote_one(result)),
                Err(_) => Err::<bool, CustomError>(CustomError::StorageError),
            },
    {
        match updated {
            Ok(result) => Ok(result.matched_count == 1),
            Err(_) => Err(CustomError::StorageError),
        }
    }

    /// The filter that removes the task `id` where it belongs to `user_id`.
    pub fn delete_todo(&self, id: ObjectId, user_id: ObjectId) -> (filter: TodoFilter)
        ensures
            filter == (TodoFilter { user_id, id: Some(id) }),
    {
        TodoFilter::owned_task(id, user_id)
    }

    /// Whether exactly one task was removed, from what storage answered.
    pub fn delete_todo_result(&self, deleted: Result<u64, String>) -> (r: Result<bool, CustomError>)
        ensures
            r == match deleted {
                Ok(count) => Ok::<bool, CustomError>(count == 1),
                Err(_) => Err::<bool, CustomError>(CustomError::StorageError),
            },
    {
        match deleted {
            Ok(count) => Ok(count == 1),
            Err(_) => Err(CustomError::StorageError),
        }
    }
}

/// The operations run against a collection held in memory.
impl TodoService {
    /// Creates a task of `owner`, not completed, and returns the identity
    /// that storage assigned to it.
    ///
    /// Fails with [`CustomError::StorageError`], and stores nothing, only
    /// where the collection is exhausted.
    pub fn create(
        &self,
        todos: &mut TodoCollection,
        title: String,
        description: String,
        owner: ObjectId,
    ) -> (r: Result<ObjectId, CustomError>)
        requires
            old(todos).well_formed(),
        ensures
            final(todos).well_formed(),
            match r {
                Ok(id) => {
                    &&& !old(todos).exhausted()
                    &&& final(todos).assigned() == old(todos).assigned() + 1
                    &&& final(todos)@ == old(todos)@.push(
                        TodoView {
                            id: Some(id@),
                            title: title@,
                            description: description@,
                            completed: false,
                            user_id: owner@,
                        },
                    )
                    &&& forall|i: int|
                        0 <= i < old(todos)@.len() ==> (#[trigger] old(todos)@[i]).id != Some(id@)
                },
                Err(e) => {
                    &&& e == CustomError::StorageError
                    &&& old(todos).exhausted()
                    &&& final(todos).assigned() == old(todos).assigned()
                    &&& final(todos)@ == old(todos)@
                },
            },
    {
        let todo = self.create_todo(title, description, owner);
        let inserted = todos.insert_one(todo);
        self.create_todo_result(inserted)
    }

    /// The tasks of `owner`, in the order of their creation; an empty list
    /// where there are none.
    pub fn list_for_owner(&self, todos: &TodoCollection, owner: ObjectId) -> (r: Result<
        Vec<Todo>,
        CustomError,
    >)
        ensures
            r matches Ok(found) && todo_views(found@) == todos@.filter(
                (TodoFilter { user_id: owner, id: None }).predicate(),
            ),
    {
        let filter = self.list_todos(owner);
        self.list_todos_result(todos.find(&filter))
    }

    /// The task `id`, where it belongs to `owner`; [`CustomError::NotFound`]
    /// otherwise, whether or not a task `id` exists.
    pub fn get_owned(&self, todos: &TodoCollection, id: ObjectId, owner: ObjectId) -> (r: Result<
        Todo,
        CustomError,
    >)
        ensures
            match first_match(todos@, (TodoFilter { user_id: owner, id: Some(id) }).predicate()) {
                Some(task) => r matches Ok(todo) && todo@ == task,
                None => r == Err::<Todo, CustomError>(CustomError::NotFound),
            },
    {
        let filter = self.get_todo(id, owner);
        self.get_todo_result(todos.find_one(&filter))
    }

    /// Writes the values of `todo` over the task `id`, where it belongs to
    /// `owner`, and says whether a task was written. The task keeps its
    /// identity and its owner.
    pub fn update(
        &self,
        todos: &mut TodoCollection,
        id: ObjectId,
        owner: ObjectId,
        todo: &Todo,
    ) -> (r: Result<bool, CustomError>)
        requires
            old(todos).well_formed(),
        ensures
            final(todos).well_formed(),
            final(todos).assigned() == old(todos).assigned(),
            final(todos)@ == after_update(
                old(todos)@,
                TodoFilter { user_id: owner, id: Some(id) },
                todo@.document(),
            ),
            r == Ok::<bool, CustomError>(
                first_index(
                    old(todos)@,
                    (TodoFilter { user_id: owner, id: Some(id) }).predicate(),
                ) is Some,
            ),
    {
        let (filter, doc) = self.update_todo(id, owner, todo);
        let updated = todos.update_one(&filter, &doc);
        self.update_todo_result(updated)
    }

    /// Removes the task `id`, where it belongs to `owner`, and says whether
    /// a task was removed.
    pub fn delete(&self, todos: &mut TodoCollection, id: ObjectId, owner: ObjectId) -> (r: Result<
        bool,
        CustomError,
    >)
        requires
            old(todos).well_formed(),
        ensures
            final(todos).well_formed(),
            final(todos).assigned() == old(todos).assigned(),
            match first_index(
                old(todos)@,
                (TodoFilter { user_id: owner, id: Some(id) }).predicate(),
            ) {
                Some(i) => final(todos)@ == old(todos)@.remove(i) && r == Ok::<bool, CustomError>(
                    true,
                ),
                None => final(todos)@ == old(todos)@ && r == Ok::<bool, CustomError>(false),
            },
    {
        let filter = self.delete_todo(id, owner);
        let deleted = todos.delete_one(&filter);
        self.delete_todo_result(deleted)
    }
}

/// A task that a filter reaches belongs to the owner that the filter names:
/// the first task that it admits, which is the one that a lookup returns,
/// an update writes and a removal removes, and every task that it lists.
pub proof fn lemma_filter_reaches_only_the_owner(docs: Seq<TodoView>, filter: TodoFilter)
    ensures
        first_index(docs, filter.predicate()) matches Some(i) ==> docs[i].user_id
            == filter.user_id@,
        first_match(docs, filter.predicate()) matches Some(task) ==> task.user_id
            == filter.user_id@,
        forall|k: int|
            0 <= k < docs.filter(filter.predicate()).len() ==> (#[trigger] docs.filter(
                filter.predicate(),
            )[k]).user_id == filter.user_id@,
{
    lemma_first_index(docs, filter.predicate());
    assert forall|k: int| 0 <= k < docs.filter(filter.predicate()).len() implies (
    #[trigger] docs.filter(filter.predicate())[k]).user_id == filter.user_id@ by {
        docs.lemma_filter_pred(filter.predicate(), k);
    }
}

/// A task of one user is out of reach of every other: with the identity of
/// another user, and even with the right identity of the task, a lookup does
/// not return it, a listing does not hold it, and an update and a removal
/// leave it where it is and as it is.
pub proof fn lemma_task_is_isolated_from_other_users(
    docs: Seq<TodoView>,
    at: int,
    id: Option<ObjectId>,
    other: ObjectId,
    doc: TodoDocumentView,
)
    requires
        0 <= at < docs.len(),
        docs[at].user_id != other@,
    ensures
        first_match(docs, (TodoFilter { user_id: other, id }).predicate()) != Some(docs[at]),
        !docs.filter((TodoFilter { user_id: other, id }).predicate()).contains(docs[at]),
        first_index(docs, (TodoFilter { user_id: other, id }).predicate()) != Some(at),
        after_update(docs, TodoFilter { user_id: other, id }, doc).len() == docs.len(),
        after_update(docs, TodoFilter { user_id: other, id }, doc)[at] == docs[at],
        without_first_match(docs, (TodoFilter { user_id: other, id }).predicate()).contains(
            docs[at],
        ),
{
    let filter = TodoFilter { user_id: other, id };
    lemma_filter_reaches_only_the_owner(docs, filter);
    lemma_first_index(docs, filter.predicate());
    let listed = docs.filter(filter.predicate());
    if listed.contains(docs[at]) {
        let k = choose|k: int| 0 <= k < listed.len() && listed[k] == docs[at];
        assert(listed[k].user_id == other@);
    }
    match first_index(docs, filter.predicate()) {
        Some(i) => {
            let rest = docs.remove(i);
            if at < i {
                assert(rest[at] == docs[at]);
            } else {
                assert(rest[at - 1] == docs[at]);
            }
        },
        None => {
            assert(docs[at] == docs[at]);
        },
    }
}

} // verus!
