//! Tasks: what a user wants done, and whether it is.

use crate::model::object_id::ObjectId;
use vstd::prelude::*;

verus! {

/// A task record.
#[derive(Debug, PartialEq, Eq)]
pub struct Todo {
    /// The task's identity: `None` until storage has assigned one.
    pub id: Option<ObjectId>,
    pub title: String,
    pub description: String,
    pub completed: bool,
    /// The identity of the user who created the task and alone may see or
    /// change it. It is set at creation and never changes.
    pub user_id: ObjectId,
}

/// A task record as a mathematical value.
pub struct TodoView {
    pub id: Option<Seq<u8>>,
    pub title: Seq<char>,
    pub description: Seq<char>,
    pub completed: bool,
    pub user_id: Seq<u8>,
}

/// An identity that may be absent, taken by its bytes.
pub open spec fn id_view(id: Option<ObjectId>) -> Option<Seq<u8>> {
    match id {
        Some(id) => Some(id@),
        None => None,
    }
}

impl View for Todo {
    type V = TodoView;

    open spec fn view(&self) -> TodoView {
        TodoView {
            id: id_view(self.id),
            title: self.title@,
            description: self.description@,
            completed: self.completed,
            user_id: self.user_id@,
        }
    }
}

impl Clone for Todo {
    fn clone(&self) -> (copy: Todo)
        ensures
            copy@ == self@,
            copy == *self,
    {
        Todo {
            id: self.id,
            title: self.title.clone(),
            description: self.description.clone(),
            completed: self.completed,
            user_id: self.user_id,
        }
    }
}

/// The fields of a task that an update writes: all but its identity and its
/// owner.
#[derive(Debug, PartialEq, Eq)]
pub struct TodoDocument {
    pub title: String,
    pub description: String,
    pub completed: bool,
}

/// The written fields of a task as a mathematical value.
pub struct TodoDocumentView {
    pub title: Seq<char>,
    pub description: Seq<char>,
    pub completed: bool,
}

impl View for TodoDocument {
    type V = TodoDocumentView;

    open spec fn view(&self) -> TodoDocumentView {
        TodoDocumentView {
            title: self.title@,
            description: self.description@,
            completed: self.completed,
        }
    }
}

impl TodoDocumentView {
    /// The task that results from writing these fields over `task`: identity
    /// and owner stay.
    pub open spec fn write_over(self, task: TodoView) -> TodoView {
        TodoView {
            id: task.id,
            title: self.title,
            description: self.description,
            completed: self.completed,
            user_id: task.user_id,
        }
    }
}

impl TodoView {
    /// The fields of the task that an update writes.
    pub open spec fn document(self) -> TodoDocumentView {
        TodoDocumentView {
            title: self.title,
            description: self.description,
            completed: self.completed,
        }
    }
}

impl Todo {
    /// A task that is not yet stored: without an identity, and not completed.
    pub fn new(title: String, description: String, user_id: ObjectId) -> (todo: Todo)
        ensures
            todo@ == (TodoView {
                id: None,
                title: title@,
                description: description@,
                completed: false,
                user_id: user_id@,
            }),
    {
        Todo { id: None, title, description, completed: false, user_id }
    }

    /// Marks the task as completed or as open again.
    pub fn set_completed(&mut self, completed: bool)
        ensures
            final(self)@ == (TodoView { completed, ..old(self)@ }),
    {
        self.completed = completed;
    }

    /// The fields of the task that an update writes.
    pub fn to_doc(&self) -> (doc: TodoDocument)
        ensures
            doc@ == self@.document(),
    {
        TodoDocument {
            title: self.title.clone(),
            description: self.description.clone(),
            completed: self.completed,
        }
    }
}

} // verus!
