//! What can be asked of a collection: conjunctions of field equalities, and
//! what a sequence of documents answers to them.

use crate::model::object_id::ObjectId;
use crate::model::todo_model::{Todo, TodoView};
use crate::model::user_model::{User, UserView};
use vstd::prelude::*;

verus! {

/// The least index at which a document satisfies a predicate.
pub open spec fn first_index<T>(docs: Seq<T>, pred: spec_fn(T) -> bool) -> Option<int>
    decreases docs.len(),
{
    if docs.len() == 0 {
        None
    } else {
        match first_index(docs.drop_last(), pred) {
            Some(i) => Some(i),
            None => if pred(docs.last()) {
                Some(docs.len() - 1)
            } else {
                None
            },
        }
    }
}

/// The first document that satisfies a predicate.
pub open spec fn first_match<T>(docs: Seq<T>, pred: spec_fn(T) -> bool) -> Option<T> {
    match first_index(docs, pred) {
        Some(i) => Some(docs[i]),
        None => None,
    }
}

/// The documents without the first that satisfies a predicate.
pub open spec fn without_first_match<T>(docs: Seq<T>, pred: spec_fn(T) -> bool) -> Seq<T> {
    match first_index(docs, pred) {
        Some(i) => docs.remove(i),
        None => docs,
    }
}

/// [`first_index`] is the least index of a document that satisfies the
/// predicate, and is `None` only where no document does.
pub proof fn lemma_first_index<T>(docs: Seq<T>, pred: spec_fn(T) -> bool)
    ensures
        match first_index(docs, pred) {
            Some(i) => {
                &&& 0 <= i < docs.len()
                &&& pred(docs[i])
                &&& forall|j: int| 0 <= j < i ==> !pred(#[trigger] docs[j])
            },
            None => forall|j: int| 0 <= j < docs.len() ==> !pred(#[trigger] docs[j]),
        },
    decreases docs.len(),
{
    if docs.len() > 0 {
        lemma_first_index(docs.drop_last(), pred);
        match first_index(docs.drop_last(), pred) {
            Some(i) => {
                assert(docs.drop_last()[i] == docs[i]);
                assert forall|j: int| 0 <= j < i implies !pred(#[trigger] docs[j]) by {
                    assert(docs.drop_last()[j] == docs[j]);
                }
            },
            None => {
                assert forall|j: int| 0 <= j < docs.len() - 1 implies !pred(#[trigger] docs[j]) by {
                    assert(docs.drop_last()[j] == docs[j]);
                }
            },
        }
    }
}

/// An index whose document satisfies the predicate, with no such document
/// before it, is the [`first_index`].
pub proof fn lemma_first_index_found<T>(docs: Seq<T>, pred: spec_fn(T) -> bool, i: int)
    requires
        0 <= i < docs.len(),
        pred(docs[i]),
        forall|j: int| 0 <= j < i ==> !pred(#[trigger] docs[j]),
    ensures
        first_index(docs, pred) == Some(i),
{
    lemma_first_index(docs, pred);
}

/// Where no document satisfies the predicate there is no [`first_index`].
pub proof fn lemma_first_index_absent<T>(docs: Seq<T>, pred: spec_fn(T) -> bool)
    requires
        forall|j: int| 0 <= j < docs.len() ==> !pred(#[trigger] docs[j]),
    ensures
        first_index(docs, pred) is None,
{
    lemma_first_index(docs, pred);
}

/// Filtering one document more keeps what was kept and adds the document
/// where it satisfies the predicate.
pub proof fn lemma_filter_next<T>(docs: Seq<T>, pred: spec_fn(T) -> bool, i: int)
    requires
        0 <= i < docs.len(),
    ensures
        docs.take(i + 1).filter(pred) == if pred(docs[i]) {
            docs.take(i).filter(pred).push(docs[i])
        } else {
            docs.take(i).filter(pred)
        },
{
    reveal(Seq::filter);
    assert(docs.take(i + 1).drop_last() =~= docs.take(i));
    assert(docs.take(i + 1).last() == docs[i]);
}

/// Filtering keeps a document exactly where there is a [`first_index`].
pub proof fn lemma_filter_len_first_index<T>(docs: Seq<T>, pred: spec_fn(T) -> bool)
    ensures
        (docs.filter(pred).len() > 0) == (first_index(docs, pred) is Some),
    decreases docs.len(),
{
    reveal(Seq::filter);
    if docs.len() > 0 {
        lemma_filter_len_first_index(docs.drop_last(), pred);
    }
}

/// Two predicates that agree on every document of a sequence have the same
/// [`first_index`] in it.
pub proof fn lemma_first_index_agrees<T>(docs: Seq<T>, p: spec_fn(T) -> bool, q: spec_fn(T) -> bool)
    requires
        forall|j: int| 0 <= j < docs.len() ==> p(#[trigger] docs[j]) == q(docs[j]),
    ensures
        first_index(docs, p) == first_index(docs, q),
{
    lemma_first_index(docs, p);
    lemma_first_index(docs, q);
}

/// A filter on tasks. Every filter names the owner: no task is ever looked
/// up, changed or removed by its identity alone.
#[derive(Clone, Copy, Debug)]
pub struct TodoFilter {
    /// The owner that a task must have.
    pub user_id: ObjectId,
    /// The identity that a task must have, where one is asked for.
    pub id: Option<ObjectId>,
}

impl TodoFilter {
    /// Whether the filter admits a task: the owner is the one named, and so
    /// is the identity where one is named.
    pub open spec fn admits(self, task: TodoView) -> bool {
        &&& task.user_id == self.user_id@
        &&& self.id matches Some(id) ==> task.id == Some(id@)
    }

    /// The filter as a predicate on tasks.
    pub open spec fn predicate(self) -> spec_fn(TodoView) -> bool {
        |task: TodoView| self.admits(task)
    }

    /// The filter that admits every task of one owner.
    pub fn owned_by(user_id: ObjectId) -> (filter: TodoFilter)
        ensures
            filter == (TodoFilter { user_id, id: None }),
    {
        TodoFilter { user_id, id: None }
    }

    /// The filter that admits the task of the given identity where it
    /// belongs to the given owner.
    pub fn owned_task(id: ObjectId, user_id: ObjectId) -> (filter: TodoFilter)
        ensures
            filter == (TodoFilter { user_id, id: Some(id) }),
    {
        TodoFilter { user_id, id: Some(id) }
    }

    /// Whether the filter admits a task.
    pub fn matches(&self, task: &Todo) -> (r: bool)
        ensures
            r == self.admits(task@),
    {
        if task.user_id != self.user_id {
            return false;
        }
        match self.id {
            Some(id) => match task.id {
                Some(task_id) => task_id == id,
                None => false,
            },
            None => true,
        }
    }
}

/// A filter on users: by name, by address, or both.
#[derive(Debug)]
pub struct UserFilter {
    pub username: Option<String>,
    pub email: Option<String>,
}

/// Text that may be absent, taken by its characters.
pub open spec fn text_view(text: Option<String>) -> Option<Seq<char>> {
    match text {
        Some(text) => Some(text@),
        None => None,
    }
}

impl UserFilter {
    /// Whether the filter admits a user: each field that it names is equal.
    pub open spec fn admits(self, user: UserView) -> bool {
        &&& self.username matches Some(username) ==> user.username == username@
        &&& self.email matches Some(email) ==> user.email == email@
    }

    /// The filter as a predicate on users.
    pub open spec fn predicate(self) -> spec_fn(UserView) -> bool {
        |user: UserView| self.admits(user)
    }

    /// The filter that admits the users of the given name.
    pub fn by_username(username: &str) -> (filter: UserFilter)
        ensures
            text_view(filter.username) == Some(username@),
            filter.email is None,
    {
        UserFilter { username: Some(username.to_owned()), email: None }
    }

    /// The filter that admits the users of the given address.
    pub fn by_email(email: &str) -> (filter: UserFilter)
        ensures
            filter.username is None,
            text_view(filter.email) == Some(email@),
    {
        UserFilter { username: None, email: Some(email.to_owned()) }
    }

    /// Whether the filter admits a user.
    pub fn matches(&self, user: &User) -> (r: bool)
        ensures
            r == self.admits(user@),
    {
        let name_ok = match &self.username {
            Some(username) => user.username == *username,
            None => true,
        };
        let email_ok = match &self.email {
            Some(email) => user.email == *email,
            None => true,
        };
        name_ok && email_ok
    }
}

/// The predicate that admits the users of the given name.
pub open spec fn has_username(username: Seq<char>) -> spec_fn(UserView) -> bool {
    |user: UserView| user.username == username
}

/// The predicate that admits the users of the given address.
pub open spec fn has_email(email: Seq<char>) -> spec_fn(UserView) -> bool {
    |user: UserView| user.email == email
}

} // verus!
