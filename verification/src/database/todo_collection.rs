//! The collection of tasks, held in memory.
//!
//! It answers the calls that the services make of the storage layer, one
//! document at a time, and is what the services' results are stated against.

use crate::database::filter::{
    first_index, first_match, lemma_filter_next, lemma_first_index_absent,
    lemma_first_index_found, without_first_match, TodoFilter,
};
use crate::model::object_id::{sequence_number, ObjectId};
use crate::model::todo_model::{Todo, TodoDocument, TodoDocumentView, TodoView};
use vstd::prelude::*;

verus! {

/// What an update did.
#[derive(Clone, Copy, Debug, PartialEq, Eq, Structural)]
pub struct UpdateResult {
    /// How many documents the filter admitted and the update was applied to:
    /// none or one.
    pub matched_count: u64,
    /// How many documents the update changed: none where the document held
    /// the written values already.
    pub modified_count: u64,
}

/// The tasks as mathematical values.
pub open spec fn todo_views(todos: Seq<Todo>) -> Seq<TodoView> {
    todos.map_values(|todo: Todo| todo@)
}

/// A task that may be absent, as a mathematical value.
pub open spec fn todo_option_view(todo: Option<Todo>) -> Option<TodoView> {
    match todo {
        Some(todo) => Some(todo@),
        None => None,
    }
}

/// The tasks after an update that writes `doc` over the first task that the
/// filter admits.
pub open spec fn after_update(docs: Seq<TodoView>, filter: TodoFilter, doc: TodoDocumentView) -> Seq<
    TodoView,
> {
    match first_index(docs, filter.predicate()) {
        Some(i) => docs.update(i, doc.write_over(docs[i])),
        None => docs,
    }
}

/// What an update that writes `doc` over the first task that the filter
/// admits reports.
pub open spec fn update_result(docs: Seq<TodoView>, filter: TodoFilter, doc: TodoDocumentView) -> UpdateResult {
    match first_index(docs, filter.predicate()) {
        Some(i) => UpdateResult {
            matched_count: 1,
            modified_count: if docs[i].document() == doc {
                0
            } else {
                1
            },
        },
        None => UpdateResult { matched_count: 0, modified_count: 0 },
    }
}

/// A collection of tasks. It assigns every task that it stores an identity
/// that no task stored in it before has had.
pub struct TodoCollection {
    docs: Vec<Todo>,
    next: u64,
}

impl View for TodoCollection {
    type V = Seq<TodoView>;

    closed spec fn view(&self) -> Seq<TodoView> {
        todo_views(self.docs@)
    }
}

impl TodoCollection {
    /// Every task in the collection has an identity, and the collection has
    /// not yet handed out the identities that it will assign.
    pub closed spec fn well_formed(&self) -> bool {
        forall|i: int|
            0 <= i < self.docs@.len() ==> {
                &&& (#[trigger] self.docs@[i]).id matches Some(id)
                &&& sequence_number(id@) < self.next
            }
    }

    /// How many identities the collection has assigned since it was made.
    /// Identities are numbered in the order in which they are assigned, and
    /// a number is not assigned again when its task is removed.
    pub closed spec fn assigned(&self) -> nat {
        self.next as nat
    }

    /// Whether the collection has run out of identities and stores no more:
    /// it assigns `u64::MAX` of them.
    pub open spec fn exhausted(&self) -> bool {
        self.assigned() == u64::MAX
    }

    /// An empty collection that has assigned no identity yet, and so has
    /// all of them to assign.
    pub fn new() -> (collection: TodoCollection)
        ensures
            collection@ == Seq::<TodoView>::empty(),
            collection.well_formed(),
            collection.assigned() == 0,
            !collection.exhausted(),
    {
        let collection = TodoCollection { docs: Vec::new(), next: 0 };
        assert(collection@ =~= Seq::<TodoView>::empty());
        collection
    }

    /// How many tasks the collection holds.
    pub fn len(&self) -> (n: usize)
        ensures
            n == self@.len(),
    {
        self.docs.len()
    }

    fn position(&self, filter: &TodoFilter) -> (r: Option<usize>)
        ensures
            match r {
                Some(i) => first_index(self@, filter.predicate()) == Some(i as int) && i
                    < self.docs@.len(),
                None => first_index(self@, filter.predicate()) is None,
            },
    {
        let mut i: usize = 0;
        while i < self.docs.len()
            invariant
                i <= self.docs@.len(),
                forall|j: int| 0 <= j < i ==> !(filter.predicate())(#[trigger] self@[j]),
            decreases self.docs@.len() - i,
        {
            if filter.matches(&self.docs[i]) {
                proof {
                    assert((filter.predicate())(self@[i as int]));
                    lemma_first_index_found(self@, filter.predicate(), i as int);
                }
                return Some(i);
            }
            assert(!(filter.predicate())(self@[i as int]));
            i += 1;
        }
        proof {
            lemma_first_index_absent(self@, filter.predicate());
        }
        None
    }

    /// Stores a task and assigns it an identity.
    ///
    /// The task must come without an identity: the collection assigns one
    /// that no task in it has. The call fails, and changes nothing, for a task
    /// that brings an identity and for a collection that is exhausted.
    pub fn insert_one(&mut self, todo: Todo) -> (r: Result<Option<ObjectId>, String>)
        requires
            old(self).well_formed(),
        ensures
            final(self).well_formed(),
            r is Ok <==> todo.id is None && !old(self).exhausted(),
            final(self).assigned() == old(self).assigned() + if r is Ok {
                1nat
            } else {
                0nat
            },
            match r {
                Ok(Some(id)) => {
                    &&& sequence_number(id@) == old(self).assigned()
                    &&& final(self)@ == old(self)@.push(TodoView { id: Some(id@), ..todo@ })
                    &&& forall|i: int|
                        0 <= i < old(self)@.len() ==> (#[trigger] old(self)@[i]).id != Some(id@)
                },
                Ok(None) => false,
                Err(_) => final(self)@ == old(self)@,
            },
    {
        if todo.id.is_some() {
            return Err("a new document must not carry an identity".to_owned());
        }
        if self.next == u64::MAX {
            return Err("the collection is full".to_owned());
        }
        let id = ObjectId::from_sequence_number(self.next);
        let ghost before = self.docs@;
        let stored = Todo {
            id: Some(id),
            title: todo.title,
            description: todo.description,
            completed: todo.completed,
            user_id: todo.user_id,
        };
        self.docs.push(stored);
        self.next = self.next + 1;
        proof {
            assert(todo_views(self.docs@) =~= todo_views(before).push(
                TodoView { id: Some(id@), ..todo@ },
            ));
            assert forall|i: int| 0 <= i < before.len() implies (#[trigger] todo_views(
                before,
            )[i]).id != Some(id@) by {
                assert(before[i].id matches Some(other) && sequence_number(other@) < sequence_number(id@));
            }
        }
        Ok(Some(id))
    }

    /// The tasks that the filter admits, in the order in which they were
    /// stored.
    pub fn find(&self, filter: &TodoFilter) -> (r: Result<Vec<Todo>, String>)
        ensures
            r matches Ok(todos) && todo_views(todos@) == self@.filter(filter.predicate()),
    {
        let mut found: Vec<Todo> = Vec::new();
        let mut i: usize = 0;
        proof {
            reveal(Seq::filter);
            assert(self@.take(0) =~= Seq::<TodoView>::empty());
            assert(todo_views(found@) =~= self@.take(0).filter(filter.predicate()));
        }
        while i < self.docs.len()
            invariant
                i <= self.docs@.len(),
                todo_views(found@) == self@.take(i as int).filter(filter.predicate()),
            decreases self.docs@.len() - i,
        {
            proof {
                lemma_filter_next(self@, filter.predicate(), i as int);
            }
            if filter.matches(&self.docs[i]) {
                let ghost before = found@;
                found.push(self.docs[i].clone());
                assert(todo_views(found@) =~= todo_views(before).push(self@[i as int]));
            }
            i += 1;
        }
        assert(self@.take(i as int) =~= self@);
        Ok(found)
    }

    /// The first task that the filter admits, if there is one.
    pub fn find_one(&self, filter: &TodoFilter) -> (r: Result<Option<Todo>, String>)
        ensures
            r matches Ok(todo) && todo_option_view(todo) == first_match(self@, filter.predicate()),
    {
        match self.position(filter) {
            Some(i) => Ok(Some(self.docs[i].clone())),
            None => Ok(None),
        }
    }

    /// How many tasks the filter admits.
    pub fn count_documents(&self, filter: &TodoFilter) -> (r: Result<u64, String>)
        ensures
            r matches Ok(count) && count == self@.filter(filter.predicate()).len(),
    {
        let mut count: u64 = 0;
        let mut i: usize = 0;
        proof {
            reveal(Seq::filter);
            assert(self@.take(0) =~= Seq::<TodoView>::empty());
        }
        while i < self.docs.len()
            invariant
                i <= self.docs@.len(),
                count == self@.take(i as int).filter(filter.predicate()).len(),
                count <= i,
            decreases self.docs@.len() - i,
        {
            proof {
                lemma_filter_next(self@, filter.predicate(), i as int);
            }
            if filter.matches(&self.docs[i]) {
                count = count + 1;
            }
            i += 1;
        }
        assert(self@.take(i as int) =~= self@);
        Ok(count)
    }

    /// Writes the fields of `doc` over the first task that the filter
    /// admits. The task keeps its identity and its owner.
    pub fn update_one(&mut self, filter: &TodoFilter, doc: &TodoDocument) -> (r: Result<
        UpdateResult,
        String,
    >)
        requires
            old(self).well_formed(),
        ensures
            final(self).well_formed(),
            final(self).assigned() == old(self).assigned(),
            final(self)@ == after_update(old(self)@, *filter, doc@),
            r matches Ok(result) && result == update_result(old(self)@, *filter, doc@),
    {
        match self.position(filter) {
            Some(i) => {
                let ghost before = self.docs@;
                let current = &self.docs[i];
                let same = current.title == doc.title && current.description == doc.description
                    && current.completed == doc.completed;
                let written = Todo {
                    id: current.id,
                    title: doc.title.clone(),
                    description: doc.description.clone(),
                    completed: doc.completed,
                    user_id: current.user_id,
                };
                self.docs.set(i, written);
                proof {
                    assert(todo_views(self.docs@) =~= todo_views(before).update(
                        i as int,
                        doc@.write_over(todo_views(before)[i as int]),
                    ));
                    assert(same == (todo_views(before)[i as int].document() == doc@));
                }
                Ok(
                    UpdateResult {
                        matched_count: 1,
                        modified_count: if same {
                            0
                        } else {
                            1
                        },
                    },
                )
            },
            None => Ok(UpdateResult { matched_count: 0, modified_count: 0 }),
        }
    }

    /// Removes the first task that the filter admits, and says how many
    /// tasks it removed: none or one.
    pub fn delete_one(&mut self, filter: &TodoFilter) -> (r: Result<u64, String>)
        requires
            old(self).well_formed(),
        ensures
            final(self).well_formed(),
            final(self).assigned() == old(self).assigned(),
            final(self)@ == without_first_match(old(self)@, filter.predicate()),
            r matches Ok(count) && count == if first_index(old(self)@, filter.predicate()) is Some {
                1u64
            } else {
                0u64
            },
    {
        match self.position(filter) {
            Some(i) => {
                let ghost before = self.docs@;
                self.docs.remove(i);
                proof {
                    assert(todo_views(self.docs@) =~= todo_views(before).remove(i as int));
                }
                Ok(1)
            },
            None => Ok(0),
        }
    }
}

} // verus!
