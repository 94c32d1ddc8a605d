//! The collection of users, held in memory.
//!
//! It answers the calls that the user directory makes of the storage layer,
//! and is what the directory's results are stated against.

use crate::database::filter::{
    first_match, lemma_filter_next, lemma_first_index_absent, lemma_first_index_found, UserFilter,
};
use crate::model::object_id::{sequence_number, ObjectId};
use crate::model::user_model::{User, UserView};
use vstd::prelude::*;

verus! {

/// The users as mathematical values.
pub open spec fn user_views(users: Seq<User>) -> Seq<UserView> {
    users.map_values(|user: User| user@)
}

/// A user that may be absent, as a mathematical value.
pub open spec fn user_option_view(user: Option<User>) -> Option<UserView> {
    match user {
        Some(user) => Some(user@),
        None => None,
    }
}

/// A collection of users. It assigns every user that it stores an identity
/// that no user stored in it before has had.
pub struct UserCollection {
    docs: Vec<User>,
    next: u64,
}

impl View for UserCollection {
    type V = Seq<UserView>;

    closed spec fn view(&self) -> Seq<UserView> {
        user_views(self.docs@)
    }
}

impl UserCollection {
    /// Every user in the collection has an identity, and the collection has
    /// not yet handed out the identities that it will assign.
    pub closed spec fn well_formed(&self) -> bool {
        forall|i: int|
            0 <= i < self.docs@.len() ==> {
                &&& (#[trigger] self.docs@[i]).id matches Some(id)
                &&& sequence_number(id@) < self.next
            }
    }

    /// How many identities the collection has assigned since it was made.
    /// Identities are numbered in the order in which they are assigned, and
    /// a number is not assigned again when its user is removed.
    pub closed spec fn assigned(&self) -> nat {
        self.next as nat
    }

    /// Whether the collection has run out of identities and stores no more:
    /// it assigns `u64::MAX` of them.
    pub open spec fn exhausted(&self) -> bool {
        self.assigned() == u64::MAX
    }

    /// An empty collection that has assigned no identity yet, and so has
    /// all of them to assign.
    pub fn new() -> (collection: UserCollection)
        ensures
            collection@ == Seq::<UserView>::empty(),
            collection.well_formed(),
            collection.assigned() == 0,
            !collection.exhausted(),
    {
        let collection = UserCollection { docs: Vec::new(), next: 0 };
        assert(collection@ =~= Seq::<UserView>::empty());
        collection
    }

    /// How many users the collection holds.
    pub fn len(&self) -> (n: usize)
        ensures
            n == self@.len(),
    {
        self.docs.len()
    }

    /// Stores a user and assigns it an identity.
    ///
    /// The user must come without an identity: the collection assigns one
    /// that no user in it has. The call fails, and changes nothing, for a user
    /// that brings an identity and for a collection that is exhausted.
    pub fn insert_one(&mut self, user: User) -> (r: Result<Option<ObjectId>, String>)
        requires
            old(self).well_formed(),
        ensures
            final(self).well_formed(),
            r is Ok <==> user.id is None && !old(self).exhausted(),
            final(self).assigned() == old(self).assigned() + if r is Ok {
                1nat
            } else {
                0nat
            },
            match r {
                Ok(Some(id)) => {
                    &&& sequence_number(id@) == old(self).assigned()
                    &&& final(self)@ == old(self)@.push(UserView { id: Some(id@), ..user@ })
                    &&& forall|i: int|
                        0 <= i < old(self)@.len() ==> (#[trigger] old(self)@[i]).id != Some(id@)
                },
                Ok(None) => false,
                Err(_) => final(self)@ == old(self)@,
            },
    {
        if user.id.is_some() {
            return Err("a new document must not carry an identity".to_owned());
        }
        if self.next == u64::MAX {
            return Err("the collection is full".to_owned());
        }
        let id = ObjectId::from_sequence_number(self.next);
        let ghost before = self.docs@;
        let stored = User {
            id: Some(id),
            username: user.username,
            email: user.email,
            password: user.password,
        };
        self.docs.push(stored);
        self.next = self.next + 1;
        proof {
            assert(user_views(self.docs@) =~= user_views(before).push(
                UserView { id: Some(id@), ..user@ },
            ));
            assert forall|i: int| 0 <= i < before.len() implies (#[trigger] user_views(
                before,
            )[i]).id != Some(id@) by {
                assert(before[i].id matches Some(other) && sequence_number(other@)
                    < sequence_number(id@));
            }
        }
        Ok(Some(id))
    }

    /// The first user that the filter admits, if there is one.
    pub fn find_one(&self, filter: &UserFilter) -> (r: Result<Option<User>, String>)
        ensures
            r matches Ok(user) && user_option_view(user) == first_match(self@, filter.predicate()),
    {
        let mut i: usize = 0;
        while i < self.docs.len()
            invariant
                i <= self.docs@.len(),
                forall|j: int| 0 <= j < i ==> !(filter.predicate())(#[trigger] self@[j]),
            decreases self.docs@.len() - i,
        {
            if filter.matches(&self.docs[i]) {
                proof {
                    assert((filter.predicate())(self@[i as int]));
                    lemma_first_index_found(self@, filter.predicate(), i as int);
                }
                return Ok(Some(self.docs[i].clone()));
            }
            assert(!(filter.predicate())(self@[i as int]));
            i += 1;
        }
        proof {
            lemma_first_index_absent(self@, filter.predicate());
        }
        Ok(None)
    }

    /// How many users the filter admits.
    pub fn count_documents(&self, filter: &UserFilter) -> (r: Result<u64, String>)
        ensures
            r matches Ok(count) && count == self@.filter(filter.predicate()).len(),
    {
        let mut count: u64 = 0;
        let mut i: usize = 0;
        proof {
            reveal(Seq::filter);
            assert(self@.take(0) =~= Seq::<UserView>::empty());
        }
        while i < self.docs.len()
            invariant
                i <= self.docs@.len(),
                count == self@.take(i as int).filter(filter.predicate()).len(),
                count <= i,
            decreases self.docs@.len() - i,
        {
            proof {
                lemma_filter_next(self@, filter.predicate(), i as int);
            }
            if filter.matches(&self.docs[i]) {
                count = count + 1;
            }
            i += 1;
        }
        assert(self@.take(i as int) =~= self@);
        Ok(count)
    }
}

} // verus!
