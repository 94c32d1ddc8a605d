//! Users: a name, an address and the hash of a password.

use crate::model::object_id::ObjectId;
use crate::model::todo_model::id_view;
use crate::utils::error::CustomError;
use crate::utils::hashing::{hash_password, password_check, verification, verify_password};
use vstd::prelude::*;

verus! {

/// A user record. It holds the hash of the user's password, never the
/// password.
#[derive(Debug, PartialEq, Eq)]
pub struct User {
    /// The user's identity: `None` until storage has assigned one.
    pub id: Option<ObjectId>,
    pub username: String,
    pub email: String,
    /// The hash of the user's password.
    pub password: String,
}

/// A user record as a mathematical value.
pub struct UserView {
    pub id: Option<Seq<u8>>,
    pub username: Seq<char>,
    pub email: Seq<char>,
    pub password: Seq<char>,
}

impl View for User {
    type V = UserView;

    open spec fn view(&self) -> UserView {
        UserView {
            id: id_view(self.id),
            username: self.username@,
            email: self.email@,
            password: self.password@,
        }
    }
}

impl Clone for User {
    fn clone(&self) -> (copy: User)
        ensures
            copy@ == self@,
            copy == *self,
    {
        User {
            id: self.id,
            username: self.username.clone(),
            email: self.email.clone(),
            password: self.password.clone(),
        }
    }
}

impl User {
    /// A user that is not yet stored, with the hash of the given password.
    ///
    /// Fails with [`CustomError::HashingError`] when the hasher does.
    pub fn new(username: String, email: String, password: String) -> (r: Result<User, CustomError>)
        ensures
            match r {
                Ok(user) => {
                    &&& user.id is None
                    &&& user.username@ == username@
                    &&& user.email@ == email@
                    &&& password_check(password@, user.password@) == Some(true)
                },
                Err(e) => e == CustomError::HashingError,
            },
    {
        match hash_password(password.as_str()) {
            Ok(hash) => Ok(User { id: None, username, email, password: hash }),
            Err(e) => Err(e),
        }
    }

    /// Checks a password against the user's stored hash.
    pub fn verify_password(&self, password: &str) -> (r: Result<bool, CustomError>)
        ensures
            r == verification(password@, self.password@),
    {
        verify_password(password, self.password.as_str())
    }
}

} // verus!
