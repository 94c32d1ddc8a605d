//! The user directory: registration, authentication and login.
//!
//! The service holds no users. A registration is a short conversation with
//! the storage layer, and the service decides each next step of it from the
//! step before and the storage layer's answer; authentication and login ask
//! the storage layer one question. The operations at the end of this file
//! hold the conversation with a [`UserCollection`].

use crate::database::filter::{
    first_index, first_match, has_email, has_username, lemma_filter_len_first_index,
    lemma_first_index, lemma_first_index_agrees, text_view, UserFilter,
};
use crate::database::user_collection::{user_option_view, UserCollection};
use crate::model::object_id::{hex_text, ObjectId};
use crate::model::user_model::{User, UserView};
use crate::service::token_service::{text_result, TokenService};
use crate::utils::error::{ConflictField, CustomError};
use crate::utils::hashing::{
    hash_password_with_cost, password_check, verify_password, DEFAULT_COST,
};
use crate::utils::model::LoginRequests;
use crate::utils::password_validation::{meets_policy, validate_password};
use vstd::prelude::*;

verus! {

/// What a login answers: the session token.
#[derive(Debug, PartialEq, Eq)]
pub struct LoginResponse {
    pub token: String,
}

/// What the storage layer is to do next for a registration, or how the
/// registration ended.
#[derive(Debug)]
pub enum RegistrationStep {
    /// Count the users that the filter admits: those of the wanted name.
    CountUsername(UserFilter),
    /// Count the users that the filter admits: those of the wanted address.
    CountEmail(UserFilter),
    /// Store the user.
    Insert(User),
    /// Nothing: the registration has ended, with the new user's identity or
    /// with a failure.
    Done(Result<ObjectId, CustomError>),
}

/// What the storage layer answered to a step of a registration.
#[derive(Clone, Copy, Debug)]
pub enum StorageReply {
    /// So many users were counted.
    Count(u64),
    /// The user was stored, under this identity where storage names one.
    InsertedId(Option<ObjectId>),
    /// The storage layer failed.
    Failed,
}

/// Whether `next` may follow `step` in the registration of a user, once the
/// storage layer has answered `reply`.
///
/// All is decided but the hash of the password: the user to store holds one
/// that matches the password, or hashing fails and the registration ends.
pub open spec fn registration_follows(
    username: Seq<char>,
    email: Seq<char>,
    password: Seq<char>,
    step: RegistrationStep,
    reply: StorageReply,
    next: RegistrationStep,
) -> bool {
    match (step, reply) {
        (RegistrationStep::Done(r), _) => next == RegistrationStep::Done(r),
        (_, StorageReply::Failed) => next == RegistrationStep::Done(
            Err(CustomError::StorageError),
        ),
        (RegistrationStep::CountUsername(_), StorageReply::Count(n)) => if n > 0 {
            next == RegistrationStep::Done(Err(CustomError::Conflict(ConflictField::Username)))
        } else {
            &&& next matches RegistrationStep::CountEmail(filter)
            &&& filter.username is None
            &&& text_view(filter.email) == Some(email)
        },
        (RegistrationStep::CountEmail(_), StorageReply::Count(n)) => if n > 0 {
            next == RegistrationStep::Done(Err(CustomError::Conflict(ConflictField::Email)))
        } else {
            ||| next == RegistrationStep::Done(Err(CustomError::HashingError))
            ||| {
                &&& next matches RegistrationStep::Insert(user)
                &&& user.id is None
                &&& user.username@ == username
                &&& user.email@ == email
                &&& password_check(password, user.password@) == Some(true)
            }
        },
        (RegistrationStep::Insert(_), StorageReply::InsertedId(Some(id))) => next
            == RegistrationStep::Done(Ok(id)),
        _ => next == RegistrationStep::Done(Err(CustomError::StorageError)),
    }
}

/// What an authentication comes to, once the user of the name has been
/// looked up and the password checked against the stored hash.
///
/// An unknown name and a wrong password give the same failure.
pub open spec fn authentication(user: Option<UserView>, password: Seq<char>) -> Result<
    UserView,
    CustomError,
> {
    match user {
        Some(user) => match password_check(password, user.password) {
            Some(true) => Ok(user),
            Some(false) => Err(CustomError::InvalidCredentials),
            None => Err(CustomError::HashingError),
        },
        None => Err(CustomError::InvalidCredentials),
    }
}

/// A result that carries a user, with the user as a mathematical value.
pub open spec fn user_result(r: Result<User, CustomError>) -> Result<UserView, CustomError> {
    match r {
        Ok(user) => Ok(user@),
        Err(e) => Err(e),
    }
}

/// Decides an authentication from the user found and from what the check of
/// the password against the user's hash gave.
///
/// Returns the user where the password matched. No user and a password that
/// did not match are both [`CustomError::InvalidCredentials`]; a check that
/// failed is passed on.
pub fn authenticated(user: Option<User>, checked: Result<bool, CustomError>) -> (r: Result<
    User,
    CustomError,
>)
    ensures
        r == match user {
            Some(user) => match checked {
                Ok(true) => Ok::<User, CustomError>(user),
                Ok(false) => Err::<User, CustomError>(CustomError::InvalidCredentials),
                Err(e) => Err::<User, CustomError>(e),
            },
            None => Err::<User, CustomError>(CustomError::InvalidCredentials),
        },
{
    match user {
        Some(user) => match checked {
            Ok(true) => Ok(user),
            Ok(false) => Err(CustomError::InvalidCredentials),
            Err(e) => Err(e),
        },
        None => Err(CustomError::InvalidCredentials),
    }
}

/// The operations on users.
pub struct UserService {
    hash_cost: u32,
}

impl UserService {
    /// The work factor with which the service hashes passwords.
    pub closed spec fn hash_cost(&self) -> u32 {
        self.hash_cost
    }

    /// A service that hashes passwords with the default work factor.
    pub fn new() -> (service: UserService)
        ensures
            service.hash_cost() == DEFAULT_COST,
    {
        UserService { hash_cost: DEFAULT_COST }
    }

    /// A service that hashes passwords with the given work factor.
    pub fn with_hash_cost(hash_cost: u32) -> (service: UserService)
        ensures
            service.hash_cost() == hash_cost,
    {
        UserService { hash_cost }
    }

    /// Begins a registration: checks the password against the policy and
    /// asks for the users of the wanted name to be counted.
    ///
    /// A password that does not meet the policy ends the registration with
    /// [`CustomError::WeakPassword`] before storage is asked anything.
    pub fn create_user(&self, username: &str, email: &str, password: &str) -> (step:
        RegistrationStep)
        ensures
            if meets_policy(password@) {
                &&& step matches RegistrationStep::CountUsername(filter)
                &&& text_view(filter.username) == Some(username@)
                &&& filter.email is None
            } else {
                step == RegistrationStep::Done(Err(CustomError::WeakPassword))
            },
    {
        match validate_password(password) {
            Ok(()) => RegistrationStep::CountUsername(UserFilter::by_username(username)),
            Err(e) => RegistrationStep::Done(Err(e)),
        }
    }

    /// Takes the storage layer's answer to a step of a registration and
    /// decides the next.
    ///
    /// A taken name ends the registration with a conflict on the name, then
    /// a taken address with a conflict on the address. Only then is the
    /// password hashed and the user handed over to be stored. Any failure of
    /// storage, and any answer that does not fit the step, ends it with
    /// [`CustomError::StorageError`].
    pub fn create_user_next(
        &self,
        username: &str,
        email: &str,
        password: &str,
        step: RegistrationStep,
        reply: StorageReply,
    ) -> (next: RegistrationStep)
        ensures
            registration_follows(username@, email@, password@, step, reply, next),
    {
        match step {
            RegistrationStep::Done(r) => RegistrationStep::Done(r),
            RegistrationStep::CountUsername(_) => match reply {
                StorageReply::Count(n) => {
                    if n > 0 {
                        RegistrationStep::Done(
                            Err(CustomError::Conflict(ConflictField::Username)),
                        )
                    } else {
                        RegistrationStep::CountEmail(UserFilter::by_email(email))
                    }
                },
                _ => RegistrationStep::Done(Err(CustomError::StorageError)),
            },
            RegistrationStep::CountEmail(_) => match reply {
                StorageReply::Count(n) => {
                    if n > 0 {
                        RegistrationStep::Done(Err(CustomError::Conflict(ConflictField::Email)))
                    } else {
                        match hash_password_with_cost(password, self.hash_cost) {
                            Ok(hash) => RegistrationStep::Insert(
                                User {
                                    id: None,
                                    username: username.to_owned(),
                                    email: email.to_owned(),
                                    password: hash,
                                },
                            ),
                            Err(e) => RegistrationStep::Done(Err(e)),
                        }
                    }
                },
                _ => RegistrationStep::Done(Err(CustomError::StorageError)),
            },
            RegistrationStep::Insert(_) => match reply {
                StorageReply::InsertedId(Some(id)) => RegistrationStep::Done(Ok(id)),
                _ => RegistrationStep::Done(Err(CustomError::StorageError)),
            },
        }
    }

    /// Whether users of the address exist, from what storage counted.
    pub fn email_exists(&self, counted: Result<u64, String>) -> (r: Result<bool, CustomError>)
        ensures
            r == match counted {
                Ok(count) => Ok::<bool, CustomError>(count > 0),
                Err(_) => Err::<bool, CustomError>(CustomError::StorageError),
            },
    {
        match counted {
            Ok(count) => Ok(count > 0),
            Err(_) => Err(CustomError::StorageError),
        }
    }

    /// Whether users of the name exist, from what storage counted.
    pub fn username_exists(&self, counted: Result<u64, String>) -> (r: Result<bool, CustomError>)
        ensures
            r == match counted {
                Ok(count) => Ok::<bool, CustomError>(count > 0),
                Err(_) => Err::<bool, CustomError>(CustomError::StorageError),
            },
    {
        match counted {
            Ok(count) => Ok(count > 0),
            Err(_) => Err(CustomError::StorageError),
        }
    }

    /// The filter that finds the user to authenticate: the one of the name.
    pub fn authenticate_user(&self, username: &str) -> (filter: UserFilter)
        ensures
            text_view(filter.username) == Some(username@),
            filter.email is None,
    {
        UserFilter::by_username(username)
    }

    /// Authenticates against the user that storage found.
    ///
    /// Returns the user where the password matches the stored hash. Fails
    /// with [`CustomError::InvalidCredentials`] where no user was found and
    /// where the password does not match, with
    /// [`CustomError::StorageError`] where storage failed, and with
    /// [`CustomError::HashingError`] where the stored hash is not well
    /// formed.
    pub fn authenticate_user_result(
        &self,
        found: Result<Option<User>, String>,
        password: &str,
    ) -> (r: Result<User, CustomError>)
        ensures
            match found {
                Ok(user) => user_result(r) == authentication(user_option_view(user), password@),
                Err(_) => r == Err::<User, CustomError>(CustomError::StorageError),
            },
            r matches Ok(user) ==> found == Ok::<Option<User>, String>(Some(user)),
    {
        match found {
            Ok(Some(user)) => {
                let checked = verify_password(password, user.password.as_str());
                authenticated(Some(user), checked)
            },
            Ok(None) => authenticated(None, Ok(false)),
            Err(_) => Err(CustomError::StorageError),
        }
    }
}

/// The session that a login opens at the instant `now`: a token for the
/// authenticated user, with the text form of the user's identity as subject.
pub open spec fn session(
    user: Result<UserView, CustomError>,
    tokens: TokenService,
    now: i64,
) -> Result<Seq<char>, CustomError> {
    match user {
        Ok(user) => match user.id {
            Some(id) => tokens.issuance(hex_text(id), now),
            None => Err(CustomError::StorageError),
        },
        Err(e) => Err(e),
    }
}

impl UserService {
    /// The filter that finds the user who logs in: the one of the name.
    pub fn login_fn(&self, login_data: &LoginRequests) -> (filter: UserFilter)
        ensures
            text_view(filter.username) == Some(login_data.username@),
            filter.email is None,
    {
        self.authenticate_user(login_data.username.as_str())
    }

    /// Logs in against the user that storage found, at the instant `now`:
    /// authenticates, then issues a token for the user's identity.
    ///
    /// Fails as [`UserService::authenticate_user_result`] does, with
    /// [`CustomError::StorageError`] for a user without an identity, and
    /// with [`CustomError::TokenGenerationFailed`] where no token can be
    /// issued.
    pub fn login_fn_result_at(
        &self,
        found: Result<Option<User>, String>,
        login_data: &LoginRequests,
        tokens: &TokenService,
        now: i64,
    ) -> (r: Result<String, CustomError>)
        ensures
            match found {
                Ok(user) => text_result(r) == session(
                    authentication(user_option_view(user), login_data.password@),
                    *tokens,
                    now,
                ),
                Err(_) => r == Err::<String, CustomError>(CustomError::StorageError),
            },
    {
        match self.authenticate_user_result(found, login_data.password.as_str()) {
            Ok(user) => match user.id {
                Some(id) => {
                    let subject = id.to_hex();
                    tokens.issue_at(subject.as_str(), now)
                },
                None => Err(CustomError::StorageError),
            },
            Err(e) => Err(e),
        }
    }

    /// Logs in against the user that storage found, at the instant that the
    /// system clock shows. See [`UserService::login_fn_result_at`].
    pub fn login_fn_result(
        &self,
        found: Result<Option<User>, String>,
        login_data: &LoginRequests,
        tokens: &TokenService,
    ) -> (r: Result<String, CustomError>)
        ensures
            match found {
                Ok(user) => exists|now: i64|
                    text_result(r) == #[trigger] session(
                        authentication(user_option_view(user), login_data.password@),
                        *tokens,
                        now,
                    ),
                Err(_) => r == Err::<String, CustomError>(CustomError::StorageError),
            },
    {
        match self.authenticate_user_result(found, login_data.password.as_str()) {
            Ok(user) => match user.id {
                Some(id) => {
                    let subject = id.to_hex();
                    let r = tokens.issue(subject.as_str());
                    proof {
                        let now = choose|now: i64|
                            text_result(r) == #[trigger] tokens.issuance(subject@, now);
                        assert(text_result(r) == session(Ok(user@), *tokens, now));
                    }
                    r
                },
                None => {
                    assert(text_result(Err(CustomError::StorageError)) == session(
                        Ok(user@),
                        *tokens,
                        0,
                    ));
                    Err(CustomError::StorageError)
                },
            },
            Err(e) => {
                assert(found is Ok ==> text_result(Err(e)) == session(
                    authentication(user_option_view(found->Ok_0), login_data.password@),
                    *tokens,
                    0,
                ));
                Err(e)
            },
        }
    }
}

/// Whether a user of the name is among the users.
pub open spec fn username_taken(users: Seq<UserView>, username: Seq<char>) -> bool {
    first_index(users, has_username(username)) is Some
}

/// Whether a user of the address is among the users.
pub open spec fn email_taken(users: Seq<UserView>, email: Seq<char>) -> bool {
    first_index(users, has_email(email)) is Some
}

/// No two users share a name, and no two share an address.
pub open spec fn users_are_unique(users: Seq<UserView>) -> bool {
    forall|i: int, j: int|
        0 <= i < j < users.len() ==> {
            &&& (#[trigger] users[i]).username != (#[trigger] users[j]).username
            &&& users[i].email != users[j].email
        }
}

/// The conflict that stands in the way of a registration, if any: the name
/// is looked at before the address.
pub open spec fn registration_conflict(
    users: Seq<UserView>,
    username: Seq<char>,
    email: Seq<char>,
) -> Option<ConflictField> {
    if username_taken(users, username) {
        Some(ConflictField::Username)
    } else if email_taken(users, email) {
        Some(ConflictField::Email)
    } else {
        None
    }
}

proof fn lemma_count_is_taken(users: Seq<UserView>, filter: UserFilter, pred: spec_fn(UserView) -> bool)
    requires
        forall|j: int| 0 <= j < users.len() ==> (filter.predicate())(#[trigger] users[j]) == pred(users[j]),
    ensures
        (users.filter(filter.predicate()).len() > 0) == (first_index(users, pred) is Some),
        first_match(users, filter.predicate()) == first_match(users, pred),
{
    lemma_filter_len_first_index(users, filter.predicate());
    lemma_first_index_agrees(users, filter.predicate(), pred);
}

/// The operations run against a collection held in memory.
impl UserService {
    fn answer(users: &mut UserCollection, step: &RegistrationStep) -> (reply: StorageReply)
        requires
            old(users).well_formed(),
        ensures
            final(users).well_formed(),
            match *step {
                RegistrationStep::CountUsername(filter) | RegistrationStep::CountEmail(filter) => {
                    &&& final(users)@ == old(users)@
                    &&& final(users).assigned() == old(users).assigned()
                    &&& reply matches StorageReply::Count(n)
                    &&& n == old(users)@.filter(filter.predicate()).len()
                },
                RegistrationStep::Insert(user) => match reply {
                    StorageReply::InsertedId(Some(id)) => {
                        &&& user.id is None
                        &&& !old(users).exhausted()
                        &&& final(users).assigned() == old(users).assigned() + 1
                        &&& final(users)@ == old(users)@.push(UserView { id: Some(id@), ..user@ })
                        &&& forall|i: int|
                            0 <= i < old(users)@.len() ==> (#[trigger] old(users)@[i]).id != Some(
                                id@,
                            )
                    },
                    StorageReply::Failed => {
                        &&& final(users).assigned() == old(users).assigned()
                        &&& final(users)@ == old(users)@
                        &&& user.id is Some || old(users).exhausted()
                    },
                    _ => false,
                },
                RegistrationStep::Done(_) => {
                    &&& reply is Failed
                    &&& final(users).assigned() == old(users).assigned()
                    &&& final(users)@ == old(users)@
                },
            },
    {
        match step {
            RegistrationStep::CountUsername(filter) => match users.count_documents(filter) {
                Ok(n) => StorageReply::Count(n),
                Err(_) => StorageReply::Failed,
            },
            RegistrationStep::CountEmail(filter) => match users.count_documents(filter) {
                Ok(n) => StorageReply::Count(n),
                Err(_) => StorageReply::Failed,
            },
            RegistrationStep::Insert(user) => match users.insert_one(user.clone()) {
                Ok(id) => StorageReply::InsertedId(id),
                Err(_) => StorageReply::Failed,
            },
            RegistrationStep::Done(_) => StorageReply::Failed,
        }
    }

    /// Registers a user and returns the identity that storage assigned.
    ///
    /// In this order: a password that does not meet the policy is
    /// [`CustomError::WeakPassword`]; a name that is taken is a conflict on
    /// the name; an address that is taken is a conflict on the address. None
    /// of them stores anything. Otherwise the user is stored with a hash that
    /// matches the password, unless hashing fails
    /// ([`CustomError::HashingError`]) or the collection is exhausted
    /// ([`CustomError::StorageError`]). Users that were unique stay unique.
    pub fn register(
        &self,
        users: &mut UserCollection,
        username: &str,
        email: &str,
        password: &str,
    ) -> (r: Result<ObjectId, CustomError>)
        requires
            old(users).well_formed(),
        ensures
            final(users).well_formed(),
            !meets_policy(password@) ==> r == Err::<ObjectId, CustomError>(
                CustomError::WeakPassword,
            ),
            meets_policy(password@) ==> (registration_conflict(old(users)@, username@, email@)
                matches Some(field) ==> r == Err::<ObjectId, CustomError>(
                CustomError::Conflict(field),
            )),
            match r {
                Ok(id) => {
                    &&& meets_policy(password@)
                    &&& registration_conflict(old(users)@, username@, email@) is None
                    &&& !old(users).exhausted()
                    &&& final(users).assigned() == old(users).assigned() + 1
                    &&& final(users)@.len() == old(users)@.len() + 1
                    &&& final(users)@.drop_last() == old(users)@
                    &&& final(users)@.last().id == Some(id@)
                    &&& final(users)@.last().username == username@
                    &&& final(users)@.last().email == email@
                    &&& password_check(password@, final(users)@.last().password) == Some(true)
                    &&& forall|i: int|
                        0 <= i < old(users)@.len() ==> (#[trigger] old(users)@[i]).id != Some(id@)
                },
                Err(e) => {
                    &&& final(users)@ == old(users)@
                    &&& final(users).assigned() == old(users).assigned()
                    &&& match e {
                        CustomError::WeakPassword => !meets_policy(password@),
                        CustomError::Conflict(field) => {
                            &&& meets_policy(password@)
                            &&& registration_conflict(old(users)@, username@, email@) == Some(
                                field,
                            )
                        },
                        CustomError::HashingError => {
                            &&& meets_policy(password@)
                            &&& registration_conflict(old(users)@, username@, email@) is None
                        },
                        CustomError::StorageError => {
                            &&& meets_policy(password@)
                            &&& registration_conflict(old(users)@, username@, email@) is None
                            &&& old(users).exhausted()
                        },
                        _ => false,
                    }
                },
            },
            users_are_unique(old(users)@) ==> users_are_unique(final(users)@),
    {
        let ghost before = users@;
        let first = self.create_user(username, email, password);
        if let RegistrationStep::Done(r) = first {
            return r;
        }
        let reply = Self::answer(users, &first);
        proof {
            let filter = first->CountUsername_0;
            lemma_count_is_taken(before, filter, has_username(username@));
        }
        let second = self.create_user_next(username, email, password, first, reply);
        if let RegistrationStep::Done(r) = second {
            return r;
        }
        let reply = Self::answer(users, &second);
        proof {
            let filter = second->CountEmail_0;
            lemma_count_is_taken(before, filter, has_email(email@));
        }
        let third = self.create_user_next(username, email, password, second, reply);
        if let RegistrationStep::Done(r) = third {
            return r;
        }
        let reply = Self::answer(users, &third);
        let last = self.create_user_next(username, email, password, third, reply);
        proof {
            if last matches RegistrationStep::Done(Ok(id)) {
                assert(users@.drop_last() =~= before);
                if users_are_unique(before) {
                    lemma_registration_keeps_users_unique(before, users@.last());
                }
            }
        }
        match last {
            RegistrationStep::Done(r) => r,
            _ => Err(CustomError::StorageError),
        }
    }

    /// Authenticates a user by name and password.
    ///
    /// Returns the user of the name where the password matches the stored
    /// hash. An unknown name and a wrong password are both
    /// [`CustomError::InvalidCredentials`].
    pub fn authenticate(&self, users: &UserCollection, username: &str, password: &str) -> (r:
        Result<User, CustomError>)
        ensures
            user_result(r) == authentication(
                first_match(users@, has_username(username@)),
                password@,
            ),
    {
        let filter = self.authenticate_user(username);
        proof {
            lemma_count_is_taken(users@, filter, has_username(username@));
        }
        let found = users.find_one(&filter);
        self.authenticate_user_result(found, password)
    }

    /// Authenticates a user and issues a session token at the instant `now`.
    pub fn issue_session_at(
        &self,
        users: &UserCollection,
        tokens: &TokenService,
        login_data: &LoginRequests,
        now: i64,
    ) -> (r: Result<String, CustomError>)
        ensures
            text_result(r) == session(
                authentication(
                    first_match(users@, has_username(login_data.username@)),
                    login_data.password@,
                ),
                *tokens,
                now,
            ),
    {
        let filter = self.login_fn(login_data);
        proof {
            lemma_count_is_taken(users@, filter, has_username(login_data.username@));
        }
        let found = users.find_one(&filter);
        self.login_fn_result_at(found, login_data, tokens, now)
    }
}

/// Users stay unique when one is added whose name and address are not taken.
pub proof fn lemma_registration_keeps_users_unique(users: Seq<UserView>, user: UserView)
    requires
        users_are_unique(users),
        !username_taken(users, user.username),
        !email_taken(users, user.email),
    ensures
        users_are_unique(users.push(user)),
{
    lemma_first_index(users, has_username(user.username));
    lemma_first_index(users, has_email(user.email));
    let after = users.push(user);
    assert forall|i: int, j: int| 0 <= i < j < after.len() implies {
        &&& (#[trigger] after[i]).username != (#[trigger] after[j]).username
        &&& after[i].email != after[j].email
    } by {
        if j == users.len() {
            assert(!has_username(user.username)(users[i]));
            assert(!has_email(user.email)(users[i]));
        } else {
            assert(after[i] == users[i] && after[j] == users[j]);
        }
    }
}

/// A user who has just been registered authenticates: once a user whose
/// name was not taken is stored with a hash that matches the password,
/// authentication by that name and password returns that user.
pub proof fn lemma_registered_user_authenticates(
    users: Seq<UserView>,
    user: UserView,
    password: Seq<char>,
)
    requires
        !username_taken(users, user.username),
        password_check(password, user.password) == Some(true),
    ensures
        authentication(first_match(users.push(user), has_username(user.username)), password)
            == Ok::<UserView, CustomError>(user),
{
    let after = users.push(user);
    let pred = has_username(user.username);
    lemma_first_index(users, pred);
    lemma_first_index(after, pred);
    assert(pred(after[users.len() as int]));
    assert forall|j: int| 0 <= j < users.len() implies !pred(#[trigger] after[j]) by {
        assert(after[j] == users[j]);
    }
}

/// Wrong credentials fail alike: a name that no user has, and a password
/// that does not match the hash of the user who has the name, both give
/// [`CustomError::InvalidCredentials`].
pub proof fn lemma_wrong_credentials_fail_alike(
    users: Seq<UserView>,
    username: Seq<char>,
    password: Seq<char>,
)
    ensures
        !username_taken(users, username) ==> authentication(
            first_match(users, has_username(username)),
            password,
        ) == Err::<UserView, CustomError>(CustomError::InvalidCredentials),
        (first_match(users, has_username(username)) matches Some(user) && password_check(
            password,
            user.password,
        ) == Some(false)) ==> authentication(first_match(users, has_username(username)), password)
            == Err::<UserView, CustomError>(CustomError::InvalidCredentials),
{
}

} // verus!
