//! The handlers of the user routes: registration and login.

use crate::database::filter::{text_view, UserFilter};
use crate::database::user_collection::user_option_view;
use crate::model::user_model::User;
use crate::service::token_service::{text_result, TokenService};
use crate::service::user_service::{
    authentication, registration_follows, session, RegistrationStep, StorageReply, UserService,
};
use crate::utils::error::CustomError;
use crate::utils::model::LoginRequests;
use crate::utils::password_validation::meets_policy;
use vstd::prelude::*;

verus! {

/// What a request to register carries.
#[derive(Debug, PartialEq, Eq)]
pub struct CreateUserRequest {
    pub username: String,
    pub email: String,
    pub password: String,
}

/// What a login answers: the session token, to be presented as a bearer
/// credential.
#[derive(Debug, PartialEq, Eq)]
pub struct LoginResponse {
    pub token: String,
}

/// A result that carries a login's answer, with the token taken by its
/// characters.
pub open spec fn token_result(r: Result<LoginResponse, CustomError>) -> Result<
    Seq<char>,
    CustomError,
> {
    match r {
        Ok(response) => Ok(response.token@),
        Err(e) => Err(e),
    }
}

/// Registering a user: the first step of the registration.
pub fn register_user(user_service: &UserService, user_info: &CreateUserRequest) -> (step:
    RegistrationStep)
    ensures
        if meets_policy(user_info.password@) {
            &&& step matches RegistrationStep::CountUsername(filter)
            &&& text_view(filter.username) == Some(user_info.username@)
            &&& filter.email is None
        } else {
            step == RegistrationStep::Done(Err(CustomError::WeakPassword))
        },
{
    user_service.create_user(
        user_info.username.as_str(),
        user_info.email.as_str(),
        user_info.password.as_str(),
    )
}

/// Registering a user: the step that follows `step`, once the storage layer
/// has answered it.
pub fn register_user_next(
    user_service: &UserService,
    user_info: &CreateUserRequest,
    step: RegistrationStep,
    reply: StorageReply,
) -> (next: RegistrationStep)
    ensures
        registration_follows(
            user_info.username@,
            user_info.email@,
            user_info.password@,
            step,
            reply,
            next,
        ),
{
    user_service.create_user_next(
        user_info.username.as_str(),
        user_info.email.as_str(),
        user_info.password.as_str(),
        step,
        reply,
    )
}

/// Logging in: the filter to find the user with.
pub fn login_user(user_service: &UserService, login_info: &LoginRequests) -> (filter: UserFilter)
    ensures
        text_view(filter.username) == Some(login_info.username@),
        filter.email is None,
{
    user_service.login_fn(login_info)
}

/// The answer to a login at the instant `now`, from the user that storage
/// found.
pub fn login_user_reply_at(
    user_service: &UserService,
    tokens: &TokenService,
    found: Result<Option<User>, String>,
    login_info: &LoginRequests,
    now: i64,
) -> (r: Result<LoginResponse, CustomError>)
    ensures
        match found {
            Ok(user) => token_result(r) == session(
                authentication(user_option_view(user), login_info.password@),
                *tokens,
                now,
            ),
            Err(_) => r == Err::<LoginResponse, CustomError>(CustomError::StorageError),
        },
{
    match user_service.login_fn_result_at(found, login_info, tokens, now) {
        Ok(token) => Ok(LoginResponse { token }),
        Err(e) => Err(e),
    }
}

/// The answer to a login at the instant that the system clock shows, from
/// the user that storage found.
pub fn login_user_reply(
    user_service: &UserService,
    tokens: &TokenService,
    found: Result<Option<User>, String>,
    login_info: &LoginRequests,
) -> (r: Result<LoginResponse, CustomError>)
    ensures
        match found {
            Ok(user) => exists|now: i64|
                token_result(r) == #[trigger] session(
                    authentication(user_option_view(user), login_info.password@),
                    *tokens,
                    now,
                ),
            Err(_) => r == Err::<LoginResponse, CustomError>(CustomError::StorageError),
        },
{
    let issued = user_service.login_fn_result(found, login_info, tokens);
    let r = match issued {
        Ok(token) => Ok(LoginResponse { token }),
        Err(e) => Err(e),
    };
    proof {
        if found is Ok {
            let user = found->Ok_0;
            let now = choose|now: i64|
                text_result(issued) == #[trigger] session(
                    authentication(user_option_view(user), login_info.password@),
                    *tokens,
                    now,
                );
            assert(token_result(r) == session(
                authentication(user_option_view(user), login_info.password@),
                *tokens,
                now,
            ));
        }
    }
    r
}

} // verus!
