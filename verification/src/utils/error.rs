//! The failures that the library reports, and how each is shown to a caller.

use vstd::prelude::*;

verus! {

/// The field on which a registration collided with an existing user.
#[derive(Clone, Copy, Debug, PartialEq, Eq, Structural)]
pub enum ConflictField {
    Username,
    Email,
}

/// Every way in which a request can fail.
///
/// The kinds are coarse on purpose: a caller learns that credentials were
/// wrong, not which of them; that a task was not found, not whether it exists
/// under another owner; that storage or hashing failed, not how.
#[derive(Clone, Copy, Debug, PartialEq, Eq, Structural)]
pub enum CustomError {
    /// The request carried no bearer credential.
    MissingCredential,
    /// The bearer credential is not a token that this service signed, or it
    /// has expired.
    TokenInvalid,
    /// The token's subject is not the text form of a record identity.
    MalformedIdentity,
    /// Unknown user name or wrong password.
    InvalidCredentials,
    /// A user with the same name or the same address exists already.
    Conflict(ConflictField),
    /// The password does not meet the minimum policy.
    WeakPassword,
    /// No task with that identity belongs to the caller.
    NotFound,
    /// The request names no task, or names it by text that is no identity.
    MalformedRequest,
    /// The storage layer failed.
    StorageError,
    /// The password hasher failed.
    HashingError,
    /// A session token could not be produced.
    TokenGenerationFailed,
    /// The signing secret is not configured.
    ConfigurationError,
}

impl CustomError {
    /// The HTTP status under which the failure is reported.
    pub open spec fn status(self) -> u16 {
        match self {
            CustomError::MissingCredential => 401,
            CustomError::TokenInvalid => 401,
            CustomError::MalformedIdentity => 400,
            CustomError::InvalidCredentials => 400,
            CustomError::Conflict(_) => 409,
            CustomError::WeakPassword => 400,
            CustomError::NotFound => 404,
            CustomError::MalformedRequest => 400,
            CustomError::StorageError => 500,
            CustomError::HashingError => 500,
            CustomError::TokenGenerationFailed => 500,
            CustomError::ConfigurationError => 500,
        }
    }

    /// The text under which the failure is reported.
    pub open spec fn text(self) -> Seq<char> {
        match self {
            CustomError::MissingCredential => "Authorization header is missing or invalid"@,
            CustomError::TokenInvalid => "Invalid token"@,
            CustomError::MalformedIdentity => "Invalid user ID format in token"@,
            CustomError::InvalidCredentials => "Invalid credentials"@,
            CustomError::Conflict(ConflictField::Username) => "Username already exists"@,
            CustomError::Conflict(ConflictField::Email) => "Email already exists"@,
            CustomError::WeakPassword => "Password is too weak"@,
            CustomError::NotFound => "Todo not found"@,
            CustomError::MalformedRequest => "Invalid todo ID format"@,
            CustomError::StorageError => "Database error"@,
            CustomError::HashingError => "Password hashing failed"@,
            CustomError::TokenGenerationFailed => "Token generation failed"@,
            CustomError::ConfigurationError => "JWT_SECRET must be set"@,
        }
    }

    /// The HTTP status under which the failure is reported.
    pub fn status_code(&self) -> (code: u16)
        ensures
            code == self.status(),
    {
        match self {
            CustomError::MissingCredential => 401,
            CustomError::TokenInvalid => 401,
            CustomError::MalformedIdentity => 400,
            CustomError::InvalidCredentials => 400,
            CustomError::Conflict(_) => 409,
            CustomError::WeakPassword => 400,
            CustomError::NotFound => 404,
            CustomError::MalformedRequest => 400,
            CustomError::StorageError => 500,
            CustomError::HashingError => 500,
            CustomError::TokenGenerationFailed => 500,
            CustomError::ConfigurationError => 500,
        }
    }

    /// The text under which the failure is reported.
    pub fn message(&self) -> (s: &'static str)
        ensures
            s@ == self.text(),
    {
        match self {
            CustomError::MissingCredential => "Authorization header is missing or invalid",
            CustomError::TokenInvalid => "Invalid token",
            CustomError::MalformedIdentity => "Invalid user ID format in token",
            CustomError::InvalidCredentials => "Invalid credentials",
            CustomError::Conflict(ConflictField::Username) => "Username already exists",
            CustomError::Conflict(ConflictField::Email) => "Email already exists",
            CustomError::WeakPassword => "Password is too weak",
            CustomError::NotFound => "Todo not found",
            CustomError::MalformedRequest => "Invalid todo ID format",
            CustomError::StorageError => "Database error",
            CustomError::HashingError => "Password hashing failed",
            CustomError::TokenGenerationFailed => "Token generation failed",
            CustomError::ConfigurationError => "JWT_SECRET must be set",
        }
    }

    /// Whether the failure is reported as the caller's fault (a 4xx status)
    /// rather than the server's.
    pub fn is_client_error(&self) -> (r: bool)
        ensures
            r == (400 <= self.status() < 500),
    {
        let code = self.status_code();
        400 <= code && code < 500
    }
}

} // verus!
