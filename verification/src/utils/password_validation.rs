//! The minimum policy that a password must meet before it is stored.

use crate::utils::error::CustomError;
use vstd::prelude::*;
use vstd::string::*;

verus! {

/// The least number of characters in an acceptable password.
pub const MIN_PASSWORD_LENGTH: usize = 8;

/// A password meets the policy when it has at least
/// [`MIN_PASSWORD_LENGTH`] characters.
pub open spec fn meets_policy(password: Seq<char>) -> bool {
    password.len() >= MIN_PASSWORD_LENGTH
}

/// Accepts a password that meets the policy and rejects any other as
/// [`CustomError::WeakPassword`].
pub fn validate_password(password: &str) -> (r: Result<(), CustomError>)
    ensures
        r == if meets_policy(password@) {
            Ok::<(), CustomError>(())
        } else {
            Err::<(), CustomError>(CustomError::WeakPassword)
        },
{
    if password.unicode_len() >= MIN_PASSWORD_LENGTH {
        Ok(())
    } else {
        Err(CustomError::WeakPassword)
    }
}

} // verus!
