//! One-way hashing of passwords, and the check of a password against a hash.

use crate::utils::error::CustomError;
use vstd::prelude::*;

verus! {

/// The work factor with which passwords are hashed unless another is asked for.
pub const DEFAULT_COST: u32 = 12;

/// The least work factor that the hasher accepts.
pub const MIN_COST: u32 = 4;

/// The greatest work factor that the hasher accepts.
pub const MAX_COST: u32 = 31;

/// The failure that `bcrypt` reports.
#[verifier::external_type_specification]
#[verifier::external_body]
pub struct ExBcryptError(bcrypt::BcryptError);

/// What `bcrypt::verify` answers for a password and a stored hash:
/// `Some(true)` where the password matches, `Some(false)` where it does not,
/// `None` where the hash is not well formed and the call fails.
pub uninterp spec fn password_check(password: Seq<char>, hash: Seq<char>) -> Option<bool>;

/// Calls `bcrypt::hash`, which salts the password with fresh random bytes and
/// hashes it with the given work factor.
///
/// Not proved, taken from `bcrypt`: the call fails for a work factor outside
/// 4..=31, and a hash that it returns is one that `bcrypt::verify` accepts for
/// the same password. Which hash is returned depends on the random salt, and
/// the call also fails when the system has no random bytes to give.
#[verifier::external_body]
fn bcrypt_hash(password: &str, cost: u32) -> (r: Result<String, bcrypt::BcryptError>)
    ensures
        !(MIN_COST <= cost <= MAX_COST) ==> r is Err,
        r matches Ok(hash) ==> password_check(password@, hash@) == Some(true),
{
    bcrypt::hash(password, cost)
}

/// Calls `bcrypt::verify`, which reads salt and work factor from the hash,
/// hashes the password with them and compares.
///
/// Not proved, taken from `bcrypt`: the answer depends on the two texts alone.
#[verifier::external_body]
fn bcrypt_verify(password: &str, hash: &str) -> (r: Result<bool, bcrypt::BcryptError>)
    ensures
        r matches Ok(matched) ==> password_check(password@, hash@) == Some(matched),
        r is Err ==> password_check(password@, hash@) is None,
{
    bcrypt::verify(password, hash)
}

/// Hashes a password with the default work factor.
///
/// Fails with [`CustomError::HashingError`] when the hasher does. A hash that
/// is returned matches the password.
pub fn hash_password(password: &str) -> (r: Result<String, CustomError>)
    ensures
        match r {
            Ok(hash) => password_check(password@, hash@) == Some(true),
            Err(e) => e == CustomError::HashingError,
        },
{
    hash_password_with_cost(password, DEFAULT_COST)
}

/// Hashes a password with the given work factor.
///
/// Fails with [`CustomError::HashingError`] when the hasher does, and always
/// for a work factor outside [`MIN_COST`]`..=`[`MAX_COST`]. A hash that is
/// returned matches the password.
pub fn hash_password_with_cost(password: &str, cost: u32) -> (r: Result<String, CustomError>)
    ensures
        match r {
            Ok(hash) => MIN_COST <= cost <= MAX_COST && password_check(password@, hash@) == Some(
                true,
            ),
            Err(e) => e == CustomError::HashingError,
        },
{
    match bcrypt_hash(password, cost) {
        Ok(hash) => Ok(hash),
        Err(_) => Err(CustomError::HashingError),
    }
}

/// What [`verify_password`] returns: the hasher's answer, or
/// [`CustomError::HashingError`] where the stored hash is not well formed.
pub open spec fn verification(password: Seq<char>, hash: Seq<char>) -> Result<bool, CustomError> {
    match password_check(password, hash) {
        Some(matched) => Ok(matched),
        None => Err(CustomError::HashingError),
    }
}

/// Checks a password against a stored hash.
///
/// Returns whether the password matches. A well-formed hash that does not
/// match gives `Ok(false)`, never an error; only a hash that is not well
/// formed gives [`CustomError::HashingError`].
pub fn verify_password(password: &str, hash: &str) -> (r: Result<bool, CustomError>)
    ensures
        r == verification(password@, hash@),
{
    match bcrypt_verify(password, hash) {
        Ok(matched) => Ok(matched),
        Err(_) => Err(CustomError::HashingError),
    }
}

} // verus!
