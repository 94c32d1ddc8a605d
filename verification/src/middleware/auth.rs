//! From a request's authorization header to the identity of the caller.
//!
//! Every protected operation passes through here: nothing below accepts a
//! raw credential, and nothing below is handed an identity that was not
//! resolved from a valid token.

use crate::model::object_id::{hex_bytes, hex_text, is_object_id_text, lemma_hex_round_trip, ObjectId};
use crate::service::token_service::{text_result, token_claims, TokenService};
use crate::utils::error::CustomError;
use vstd::prelude::*;
use vstd::string::*;

verus! {

/// The scheme that introduces a bearer credential in an authorization
/// header, with the space that separates it from the credential.
pub open spec fn bearer_scheme() -> Seq<char> {
    seq!['B', 'e', 'a', 'r', 'e', 'r', ' ']
}

/// The credential that an authorization header carries: what follows the
/// bearer scheme, where the header begins with it.
pub open spec fn bearer_credential(header: Seq<char>) -> Option<Seq<char>> {
    if header.len() >= 7 && header.subrange(0, 7) == bearer_scheme() {
        Some(header.subrange(7, header.len() as int))
    } else {
        None
    }
}

/// A header that may be absent, with its text taken by its characters.
pub open spec fn header_text(authorization: Option<&str>) -> Option<Seq<char>> {
    match authorization {
        Some(header) => Some(header@),
        None => None,
    }
}

/// The subject that a request asserts at the instant `now`: that of the
/// token in its authorization header.
///
/// A request without the header, or whose header does not begin with the
/// bearer scheme, carries no credential.
pub open spec fn asserted_subject(
    authorization: Option<Seq<char>>,
    tokens: TokenService,
    now: i64,
) -> Result<Seq<char>, CustomError> {
    match authorization {
        Some(header) => match bearer_credential(header) {
            Some(token) => tokens.verification(token, now),
            None => Err(CustomError::MissingCredential),
        },
        None => Err(CustomError::MissingCredential),
    }
}

/// The identity behind a subject, where the subject is the text form of one.
pub open spec fn subject_identity(subject: Seq<char>) -> Result<Seq<u8>, CustomError> {
    if is_object_id_text(subject) {
        Ok(hex_bytes(subject))
    } else {
        Err(CustomError::MalformedIdentity)
    }
}

/// The identity of the caller of a request at the instant `now`.
pub open spec fn caller_identity(
    authorization: Option<Seq<char>>,
    tokens: TokenService,
    now: i64,
) -> Result<Seq<u8>, CustomError> {
    match asserted_subject(authorization, tokens, now) {
        Ok(subject) => subject_identity(subject),
        Err(e) => Err(e),
    }
}

/// A result that carries an identity, with the identity taken by its bytes.
pub open spec fn identity_result(r: Result<ObjectId, CustomError>) -> Result<Seq<u8>, CustomError> {
    match r {
        Ok(id) => Ok(id@),
        Err(e) => Err(e),
    }
}

/// The credential in an authorization header: the text after `Bearer `.
/// A header that does not begin so carries none.
pub fn bearer_token(header: &str) -> (r: Option<&str>)
    ensures
        match r {
            Some(token) => bearer_credential(header@) == Some(token@),
            None => bearer_credential(header@) is None,
        },
{
    let n = header.unicode_len();
    if n < 7 {
        return None;
    }
    let scheme = "Bearer ";
    proof {
        reveal_strlit("Bearer ");
        assert(scheme@ =~= bearer_scheme());
    }
    let mut i: usize = 0;
    while i < 7
        invariant
            i <= 7,
            n == header@.len(),
            n >= 7,
            scheme@ == bearer_scheme(),
            forall|k: int| 0 <= k < i ==> header@[k] == bearer_scheme()[k],
        decreases 7 - i,
    {
        if header.get_char(i) != scheme.get_char(i) {
            assert(header@.subrange(0, 7)[i as int] != bearer_scheme()[i as int]);
            return None;
        }
        i += 1;
    }
    assert(header@.subrange(0, 7) =~= bearer_scheme());
    Some(header.substring_char(7, n))
}

/// The identity that a verified subject stands for.
///
/// Fails with [`CustomError::MalformedIdentity`] where the subject is not the
/// text form of an identity.
pub fn parse_subject(subject: &str) -> (r: Result<ObjectId, CustomError>)
    ensures
        identity_result(r) == subject_identity(subject@),
{
    match ObjectId::parse_str(subject) {
        Some(id) => Ok(id),
        None => Err(CustomError::MalformedIdentity),
    }
}

/// Verifies the bearer token of a request at the instant `now` and returns
/// the subject that it asserts.
///
/// Fails with [`CustomError::MissingCredential`] where the request carries
/// no bearer credential, and with [`CustomError::TokenInvalid`] where the
/// token service rejects the credential.
pub fn verify_token_at(authorization: Option<&str>, tokens: &TokenService, now: i64) -> (r: Result<
    String,
    CustomError,
>)
    ensures
        text_result(r) == asserted_subject(header_text(authorization), *tokens, now),
{
    match authorization {
        Some(header) => match bearer_token(header) {
            Some(token) => tokens.verify_at(token, now),
            None => Err(CustomError::MissingCredential),
        },
        None => Err(CustomError::MissingCredential),
    }
}

/// Resolves the identity of the caller of a request at the instant `now`.
///
/// Fails as [`verify_token_at`] does, and with
/// [`CustomError::MalformedIdentity`] where the token's subject is not the
/// text form of an identity.
pub fn resolve_at(authorization: Option<&str>, tokens: &TokenService, now: i64) -> (r: Result<
    ObjectId,
    CustomError,
>)
    ensures
        identity_result(r) == caller_identity(header_text(authorization), *tokens, now),
{
    match verify_token_at(authorization, tokens, now) {
        Ok(subject) => parse_subject(subject.as_str()),
        Err(e) => Err(e),
    }
}

/// Verifies the bearer token of a request at the instant that the system
/// clock shows. See [`verify_token_at`].
pub fn verify_token(authorization: Option<&str>, tokens: &TokenService) -> (r: Result<
    String,
    CustomError,
>)
    ensures
        exists|now: i64|
            text_result(r) == #[trigger] asserted_subject(header_text(authorization), *tokens, now),
        authorization is None ==> r == Err::<String, CustomError>(CustomError::MissingCredential),
{
    match authorization {
        Some(header) => match bearer_token(header) {
            Some(token) => {
                let r = tokens.verify(token);
                proof {
                    let now = choose|now: i64|
                        text_result(r) == #[trigger] tokens.verification(token@, now);
                    assert(text_result(r) == asserted_subject(
                        header_text(authorization),
                        *tokens,
                        now,
                    ));
                }
                r
            },
            None => {
                assert(text_result(Err(CustomError::MissingCredential)) == asserted_subject(
                    header_text(authorization),
                    *tokens,
                    0,
                ));
                Err(CustomError::MissingCredential)
            },
        },
        None => {
            assert(text_result(Err(CustomError::MissingCredential)) == asserted_subject(
                header_text(authorization),
                *tokens,
                0,
            ));
            Err(CustomError::MissingCredential)
        },
    }
}

/// Resolves the identity of the caller of a request at the instant that the
/// system clock shows. See [`resolve_at`].
pub fn resolve(authorization: Option<&str>, tokens: &TokenService) -> (r: Result<
    ObjectId,
    CustomError,
>)
    ensures
        exists|now: i64|
            identity_result(r) == #[trigger] caller_identity(
                header_text(authorization),
                *tokens,
                now,
            ),
{
    match verify_token(authorization, tokens) {
        Ok(subject) => {
            let r = parse_subject(subject.as_str());
            proof {
                let now = choose|now: i64|
                    text_result(Ok(subject)) == #[trigger] asserted_subject(
                        header_text(authorization),
                        *tokens,
                        now,
                    );
                assert(identity_result(r) == caller_identity(
                    header_text(authorization),
                    *tokens,
                    now,
                ));
            }
            r
        },
        Err(e) => {
            proof {
                let now = choose|now: i64|
                    text_result(Err(e)) == #[trigger] asserted_subject(
                        header_text(authorization),
                        *tokens,
                        now,
                    );
                assert(identity_result(Err(e)) == caller_identity(
                    header_text(authorization),
                    *tokens,
                    now,
                ));
            }
            Err(e)
        },
    }
}

/// A request that presents, as its bearer credential, a token whose claims
/// name an identity resolves to exactly that identity at every instant
/// before the token's expiry, and to [`CustomError::TokenInvalid`] from the
/// expiry on.
pub proof fn lemma_token_resolves_to_its_identity(
    tokens: TokenService,
    id: ObjectId,
    token: Seq<char>,
    exp: u64,
    at: i64,
)
    requires
        token_claims(token, tokens.secret()) == Some((hex_text(id@), exp)),
    ensures
        at < exp ==> caller_identity(Some(bearer_scheme() + token), tokens, at) == Ok::<
            Seq<u8>,
            CustomError,
        >(id@),
        at >= exp ==> caller_identity(Some(bearer_scheme() + token), tokens, at) == Err::<
            Seq<u8>,
            CustomError,
        >(CustomError::TokenInvalid),
{
    let header = bearer_scheme() + token;
    assert(header.subrange(0, 7) =~= bearer_scheme());
    assert(header.subrange(7, header.len() as int) =~= token);
    id.lemma_view_len();
    lemma_hex_round_trip(id@);
}

} // verus!
