//! Signed, time-limited session tokens.
//!
//! A token asserts one thing: that its bearer is the subject named in it,
//! until the instant named in it. Tokens are signed with a secret that the
//! service is constructed with, so that verifying one needs no lookup.

use crate::utils::error::CustomError;
use vstd::prelude::*;
use vstd::string::*;

verus! {

/// How long a token is valid after it was issued, in seconds: 24 hours.
pub const TOKEN_LIFETIME_SECS: u64 = 86_400;

/// The payload of a token.
pub struct Claims {
    /// The subject: the text form of the user's identity.
    pub id: String,
    /// The instant at which the token expires, in seconds since the Unix
    /// epoch. The token is valid strictly before it.
    pub exp: u64,
}

/// The failure that `jsonwebtoken` reports.
#[verifier::external_type_specification]
#[verifier::external_body]
pub struct ExJwtError(jsonwebtoken::errors::Error);

/// The token that `jsonwebtoken::encode` makes of a subject and an expiry
/// under a secret, with the default header (HS256); `None` where it fails.
pub uninterp spec fn signed_token(subject: Seq<char>, exp: u64, secret: Seq<u8>) -> Option<
    Seq<char>,
>;

/// The subject and expiry that `jsonwebtoken::decode` reads from a token
/// under a secret when it checks the signature (HS256) and not the clock;
/// `None` where the token is not well formed, is not signed with the secret,
/// or does not carry both claims.
pub uninterp spec fn token_claims(token: Seq<char>, secret: Seq<u8>) -> Option<(Seq<char>, u64)>;

/// Calls `jsonwebtoken::encode` on the claims `id` and `exp`, with the
/// default header and the secret as an HMAC key.
///
/// Not proved, taken from `jsonwebtoken`: the token depends on the three
/// arguments alone, and decoding it under the same secret gives back the
/// subject and the expiry.
#[verifier::external_body]
fn jwt_encode(subject: &str, exp: u64, secret: &[u8]) -> (r: Result<
    String,
    jsonwebtoken::errors::Error,
>)
    ensures
        match r {
            Ok(token) => signed_token(subject@, exp, secret@) == Some(token@) && token_claims(
                token@,
                secret@,
            ) == Some((subject@, exp)),
            Err(_) => signed_token(subject@, exp, secret@) is None,
        },
{
    let mut claims = serde_json::Map::new();
    claims.insert("id".to_string(), serde_json::Value::from(subject));
    claims.insert("exp".to_string(), serde_json::Value::from(exp));
    jsonwebtoken::encode(
        &jsonwebtoken::Header::default(),
        &serde_json::Value::Object(claims),
        &jsonwebtoken::EncodingKey::from_secret(secret),
    )
}

/// Calls `jsonwebtoken::decode` with the secret as an HMAC key, accepting
/// HS256 only and leaving the expiry unchecked, and picks the claims `id`
/// (a string) and `exp` (an unsigned integer) from the payload.
///
/// Not proved, taken from `jsonwebtoken`: the answer depends on the two
/// arguments alone.
#[verifier::external_body]
fn jwt_decode(token: &str, secret: &[u8]) -> (r: Option<Claims>)
    ensures
        match r {
            Some(claims) => token_claims(token@, secret@) == Some((claims.id@, claims.exp)),
            None => token_claims(token@, secret@) is None,
        },
{
    let mut validation = jsonwebtoken::Validation::new(jsonwebtoken::Algorithm::HS256);
    validation.validate_exp = false;
    let key = jsonwebtoken::DecodingKey::from_secret(secret);
    let data = jsonwebtoken::decode::<serde_json::Value>(token, &key, &validation).ok()?;
    let id = data.claims.get("id")?.as_str()?.to_string();
    let exp = data.claims.get("exp")?.as_u64()?;
    Some(Claims { id, exp })
}

/// Calls `chrono::Utc::now` and gives the seconds since the Unix epoch.
///
/// Nothing is claimed of the result: it is whatever the system clock says.
#[verifier::external_body]
fn unix_time_now() -> i64 {
    chrono::Utc::now().timestamp()
}

/// The expiry of a token issued at `now`, where one exists: 24 hours later,
/// as a count of seconds that is not negative.
pub open spec fn expiry(now: i64) -> Option<u64> {
    if now + TOKEN_LIFETIME_SECS >= 0 {
        Some((now + TOKEN_LIFETIME_SECS) as u64)
    } else {
        None
    }
}

/// What a token's claims are worth at the instant `now`: the subject while
/// `now` is strictly before the expiry, and [`CustomError::TokenInvalid`]
/// from the expiry on, as for a token that has no claims to show.
pub open spec fn subject_at(claims: Option<(Seq<char>, u64)>, now: i64) -> Result<
    Seq<char>,
    CustomError,
> {
    match claims {
        Some((subject, exp)) => if now < exp {
            Ok(subject)
        } else {
            Err(CustomError::TokenInvalid)
        },
        None => Err(CustomError::TokenInvalid),
    }
}

/// A result that carries text, with the text taken by its characters.
pub open spec fn text_result(r: Result<String, CustomError>) -> Result<Seq<char>, CustomError> {
    match r {
        Ok(text) => Ok(text@),
        Err(e) => Err(e),
    }
}

/// Decides what decoded claims are worth at the instant `now`.
///
/// Returns the subject where there are claims and `now` is strictly before
/// their expiry; [`CustomError::TokenInvalid`] otherwise, whatever the reason.
pub fn check_claims(claims: Option<Claims>, now: i64) -> (r: Result<String, CustomError>)
    ensures
        text_result(r) == subject_at(
            match claims {
                Some(c) => Some((c.id@, c.exp)),
                None => None,
            },
            now,
        ),
{
    match claims {
        Some(c) => {
            if now < 0 || (now as u64) < c.exp {
                Ok(c.id)
            } else {
                Err(CustomError::TokenInvalid)
            }
        },
        None => Err(CustomError::TokenInvalid),
    }
}

/// Issues and verifies session tokens under one signing secret.
pub struct TokenService {
    secret: Vec<u8>,
}

impl TokenService {
    /// The signing secret.
    pub closed spec fn secret(&self) -> Seq<u8> {
        self.secret@
    }

    /// What [`TokenService::issue_at`] returns for a subject at the instant
    /// `now`: the token signed for the subject and the expiry 24 hours later,
    /// or [`CustomError::TokenGenerationFailed`] where there is no such
    /// expiry or no such token.
    pub open spec fn issuance(&self, subject: Seq<char>, now: i64) -> Result<
        Seq<char>,
        CustomError,
    > {
        match expiry(now) {
            Some(exp) => match signed_token(subject, exp, self.secret()) {
                Some(token) => Ok(token),
                None => Err(CustomError::TokenGenerationFailed),
            },
            None => Err(CustomError::TokenGenerationFailed),
        }
    }

    /// What [`TokenService::verify_at`] returns for a token at the instant
    /// `now`.
    pub open spec fn verification(&self, token: Seq<char>, now: i64) -> Result<
        Seq<char>,
        CustomError,
    > {
        subject_at(token_claims(token, self.secret()), now)
    }

    /// A service that signs with the given secret.
    pub fn new(secret: Vec<u8>) -> (service: TokenService)
        ensures
            service.secret() == secret@,
    {
        TokenService { secret }
    }

    /// A service that signs with the configured secret, taken by its bytes.
    ///
    /// A secret that is not configured is
    /// [`CustomError::ConfigurationError`]: the service cannot start.
    pub fn from_config(secret: Option<&str>) -> (r: Result<TokenService, CustomError>)
        ensures
            match r {
                Ok(service) => secret matches Some(s) && service.secret() == s.spec_bytes(),
                Err(e) => secret is None && e == CustomError::ConfigurationError,
            },
    {
        match secret {
            Some(s) => Ok(TokenService { secret: s.as_bytes_vec() }),
            None => Err(CustomError::ConfigurationError),
        }
    }

    /// Issues a token for a subject at the instant `now`, in seconds since
    /// the Unix epoch. The token expires exactly 24 hours later.
    ///
    /// The token verifies to the subject at every instant before its expiry,
    /// and fails to verify from its expiry on.
    pub fn issue_at(&self, subject: &str, now: i64) -> (r: Result<String, CustomError>)
        ensures
            text_result(r) == self.issuance(subject@, now),
            r matches Ok(token) ==> token_claims(token@, self.secret()) == Some(
                (subject@, (now + TOKEN_LIFETIME_SECS) as u64),
            ),
            r matches Ok(token) ==> forall|at: i64|
                at < now + TOKEN_LIFETIME_SECS ==> #[trigger] self.verification(token@, at) == Ok::<
                    Seq<char>,
                    CustomError,
                >(subject@),
            r matches Ok(token) ==> forall|at: i64|
                at >= now + TOKEN_LIFETIME_SECS ==> #[trigger] self.verification(token@, at) == Err::<
                    Seq<char>,
                    CustomError,
                >(CustomError::TokenInvalid),
    {
        if now < -(TOKEN_LIFETIME_SECS as i64) {
            return Err(CustomError::TokenGenerationFailed);
        }
        let exp: u64 = if now >= 0 {
            now as u64 + TOKEN_LIFETIME_SECS
        } else {
            (now + TOKEN_LIFETIME_SECS as i64) as u64
        };
        match jwt_encode(subject, exp, self.secret.as_slice()) {
            Ok(token) => Ok(token),
            Err(_) => Err(CustomError::TokenGenerationFailed),
        }
    }

    /// Verifies a token at the instant `now`, in seconds since the Unix
    /// epoch, and returns its subject.
    ///
    /// Fails with [`CustomError::TokenInvalid`] where the token is not well
    /// formed, is not signed with the secret, or has expired: a token is
    /// valid strictly before its expiry, and the three failures are not told
    /// apart.
    pub fn verify_at(&self, token: &str, now: i64) -> (r: Result<String, CustomError>)
        ensures
            text_result(r) == self.verification(token@, now),
    {
        check_claims(jwt_decode(token, self.secret.as_slice()), now)
    }

    /// Issues a token for a subject at the instant that the system clock
    /// shows. See [`TokenService::issue_at`].
    pub fn issue(&self, subject: &str) -> (r: Result<String, CustomError>)
        ensures
            exists|now: i64| text_result(r) == #[trigger] self.issuance(subject@, now),
    {
        let now = unix_time_now();
        let r = self.issue_at(subject, now);
        assert(text_result(r) == self.issuance(subject@, now));
        r
    }

    /// Verifies a token at the instant that the system clock shows. See
    /// [`TokenService::verify_at`].
    pub fn verify(&self, token: &str) -> (r: Result<String, CustomError>)
        ensures
            exists|now: i64| text_result(r) == #[trigger] self.verification(token@, now),
    {
        let now = unix_time_now();
        let r = self.verify_at(token, now);
        assert(text_result(r) == self.verification(token@, now));
        r
    }
}

/// A token from which the secret reads no claims is invalid at every
/// instant: so is every token that is not signed with the secret, whatever
/// else it holds.
pub proof fn lemma_token_without_claims_is_invalid(tokens: TokenService, token: Seq<char>, now: i64)
    requires
        token_claims(token, tokens.secret()) is None,
    ensures
        tokens.verification(token, now) == Err::<Seq<char>, CustomError>(CustomError::TokenInvalid),
{
}

/// A token is valid strictly before the expiry in its claims and invalid
/// from then on, whoever its subject is.
pub proof fn lemma_token_expires(
    tokens: TokenService,
    token: Seq<char>,
    subject: Seq<char>,
    exp: u64,
    now: i64,
)
    requires
        token_claims(token, tokens.secret()) == Some((subject, exp)),
    ensures
        now < exp ==> tokens.verification(token, now) == Ok::<Seq<char>, CustomError>(subject),
        now >= exp ==> tokens.verification(token, now) == Err::<Seq<char>, CustomError>(
            CustomError::TokenInvalid,
        ),
{
}

} // verus!
