use todo_backend::middleware::auth::{
    bearer_token, parse_subject, resolve, resolve_at, verify_token, verify_token_at,
};
use todo_backend::model::object_id::ObjectId;
use todo_backend::service::token_service::{
    check_claims, Claims, TokenService, TOKEN_LIFETIME_SECS,
};
use todo_backend::utils::error::CustomError;

const NOW: i64 = 1_700_000_000;

fn service() -> TokenService {
    TokenService::new(b"a secret for tests".to_vec())
}

fn flip_last_character(token: &str) -> String {
    let mut text = token.to_string();
    let last = text.pop().unwrap();
    text.push(if last == 'A' { 'B' } else { 'A' });
    text
}

#[test]
fn the_lifetime_is_24_hours() {
    assert_eq!(TOKEN_LIFETIME_SECS, 24 * 60 * 60);
}

#[test]
fn an_issued_token_verifies_to_its_subject() {
    let tokens = service();
    let token = tokens.issue_at("0123456789abcdef01234567", NOW).unwrap();
    assert_eq!(
        tokens.verify_at(&token, NOW),
        Ok("0123456789abcdef01234567".to_string())
    );
}

#[test]
fn a_token_is_three_dot_separated_parts_and_not_its_subject() {
    let token = service().issue_at("0123456789abcdef01234567", NOW).unwrap();
    assert_eq!(token.split('.').count(), 3);
    assert_ne!(token, "0123456789abcdef01234567");
}

#[test]
fn a_token_carries_subject_and_expiry_as_claims() {
    let token = service().issue_at("0123456789abcdef01234567", NOW).unwrap();
    let mut validation = jsonwebtoken::Validation::new(jsonwebtoken::Algorithm::HS256);
    validation.validate_exp = false;
    let data = jsonwebtoken::decode::<serde_json::Value>(
        &token,
        &jsonwebtoken::DecodingKey::from_secret(b"a secret for tests"),
        &validation,
    )
    .unwrap();
    assert_eq!(data.header.alg, jsonwebtoken::Algorithm::HS256);
    assert_eq!(
        data.claims.get("id").and_then(|v| v.as_str()),
        Some("0123456789abcdef01234567")
    );
    assert_eq!(
        data.claims.get("exp").and_then(|v| v.as_u64()),
        Some(1_700_086_400)
    );
}

#[test]
fn a_token_is_valid_until_just_before_its_expiry() {
    let tokens = service();
    let token = tokens.issue_at("subject", NOW).unwrap();
    assert_eq!(tokens.verify_at(&token, NOW + 86_399), Ok("subject".to_string()));
    assert_eq!(tokens.verify_at(&token, NOW - 1_000_000), Ok("subject".to_string()));
    assert_eq!(tokens.verify_at(&token, -5), Ok("subject".to_string()));
}

#[test]
fn a_token_is_invalid_exactly_at_its_expiry() {
    let tokens = service();
    let token = tokens.issue_at("subject", NOW).unwrap();
    assert_eq!(tokens.verify_at(&token, NOW + 86_400), Err(CustomError::TokenInvalid));
}

#[test]
fn a_token_is_invalid_after_its_expiry() {
    let tokens = service();
    let token = tokens.issue_at("subject", NOW).unwrap();
    assert_eq!(tokens.verify_at(&token, NOW + 86_401), Err(CustomError::TokenInvalid));
    assert_eq!(tokens.verify_at(&token, i64::MAX), Err(CustomError::TokenInvalid));
}

#[test]
fn a_token_with_an_altered_signature_is_invalid() {
    let tokens = service();
    let token = tokens.issue_at("subject", NOW).unwrap();
    let altered = flip_last_character(&token);
    assert_ne!(altered, token);
    assert_eq!(tokens.verify_at(&altered, NOW), Err(CustomError::TokenInvalid));
}

#[test]
fn every_single_altered_signature_character_is_noticed() {
    let tokens = service();
    let token = tokens.issue_at("subject", NOW).unwrap();
    let start = token.rfind('.').unwrap() + 1;
    for at in start..token.len() {
        let mut bytes = token.clone().into_bytes();
        bytes[at] = if bytes[at] == b'x' { b'y' } else { b'x' };
        let altered = String::from_utf8(bytes).unwrap();
        assert_eq!(tokens.verify_at(&altered, NOW), Err(CustomError::TokenInvalid));
    }
}

#[test]
fn a_token_with_an_altered_payload_is_invalid() {
    let tokens = service();
    let token = tokens.issue_at("subject", NOW).unwrap();
    let other = tokens.issue_at("another", NOW).unwrap();
    let parts: Vec<&str> = token.split('.').collect();
    let other_parts: Vec<&str> = other.split('.').collect();
    let forged = format!("{}.{}.{}", parts[0], other_parts[1], parts[2]);
    assert_eq!(tokens.verify_at(&forged, NOW), Err(CustomError::TokenInvalid));
}

#[test]
fn a_token_signed_with_another_secret_is_invalid() {
    let token = TokenService::new(b"another secret".to_vec())
        .issue_at("subject", NOW)
        .unwrap();
    assert_eq!(service().verify_at(&token, NOW), Err(CustomError::TokenInvalid));
}

#[test]
fn text_that_is_no_token_is_invalid() {
    let tokens = service();
    assert_eq!(tokens.verify_at("", NOW), Err(CustomError::TokenInvalid));
    assert_eq!(tokens.verify_at("a.b.c", NOW), Err(CustomError::TokenInvalid));
    assert_eq!(tokens.verify_at("not a token", NOW), Err(CustomError::TokenInvalid));
}

#[test]
fn a_signed_token_without_the_claims_is_invalid() {
    let mut claims = serde_json::Map::new();
    claims.insert("sub".to_string(), serde_json::Value::from("subject"));
    claims.insert("exp".to_string(), serde_json::Value::from(1_800_000_000u64));
    let token = jsonwebtoken::encode(
        &jsonwebtoken::Header::default(),
        &serde_json::Value::Object(claims),
        &jsonwebtoken::EncodingKey::from_secret(b"a secret for tests"),
    )
    .unwrap();
    assert_eq!(service().verify_at(&token, NOW), Err(CustomError::TokenInvalid));
}

#[test]
fn issuing_is_the_same_for_the_same_instant() {
    let tokens = service();
    assert_eq!(tokens.issue_at("subject", NOW), tokens.issue_at("subject", NOW));
    assert_ne!(tokens.issue_at("subject", NOW), tokens.issue_at("subject", NOW + 1));
}

#[test]
fn no_token_is_issued_where_the_expiry_would_be_negative() {
    let tokens = service();
    assert_eq!(
        tokens.issue_at("subject", -86_401),
        Err(CustomError::TokenGenerationFailed)
    );
    assert_eq!(
        tokens.issue_at("subject", i64::MIN),
        Err(CustomError::TokenGenerationFailed)
    );
    let token = tokens.issue_at("subject", -86_400).unwrap();
    assert_eq!(tokens.verify_at(&token, -1), Ok("subject".to_string()));
    assert_eq!(tokens.verify_at(&token, 0), Err(CustomError::TokenInvalid));
}

#[test]
fn a_token_is_issued_at_the_end_of_time() {
    let tokens = service();
    let token = tokens.issue_at("subject", i64::MAX).unwrap();
    assert_eq!(tokens.verify_at(&token, i64::MAX), Ok("subject".to_string()));
}

#[test]
fn claims_are_worth_their_subject_strictly_before_the_expiry() {
    let claims = |exp: u64| Some(Claims { id: "subject".to_string(), exp });
    assert_eq!(check_claims(claims(100), 99), Ok("subject".to_string()));
    assert_eq!(check_claims(claims(100), 100), Err(CustomError::TokenInvalid));
    assert_eq!(check_claims(claims(100), 101), Err(CustomError::TokenInvalid));
    assert_eq!(check_claims(claims(0), -1), Ok("subject".to_string()));
    assert_eq!(check_claims(claims(0), 0), Err(CustomError::TokenInvalid));
    assert_eq!(check_claims(claims(u64::MAX), i64::MAX), Ok("subject".to_string()));
    assert_eq!(check_claims(None, 0), Err(CustomError::TokenInvalid));
}

#[test]
fn a_missing_secret_is_a_configuration_error() {
    assert!(matches!(
        TokenService::from_config(None),
        Err(CustomError::ConfigurationError)
    ));
}

#[test]
fn a_configured_secret_signs_by_its_bytes() {
    let configured = TokenService::from_config(Some("a secret for tests")).ok().unwrap();
    let token = configured.issue_at("subject", NOW).unwrap();
    assert_eq!(service().verify_at(&token, NOW), Ok("subject".to_string()));
}

#[test]
fn a_token_issued_now_verifies_now() {
    let tokens = service();
    let token = tokens.issue("0123456789abcdef01234567").unwrap();
    assert_eq!(tokens.verify(&token), Ok("0123456789abcdef01234567".to_string()));
}

#[test]
fn a_token_issued_a_day_ago_does_not_verify_now() {
    let tokens = service();
    let token = tokens.issue_at("subject", 1_000_000_000).unwrap();
    assert_eq!(tokens.verify(&token), Err(CustomError::TokenInvalid));
}

#[test]
fn the_credential_follows_the_bearer_scheme() {
    assert_eq!(bearer_token("Bearer abc.def.ghi"), Some("abc.def.ghi"));
    assert_eq!(bearer_token("Bearer "), Some(""));
    assert_eq!(bearer_token("Bearer  two"), Some(" two"));
    assert_eq!(bearer_token("Bearer \u{e9}t\u{e9}"), Some("\u{e9}t\u{e9}"));
}

#[test]
fn a_header_of_another_scheme_carries_no_credential() {
    assert_eq!(bearer_token(""), None);
    assert_eq!(bearer_token("Bearer"), None);
    assert_eq!(bearer_token("bearer abc"), None);
    assert_eq!(bearer_token("Basic abc"), None);
    assert_eq!(bearer_token(" Bearer abc"), None);
    assert_eq!(bearer_token("\u{e9}earer abc"), None);
}

#[test]
fn a_request_without_credential_is_rejected() {
    let tokens = service();
    assert_eq!(verify_token_at(None, &tokens, NOW), Err(CustomError::MissingCredential));
    assert_eq!(
        verify_token_at(Some("Basic abc"), &tokens, NOW),
        Err(CustomError::MissingCredential)
    );
    assert_eq!(resolve_at(None, &tokens, NOW), Err(CustomError::MissingCredential));
    assert_eq!(verify_token(None, &tokens), Err(CustomError::MissingCredential));
    assert_eq!(resolve(None, &tokens), Err(CustomError::MissingCredential));
}

#[test]
fn a_request_with_an_invalid_token_is_rejected() {
    let tokens = service();
    assert_eq!(
        verify_token_at(Some("Bearer a.b.c"), &tokens, NOW),
        Err(CustomError::TokenInvalid)
    );
    assert_eq!(resolve_at(Some("Bearer a.b.c"), &tokens, NOW), Err(CustomError::TokenInvalid));
    assert_eq!(resolve(Some("Bearer a.b.c"), &tokens), Err(CustomError::TokenInvalid));
}

#[test]
fn a_request_resolves_to_the_identity_that_its_token_was_issued_for() {
    let tokens = service();
    let id = ObjectId::parse_str("0123456789abcdef01234567").unwrap();
    let token = tokens.issue_at(&id.to_hex(), NOW).unwrap();
    let header = format!("Bearer {}", token);
    assert_eq!(
        verify_token_at(Some(&header), &tokens, NOW),
        Ok("0123456789abcdef01234567".to_string())
    );
    assert_eq!(resolve_at(Some(&header), &tokens, NOW), Ok(id));
    assert_eq!(resolve_at(Some(&header), &tokens, NOW + 86_399), Ok(id));
    assert_eq!(
        resolve_at(Some(&header), &tokens, NOW + 86_400),
        Err(CustomError::TokenInvalid)
    );
}

#[test]
fn a_request_resolves_by_the_system_clock() {
    let tokens = service();
    let id = ObjectId::from_sequence_number(7);
    let token = tokens.issue(&id.to_hex()).unwrap();
    let header = format!("Bearer {}", token);
    assert_eq!(resolve(Some(&header), &tokens), Ok(id));
    assert_eq!(verify_token(Some(&header), &tokens), Ok(id.to_hex()));
}

#[test]
fn a_subject_that_is_no_identity_is_malformed() {
    let tokens = service();
    let token = tokens.issue_at("alice", NOW).unwrap();
    let header = format!("Bearer {}", token);
    assert_eq!(verify_token_at(Some(&header), &tokens, NOW), Ok("alice".to_string()));
    assert_eq!(
        resolve_at(Some(&header), &tokens, NOW),
        Err(CustomError::MalformedIdentity)
    );
    assert_eq!(parse_subject("alice"), Err(CustomError::MalformedIdentity));
    assert_eq!(
        parse_subject("0123456789abcdef01234567"),
        Ok(ObjectId::parse_str("0123456789abcdef01234567").unwrap())
    );
}
