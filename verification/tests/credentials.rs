use todo_backend::model::user_model::User;
use todo_backend::utils::error::CustomError;
use todo_backend::utils::hashing::{hash_password, hash_password_with_cost, verify_password};
use todo_backend::utils::password_validation::{validate_password, MIN_PASSWORD_LENGTH};

#[test]
fn a_hash_matches_its_password() {
    let hash = hash_password_with_cost("Secret123", 4).unwrap();
    assert_eq!(verify_password("Secret123", &hash), Ok(true));
}

#[test]
fn a_hash_is_not_the_password() {
    let hash = hash_password_with_cost("Secret123", 4).unwrap();
    assert_ne!(hash, "Secret123");
    assert!(hash.starts_with("$2b$04$"));
    assert_eq!(hash.len(), 60);
}

#[test]
fn hashing_is_salted() {
    let first = hash_password_with_cost("Secret123", 4).unwrap();
    let second = hash_password_with_cost("Secret123", 4).unwrap();
    assert_ne!(first, second);
    assert_eq!(verify_password("Secret123", &first), Ok(true));
    assert_eq!(verify_password("Secret123", &second), Ok(true));
}

#[test]
fn a_wrong_password_does_not_match_and_is_no_error() {
    let hash = hash_password_with_cost("Secret123", 4).unwrap();
    assert_eq!(verify_password("secret123", &hash), Ok(false));
    assert_eq!(verify_password("", &hash), Ok(false));
}

#[test]
fn a_known_hash_verifies() {
    let hash = "$2b$04$EGdrhbKUv8Oc9vGiXX0HQOxSg445d458Muh7DAHskb6QbtCvdxcie";
    assert_eq!(verify_password("correctbatteryhorsestapler", hash), Ok(true));
    assert_eq!(verify_password("wrong", hash), Ok(false));
}

#[test]
fn a_malformed_hash_is_a_hashing_error() {
    assert_eq!(verify_password("Secret123", "not a hash"), Err(CustomError::HashingError));
    assert_eq!(verify_password("Secret123", ""), Err(CustomError::HashingError));
    assert_eq!(
        verify_password("Secret123", "$2b$04$tooshort"),
        Err(CustomError::HashingError)
    );
}

#[test]
fn a_work_factor_out_of_range_is_a_hashing_error() {
    assert_eq!(hash_password_with_cost("Secret123", 3), Err(CustomError::HashingError));
    assert_eq!(hash_password_with_cost("Secret123", 32), Err(CustomError::HashingError));
}

#[test]
fn the_default_work_factor_is_twelve() {
    let hash = hash_password("Secret123").unwrap();
    assert!(hash.starts_with("$2b$12$"));
}

#[test]
fn a_new_user_holds_a_hash_of_the_password() {
    let user = User::new("alice".to_string(), "alice@x.com".to_string(), "Secret123".to_string())
        .unwrap();
    assert_eq!(user.id, None);
    assert_eq!(user.username, "alice");
    assert_eq!(user.email, "alice@x.com");
    assert_ne!(user.password, "Secret123");
    assert_eq!(user.verify_password("Secret123"), Ok(true));
    assert_eq!(user.verify_password("Secret124"), Ok(false));
}

#[test]
fn passwords_need_eight_characters() {
    assert_eq!(MIN_PASSWORD_LENGTH, 8);
    assert_eq!(validate_password("Secret123"), Ok(()));
    assert_eq!(validate_password("12345678"), Ok(()));
    assert_eq!(validate_password("1234567"), Err(CustomError::WeakPassword));
    assert_eq!(validate_password(""), Err(CustomError::WeakPassword));
}

#[test]
fn password_length_counts_characters_not_bytes() {
    assert_eq!(validate_password("\u{e9}\u{e9}\u{e9}\u{e9}"), Err(CustomError::WeakPassword));
    assert_eq!(
        validate_password("\u{e9}\u{e9}\u{e9}\u{e9}\u{e9}\u{e9}\u{e9}\u{e9}"),
        Ok(())
    );
}
