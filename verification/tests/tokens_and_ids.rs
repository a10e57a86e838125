use messaging_app_backend::circuit_breaker::{CircuitBreaker, CircuitState};
use messaging_app_backend::jwt::{
    authenticate, create_access_token, create_password_reset_token, create_refresh_token,
    create_verification_token, decode_claims, decode_user_claims, generate_token, token_type_from,
    token_type_str,
};
use messaging_app_backend::password::{hash_password, verify_password};
use messaging_app_backend::signaling::is_uuid;
use messaging_app_backend::tokens::{AuthRejection, TokenType};
use std::time::Duration;

const SECRET: &str = "your-secret-key";

fn now() -> i64 {
    std::time::SystemTime::now().duration_since(std::time::UNIX_EPOCH).unwrap().as_secs() as i64
}

#[test]
fn issued_tokens_read_back() {
    let t = now();
    let token = create_access_token(SECRET, 42, t).unwrap();
    let c = decode_claims(SECRET, &token).unwrap();
    assert_eq!(c.sub, "42");
    assert_eq!(c.exp, t + 3600);
    assert_eq!(c.iat, t);
    assert_eq!(c.token_type, TokenType::Access);
    for (made, kind, life) in [
        (create_refresh_token(SECRET, 1, t).unwrap(), TokenType::Refresh, 30 * 86400),
        (create_verification_token(SECRET, 1, t).unwrap(), TokenType::Verification, 7 * 86400),
        (create_password_reset_token(SECRET, 1, t).unwrap(), TokenType::PasswordReset, 3600),
    ] {
        let c = decode_claims(SECRET, &made).unwrap();
        assert_eq!(c.token_type, kind);
        assert_eq!(c.exp, t + life);
    }
    assert!(decode_claims("another-secret", &token).is_none());
    assert!(decode_claims(SECRET, "not.a.token").is_none());
    assert!(decode_user_claims(SECRET, &token).is_none());
}

#[test]
fn bearers_are_authenticated() {
    let t = now();
    let token = create_access_token(SECRET, 7, t).unwrap();
    let user = authenticate(Some(&format!("Bearer {token}")), SECRET, t).unwrap();
    assert_eq!(user.user_id, 7);
    assert!(!user.email_verified);
    assert_eq!(authenticate(None, SECRET, t).err(), Some(AuthRejection::NoAuthorizationHeader));
    assert_eq!(authenticate(Some(&token), SECRET, t).err(), Some(AuthRejection::InvalidHeaderFormat));
    let refresh = create_refresh_token(SECRET, 7, t).unwrap();
    assert_eq!(
        authenticate(Some(&format!("Bearer {refresh}")), SECRET, t).err(),
        Some(AuthRejection::InvalidTokenType)
    );
    let old = create_access_token(SECRET, 7, t - 86400).unwrap();
    assert_eq!(authenticate(Some(&format!("Bearer {old}")), SECRET, t).err(), Some(AuthRejection::InvalidToken));
    let named = generate_token(SECRET, "user-uuid", TokenType::Access, t).unwrap();
    assert_eq!(decode_claims(SECRET, &named).unwrap().sub, "user-uuid");
    assert_eq!(authenticate(Some(&format!("Bearer {named}")), SECRET, t).err(), Some(AuthRejection::InvalidToken));
    let forged = create_access_token("forged", 7, t).unwrap();
    assert_eq!(authenticate(Some(&format!("Bearer {forged}")), SECRET, t).err(), Some(AuthRejection::InvalidToken));
}

#[test]
fn issued_tokens_are_answered_by_their_claims() {
    let t = now();
    let access = create_access_token(SECRET, 42, t).unwrap();
    let user = authenticate(Some(&format!("Bearer {access}")), SECRET, t + 10).unwrap();
    assert_eq!(user.user_id, 42);
    assert!(!user.email_verified);
    for other in [
        create_refresh_token(SECRET, 42, t).unwrap(),
        create_verification_token(SECRET, 42, t).unwrap(),
        create_password_reset_token(SECRET, 42, t).unwrap(),
    ] {
        assert_eq!(
            authenticate(Some(&format!("Bearer {other}")), SECRET, t).err(),
            Some(AuthRejection::InvalidTokenType)
        );
    }
    // Still accepted by decoding, but past its hour at the server's `now`.
    assert_eq!(
        authenticate(Some(&format!("Bearer {access}")), SECRET, t + 3601).err(),
        Some(AuthRejection::TokenExpired)
    );
    let negative = create_access_token(SECRET, -5, t).unwrap();
    assert_eq!(authenticate(Some(&format!("Bearer {negative}")), SECRET, t).unwrap().user_id, -5);
}

#[test]
fn token_kinds_by_name() {
    for k in [TokenType::Access, TokenType::Refresh, TokenType::Verification, TokenType::PasswordReset] {
        assert_eq!(token_type_from(token_type_str(k)), Some(k));
    }
    assert_eq!(token_type_from("access"), None);
}

#[test]
fn a_fresh_hash_verifies() {
    let h = hash_password("Correct horse 1!").unwrap();
    assert!(verify_password("Correct horse 1!", &h));
    assert!(!verify_password("Correct horse 2!", &h));
}

#[test]
fn hashes_have_the_bcrypt_form() {
    let h = hash_password("Correct horse 1!").unwrap();
    assert_eq!(h.len(), 60);
    assert!(h.starts_with("$2b$12$"));
    assert!(h[7..].chars().all(|c| c == '.' || c == '/' || c.is_ascii_alphanumeric()));
    assert_ne!(h, "Correct horse 1!");
}

#[test]
fn uuid_texts_like_the_uuid_crate() {
    let cases = [
        "550e8400-e29b-41d4-a716-446655440000",
        "550E8400-E29B-41D4-A716-446655440000",
        "550e8400e29b41d4a716446655440000",
        "{550e8400-e29b-41d4-a716-446655440000}",
        "urn:uuid:550e8400-e29b-41d4-a716-446655440000",
        "URN:UUID:550e8400-e29b-41d4-a716-446655440000",
        "550e8400-e29b-41d4-a716-44665544000g",
        "550e8400+e29b-41d4-a716-446655440000",
        "550e8400-e29b-41d4-a716-4466554400000",
        "{550e8400-e29b-41d4-a716-446655440000)",
        "urn:uuix:550e8400-e29b-41d4-a716-446655440000",
        "",
        "bob",
        "550e8400e29b41d4a71644665544000é",
    ];
    for c in cases {
        assert_eq!(is_uuid(c), uuid::Uuid::parse_str(c).is_ok(), "{c}");
    }
}

#[test]
fn open_breaker_steps() {
    let mut b = CircuitBreaker::new(1, Duration::from_secs(3600));
    assert_eq!(b.execute_due(false, || Err::<u8, u8>(1)), Err(1));
    assert_eq!(b.current_state(), CircuitState::Open);
    assert_eq!(b.execute_due(false, || Err::<u8, u8>(2)), Err(2));
    assert_eq!(b.current_state(), CircuitState::Open);
    assert_eq!(b.failure_count(), 1);
    assert_eq!(b.execute_due(true, || Ok::<u8, u8>(3)), Ok(3));
    assert_eq!(b.current_state(), CircuitState::HalfOpen);
    assert_eq!(b.failure_count(), 0);
    assert_eq!(b.execute_due(false, || Ok::<u8, u8>(4)), Ok(4));
    assert_eq!(b.current_state(), CircuitState::Closed);
}
