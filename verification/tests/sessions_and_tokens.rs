use messaging_app_backend::auth_error::AuthError;
use messaging_app_backend::session::{
    NotificationSeverity, NotificationType, SessionManager, SessionNotification, MAX_SESSIONS_PER_USER,
};
use messaging_app_backend::tokens::{
    authenticate_claims, bearer_token, service_token_claims, token_lifetime, AuthRejection, Claims,
    TokenType,
};

fn store_session(m: &mut SessionManager, id: &str, now: i64, user: i32) -> Result<String, AuthError> {
    let fp = m.create_session_fingerprint(Some("Mozilla/5.0 (Windows) Chrome/120"), Some("10.0.0.1"));
    m.create_session_at(
        id.to_string(),
        now,
        user,
        "device".to_string(),
        "10.0.0.1".to_string(),
        Some("Browser: device".to_string()),
        fp,
    )
}

#[test]
fn session_limit_is_enforced() {
    let mut m = SessionManager::new();
    for i in 0..MAX_SESSIONS_PER_USER {
        assert!(store_session(&mut m, &format!("s{i}"), 1000, 7).is_ok());
    }
    assert_eq!(m.get_user_session_count(7), 5);
    assert!(matches!(store_session(&mut m, "s5", 1000, 7), Err(AuthError::SessionLimitExceeded)));
    assert_eq!(m.get_user_session_count(7), 5);
    assert!(store_session(&mut m, "other", 1000, 8).is_ok());
    assert_eq!(m.get_user_session_count(8), 1);
}

#[test]
fn revoking_frees_a_slot() {
    let mut m = SessionManager::new();
    for i in 0..5 {
        store_session(&mut m, &format!("s{i}"), 1000, 1).unwrap();
    }
    m.revoke_session("s0").unwrap();
    assert_eq!(m.get_user_session_count(1), 4);
    assert!(store_session(&mut m, "s5", 1000, 1).is_ok());
    assert!(matches!(m.revoke_session("missing"), Err(AuthError::InvalidSession)));
}

#[test]
fn revoke_all_leaves_no_active_session() {
    let mut m = SessionManager::new();
    store_session(&mut m, "a", 1000, 1).unwrap();
    store_session(&mut m, "b", 1000, 1).unwrap();
    store_session(&mut m, "c", 1000, 2).unwrap();
    m.revoke_all_sessions(1);
    assert_eq!(m.get_user_session_count(1), 0);
    assert_eq!(m.get_user_session_count(2), 1);
    assert_eq!(m.get_user_sessions(1).len(), 2);
    assert!(m.get_user_sessions(1).iter().all(|s| s.revoked));
}

#[test]
fn expiry_by_age_and_inactivity() {
    let mut m = SessionManager::new();
    store_session(&mut m, "a", 0, 1).unwrap();
    let s = &m.get_user_sessions(1)[0];
    assert!(!SessionManager::is_session_expired_at(s, 1800));
    assert!(SessionManager::is_session_expired_at(s, 1801));
    m.cleanup_expired_sessions_at(1000);
    assert_eq!(m.get_user_sessions(1).len(), 1);
    m.cleanup_expired_sessions_at(5000);
    assert_eq!(m.get_user_sessions(1).len(), 0);
}

#[test]
fn activity_is_recorded_and_refreshes_the_session() {
    let mut m = SessionManager::new();
    store_session(&mut m, "a", 0, 1).unwrap();
    m.update_session_activity_at(100, "a", "login", Some("from 10.0.0.1".to_string())).unwrap();
    let acts = m.get_session_activities("a").unwrap();
    assert_eq!(acts.len(), 2);
    assert_eq!(acts[0].action, "created");
    assert_eq!(acts[0].details.as_deref(), Some("Device: device, IP: 10.0.0.1"));
    assert_eq!(acts[1].action, "login");
    assert_eq!(acts[1].timestamp, 100);
    assert_eq!(m.get_user_sessions(1)[0].last_active, 100);
    assert!(matches!(m.update_session_activity_at(100, "zzz", "x", None), Err(AuthError::InvalidSession)));
}

#[test]
fn oldest_session_is_cleaned_up_first() {
    let mut m = SessionManager::new();
    store_session(&mut m, "new", 50, 1).unwrap();
    store_session(&mut m, "old", 10, 1).unwrap();
    m.cleanup_oldest_session(1).unwrap();
    let left = m.get_user_sessions(1);
    assert_eq!(left.len(), 1);
    assert_eq!(left[0].created_at, 50);
    assert!(matches!(m.cleanup_oldest_session(9), Err(AuthError::NoSessionsToCleanup)));
}

#[test]
fn user_agent_is_classified() {
    let m = SessionManager::new();
    let (d, b, o) = m.parse_user_agent("Mozilla/5.0 (iPhone; CPU iOS 17) Mobile Safari");
    assert_eq!((d.as_str(), b.as_str(), o.as_str()), ("Mobile", "Safari", "iOS"));
    let (d, b, o) = m.parse_user_agent("curl/8.0");
    assert_eq!((d.as_str(), b.as_str(), o.as_str()), ("Desktop", "Unknown", "Unknown"));
    let fp = m.create_session_fingerprint(None, None);
    assert_eq!(fp.user_agent, "unknown");
    assert_eq!(fp.ip_address, "unknown");
}

#[test]
fn notifications_are_kept_per_session() {
    let mut m = SessionManager::new();
    store_session(&mut m, "a", 0, 1).unwrap();
    let n = SessionNotification {
        timestamp: 5,
        notification_type: NotificationType::Login,
        message: "hello".to_string(),
        severity: NotificationSeverity::Info,
    };
    assert_eq!(m.get_notifications("a").unwrap().len(), 1);
    assert_eq!(m.get_notifications("a").unwrap()[0].message, "New session created");
    m.add_notification("a", n).unwrap();
    assert_eq!(m.get_notifications("a").unwrap().len(), 2);
    m.clear_notifications("a").unwrap();
    assert_eq!(m.get_notifications("a").unwrap().len(), 0);
    assert!(m.get_notifications("b").is_err());
}

#[test]
fn token_lifetimes() {
    assert_eq!(token_lifetime(TokenType::Access), 3600);
    assert_eq!(token_lifetime(TokenType::Refresh), 30 * 86400);
    assert_eq!(token_lifetime(TokenType::Verification), 7 * 86400);
    assert_eq!(token_lifetime(TokenType::PasswordReset), 3600);
    let c = Claims::for_user(42, TokenType::Verification, 1000, 900);
    assert_eq!(c.sub, "42");
    assert_eq!(c.exp, 1000 + 7 * 86400);
    assert_eq!(c.iat, 900);
    let c = service_token_claims("u-1", TokenType::Refresh, 10);
    assert_eq!(c.sub, "u-1");
    assert_eq!(c.exp, 10 + 2592000);
}

#[test]
fn bearer_tokens_and_claims() {
    assert_eq!(bearer_token(Some("Bearer abc")), Ok("abc".to_string()));
    assert_eq!(bearer_token(Some("Token abc")), Err(AuthRejection::InvalidHeaderFormat));
    assert_eq!(bearer_token(None), Err(AuthRejection::NoAuthorizationHeader));
    assert_eq!(AuthRejection::TokenExpired.message(), "Token expired");
    let good = Claims::for_user(5, TokenType::Access, 100, 100);
    let user = authenticate_claims(Some(good), 200).unwrap();
    assert_eq!(user.user_id, 5);
    assert!(!user.email_verified);
    let old = Claims::for_user(5, TokenType::Access, 0, 0);
    assert_eq!(authenticate_claims(Some(old), 4000).err(), Some(AuthRejection::TokenExpired));
    let refresh = Claims::for_user(5, TokenType::Refresh, 100, 100);
    assert_eq!(authenticate_claims(Some(refresh), 200).err(), Some(AuthRejection::InvalidTokenType));
    assert_eq!(authenticate_claims(None, 200).err(), Some(AuthRejection::InvalidToken));
}
