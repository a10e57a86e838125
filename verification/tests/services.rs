use messaging_app_backend::api_types::{ProfileField, UpdateProfileInput};
use messaging_app_backend::auth_error::{AuthError, EmailError, FieldError, ValidationFailure};
use messaging_app_backend::circuit_breaker::{CircuitBreaker, CircuitState};
use messaging_app_backend::email::{password_reset_email, smtp_settings, verification_email};
use messaging_app_backend::metrics::{register_metrics, Metrics};
use messaging_app_backend::password::{
    check_registration_password, hash_password, validate_password_strength, verify_password,
    CompiledRegex,
};
use messaging_app_backend::requests::{
    validate_request, ChangePasswordRequest, LoginRequest, PaginationParams,
    PasswordResetRequest,
};
use std::time::Duration;

#[test]
fn verification_email_links_the_token() {
    let e = verification_email("ann@example.com", "tok");
    assert_eq!(e.to, "ann@example.com");
    assert_eq!(e.subject, "Verify your email address");
    assert!(e.body.contains(r#"<a href="http://localhost:3000/verify-email?token=tok">Verify Email</a>"#));
    assert!(e.body.starts_with("\n                <h1>Welcome to Messaging App!</h1>"));
    let r = password_reset_email("bob@example.com", "t2");
    assert_eq!(r.subject, "Reset your password");
    assert!(r.body.contains("http://localhost:3000/reset-password?token=t2"));
    assert!(r.body.contains("<p>This link will expire in 1 hour.</p>"));
}

#[test]
fn smtp_defaults() {
    let s = smtp_settings(None, None, None, None, None).unwrap();
    assert_eq!(s.host, "localhost");
    assert_eq!(s.port, 587);
    assert_eq!(s.username, "");
    assert_eq!(s.from, "noreply@example.com");
    assert!(smtp_settings(None, Some("x".to_string()), None, None, None).is_none());
    assert_eq!(smtp_settings(None, Some("25".to_string()), None, None, None).unwrap().port, 25);
}

#[test]
fn auth_errors_answer_with_status_and_message() {
    assert_eq!(AuthError::InvalidCredentials.status_and_message(), (401, "Invalid credentials".to_string()));
    assert_eq!(AuthError::SessionLimitExceeded.status_and_message(), (401, "Maximum number of sessions reached".to_string()));
    assert_eq!(AuthError::PasswordValidation("weak").status_and_message(), (400, "weak".to_string()));
    let v = ValidationFailure {
        errors: vec![
            FieldError { field: "email".to_string(), message: None },
            FieldError { field: "password".to_string(), message: Some("too short".to_string()) },
        ],
    };
    assert_eq!(AuthError::Validation(v).status_and_message(), (400, "email: Invalid, password: too short".to_string()));
    let e = EmailError::SendError("down".to_string());
    assert_eq!(AuthError::EmailError(e).status_and_message().0, 500);
}

#[test]
fn request_validation() {
    let ok = LoginRequest { email: "ann@example.com".to_string(), password: "12345678".to_string() };
    assert!(ok.validate().is_ok());
    let bad = LoginRequest { email: "nope".to_string(), password: "short".to_string() };
    let fields: Vec<String> = bad.validate().unwrap_err().errors.iter().map(|e| e.field.clone()).collect();
    assert_eq!(fields, vec!["email".to_string(), "password".to_string()]);
    assert!(PasswordResetRequest { email: "x".to_string() }.validate().is_err());
    let change = ChangePasswordRequest { current_password: String::new(), new_password: "12345678".to_string() };
    assert!(change.validate().is_err());
    let p = PaginationParams::default();
    assert_eq!((p.page, p.per_page), (Some(1), Some(20)));
    assert!(p.validate().is_ok());
    let q = PaginationParams { page: Some(0), per_page: Some(51) };
    let fields: Vec<String> = q.validate().unwrap_err().errors.iter().map(|e| e.field.clone()).collect();
    assert_eq!(fields, vec!["page".to_string(), "per_page".to_string()]);
    assert_eq!(validate_request(&Ok(())), Ok(()));
}

#[test]
fn passwords() {
    assert!(check_registration_password("Abcdefgh1!xy").is_ok());
    assert!(check_registration_password("abcdefgh1!xy").is_err());
    assert!(check_registration_password("Abcdefgh1!x").is_err());
    assert!(check_registration_password("Abcdefghijk!").is_err());
    assert!(check_registration_password("Abcdefgh1234").is_err());
    match validate_password_strength("Str0ng!pass") {
        Err(AuthError::PasswordValidation(m)) => assert_eq!(m, "Invalid regex pattern"),
        other => panic!("unexpected {other:?}"),
    }
    assert!(CompiledRegex::new("^(?=a)").is_err());
    assert!(CompiledRegex::new("^a+b$").is_ok());
    let h = hash_password("pw").unwrap();
    assert!(verify_password("pw", &h));
    assert!(!verify_password("other", &h));
    assert!(!verify_password("pw", "garbage"));
}

#[test]
fn circuit_breaker_opens_after_threshold() {
    let mut b = CircuitBreaker::new(2, Duration::from_secs(3600));
    assert_eq!(b.execute(|| Ok::<u8, u8>(1)), Ok(1));
    assert_eq!(b.execute(|| Err::<u8, u8>(1)), Err(1));
    assert_eq!(b.current_state(), CircuitState::Closed);
    assert_eq!(b.execute(|| Err::<u8, u8>(2)), Err(2));
    assert_eq!(b.current_state(), CircuitState::Open);
    assert_eq!(b.execute(|| Err::<u8, u8>(3)), Err(3));
    assert_eq!(b.current_state(), CircuitState::Open);
}

#[test]
fn circuit_breaker_half_opens_after_timeout() {
    let mut b = CircuitBreaker::new(1, Duration::from_secs(0));
    assert_eq!(b.execute(|| Err::<u8, u8>(1)), Err(1));
    assert_eq!(b.current_state(), CircuitState::Open);
    assert_eq!(b.execute(|| Err::<u8, u8>(2)), Err(2));
    assert_eq!(b.current_state(), CircuitState::HalfOpen);
    assert_eq!(b.execute(|| Ok::<u8, u8>(3)), Ok(3));
    assert_eq!(b.current_state(), CircuitState::Closed);
}

#[test]
fn metrics_register_once() {
    let mut m = Metrics::new().unwrap();
    assert!(register_metrics(&mut m).is_ok());
    assert_eq!(m.registry.gather().len(), 9);
}

#[test]
fn metric_ids_are_fnv_hashes_of_the_names() {
    let expected: [(&str, u64); 3] = [
        ("http_requests_total", 0x4217265b99da9ace),
        ("messages_sent_total", 0x8fd813bd4346539a),
        ("error_total", 0xb56b5844bba6f1c1),
    ];
    for (name, id) in expected {
        let c = prometheus::IntCounter::new(name, "help").unwrap();
        assert_eq!(prometheus::core::Collector::desc(&c)[0].id, id);
    }
    let g = prometheus::IntGauge::new("db_connections", "help").unwrap();
    assert_eq!(prometheus::core::Collector::desc(&g)[0].id, 0x6e3443395dee91fe);
    let h = prometheus::Histogram::with_opts(prometheus::HistogramOpts::new("db_query_duration_seconds", "help")).unwrap();
    assert_eq!(prometheus::core::Collector::desc(&h)[0].id, 0xb5dd4540fe66394c);
}

#[test]
fn profile_changes_in_order() {
    let both = UpdateProfileInput { username: Some("u".to_string()), email: Some("e".to_string()) };
    assert_eq!(both.changes(), vec![(ProfileField::Username, "u".to_string()), (ProfileField::Email, "e".to_string())]);
    let none = UpdateProfileInput { username: None, email: None };
    assert!(none.changes().is_empty());
}
