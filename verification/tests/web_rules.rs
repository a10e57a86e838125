use messaging_app_backend::health::{component_status, health_report, readiness_status};
use messaging_app_backend::rate_limit::{
    after_expiry, after_increment, client_key, verdict, window_key, AfterIncrement, RateLimited,
};
use messaging_app_backend::request_auth::{
    auth_middleware, require_auth_user, token_to_check, user_from_claims, ws_auth_user, AuthLayer,
    AuthMiddleware, Claims,
};
use messaging_app_backend::security::{fixed_security_headers, screen_request, security_headers};

#[test]
fn window_keys_follow_the_minute() {
    assert_eq!(window_key("1.2.3.4", 0), "rate_limit:1.2.3.4:0");
    assert_eq!(window_key("1.2.3.4", 59), "rate_limit:1.2.3.4:0");
    assert_eq!(window_key("1.2.3.4", 60), "rate_limit:1.2.3.4:1");
    assert_eq!(window_key("k", 1_700_000_000), "rate_limit:k:28333333");
}

#[test]
fn counts_above_the_limit_are_refused() {
    assert_eq!(verdict(100), Ok(()));
    assert_eq!(verdict(101), Err(429));
    assert!(matches!(after_increment(Some(1)), AfterIncrement::Expire { seconds: 60, count: 1 }));
    assert!(matches!(after_increment(Some(2)), AfterIncrement::Answer(Ok(()))));
    assert!(matches!(after_increment(Some(150)), AfterIncrement::Answer(Err(429))));
    assert!(matches!(after_increment(None), AfterIncrement::Answer(Err(500))));
    assert_eq!(after_expiry(false, 1), Err(500));
    assert_eq!(after_expiry(true, 1), Ok(()));
}

#[test]
fn client_keys() {
    assert_eq!(client_key(Some(Some("9.9.9.9")), Some(Some("8.8.8.8"))), "9.9.9.9");
    assert_eq!(client_key(None, Some(Some("8.8.8.8"))), "8.8.8.8");
    assert_eq!(client_key(Some(None), Some(Some("8.8.8.8"))), "unknown");
    assert_eq!(client_key(None, None), "unknown");
    assert_eq!(RateLimited::key_for(Some(Some("1.1.1.1"))), "1.1.1.1");
    assert_eq!(RateLimited::key_for(None), "unknown");
}

#[test]
fn requests_are_screened() {
    assert_eq!(screen_request("POST", Some(Some("text/plain")), None), Err(415));
    assert_eq!(screen_request("PUT", Some(None), None), Err(415));
    assert_eq!(screen_request("POST", Some(Some("application/json; charset=utf-8")), None), Ok(()));
    assert_eq!(screen_request("GET", Some(Some("text/plain")), None), Ok(()));
    assert_eq!(screen_request("POST", None, Some(Some("10485761"))), Err(413));
    assert_eq!(screen_request("GET", None, Some(Some("10485760"))), Ok(()));
    assert_eq!(screen_request("GET", None, Some(Some("lots"))), Ok(()));
    assert_eq!(screen_request("GET", None, Some(None)), Ok(()));
}

#[test]
fn security_headers_are_fixed() {
    let h = fixed_security_headers();
    assert_eq!(h.len(), 4);
    assert_eq!(h[0], ("x-content-type-options", "nosniff"));
    assert_eq!(h[1], ("x-frame-options", "DENY"));
    let p = security_headers();
    assert_eq!(p.strict_transport_security_secs, 31536000);
    assert_eq!(p.referrer_policy, "strict-origin-when-cross-origin");
}

#[test]
fn health_is_ok_only_when_both_services_are() {
    let (code, r) = health_report(component_status(Ok(()), 3), component_status(Ok(()), 4), "1.0", 9);
    assert_eq!(code, 200);
    assert_eq!(r.status, "healthy");
    assert_eq!(r.database.latency_ms, 3);
    let (code, r) = health_report(
        component_status(Err("timeout"), 3),
        component_status(Ok(()), 4),
        "1.0",
        9,
    );
    assert_eq!(code, 503);
    assert_eq!(r.status, "degraded");
    assert_eq!(r.database.status, "unhealthy: timeout");
    assert_eq!(readiness_status(true, true), 200);
    assert_eq!(readiness_status(true, false), 503);
}

#[test]
fn middleware_tokens_and_users() {
    assert_eq!(token_to_check(true, Some(Some("Bearer t0k"))), Some("t0k".to_string()));
    assert_eq!(token_to_check(false, Some(Some("Bearer t0k"))), None);
    assert_eq!(token_to_check(true, Some(Some("Basic t0k"))), None);
    assert_eq!(token_to_check(true, Some(None)), None);
    let u = user_from_claims(Some(Claims { sub: 3, exp: 10 })).unwrap();
    assert_eq!(u.id, 3);
    assert_eq!(u.email, "");
    assert!(user_from_claims(None).is_none());
    assert_eq!(require_auth_user(None).err(), Some((401, "Missing or invalid token")));
    assert_eq!(ws_auth_user(None).err(), Some((401, "Invalid token")));
    assert_eq!(ws_auth_user(Some(Claims { sub: 8, exp: 1 })).unwrap().id, 8);
    let m: AuthMiddleware<u8> = AuthLayer.layer(5u8);
    assert_eq!(*m.inner_service(), 5);
    let _unit: AuthMiddleware<()> = auth_middleware();
}
