//! Authentication of HTTP requests and WebSocket connections by bearer token.
//!
//! The middleware looks for `Authorization: Bearer <token>`; when the token
//! decodes, the request carries the user it names. Handlers that need a user
//! refuse a request without one with `401 Missing or invalid token`.
use vstd::prelude::*;
use crate::text::{owned, starts_with, starts_with_seq, suffix_from};

verus! {

/// `401 Unauthorized`.
pub const UNAUTHORIZED: u16 = 401;

/// The user a request was authenticated as.
#[derive(Debug, Clone)]
pub struct AuthUser {
    pub id: i32,
    pub email: String,
}

/// The claims of the server's tokens: the user's id and the expiry.
#[derive(Debug, Clone, Copy, PartialEq, Eq, Structural)]
pub struct Claims {
    pub sub: i32,
    pub exp: i64,
}

/// The layer that wraps services in the authentication middleware.
#[derive(Debug, Clone, Copy)]
pub struct AuthLayer;

/// A service wrapped by the authentication middleware.
#[derive(Clone)]
pub struct AuthMiddleware<S> {
    inner: S,
}

impl<S> AuthMiddleware<S> {
    /// The wrapped service.
    pub closed spec fn inner(&self) -> S {
        self.inner
    }

    /// Wraps `inner`.
    pub fn new(inner: S) -> (m: Self)
        ensures
            m.inner() == inner,
    {
        Self { inner }
    }

    /// Wraps another service in the same middleware.
    pub fn layer(&self, inner: S) -> (m: AuthMiddleware<S>)
        ensures
            m.inner() == inner,
    {
        AuthMiddleware::new(inner)
    }

    /// The wrapped service.
    pub fn inner_service(&self) -> (s: &S)
        ensures
            *s == self.inner(),
    {
        &self.inner
    }
}

impl AuthLayer {
    /// Wraps `service` in the middleware.
    pub fn layer<S>(&self, service: S) -> (m: AuthMiddleware<S>)
        ensures
            m.inner() == service,
    {
        AuthMiddleware::new(service)
    }
}

/// The middleware on its own, around no service.
pub fn auth_middleware() -> (m: AuthMiddleware<()>)
    ensures
        m.inner() == (),
{
    AuthMiddleware::new(())
}

/// The token the middleware checks: only when the application state is
/// present and the `Authorization` header is text that begins with `Bearer `.
/// The header is `None` when absent and `Some(None)` when not text.
pub open spec fn token_to_check_spec(has_state: bool, header: Option<Option<Seq<char>>>) -> Option<
    Seq<char>,
> {
    match header {
        Some(Some(h)) => if has_state && starts_with_seq(h, "Bearer "@) {
            Some(h.skip(7))
        } else {
            None
        },
        _ => None,
    }
}

/// The token the middleware checks, if any.
pub fn token_to_check(has_state: bool, header: Option<Option<&str>>) -> (t: Option<String>)
    ensures
        t matches Some(s) ==> token_to_check_spec(has_state, crate::rate_limit::header_view(header))
            == Some(s@),
        t is None ==> token_to_check_spec(has_state, crate::rate_limit::header_view(header)) is None,
{
    if !has_state {
        return None;
    }
    match header {
        Some(Some(h)) => {
            if starts_with(h, "Bearer ") {
                proof {
                    reveal_strlit("Bearer ");
                }
                Some(suffix_from(h, 7))
            } else {
                None
            }
        },
        _ => None,
    }
}

/// The user a token names, given its decoded claims (`None` when it did not
/// decode); the email is not looked up.
pub fn user_from_claims(decoded: Option<Claims>) -> (u: Option<AuthUser>)
    ensures
        match decoded {
            Some(c) => u matches Some(user) && user.id == c.sub && user.email@ == Seq::<char>::empty(),
            None => u is None,
        },
{
    match decoded {
        Some(c) => Some(AuthUser { id: c.sub, email: String::new() }),
        None => None,
    }
}

/// A handler's user: the one the middleware found, or `401 Missing or invalid token`.
pub fn require_auth_user(found: Option<AuthUser>) -> (r: Result<AuthUser, (u16, &'static str)>)
    ensures
        match found {
            Some(u) => r matches Ok(v) && v.id == u.id && v.email@ == u.email@,
            None => r matches Err((code, msg)) && code == UNAUTHORIZED && msg@
                == "Missing or invalid token"@,
        },
{
    match found {
        Some(u) => Ok(u),
        None => Err((UNAUTHORIZED, "Missing or invalid token")),
    }
}

/// The user of a WebSocket connection, given the decoded claims of the token
/// it presented: `401 Invalid token` when the token did not decode.
pub fn ws_auth_user(decoded: Option<Claims>) -> (r: Result<AuthUser, (u16, &'static str)>)
    ensures
        match decoded {
            Some(c) => r matches Ok(u) && u.id == c.sub && u.email@ == Seq::<char>::empty(),
            None => r matches Err((code, msg)) && code == UNAUTHORIZED && msg@ == "Invalid token"@,
        },
{
    match decoded {
        Some(c) => Ok(AuthUser { id: c.sub, email: String::new() }),
        None => Err((UNAUTHORIZED, "Invalid token")),
    }
}

} // verus!
