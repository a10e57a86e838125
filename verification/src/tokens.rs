//! Token claims: what each kind of token carries and how long it lives, and
//! the checks that admit a bearer of an access token.
use vstd::prelude::*;
use crate::decimal::{i64_to_string, signed_decimal, parse_i32, parse_signed_spec};
use crate::text::{owned, starts_with, starts_with_seq, suffix_from};

verus! {

/// Lifetime of a refresh token, in days.
pub const REFRESH_TOKEN_EXPIRY_DAYS: i64 = 30;

/// Lifetime of an email verification token, in days.
pub const VERIFICATION_TOKEN_EXPIRY_DAYS: i64 = 7;

/// Lifetime of a password reset token, in hours.
pub const PASSWORD_RESET_TOKEN_EXPIRY_HOURS: i64 = 1;

/// Lifetime of an access token issued by the authentication service, in seconds.
pub const ACCESS_TOKEN_EXPIRY: i64 = 3600;

/// Lifetime of a refresh token issued by the authentication service, in seconds.
pub const REFRESH_TOKEN_EXPIRY: i64 = 2592000;

/// What a token may be used for.
#[derive(Debug, Clone, Copy, PartialEq, Eq, Structural)]
pub enum TokenType {
    Access,
    Refresh,
    Verification,
    PasswordReset,
}

/// The claims a token carries: the user, when it expires, when it was issued, its use.
#[derive(Debug)]
pub struct Claims {
    pub sub: String,
    pub exp: i64,
    pub iat: i64,
    pub token_type: TokenType,
}

/// How long a token of each kind lives, in seconds.
pub open spec fn lifetime_spec(t: TokenType) -> int {
    match t {
        TokenType::Access => 3600,
        TokenType::Refresh => REFRESH_TOKEN_EXPIRY_DAYS * 86400,
        TokenType::Verification => VERIFICATION_TOKEN_EXPIRY_DAYS * 86400,
        TokenType::PasswordReset => PASSWORD_RESET_TOKEN_EXPIRY_HOURS * 3600,
    }
}

/// How long a token of this kind lives, in seconds.
pub fn token_lifetime(t: TokenType) -> (s: i64)
    ensures
        s == lifetime_spec(t),
{
    match t {
        TokenType::Access => 3600,
        TokenType::Refresh => REFRESH_TOKEN_EXPIRY_DAYS * 86400,
        TokenType::Verification => VERIFICATION_TOKEN_EXPIRY_DAYS * 86400,
        TokenType::PasswordReset => PASSWORD_RESET_TOKEN_EXPIRY_HOURS * 3600,
    }
}

/// The largest magnitude of a timestamp that the clock gives (the range of `chrono::DateTime`).
pub const TIMESTAMP_BOUND: i64 = 10_000_000_000_000;

impl Claims {
    /// The claims of a token of kind `token_type` for `user_id`: it expires
    /// `lifetime(token_type)` seconds after `expiry_base` and was issued at `issued_at`.
    pub fn for_user(user_id: i32, token_type: TokenType, expiry_base: i64, issued_at: i64) -> (c: Claims)
        requires
            -TIMESTAMP_BOUND <= expiry_base <= TIMESTAMP_BOUND,
        ensures
            c.sub@ == signed_decimal(user_id as int),
            c.exp == expiry_base + lifetime_spec(token_type),
            c.iat == issued_at,
            c.token_type == token_type,
    {
        Claims {
            sub: i64_to_string(user_id as i64),
            exp: expiry_base + token_lifetime(token_type),
            iat: issued_at,
            token_type,
        }
    }
}

/// The claims of a token that the authentication service issues for the user
/// with id `user_id` at time `now`; it issues access and refresh tokens only.
pub fn service_token_claims(user_id: &str, token_type: TokenType, now: i64) -> (c: Claims)
    requires
        token_type == TokenType::Access || token_type == TokenType::Refresh,
        -TIMESTAMP_BOUND <= now <= TIMESTAMP_BOUND,
    ensures
        c.sub@ == user_id@,
        c.exp == now + (if token_type == TokenType::Access {
            ACCESS_TOKEN_EXPIRY
        } else {
            REFRESH_TOKEN_EXPIRY
        }),
        c.iat == now,
        c.token_type == token_type,
{
    let expiry = match token_type {
        TokenType::Access => ACCESS_TOKEN_EXPIRY,
        _ => REFRESH_TOKEN_EXPIRY,
    };
    Claims { sub: owned(user_id), exp: now + expiry, iat: now, token_type }
}

/// Why a request is refused authentication; each is answered with 401 and its message.
#[derive(Debug, Clone, Copy, PartialEq, Eq, Structural)]
pub enum AuthRejection {
    NoAuthorizationHeader,
    InvalidHeaderFormat,
    InvalidToken,
    TokenExpired,
    InvalidTokenType,
}

/// The message of each refusal.
pub open spec fn rejection_message(r: AuthRejection) -> Seq<char> {
    match r {
        AuthRejection::NoAuthorizationHeader => "No authorization header"@,
        AuthRejection::InvalidHeaderFormat => "Invalid authorization header format"@,
        AuthRejection::InvalidToken => "Invalid token"@,
        AuthRejection::TokenExpired => "Token expired"@,
        AuthRejection::InvalidTokenType => "Invalid token type"@,
    }
}

impl AuthRejection {
    /// The message the refusal is answered with.
    pub fn message(&self) -> (m: String)
        ensures
            m@ == rejection_message(*self),
    {
        match self {
            AuthRejection::NoAuthorizationHeader => owned("No authorization header"),
            AuthRejection::InvalidHeaderFormat => owned("Invalid authorization header format"),
            AuthRejection::InvalidToken => owned("Invalid token"),
            AuthRejection::TokenExpired => owned("Token expired"),
            AuthRejection::InvalidTokenType => owned("Invalid token type"),
        }
    }
}

/// The token of an `Authorization: Bearer <token>` header.
pub fn bearer_token(header: Option<&str>) -> (r: Result<String, AuthRejection>)
    ensures
        match header {
            None => r == Err::<String, AuthRejection>(AuthRejection::NoAuthorizationHeader),
            Some(h) => if starts_with_seq(h@, "Bearer "@) {
                r matches Ok(t) && t@ == h@.skip(7)
            } else {
                r == Err::<String, AuthRejection>(AuthRejection::InvalidHeaderFormat)
            },
        },
{
    match header {
        None => Err(AuthRejection::NoAuthorizationHeader),
        Some(h) => {
            if starts_with(h, "Bearer ") {
                proof {
                    reveal_strlit("Bearer ");
                }
                Ok(suffix_from(h, 7))
            } else {
                Err(AuthRejection::InvalidHeaderFormat)
            }
        },
    }
}

/// A caller whose access token was accepted.
#[derive(Debug)]
pub struct AuthenticatedUser {
    pub user_id: i32,
    pub email_verified: bool,
}

/// The decoded claims pass the checks and name a user: not expired at `now`, an access token.
pub open spec fn claims_admitted(c: Claims, now: i64) -> bool {
    c.exp >= now && c.token_type == TokenType::Access
}

/// Admits the bearer of a token whose decoded claims are `decoded` (`None`
/// when the token did not decode): the token must not have expired at `now`
/// and must be an access token; its subject is the user's id.
pub fn authenticate_claims(decoded: Option<Claims>, now: i64) -> (r: Result<
    AuthenticatedUser,
    AuthRejection,
>)
    requires
        match decoded {
            Some(c) => claims_admitted(c, now) ==> parse_signed_spec(
                c.sub@,
                i32::MIN as int,
                i32::MAX as int,
            ) is Some,
            None => true,
        },
    ensures
        match decoded {
            None => r == Err::<AuthenticatedUser, AuthRejection>(AuthRejection::InvalidToken),
            Some(c) => if c.exp < now {
                r == Err::<AuthenticatedUser, AuthRejection>(AuthRejection::TokenExpired)
            } else if c.token_type != TokenType::Access {
                r == Err::<AuthenticatedUser, AuthRejection>(AuthRejection::InvalidTokenType)
            } else {
                r matches Ok(u) && Some(u.user_id as int) == parse_signed_spec(
                    c.sub@,
                    i32::MIN as int,
                    i32::MAX as int,
                ) && !u.email_verified
            },
        },
{
    match decoded {
        None => Err(AuthRejection::InvalidToken),
        Some(c) => {
            if c.exp < now {
                return Err(AuthRejection::TokenExpired);
            }
            if c.token_type != TokenType::Access {
                return Err(AuthRejection::InvalidTokenType);
            }
            match parse_i32(c.sub.as_str()) {
                Some(id) => Ok(AuthenticatedUser { user_id: id, email_verified: false }),
                None => Err(AuthRejection::InvalidToken),
            }
        },
    }
}

} // verus!
