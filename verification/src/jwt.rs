//! Signing and checking the server's tokens (HS256 JSON Web Tokens).
//!
//! A token is signed from its claims with the server's secret; a token is
//! accepted when its signature checks with that secret and it has not expired
//! by the clock (with the library's minute of leeway), and then its claims are
//! read back. Signing depends on the claims and the secret alone; checking
//! also depends on the clock.
use vstd::prelude::*;
use crate::decimal::{lemma_signed_round_trip, parse_i32, parse_signed_spec, signed_decimal};
use crate::text::{starts_with_seq, str_eq};
use crate::config::opt_view;
use crate::tokens::{
    authenticate_claims, bearer_token, claims_admitted, AuthRejection, AuthenticatedUser, Claims,
    TIMESTAMP_BOUND, TokenType, lifetime_spec,
};

verus! {

/// The token `jsonwebtoken::encode` gives for the claims object
/// `{"exp": exp, "iat": iat, "sub": sub, "token_type": kind}` under the
/// default HS256 header, signed with `secret`.
pub uninterp spec fn jwt_encoded(secret: Seq<char>, sub: Seq<char>, exp: i64, iat: i64, kind: Seq<char>) -> Seq<char>;

/// `jsonwebtoken::encode` with the default (HS256) header and
/// `EncodingKey::from_secret(secret)`, of a JSON object holding the four
/// claims (its keys come out in alphabetical order). With an HMAC key and a
/// JSON object the source cannot fail (`encoding.rs`, `crypto/mod.rs`).
#[verifier::external_body]
fn sign_token(secret: &str, sub: &str, exp: i64, iat: i64, kind: &str) -> (r: Result<
    String,
    jsonwebtoken::errors::Error,
>)
    ensures
        r is Ok,
        r matches Ok(t) ==> t@ == jwt_encoded(secret@, sub@, exp, iat, kind@),
{
    let mut claims = serde_json::Map::new();
    claims.insert("sub".to_string(), serde_json::Value::String(sub.to_string()));
    claims.insert("exp".to_string(), serde_json::Value::from(exp));
    claims.insert("iat".to_string(), serde_json::Value::from(iat));
    claims.insert("token_type".to_string(), serde_json::Value::String(kind.to_string()));
    let key = jsonwebtoken::EncodingKey::from_secret(secret.as_bytes());
    jsonwebtoken::encode(&jsonwebtoken::Header::default(), &claims, &key)
}

/// The claims read back from a token that was accepted: each is `None` where
/// the token lacks it or holds another kind of value there.
pub struct JwtFields {
    /// `sub` when it is a string.
    pub sub_text: Option<String>,
    /// `sub` when it is an integer that fits `i64`.
    pub sub_number: Option<i64>,
    pub exp: Option<i64>,
    pub iat: Option<i64>,
    pub token_type: Option<String>,
}

/// `jsonwebtoken::decode` of the claims object with
/// `DecodingKey::from_secret(secret)` and `Validation::default()` (HS256, an
/// `exp` that has not passed by the clock, a minute of leeway); `None` when
/// the token is refused. Whether it is refused depends on the clock and is
/// left unsaid. What is stated: when the token is one that `sign_token` makes
/// with the same secret and it is accepted, the claims read back are the ones
/// signed (the payload is the base64 of the claims object it was made from,
/// and a string `sub` is no integer).
#[verifier::external_body]
fn decode_jwt(secret: &str, token: &str) -> (r: Option<JwtFields>)
    ensures
        forall|s: Seq<char>, e: i64, i: i64, k: Seq<char>|
            #[trigger] jwt_encoded(secret@, s, e, i, k) == token@ ==> (r matches Some(f) ==> {
                &&& opt_view(f.sub_text) == Some(s)
                &&& f.sub_number is None
                &&& f.exp == Some(e)
                &&& f.iat == Some(i)
                &&& opt_view(f.token_type) == Some(k)
            }),
{
    let key = jsonwebtoken::DecodingKey::from_secret(secret.as_bytes());
    let data = jsonwebtoken::decode::<serde_json::Map<String, serde_json::Value>>(
        token, &key, &jsonwebtoken::Validation::default()).ok()?;
    let c = data.claims;
    Some(JwtFields {
        sub_text: c.get("sub").and_then(|v| v.as_str()).map(|s| s.to_string()),
        sub_number: c.get("sub").and_then(|v| v.as_i64()),
        exp: c.get("exp").and_then(|v| v.as_i64()),
        iat: c.get("iat").and_then(|v| v.as_i64()),
        token_type: c.get("token_type").and_then(|v| v.as_str()).map(|s| s.to_string()),
    })
}

/// How a token's kind is written in its claims.
pub open spec fn token_type_name(t: TokenType) -> Seq<char> {
    match t {
        TokenType::Access => "Access"@,
        TokenType::Refresh => "Refresh"@,
        TokenType::Verification => "Verification"@,
        TokenType::PasswordReset => "PasswordReset"@,
    }
}

/// The kind a name in the claims stands for.
pub open spec fn token_type_named(s: Seq<char>) -> Option<TokenType> {
    if s == "Access"@ {
        Some(TokenType::Access)
    } else if s == "Refresh"@ {
        Some(TokenType::Refresh)
    } else if s == "Verification"@ {
        Some(TokenType::Verification)
    } else if s == "PasswordReset"@ {
        Some(TokenType::PasswordReset)
    } else {
        None
    }
}

/// How a token's kind is written in its claims.
pub fn token_type_str(t: TokenType) -> (s: &'static str)
    ensures
        s@ == token_type_name(t),
{
    match t {
        TokenType::Access => "Access",
        TokenType::Refresh => "Refresh",
        TokenType::Verification => "Verification",
        TokenType::PasswordReset => "PasswordReset",
    }
}

/// The kind a name in the claims stands for.
pub fn token_type_from(s: &str) -> (t: Option<TokenType>)
    ensures
        t == token_type_named(s@),
{
    if str_eq(s, "Access") {
        Some(TokenType::Access)
    } else if str_eq(s, "Refresh") {
        Some(TokenType::Refresh)
    } else if str_eq(s, "Verification") {
        Some(TokenType::Verification)
    } else if str_eq(s, "PasswordReset") {
        Some(TokenType::PasswordReset)
    } else {
        None
    }
}

/// A name is read back as the kind it was written for.
pub proof fn lemma_token_type_round_trip(t: TokenType)
    ensures
        token_type_named(token_type_name(t)) == Some(t),
{
    reveal_strlit("Access");
    reveal_strlit("Refresh");
    reveal_strlit("Verification");
    reveal_strlit("PasswordReset");
    assert("Access"@.len() == 6 && "Refresh"@.len() == 7 && "Verification"@.len() == 12
        && "PasswordReset"@.len() == 13);
}

/// Signs `claims` with `secret`.
pub fn sign_claims(secret: &str, claims: &Claims) -> (r: Result<String, jsonwebtoken::errors::Error>)
    ensures
        r matches Ok(t) && t@ == jwt_encoded(secret@, claims.sub@, claims.exp, claims.iat, token_type_name(claims.token_type)),
{
    sign_token(secret, claims.sub.as_str(), claims.exp, claims.iat, token_type_str(claims.token_type))
}

/// The token of kind `kind` that the session server issues to `user_id` at
/// `now`: it names the user, expires the kind's lifetime after `now`, and was
/// issued at `now`.
pub open spec fn user_token(secret: Seq<char>, user_id: i32, kind: TokenType, now: i64) -> Seq<char> {
    jwt_encoded(secret, signed_decimal(user_id as int), (now + lifetime_spec(kind)) as i64, now, token_type_name(kind))
}

/// Issues a token of kind `kind` to `user_id` at `now`.
fn create_token_of(secret: &str, user_id: i32, kind: TokenType, now: i64) -> (r: Result<String, jsonwebtoken::errors::Error>)
    requires
        -TIMESTAMP_BOUND <= now <= TIMESTAMP_BOUND,
    ensures
        r matches Ok(t) && t@ == user_token(secret@, user_id, kind, now),
{
    let claims = Claims::for_user(user_id, kind, now, now);
    sign_claims(secret, &claims)
}

/// An access token for `user_id`, valid for an hour from `now`.
pub fn create_access_token(secret: &str, user_id: i32, now: i64) -> (r: Result<String, jsonwebtoken::errors::Error>)
    requires
        -TIMESTAMP_BOUND <= now <= TIMESTAMP_BOUND,
    ensures
        r matches Ok(t) && t@ == user_token(secret@, user_id, TokenType::Access, now),
{
    create_token_of(secret, user_id, TokenType::Access, now)
}

/// A refresh token for `user_id`, valid for thirty days from `now`.
pub fn create_refresh_token(secret: &str, user_id: i32, now: i64) -> (r: Result<String, jsonwebtoken::errors::Error>)
    requires
        -TIMESTAMP_BOUND <= now <= TIMESTAMP_BOUND,
    ensures
        r matches Ok(t) && t@ == user_token(secret@, user_id, TokenType::Refresh, now),
{
    create_token_of(secret, user_id, TokenType::Refresh, now)
}

/// An email verification token for `user_id`, valid for seven days from `now`.
pub fn create_verification_token(secret: &str, user_id: i32, now: i64) -> (r: Result<String, jsonwebtoken::errors::Error>)
    requires
        -TIMESTAMP_BOUND <= now <= TIMESTAMP_BOUND,
    ensures
        r matches Ok(t) && t@ == user_token(secret@, user_id, TokenType::Verification, now),
{
    create_token_of(secret, user_id, TokenType::Verification, now)
}

/// A password reset token for `user_id`, valid for an hour from `now`.
pub fn create_password_reset_token(secret: &str, user_id: i32, now: i64) -> (r: Result<String, jsonwebtoken::errors::Error>)
    requires
        -TIMESTAMP_BOUND <= now <= TIMESTAMP_BOUND,
    ensures
        r matches Ok(t) && t@ == user_token(secret@, user_id, TokenType::PasswordReset, now),
{
    create_token_of(secret, user_id, TokenType::PasswordReset, now)
}

/// An access or refresh token of the authentication service for the user
/// with the id `user_id`, issued at `now`.
pub fn generate_token(secret: &str, user_id: &str, kind: TokenType, now: i64) -> (r: Result<String, jsonwebtoken::errors::Error>)
    requires
        kind == TokenType::Access || kind == TokenType::Refresh,
        -TIMESTAMP_BOUND <= now <= TIMESTAMP_BOUND,
    ensures
        r matches Ok(t) && t@ == jwt_encoded(
            secret@,
            user_id@,
            (now + (if kind == TokenType::Access { 3600int } else { 2592000int })) as i64,
            now,
            token_type_name(kind),
        ),
{
    let claims = crate::tokens::service_token_claims(user_id, kind, now);
    sign_claims(secret, &claims)
}

/// The session server's claims in what a token held: a string `sub`, an
/// `exp`, an `iat` and a known `token_type`.
pub open spec fn account_claims_spec(
    sub: Option<Seq<char>>,
    exp: Option<i64>,
    iat: Option<i64>,
    kind: Option<Seq<char>>,
) -> Option<(Seq<char>, i64, i64, TokenType)> {
    match (sub, exp, iat, kind) {
        (Some(s), Some(e), Some(i), Some(k)) => match token_type_named(k) {
            Some(t) => Some((s, e, i, t)),
            None => None,
        },
        _ => None,
    }
}

/// The claims view of an optional claims value.
pub open spec fn claims_view(c: Option<Claims>) -> Option<(Seq<char>, i64, i64, TokenType)> {
    match c {
        Some(c) => Some((c.sub@, c.exp, c.iat, c.token_type)),
        None => None,
    }
}

/// The session server's claims read from what a token held.
pub fn account_claims(f: JwtFields) -> (c: Option<Claims>)
    ensures
        claims_view(c) == account_claims_spec(
            crate::config::opt_view(f.sub_text),
            f.exp,
            f.iat,
            crate::config::opt_view(f.token_type),
        ),
{
    let JwtFields { sub_text, sub_number: _, exp, iat, token_type } = f;
    match (sub_text, exp, iat, token_type) {
        (Some(sub), Some(exp), Some(iat), Some(kind)) => match token_type_from(kind.as_str()) {
            Some(token_type) => Some(Claims { sub, exp, iat, token_type }),
            None => None,
        },
        _ => None,
    }
}

/// The claims of a token signed with `secret` (`AuthService::verify_token`):
/// `None` when the signature does not check, the token has expired by the
/// clock, or its claims are not the session server's. Which tokens the clock
/// refuses is left unsaid; a token signed here with the same secret that is
/// accepted gives back the claims it was signed with.
pub fn decode_claims(secret: &str, token: &str) -> (c: Option<Claims>)
    ensures
        forall|s: Seq<char>, e: i64, i: i64, k: Seq<char>|
            #[trigger] jwt_encoded(secret@, s, e, i, k) == token@ ==> (c is None || claims_view(c)
                == account_claims_spec(Some(s), Some(e), Some(i), Some(k))),
{
    match decode_jwt(secret, token) {
        Some(f) => account_claims(f),
        None => None,
    }
}

/// The HTTP middleware's claims in what a token held: an integer `sub` that
/// fits `i32` and an `exp`.
pub fn user_claims(f: &JwtFields) -> (c: Option<crate::request_auth::Claims>)
    ensures
        match (f.sub_number, f.exp) {
            (Some(s), Some(e)) => if i32::MIN <= s <= i32::MAX {
                c == Some(crate::request_auth::Claims { sub: s as i32, exp: e })
            } else {
                c is None
            },
            _ => c is None,
        },
{
    match (f.sub_number, f.exp) {
        (Some(s), Some(e)) => {
            if i32::MIN as i64 <= s && s <= i32::MAX as i64 {
                Some(crate::request_auth::Claims { sub: s as i32, exp: e })
            } else {
                None
            }
        },
        _ => None,
    }
}

/// The HTTP middleware's claims of a token signed with `secret`; `None` when
/// it is refused. Which tokens the clock refuses is left unsaid; a token that
/// the session server signs with the same secret names its user by a string,
/// so it never gives the middleware's claims.
pub fn decode_user_claims(secret: &str, token: &str) -> (c: Option<crate::request_auth::Claims>)
    ensures
        forall|s: Seq<char>, e: i64, i: i64, k: Seq<char>|
            #[trigger] jwt_encoded(secret@, s, e, i, k) == token@ ==> c is None,
{
    match decode_jwt(secret, token) {
        Some(f) => user_claims(&f),
        None => None,
    }
}

/// What the session server answers a bearer of a token whose decoded claims
/// are `decoded` (their view), at `now`: not decoded, expired and not an
/// access token are refused; an access token names the user by its numeric
/// subject (one whose subject is not a number is refused as an invalid token).
pub open spec fn claims_verdict(decoded: Option<(Seq<char>, i64, i64, TokenType)>, now: i64) -> Result<i32, AuthRejection> {
    match decoded {
        None => Err(AuthRejection::InvalidToken),
        Some((sub, exp, _iat, kind)) => if exp < now {
            Err(AuthRejection::TokenExpired)
        } else if kind != TokenType::Access {
            Err(AuthRejection::InvalidTokenType)
        } else {
            match parse_signed_spec(sub, i32::MIN as int, i32::MAX as int) {
                Some(id) => Ok(id as i32),
                None => Err(AuthRejection::InvalidToken),
            }
        },
    }
}

/// The verdict on a request in the form the session server answers.
pub open spec fn verdict_is(r: Result<AuthenticatedUser, AuthRejection>, v: Result<i32, AuthRejection>) -> bool {
    match r {
        Ok(u) => v == Ok::<i32, AuthRejection>(u.user_id) && !u.email_verified,
        Err(e) => v == Err::<i32, AuthRejection>(e),
    }
}

/// The header's text, where there is one.
pub open spec fn header_view(header: Option<&str>) -> Option<Seq<char>> {
    match header {
        Some(h) => Some(h@),
        None => None,
    }
}

/// What the session server answers a request with the `Authorization`
/// header `header`, for tokens checked with `secret`, at `now`. Without the
/// header, or with one that is not `Bearer <token>`, the request is refused
/// for that. Otherwise the answer is the verdict on some decoded claims (the
/// clock decides whether the token decodes at all), and when the token is
/// one signed here with `secret`, it is refused as invalid (decoding refused
/// it) or it is the verdict on the claims it was signed with.
pub open spec fn authenticate_spec(
    header: Option<Seq<char>>,
    secret: Seq<char>,
    now: i64,
    r: Result<AuthenticatedUser, AuthRejection>,
) -> bool {
    match header {
        None => r == Err::<AuthenticatedUser, AuthRejection>(AuthRejection::NoAuthorizationHeader),
        Some(h) => if starts_with_seq(h, "Bearer "@) {
            &&& exists|d: Option<(Seq<char>, i64, i64, TokenType)>| #[trigger] verdict_is(r, claims_verdict(d, now))
            &&& forall|s: Seq<char>, e: i64, i: i64, k: Seq<char>|
                #[trigger] jwt_encoded(secret, s, e, i, k) == h.skip(7) ==> {
                    ||| r == Err::<AuthenticatedUser, AuthRejection>(AuthRejection::InvalidToken)
                    ||| verdict_is(r, claims_verdict(account_claims_spec(Some(s), Some(e), Some(i), Some(k)), now))
                }
        } else {
            r == Err::<AuthenticatedUser, AuthRejection>(AuthRejection::InvalidHeaderFormat)
        },
    }
}

/// Admits the bearer of an access token: the `Authorization` header must be
/// `Bearer <token>`, the token must check with `secret` and not have expired
/// by the clock (decoding), and its claims must admit it at `now`.
pub fn authenticate(header: Option<&str>, secret: &str, now: i64) -> (r: Result<
    AuthenticatedUser,
    AuthRejection,
>)
    ensures
        authenticate_spec(header_view(header), secret@, now, r),
{
    let token = match bearer_token(header) {
        Ok(t) => t,
        Err(e) => return Err(e),
    };
    let decoded = decode_claims(secret, token.as_str());
    let ghost d = claims_view(decoded);
    let admitted_sub_ok = match &decoded {
        Some(c) => if c.exp >= now && c.token_type == TokenType::Access {
            parse_i32(c.sub.as_str()).is_some()
        } else {
            true
        },
        None => true,
    };
    if !admitted_sub_ok {
        assert(verdict_is(Err(AuthRejection::InvalidToken), claims_verdict(d, now)));
        return Err(AuthRejection::InvalidToken);
    }
    let r = authenticate_claims(decoded, now);
    assert(verdict_is(r, claims_verdict(d, now)));
    r
}

/// A token that the session server issued to `user_id` at `issued`,
/// presented at `now` as `Bearer <token>` to a server with the same secret,
/// is refused as invalid when decoding refuses it; otherwise it is refused as
/// expired once its lifetime has passed, refused as the wrong type unless it
/// is an access token, and else admits `user_id`, unverified.
pub proof fn lemma_issued_token_answer(
    secret: Seq<char>,
    user_id: i32,
    kind: TokenType,
    issued: i64,
    now: i64,
    r: Result<AuthenticatedUser, AuthRejection>,
)
    requires
        -TIMESTAMP_BOUND <= issued <= TIMESTAMP_BOUND,
        authenticate_spec(Some("Bearer "@ + user_token(secret, user_id, kind, issued)), secret, now, r),
    ensures
        r == Err::<AuthenticatedUser, AuthRejection>(AuthRejection::InvalidToken) || (
        if issued + lifetime_spec(kind) < now {
            r == Err::<AuthenticatedUser, AuthRejection>(AuthRejection::TokenExpired)
        } else if kind != TokenType::Access {
            r == Err::<AuthenticatedUser, AuthRejection>(AuthRejection::InvalidTokenType)
        } else {
            r matches Ok(u) && u.user_id == user_id && !u.email_verified
        }),
{
    reveal_strlit("Bearer ");
    let tok = user_token(secret, user_id, kind, issued);
    let h = "Bearer "@ + tok;
    assert(h.take(7) =~= "Bearer "@);
    assert(h.skip(7) =~= tok);
    let sub = signed_decimal(user_id as int);
    let exp = (issued + lifetime_spec(kind)) as i64;
    let name = token_type_name(kind);
    assert(jwt_encoded(secret, sub, exp, issued, name) == h.skip(7));
    lemma_token_type_round_trip(kind);
    lemma_signed_round_trip(user_id as int);
    assert(exp == issued + lifetime_spec(kind));
}

} // verus!
