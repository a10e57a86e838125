//! Settings of the session-based server: where it listens and how long its tokens live.
use vstd::prelude::*;

verus! {

/// Where the server listens, its signing secret and the lifetimes, in
/// seconds, of the tokens it issues.
#[derive(Debug)]
pub struct AppConfig {
    pub host: String,
    pub port: u16,
    pub jwt_secret: String,
    pub jwt_expiry: i64,
    pub refresh_token_expiry: i64,
    pub verification_token_expiry: i64,
    pub password_reset_token_expiry: i64,
}

impl Default for AppConfig {
    /// Listens on `127.0.0.1:8080`; access tokens live an hour, refresh tokens
    /// thirty days, verification tokens seven days and reset tokens an hour.
    fn default() -> (c: Self)
        ensures
            c.host@ == "127.0.0.1"@,
            c.port == 8080,
            c.jwt_secret@ == "your-secret-key"@,
            c.jwt_expiry == 3600,
            c.refresh_token_expiry == 2592000,
            c.verification_token_expiry == 604800,
            c.password_reset_token_expiry == 3600,
    {
        AppConfig {
            host: crate::text::owned("127.0.0.1"),
            port: 8080,
            jwt_secret: crate::text::owned("your-secret-key"),
            jwt_expiry: 3600,
            refresh_token_expiry: 2592000,
            verification_token_expiry: 604800,
            password_reset_token_expiry: 3600,
        }
    }
}

} // verus!
