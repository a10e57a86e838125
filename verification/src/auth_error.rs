//! The errors of authentication and session handling, and the HTTP answer to each.
use vstd::prelude::*;
use vstd::string::*;
use crate::text::{joined, views, join, owned};

verus! {

#[verifier::external_type_specification]
#[verifier::external_body]
pub struct ExBcryptError(bcrypt::BcryptError);

#[verifier::external_type_specification]
#[verifier::external_body]
pub struct ExJwtError(jsonwebtoken::errors::Error);

/// One failed check of request validation: the field and the message of the rule, if it has one.
#[derive(Debug)]
pub struct FieldError {
    pub field: String,
    pub message: Option<String>,
}

/// The failed checks of a request's validation.
#[derive(Debug)]
pub struct ValidationFailure {
    pub errors: Vec<FieldError>,
}

/// Sending an email failed; each variant holds the text of the mailer's own error.
#[derive(Debug)]
pub enum EmailError {
    SendError(String),
    CreateError(String),
}

impl EmailError {
    /// The error's text, as its `Display` writes it.
    pub open spec fn text_spec(&self) -> Seq<char> {
        match self {
            EmailError::SendError(d) => "Failed to send email: "@ + d@,
            EmailError::CreateError(d) => "Failed to create email: "@ + d@,
        }
    }

    /// The error's text, as its `Display` writes it.
    pub fn text(&self) -> (r: String)
        ensures
            r@ == self.text_spec(),
    {
        match self {
            EmailError::SendError(d) => {
                let mut r = owned("Failed to send email: ");
                r.append(d.as_str());
                r
            },
            EmailError::CreateError(d) => {
                let mut r = owned("Failed to create email: ");
                r.append(d.as_str());
                r
            },
        }
    }
}

/// Errors of authentication and of the session store.
#[derive(Debug)]
pub enum AuthError {
    InvalidCredentials,
    PasswordHashing(bcrypt::BcryptError),
    Validation(ValidationFailure),
    InvalidRefreshToken,
    TokenGeneration(jsonwebtoken::errors::Error),
    EmailVerification,
    PasswordReset,
    EmailError(EmailError),
    PasswordValidation(&'static str),
    EmailNotVerified,
    EmailAlreadyVerified,
    UserNotFound,
    InvalidSession,
    IncorrectPassword,
    SessionExpired,
    SessionRevoked,
    SessionLimitExceeded,
    NoSessionsToCleanup,
}

/// `"field: message"`, with `Invalid` for a rule without a message.
pub open spec fn field_error_line(e: FieldError) -> Seq<char> {
    e.field@ + ": "@ + match e.message {
        Some(m) => m@,
        None => "Invalid"@,
    }
}

/// The lines of all failed checks, in order.
pub open spec fn field_error_lines(errors: Seq<FieldError>) -> Seq<Seq<char>> {
    errors.map_values(|e: FieldError| field_error_line(e))
}

/// The HTTP status and message that the server answers each error with.
pub open spec fn auth_error_response(e: AuthError) -> (u16, Seq<char>) {
    match e {
        AuthError::InvalidCredentials => (401, "Invalid credentials"@),
        AuthError::PasswordHashing(_) => (500, "Password hashing failed"@),
        AuthError::Validation(v) => (400, joined(field_error_lines(v.errors@), ", "@)),
        AuthError::InvalidRefreshToken => (401, "Invalid refresh token"@),
        AuthError::TokenGeneration(_) => (500, "Token generation failed"@),
        AuthError::EmailVerification => (401, "Email verification failed"@),
        AuthError::PasswordReset => (401, "Password reset failed"@),
        AuthError::EmailError(m) => (500, m.text_spec()),
        AuthError::PasswordValidation(m) => (400, m@),
        AuthError::EmailNotVerified => (401, "Email not verified"@),
        AuthError::EmailAlreadyVerified => (401, "Email already verified"@),
        AuthError::UserNotFound => (401, "User not found"@),
        AuthError::InvalidSession => (401, "Invalid session"@),
        AuthError::IncorrectPassword => (401, "Current password is incorrect"@),
        AuthError::SessionExpired => (401, "Session expired"@),
        AuthError::SessionRevoked => (401, "Session revoked"@),
        AuthError::SessionLimitExceeded => (401, "Maximum number of sessions reached"@),
        AuthError::NoSessionsToCleanup => (401, "No sessions available to cleanup"@),
    }
}

/// The line of one failed check.
fn field_error_line_exec(e: &FieldError) -> (r: String)
    ensures
        r@ == field_error_line(*e),
{
    let mut r = e.field.clone();
    r.append(": ");
    match &e.message {
        Some(m) => r.append(m.as_str()),
        None => r.append("Invalid"),
    }
    r
}

impl AuthError {
    /// The HTTP status and message of the error response.
    pub fn status_and_message(&self) -> (r: (u16, String))
        ensures
            r.0 == auth_error_response(*self).0,
            r.1@ == auth_error_response(*self).1,
    {
        match self {
            AuthError::InvalidCredentials => (401, owned("Invalid credentials")),
            AuthError::PasswordHashing(_) => (500, owned("Password hashing failed")),
            AuthError::Validation(v) => {
                let mut lines: Vec<String> = Vec::new();
                let n = v.errors.len();
                let mut i: usize = 0;
                while i < n
                    invariant
                        i <= n,
                        n == v.errors@.len(),
                        views(lines@) =~= field_error_lines(v.errors@).take(i as int),
                    decreases n - i,
                {
                    let line = field_error_line_exec(&v.errors[i]);
                    let ghost before = lines@;
                    lines.push(line);
                    proof {
                        assert(lines@ == before.push(line));
                        assert(views(lines@) =~= views(before).push(line@));
                        assert(field_error_lines(v.errors@).take(i + 1) =~= field_error_lines(
                            v.errors@,
                        ).take(i as int).push(field_error_line(v.errors@[i as int])));
                    }
                    i = i + 1;
                }
                assert(field_error_lines(v.errors@).take(n as int) =~= field_error_lines(
                    v.errors@,
                ));
                (400, join(&lines, ", "))
            },
            AuthError::InvalidRefreshToken => (401, owned("Invalid refresh token")),
            AuthError::TokenGeneration(_) => (500, owned("Token generation failed")),
            AuthError::EmailVerification => (401, owned("Email verification failed")),
            AuthError::PasswordReset => (401, owned("Password reset failed")),
            AuthError::EmailError(m) => (500, m.text()),
            AuthError::PasswordValidation(m) => (400, owned(m)),
            AuthError::EmailNotVerified => (401, owned("Email not verified")),
            AuthError::EmailAlreadyVerified => (401, owned("Email already verified")),
            AuthError::UserNotFound => (401, owned("User not found")),
            AuthError::InvalidSession => (401, owned("Invalid session")),
            AuthError::IncorrectPassword => (401, owned("Current password is incorrect")),
            AuthError::SessionExpired => (401, owned("Session expired")),
            AuthError::SessionRevoked => (401, owned("Session revoked")),
            AuthError::SessionLimitExceeded => (401, owned("Maximum number of sessions reached")),
            AuthError::NoSessionsToCleanup => (401, owned("No sessions available to cleanup")),
        }
    }
}

} // verus!
