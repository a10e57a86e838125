//! The emails the server sends: address verification and password reset.
//! They are composed here; building the MIME message and the SMTP delivery
//! happen at the edge.
use vstd::prelude::*;
use crate::text::{owned, push_str};

verus! {

/// An HTML email to one recipient.
pub struct EmailContent {
    pub to: String,
    pub subject: String,
    pub body: String,
}

/// The page where an address is verified with `token`.
pub open spec fn verification_url(token: Seq<char>) -> Seq<char> {
    "http://localhost:3000/verify-email?token="@ + token
}

/// The page where a password is reset with `token`.
pub open spec fn reset_url(token: Seq<char>) -> Seq<char> {
    "http://localhost:3000/reset-password?token="@ + token
}

/// The body of the verification email, linking to `url`.
pub open spec fn verification_body(url: Seq<char>) -> Seq<char> {
    "\n                <h1>Welcome to Messaging App!</h1>\n                <p>Please click the link below to verify your email address:</p>\n                <a href=\""@ + url + "\">Verify Email</a>\n                <p>If you did not create an account, please ignore this email.</p>\n                "@
}

/// The body of the password reset email, linking to `url`.
pub open spec fn reset_body(url: Seq<char>) -> Seq<char> {
    "\n                <h1>Password Reset Request</h1>\n                <p>You have requested to reset your password. Click the link below to proceed:</p>\n                <a href=\""@ + url + "\">Reset Password</a>\n                <p>If you did not request a password reset, please ignore this email.</p>\n                <p>This link will expire in 1 hour.</p>\n                "@
}

/// `head`, then `middle`, then `tail`.
fn framed(head: &str, middle: &str, tail: &str) -> (r: String)
    ensures
        r@ == head@ + middle@ + tail@,
{
    let mut r = owned(head);
    push_str(&mut r, middle);
    push_str(&mut r, tail);
    r
}

/// The email that asks the owner of `to` to verify it with `token`.
pub fn verification_email(to: &str, token: &str) -> (e: EmailContent)
    ensures
        e.to@ == to@,
        e.subject@ == "Verify your email address"@,
        e.body@ == verification_body(verification_url(token@)),
{
    let mut url = owned("http://localhost:3000/verify-email?token=");
    push_str(&mut url, token);
    assert(url@ =~= verification_url(token@));
    EmailContent {
        to: owned(to),
        subject: owned("Verify your email address"),
        body: framed("\n                <h1>Welcome to Messaging App!</h1>\n                <p>Please click the link below to verify your email address:</p>\n                <a href=\"", url.as_str(), "\">Verify Email</a>\n                <p>If you did not create an account, please ignore this email.</p>\n                "),
    }
}

/// The email that lets the owner of `to` reset the password with `token`.
pub fn password_reset_email(to: &str, token: &str) -> (e: EmailContent)
    ensures
        e.to@ == to@,
        e.subject@ == "Reset your password"@,
        e.body@ == reset_body(reset_url(token@)),
{
    let mut url = owned("http://localhost:3000/reset-password?token=");
    push_str(&mut url, token);
    assert(url@ =~= reset_url(token@));
    EmailContent {
        to: owned(to),
        subject: owned("Reset your password"),
        body: framed("\n                <h1>Password Reset Request</h1>\n                <p>You have requested to reset your password. Click the link below to proceed:</p>\n                <a href=\"", url.as_str(), "\">Reset Password</a>\n                <p>If you did not request a password reset, please ignore this email.</p>\n                <p>This link will expire in 1 hour.</p>\n                "),
    }
}

/// The SMTP settings of the mail service.
pub struct SmtpSettings {
    pub host: String,
    pub port: u16,
    pub username: String,
    pub password: String,
    pub from: String,
}

/// The SMTP settings from the environment's `SMTP_HOST`, `SMTP_PORT`,
/// `SMTP_USERNAME`, `SMTP_PASSWORD` and `SMTP_FROM` (`None` where unset), with
/// the defaults `localhost`, `587`, empty credentials and
/// `noreply@example.com`; `None` when the port is not a `u16`.
pub fn smtp_settings(
    host: Option<String>,
    port: Option<String>,
    username: Option<String>,
    password: Option<String>,
    from: Option<String>,
) -> (r: Option<SmtpSettings>)
    ensures
        match r {
            Some(s) => {
                &&& s.host@ == crate::config::or_default(host, "localhost"@)
                &&& crate::decimal::parse_unsigned_spec(crate::config::or_default(port, "587"@), u16::MAX as int) == Some(s.port as int)
                &&& s.username@ == crate::config::or_default(username, Seq::<char>::empty())
                &&& s.password@ == crate::config::or_default(password, Seq::<char>::empty())
                &&& s.from@ == crate::config::or_default(from, "noreply@example.com"@)
            },
            None => crate::decimal::parse_unsigned_spec(crate::config::or_default(port, "587"@), u16::MAX as int) is None,
        },
{
    let port_text = match port {
        Some(p) => p,
        None => owned("587"),
    };
    let port = match crate::decimal::parse_u16(port_text.as_str()) {
        Some(p) => p,
        None => return None,
    };
    Some(SmtpSettings {
        host: match host { Some(h) => h, None => owned("localhost") },
        port,
        username: match username { Some(u) => u, None => String::new() },
        password: match password { Some(p) => p, None => String::new() },
        from: match from { Some(f) => f, None => owned("noreply@example.com") },
    })
}

} // verus!
