//! The account rules of the HTTP handlers: registration, login, one-time
//! codes, and the checks the session server makes before account changes.
use vstd::prelude::*;
use crate::app_error::AppError;
use crate::auth_error::AuthError;
use crate::password::{bcrypt_verify, bcrypt_verify_outcome, check_registration_password, registration_password_ok, registration_password_message};
use crate::refusal::Refusal;
use crate::tokens::{AuthenticatedUser, Claims, TokenType};
use crate::text::{owned, push_char, push_str};

verus! {

/// A request to sign in.
#[derive(Debug, Clone)]
pub struct LoginRequest {
    pub email: String,
    pub password: String,
}

/// A request for a one-time code sent to a phone.
#[derive(Debug, Clone)]
pub struct RequestOtp {
    pub phone_number: String,
}

/// A one-time code to check.
#[derive(Debug, Clone)]
pub struct VerifyOtp {
    pub phone_number: String,
    pub otp_code: String,
}

/// The profile of the user with a phone number.
#[derive(Debug, Clone)]
pub struct SetProfileRequest {
    pub phone_number: String,
    pub username: String,
    pub display_name: Option<String>,
}

/// Checks a registration: the email must not be taken (`already_exists`),
/// then the password must meet the registration rule.
pub fn check_new_account(already_exists: bool, password: &str) -> (r: Result<(), AppError>)
    ensures
        already_exists ==> (r matches Err(AppError::BadRequest(m)) && m@ == "User already exists"@),
        !already_exists && registration_password_ok(password) ==> r is Ok,
        !already_exists && !registration_password_ok(password) ==> (r matches Err(
            AppError::BadRequest(m),
        ) && m@ == registration_password_message()),
{
    if already_exists {
        return Err(Refusal::UserAlreadyExists.to_app_error());
    }
    check_registration_password(password)
}

/// Why a sign-in fails.
#[derive(Debug)]
pub enum LoginFailure {
    /// No user has the email, or the password does not match.
    InvalidCredentials,
    /// The stored hash could not be read.
    Hash(bcrypt::BcryptError),
}

/// Checks a sign-in against the stored hash of the user with the email
/// (`None` when there is no such user).
pub fn check_login(stored_hash: Option<&str>, password: &str) -> (r: Result<(), LoginFailure>)
    ensures
        match stored_hash {
            None => r matches Err(LoginFailure::InvalidCredentials),
            Some(h) => match bcrypt_verify_outcome(password@, h@) {
                Some(true) => r is Ok,
                Some(false) => r matches Err(LoginFailure::InvalidCredentials),
                None => r matches Err(LoginFailure::Hash(_)),
            },
        },
{
    match stored_hash {
        None => Err(LoginFailure::InvalidCredentials),
        Some(h) => match bcrypt_verify(password, h) {
            Ok(true) => Ok(()),
            Ok(false) => Err(LoginFailure::InvalidCredentials),
            Err(e) => Err(LoginFailure::Hash(e)),
        },
    }
}

/// A digit from `rand::thread_rng().gen_range(0..10)`: random, below ten.
#[verifier::external_body]
fn random_digit() -> (d: u8)
    ensures
        d < 10,
{
    rand::Rng::gen_range(&mut rand::thread_rng(), 0u8..10)
}

/// Whether every character of `s` is an ASCII digit.
pub open spec fn all_ascii_digits(s: Seq<char>) -> bool {
    forall|i: int| 0 <= i < s.len() ==> '0' <= #[trigger] s[i] && s[i] <= '9'
}

/// A fresh one-time code: six random digits.
pub fn generate_otp() -> (code: String)
    ensures
        code@.len() == 6,
        all_ascii_digits(code@),
{
    let mut code = String::new();
    let mut i: usize = 0;
    while i < 6
        invariant
            i <= 6,
            code@.len() == i,
            all_ascii_digits(code@),
        decreases 6 - i,
    {
        let d = random_digit();
        let c = (d + 48u8) as char;
        push_char(&mut code, c);
        i = i + 1;
    }
    code
}

/// One-time codes cannot be checked yet: every attempt is refused.
pub fn verify_otp(request: &VerifyOtp) -> (r: Result<(), Refusal>)
    ensures
        r == Err::<(), Refusal>(Refusal::OtpNotImplemented),
{
    Err(Refusal::OtpNotImplemented)
}

/// The session server refuses to register an email it already knows.
pub fn check_unregistered(lookup_found: bool) -> (r: Result<(), AuthError>)
    ensures
        lookup_found ==> r matches Err(AuthError::InvalidCredentials),
        !lookup_found ==> r is Ok,
{
    if lookup_found {
        Err(AuthError::InvalidCredentials)
    } else {
        Ok(())
    }
}

/// A token is used only for its purpose: its decoded claims (`None` when it
/// did not decode) must be of type `expected`; otherwise `failure` is returned.
pub fn check_token_purpose(decoded: Option<Claims>, expected: TokenType, failure: AuthError) -> (r:
    Result<Claims, AuthError>)
    ensures
        match decoded {
            Some(c) => if c.token_type == expected {
                r == Ok::<Claims, AuthError>(c)
            } else {
                r == Err::<Claims, AuthError>(failure)
            },
            None => r == Err::<Claims, AuthError>(failure),
        },
{
    match decoded {
        Some(c) => {
            if c.token_type == expected {
                Ok(c)
            } else {
                Err(failure)
            }
        },
        None => Err(failure),
    }
}

/// Chats and messages are for users whose email is verified.
pub fn check_email_verified(user: &AuthenticatedUser) -> (r: Result<(), AuthError>)
    ensures
        user.email_verified ==> r is Ok,
        !user.email_verified ==> r matches Err(AuthError::EmailNotVerified),
{
    if user.email_verified {
        Ok(())
    } else {
        Err(AuthError::EmailNotVerified)
    }
}

/// A verification email is sent again only to an unverified address.
pub fn check_not_yet_verified(email_verified: bool) -> (r: Result<(), AuthError>)
    ensures
        email_verified ==> r matches Err(AuthError::EmailAlreadyVerified),
        !email_verified ==> r is Ok,
{
    if email_verified {
        Err(AuthError::EmailAlreadyVerified)
    } else {
        Ok(())
    }
}

/// A password is changed only by one who knows the current one.
pub fn check_current_password(current: &str, stored_hash: &str) -> (r: Result<(), AuthError>)
    ensures
        match bcrypt_verify_outcome(current@, stored_hash@) {
            Some(true) => r is Ok,
            Some(false) => r matches Err(AuthError::IncorrectPassword),
            None => r matches Err(AuthError::PasswordHashing(_)),
        },
{
    match bcrypt_verify(current, stored_hash) {
        Ok(true) => Ok(()),
        Ok(false) => Err(AuthError::IncorrectPassword),
        Err(e) => Err(AuthError::PasswordHashing(e)),
    }
}

/// What the session server records of a sign-in: the device id, the client
/// address, the device description of the new session and the details of its
/// `login` activity.
pub struct LoginRecord {
    pub device_id: String,
    pub ip_address: String,
    pub device_info: String,
    pub activity_details: String,
}

/// The record of a sign-in from a client with the `User-Agent` header
/// `user_agent` (`None` when absent, `Some(None)` when not text) and the
/// address `remote_addr`: each `unknown` when not known.
pub fn login_record(user_agent: Option<Option<&str>>, remote_addr: Option<&str>) -> (r: LoginRecord)
    ensures
        r.device_id@ == match user_agent {
            Some(Some(u)) => u@,
            _ => "unknown"@,
        },
        r.ip_address@ == match remote_addr {
            Some(a) => a@,
            None => "unknown"@,
        },
        r.device_info@ == "Browser: "@ + r.device_id@,
        r.activity_details@ == "Successful login from "@ + r.ip_address@,
{
    let device_id = match user_agent {
        Some(Some(u)) => owned(u),
        _ => owned("unknown"),
    };
    let ip_address = match remote_addr {
        Some(a) => owned(a),
        None => owned("unknown"),
    };
    let mut device_info = owned("Browser: ");
    push_str(&mut device_info, device_id.as_str());
    let mut activity_details = owned("Successful login from ");
    push_str(&mut activity_details, ip_address.as_str());
    LoginRecord { device_id, ip_address, device_info, activity_details }
}

} // verus!
