//! Password rules and password hashing.
use vstd::prelude::*;
use vstd::string::*;
use crate::auth_error::AuthError;
use crate::app_error::AppError;
use crate::text::{
    char_is_uppercase, char_is_lowercase, char_is_alphanumeric, unicode_uppercase,
    unicode_lowercase, unicode_alphanumeric, owned, starts_with_seq,
};

verus! {

#[verifier::external_type_specification]
#[verifier::external_body]
pub struct ExRegex(regex::Regex);

#[verifier::external_type_specification]
#[verifier::external_body]
pub struct ExRegexError(regex::Error);

/// Whether the `regex` crate accepts `pattern`.
pub uninterp spec fn regex_accepts(pattern: Seq<char>) -> bool;

/// Whether the regular expression `pattern` matches somewhere in `text`.
pub uninterp spec fn regex_matches(pattern: Seq<char>, text: Seq<char>) -> bool;

/// `regex::Regex::new`. The result is named; the crate does not support
/// look-around, and its parser refuses a group opened with `(?=`, so a pattern
/// that begins with `^(?=` is refused.
#[verifier::external_body]
fn regex_new(pattern: &str) -> (r: Result<regex::Regex, regex::Error>)
    ensures
        r is Ok <==> regex_accepts(pattern@),
        starts_with_seq(pattern@, "^(?="@) ==> r is Err,
{
    regex::Regex::new(pattern)
}

/// A regular expression together with the pattern it was compiled from.
pub struct CompiledRegex {
    source: String,
    re: regex::Regex,
}

impl CompiledRegex {
    /// The pattern the expression was compiled from.
    pub closed spec fn source(&self) -> Seq<char> {
        self.source@
    }

    /// Compiles `pattern`.
    pub fn new(pattern: &str) -> (r: Result<CompiledRegex, regex::Error>)
        ensures
            r is Ok <==> regex_accepts(pattern@),
            starts_with_seq(pattern@, "^(?="@) ==> r is Err,
            r matches Ok(c) ==> c.source() == pattern@,
    {
        match regex_new(pattern) {
            Ok(re) => Ok(CompiledRegex { source: owned(pattern), re }),
            Err(e) => Err(e),
        }
    }

    /// `regex::Regex::is_match`: whether the expression matches somewhere in
    /// `text`. The result is named over the pattern the expression was compiled
    /// from, which `new` records beside it.
    #[verifier::external_body]
    pub(crate) fn is_match(&self, text: &str) -> (b: bool)
        ensures
            b == regex_matches(self.source(), text@),
    {
        self.re.is_match(text)
    }
}

/// The password pattern of the session service: at least eight characters
/// from letters, digits and `@$!%*?&`, with an uppercase and a lowercase
/// letter, a digit and one of the special characters.
pub open spec fn strength_pattern() -> Seq<char> {
    "^(?=.*[A-Z])(?=.*[a-z])(?=.*\\d)(?=.*[@$!%*?&])[A-Za-z\\d@$!%*?&]{8,}$"@
}

/// The message of a password that fails the pattern.
pub open spec fn weak_password_message() -> Seq<char> {
    "Password must be at least 8 characters long and contain at least one uppercase letter, one lowercase letter, one number, and one special character"@
}

/// Checks `password` against the strength pattern of the session service.
/// The pattern uses look-ahead, which the `regex` crate refuses, so every
/// password is answered with the error for an invalid pattern.
pub fn validate_password_strength(password: &str) -> (r: Result<(), AuthError>)
    ensures
        !regex_accepts(strength_pattern()) ==> (r matches Err(AuthError::PasswordValidation(m))
            && m@ == "Invalid regex pattern"@),
        regex_accepts(strength_pattern()) && !regex_matches(strength_pattern(), password@) ==> (
        r matches Err(AuthError::PasswordValidation(m)) && m@ == weak_password_message()),
        regex_accepts(strength_pattern()) && regex_matches(strength_pattern(), password@) ==> r is Ok,
        r matches Err(AuthError::PasswordValidation(m)) && m@ == "Invalid regex pattern"@,
{
    proof {
        reveal_strlit("^(?=.*[A-Z])(?=.*[a-z])(?=.*\\d)(?=.*[@$!%*?&])[A-Za-z\\d@$!%*?&]{8,}$");
        reveal_strlit("^(?=");
        assert(strength_pattern().take(4) =~= "^(?="@);
        assert(starts_with_seq(strength_pattern(), "^(?="@));
    }
    let re = match CompiledRegex::new(
        "^(?=.*[A-Z])(?=.*[a-z])(?=.*\\d)(?=.*[@$!%*?&])[A-Za-z\\d@$!%*?&]{8,}$",
    ) {
        Ok(re) => re,
        Err(_) => {
            return Err(AuthError::PasswordValidation("Invalid regex pattern"));
        },
    };
    if !re.is_match(password) {
        return Err(
            AuthError::PasswordValidation(
                "Password must be at least 8 characters long and contain at least one uppercase letter, one lowercase letter, one number, and one special character",
            ),
        );
    }
    Ok(())
}

/// The registration rule on passwords: at least twelve bytes, with an
/// uppercase letter, a lowercase letter, an ASCII digit and a character that is
/// neither a letter nor a digit.
pub open spec fn registration_password_ok(p: &str) -> bool {
    &&& p.len() >= 12
    &&& exists|i: int| 0 <= i < p@.len() && unicode_uppercase(#[trigger] p@[i])
    &&& exists|i: int| 0 <= i < p@.len() && unicode_lowercase(#[trigger] p@[i])
    &&& exists|i: int| 0 <= i < p@.len() && '0' <= #[trigger] p@[i] && p@[i] <= '9'
    &&& exists|i: int| 0 <= i < p@.len() && !unicode_alphanumeric(#[trigger] p@[i])
}

/// The message of a password that breaks the registration rule.
pub open spec fn registration_password_message() -> Seq<char> {
    "Password must be at least 12 characters and include uppercase, lowercase, number, and special character."@
}

/// Checks a password given at registration against the registration rule.
pub fn check_registration_password(password: &str) -> (r: Result<(), AppError>)
    ensures
        registration_password_ok(password) ==> r is Ok,
        !registration_password_ok(password) ==> (r matches Err(AppError::BadRequest(m)) && m@
            == registration_password_message()),
        r is Ok ==> password.len() >= 12,
        r is Ok ==> exists|i: int| 0 <= i < password@.len() && unicode_uppercase(#[trigger] password@[i]),
        r is Ok ==> exists|i: int| 0 <= i < password@.len() && unicode_lowercase(#[trigger] password@[i]),
        r is Ok ==> exists|i: int| 0 <= i < password@.len() && '0' <= #[trigger] password@[i] && password@[i] <= '9',
        r is Ok ==> exists|i: int| 0 <= i < password@.len() && !unicode_alphanumeric(#[trigger] password@[i]),
{
    let bytes = password.len();
    let n = password.unicode_len();
    let mut upper = false;
    let mut lower = false;
    let mut digit = false;
    let mut special = false;
    let mut i: usize = 0;
    while i < n
        invariant
            i <= n,
            n == password@.len(),
            upper == exists|k: int| 0 <= k < i && unicode_uppercase(#[trigger] password@[k]),
            lower == exists|k: int| 0 <= k < i && unicode_lowercase(#[trigger] password@[k]),
            digit == exists|k: int| 0 <= k < i && '0' <= #[trigger] password@[k] && password@[k] <= '9',
            special == exists|k: int| 0 <= k < i && !unicode_alphanumeric(#[trigger] password@[k]),
        decreases n - i,
    {
        let c = password.get_char(i);
        if char_is_uppercase(c) {
            upper = true;
        }
        if char_is_lowercase(c) {
            lower = true;
        }
        if '0' <= c && c <= '9' {
            digit = true;
        }
        if !char_is_alphanumeric(c) {
            special = true;
        }
        i = i + 1;
    }
    if bytes < 12 || !upper || !lower || !digit || !special {
        return Err(
            AppError::BadRequest(
                owned(
                    "Password must be at least 12 characters and include uppercase, lowercase, number, and special character.",
                ),
            ),
        );
    }
    Ok(())
}

/// What `bcrypt::verify` gives for `password` and `hash`: `Some(matches)`, or
/// `None` when `hash` is not a bcrypt hash.
pub uninterp spec fn bcrypt_verify_outcome(password: Seq<char>, hash: Seq<char>) -> Option<bool>;

/// `bcrypt::verify`: whether `password` hashes to `hash` under the salt and
/// cost written in `hash`. The result is named: it depends on the two texts alone.
#[verifier::external_body]
pub(crate) fn bcrypt_verify(password: &str, hash: &str) -> (r: Result<bool, bcrypt::BcryptError>)
    ensures
        match r {
            Ok(b) => bcrypt_verify_outcome(password@, hash@) == Some(b),
            Err(_) => bcrypt_verify_outcome(password@, hash@) is None,
        },
{
    bcrypt::verify(password, hash)
}

/// A character of bcrypt's base64 alphabet: `./A-Za-z0-9`.
pub open spec fn bcrypt_base64_char(c: char) -> bool {
    c == '.' || c == '/' || ('A' <= c && c <= 'Z') || ('a' <= c && c <= 'z') || ('0' <= c && c <= '9')
}

/// The text of a bcrypt hash at the default cost: `$2b$12$`, then the salt
/// (22 characters) and the hash (31 characters) in bcrypt's base64 alphabet.
pub open spec fn bcrypt_default_form(h: Seq<char>) -> bool {
    &&& h.len() == 60
    &&& h.take(7) == "$2b$12$"@
    &&& forall|i: int| 7 <= i < 60 ==> bcrypt_base64_char(#[trigger] h[i])
}

/// `bcrypt::hash` at the default cost (12). The salt is random, so which hash
/// comes out is not stated; its form is (`HashParts::format`: the `2b`
/// prefix, the cost in two digits, 16 bytes of salt and 23 of hash in
/// bcrypt's base64 without padding), and so is what `bcrypt::verify` gives
/// for the same password against it: both run the same hashing with the salt
/// and cost written in the hash.
#[verifier::external_body]
pub fn hash_password(password: &str) -> (r: Result<String, bcrypt::BcryptError>)
    ensures
        r matches Ok(h) ==> bcrypt_default_form(h@) && bcrypt_verify_outcome(password@, h@) == Some(true),
{
    bcrypt::hash(password, bcrypt::DEFAULT_COST)
}

/// Whether `password` matches the bcrypt `hash`; a malformed hash matches nothing.
pub fn verify_password(password: &str, hash: &str) -> (b: bool)
    ensures
        b == (bcrypt_verify_outcome(password@, hash@) == Some(true)),
{
    match bcrypt_verify(password, hash) {
        Ok(b) => b,
        Err(_) => false,
    }
}

/// What is stored for a password is never the password itself, unless the
/// password is itself written in the form of a bcrypt hash.
pub proof fn lemma_stored_hash_is_not_password(password: Seq<char>, stored: Seq<char>)
    requires
        bcrypt_default_form(stored),
        !bcrypt_default_form(password),
    ensures
        password != stored,
{
}

/// The registration rule needs each character class on its own: a password
/// shorter than twelve bytes is refused, and so is one with no uppercase
/// letter, one with no lowercase letter, one with no ASCII digit, and one with
/// no character that is neither a letter nor a digit, whatever else it holds.
pub proof fn lemma_registration_needs_every_class(p: &str)
    ensures
        p.len() < 12 ==> !registration_password_ok(p),
        (forall|i: int| 0 <= i < p@.len() ==> !unicode_uppercase(#[trigger] p@[i]))
            ==> !registration_password_ok(p),
        (forall|i: int| 0 <= i < p@.len() ==> !unicode_lowercase(#[trigger] p@[i]))
            ==> !registration_password_ok(p),
        (forall|i: int| 0 <= i < p@.len() ==> !('0' <= #[trigger] p@[i] && p@[i] <= '9'))
            ==> !registration_password_ok(p),
        (forall|i: int| 0 <= i < p@.len() ==> unicode_alphanumeric(#[trigger] p@[i]))
            ==> !registration_password_ok(p),
{
}

/// A password with at least twelve bytes and a character of each class (an
/// uppercase letter, a lowercase letter, an ASCII digit and a character that
/// is neither letter nor digit, at positions `u`, `l`, `d` and `x`) meets the
/// registration rule.
pub proof fn lemma_registration_accepts_every_class(p: &str, u: int, l: int, d: int, x: int)
    requires
        p.len() >= 12,
        0 <= u < p@.len() && unicode_uppercase(p@[u]),
        0 <= l < p@.len() && unicode_lowercase(p@[l]),
        0 <= d < p@.len() && '0' <= p@[d] && p@[d] <= '9',
        0 <= x < p@.len() && !unicode_alphanumeric(p@[x]),
    ensures
        registration_password_ok(p),
{
}

} // verus!
