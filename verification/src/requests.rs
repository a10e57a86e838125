//! The request bodies of the authentication service and the rules they are validated against.
use vstd::prelude::*;
use crate::auth_error::{FieldError, ValidationFailure};
use crate::text::{owned, contains_seq, joined, views, join};

verus! {

/// Whether `validator` accepts `s` as an email address (the HTML5 rule).
pub uninterp spec fn email_valid(s: Seq<char>) -> bool;

/// `validator::validate_email`. Its rule is named; of it the source shows
/// that an empty text, or one without `@`, is refused.
#[verifier::external_body]
pub(crate) fn validate_email(s: &str) -> (b: bool)
    ensures
        b == email_valid(s@),
        (s@.len() == 0 || !contains_seq(s@, "@"@)) ==> !b,
{
    validator::validate_email(s)
}

/// The failed check of one field under one rule, without a message of its own.
fn field_error(field: &str) -> (e: FieldError)
    ensures
        e.field@ == field@,
        e.message is None,
{
    FieldError { field: owned(field), message: None }
}

/// The names of the fields whose checks failed, in order.
pub open spec fn failed_fields(v: ValidationFailure) -> Seq<Seq<char>> {
    v.errors@.map_values(|e: FieldError| e.field@)
}

/// All failed checks have no message of their own.
pub open spec fn no_messages(v: ValidationFailure) -> bool {
    forall|i: int| 0 <= i < v.errors@.len() ==> (#[trigger] v.errors@[i]).message is None
}

/// The outcome of validation when the fields in `failed` failed, in order.
pub open spec fn outcome_is(r: Result<(), ValidationFailure>, failed: Seq<Seq<char>>) -> bool {
    if failed.len() == 0 {
        r is Ok
    } else {
        r matches Err(v) && failed_fields(v) == failed && no_messages(v)
    }
}

/// The outcome of validation from the list of failed checks.
fn outcome(errors: Vec<FieldError>) -> (r: Result<(), ValidationFailure>)
    ensures
        errors@.len() == 0 ==> r is Ok,
        errors@.len() > 0 ==> (r matches Err(v) && v.errors@ == errors@),
{
    if errors.len() == 0 {
        Ok(())
    } else {
        Err(ValidationFailure { errors })
    }
}

/// Appends a failed check when `ok` is false.
fn check(errors: &mut Vec<FieldError>, ok: bool, field: &str)
    ensures
        ok ==> final(errors)@ == old(errors)@,
        !ok ==> final(errors)@.len() == old(errors)@.len() + 1 && final(errors)@.drop_last() == old(
            errors,
        )@ && final(errors)@.last().field@ == field@ && final(errors)@.last().message is None,
{
    if !ok {
        errors.push(field_error(field));
        assert(errors@.drop_last() =~= old(errors)@);
    }
}

/// The failed-field list after optionally appending `field`.
pub open spec fn add_if(fs: Seq<Seq<char>>, failed: bool, field: Seq<char>) -> Seq<Seq<char>> {
    if failed {
        fs.push(field)
    } else {
        fs
    }
}

/// Login credentials.
#[derive(Debug)]
pub struct LoginRequest {
    pub email: String,
    pub password: String,
}

impl LoginRequest {
    /// The email must be an address and the password at least eight characters long.
    pub fn validate(&self) -> (r: Result<(), ValidationFailure>)
        ensures
            outcome_is(
                r,
                add_if(
                    add_if(Seq::empty(), !email_valid(self.email@), "email"@),
                    self.password@.len() < 8,
                    "password"@,
                ),
            ),
    {
        let mut errors: Vec<FieldError> = Vec::new();
        check(&mut errors, validate_email(self.email.as_str()), "email");
        let ghost e1 = errors@;
        check(&mut errors, self.password.unicode_len() >= 8, "password");
        proof {
            reveal_strlit("email");
            reveal_strlit("password");
            let fs = add_if(
                add_if(Seq::empty(), !email_valid(self.email@), "email"@),
                self.password@.len() < 8,
                "password"@,
            );
            assert(errors@.map_values(|e: FieldError| e.field@) =~= fs);
            assert(forall|i: int| 0 <= i < errors@.len() ==> (#[trigger] errors@[i]).message is None);
        }
        outcome(errors)
    }
}

/// A request for new tokens.
#[derive(Debug)]
pub struct RefreshRequest {
    pub refresh_token: String,
}

impl RefreshRequest {
    /// No rules apply.
    pub fn validate(&self) -> (r: Result<(), ValidationFailure>)
        ensures
            r is Ok,
    {
        Ok(())
    }
}

/// A request to reset the password of an address.
#[derive(Debug)]
pub struct PasswordResetRequest {
    pub email: String,
}

impl PasswordResetRequest {
    /// The email must be an address.
    pub fn validate(&self) -> (r: Result<(), ValidationFailure>)
        ensures
            outcome_is(r, add_if(Seq::empty(), !email_valid(self.email@), "email"@)),
    {
        let mut errors: Vec<FieldError> = Vec::new();
        check(&mut errors, validate_email(self.email.as_str()), "email");
        proof {
            reveal_strlit("email");
            assert(errors@.map_values(|e: FieldError| e.field@) =~= add_if(
                Seq::empty(),
                !email_valid(self.email@),
                "email"@,
            ));
        }
        outcome(errors)
    }
}

/// A new password with the token that allows setting it.
#[derive(Debug)]
pub struct NewPasswordRequest {
    pub token: String,
    pub new_password: String,
}

impl NewPasswordRequest {
    /// The new password must be at least eight characters long.
    pub fn validate(&self) -> (r: Result<(), ValidationFailure>)
        ensures
            outcome_is(r, add_if(Seq::empty(), self.new_password@.len() < 8, "new_password"@)),
    {
        let mut errors: Vec<FieldError> = Vec::new();
        check(&mut errors, self.new_password.unicode_len() >= 8, "new_password");
        proof {
            reveal_strlit("new_password");
            assert(errors@.map_values(|e: FieldError| e.field@) =~= add_if(
                Seq::empty(),
                self.new_password@.len() < 8,
                "new_password"@,
            ));
        }
        outcome(errors)
    }
}

/// A password change: the current password and the new one.
#[derive(Debug)]
pub struct ChangePasswordRequest {
    pub current_password: String,
    pub new_password: String,
}

impl ChangePasswordRequest {
    /// Both passwords must be at least eight characters long.
    pub fn validate(&self) -> (r: Result<(), ValidationFailure>)
        ensures
            outcome_is(
                r,
                add_if(
                    add_if(Seq::empty(), self.current_password@.len() < 8, "current_password"@),
                    self.new_password@.len() < 8,
                    "new_password"@,
                ),
            ),
    {
        let mut errors: Vec<FieldError> = Vec::new();
        check(&mut errors, self.current_password.unicode_len() >= 8, "current_password");
        check(&mut errors, self.new_password.unicode_len() >= 8, "new_password");
        proof {
            reveal_strlit("current_password");
            reveal_strlit("new_password");
            let fs = add_if(
                add_if(Seq::empty(), self.current_password@.len() < 8, "current_password"@),
                self.new_password@.len() < 8,
                "new_password"@,
            );
            assert(errors@.map_values(|e: FieldError| e.field@) =~= fs);
            assert(forall|i: int| 0 <= i < errors@.len() ==> (#[trigger] errors@[i]).message is None);
        }
        outcome(errors)
    }
}

/// Paging of a listing: the page number and the page size.
#[derive(Debug, Clone, Copy)]
pub struct PaginationParams {
    pub page: Option<u32>,
    pub per_page: Option<u32>,
}

impl Default for PaginationParams {
    fn default() -> (p: Self)
        ensures
            p.page == Some(1u32),
            p.per_page == Some(20u32),
    {
        PaginationParams { page: Some(1), per_page: Some(20) }
    }
}

/// An optional number lies in `min..=max` when present.
pub open spec fn in_range(v: Option<u32>, min: u32, max: u32) -> bool {
    match v {
        Some(x) => min <= x <= max,
        None => true,
    }
}

impl PaginationParams {
    /// A page number from 1 to 100 and a page size from 1 to 50, when given.
    pub fn validate(&self) -> (r: Result<(), ValidationFailure>)
        ensures
            outcome_is(
                r,
                add_if(
                    add_if(Seq::empty(), !in_range(self.page, 1, 100), "page"@),
                    !in_range(self.per_page, 1, 50),
                    "per_page"@,
                ),
            ),
    {
        let mut errors: Vec<FieldError> = Vec::new();
        let page_ok = match self.page {
            Some(p) => 1 <= p && p <= 100,
            None => true,
        };
        let per_page_ok = match self.per_page {
            Some(p) => 1 <= p && p <= 50,
            None => true,
        };
        check(&mut errors, page_ok, "page");
        check(&mut errors, per_page_ok, "per_page");
        proof {
            reveal_strlit("page");
            reveal_strlit("per_page");
            let fs = add_if(
                add_if(Seq::empty(), !in_range(self.page, 1, 100), "page"@),
                !in_range(self.per_page, 1, 50),
                "per_page"@,
            );
            assert(errors@.map_values(|e: FieldError| e.field@) =~= fs);
            assert(forall|i: int| 0 <= i < errors@.len() ==> (#[trigger] errors@[i]).message is None);
        }
        outcome(errors)
    }
}

/// The message of a failed check: its own message, or nothing.
pub open spec fn message_or_empty(e: FieldError) -> Seq<char> {
    match e.message {
        Some(m) => m@,
        None => Seq::empty(),
    }
}

/// Turns the outcome of a request's validation into the error text answered
/// to the client: the messages of the failed checks joined with `, `.
pub fn validate_request(outcome: &Result<(), ValidationFailure>) -> (r: Result<(), String>)
    ensures
        outcome is Ok ==> r is Ok,
        outcome matches Err(v) ==> (r matches Err(m) && m@ == joined(
            v.errors@.map_values(|e: FieldError| message_or_empty(e)),
            ", "@,
        )),
{
    match outcome {
        Ok(()) => Ok(()),
        Err(v) => {
            let mut msgs: Vec<String> = Vec::new();
            let n = v.errors.len();
            let mut i: usize = 0;
            while i < n
                invariant
                    i <= n,
                    n == v.errors@.len(),
                    views(msgs@) =~= v.errors@.map_values(|e: FieldError| message_or_empty(e)).take(
                        i as int,
                    ),
                decreases n - i,
            {
                let m = match &v.errors[i].message {
                    Some(m) => m.clone(),
                    None => String::new(),
                };
                let ghost before = msgs@;
                msgs.push(m);
                proof {
                    assert(views(msgs@) =~= views(before).push(m@));
                    assert(v.errors@.map_values(|e: FieldError| message_or_empty(e)).take(i + 1)
                        =~= v.errors@.map_values(|e: FieldError| message_or_empty(e)).take(
                        i as int,
                    ).push(message_or_empty(v.errors@[i as int])));
                }
                i = i + 1;
            }
            assert(v.errors@.map_values(|e: FieldError| message_or_empty(e)).take(n as int)
                =~= v.errors@.map_values(|e: FieldError| message_or_empty(e)));
            Err(join(&msgs, ", "))
        },
    }
}

} // verus!
