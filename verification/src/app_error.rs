//! The errors that the HTTP handlers answer with.
use vstd::prelude::*;

verus! {

/// An error response of the HTTP handlers, with its message.
#[derive(Debug, Clone, PartialEq, Eq)]
pub enum AppError {
    BadRequest(String),
    Forbidden(String),
    NotFound(String),
    InternalServerError(String),
}

/// The HTTP status of each kind of error.
pub open spec fn app_error_status(e: AppError) -> u16 {
    match e {
        AppError::BadRequest(_) => 400,
        AppError::Forbidden(_) => 403,
        AppError::NotFound(_) => 404,
        AppError::InternalServerError(_) => 500,
    }
}

/// The message of an error.
pub open spec fn app_error_message(e: AppError) -> Seq<char> {
    match e {
        AppError::BadRequest(m) => m@,
        AppError::Forbidden(m) => m@,
        AppError::NotFound(m) => m@,
        AppError::InternalServerError(m) => m@,
    }
}

impl AppError {
    /// The HTTP status the error is answered with.
    pub fn status_code(&self) -> (s: u16)
        ensures
            s == app_error_status(*self),
    {
        match self {
            AppError::BadRequest(_) => 400,
            AppError::Forbidden(_) => 403,
            AppError::NotFound(_) => 404,
            AppError::InternalServerError(_) => 500,
        }
    }
}

} // verus!
