//! The error taxonomy of the service, and its mapping to status codes.

use vstd::prelude::*;

verus! {

/// Everything that can go wrong while serving a request, by cause:
/// a missing parameter, an absent row or a failed password gate, a
/// secret mismatch on mutation, a slug collision on create, an
/// unexpected internal failure, or an admission-control rejection.
#[derive(Clone, Copy, Debug, PartialEq, Eq, Structural)]
pub enum AppError {
    BadRequest,
    NotFound,
    Unauthorized,
    Conflict,
    Internal,
    Unavailable,
}

impl AppError {
    /// The catch-all for unexpected failures.
    pub fn internal() -> (r: AppError)
        ensures
            r == AppError::Internal,
    {
        AppError::Internal
    }

    /// The status code a response carries for this error.
    pub fn status_code(&self) -> (r: u16)
        ensures
            r == self.spec_status_code(),
    {
        match self {
            AppError::BadRequest => 400,
            AppError::NotFound => 404,
            AppError::Unauthorized => 401,
            AppError::Conflict => 409,
            AppError::Internal => 500,
            AppError::Unavailable => 503,
        }
    }

    pub open spec fn spec_status_code(&self) -> u16 {
        match self {
            AppError::BadRequest => 400u16,
            AppError::NotFound => 404u16,
            AppError::Unauthorized => 401u16,
            AppError::Conflict => 409u16,
            AppError::Internal => 500u16,
            AppError::Unavailable => 503u16,
        }
    }

    pub open spec fn spec_message(&self) -> Seq<char> {
        match self {
            AppError::BadRequest => "missing required parameter"@,
            AppError::NotFound => "Paste not found \n"@,
            AppError::Unauthorized => "unable to delete paste"@,
            AppError::Conflict => "paste already exists"@,
            AppError::Internal => "An error occured"@,
            AppError::Unavailable => "service unavailable"@,
        }
    }

    /// The human-readable body a response carries for this error.
    pub fn message(&self) -> (r: String)
        ensures
            r@ == self.spec_message(),
    {
        match self {
            AppError::BadRequest => "missing required parameter".to_owned(),
            AppError::NotFound => "Paste not found \n".to_owned(),
            AppError::Unauthorized => "unable to delete paste".to_owned(),
            AppError::Conflict => "paste already exists".to_owned(),
            AppError::Internal => "An error occured".to_owned(),
            AppError::Unavailable => "service unavailable".to_owned(),
        }
    }
}

} // verus!
