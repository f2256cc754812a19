//! The errors of the plain chat service, and how it reports them.

use crate::error::{error_body, error_body_text};
use vstd::prelude::*;

verus! {

/// An error that a handler of the plain chat service returns.
#[derive(Debug, PartialEq, Eq)]
pub enum ApiError {
    BadRequest(String),
    Forbidden(String),
    NotFound(String),
    InternalServerError(String),
    NotImplemented,
}

pub type ApiResult<T> = Result<T, ApiError>;

/// The HTTP status of `error`.
pub open spec fn api_status(error: ApiError) -> u16 {
    match error {
        ApiError::BadRequest(_) => 400,
        ApiError::Forbidden(_) => 403,
        ApiError::NotFound(_) => 404,
        ApiError::InternalServerError(_) => 500,
        ApiError::NotImplemented => 501,
    }
}

/// What a client is told of `error`: the reason it carries, except that the
/// reason of an internal error stays inside.
pub open spec fn api_reason(error: ApiError) -> Seq<char> {
    match error {
        ApiError::BadRequest(reason) => reason@,
        ApiError::Forbidden(reason) => reason@,
        ApiError::NotFound(reason) => reason@,
        ApiError::InternalServerError(_) => "Internal Server Error"@,
        ApiError::NotImplemented => "Not implemented"@,
    }
}

impl ApiError {
    /// The response that reports this error: its status, and a JSON body
    /// with the one member `error`.
    pub fn response(&self) -> (response: (u16, String))
        ensures
            response.0 == api_status(*self),
            response.1@ == error_body_text(api_reason(*self)),
    {
        match self {
            ApiError::BadRequest(reason) => (400, error_body(reason.as_str())),
            ApiError::Forbidden(reason) => (403, error_body(reason.as_str())),
            ApiError::NotFound(reason) => (404, error_body(reason.as_str())),
            ApiError::InternalServerError(_) => (500, error_body("Internal Server Error")),
            ApiError::NotImplemented => (501, error_body("Not implemented")),
        }
    }
}

} // verus!
