//! The errors that the HTTP interface reports, and how it reports them.

use crate::json::{json_quoted, quote};
use crate::kafka::{kafka_detail, kafka_status, KafkaError};
use crate::s3::{s3_description, s3_error_type, s3_status, S3Error};
use vstd::prelude::*;

verus! {

/// An error of the HTTP interface itself.
#[derive(Debug, PartialEq, Eq)]
pub enum HttpError {
    BadRequest(String),
    Forbidden(String),
    NotFound(String),
    Internal(String),
    NotImplemented,
    UnsupportedMediaType,
}

/// The HTTP status of `error`.
pub open spec fn http_status(error: HttpError) -> u16 {
    match error {
        HttpError::BadRequest(_) => 400,
        HttpError::Forbidden(_) => 403,
        HttpError::NotFound(_) => 404,
        HttpError::Internal(_) => 500,
        HttpError::NotImplemented => 501,
        HttpError::UnsupportedMediaType => 415,
    }
}

/// What a client is told of `error`: the reason it carries, except that the
/// reason of an internal error stays inside.
pub open spec fn http_reason(error: HttpError) -> Seq<char> {
    match error {
        HttpError::BadRequest(reason) => reason@,
        HttpError::Forbidden(reason) => reason@,
        HttpError::NotFound(reason) => reason@,
        HttpError::Internal(_) => "Internal Server Error"@,
        HttpError::NotImplemented => "Not implemented"@,
        HttpError::UnsupportedMediaType => "Unsupported media type"@,
    }
}

/// The sentence that describes `error` in logs. An unsupported media type is
/// described as not implemented.
pub open spec fn http_description(error: HttpError) -> Seq<char> {
    match error {
        HttpError::BadRequest(reason) => "Bad request: "@ + reason@,
        HttpError::Forbidden(reason) => "Forbidden: "@ + reason@,
        HttpError::NotFound(reason) => "Not found: "@ + reason@,
        HttpError::Internal(reason) => "Internal server error: "@ + reason@,
        HttpError::NotImplemented => "Not implemented"@,
        HttpError::UnsupportedMediaType => "Not implemented"@,
    }
}

/// The JSON body that reports `reason`: an object with the one member
/// `error`.
pub open spec fn error_body_text(reason: Seq<char>) -> Seq<char> {
    "{\"error\":"@ + json_quoted(reason) + "}"@
}

/// Writes the JSON body that reports `reason`.
pub fn error_body(reason: &str) -> (body: String)
    ensures
        body@ == error_body_text(reason@),
{
    let mut body = String::from_str("{\"error\":");
    body.append(quote(reason).as_str());
    body.append("}");
    body
}

impl HttpError {
    /// The HTTP status of this error.
    pub fn status(&self) -> (code: u16)
        ensures
            code == http_status(*self),
    {
        match self {
            HttpError::BadRequest(_) => 400,
            HttpError::Forbidden(_) => 403,
            HttpError::NotFound(_) => 404,
            HttpError::Internal(_) => 500,
            HttpError::NotImplemented => 501,
            HttpError::UnsupportedMediaType => 415,
        }
    }

    /// What a client is told of this error.
    pub fn reason(&self) -> (text: &str)
        ensures
            text@ == http_reason(*self),
    {
        match self {
            HttpError::BadRequest(reason) => reason.as_str(),
            HttpError::Forbidden(reason) => reason.as_str(),
            HttpError::NotFound(reason) => reason.as_str(),
            HttpError::Internal(_) => "Internal Server Error",
            HttpError::NotImplemented => "Not implemented",
            HttpError::UnsupportedMediaType => "Unsupported media type",
        }
    }

    /// The sentence that describes this error in logs.
    pub fn describe(&self) -> (text: String)
        ensures
            text@ == http_description(*self),
    {
        match self {
            HttpError::BadRequest(reason) => String::from_str("Bad request: ").concat(
                reason.as_str(),
            ),
            HttpError::Forbidden(reason) => String::from_str("Forbidden: ").concat(reason.as_str()),
            HttpError::NotFound(reason) => String::from_str("Not found: ").concat(reason.as_str()),
            HttpError::Internal(reason) => String::from_str("Internal server error: ").concat(
                reason.as_str(),
            ),
            HttpError::NotImplemented => String::from_str("Not implemented"),
            HttpError::UnsupportedMediaType => String::from_str("Not implemented"),
        }
    }

    /// The response that reports this error: its status and its JSON body.
    pub fn response(&self) -> (response: (u16, String))
        ensures
            response.0 == http_status(*self),
            response.1@ == error_body_text(http_reason(*self)),
    {
        (self.status(), error_body(self.reason()))
    }
}

/// Any error that a handler of the HTTP interface returns.
#[derive(Debug)]
pub enum ApiError {
    Http(HttpError),
    S3(Box<S3Error>),
    Kafka(KafkaError),
}

pub type ApiResult<T> = Result<T, ApiError>;

/// The JSON body that reports a storage error: its name and its description.
pub open spec fn s3_body_text(error: S3Error) -> Seq<char> {
    "{\"error\":"@ + json_quoted(s3_error_type(error)) + ",\"message\":"@ + json_quoted(
        s3_description(error),
    ) + "}"@
}

/// Writes the response that reports a storage error.
pub fn s3_response(error: &S3Error) -> (response: (u16, String))
    ensures
        response.0 == s3_status(*error),
        response.1@ == s3_body_text(*error),
{
    let mut body = String::from_str("{\"error\":");
    body.append(quote(error.error_type()).as_str());
    body.append(",\"message\":");
    body.append(quote(error.describe().as_str()).as_str());
    body.append("}");
    (error.status(), body)
}

/// Writes the response that reports a side-channel error.
pub fn kafka_response(error: &KafkaError) -> (response: (u16, String))
    ensures
        response.0 == kafka_status(*error),
        response.1@ == error_body_text(kafka_detail(*error)),
{
    (error.status(), error_body(error.detail()))
}

impl ApiError {
    /// The response that reports this error: that of the error inside.
    pub fn response(&self) -> (response: (u16, String))
        ensures
            match self {
                ApiError::Http(error) => response.0 == http_status(*error) && response.1@
                    == error_body_text(http_reason(*error)),
                ApiError::S3(error) => response.0 == s3_status(**error) && response.1@
                    == s3_body_text(**error),
                ApiError::Kafka(error) => response.0 == kafka_status(*error) && response.1@
                    == error_body_text(kafka_detail(*error)),
            },
    {
        match self {
            ApiError::Http(error) => error.response(),
            ApiError::S3(error) => s3_response(error),
            ApiError::Kafka(error) => kafka_response(error),
        }
    }
}

impl From<HttpError> for ApiError {
    fn from(error: HttpError) -> (wrapped: ApiError) {
        ApiError::Http(error)
    }
}

impl vstd::std_specs::convert::FromSpecImpl<HttpError> for ApiError {
    open spec fn obeys_from_spec() -> bool {
        true
    }

    open spec fn from_spec(error: HttpError) -> ApiError {
        ApiError::Http(error)
    }
}

impl From<KafkaError> for ApiError {
    fn from(error: KafkaError) -> (wrapped: ApiError) {
        ApiError::Kafka(error)
    }
}

impl vstd::std_specs::convert::FromSpecImpl<KafkaError> for ApiError {
    open spec fn obeys_from_spec() -> bool {
        true
    }

    open spec fn from_spec(error: KafkaError) -> ApiError {
        ApiError::Kafka(error)
    }
}

impl From<S3Error> for ApiError {
    fn from(error: S3Error) -> (wrapped: ApiError) {
        ApiError::S3(Box::new(error))
    }
}

impl vstd::std_specs::convert::FromSpecImpl<S3Error> for ApiError {
    open spec fn obeys_from_spec() -> bool {
        true
    }

    open spec fn from_spec(error: S3Error) -> ApiError {
        ApiError::S3(Box::new(error))
    }
}

} // verus!
