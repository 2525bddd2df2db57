//! The error every operation of the backend answers with.

use vstd::prelude::*;
use vstd::string::*;

verus! {

/// An error answered to an API client.
#[derive(Debug, Clone, PartialEq, Eq)]
pub enum ApiError {
    /// The requested row does not exist (or is not visible to the tenant).
    NotFound,
    /// A storage, cache or encoding failure.
    InternalServerError,
    /// The request was malformed or failed validation.
    BadRequest(String),
    /// The write lost a race against a concurrent writer.
    Conflict(String),
}

/// The HTTP status that answers an error.
pub open spec fn status_of(e: ApiError) -> u16 {
    match e {
        ApiError::NotFound => 404,
        ApiError::InternalServerError => 500,
        ApiError::BadRequest(_) => 400,
        ApiError::Conflict(_) => 409,
    }
}

/// The text of the response body for an error.
pub open spec fn message_of(e: ApiError) -> Seq<char> {
    match e {
        ApiError::NotFound => "Not found"@,
        ApiError::InternalServerError => "Internal server error"@,
        ApiError::BadRequest(m) => m@,
        ApiError::Conflict(m) => m@,
    }
}

impl ApiError {
    /// The text of the response body for this error: the message carried
    /// by a bad request or a conflict, a fixed text otherwise.
    pub fn message(&self) -> (m: String)
        ensures
            m@ == message_of(*self),
    {
        match self {
            ApiError::NotFound => String::from_str("Not found"),
            ApiError::InternalServerError => String::from_str("Internal server error"),
            ApiError::BadRequest(m) => m.clone(),
            ApiError::Conflict(m) => m.clone(),
        }
    }

    /// The HTTP status code of the response for this error.
    pub fn status_code(&self) -> (code: u16)
        ensures
            code == status_of(*self),
    {
        match self {
            ApiError::NotFound => 404,
            ApiError::InternalServerError => 500,
            ApiError::BadRequest(_) => 400,
            ApiError::Conflict(_) => 409,
        }
    }
}

} // verus!
