//! Errors of the configuration API, each answered with an HTTP status and a
//! JSON body `{"error": message}`.
use vstd::prelude::*;
use crate::queue::QueueError;
use crate::text::{contains_sub, str_contains};

verus! {

#[derive(Debug, Clone)]
pub enum ApiError {
    NotFound(String),
    Conflict(String),
    BadRequest(String),
    Internal(String),
}

/// Status codes of the four error kinds.
pub const STATUS_NOT_FOUND: u16 = 404;
pub const STATUS_CONFLICT: u16 = 409;
pub const STATUS_BAD_REQUEST: u16 = 400;
pub const STATUS_INTERNAL: u16 = 500;

impl View for ApiError {
    /// The HTTP status and the message of the error body.
    type V = (u16, Seq<char>);

    open spec fn view(&self) -> (u16, Seq<char>) {
        match self {
            ApiError::NotFound(m) => (STATUS_NOT_FOUND, m@),
            ApiError::Conflict(m) => (STATUS_CONFLICT, m@),
            ApiError::BadRequest(m) => (STATUS_BAD_REQUEST, m@),
            ApiError::Internal(m) => (STATUS_INTERNAL, m@),
        }
    }
}

/// What a database failure is answered with, given the message the database
/// reported (`None` for a failure that did not come from the database itself).
pub open spec fn database_error_view(message: Option<Seq<char>>) -> (u16, Seq<char>) {
    match message {
        Some(m) => if contains_sub(m, "FOREIGN KEY"@) {
            (STATUS_CONFLICT, "cannot delete: still referenced by an instance"@)
        } else if contains_sub(m, "UNIQUE"@) || contains_sub(m, "PRIMARY KEY"@) {
            (STATUS_CONFLICT, "already exists"@)
        } else {
            (STATUS_INTERNAL, "internal error"@)
        },
        None => (STATUS_INTERNAL, "internal error"@),
    }
}

impl ApiError {
    /// HTTP status of the response.
    pub fn status_code(&self) -> (r: u16)
        ensures
            r == self@.0,
    {
        match self {
            ApiError::NotFound(_) => STATUS_NOT_FOUND,
            ApiError::Conflict(_) => STATUS_CONFLICT,
            ApiError::BadRequest(_) => STATUS_BAD_REQUEST,
            ApiError::Internal(_) => STATUS_INTERNAL,
        }
    }

    /// Message of the response body.
    pub fn message(&self) -> (r: &str)
        ensures
            r@ == self@.1,
    {
        match self {
            ApiError::NotFound(m) => m.as_str(),
            ApiError::Conflict(m) => m.as_str(),
            ApiError::BadRequest(m) => m.as_str(),
            ApiError::Internal(m) => m.as_str(),
        }
    }

    /// A queue failure is never shown to the client: it is answered with an
    /// opaque internal error.
    pub fn from_queue(err: QueueError) -> (r: ApiError)
        ensures
            r@ == (STATUS_INTERNAL, "internal error"@),
    {
        ApiError::Internal(String::from_str("internal error"))
    }

    /// A database failure: a foreign-key violation means the row is still
    /// referenced, a unique or primary-key violation means it already
    /// exists; anything else is an opaque internal error.
    pub fn from_database(message: Option<&str>) -> (r: ApiError)
        ensures
            r@ == database_error_view(
                match message {
                    Some(m) => Some(m@),
                    None => None,
                },
            ),
    {
        match message {
            Some(m) => {
                if str_contains(m, "FOREIGN KEY") {
                    ApiError::Conflict(String::from_str("cannot delete: still referenced by an instance"))
                } else if str_contains(m, "UNIQUE") || str_contains(m, "PRIMARY KEY") {
                    ApiError::Conflict(String::from_str("already exists"))
                } else {
                    ApiError::Internal(String::from_str("internal error"))
                }
            },
            None => ApiError::Internal(String::from_str("internal error")),
        }
    }
}

} // verus!
