//! Error taxonomy of the request handlers.

use vstd::prelude::*;

verus! {

/// Class of a handler failure; each maps to one HTTP status.
#[derive(Clone, Copy, Debug, PartialEq, Eq, Structural)]
pub enum ErrorKind {
    BadRequest,
    Unauthorized,
    NotFound,
    InternalError,
}

/// HTTP status of each error class.
pub open spec fn status_of(k: ErrorKind) -> u16 {
    match k {
        ErrorKind::BadRequest => 400,
        ErrorKind::Unauthorized => 401,
        ErrorKind::NotFound => 404,
        ErrorKind::InternalError => 500,
    }
}

/// `r` is a failure of class `kind` with message `msg`.
pub open spec fn fails_with<T>(r: Result<T, ApiError>, kind: ErrorKind, msg: Seq<char>) -> bool {
    r matches Err(e) && e.kind == kind && e.message@ == msg
}

/// A failed request: its class and a human-readable message.
#[derive(Debug)]
pub struct ApiError {
    pub kind: ErrorKind,
    pub message: String,
}

impl ApiError {
    pub fn new(kind: ErrorKind, message: &str) -> (r: ApiError)
        ensures
            r.kind == kind,
            r.message@ == message@,
    {
        ApiError { kind, message: message.to_string() }
    }

    pub fn bad_request(message: &str) -> (r: ApiError)
        ensures
            r.kind == ErrorKind::BadRequest,
            r.message@ == message@,
    {
        ApiError::new(ErrorKind::BadRequest, message)
    }

    pub fn unauthorized(message: &str) -> (r: ApiError)
        ensures
            r.kind == ErrorKind::Unauthorized,
            r.message@ == message@,
    {
        ApiError::new(ErrorKind::Unauthorized, message)
    }

    pub fn not_found(message: &str) -> (r: ApiError)
        ensures
            r.kind == ErrorKind::NotFound,
            r.message@ == message@,
    {
        ApiError::new(ErrorKind::NotFound, message)
    }

    pub fn internal_error(message: &str) -> (r: ApiError)
        ensures
            r.kind == ErrorKind::InternalError,
            r.message@ == message@,
    {
        ApiError::new(ErrorKind::InternalError, message)
    }

    /// HTTP status that answers this error.
    pub fn status_code(&self) -> (r: u16)
        ensures
            r == status_of(self.kind),
    {
        match self.kind {
            ErrorKind::BadRequest => 400,
            ErrorKind::Unauthorized => 401,
            ErrorKind::NotFound => 404,
            ErrorKind::InternalError => 500,
        }
    }
}

} // verus!
