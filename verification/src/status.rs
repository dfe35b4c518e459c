//! Failures of the store and the HTTP status codes they are reported with.

use vstd::prelude::*;

verus! {

/// The status codes that the service answers with.
#[derive(Clone, Copy, Debug, PartialEq, Eq, Structural)]
pub enum StatusCode {
    /// 201: a short link was created, or an existing one was found again.
    Created,
    /// 301: the short code is known, the long URL is the new location.
    MovedPermanently,
    /// 400: the request did not hold a valid long URL.
    BadRequest,
    /// 404: no long URL has the requested short code.
    NotFound,
    /// 500: the service could not do its own part.
    InternalServerError,
}

impl StatusCode {
    /// The number of this status code.
    pub open spec fn number(self) -> int {
        match self {
            StatusCode::Created => 201,
            StatusCode::MovedPermanently => 301,
            StatusCode::BadRequest => 400,
            StatusCode::NotFound => 404,
            StatusCode::InternalServerError => 500,
        }
    }

    /// The number of this status code, as it is written on the wire.
    pub fn as_u16(&self) -> (n: u16)
        ensures
            n == self.number(),
    {
        match self {
            StatusCode::Created => 201,
            StatusCode::MovedPermanently => 301,
            StatusCode::BadRequest => 400,
            StatusCode::NotFound => 404,
            StatusCode::InternalServerError => 500,
        }
    }
}

/// Why an operation of the store failed.
#[derive(Clone, Copy, Debug, PartialEq, Eq, Structural)]
pub enum Error {
    /// The long URL is not an absolute URL with a host.
    InvalidUrl,
    /// No long URL has the requested short code.
    NotFound,
    /// Exclusive access to the store could not be had.
    LockFailure,
    /// The short URL made of the host address and the code is not a URL.
    ComposeFailure,
    /// Every candidate code that was tried belongs to another long URL.
    CodeUnavailable,
}

impl Error {
    /// The status code an error is reported with: the client's errors with
    /// their own codes, the service's with 500.
    pub open spec fn status_of(self) -> StatusCode {
        match self {
            Error::InvalidUrl => StatusCode::BadRequest,
            Error::NotFound => StatusCode::NotFound,
            Error::LockFailure => StatusCode::InternalServerError,
            Error::ComposeFailure => StatusCode::InternalServerError,
            Error::CodeUnavailable => StatusCode::InternalServerError,
        }
    }

    /// The status code this error is reported with.
    pub fn status(&self) -> (code: StatusCode)
        ensures
            code == self.status_of(),
    {
        match self {
            Error::InvalidUrl => StatusCode::BadRequest,
            Error::NotFound => StatusCode::NotFound,
            Error::LockFailure => StatusCode::InternalServerError,
            Error::ComposeFailure => StatusCode::InternalServerError,
            Error::CodeUnavailable => StatusCode::InternalServerError,
        }
    }
}

} // verus!
