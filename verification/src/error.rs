//! The errors of the client.

use crate::date::Date;
use vstd::prelude::*;

verus! {

/// Why the bank rejected a request, by the status code of its response.
#[derive(Debug, Clone, Copy, PartialEq, Eq, Structural)]
pub enum ApiError {
    /// Status 404.
    InvalidRequest,
    /// Status 409.
    TimeLimit,
    /// Status 413.
    TooManyItems,
    /// Status 422.
    Authorization,
    /// Status 500.
    InvalidToken,
    /// Any other status that is no success.
    UnexpectedStatus(u16),
}

/// Why an operation of the client failed.
#[derive(Debug, Clone)]
pub enum FioError {
    /// The access token has the wrong number of characters.
    InvalidTokenLength { expected: usize, actual: usize },
    /// The period starts after it ends.
    InvalidDateRange { start: Date, end: Date },
    /// A numeric parameter is out of range.
    InvalidParameter(&'static str),
    /// The transport failed; the text describes how. Set by whoever sends
    /// the requests: nothing in this library fails this way.
    Http(String),
    /// The response carried a status that was not expected. Set by whoever
    /// sends the requests: nothing in this library fails this way.
    Status(u16),
    /// The response is not of the expected form.
    InvalidResponse,
    /// The bank rejected the request.
    Api(ApiError),
}

} // verus!
