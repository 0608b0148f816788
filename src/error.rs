//! The closed set of failures a rerank request can end in, and how each one
//! becomes an HTTP status with a structured body.

use vstd::prelude::*;

verus! {

/// Why a request failed.
#[derive(Clone, Debug, PartialEq, Eq)]
pub enum ApiError {
    /// The client's input was rejected before any backend call.
    BadRequest(String),
    /// The request body could not be read as a rerank request.
    InvalidJson,
    /// No route matched the request.
    NotFound,
    /// The backend was unreachable, answered with an error, or answered with
    /// something that is not a valid reply.
    TeiError(String),
    /// A local failure, or a rejection of no known kind.
    InternalError(String),
}

/// A failed request as it goes back over HTTP: the status, a machine code
/// and a human-readable message.
#[derive(Debug, PartialEq, Eq)]
pub struct ErrorReply {
    pub status: u16,
    pub error: String,
    pub message: String,
}

/// The HTTP status of each kind of failure.
pub open spec fn status_of(e: ApiError) -> u16 {
    match e {
        ApiError::BadRequest(_) => 400,
        ApiError::InvalidJson => 400,
        ApiError::NotFound => 404,
        ApiError::TeiError(_) => 502,
        ApiError::InternalError(_) => 500,
    }
}

/// The machine code of each kind of failure.
pub open spec fn code_of(e: ApiError) -> Seq<char> {
    match e {
        ApiError::BadRequest(_) => "bad_request"@,
        ApiError::InvalidJson => "invalid_json"@,
        ApiError::NotFound => "not_found"@,
        ApiError::TeiError(_) => "tei_error"@,
        ApiError::InternalError(_) => "internal_error"@,
    }
}

/// The message of each failure: the one it carries, or a fixed one.
pub open spec fn message_of(e: ApiError) -> Seq<char> {
    match e {
        ApiError::BadRequest(m) => m@,
        ApiError::InvalidJson => "Invalid JSON in request body"@,
        ApiError::NotFound => "Not Found"@,
        ApiError::TeiError(m) => m@,
        ApiError::InternalError(m) => m@,
    }
}

/// The reply that a failure is sent back as.
pub fn error_reply(e: ApiError) -> (r: ErrorReply)
    ensures
        r.status == status_of(e),
        r.error@ == code_of(e),
        r.message@ == message_of(e),
{
    match e {
        ApiError::BadRequest(m) => ErrorReply {
            status: 400,
            error: String::from_str("bad_request"),
            message: m,
        },
        ApiError::InvalidJson => ErrorReply {
            status: 400,
            error: String::from_str("invalid_json"),
            message: String::from_str("Invalid JSON in request body"),
        },
        ApiError::NotFound => ErrorReply {
            status: 404,
            error: String::from_str("not_found"),
            message: String::from_str("Not Found"),
        },
        ApiError::TeiError(m) => ErrorReply {
            status: 502,
            error: String::from_str("tei_error"),
            message: m,
        },
        ApiError::InternalError(m) => ErrorReply {
            status: 500,
            error: String::from_str("internal_error"),
            message: m,
        },
    }
}

/// The failure that a rejected request stands for, from what the server
/// found out about the rejection: no route matched it; the rerank handler
/// failed with `handler_error`; the request body was not a valid rerank
/// request. The first that holds decides; a rejection with none of them is
/// an internal error.
pub fn classify_rejection(
    route_missing: bool,
    handler_error: Option<ApiError>,
    body_malformed: bool,
) -> (r: ApiError)
    ensures
        route_missing ==> r == ApiError::NotFound,
        !route_missing && handler_error.is_some() ==> r == handler_error.unwrap(),
        !route_missing && handler_error.is_none() && body_malformed ==> r == ApiError::InvalidJson,
        !route_missing && handler_error.is_none() && !body_malformed ==> (r matches ApiError::InternalError(m) && m@ == "Internal Server Error"@),
{
    if route_missing {
        ApiError::NotFound
    } else {
        match handler_error {
            Some(e) => e,
            None => {
                if body_malformed {
                    ApiError::InvalidJson
                } else {
                    ApiError::InternalError(String::from_str("Internal Server Error"))
                }
            },
        }
    }
}

} // verus!
