//! Reading the backend's answer: the outcome of the HTTP exchange, then the
//! scored entries parsed from its body, then the ranked reply.

use vstd::prelude::*;
use crate::error::ApiError;
use crate::model::{BackendScore, RerankResponse};
use crate::rank::{is_ranking, rank};
use crate::text::{decimal, push_decimal};

verus! {

/// What the single POST to the backend came to.
pub enum BackendOutcome {
    /// No HTTP client could be set up.
    ClientUnavailable,
    /// The request did not get an answer; the transport error's text.
    TransportFailed(String),
    /// An answer came: its status code, and its body, or `None` when the body
    /// could not be read.
    Replied { status: u16, body: Option<String> },
}

/// The standard reason phrase that the HTTP library knows for a status
/// code, if it knows one.
pub uninterp spec fn reason_phrase(code: u16) -> Option<Seq<char>>;

/// Relies on `StatusCode::from_u16` and `StatusCode::canonical_reason` of
/// the `http` crate, as re-exported by reqwest: a code outside 100..=999 is
/// no status code, and otherwise the phrase is looked up in a fixed table.
#[verifier::external_body]
fn canonical_reason(code: u16) -> (r: Option<String>)
    ensures
        r matches Some(t) ==> reason_phrase(code) == Some(t@),
        r is None ==> reason_phrase(code) is None,
        code < 100 || code >= 1000 ==> r is None,
{
    reqwest::StatusCode::from_u16(code).ok().and_then(|s| s.canonical_reason()).map(
        |t| t.to_string(),
    )
}

/// The status code with its reason phrase, or with a placeholder where no
/// phrase is known.
pub open spec fn status_line(code: u16, reason: Option<Seq<char>>) -> Seq<char> {
    decimal(code as nat) + " "@ + match reason {
        Some(t) => t,
        None => "<unknown status code>"@,
    }
}

/// Renders a status code with the reason phrase found for it.
pub fn render_status(code: u16, reason: Option<String>) -> (r: String)
    ensures
        r@ == status_line(
            code,
            match reason {
                Some(t) => Some(t@),
                None => None,
            },
        ),
{
    let mut line = String::new();
    push_decimal(&mut line, code as usize);
    line.append(" ");
    match reason {
        Some(t) => line.append(t.as_str()),
        None => line.append("<unknown status code>"),
    }
    line
}

/// A status code in 200..=299.
pub open spec fn is_success(code: u16) -> bool {
    200 <= code && code <= 299
}

/// The failure message for a backend answer with an error status.
pub open spec fn status_failure(code: u16, body: Option<Seq<char>>) -> Seq<char> {
    "TEI service error "@ + status_line(code, reason_phrase(code)) + ": "@ + match body {
        Some(b) => b,
        None => "Unknown error"@,
    }
}

/// The body of a successful backend answer, or the failure that the outcome
/// of the exchange stands for.
pub fn backend_body(outcome: BackendOutcome) -> (r: Result<String, ApiError>)
    ensures
        match outcome {
            BackendOutcome::ClientUnavailable => r matches Err(ApiError::InternalError(m))
                && m@ == "HTTP client creation failed"@,
            BackendOutcome::TransportFailed(d) => r matches Err(ApiError::TeiError(m)) && m@
                == "Failed to connect to TEI service: "@ + d@,
            BackendOutcome::Replied { status, body } => if !is_success(status) {
                r matches Err(ApiError::TeiError(m)) && m@ == status_failure(
                    status,
                    match body {
                        Some(b) => Some(b@),
                        None => None,
                    },
                )
            } else {
                match body {
                    Some(b) => r == Ok::<String, ApiError>(b),
                    None => r matches Err(ApiError::TeiError(m)) && m@
                        == "Failed to read response from TEI service"@,
                }
            },
        },
{
    match outcome {
        BackendOutcome::ClientUnavailable => Err(
            ApiError::InternalError(String::from_str("HTTP client creation failed")),
        ),
        BackendOutcome::TransportFailed(d) => {
            let mut m = String::from_str("Failed to connect to TEI service: ");
            m.append(d.as_str());
            Err(ApiError::TeiError(m))
        },
        BackendOutcome::Replied { status, body } => {
            if status < 200 || status > 299 {
                let line = render_status(status, canonical_reason(status));
                let mut m = String::from_str("TEI service error ");
                m.append(line.as_str());
                m.append(": ");
                match body {
                    Some(b) => m.append(b.as_str()),
                    None => m.append("Unknown error"),
                }
                Err(ApiError::TeiError(m))
            } else {
                match body {
                    Some(b) => Ok(b),
                    None => Err(
                        ApiError::TeiError(
                            String::from_str("Failed to read response from TEI service"),
                        ),
                    ),
                }
            }
        },
    }
}

/// The failure message for a body that is not an array of scored entries.
pub open spec fn malformed_reply(body: Seq<char>) -> Seq<char> {
    "Invalid response format from TEI service. Expected array of scores, got: "@ + body
}

/// Checks the entries parsed from the backend's body (`None` when the body
/// is not a JSON array of `{index, score}` objects) against the number of
/// documents sent.
pub fn accept_scores(body: &str, parsed: Option<Vec<BackendScore>>, expected: usize) -> (r: Result<
    Vec<BackendScore>,
    ApiError,
>)
    ensures
        match parsed {
            None => r matches Err(ApiError::TeiError(m)) && m@ == malformed_reply(body@),
            Some(v) => if v@.len() != expected {
                r matches Err(ApiError::TeiError(m)) && m@
                    == "TEI response length doesn't match input documents"@
            } else {
                r == Ok::<Vec<BackendScore>, ApiError>(v)
            },
        },
{
    match parsed {
        None => {
            let mut m = String::from_str(
                "Invalid response format from TEI service. Expected array of scores, got: ",
            );
            m.append(body);
            Err(ApiError::TeiError(m))
        },
        Some(v) => {
            if v.len() != expected {
                Err(
                    ApiError::TeiError(
                        String::from_str("TEI response length doesn't match input documents"),
                    ),
                )
            } else {
                Ok(v)
            }
        },
    }
}

/// The reply to the front end, from the backend's body and the entries
/// parsed from it, for a request of `expected` documents: the entries ranked
/// by descending score when there is one per document.
pub fn finish_rerank(body: &str, parsed: Option<Vec<BackendScore>>, expected: usize) -> (r: Result<
    RerankResponse,
    ApiError,
>)
    ensures
        match parsed {
            None => r matches Err(ApiError::TeiError(m)) && m@ == malformed_reply(body@),
            Some(v) => if v@.len() != expected {
                r matches Err(ApiError::TeiError(m)) && m@
                    == "TEI response length doesn't match input documents"@
            } else {
                r matches Ok(resp) && is_ranking(resp.results@, v@)
            },
        },
{
    match accept_scores(body, parsed, expected) {
        Err(e) => Err(e),
        Ok(v) => Ok(RerankResponse { results: rank(&v) }),
    }
}

} // verus!
