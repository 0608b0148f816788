//! Checking a rerank request and turning it into the backend's request.

use vstd::prelude::*;
use crate::config::ProxyConfig;
use crate::error::ApiError;
use crate::model::{RerankRequest, TeiRequest};
use crate::text::{decimal, is_blank, push_decimal, text_is_blank};

verus! {

/// Why a request with this query and this many documents is refused, when
/// at most `max_batch_size` documents are allowed; `None` when it is not.
pub open spec fn rejection(query: Seq<char>, n_documents: nat, max_batch_size: nat) -> Option<
    Seq<char>,
> {
    if is_blank(query) {
        Some("Query cannot be empty"@)
    } else if n_documents == 0 {
        Some("Documents list cannot be empty"@)
    } else if n_documents > max_batch_size {
        Some("Too many documents, max: "@ + decimal(max_batch_size))
    } else {
        None
    }
}

/// Checks a request before anything is sent: the query must hold more than
/// white space, and there must be between one and `max_batch_size`
/// documents. Nothing else is constrained.
pub fn validate(query: &str, documents: &Vec<String>, max_batch_size: usize) -> (r: Result<
    (),
    ApiError,
>)
    ensures
        match rejection(query@, documents@.len(), max_batch_size as nat) {
            None => r is Ok,
            Some(m) => r matches Err(ApiError::BadRequest(e)) && e@ == m,
        },
{
    if text_is_blank(query) {
        return Err(ApiError::BadRequest(String::from_str("Query cannot be empty")));
    }
    if documents.len() == 0 {
        return Err(ApiError::BadRequest(String::from_str("Documents list cannot be empty")));
    }
    if documents.len() > max_batch_size {
        let mut m = String::from_str("Too many documents, max: ");
        push_decimal(&mut m, max_batch_size);
        return Err(ApiError::BadRequest(m));
    }
    Ok(())
}

/// The backend's request for a rerank request: the query as it is, and each
/// document as a text, in the same order.
pub fn to_tei_request(req: &RerankRequest) -> (r: TeiRequest)
    ensures
        r.query == req.query,
        r.texts@ == req.documents@,
{
    let mut texts: Vec<String> = Vec::new();
    let mut i: usize = 0;
    while i < req.documents.len()
        invariant
            i <= req.documents@.len(),
            texts@ == req.documents@.subrange(0, i as int),
        decreases req.documents@.len() - i,
    {
        texts.push(req.documents[i].clone());
        assert(req.documents@.subrange(0, i as int + 1) == req.documents@.subrange(0, i as int).push(req.documents@[i as int]));
        i = i + 1;
    }
    assert(req.documents@.subrange(0, req.documents@.len() as int) == req.documents@);
    TeiRequest { query: req.query.clone(), texts }
}

/// The backend's rerank address under its base URL.
pub fn backend_url(endpoint: &str) -> (r: String)
    ensures
        r@ == endpoint@ + "/rerank"@,
{
    let mut url = String::from_str(endpoint);
    url.append("/rerank");
    url
}

/// What the backend is to be sent for an accepted request.
pub struct BackendCall {
    /// Where the request is posted.
    pub url: String,
    /// The request body, in the backend's shape.
    pub request: TeiRequest,
}

/// Checks a request against the settings and, if it is accepted, says what
/// to send the backend and where.
pub fn prepare_rerank(req: &RerankRequest, config: &ProxyConfig) -> (r: Result<BackendCall, ApiError>)
    ensures
        match rejection(req.query@, req.documents@.len(), config.max_batch_size as nat) {
            None => r matches Ok(call) && call.url@ == config.tei_endpoint@ + "/rerank"@
                && call.request.query == req.query && call.request.texts@ == req.documents@,
            Some(m) => r matches Err(ApiError::BadRequest(e)) && e@ == m,
        },
{
    match validate(req.query.as_str(), &req.documents, config.max_batch_size) {
        Err(e) => Err(e),
        Ok(()) => {
            let url = backend_url(config.tei_endpoint.as_str());
            Ok(BackendCall { url, request: to_tei_request(req) })
        },
    }
}

} // verus!
