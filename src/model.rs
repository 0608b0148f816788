//! The request and reply shapes of both sides of the proxy.

use vstd::prelude::*;

verus! {

/// A rerank request as the chat front end sends it. `model` and `top_n` are
/// accepted and carried, but no step of the pipeline reads them.
#[derive(Debug)]
pub struct RerankRequest {
    pub query: String,
    pub documents: Vec<String>,
    pub model: Option<String>,
    pub top_n: Option<usize>,
}

/// The request in the scoring backend's shape: the query, and the documents
/// as texts in the order the request gave them, which is what links each
/// text to its index.
#[derive(Debug)]
pub struct TeiRequest {
    pub query: String,
    pub texts: Vec<String>,
}

/// One scored entry of the backend's reply: a position in the submitted
/// texts and the relevance score as a binary64 bit pattern.
#[derive(Clone, Copy, Debug, PartialEq, Eq)]
pub struct BackendScore {
    pub index: usize,
    pub score_bits: u64,
}

/// One entry of the ranked reply.
#[derive(Clone, Copy, Debug, PartialEq, Eq)]
pub struct RankedResult {
    pub index: usize,
    pub relevance_score_bits: u64,
}

/// The reply to the front end: the ranked entries, most relevant first.
#[derive(Debug)]
pub struct RerankResponse {
    pub results: Vec<RankedResult>,
}

/// The ranked entry that a backend entry becomes: same index, same score.
pub open spec fn ranked_from(s: BackendScore) -> RankedResult {
    RankedResult { index: s.index, relevance_score_bits: s.score_bits }
}

/// Every backend entry turned into a ranked entry, in the same order.
pub open spec fn ranked_all(s: Seq<BackendScore>) -> Seq<RankedResult> {
    s.map_values(|e: BackendScore| ranked_from(e))
}

} // verus!
