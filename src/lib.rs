//! A rerank proxy: validates a rerank request, turns it into the scoring
//! backend's wire shape, checks the backend's reply, orders the scored entries
//! by descending relevance and maps every failure to a structured error reply.
//!
//! Relevance scores are carried as the raw IEEE-754 binary64 bit patterns the
//! backend produced; the ordering on them is modelled in `score`.

pub mod score;
pub mod model;
pub mod rank;
pub mod text;
pub mod error;
pub mod config;
pub mod request;
pub mod backend;
