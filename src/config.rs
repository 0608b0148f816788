//! The proxy's settings, fixed once at start-up and handed to each request.

use vstd::prelude::*;

verus! {

/// The largest number of documents a request may carry unless configured.
pub const DEFAULT_MAX_BATCH_SIZE: usize = 1000;

/// The port the proxy listens on unless configured.
pub const DEFAULT_PORT: u16 = 8000;

/// How long, in seconds, the one call to the backend may take.
pub const BACKEND_TIMEOUT_SECS: u64 = 30;

/// Where the scoring backend is reached unless configured.
pub open spec fn default_endpoint() -> Seq<char> {
    "http://localhost:4000"@
}

/// The settings every request is handled with.
pub struct ProxyConfig {
    /// Base URL of the scoring backend, without the `/rerank` path.
    pub tei_endpoint: String,
    /// Port to listen on.
    pub port: u16,
    /// Most documents one request may carry.
    pub max_batch_size: usize,
}

impl ProxyConfig {
    /// Settings from what was configured, each missing one at its default.
    pub fn from_settings(
        tei_endpoint: Option<String>,
        port: Option<u16>,
        max_batch_size: Option<usize>,
    ) -> (r: ProxyConfig)
        ensures
            r.tei_endpoint@ == (match tei_endpoint {
                Some(e) => e@,
                None => default_endpoint(),
            }),
            r.port == (match port {
                Some(p) => p,
                None => DEFAULT_PORT,
            }),
            r.max_batch_size == (match max_batch_size {
                Some(m) => m,
                None => DEFAULT_MAX_BATCH_SIZE,
            }),
    {
        let tei_endpoint = match tei_endpoint {
            Some(e) => e,
            None => String::from_str("http://localhost:4000"),
        };
        let port = match port {
            Some(p) => p,
            None => DEFAULT_PORT,
        };
        let max_batch_size = match max_batch_size {
            Some(m) => m,
            None => DEFAULT_MAX_BATCH_SIZE,
        };
        ProxyConfig { tei_endpoint, port, max_batch_size }
    }
}

} // verus!
