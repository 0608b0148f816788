use rerank_proxy::backend::{accept_scores, backend_body, finish_rerank, render_status, BackendOutcome};
use rerank_proxy::config::{ProxyConfig, BACKEND_TIMEOUT_SECS, DEFAULT_MAX_BATCH_SIZE, DEFAULT_PORT};
use rerank_proxy::error::{classify_rejection, error_reply, ApiError};
use rerank_proxy::model::{BackendScore, RankedResult, RerankRequest};
use rerank_proxy::rank::rank;
use rerank_proxy::request::{backend_url, prepare_rerank, to_tei_request, validate};
use rerank_proxy::score::{score_is_nan, score_order_key, score_ranks_above};
use rerank_proxy::text::{push_decimal, text_is_blank};

fn docs(items: &[&str]) -> Vec<String> {
    items.iter().map(|s| s.to_string()).collect()
}

fn scores(items: &[(usize, f64)]) -> Vec<BackendScore> {
    items
        .iter()
        .map(|&(index, score)| BackendScore { index, score_bits: score.to_bits() })
        .collect()
}

fn as_pairs(results: &[RankedResult]) -> Vec<(usize, f64)> {
    results
        .iter()
        .map(|r| (r.index, f64::from_bits(r.relevance_score_bits)))
        .collect()
}

fn request(query: &str, documents: &[&str]) -> RerankRequest {
    RerankRequest { query: query.to_string(), documents: docs(documents), model: None, top_n: Some(1) }
}

fn bad_request_message(r: Result<(), ApiError>) -> String {
    match r {
        Err(ApiError::BadRequest(m)) => m,
        other => panic!("expected a bad request, got {:?}", other),
    }
}

fn tei_message<T: std::fmt::Debug>(r: Result<T, ApiError>) -> String {
    match r {
        Err(ApiError::TeiError(m)) => m,
        other => panic!("expected a backend failure, got {:?}", other),
    }
}

#[test]
fn empty_query_is_bad_request() {
    let m = bad_request_message(validate("", &docs(&["a"]), 10));
    assert_eq!(m, "Query cannot be empty");
    let reply = error_reply(ApiError::BadRequest(m));
    assert_eq!(reply.status, 400);
    assert_eq!(reply.error, "bad_request");
}

#[test]
fn whitespace_query_is_bad_request() {
    let m = bad_request_message(validate(" \t\n\u{3000}\u{a0}", &docs(&["a"]), 10));
    assert_eq!(m, "Query cannot be empty");
}

#[test]
fn query_with_text_inside_white_space_passes() {
    assert!(validate("  dog  ", &docs(&["a"]), 10).is_ok());
}

#[test]
fn empty_documents_is_bad_request() {
    let m = bad_request_message(validate("dog", &Vec::new(), 10));
    assert_eq!(m, "Documents list cannot be empty");
    assert_eq!(error_reply(ApiError::BadRequest(m)).status, 400);
}

#[test]
fn too_many_documents_names_the_limit() {
    let m = bad_request_message(validate("dog", &docs(&["a", "b", "c"]), 2));
    assert_eq!(m, "Too many documents, max: 2");
    let many: Vec<String> = (0..1001).map(|i| format!("doc {}", i)).collect();
    let m = bad_request_message(validate("dog", &many, DEFAULT_MAX_BATCH_SIZE));
    assert_eq!(m, "Too many documents, max: 1000");
    let reply = error_reply(ApiError::BadRequest(m));
    assert_eq!(reply.status, 400);
    assert_eq!(reply.error, "bad_request");
}

#[test]
fn documents_at_the_limit_pass() {
    assert!(validate("dog", &docs(&["a", "b"]), 2).is_ok());
}

#[test]
fn blank_query_is_reported_before_empty_documents() {
    let m = bad_request_message(validate("   ", &Vec::new(), 0));
    assert_eq!(m, "Query cannot be empty");
}

#[test]
fn tei_request_keeps_query_and_order() {
    let req = request("which pet", &["a dog", "a cat", "a dog"]);
    let tei = to_tei_request(&req);
    assert_eq!(tei.query, "which pet");
    assert_eq!(tei.texts, vec!["a dog".to_string(), "a cat".to_string(), "a dog".to_string()]);
}

#[test]
fn backend_url_appends_rerank_path() {
    assert_eq!(backend_url("http://localhost:4000"), "http://localhost:4000/rerank");
}

#[test]
fn prepare_builds_the_backend_call() {
    let config = ProxyConfig::from_settings(Some("http://tei:9".to_string()), None, Some(5));
    let call = prepare_rerank(&request("q", &["x", "y"]), &config).ok().unwrap();
    assert_eq!(call.url, "http://tei:9/rerank");
    assert_eq!(call.request.query, "q");
    assert_eq!(call.request.texts, docs(&["x", "y"]));
}

#[test]
fn prepare_uses_the_configured_limit() {
    let config = ProxyConfig::from_settings(None, None, Some(1));
    match prepare_rerank(&request("q", &["x", "y"]), &config) {
        Err(ApiError::BadRequest(m)) => assert_eq!(m, "Too many documents, max: 1"),
        _ => panic!("expected a bad request"),
    }
}

#[test]
fn config_defaults() {
    let config = ProxyConfig::from_settings(None, None, None);
    assert_eq!(config.tei_endpoint, "http://localhost:4000");
    assert_eq!(config.port, 8000);
    assert_eq!(DEFAULT_PORT, 8000);
    assert_eq!(BACKEND_TIMEOUT_SECS, 30);
    assert_eq!(config.max_batch_size, 1000);
    let config = ProxyConfig::from_settings(None, Some(9100), None);
    assert_eq!(config.port, 9100);
}

#[test]
fn backend_error_status_is_tei_error() {
    let outcome = BackendOutcome::Replied { status: 500, body: Some("model crashed".to_string()) };
    let m = tei_message(backend_body(outcome));
    assert_eq!(m, "TEI service error 500 Internal Server Error: model crashed");
    let reply = error_reply(ApiError::TeiError(m));
    assert_eq!(reply.status, 502);
    assert_eq!(reply.error, "tei_error");
}

#[test]
fn backend_error_status_with_unreadable_body() {
    let outcome = BackendOutcome::Replied { status: 404, body: None };
    assert_eq!(tei_message(backend_body(outcome)), "TEI service error 404 Not Found: Unknown error");
}

#[test]
fn backend_error_status_without_reason_phrase() {
    let outcome = BackendOutcome::Replied { status: 599, body: Some("x".to_string()) };
    assert_eq!(tei_message(backend_body(outcome)), "TEI service error 599 <unknown status code>: x");
}

#[test]
fn informational_and_redirect_statuses_fail() {
    let m = tei_message(backend_body(BackendOutcome::Replied { status: 302, body: Some(String::new()) }));
    assert_eq!(m, "TEI service error 302 Found: ");
    let m = tei_message(backend_body(BackendOutcome::Replied { status: 199, body: None }));
    assert_eq!(m, "TEI service error 199 <unknown status code>: Unknown error");
}

#[test]
fn render_status_uses_given_reason() {
    assert_eq!(render_status(418, Some("I'm a teapot".to_string())), "418 I'm a teapot");
    assert_eq!(render_status(7, None), "7 <unknown status code>");
}

#[test]
fn success_status_hands_back_the_body() {
    for status in [200u16, 204, 299] {
        let outcome = BackendOutcome::Replied { status, body: Some("[]".to_string()) };
        assert_eq!(backend_body(outcome).ok().unwrap(), "[]");
    }
}

#[test]
fn unreadable_success_body_is_tei_error() {
    let outcome = BackendOutcome::Replied { status: 200, body: None };
    assert_eq!(tei_message(backend_body(outcome)), "Failed to read response from TEI service");
}

#[test]
fn transport_failure_is_tei_error() {
    let outcome = BackendOutcome::TransportFailed("connection refused".to_string());
    assert_eq!(tei_message(backend_body(outcome)), "Failed to connect to TEI service: connection refused");
}

#[test]
fn client_failure_is_internal_error() {
    match backend_body(BackendOutcome::ClientUnavailable) {
        Err(ApiError::InternalError(m)) => {
            assert_eq!(m, "HTTP client creation failed");
            let reply = error_reply(ApiError::InternalError(m));
            assert_eq!(reply.status, 500);
            assert_eq!(reply.error, "internal_error");
        }
        _ => panic!("expected an internal error"),
    }
}

#[test]
fn reply_length_mismatch_is_tei_error() {
    let body = "[{\"index\":0,\"score\":0.5}]";
    let m = tei_message(finish_rerank(body, Some(scores(&[(0, 0.5)])), 2));
    assert_eq!(m, "TEI response length doesn't match input documents");
    let m = tei_message(accept_scores(body, Some(scores(&[(0, 0.5), (1, 0.2), (2, 0.1)])), 2));
    assert_eq!(m, "TEI response length doesn't match input documents");
}

#[test]
fn malformed_reply_is_tei_error_with_body() {
    let m = tei_message(finish_rerank("{\"oops\":true}", None, 2));
    assert_eq!(
        m,
        "Invalid response format from TEI service. Expected array of scores, got: {\"oops\":true}"
    );
    assert_eq!(error_reply(ApiError::TeiError(m)).status, 502);
}

#[test]
fn index_mapping_fidelity() {
    let parsed = scores(&[(0, 0.1), (1, 0.9)]);
    let response = finish_rerank("", Some(parsed), 2).ok().unwrap();
    assert_eq!(as_pairs(&response.results), vec![(1, 0.9), (0, 0.1)]);
}

#[test]
fn ranking_is_complete_and_non_increasing() {
    let input = [(0, 0.3), (1, 0.9), (2, -1.0), (3, 0.0), (4, -0.5), (5, 7.25), (6, f64::NEG_INFINITY), (7, f64::INFINITY)];
    let response = finish_rerank("", Some(scores(&input)), input.len()).ok().unwrap();
    let pairs = as_pairs(&response.results);
    assert_eq!(pairs.len(), input.len());
    for w in pairs.windows(2) {
        assert!(w[0].1 >= w[1].1);
    }
    let mut indices: Vec<usize> = pairs.iter().map(|p| p.0).collect();
    indices.sort();
    assert_eq!(indices, (0..input.len()).collect::<Vec<usize>>());
    assert_eq!(pairs[0], (7, f64::INFINITY));
    assert_eq!(pairs[pairs.len() - 1], (6, f64::NEG_INFINITY));
}

#[test]
fn equal_scores_keep_backend_order() {
    let out = rank(&scores(&[(2, 0.5), (0, 0.7), (1, 0.5), (3, 0.0), (4, -0.0)]));
    assert_eq!(as_pairs(&out)[..3].to_vec(), vec![(0, 0.7), (2, 0.5), (1, 0.5)]);
    let tail: Vec<usize> = out[3..].iter().map(|r| r.index).collect();
    assert_eq!(tail, vec![3, 4]);
}

#[test]
fn ranking_keeps_every_entry_with_nan() {
    let out = rank(&scores(&[(0, 0.2), (1, f64::NAN), (2, 0.8)]));
    let mut indices: Vec<usize> = out.iter().map(|r| r.index).collect();
    indices.sort();
    assert_eq!(indices, vec![0, 1, 2]);
    assert!(out.iter().any(|r| f64::from_bits(r.relevance_score_bits).is_nan()));
}

#[test]
fn ranking_of_nothing_is_empty() {
    assert!(rank(&Vec::new()).is_empty());
}

#[test]
fn score_order_follows_numeric_order() {
    let values = [f64::NEG_INFINITY, -3.5, -1e-300, -0.0, 0.0, 5e-324, 1.0, 2.5, f64::MAX, f64::INFINITY];
    for (i, a) in values.iter().enumerate() {
        for (j, b) in values.iter().enumerate() {
            let ka = score_order_key(a.to_bits());
            let kb = score_order_key(b.to_bits());
            assert_eq!(ka < kb, a < b, "{} {} at {} {}", a, b, i, j);
            assert_eq!(score_ranks_above(a.to_bits(), b.to_bits()), a > b);
        }
    }
}

#[test]
fn nan_is_never_above_or_below() {
    let nan = f64::NAN.to_bits();
    assert!(score_is_nan(nan));
    assert!(score_is_nan((-f64::NAN).to_bits()));
    assert!(!score_is_nan(f64::INFINITY.to_bits()));
    assert!(!score_is_nan(1.5f64.to_bits()));
    assert!(!score_ranks_above(nan, 1.0f64.to_bits()));
    assert!(!score_ranks_above(1.0f64.to_bits(), nan));
}

#[test]
fn unmatched_route_is_not_found() {
    let e = classify_rejection(true, Some(ApiError::TeiError("x".to_string())), true);
    assert_eq!(e, ApiError::NotFound);
    let reply = error_reply(e);
    assert_eq!(reply.status, 404);
    assert_eq!(reply.error, "not_found");
    assert_eq!(reply.message, "Not Found");
}

#[test]
fn rejection_classification_order() {
    let e = classify_rejection(false, Some(ApiError::BadRequest("b".to_string())), true);
    assert_eq!(e, ApiError::BadRequest("b".to_string()));
    let e = classify_rejection(false, None, true);
    assert_eq!(e, ApiError::InvalidJson);
    let reply = error_reply(e);
    assert_eq!((reply.status, reply.error.as_str(), reply.message.as_str()), (400, "invalid_json", "Invalid JSON in request body"));
    let e = classify_rejection(false, None, false);
    let reply = error_reply(e);
    assert_eq!((reply.status, reply.error.as_str(), reply.message.as_str()), (500, "internal_error", "Internal Server Error"));
}

#[test]
fn decimal_rendering() {
    for (n, text) in [(0usize, "0"), (7, "7"), (10, "10"), (1000, "1000"), (90210, "90210")] {
        let mut s = String::from("n=");
        push_decimal(&mut s, n);
        assert_eq!(s, format!("n={}", text));
    }
    let mut s = String::new();
    push_decimal(&mut s, usize::MAX);
    assert_eq!(s, usize::MAX.to_string());
}

#[test]
fn blank_text_detection() {
    assert!(text_is_blank(""));
    assert!(text_is_blank("\u{2028}\u{205f}\u{85}\r"));
    assert!(!text_is_blank(" x "));
    assert!(!text_is_blank("\u{200b}"));
}
