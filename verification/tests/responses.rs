use lqip::error::PipelineError;
use lqip::response::{
    cache_control, error_response, not_found_response, placeholder_response, CacheStatus, Header,
    CACHE_TTL_SECS,
};

fn header(name: &[u8], value: &[u8]) -> Header {
    Header { name: name.to_vec(), value: value.to_vec() }
}

#[test]
fn ttl_is_one_year() {
    assert_eq!(CACHE_TTL_SECS, 365 * 24 * 60 * 60);
}

#[test]
fn cache_control_for_one_year() {
    assert_eq!(cache_control(CACHE_TTL_SECS), b"public, max-age=31536000, immutable".to_vec());
}

#[test]
fn cache_control_for_other_lifetimes() {
    assert_eq!(cache_control(0), b"public, max-age=0, immutable".to_vec());
    assert_eq!(cache_control(60), b"public, max-age=60, immutable".to_vec());
}

#[test]
fn placeholder_response_on_miss() {
    let resp = placeholder_response(vec![1, 2, 3], CacheStatus::Miss);
    assert_eq!(resp.status, 200);
    assert_eq!(resp.body, vec![1, 2, 3]);
    assert_eq!(
        resp.headers,
        vec![
            header(b"Content-Type", b"application/octet-stream"),
            header(b"Cache-Control", b"public, max-age=31536000, immutable"),
            header(b"X-Cache", b"MISS"),
        ]
    );
}

#[test]
fn placeholder_response_on_hit() {
    let resp = placeholder_response(vec![9; 25], CacheStatus::Hit);
    assert_eq!(resp.status, 200);
    assert_eq!(resp.body, vec![9; 25]);
    assert_eq!(resp.headers.len(), 3);
    assert_eq!(resp.headers[2], header(b"X-Cache", b"HIT"));
}

#[test]
fn error_responses_are_server_errors() {
    let cases = [
        (PipelineError::UpstreamUnavailable, "upstream unavailable"),
        (PipelineError::DecodeError, "image could not be decoded"),
        (PipelineError::EncodingError, "placeholder could not be encoded"),
        (PipelineError::CacheError, "cache operation failed"),
    ];
    for (error, text) in cases {
        let resp = error_response(error);
        assert_eq!(resp.status, 500);
        assert!(resp.headers.is_empty());
        assert_eq!(resp.body, text.as_bytes().to_vec());
        assert_eq!(error.describe(), text);
    }
}

#[test]
fn not_found_is_404() {
    let resp = not_found_response();
    assert_eq!(resp.status, 404);
    assert!(resp.headers.is_empty());
    assert!(resp.body.is_empty());
}

#[test]
fn only_cache_errors_are_not_fatal() {
    assert!(PipelineError::UpstreamUnavailable.fatal());
    assert!(PipelineError::DecodeError.fatal());
    assert!(PipelineError::EncodingError.fatal());
    assert!(!PipelineError::CacheError.fatal());
}
