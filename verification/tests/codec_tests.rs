//! Content negotiation and the compression codec.

use hyper_fast::codec::{decode_body, encode_body};
use hyper_fast::encoding::{Encoding, negotiate_accept_encoding};
use hyper_fast::error::ApiError;
use hyper_fast::http_request::HttpRequest;
use hyper_fast::http_response::HttpResponse;
use hyper_fast::http_route::HttpRoute;

fn route_with_headers(
    content_encoding: Option<&str>,
    accept_encoding: Option<&str>,
) -> HttpRoute {
    HttpRoute::new(
        b"POST".to_vec(),
        b"/api/test".to_vec(),
        None,
        content_encoding.map(|s| s.as_bytes().to_vec()),
        accept_encoding.map(|s| s.as_bytes().to_vec()),
        b"127.0.0.1:1".to_vec(),
        0,
    )
}

#[test]
fn negotiation_prefers_brotli_over_header_order() {
    // priority order, not header order
    let r = negotiate_accept_encoding(&b"deflate, gzip, br".to_vec());
    assert_eq!(r, Some(Encoding::Brotli));
}

#[test]
fn negotiation_is_a_substring_scan() {
    // a client sending a zero quality value is still treated as accepting
    let r = negotiate_accept_encoding(&b"gzip;q=0".to_vec());
    assert_eq!(r, Some(Encoding::Gzip));
}

#[test]
fn negotiation_lower_cases_the_header() {
    let r = negotiate_accept_encoding(&b"GZIP".to_vec());
    assert_eq!(r, Some(Encoding::Gzip));
}

#[test]
fn negotiation_yields_nothing_for_unsupported_codings() {
    assert_eq!(negotiate_accept_encoding(&b"identity".to_vec()), None);
    assert_eq!(negotiate_accept_encoding(&b"".to_vec()), None);
}

#[test]
fn negotiation_falls_back_through_the_priority_order() {
    assert_eq!(negotiate_accept_encoding(&b"deflate, gzip".to_vec()), Some(Encoding::Gzip));
    assert_eq!(negotiate_accept_encoding(&b"deflate".to_vec()), Some(Encoding::Deflate));
}

#[test]
fn round_trip_gzip() {
    let body = b"hello world, hello world, hello world".to_vec();
    let encoded = encode_body(Encoding::Gzip, &body);
    assert_ne!(encoded, body);
    assert_eq!(decode_body(Encoding::Gzip, &encoded), Some(body));
}

#[test]
fn round_trip_brotli() {
    let body = b"hello world, hello world, hello world".to_vec();
    let encoded = encode_body(Encoding::Brotli, &body);
    assert_ne!(encoded, body);
    assert_eq!(decode_body(Encoding::Brotli, &encoded), Some(body));
}

#[test]
fn round_trip_deflate() {
    let body = b"hello world, hello world, hello world".to_vec();
    let encoded = encode_body(Encoding::Deflate, &body);
    assert_ne!(encoded, body);
    assert_eq!(decode_body(Encoding::Deflate, &encoded), Some(body));
}

#[test]
fn round_trip_empty_body() {
    for enc in [Encoding::Brotli, Encoding::Gzip, Encoding::Deflate] {
        let body: Vec<u8> = Vec::new();
        let encoded = encode_body(enc, &body);
        assert_eq!(decode_body(enc, &encoded), Some(body));
    }
}

#[test]
fn request_bytes_decodes_a_declared_coding() {
    let body = b"{\"k\":\"v\"}".to_vec();
    let compressed = encode_body(Encoding::Gzip, &body);
    let r = route_with_headers(Some("gzip"), None);
    assert_eq!(HttpRequest::bytes(&r, compressed).unwrap(), body);
}

#[test]
fn request_bytes_lower_cases_the_declared_coding() {
    let body = b"payload".to_vec();
    let compressed = encode_body(Encoding::Brotli, &body);
    let r = route_with_headers(Some("BR"), None);
    assert_eq!(HttpRequest::bytes(&r, compressed).unwrap(), body);
}

#[test]
fn request_bytes_passes_through_without_a_declared_coding() {
    let body = b"raw bytes".to_vec();
    let r = route_with_headers(None, None);
    assert_eq!(HttpRequest::bytes(&r, body.clone()).unwrap(), body);
}

#[test]
fn request_bytes_passes_through_an_unrecognised_coding() {
    let body = b"raw bytes".to_vec();
    let r = route_with_headers(Some("zstd"), None);
    assert_eq!(HttpRequest::bytes(&r, body.clone()).unwrap(), body);
}

#[test]
fn request_bytes_rejects_a_malformed_body() {
    let r = route_with_headers(Some("gzip"), None);
    match HttpRequest::bytes(&r, b"not gzip data".to_vec()) {
        Err(ApiError::BadRequest(m)) => {
            assert_eq!(m, b"Error in aggregating body".to_vec());
        }
        _ => panic!("expected the bad-request failure"),
    }
}

#[test]
fn responses_compress_per_the_negotiated_coding() {
    let r = route_with_headers(None, Some("br"));
    assert_eq!(r.accept_encoding, Some(Encoding::Brotli));
    let resp = HttpResponse::ok(&r, b"a body worth compressing".to_vec()).unwrap();
    assert_eq!(resp.content_encoding, Some(Encoding::Brotli));
    assert_eq!(
        decode_body(Encoding::Brotli, &resp.body),
        Some(b"a body worth compressing".to_vec())
    );
}

#[test]
fn responses_pass_through_without_a_negotiated_coding() {
    let r = route_with_headers(None, None);
    let resp = HttpResponse::ok(&r, b"plain".to_vec()).unwrap();
    assert_eq!(resp.content_encoding, None);
    assert_eq!(resp.body, b"plain".to_vec());
}
