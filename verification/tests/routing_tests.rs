//! Routing, rotation and dispatch behaviour through the public API.

use hyper_fast::dispatch::{RouteDecision, decide_route, finish_request, handle_builtin, index};
use hyper_fast::error::ApiError;
use hyper_fast::health_check::ServerFlags;
use hyper_fast::http_response::{HttpResponse, HttpResult};
use hyper_fast::http_route::HttpRoute;
use hyper_fast::metrics_logger::MetricsLogger;

fn route(method: &str, path: &str) -> HttpRoute {
    HttpRoute::new(
        method.as_bytes().to_vec(),
        path.as_bytes().to_vec(),
        None,
        None,
        None,
        b"127.0.0.1:1234".to_vec(),
        0,
    )
}

fn unwrap_response(r: Option<HttpResult>) -> HttpResponse {
    r.expect("expected a built-in response").expect("expected a successful build")
}

#[test]
fn segments_split_on_slashes_dropping_empties() {
    let r = route("GET", "/a//b/");
    let segs: Vec<&[u8]> = r.segments.iter().map(|s| s.as_slice()).collect();
    assert_eq!(segs, vec![b"a".as_slice(), b"b".as_slice()]);
}

#[test]
fn empty_path_has_no_segments() {
    let r = route("GET", "/");
    assert_eq!(r.segments.len(), 0);
}

#[test]
fn index_route_greets() {
    let r = route("GET", "/");
    let mut flags = ServerFlags::new();
    let logger = MetricsLogger::new();
    let d = decide_route(&r);
    assert!(matches!(d, RouteDecision::Index));
    let resp = unwrap_response(handle_builtin(&r, d, &mut flags, &logger));
    assert_eq!(resp.status, 200);
    assert_eq!(resp.body, b"Hello, World!".to_vec());
}

#[test]
fn unmatched_route_names_the_literal_path() {
    let r = route("GET", "/nope/nope");
    let mut flags = ServerFlags::new();
    let logger = MetricsLogger::new();
    let d = decide_route(&r);
    assert!(matches!(d, RouteDecision::NotFound));
    let resp = unwrap_response(handle_builtin(&r, d, &mut flags, &logger));
    assert_eq!(resp.status, 404);
    assert_eq!(resp.body, b"Not found: /nope/nope".to_vec());
}

#[test]
fn post_to_root_is_unmatched() {
    let r = route("POST", "/");
    assert!(matches!(decide_route(&r), RouteDecision::NotFound));
}

#[test]
fn api_route_delegates_with_remaining_segments() {
    let r = route("GET", "/api/test");
    let mut flags = ServerFlags::new();
    let logger = MetricsLogger::new();
    let d = decide_route(&r);
    let rest = match &d {
        RouteDecision::Api { rest } => rest.clone(),
        other => panic!("expected delegation, got {:?}", matches!(other, RouteDecision::NotFound)),
    };
    assert_eq!(rest.len(), 1);
    assert_eq!(rest[0], b"test".to_vec());
    assert!(handle_builtin(&r, d, &mut flags, &logger).is_none());
}

#[test]
fn delegated_response_passes_through_byte_for_byte() {
    // a registered application handler exposing `test` answers with a
    // declared body; the dispatcher must hand it back unchanged
    let r = route("GET", "/api/test");
    let mut logger = MetricsLogger::new();
    let declared = b"the handler's declared response".to_vec();
    let handler_outcome: HttpResult = HttpResponse::ok(&r, declared.clone());
    let finished = finish_request(&r, handler_outcome, &mut logger, 3, false)
        .expect("finishing succeeds");
    assert_eq!(finished.status, 200);
    assert_eq!(finished.body, declared);
}

#[test]
fn rotation_toggling_round_trip() {
    // starting out of rotation: health fails; one toggle: health
    // succeeds; a second toggle reverts it
    let mut flags = ServerFlags::new();
    let logger = MetricsLogger::new();

    let health = route("GET", "/health");
    let d = decide_route(&health);
    assert!(matches!(d, RouteDecision::Health));
    let resp = unwrap_response(handle_builtin(&health, d, &mut flags, &logger));
    assert_eq!(resp.status, 500);
    assert!(String::from_utf8(resp.body.clone()).unwrap().contains("NOK"));

    let oor = route("POST", "/oor");
    let d = decide_route(&oor);
    assert!(matches!(d, RouteDecision::Oor));
    let resp = unwrap_response(handle_builtin(&oor, d, &mut flags, &logger));
    assert_eq!(resp.status, 200);
    assert_eq!(resp.body, b"OK".to_vec());

    let d = decide_route(&health);
    let resp = unwrap_response(handle_builtin(&health, d, &mut flags, &logger));
    assert_eq!(resp.status, 200);
    assert_eq!(resp.body, b"OK".to_vec());

    let d = decide_route(&oor);
    let resp = unwrap_response(handle_builtin(&oor, d, &mut flags, &logger));
    assert_eq!(resp.status, 500);

    let d = decide_route(&health);
    let resp = unwrap_response(handle_builtin(&health, d, &mut flags, &logger));
    assert_eq!(resp.status, 500);
}

#[test]
fn oor_under_other_method_is_unmatched_and_keeps_state() {
    let mut flags = ServerFlags::new();
    let logger = MetricsLogger::new();
    let r = route("PUT", "/oor");
    let d = decide_route(&r);
    let resp = unwrap_response(handle_builtin(&r, d, &mut flags, &logger));
    assert_eq!(resp.status, 404);
    assert_eq!(resp.body, b"Not found: /oor".to_vec());
    assert!(!flags.in_rotation);
}

#[test]
fn health_under_post_is_unmatched() {
    let r = route("POST", "/health");
    assert!(matches!(decide_route(&r), RouteDecision::NotFound));
}

#[test]
fn begin_shutdown_forces_out_of_rotation() {
    let mut flags = ServerFlags::new();
    flags.toggle_rotation();
    assert!(flags.in_rotation);
    flags.begin_shutdown();
    assert!(flags.shutdown);
    assert!(!flags.in_rotation);
}

#[test]
fn finish_request_stamps_elapsed_time_on_success() {
    let r = route("GET", "/");
    let mut logger = MetricsLogger::new();
    let outcome = index(&r);
    let resp = finish_request(&r, outcome, &mut logger, 42, true).unwrap();
    assert_eq!(resp.time_taken_ms, Some(42));
    assert_eq!(logger.len(), 1);
}

#[test]
fn finish_request_converts_typed_failures() {
    let r = route("GET", "/x");
    let mut logger = MetricsLogger::new();
    let outcome: HttpResult = Err(ApiError::Forbidden(b"no entry".to_vec()));
    let resp = finish_request(&r, outcome, &mut logger, 1, false).unwrap();
    assert_eq!(resp.status, 403);
    assert_eq!(resp.body, b"Forbidden: no entry".to_vec());
    // the failure is still instrumented, under its response status
    assert_eq!(logger.len(), 1);
    assert_eq!(logger.registry.metrics[0].code, 403);
}

#[test]
fn metrics_routes_dispatch_to_the_exports() {
    let mut flags = ServerFlags::new();
    let logger = MetricsLogger::new();

    let r = route("GET", "/metrics/json");
    let d = decide_route(&r);
    assert!(matches!(d, RouteDecision::Metrics { .. }));
    let resp = unwrap_response(handle_builtin(&r, d, &mut flags, &logger));
    assert_eq!(resp.status, 200);
    assert_eq!(resp.content_type, Some(b"application/json".to_vec()));
    assert_eq!(resp.body, b"[]".to_vec());

    let r = route("GET", "/metrics/prometheus");
    let d = decide_route(&r);
    let resp = unwrap_response(handle_builtin(&r, d, &mut flags, &logger));
    assert_eq!(resp.status, 200);

    let r = route("GET", "/metrics/nope");
    let d = decide_route(&r);
    let resp = unwrap_response(handle_builtin(&r, d, &mut flags, &logger));
    assert_eq!(resp.status, 404);
    assert_eq!(resp.body, b"Not found: /metrics/nope".to_vec());

    let r = route("POST", "/metrics/json");
    let d = decide_route(&r);
    let resp = unwrap_response(handle_builtin(&r, d, &mut flags, &logger));
    assert_eq!(resp.status, 404);
}
