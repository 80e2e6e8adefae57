//! Response builders, the error taxonomy's total mapping, settings
//! defaults and the small process-wide helpers.

use hyper_fast::commons::{ServerInfo, get_hostname};
use hyper_fast::error::ApiError;
use hyper_fast::http_response::HttpResponse;
use hyper_fast::http_route::HttpRoute;
use hyper_fast::metrics::{Counter, CounterIncrementer};
use hyper_fast::settings::{Settings, http_workers, json_payload_limit};

fn route(method: &str, path: &str) -> HttpRoute {
    HttpRoute::new(
        method.as_bytes().to_vec(),
        path.as_bytes().to_vec(),
        None,
        None,
        None,
        b"127.0.0.1:1".to_vec(),
        0,
    )
}

#[test]
fn each_error_variant_maps_to_its_one_response() {
    let cases: Vec<(ApiError, u16, &str)> = vec![
        (
            ApiError::InternalServerError(b"boom".to_vec()),
            500,
            "Error in serving request ==> boom",
        ),
        (ApiError::NotFound(b"/missing".to_vec()), 404, "Not found: /missing"),
        (ApiError::Forbidden(b"keep out".to_vec()), 403, "Forbidden: keep out"),
        (ApiError::BadRequest(b"bad json".to_vec()), 400, "Bad Request: bad json"),
        (ApiError::NoContent(b"empty".to_vec()), 204, "No Content: empty"),
    ];
    for (err, status, body) in cases {
        let resp = err.into_response();
        assert_eq!(resp.status, status);
        assert_eq!(resp.body, body.as_bytes().to_vec());
        assert_eq!(resp.content_type, None);
        assert_eq!(resp.content_encoding, None);
    }
}

#[test]
fn builder_responses_carry_status_and_body() {
    let resp = HttpResponse::not_found(&b"/q".to_vec()).unwrap();
    assert_eq!(resp.status, 404);
    assert_eq!(resp.body, b"Not found: /q".to_vec());

    let resp = HttpResponse::bad_request(&b"oops".to_vec()).unwrap();
    assert_eq!(resp.status, 400);
    assert_eq!(resp.body, b"Bad Request: oops".to_vec());

    let resp = HttpResponse::no_content(&b"nothing".to_vec()).unwrap();
    assert_eq!(resp.status, 204);

    let resp = HttpResponse::forbidden(&b"nope".to_vec()).unwrap();
    assert_eq!(resp.status, 403);

    let resp = HttpResponse::internal_server_error(&b"bang".to_vec()).unwrap();
    assert_eq!(resp.status, 500);
    assert_eq!(resp.body, b"Error in serving request ==> bang".to_vec());
}

#[test]
fn json_builders_set_the_content_type() {
    let r = route("GET", "/");
    let resp = HttpResponse::json(&r, b"{}".to_vec()).unwrap();
    assert_eq!(resp.status, 200);
    assert_eq!(resp.content_type, Some(b"application/json".to_vec()));
    assert_eq!(resp.body, b"{}".to_vec());

    let resp = HttpResponse::from_vec(&r, b"[1]".to_vec()).unwrap();
    assert_eq!(resp.content_type, Some(b"application/json".to_vec()));

    let resp = HttpResponse::binary_or_json(&r, b"[2]".to_vec()).unwrap();
    assert_eq!(resp.content_type, Some(b"application/json".to_vec()));

    let resp = HttpResponse::proto_binary(&r, vec![1, 2, 3]).unwrap();
    assert_eq!(resp.content_type, Some(b"proto/bytes".to_vec()));
    assert_eq!(resp.body, vec![1, 2, 3]);
}

#[test]
fn string_builders_wrap_plain_bodies() {
    let r = route("GET", "/");
    let resp = HttpResponse::str(&r, "hi").unwrap();
    assert_eq!(resp.body, b"hi".to_vec());
    let resp = HttpResponse::string(&r, b"there".to_vec()).unwrap();
    assert_eq!(resp.body, b"there".to_vec());
}

#[test]
fn settings_fall_back_to_their_defaults() {
    let s = Settings::new();
    assert_eq!(http_workers(&s), 1);
    assert_eq!(json_payload_limit(&s), 1048576);
    let s = Settings { http_workers: Some(8), json_payload_limit: Some(1024) };
    assert_eq!(http_workers(&s), 8);
    assert_eq!(json_payload_limit(&s), 1024);
}

#[test]
fn the_server_info_carries_the_hostname() {
    let info = ServerInfo::new(String::from("box-17"));
    assert_eq!(get_hostname(&info), "box-17");
}

#[test]
fn counters_saturate_instead_of_wrapping() {
    let mut c = Counter::new();
    c.increment_by(3);
    assert_eq!(c.get(), 3);
    c.increment_by(u64::MAX - 1);
    assert_eq!(c.get(), u64::MAX);
    c.increment_by(1);
    assert_eq!(c.get(), u64::MAX);
}
