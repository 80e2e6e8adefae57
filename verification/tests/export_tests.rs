//! The two export formats: exact output, consistency with the
//! recorded counters, and read-only behaviour.

use hyper_fast::codec::decode_body;
use hyper_fast::encoding::Encoding;
use hyper_fast::export::{render_json_export, render_prometheus_export};
use hyper_fast::http_route::HttpRoute;
use hyper_fast::metrics_logger::MetricsLogger;

fn route(method: &str, path: &str) -> HttpRoute {
    HttpRoute::new(
        method.as_bytes().to_vec(),
        path.as_bytes().to_vec(),
        None,
        None,
        None,
        b"127.0.0.1:1".to_vec(),
        0,
    )
}

#[test]
fn empty_registry_renders_an_empty_array() {
    let logger = MetricsLogger::new();
    assert_eq!(render_json_export(&logger), b"[]".to_vec());
}

#[test]
fn empty_registry_renders_bare_family_headers() {
    let logger = MetricsLogger::new();
    let expected = "# HELP hits hits counter\n# TYPE hits counter\n\
                    # HELP errors errors counter\n# TYPE errors counter\n\
                    # HELP quantiles quantiles counter\n# TYPE quantiles counter\n";
    assert_eq!(render_prometheus_export(&logger), expected.as_bytes().to_vec());
}

#[test]
fn structured_export_renders_the_record_exactly() {
    let mut logger = MetricsLogger::new();
    let r = route("GET", "/x");
    for _ in 0..3 {
        logger.log(&r, 200, 5);
    }
    let expected = "[{\"path\":\"/x\",\"method\":\"GET\",\"code\":200,\
                    \"hit_count\":3,\"error_count\":0,\"percentile_metrics\":{\
                    \"0.500\":5,\"0.750\":5,\"0.900\":5,\"0.950\":5,\"0.980\":5,\
                    \"0.990\":5,\"0.999\":5}}]";
    assert_eq!(
        String::from_utf8(render_json_export(&logger)).unwrap(),
        expected
    );
}

#[test]
fn text_exposition_renders_the_record_exactly() {
    let mut logger = MetricsLogger::new();
    let r = route("GET", "/x");
    for _ in 0..3 {
        logger.log(&r, 200, 5);
    }
    let expected = "# HELP hits hits counter\n# TYPE hits counter\n\
                    hits{path=\"/x\",method=\"GET\",code=\"200\"} 3\n\
                    # HELP errors errors counter\n# TYPE errors counter\n\
                    errors{path=\"/x\",method=\"GET\",code=\"200\"} 0\n\
                    # HELP quantiles quantiles counter\n# TYPE quantiles counter\n\
                    quantiles{path=\"/x\",method=\"GET\",code=\"200\",quantile=\"0.500\"} 5\n\
                    quantiles{path=\"/x\",method=\"GET\",code=\"200\",quantile=\"0.750\"} 5\n\
                    quantiles{path=\"/x\",method=\"GET\",code=\"200\",quantile=\"0.900\"} 5\n\
                    quantiles{path=\"/x\",method=\"GET\",code=\"200\",quantile=\"0.950\"} 5\n\
                    quantiles{path=\"/x\",method=\"GET\",code=\"200\",quantile=\"0.980\"} 5\n\
                    quantiles{path=\"/x\",method=\"GET\",code=\"200\",quantile=\"0.990\"} 5\n\
                    quantiles{path=\"/x\",method=\"GET\",code=\"200\",quantile=\"0.999\"} 5\n";
    assert_eq!(
        String::from_utf8(render_prometheus_export(&logger)).unwrap(),
        expected
    );
}

#[test]
fn both_exports_report_the_recorded_counters() {
    // after H hits of which E carry a non-success status for one key,
    // both exports report hit_count == H and error_count == E
    let mut logger = MetricsLogger::new();
    let r = route("GET", "/broken");
    logger.log(&r, 500, 1);
    logger.log(&r, 500, 1);
    let json = String::from_utf8(render_json_export(&logger)).unwrap();
    assert!(json.contains("\"hit_count\":2"));
    assert!(json.contains("\"error_count\":2"));
    let text = String::from_utf8(render_prometheus_export(&logger)).unwrap();
    assert!(text.contains("hits{path=\"/broken\",method=\"GET\",code=\"500\"} 2"));
    assert!(text.contains("errors{path=\"/broken\",method=\"GET\",code=\"500\"} 2"));
}

#[test]
fn exports_escape_quotes_and_backslashes_in_labels() {
    let mut logger = MetricsLogger::new();
    let r = route("GET", "/we\"ird\\path");
    logger.log(&r, 200, 1);
    let json = String::from_utf8(render_json_export(&logger)).unwrap();
    assert!(json.contains("\"path\":\"/we\\\"ird\\\\path\""));
    let text = String::from_utf8(render_prometheus_export(&logger)).unwrap();
    assert!(text.contains("path=\"/we\\\"ird\\\\path\""));
}

#[test]
fn exporting_reads_without_mutating() {
    let mut logger = MetricsLogger::new();
    let r = route("GET", "/x");
    logger.log(&r, 200, 5);
    let first = render_json_export(&logger);
    let second = render_json_export(&logger);
    assert_eq!(first, second);
    assert_eq!(logger.len(), 1);
    assert_eq!(logger.registry.metrics[0].hits.get(), 1);
}

#[test]
fn exports_compress_per_the_negotiated_coding() {
    let mut logger = MetricsLogger::new();
    logger.log(&route("GET", "/x"), 200, 5);
    let plain = render_json_export(&logger);
    let r = HttpRoute::new(
        b"GET".to_vec(),
        b"/metrics/json".to_vec(),
        None,
        None,
        Some(b"gzip".to_vec()),
        b"127.0.0.1:1".to_vec(),
        0,
    );
    let resp = logger.get_api_metrics_as_json(&r).unwrap();
    assert_eq!(resp.content_encoding, Some(Encoding::Gzip));
    assert_eq!(decode_body(Encoding::Gzip, &resp.body), Some(plain));
}

#[test]
fn the_snapshot_walks_the_records_in_creation_order() {
    let mut logger = MetricsLogger::new();
    logger.log(&route("GET", "/b"), 200, 1);
    logger.log(&route("GET", "/a"), 500, 1);
    let snap = logger.snapshot();
    assert_eq!(snap.len(), 2);
    assert_eq!(snap[0].path, b"/b".to_vec());
    assert_eq!(snap[1].path, b"/a".to_vec());
    assert_eq!(snap[1].errors.get(), 1);
}

#[test]
fn multiple_records_are_comma_separated_in_creation_order() {
    let mut logger = MetricsLogger::new();
    logger.log(&route("GET", "/a"), 200, 1);
    logger.log(&route("GET", "/b"), 200, 1);
    let json = String::from_utf8(render_json_export(&logger)).unwrap();
    assert!(json.starts_with("[{"));
    assert!(json.ends_with("}]"));
    assert!(json.contains("},{"));
    let a = json.find("\"path\":\"/a\"").unwrap();
    let b = json.find("\"path\":\"/b\"").unwrap();
    assert!(a < b);
}
