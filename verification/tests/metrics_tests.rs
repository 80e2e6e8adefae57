//! The registry's get-or-create behaviour and the latency
//! distribution's saturation, clamping and quantile arithmetic.

use hyper_fast::dispatch::log;
use hyper_fast::error::ApiError;
use hyper_fast::histogram::{LatencyHistogram, ResponseTime};
use hyper_fast::http_response::{HttpResponse, HttpResult};
use hyper_fast::http_route::HttpRoute;
use hyper_fast::metrics_logger::{MetricsLogger, build_key};

fn route(method: &str, path: &str) -> HttpRoute {
    HttpRoute::new(
        method.as_bytes().to_vec(),
        path.as_bytes().to_vec(),
        None,
        None,
        None,
        b"127.0.0.1:1".to_vec(),
        0,
    )
}

fn labels(pairs: &[(Vec<u8>, u64)]) -> Vec<String> {
    pairs.iter().map(|p| String::from_utf8(p.0.clone()).unwrap()).collect()
}

#[test]
fn repeated_recording_of_one_key_keeps_one_record() {
    let mut logger = MetricsLogger::new();
    let r = route("GET", "/users");
    let n = 5;
    for _ in 0..n {
        logger.log(&r, 200, 7);
    }
    assert_eq!(logger.len(), 1);
    assert_eq!(logger.registry.metrics[0].hits.get(), n);
    assert_eq!(logger.registry.metrics[0].errors.get(), 0);
}

#[test]
fn distinct_keys_get_distinct_records() {
    let mut logger = MetricsLogger::new();
    logger.log(&route("GET", "/a"), 200, 1);
    logger.log(&route("GET", "/b"), 200, 1);
    logger.log(&route("POST", "/a"), 200, 1);
    logger.log(&route("GET", "/a"), 500, 1);
    assert_eq!(logger.len(), 4);
    logger.log(&route("GET", "/a"), 200, 1);
    assert_eq!(logger.len(), 4);
}

#[test]
fn non_success_statuses_count_as_errors() {
    let mut logger = MetricsLogger::new();
    let r = route("GET", "/broken");
    logger.log(&r, 500, 2);
    logger.log(&r, 500, 2);
    assert_eq!(logger.registry.metrics[0].hits.get(), 2);
    assert_eq!(logger.registry.metrics[0].errors.get(), 2);
}

#[test]
fn the_metric_path_override_keys_the_record() {
    let mut logger = MetricsLogger::new();
    let mut r = route("GET", "/users/42");
    r.metric_path = Some(b"/users/:id".to_vec());
    logger.log(&r, 200, 1);
    let mut r2 = route("GET", "/users/43");
    r2.metric_path = Some(b"/users/:id".to_vec());
    logger.log(&r2, 200, 1);
    assert_eq!(logger.len(), 1);
    assert_eq!(logger.registry.metrics[0].path, b"/users/:id".to_vec());
    assert_eq!(logger.registry.metrics[0].hits.get(), 2);
}

#[test]
fn the_hook_records_successful_outcomes_only() {
    let mut logger = MetricsLogger::new();
    let r = route("GET", "/x");
    let ok: HttpResult = HttpResponse::ok(&r, b"fine".to_vec());
    log(&r, &ok, &mut logger, 4);
    assert_eq!(logger.len(), 1);
    let failed: HttpResult = Err(ApiError::NotFound(b"/x".to_vec()));
    log(&r, &failed, &mut logger, 4);
    assert_eq!(logger.len(), 1);
    assert_eq!(logger.registry.metrics[0].hits.get(), 1);
}

#[test]
fn keys_are_path_method_code() {
    let key = build_key(&b"/x".to_vec(), &b"GET".to_vec(), 200);
    assert_eq!(key, b"/x/GET/200".to_vec());
}

#[test]
fn recording_beyond_the_bound_saturates() {
    // a value above the upper bound yields the same percentile results
    // as the bound itself
    let mut over = ResponseTime::new();
    over.increment_time_by_duration(300001);
    over.increment_time_by_duration(7);
    let mut at = ResponseTime::new();
    at.increment_time_by_duration(300000);
    at.increment_time_by_duration(7);
    let over_map = over.get_percentile_map();
    let at_map = at.get_percentile_map();
    assert_eq!(over_map, at_map);
    assert_eq!(over_map[6].1, 300000);
}

#[test]
fn recording_below_the_bound_clamps_to_it() {
    let mut h = LatencyHistogram::new();
    h.record(0);
    assert_eq!(h.total(), 1);
    assert_eq!(h.value_at_quantile(500), 1);
}

#[test]
fn quantiles_are_monotone() {
    let mut rt = ResponseTime::new();
    for v in [3u64, 9, 1, 250, 40, 40, 7, 12000, 88, 5] {
        rt.increment_time_by_duration(v);
    }
    let pairs = rt.get_percentile_map();
    for w in pairs.windows(2) {
        assert!(w[0].1 <= w[1].1, "quantile values must not decrease");
    }
}

#[test]
fn quantile_values_follow_the_exact_rule() {
    // one sample at each value 1..=100: the q-quantile is the smallest
    // value whose cumulative count reaches ceil(q * 100)
    let mut h = LatencyHistogram::new();
    for v in 1..=100u64 {
        h.record(v);
    }
    assert_eq!(h.value_at_quantile(500), 50);
    assert_eq!(h.value_at_quantile(750), 75);
    assert_eq!(h.value_at_quantile(900), 90);
    assert_eq!(h.value_at_quantile(999), 100);
    assert_eq!(h.value_at_quantile(1000), 100);
}

#[test]
fn an_empty_distribution_reports_zeros() {
    let rt = ResponseTime::new();
    let pairs = rt.get_percentile_map();
    assert_eq!(pairs.len(), 7);
    assert_eq!(
        labels(&pairs),
        vec!["0.500", "0.750", "0.900", "0.950", "0.980", "0.990", "0.999"]
    );
    for p in &pairs {
        assert_eq!(p.1, 0);
    }
}

#[test]
fn a_single_sample_sits_at_every_quantile() {
    let mut rt = ResponseTime::new();
    rt.increment_time_by_duration(37);
    for p in rt.get_percentile_map() {
        assert_eq!(p.1, 37);
    }
}
