use proxy_https_serv::metrics::{
    metrics_content_type, record_request_duration, u64_to_dec, MetricsState,
};

const FRESH_DOCUMENT: &str = "# HELP proxy_request_duration_seconds HTTP request durations\n\
# TYPE proxy_request_duration_seconds histogram\n\
proxy_request_duration_seconds_bucket{le=\"0.005\"} 0\n\
proxy_request_duration_seconds_bucket{le=\"0.01\"} 0\n\
proxy_request_duration_seconds_bucket{le=\"0.025\"} 0\n\
proxy_request_duration_seconds_bucket{le=\"0.05\"} 0\n\
proxy_request_duration_seconds_bucket{le=\"0.1\"} 0\n\
proxy_request_duration_seconds_bucket{le=\"0.25\"} 0\n\
proxy_request_duration_seconds_bucket{le=\"0.5\"} 0\n\
proxy_request_duration_seconds_bucket{le=\"1\"} 0\n\
proxy_request_duration_seconds_bucket{le=\"2.5\"} 0\n\
proxy_request_duration_seconds_bucket{le=\"5\"} 0\n\
proxy_request_duration_seconds_bucket{le=\"10\"} 0\n\
proxy_request_duration_seconds_bucket{le=\"+Inf\"} 0\n\
proxy_request_duration_seconds_sum 0.000000000\n\
proxy_request_duration_seconds_count 0\n\
# HELP proxy_requests_total Total number of HTTP requests processed by the proxy\n\
# TYPE proxy_requests_total counter\n\
proxy_requests_total 0\n";

#[test]
fn fresh_registry_renders_zero() {
    let m = MetricsState::new();
    let doc = m.render();
    assert!(doc.contains("proxy_requests_total 0\n"));
    assert_eq!(doc, FRESH_DOCUMENT);
}

#[test]
fn request_count_matches_sample_count_after_k_requests() {
    let mut m = MetricsState::new();
    let k = 5u64;
    for _ in 0..k {
        m.inc_requests();
        record_request_duration(&mut m, 1_000_000);
    }
    assert!(m.requests_total() >= k);
    assert_eq!(m.requests_total(), k);
    assert_eq!(m.sample_count(), m.requests_total());
    let doc = m.render();
    assert!(doc.contains("proxy_requests_total 5\n"));
    assert!(doc.contains("proxy_request_duration_seconds_count 5\n"));
}

#[test]
fn sum_renders_nanoseconds_as_seconds() {
    let mut m = MetricsState::new();
    m.inc_requests();
    record_request_duration(&mut m, 1_500_000);
    let doc = m.render();
    assert!(doc.contains("proxy_request_duration_seconds_sum 0.001500000\n"));
    record_request_duration(&mut m, 2_000_000_000);
    let doc = m.render();
    assert!(doc.contains("proxy_request_duration_seconds_sum 2.001500000\n"));
}

#[test]
fn buckets_are_cumulative() {
    let mut m = MetricsState::new();
    record_request_duration(&mut m, 3_000_000);
    record_request_duration(&mut m, 300_000_000);
    let doc = m.render();
    assert!(doc.contains("proxy_request_duration_seconds_bucket{le=\"0.005\"} 1\n"));
    assert!(doc.contains("proxy_request_duration_seconds_bucket{le=\"0.25\"} 1\n"));
    assert!(doc.contains("proxy_request_duration_seconds_bucket{le=\"0.5\"} 2\n"));
    assert!(doc.contains("proxy_request_duration_seconds_bucket{le=\"10\"} 2\n"));
    assert!(doc.contains("proxy_request_duration_seconds_bucket{le=\"+Inf\"} 2\n"));
}

#[test]
fn rendering_does_not_change_state() {
    let mut m = MetricsState::new();
    m.inc_requests();
    record_request_duration(&mut m, 7);
    let first = m.render();
    let second = m.render();
    assert_eq!(first, second);
}

#[test]
fn content_type_names_the_exposition_version() {
    assert_eq!(metrics_content_type(), "text/plain; version=0.0.4");
}

#[test]
fn decimal_rendering_is_exact() {
    assert_eq!(u64_to_dec(0), "0");
    assert_eq!(u64_to_dec(9), "9");
    assert_eq!(u64_to_dec(10), "10");
    assert_eq!(u64_to_dec(1234567890), "1234567890");
    assert_eq!(u64_to_dec(u64::MAX), "18446744073709551615");
}
