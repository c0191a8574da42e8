use proxy_https_serv::config::Config;
use proxy_https_serv::server::{
    build_upstream_uri, conn_step, route_request, ConnEvent, ConnPhase, RouteDecision,
};

#[test]
fn metrics_path_is_served_locally() {
    assert_eq!(route_request("/metrics"), RouteDecision::ServeMetrics);
}

#[test]
fn other_paths_are_forwarded() {
    assert_eq!(route_request("/"), RouteDecision::ForwardToBackend);
    assert_eq!(route_request("/api/items"), RouteDecision::ForwardToBackend);
    assert_eq!(route_request("/metrics2"), RouteDecision::ForwardToBackend);
    assert_eq!(route_request("/metrics/"), RouteDecision::ForwardToBackend);
    assert_eq!(route_request(""), RouteDecision::ForwardToBackend);
}

#[test]
fn upstream_uri_preserves_path_and_query() {
    let uri = build_upstream_uri("http://127.0.0.1:8080", Some("/a/b?x=1&y=2"));
    assert_eq!(uri, "http://127.0.0.1:8080/a/b?x=1&y=2");
}

#[test]
fn upstream_uri_defaults_to_slash() {
    let uri = build_upstream_uri("http://127.0.0.1:8081", None);
    assert_eq!(uri, "http://127.0.0.1:8081/");
}

#[test]
fn connection_lifecycle_follows_the_happy_path() {
    let mut phase = ConnPhase::Accepted;
    phase = conn_step(phase, ConnEvent::HandshakeStarted);
    assert_eq!(phase, ConnPhase::TlsHandshaking);
    phase = conn_step(phase, ConnEvent::HandshakeSucceeded);
    assert_eq!(phase, ConnPhase::Serving);
    phase = conn_step(phase, ConnEvent::RequestAnswered);
    assert_eq!(phase, ConnPhase::Serving);
    phase = conn_step(phase, ConnEvent::ConnectionClosed);
    assert_eq!(phase, ConnPhase::Closed);
}

#[test]
fn handshake_failure_drops_the_connection() {
    let phase = conn_step(ConnPhase::TlsHandshaking, ConnEvent::HandshakeFailed);
    assert_eq!(phase, ConnPhase::Failed);
}

#[test]
fn forwarding_failure_keeps_the_connection_serving() {
    let phase = conn_step(ConnPhase::Serving, ConnEvent::ForwardingFailed);
    assert_eq!(phase, ConnPhase::Serving);
    let phase = conn_step(phase, ConnEvent::RequestAnswered);
    assert_eq!(phase, ConnPhase::Serving);
}

#[test]
fn terminal_phases_absorb_every_event() {
    assert_eq!(conn_step(ConnPhase::Closed, ConnEvent::TransportFailed), ConnPhase::Closed);
    assert_eq!(conn_step(ConnPhase::Failed, ConnEvent::RequestAnswered), ConnPhase::Failed);
}

#[test]
fn config_with_backends_is_valid() {
    let c = Config {
        port: 8443,
        backends: vec!["http://127.0.0.1:8080".to_string()],
        cert_path: "cert.pem".to_string(),
        key_path: "key.pem".to_string(),
    };
    assert!(c.is_valid());
}

#[test]
fn config_without_backends_is_rejected() {
    let c = Config {
        port: 8443,
        backends: Vec::new(),
        cert_path: "cert.pem".to_string(),
        key_path: "key.pem".to_string(),
    };
    assert!(!c.is_valid());
}
