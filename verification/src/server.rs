//! The per-request dispatch rule, the outbound request target, and the
//! lifecycle of one accepted connection.
//!
//! The runtime around these decisions — sockets, the TLS handshake itself,
//! and the HTTP client — performs an action for each decision made here and
//! hands the outcome back as an event.

use vstd::prelude::*;

verus! {

/// Where one decrypted request goes.
#[derive(Clone, Copy, Debug, PartialEq, Eq, Structural)]
pub enum RouteDecision {
    /// The request asks for the metrics document: render it locally and
    /// bypass backend selection.
    ServeMetrics,
    /// Any other path: select the next backend and forward.
    ForwardToBackend,
}

/// The dispatch rule: exactly the metrics endpoint path is served locally,
/// every other path is forwarded.
pub fn route_request(path: &str) -> (r: RouteDecision)
    ensures
        (r == RouteDecision::ServeMetrics) <==> path@ == "/metrics"@,
{
    let p = path.to_owned();
    let m = "/metrics".to_owned();
    if p == m {
        RouteDecision::ServeMetrics
    } else {
        RouteDecision::ForwardToBackend
    }
}

/// The outbound request target: the backend base address followed by the
/// original path and query, or by a bare slash when the request carries
/// none.
pub open spec fn upstream_uri(backend: Seq<char>, path_and_query: Option<Seq<char>>) -> Seq<char> {
    match path_and_query {
        Some(p) => backend + p,
        None => backend + "/"@,
    }
}

/// Builds the target of the forwarded request, preserving the original path
/// and query unchanged.
pub fn build_upstream_uri(backend: &str, path_and_query: Option<&str>) -> (r: String)
    ensures
        r@ == upstream_uri(
            backend@,
            match path_and_query {
                Some(p) => Some(p@),
                None => None,
            },
        ),
{
    let mut s = backend.to_owned();
    match path_and_query {
        Some(p) => s.append(p),
        None => s.append("/"),
    }
    s
}

/// The lifecycle of one accepted connection.
#[derive(Clone, Copy, Debug, PartialEq, Eq, Structural)]
pub enum ConnPhase {
    /// A raw stream was obtained from the listener; nothing was read yet.
    Accepted,
    /// The TLS negotiation with the shared server context is under way.
    TlsHandshaking,
    /// The encrypted channel stands; requests are served in order.
    Serving,
    /// The connection ended gracefully.
    Closed,
    /// The handshake or the transport failed; the connection was dropped
    /// with no partial response.
    Failed,
}

/// What the runtime reports back about one connection.
#[derive(Clone, Copy, Debug, PartialEq, Eq, Structural)]
pub enum ConnEvent {
    /// The TLS negotiation over the raw stream begins.
    HandshakeStarted,
    /// The TLS negotiation succeeded.
    HandshakeSucceeded,
    /// The TLS negotiation failed.
    HandshakeFailed,
    /// One request was answered, by the metrics document or by a relayed
    /// backend response.
    RequestAnswered,
    /// Forwarding one request failed; the client received an error
    /// response describing the immediate cause.
    ForwardingFailed,
    /// The client or an idle timeout closed the channel.
    ConnectionClosed,
    /// The transport failed underneath the channel.
    TransportFailed,
}

/// The next phase of a connection after one event. Terminal phases absorb
/// every event, and an event that cannot occur in a phase changes nothing.
pub open spec fn spec_conn_step(phase: ConnPhase, event: ConnEvent) -> ConnPhase {
    match (phase, event) {
        (ConnPhase::Accepted, ConnEvent::HandshakeStarted) => ConnPhase::TlsHandshaking,
        (ConnPhase::TlsHandshaking, ConnEvent::HandshakeSucceeded) => ConnPhase::Serving,
        (ConnPhase::TlsHandshaking, ConnEvent::HandshakeFailed) => ConnPhase::Failed,
        (ConnPhase::Serving, ConnEvent::RequestAnswered) => ConnPhase::Serving,
        (ConnPhase::Serving, ConnEvent::ForwardingFailed) => ConnPhase::Serving,
        (ConnPhase::Serving, ConnEvent::ConnectionClosed) => ConnPhase::Closed,
        (ConnPhase::Serving, ConnEvent::TransportFailed) => ConnPhase::Failed,
        (_, _) => phase,
    }
}

/// Advances the connection lifecycle by one event.
pub fn conn_step(phase: ConnPhase, event: ConnEvent) -> (r: ConnPhase)
    ensures
        r == spec_conn_step(phase, event),
{
    match (phase, event) {
        (ConnPhase::Accepted, ConnEvent::HandshakeStarted) => ConnPhase::TlsHandshaking,
        (ConnPhase::TlsHandshaking, ConnEvent::HandshakeSucceeded) => ConnPhase::Serving,
        (ConnPhase::TlsHandshaking, ConnEvent::HandshakeFailed) => ConnPhase::Failed,
        (ConnPhase::Serving, ConnEvent::RequestAnswered) => ConnPhase::Serving,
        (ConnPhase::Serving, ConnEvent::ForwardingFailed) => ConnPhase::Serving,
        (ConnPhase::Serving, ConnEvent::ConnectionClosed) => ConnPhase::Closed,
        (ConnPhase::Serving, ConnEvent::TransportFailed) => ConnPhase::Failed,
        (p, _) => p,
    }
}

/// A failure to forward one request is local to that request: it never
/// moves the connection out of its phase, so the channel keeps serving and
/// no other connection is touched.
pub proof fn lemma_forwarding_failure_is_local(phase: ConnPhase)
    ensures
        spec_conn_step(phase, ConnEvent::ForwardingFailed) == phase,
        phase is Serving ==> spec_conn_step(phase, ConnEvent::ForwardingFailed) is Serving,
{
}

/// A connection that ended, gracefully or not, stays ended: no event leaves
/// a terminal phase.
pub proof fn lemma_terminal_phases(phase: ConnPhase, event: ConnEvent)
    requires
        phase is Closed || phase is Failed,
    ensures
        spec_conn_step(phase, event) == phase,
{
}

} // verus!
