//! The decision core of a TLS-terminating reverse proxy.
//!
//! Inbound connections are decrypted with a server context built from PEM
//! material, each decrypted request is either answered locally with a
//! metrics document or forwarded to the next backend of a round-robin
//! cycle, and counters record every served request. The pieces here — the
//! backend selector, the TLS material loader, the metrics registry and its
//! renderer, the dispatch rule and the connection lifecycle — carry
//! contracts; the program around them owns the sockets and the scheduler.

pub mod balancer;
pub mod config;
pub mod metrics;
pub mod server;
pub mod tls;
