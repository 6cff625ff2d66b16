//! Core of a transparent HTTP reverse proxy.
//!
//! The library holds the verified forwarding logic: message models for the
//! requests and responses that flow through the proxy, target-URL
//! construction, the translation of an inbound request into the outbound
//! request sent upstream, the translation of the upstream response back to
//! the client, the rules of the idle-connection pool, and the per-connection
//! state machine that drives one inbound connection through its sequence of
//! request/response exchanges.

pub mod config;
pub mod forward;
pub mod handler;
pub mod msg;
pub mod pool;
pub mod target;
