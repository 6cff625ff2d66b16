//! Fixed configuration of the forwarding pipeline.
//!
//! The listening address and the upstream base URL are inputs chosen at
//! composition time; the knobs here govern how the pipeline behaves once
//! they are fixed.

use vstd::prelude::*;

use crate::pool::PoolConfig;

verus! {

/// The pipeline's knobs: the inbound head-read timeout, keep-alive,
/// eager response flushing, and the outbound pool's idle timeout and
/// capacity.
#[derive(Clone, Copy, PartialEq, Eq, Structural)]
pub struct ProxyConfig {
    /// Bounds the time allowed to receive a complete request head before
    /// the connection is aborted.
    pub header_read_timeout_ms: u64,
    /// Whether an inbound connection is kept for further requests after a
    /// completed response.
    pub keep_alive: bool,
    /// Eager flushing of responses on the inbound connection.
    pub pipeline_flush: bool,
    /// The outbound pool's idle timeout and idle-connection cap.
    pub pool: PoolConfig,
}

impl Default for ProxyConfig {
    /// The defaults: a 5 s header-read timeout, keep-alive on, eager
    /// flushing, a 30 s idle timeout, and 100 idle connections retained.
    fn default() -> (c: ProxyConfig)
        ensures
            c.header_read_timeout_ms == 5000,
            c.keep_alive,
            c.pipeline_flush,
            c.pool.idle_timeout_ms == 30000,
            c.pool.max_idle == 100,
    {
        ProxyConfig {
            header_read_timeout_ms: 5000,
            keep_alive: true,
            pipeline_flush: true,
            pool: PoolConfig { idle_timeout_ms: 30000, max_idle: 100 },
        }
    }
}

} // verus!
