//! The cached connection descriptor for the local service, and the rule for
//! keeping or invalidating it after a connection probe.

use vstd::prelude::*;

verus! {

/// How to reach the local service: discovered once from the lockfile, cached,
/// and invalidated when a request against it fails (the service may have
/// restarted with new credentials).
#[derive(Debug, Clone)]
pub struct LeagueClientInfo {
    pub port: u16,
    pub password: String,
    pub protocol: String,
}

/// What a connection probe outcome means for the shared state.
#[derive(Debug, Clone, Copy, PartialEq, Eq, Structural)]
pub struct ConnectionUpdate {
    /// The connected flag to publish.
    pub connected: bool,
    /// Whether the cached descriptor stays; on failure it is dropped so the
    /// next discovery attempt re-reads the lockfile.
    pub keep_cache: bool,
}

/// Fold a connection probe result into the connection state: success keeps
/// the cached descriptor and reports connected; failure invalidates the cache
/// and reports disconnected.
pub fn connection_after_probe(probe_ok: bool) -> (r: ConnectionUpdate)
    ensures
        r.connected == probe_ok,
        r.keep_cache == probe_ok,
{
    ConnectionUpdate { connected: probe_ok, keep_cache: probe_ok }
}

} // verus!
