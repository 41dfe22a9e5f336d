//! The immutable per-run server configuration that the forwarding logic
//! reads.
//!
//! Only what the request path consumes lives here: the local host name and
//! whether the local side is served over HTTPS. The listening socket
//! address is owned by the unverified server shell, which binds it and
//! hands requests in as plain values.

use vstd::prelude::*;

verus! {

/// Read-only configuration shared by every request: the local host name
/// (as shown in log lines and folded into the preview identifier) and
/// whether that local host speaks HTTPS.
#[derive(Debug)]
pub struct ServerConfig {
    pub host: String,
    pub is_https: bool,
}

impl ServerConfig {
    /// Builds the configuration from its two parts.
    pub fn new(host: String, is_https: bool) -> (r: ServerConfig)
        ensures
            r.host@ == host@,
            r.is_https == is_https,
    {
        ServerConfig { host, is_https }
    }
}

} // verus!
