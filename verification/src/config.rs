//! Static configuration for the proxy: operating mode, upstream host, and
//! corporate-proxy parameters.

use vstd::prelude::*;

verus! {

/// Operating mode of the proxy.
///
/// In `Store` mode requests are persisted but never forwarded live; in
/// `Forward` mode requests are forwarded live to the upstream.
#[derive(Clone, Copy, PartialEq, Eq, Structural, Debug)]
pub enum ProxyMode {
    Store,
    Forward,
}

/// Corporate-proxy parameters for the outbound upstream call.
pub struct NetworkConfig {
    /// Whether the upstream call is tunneled through the corporate proxy.
    pub use_corporate_proxy: bool,
    /// Corporate proxy host.
    pub corporate_proxy_host: String,
    /// Corporate proxy port.
    pub corporate_proxy_port: u16,
    /// Whether basic-auth credentials are attached to the tunnel.
    pub use_basic_auth: bool,
    pub corporate_proxy_username: String,
    pub corporate_proxy_password: String,
}

/// Per-proxy settings: the operating mode and the upstream host string.
pub struct ProxyConfig {
    pub mode: ProxyMode,
    /// Upstream host as a URI string; the scheme is optional and defaults
    /// to plain HTTP.
    pub remote_host: String,
}

/// The full settings snapshot handed to every operation.
pub struct Settings {
    pub proxy: ProxyConfig,
    pub network: NetworkConfig,
}

} // verus!
