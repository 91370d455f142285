use vstd::prelude::*;

verus! {

/// Immutable per-process serving options, constructed once at startup and
/// shared read-only by every request handler.
#[derive(Clone, Copy, PartialEq, Eq, Structural, Debug)]
pub struct ServeConfig {
    /// Inject the live-reload client script into served HTML documents.
    pub reload_enabled: bool,
    /// Emit the cross-origin isolation headers on HTML responses.
    pub shared_buffer_headers: bool,
    /// Emit `Cache-Control: no-cache` on HTML responses.
    pub disable_cache: bool,
}

/// The port for the encrypted listener: an explicit override if one was
/// given, otherwise the default.
pub fn ssl_port_of(ssl: Option<Option<u16>>) -> (port: u16)
    ensures
        port == (match ssl {
            Some(Some(p)) => p,
            _ => 8443u16,
        }),
{
    match ssl {
        Some(Some(p)) => p,
        _ => 8443,
    }
}

} // verus!
