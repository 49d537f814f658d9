//! Options of the proxy server itself.

use vstd::prelude::*;

verus! {

/// Configuration options for the proxy server.
#[derive(Debug, Clone, Copy, PartialEq, Eq, Structural)]
pub struct ProxyConfig {
    /// Whether to enable streaming for chat responses.
    pub enable_chat_streaming: bool,
    /// Whether to include debug information in responses.
    pub include_debug_info: bool,
}

impl Default for ProxyConfig {
    fn default() -> (r: Self)
        ensures
            r == (ProxyConfig { enable_chat_streaming: false, include_debug_info: false }),
    {
        ProxyConfig { enable_chat_streaming: false, include_debug_info: false }
    }
}

impl ProxyConfig {
    /// Creates a new configuration with default values: both options off.
    pub fn new() -> (r: Self)
        ensures
            r == (ProxyConfig { enable_chat_streaming: false, include_debug_info: false }),
    {
        ProxyConfig { enable_chat_streaming: false, include_debug_info: false }
    }
}

} // verus!
