//! Command-line options of the proxy.

use vstd::prelude::*;
use crate::streaming::HeartbeatChar;

verus! {

/// Command-line options of the proxy server.
#[derive(Debug)]
pub struct Cli {
    /// Host address to bind to.
    pub host: String,
    /// Port to listen on.
    pub port: u16,
    /// API key for Straico.
    pub api_key: Option<String>,
    /// List the available models and exit.
    pub list_models: bool,
    /// Log level (trace, debug, info, warn, error).
    pub log_level: String,
    /// Heartbeat character type for streaming responses.
    pub heartbeat_char: HeartbeatChar,
    /// Include debug information in responses.
    pub include_debug_info: bool,
}

} // verus!
