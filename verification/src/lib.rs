//! OpenAI-compatible request and response handling for the Straico proxy.

pub mod cli;
pub mod completion;
pub mod completion_stream;
pub mod config;
pub mod config_manager;
pub mod content;
pub mod endpoint_selection;
pub mod error;
pub mod json;
pub mod legacy;
pub mod legacy_stream;
pub mod number;
pub mod openai_types;
pub mod request_log;
pub mod response_utils;
pub mod router;
pub mod sse;
pub mod stream_session;
pub mod streaming;
pub mod text;
pub mod tls;
pub mod tool_embedding;
pub mod upstream;

