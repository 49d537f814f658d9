//! Errors of the proxy, their OpenAI-compatible type, code, message and
//! HTTP status.

use vstd::prelude::*;
use crate::number::{decimal_string, decimal_text};
use crate::streaming::{ErrorChunk, create_error_chunk_with_type};
use crate::text::{owned, push_str};

verus! {

broadcast use vstd::string::group_string_axioms;

/// What the proxy keeps of an HTTP client error.
#[derive(Debug)]
pub struct HttpClientError {
    /// The error's message.
    pub message: String,
    /// The request timed out.
    pub is_timeout: bool,
    /// Connecting failed.
    pub is_connect: bool,
    /// The HTTP status the error came with, if any.
    pub status: Option<u16>,
}

/// An error of the proxy.
#[derive(Debug)]
pub enum ProxyError {
    /// JSON could not be read or written; the message of the JSON error.
    SerdeJson(String),
    /// The HTTP client failed.
    ReqwestClient(HttpClientError),
    /// The Straico client failed: its message, and the HTTP client error
    /// underneath where there is one.
    Straico { message: String, request: Option<HttpClientError> },
    /// The upstream response could not be understood; its JSON text.
    ResponseParse(String),
    ToolEmbedding(String),
    MissingRequiredField { field: String },
    InvalidParameter { parameter: String, reason: String },
    /// A chat conversion failed; its message.
    Chat(String),
    BadRequest(String),
    Unauthorized(String),
    Forbidden(String),
    NotFound(String),
    RateLimited { retry_after: Option<u64>, message: String },
    ServiceUnavailable(String),
    ServerConfiguration(String),
    UpstreamError(u16, String),
}

/// The OpenAI error type of an error.
pub open spec fn error_type_text(e: ProxyError) -> Seq<char> {
    match e {
        ProxyError::SerdeJson(_) => "invalid_request_error"@,
        ProxyError::ReqwestClient(_) => "api_error"@,
        ProxyError::Straico { .. } => "api_error"@,
        ProxyError::ResponseParse(_) => "api_error"@,
        ProxyError::ToolEmbedding(_) => "invalid_request_error"@,
        ProxyError::MissingRequiredField { .. } => "invalid_request_error"@,
        ProxyError::InvalidParameter { .. } => "invalid_request_error"@,
        ProxyError::Chat(_) => "invalid_request_error"@,
        ProxyError::BadRequest(_) => "invalid_request_error"@,
        ProxyError::Unauthorized(_) => "authentication_error"@,
        ProxyError::Forbidden(_) => "permission_error"@,
        ProxyError::NotFound(_) => "invalid_request_error"@,
        ProxyError::RateLimited { .. } => "rate_limit_error"@,
        ProxyError::ServiceUnavailable(_) => "api_error"@,
        ProxyError::ServerConfiguration(_) => "server_error"@,
        ProxyError::UpstreamError(_, _) => "api_error"@,
    }
}

/// The OpenAI error code of an error.
pub open spec fn error_code_text(e: ProxyError) -> Seq<char> {
    match e {
        ProxyError::SerdeJson(_) => "invalid_json"@,
        ProxyError::ReqwestClient(_) => "network_error"@,
        ProxyError::Straico { .. } => "upstream_error"@,
        ProxyError::ResponseParse(_) => "response_parse_error"@,
        ProxyError::ToolEmbedding(_) => "tool_error"@,
        ProxyError::MissingRequiredField { .. } => "missing_field"@,
        ProxyError::InvalidParameter { .. } => "invalid_parameter"@,
        ProxyError::Chat(_) => "chat_error"@,
        ProxyError::BadRequest(_) => "bad_request"@,
        ProxyError::Unauthorized(_) => "unauthorized"@,
        ProxyError::Forbidden(_) => "forbidden"@,
        ProxyError::NotFound(_) => "not_found"@,
        ProxyError::RateLimited { .. } => "rate_limit_exceeded"@,
        ProxyError::ServiceUnavailable(_) => "service_unavailable"@,
        ProxyError::ServerConfiguration(_) => "server_configuration"@,
        ProxyError::UpstreamError(_, _) => "upstream_error"@,
    }
}

/// The message that describes an error to the client.
pub open spec fn error_message_text(e: ProxyError) -> Seq<char> {
    match e {
        ProxyError::MissingRequiredField { field } => "Missing required field: "@ + field@,
        ProxyError::InvalidParameter { parameter, reason } => "Invalid parameter '"@ + parameter@
            + "': "@ + reason@,
        ProxyError::ToolEmbedding(e) => "Tool error: "@ + e@,
        ProxyError::SerdeJson(e) => "Invalid JSON: "@ + e@,
        ProxyError::ReqwestClient(e) => "Network error: "@ + e.message@,
        ProxyError::Straico { message, .. } => "Upstream API error: "@ + message@,
        ProxyError::ResponseParse(_) => "Failed to parse response from upstream API"@,
        ProxyError::Chat(e) => "Chat processing error: "@ + e@,
        ProxyError::BadRequest(e) => "Bad request: "@ + e@,
        ProxyError::Unauthorized(m) => "Unauthorized: "@ + m@,
        ProxyError::Forbidden(m) => "Forbidden: "@ + m@,
        ProxyError::NotFound(m) => "Not found: "@ + m@,
        ProxyError::RateLimited { retry_after, message } => "Rate limited: "@ + message@ + match retry_after {
            Some(s) => " (retry after "@ + decimal_text(s as nat) + " seconds)"@,
            None => Seq::empty(),
        },
        ProxyError::ServiceUnavailable(m) => "Service unavailable: "@ + m@,
        ProxyError::ServerConfiguration(m) => "Server configuration error: "@ + m@,
        ProxyError::UpstreamError(_, m) => "Upstream error: "@ + m@,
    }
}

/// The text an error displays.
pub open spec fn error_display_text(e: ProxyError) -> Seq<char> {
    match e {
        ProxyError::SerdeJson(_) => "Failed to serialize or deserialize JSON"@,
        ProxyError::ReqwestClient(_) => "Error from HTTP client"@,
        ProxyError::Straico { .. } => "Error from Straico API"@,
        ProxyError::ResponseParse(_) => "Failed to parse response from Straico API"@,
        ProxyError::ToolEmbedding(s) => "Tool embedding error: "@ + s@,
        ProxyError::MissingRequiredField { field } => "Missing required field: "@ + field@,
        ProxyError::InvalidParameter { parameter, reason } => "Invalid parameter: "@ + parameter@
            + " - "@ + reason@,
        ProxyError::Chat(s) => "Chat error: "@ + s@,
        ProxyError::BadRequest(s) => "Bad request: "@ + s@,
        ProxyError::Unauthorized(s) => "Unauthorized: "@ + s@,
        ProxyError::Forbidden(s) => "Forbidden: "@ + s@,
        ProxyError::NotFound(s) => "Not found: "@ + s@,
        ProxyError::RateLimited { message, .. } => "Rate limited: "@ + message@,
        ProxyError::ServiceUnavailable(s) => "Service unavailable: "@ + s@,
        ProxyError::ServerConfiguration(s) => "Server configuration error: "@ + s@,
        ProxyError::UpstreamError(_, s) => "Upstream error: "@ + s@,
    }
}

/// `code` is a status code that HTTP status types accept (100 to 999).
pub open spec fn valid_status(code: u16) -> bool {
    100 <= code <= 999
}

/// The HTTP status answered for a failed HTTP client request; `fallback`
/// where the error carries no usable status.
pub open spec fn client_error_status(e: HttpClientError, fallback: u16) -> u16 {
    if e.is_timeout {
        504
    } else if e.is_connect {
        502
    } else {
        match e.status {
            Some(s) => if valid_status(s) { s } else { fallback },
            None => fallback,
        }
    }
}

/// The HTTP status answered for an error.
pub open spec fn error_status(e: ProxyError) -> u16 {
    match e {
        ProxyError::SerdeJson(_) => 400,
        ProxyError::BadRequest(_) => 400,
        ProxyError::Unauthorized(_) => 401,
        ProxyError::Forbidden(_) => 403,
        ProxyError::NotFound(_) => 404,
        ProxyError::RateLimited { .. } => 429,
        ProxyError::ServiceUnavailable(_) => 503,
        ProxyError::ServerConfiguration(_) => 500,
        ProxyError::UpstreamError(s, _) => if valid_status(s) { s } else { 500 },
        ProxyError::ReqwestClient(e) => client_error_status(e, 500),
        ProxyError::Straico { request, .. } => match request {
            Some(e) => client_error_status(e, 502),
            None => 502,
        },
        ProxyError::ResponseParse(_) => 502,
        ProxyError::ToolEmbedding(_) => 400,
        ProxyError::MissingRequiredField { .. } => 400,
        ProxyError::InvalidParameter { .. } => 400,
        ProxyError::Chat(_) => 400,
    }
}

/// Whether `http::StatusCode::from_u16` (re-exported by `reqwest`) accepts
/// `code`; its documentation requires at least 100 and less than 1000.
#[verifier::external_body]
fn status_code_is_valid(code: u16) -> (r: bool)
    ensures
        r == valid_status(code),
{
    reqwest::StatusCode::from_u16(code).is_ok()
}

fn client_status(e: &HttpClientError, fallback: u16) -> (r: u16)
    ensures
        r == client_error_status(*e, fallback),
{
    if e.is_timeout {
        504
    } else if e.is_connect {
        502
    } else {
        match e.status {
            Some(s) => if status_code_is_valid(s) {
                s
            } else {
                fallback
            },
            None => fallback,
        }
    }
}

impl ProxyError {
    /// The OpenAI-compatible error type.
    pub fn error_type(&self) -> (r: &'static str)
        ensures
            r@ == error_type_text(*self),
    {
        match self {
            ProxyError::SerdeJson(_) => "invalid_request_error",
            ProxyError::ReqwestClient(_) => "api_error",
            ProxyError::Straico { .. } => "api_error",
            ProxyError::ResponseParse(_) => "api_error",
            ProxyError::ToolEmbedding(_) => "invalid_request_error",
            ProxyError::MissingRequiredField { .. } => "invalid_request_error",
            ProxyError::InvalidParameter { .. } => "invalid_request_error",
            ProxyError::Chat(_) => "invalid_request_error",
            ProxyError::BadRequest(_) => "invalid_request_error",
            ProxyError::Unauthorized(_) => "authentication_error",
            ProxyError::Forbidden(_) => "permission_error",
            ProxyError::NotFound(_) => "invalid_request_error",
            ProxyError::RateLimited { .. } => "rate_limit_error",
            ProxyError::ServiceUnavailable(_) => "api_error",
            ProxyError::ServerConfiguration(_) => "server_error",
            ProxyError::UpstreamError(_, _) => "api_error",
        }
    }

    /// The OpenAI-compatible error code; every error has one.
    pub fn error_code(&self) -> (r: Option<&'static str>)
        ensures
            r matches Some(c) && c@ == error_code_text(*self),
    {
        match self {
            ProxyError::SerdeJson(_) => Some("invalid_json"),
            ProxyError::ReqwestClient(_) => Some("network_error"),
            ProxyError::Straico { .. } => Some("upstream_error"),
            ProxyError::ResponseParse(_) => Some("response_parse_error"),
            ProxyError::ToolEmbedding(_) => Some("tool_error"),
            ProxyError::MissingRequiredField { .. } => Some("missing_field"),
            ProxyError::InvalidParameter { .. } => Some("invalid_parameter"),
            ProxyError::Chat(_) => Some("chat_error"),
            ProxyError::BadRequest(_) => Some("bad_request"),
            ProxyError::Unauthorized(_) => Some("unauthorized"),
            ProxyError::Forbidden(_) => Some("forbidden"),
            ProxyError::NotFound(_) => Some("not_found"),
            ProxyError::RateLimited { .. } => Some("rate_limit_exceeded"),
            ProxyError::ServiceUnavailable(_) => Some("service_unavailable"),
            ProxyError::ServerConfiguration(_) => Some("server_configuration"),
            ProxyError::UpstreamError(_, _) => Some("upstream_error"),
        }
    }

    /// The text the error displays.
    pub fn display_text(&self) -> (r: String)
        ensures
            r@ == error_display_text(*self),
    {
        let (head, tail): (&str, Option<&String>) = match self {
            ProxyError::SerdeJson(_) => ("Failed to serialize or deserialize JSON", None),
            ProxyError::ReqwestClient(_) => ("Error from HTTP client", None),
            ProxyError::Straico { .. } => ("Error from Straico API", None),
            ProxyError::ResponseParse(_) => ("Failed to parse response from Straico API", None),
            ProxyError::ToolEmbedding(s) => ("Tool embedding error: ", Some(s)),
            ProxyError::MissingRequiredField { field } => ("Missing required field: ", Some(field)),
            ProxyError::InvalidParameter { parameter, reason } => {
                let mut m = owned("Invalid parameter: ");
                push_str(&mut m, parameter.as_str());
                push_str(&mut m, " - ");
                push_str(&mut m, reason.as_str());
                return m;
            },
            ProxyError::Chat(s) => ("Chat error: ", Some(s)),
            ProxyError::BadRequest(s) => ("Bad request: ", Some(s)),
            ProxyError::Unauthorized(s) => ("Unauthorized: ", Some(s)),
            ProxyError::Forbidden(s) => ("Forbidden: ", Some(s)),
            ProxyError::NotFound(s) => ("Not found: ", Some(s)),
            ProxyError::RateLimited { message, .. } => ("Rate limited: ", Some(message)),
            ProxyError::ServiceUnavailable(s) => ("Service unavailable: ", Some(s)),
            ProxyError::ServerConfiguration(s) => ("Server configuration error: ", Some(s)),
            ProxyError::UpstreamError(_, s) => ("Upstream error: ", Some(s)),
        };
        let mut m = owned(head);
        match tail {
            Some(t) => push_str(&mut m, t.as_str()),
            None => {},
        }
        assert(m@ =~= error_display_text(*self));
        m
    }

    /// The message that describes the error to the client.
    pub fn message(&self) -> (r: String)
        ensures
            r@ == error_message_text(*self),
    {
        let r = match self {
            ProxyError::MissingRequiredField { field } => {
                let mut m = owned("Missing required field: ");
                push_str(&mut m, field.as_str());
                m
            },
            ProxyError::InvalidParameter { parameter, reason } => {
                let mut m = owned("Invalid parameter '");
                push_str(&mut m, parameter.as_str());
                push_str(&mut m, "': ");
                push_str(&mut m, reason.as_str());
                m
            },
            ProxyError::ToolEmbedding(e) => {
                let mut m = owned("Tool error: ");
                push_str(&mut m, e.as_str());
                m
            },
            ProxyError::SerdeJson(e) => {
                let mut m = owned("Invalid JSON: ");
                push_str(&mut m, e.as_str());
                m
            },
            ProxyError::ReqwestClient(e) => {
                let mut m = owned("Network error: ");
                push_str(&mut m, e.message.as_str());
                m
            },
            ProxyError::Straico { message, .. } => {
                let mut m = owned("Upstream API error: ");
                push_str(&mut m, message.as_str());
                m
            },
            ProxyError::ResponseParse(_) => owned("Failed to parse response from upstream API"),
            ProxyError::Chat(e) => {
                let mut m = owned("Chat processing error: ");
                push_str(&mut m, e.as_str());
                m
            },
            ProxyError::BadRequest(e) => {
                let mut m = owned("Bad request: ");
                push_str(&mut m, e.as_str());
                m
            },
            ProxyError::Unauthorized(e) => {
                let mut m = owned("Unauthorized: ");
                push_str(&mut m, e.as_str());
                m
            },
            ProxyError::Forbidden(e) => {
                let mut m = owned("Forbidden: ");
                push_str(&mut m, e.as_str());
                m
            },
            ProxyError::NotFound(e) => {
                let mut m = owned("Not found: ");
                push_str(&mut m, e.as_str());
                m
            },
            ProxyError::RateLimited { retry_after, message } => {
                let mut m = owned("Rate limited: ");
                push_str(&mut m, message.as_str());
                match retry_after {
                    Some(s) => {
                        push_str(&mut m, " (retry after ");
                        let n = decimal_string(*s);
                        push_str(&mut m, n.as_str());
                        push_str(&mut m, " seconds)");
                    },
                    None => {},
                }
                m
            },
            ProxyError::ServiceUnavailable(e) => {
                let mut m = owned("Service unavailable: ");
                push_str(&mut m, e.as_str());
                m
            },
            ProxyError::ServerConfiguration(e) => {
                let mut m = owned("Server configuration error: ");
                push_str(&mut m, e.as_str());
                m
            },
            ProxyError::UpstreamError(_, e) => {
                let mut m = owned("Upstream error: ");
                push_str(&mut m, e.as_str());
                m
            },
        };
        assert(r@ =~= error_message_text(*self));
        r
    }

    /// The error as a streaming error chunk: its message, type and code.
    pub fn to_streaming_chunk(&self) -> (r: ErrorChunk)
        ensures
            r.message@ == error_message_text(*self),
            r.error_type@ == error_type_text(*self),
            r.code matches Some(c) && c@ == error_code_text(*self),
    {
        let message = self.message();
        create_error_chunk_with_type(message.as_str(), self.error_type(), self.error_code())
    }

    /// The HTTP status answered for the error.
    pub fn status_code(&self) -> (r: u16)
        ensures
            r == error_status(*self),
    {
        match self {
            ProxyError::SerdeJson(_) => 400,
            ProxyError::BadRequest(_) => 400,
            ProxyError::Unauthorized(_) => 401,
            ProxyError::Forbidden(_) => 403,
            ProxyError::NotFound(_) => 404,
            ProxyError::RateLimited { .. } => 429,
            ProxyError::ServiceUnavailable(_) => 503,
            ProxyError::ServerConfiguration(_) => 500,
            ProxyError::UpstreamError(s, _) => if status_code_is_valid(*s) {
                *s
            } else {
                500
            },
            ProxyError::ReqwestClient(e) => client_status(e, 500),
            ProxyError::Straico { request, .. } => match request {
                Some(e) => client_status(e, 502),
                None => 502,
            },
            ProxyError::ResponseParse(_) => 502,
            ProxyError::ToolEmbedding(_) => 400,
            ProxyError::MissingRequiredField { .. } => 400,
            ProxyError::InvalidParameter { .. } => 400,
            ProxyError::Chat(_) => 400,
        }
    }

    /// The HTTP error response: the status and the error body (message, type
    /// and code), which the caller writes as JSON.
    pub fn error_response(&self) -> (r: (u16, ErrorChunk))
        ensures
            r.0 == error_status(*self),
            r.1.message@ == error_message_text(*self),
            r.1.error_type@ == error_type_text(*self),
            r.1.code matches Some(c) && c@ == error_code_text(*self),
    {
        (self.status_code(), self.to_streaming_chunk())
    }
}


/// Every error that the client caused (malformed JSON, a bad request, a
/// missing field, an invalid parameter, tools that cannot be embedded, a
/// chat that cannot be converted) is answered with 400 Bad Request.
pub proof fn law_client_errors_are_bad_requests(e: ProxyError)
    requires
        e is SerdeJson || e is BadRequest || e is MissingRequiredField || e is InvalidParameter
            || e is ToolEmbedding || e is Chat,
    ensures
        error_status(e) == 400,
{
}


/// The answers to errors that the client did not cause: 401, 403 and 404 for
/// refused or missing resources, 429 for rate limits, 503 for an unavailable
/// service, 500 for the server's configuration, 502 for an unreadable
/// upstream answer, and the upstream's own status where it is a valid one.
pub proof fn law_other_error_statuses(e: ProxyError)
    ensures
        e is Unauthorized ==> error_status(e) == 401,
        e is Forbidden ==> error_status(e) == 403,
        e is NotFound ==> error_status(e) == 404,
        e is RateLimited ==> error_status(e) == 429,
        e is ServiceUnavailable ==> error_status(e) == 503,
        e is ServerConfiguration ==> error_status(e) == 500,
        e is ResponseParse ==> error_status(e) == 502,
        e matches ProxyError::UpstreamError(s, _) ==> (100 <= s <= 999 ==> error_status(e) == s),
        100 <= error_status(e) <= 999,
{
}

} // verus!
