//! How an upstream HTTP status becomes a proxy error.
//!
//! The caller reads the status, the `retry-after` header and, where
//! [`upstream_reads_body`] says so, the response body; the decision is made
//! here.

use vstd::prelude::*;
use crate::error::{ProxyError, error_status};
use crate::number::{decimal_string, decimal_text, parse_u64, parsed_u64};
use crate::router::{Provider, provider_name};
use crate::text::{owned, push_str};

verus! {

broadcast use vstd::string::group_string_axioms;

/// The standard reason phrase of an HTTP status code, as
/// `http::StatusCode::canonical_reason` gives it.
pub uninterp spec fn canonical_reason_phrase(code: u16) -> Option<Seq<char>>;

/// The reason phrase of a status code: `http::StatusCode::canonical_reason`
/// (re-exported by `reqwest`), which looks the code up in the table of
/// registered phrases. Its result is named, not stated.
#[verifier::external_body]
fn canonical_reason(code: u16) -> (r: Option<&'static str>)
    requires
        100 <= code <= 999,
    ensures
        match r {
            Some(t) => canonical_reason_phrase(code) == Some(t@),
            None => canonical_reason_phrase(code) is None,
        },
{
    match reqwest::StatusCode::from_u16(code) {
        Ok(s) => s.canonical_reason(),
        Err(_) => None,
    }
}

/// The name used in upstream error messages: the provider's, or `straico`.
pub open spec fn upstream_name(p: Option<Provider>) -> Seq<char> {
    match p {
        Some(p) => provider_name(p),
        None => "straico"@,
    }
}

/// Statuses that are mapped to a dedicated error variant.
pub open spec fn is_dedicated_status(status: u16) -> bool {
    status == 401 || status == 403 || status == 404 || status == 503
}

/// Client and server error statuses.
pub open spec fn is_error_status(status: u16) -> bool {
    400 <= status <= 599
}

/// The statuses for which the response body goes into the error message.
pub open spec fn reads_body(status: u16) -> bool {
    status != 429 && (is_dedicated_status(status) || is_error_status(status))
}

/// The message of an upstream error, given the status's reason phrase:
/// name, status code and phrase (empty where there is none), and the body
/// after a colon where it is not empty.
pub open spec fn upstream_message_with(
    name: Seq<char>,
    status: u16,
    reason: Option<Seq<char>>,
    body: Seq<char>,
) -> Seq<char> {
    let base = name + " API returned "@ + decimal_text(status as nat) + " "@ + match reason {
        Some(t) => t,
        None => Seq::empty(),
    };
    if body.len() == 0 {
        base
    } else {
        base + ": "@ + body
    }
}

/// The message of an upstream error, with the status's standard phrase.
pub open spec fn upstream_message(name: Seq<char>, status: u16, body: Seq<char>) -> Seq<char> {
    upstream_message_with(name, status, canonical_reason_phrase(status), body)
}

/// The outcome for an upstream status.
pub open spec fn upstream_outcome(
    status: u16,
    provider: Option<Provider>,
    retry_after: Option<Seq<char>>,
    body: Seq<char>,
    r: Result<(), ProxyError>,
) -> bool {
    let name = upstream_name(provider);
    let msg = upstream_message(name, status, body);
    if status == 429 {
        r matches Err(ProxyError::RateLimited { retry_after: ra, message }) && message@
            == "Rate limited by "@ + name + " API"@ && ra == match retry_after {
            Some(h) => parsed_u64(h),
            None => None,
        }
    } else if status == 401 {
        r matches Err(ProxyError::Unauthorized(m)) && m@ == msg
    } else if status == 403 {
        r matches Err(ProxyError::Forbidden(m)) && m@ == msg
    } else if status == 404 {
        r matches Err(ProxyError::NotFound(m)) && m@ == msg
    } else if status == 503 {
        r matches Err(ProxyError::ServiceUnavailable(m)) && m@ == msg
    } else if is_error_status(status) {
        r matches Err(ProxyError::UpstreamError(s, m)) && s == status && m@ == msg
    } else {
        r is Ok
    }
}

/// Whether the response body is needed to describe an upstream status.
pub fn upstream_reads_body(status: u16) -> (r: bool)
    ensures
        r == reads_body(status),
{
    status != 429 && (status == 401 || status == 403 || status == 404 || status == 503 || (400
        <= status && status <= 599))
}

/// Formats the message of an upstream error (see [`upstream_message_with`]).
pub fn format_upstream_message(name: &str, status: u16, reason: Option<&str>, body: &str) -> (r: String)
    ensures
        r@ == upstream_message_with(
            name@,
            status,
            match reason {
                Some(t) => Some(t@),
                None => None,
            },
            body@,
        ),
{
    let mut m = owned(name);
    push_str(&mut m, " API returned ");
    let code = decimal_string(status as u64);
    push_str(&mut m, code.as_str());
    push_str(&mut m, " ");
    match reason {
        Some(t) => push_str(&mut m, t),
        None => {},
    }
    if !body.is_empty() {
        push_str(&mut m, ": ");
        push_str(&mut m, body);
    }
    let ghost r = match reason {
        Some(t) => Some(t@),
        None => None,
    };
    assert(m@ =~= upstream_message_with(name@, status, r, body@));
    m
}

fn upstream_error_message(name: &str, status: u16, body: &str) -> (r: String)
    requires
        100 <= status <= 999,
    ensures
        r@ == upstream_message(name@, status, body@),
{
    let reason = canonical_reason(status);
    format_upstream_message(name, status, reason, body)
}

/// Maps an upstream status to the error that describes it: 429 to a rate
/// limit with the `retry-after` seconds where the header parses, 401, 403,
/// 404 and 503 to their own variants, other 4xx and 5xx to an upstream
/// error with the status; every other status is success. `body` is the
/// response body where [`upstream_reads_body`] holds, else empty.
pub fn map_common_non_streaming_errors(
    status: u16,
    provider: Option<Provider>,
    retry_after: Option<&str>,
    body: &str,
) -> (r: Result<(), ProxyError>)
    requires
        100 <= status <= 999,
    ensures
        upstream_outcome(
            status,
            provider,
            match retry_after {
                Some(h) => Some(h@),
                None => None,
            },
            body@,
            r,
        ),
{
    let name: &str = match provider {
        Some(p) => p.name(),
        None => "straico",
    };
    if status == 429 {
        let seconds = match retry_after {
            Some(h) => parse_u64(h),
            None => None,
        };
        let mut message = owned("Rate limited by ");
        push_str(&mut message, name);
        push_str(&mut message, " API");
        assert(message@ =~= "Rate limited by "@ + upstream_name(provider) + " API"@);
        return Err(ProxyError::RateLimited { retry_after: seconds, message });
    }
    if status == 401 || status == 403 || status == 404 || status == 503 {
        let message = upstream_error_message(name, status, body);
        if status == 401 {
            return Err(ProxyError::Unauthorized(message));
        } else if status == 403 {
            return Err(ProxyError::Forbidden(message));
        } else if status == 404 {
            return Err(ProxyError::NotFound(message));
        } else {
            return Err(ProxyError::ServiceUnavailable(message));
        }
    }
    if 400 <= status && status <= 599 {
        let message = upstream_error_message(name, status, body);
        return Err(ProxyError::UpstreamError(status, message));
    }
    Ok(())
}

/// An upstream status is answered with an error exactly when it is a client
/// or server error, and that error carries the upstream status as its own.
pub proof fn law_upstream_status_is_kept(
    status: u16,
    provider: Option<Provider>,
    retry_after: Option<Seq<char>>,
    body: Seq<char>,
    r: Result<(), ProxyError>,
)
    requires
        100 <= status <= 999,
        upstream_outcome(status, provider, retry_after, body, r),
    ensures
        r is Err <==> is_error_status(status),
        r matches Err(e) ==> error_status(e) == status,
{
}

} // verus!
