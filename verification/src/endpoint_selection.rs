//! Which upstream chat endpoint serves a request.

use vstd::prelude::*;
use crate::openai_types::OpenAiChatRequest;

verus! {

/// Whether the new chat endpoint serves the request: always where it is
/// configured, and for requests that carry tools where that is forced;
/// otherwise the legacy endpoint does.
pub fn should_use_new_endpoint(
    request: &OpenAiChatRequest,
    use_new_chat_endpoint: bool,
    force_new_endpoint_for_tools: bool,
) -> (r: bool)
    ensures
        r == (use_new_chat_endpoint || (force_new_endpoint_for_tools && request.tools is Some)),
{
    if use_new_chat_endpoint {
        return true;
    }
    if force_new_endpoint_for_tools && request.tools.is_some() {
        return true;
    }
    false
}

} // verus!
