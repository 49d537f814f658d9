//! Chat responses of the new chat endpoint: the fields that OpenAI clients
//! expect are filled in where the upstream left them out.

use vstd::prelude::*;
use rand::Rng;
use crate::completion::Usage;
use crate::content::ContentObject;
use crate::openai_types::{OpenAiChatRequest, OpenAiTool, OpenAiToolCall, OpenAiToolChoice};
use crate::text::{owned, push_char};

verus! {

broadcast use vstd::string::group_string_axioms;

/// The content of a response message: text, or content objects.
#[derive(Debug)]
pub enum ChatResponseContent {
    Text(String),
    Array(Vec<ContentObject>),
}

/// The message of a response choice.
#[derive(Debug)]
pub struct ChatResponseMessage {
    pub role: String,
    pub content: Option<ChatResponseContent>,
    pub tool_calls: Option<Vec<OpenAiToolCall>>,
}

/// One choice of a chat response.
#[derive(Debug)]
pub struct ChatChoice {
    pub message: ChatResponseMessage,
    pub finish_reason: String,
    pub index: Option<u32>,
}

/// A chat response of the new chat endpoint.
#[derive(Debug)]
pub struct ChatResponse {
    pub choices: Vec<ChatChoice>,
    pub model: String,
    pub usage: Option<Usage>,
    pub id: Option<String>,
    pub object: Option<String>,
    pub created: Option<u64>,
    pub tool_choice: Option<OpenAiToolChoice>,
    pub tools: Option<Vec<OpenAiTool>>,
}

/// `c` is an ASCII letter or digit.
pub open spec fn is_ascii_alphanumeric(c: char) -> bool {
    ('a' <= c && c <= 'z') || ('A' <= c && c <= 'Z') || ('0' <= c && c <= '9')
}

/// One character drawn by `rand`'s `Alphanumeric` distribution from the
/// thread-local generator; the crate documents it as uniform over the ASCII
/// letters and digits. Which one comes out is left open.
#[verifier::external_body]
fn random_alphanumeric_char() -> (r: char)
    ensures
        is_ascii_alphanumeric(r),
{
    char::from(rand::thread_rng().sample(rand::distributions::Alphanumeric))
}

/// The prefix of generated completion ids.
pub open spec fn completion_id_prefix() -> Seq<char> {
    "chatcmpl-"@
}

/// A completion id as generated here: the prefix and 29 ASCII letters or
/// digits.
pub open spec fn is_completion_id(s: Seq<char>) -> bool {
    &&& s.len() == 38
    &&& s.take(9) == completion_id_prefix()
    &&& forall|i: int| 9 <= i < 38 ==> is_ascii_alphanumeric(#[trigger] s[i])
}

/// Generates a chat completion id in the OpenAI format: `chatcmpl-` and 29
/// random ASCII letters or digits.
pub fn generate_chat_completion_id() -> (r: String)
    ensures
        is_completion_id(r@),
{
    let mut id = owned("chatcmpl-");
    proof {
        reveal_strlit("chatcmpl-");
    }
    let mut i: usize = 0;
    while i < 29
        invariant
            i <= 29,
            id@.len() == 9 + i,
            id@.take(9) == completion_id_prefix(),
            forall|k: int| 9 <= k < 9 + i ==> is_ascii_alphanumeric(#[trigger] id@[k]),
        decreases 29 - i,
    {
        let c = random_alphanumeric_char();
        let ghost before = id@;
        push_char(&mut id, c);
        assert(id@.take(9) =~= before.take(9));
        i += 1;
    }
    id
}

/// The model a response reports: its own, or the request's where its own is
/// empty.
pub open spec fn reported_model(response_model: Seq<char>, request_model: Seq<char>) -> Seq<char> {
    if response_model.len() == 0 && request_model.len() > 0 {
        request_model
    } else {
        response_model
    }
}

/// The response with its id, object, creation time and model filled in
/// where missing: the id with `fresh_id`, the object with
/// `chat.completion`, the time with `now`, an empty model with the
/// request's model. Everything else is left as it is.
pub fn enhance_chat_response_with(
    response: ChatResponse,
    original_request: &OpenAiChatRequest,
    include_debug: bool,
    fresh_id: String,
    now: u64,
) -> (r: ChatResponse)
    ensures
        r.id.deep_view() == match response.id {
            Some(i) => Some(i@),
            None => Some(fresh_id@),
        },
        r.object.deep_view() == match response.object {
            Some(o) => Some(o@),
            None => Some("chat.completion"@),
        },
        r.created == match response.created {
            Some(c) => Some(c),
            None => Some(now),
        },
        r.model@ == reported_model(response.model@, original_request.model@),
        r.choices == response.choices,
        r.usage == response.usage,
        r.tool_choice == response.tool_choice,
        r.tools == response.tools,
{
    let ChatResponse { choices, model, usage, id, object, created, tool_choice, tools } = response;
    let id = match id {
        Some(i) => Some(i),
        None => Some(fresh_id),
    };
    let object = match object {
        Some(o) => Some(o),
        None => Some(owned("chat.completion")),
    };
    let created = match created {
        Some(c) => Some(c),
        None => Some(now),
    };
    let model = if model.as_str().is_empty() && !original_request.model.as_str().is_empty() {
        original_request.model.clone()
    } else {
        model
    };
    ChatResponse { choices, model, usage, id, object, created, tool_choice, tools }
}

/// Enhances a chat response with OpenAI-compatible metadata: a generated id
/// where it has none (see [`generate_chat_completion_id`]), and the rest as
/// [`enhance_chat_response_with`] fills it, with `now` as the creation time.
pub fn enhance_chat_response(
    response: ChatResponse,
    original_request: &OpenAiChatRequest,
    include_debug: bool,
    now: u64,
) -> (r: ChatResponse)
    ensures
        match response.id {
            Some(i) => r.id.deep_view() == Some(i@),
            None => r.id matches Some(i) && is_completion_id(i@),
        },
        r.object.deep_view() == match response.object {
            Some(o) => Some(o@),
            None => Some("chat.completion"@),
        },
        r.created == match response.created {
            Some(c) => Some(c),
            None => Some(now),
        },
        r.model@ == reported_model(response.model@, original_request.model@),
        r.choices == response.choices,
        r.usage == response.usage,
        r.tool_choice == response.tool_choice,
        r.tools == response.tools,
{
    let fresh_id = if response.id.is_none() {
        generate_chat_completion_id()
    } else {
        String::new()
    };
    enhance_chat_response_with(response, original_request, include_debug, fresh_id, now)
}

/// A response is usable when it has at least one choice.
pub fn validate_chat_response(response: &ChatResponse) -> (r: Result<(), String>)
    ensures
        r is Ok <==> response.choices@.len() > 0,
        r matches Err(m) ==> m@ == "Response has no choices"@,
{
    if response.choices.len() == 0 {
        Err(owned("Response has no choices"))
    } else {
        Ok(())
    }
}

/// Filling in the model twice changes nothing the second time.
pub proof fn law_reported_model_is_stable(response_model: Seq<char>, request_model: Seq<char>)
    ensures
        reported_model(reported_model(response_model, request_model), request_model)
            == reported_model(response_model, request_model),
{
}

} // verus!
