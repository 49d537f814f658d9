//! The legacy completion endpoint: message conversion, its stream chunks
//! as JSON, and its errors.

use vstd::prelude::*;
use crate::completion::{Content, ContentModel, Message, MessageModel};
use crate::content::OpenAiContentModel;
use crate::openai_types::{OpenAiChatMessage, OpenAiChatMessageModel};
use crate::json::{json_string, push_json_string};
use crate::sse::json_number;
use crate::text::{owned, push_str, str_eq};
use crate::tool_embedding::merge_text;

verus! {

broadcast use vstd::string::group_string_axioms;

/// The legacy message for an OpenAI message: its text (a string as it is,
/// the texts of an array's text objects joined by spaces), as a user,
/// assistant or system message; any other role becomes a user message.
pub open spec fn legacy_message(m: OpenAiChatMessageModel) -> MessageModel {
    let text = ContentModel::Text(merge_text(m.content));
    if m.role == "assistant"@ {
        MessageModel::Assistant { content: Some(text), tool_calls: None }
    } else if m.role == "system"@ {
        MessageModel::System { content: text }
    } else {
        MessageModel::User { content: text }
    }
}

/// Converts an OpenAI message to a legacy message (see [`legacy_message`]).
pub fn convert_openai_message_to_legacy(msg: OpenAiChatMessage) -> (r: Message)
    ensures
        r.deep_view() == legacy_message(msg.deep_view()),
{
    let text = crate::tool_embedding::merge_text_of(&msg.content);
    let role = msg.role.as_str();
    proof {
        reveal_strlit("user");
        reveal_strlit("assistant");
        reveal_strlit("system");
    }
    if str_eq(role, "user") {
        assert(msg.deep_view().role == "user"@);
        assert(msg.deep_view().role != "assistant"@);
        assert(msg.deep_view().role != "system"@);
        let r = Message::User { content: Content::Text(text) };
        assert(r.deep_view() == MessageModel::User { content: ContentModel::Text(merge_text(msg.deep_view().content)) });
        r
    } else if str_eq(role, "assistant") {
        Message::Assistant { content: Some(Content::Text(text)), tool_calls: None }
    } else if str_eq(role, "system") {
        Message::System { content: Content::Text(text) }
    } else {
        Message::User { content: Content::Text(text) }
    }
}

/// An error of the legacy proxy; each variant keeps the message of the
/// error it wraps.
#[derive(Debug)]
pub enum CustomError {
    SerdeJson(String),
    ReqwestClient(String),
    Straico(String),
    ResponseParse(String),
    Anyhow(String),
}

/// The text an error displays.
pub open spec fn custom_error_text(e: CustomError) -> Seq<char> {
    match e {
        CustomError::SerdeJson(_) => "Failed to serialize or deserialize JSON"@,
        CustomError::ReqwestClient(_) => "Error from HTTP client"@,
        CustomError::Straico(_) => "Error from Straico API"@,
        CustomError::ResponseParse(_) => "Failed to parse response from Straico API"@,
        CustomError::Anyhow(_) => "An internal error occurred"@,
    }
}

/// An error chunk of the legacy stream: only a message.
#[derive(Debug)]
pub struct LegacyErrorChunk {
    pub message: String,
}

/// An error chunk holding the message.
pub fn create_error_chunk(error: &str) -> (r: LegacyErrorChunk)
    ensures
        r.message@ == error@,
{
    LegacyErrorChunk { message: owned(error) }
}

impl CustomError {
    /// The text the error displays.
    pub fn display_text(&self) -> (r: &'static str)
        ensures
            r@ == custom_error_text(*self),
    {
        match self {
            CustomError::SerdeJson(_) => "Failed to serialize or deserialize JSON",
            CustomError::ReqwestClient(_) => "Error from HTTP client",
            CustomError::Straico(_) => "Error from Straico API",
            CustomError::ResponseParse(_) => "Failed to parse response from Straico API",
            CustomError::Anyhow(_) => "An internal error occurred",
        }
    }

    /// The error as a streaming error chunk.
    pub fn to_streaming_chunk(&self) -> (r: LegacyErrorChunk)
        ensures
            r.message@ == custom_error_text(*self),
    {
        create_error_chunk(self.display_text())
    }

    /// The HTTP status answered: 400 for JSON errors, 500 otherwise.
    pub fn status_code(&self) -> (r: u16)
        ensures
            r == match *self {
                CustomError::SerdeJson(_) => 400u16,
                _ => 500u16,
            },
    {
        match self {
            CustomError::SerdeJson(_) => 400,
            _ => 500,
        }
    }
}

/// JSON of the first chunk of a legacy stream (keys in order).
pub open spec fn initial_chunk_json(model: Seq<char>, id: Seq<char>, created: u64) -> Seq<char> {
    "{\"choices\":[{\"delta\":{\"role\":\"assistant\"},\"index\":0}],\"created\":"@ + json_number(created)
        + ",\"id\":"@ + json_string(id) + ",\"model\":"@ + json_string(model)
        + ",\"object\":\"chat.completion.chunk\"}"@
}

/// JSON of a legacy heartbeat chunk: one choice with an empty delta.
pub open spec fn heartbeat_chunk_json() -> Seq<char> {
    "{\"choices\":[{\"delta\":{},\"index\":0}],\"object\":\"chat.completion.chunk\"}"@
}

/// JSON of a legacy error chunk.
pub open spec fn error_chunk_json(message: Seq<char>) -> Seq<char> {
    "{\"error\":{\"message\":"@ + json_string(message) + "}}"@
}

/// The first chunk of a legacy stream, created at `created` (seconds since
/// the Unix epoch), as JSON.
pub fn create_initial_chunk(model: &str, id: &str, created: u64) -> (r: String)
    ensures
        r@ == initial_chunk_json(model@, id@, created),
{
    let mut out = owned("{\"choices\":[{\"delta\":{\"role\":\"assistant\"},\"index\":0}],\"created\":");
    let digits = crate::number::decimal_string(created);
    push_str(&mut out, digits.as_str());
    push_str(&mut out, ",\"id\":");
    push_json_string(&mut out, id);
    push_str(&mut out, ",\"model\":");
    push_json_string(&mut out, model);
    push_str(&mut out, ",\"object\":\"chat.completion.chunk\"}");
    assert(out@ =~= initial_chunk_json(model@, id@, created));
    out
}

/// A legacy heartbeat chunk as JSON.
pub fn create_heartbeat_chunk() -> (r: String)
    ensures
        r@ == heartbeat_chunk_json(),
{
    owned("{\"choices\":[{\"delta\":{},\"index\":0}],\"object\":\"chat.completion.chunk\"}")
}

impl LegacyErrorChunk {
    /// The chunk as JSON: `{"error": {"message": …}}`.
    pub fn to_json(&self) -> (r: String)
        ensures
            r@ == error_chunk_json(self.message@),
    {
        let mut out = owned("{\"error\":{\"message\":");
        push_json_string(&mut out, self.message.as_str());
        push_str(&mut out, "}}");
        assert(out@ =~= error_chunk_json(self.message@));
        out
    }
}

} // verus!
