//! Server-sent-event chunks of a chat completion.

use vstd::prelude::*;
use crate::completion::Usage;
use crate::completion_stream::{ChoiceStream, ChoiceStreamModel, CompletionStreamModel, DeltaModel};
pub use crate::completion_stream::{CompletionStream, Delta};
use crate::text::owned;

verus! {

/// Character sent in heartbeat chunks while the upstream answer is pending.
#[derive(Debug, Clone, Copy, PartialEq, Eq, Structural)]
pub enum HeartbeatChar {
    /// Empty heartbeat (no content).
    Empty,
    /// Zero-width space (U+200B).
    Zwsp,
    /// Zero-width non-joiner (U+200C).
    Zwnj,
    /// Word joiner (U+2060).
    Wj,
}

impl Default for HeartbeatChar {
    fn default() -> (r: Self)
        ensures
            r == HeartbeatChar::Empty,
    {
        HeartbeatChar::Empty
    }
}

/// The text that a heartbeat character stands for.
pub open spec fn heartbeat_text(h: HeartbeatChar) -> Seq<char> {
    match h {
        HeartbeatChar::Empty => Seq::empty(),
        HeartbeatChar::Zwsp => seq!['\u{200b}'],
        HeartbeatChar::Zwnj => seq!['\u{200c}'],
        HeartbeatChar::Wj => seq!['\u{2060}'],
    }
}

impl HeartbeatChar {
    /// The heartbeat text: empty, or the one invisible character.
    pub fn as_str(&self) -> (r: &str)
        ensures
            r@ == heartbeat_text(*self),
    {
        match self {
            HeartbeatChar::Empty => {
                proof {
                    reveal_strlit("");
                }
                ""
            },
            HeartbeatChar::Zwsp => {
                proof {
                    reveal_strlit("\u{200b}");
                }
                "\u{200b}"
            },
            HeartbeatChar::Zwnj => {
                proof {
                    reveal_strlit("\u{200c}");
                }
                "\u{200c}"
            },
            HeartbeatChar::Wj => {
                proof {
                    reveal_strlit("\u{2060}");
                }
                "\u{2060}"
            },
        }
    }
}

/// The body of an error chunk: message, type and optional code.
#[derive(Debug)]
pub struct ErrorChunk {
    pub message: String,
    pub error_type: String,
    pub code: Option<String>,
}

/// An error chunk of type `server_error` and code `streaming_error`.
pub fn create_error_chunk(error: &str) -> (r: ErrorChunk)
    ensures
        r.message@ == error@,
        r.error_type@ == "server_error"@,
        r.code matches Some(c) && c@ == "streaming_error"@,
{
    ErrorChunk {
        message: owned(error),
        error_type: owned("server_error"),
        code: Some(owned("streaming_error")),
    }
}

/// An error chunk with the given message, type and code.
pub fn create_error_chunk_with_type(error: &str, error_type: &str, error_code: Option<&str>) -> (r: ErrorChunk)
    ensures
        r.message@ == error@,
        r.error_type@ == error_type@,
        match error_code {
            Some(c) => r.code matches Some(rc) && rc@ == c@,
            None => r.code is None,
        },
{
    ErrorChunk {
        message: owned(error),
        error_type: owned(error_type),
        code: match error_code {
            Some(c) => Some(owned(c)),
            None => None,
        },
    }
}

/// The first chunk of a stream: one choice that announces the assistant
/// role, no finish reason, zero usage.
pub open spec fn initial_chunk_model(model: Seq<char>, id: Seq<char>, created: u64) -> CompletionStreamModel {
    CompletionStreamModel {
        choices: seq![
            ChoiceStreamModel {
                index: 0,
                delta: DeltaModel { role: Some("assistant"@), content: None, tool_calls: None },
                finish_reason: None,
            },
        ],
        object: "chat.completion.chunk"@,
        id: id,
        model: model,
        created: created,
        usage: Usage { prompt_tokens: 0, completion_tokens: 0, total_tokens: 0 },
    }
}

/// A heartbeat chunk: one choice whose delta holds the heartbeat text (none
/// for the empty heartbeat), empty id and model, time zero, zero usage.
pub open spec fn heartbeat_chunk_model(h: HeartbeatChar) -> CompletionStreamModel {
    CompletionStreamModel {
        choices: seq![
            ChoiceStreamModel {
                index: 0,
                delta: DeltaModel {
                    role: None,
                    content: if heartbeat_text(h).len() == 0 {
                        None
                    } else {
                        Some(heartbeat_text(h))
                    },
                    tool_calls: None,
                },
                finish_reason: None,
            },
        ],
        object: "chat.completion.chunk"@,
        id: Seq::empty(),
        model: Seq::empty(),
        created: 0,
        usage: Usage { prompt_tokens: 0, completion_tokens: 0, total_tokens: 0 },
    }
}

impl CompletionStream {
    /// The first chunk of a stream (see [`initial_chunk_model`]).
    pub fn initial_chunk(model: &str, id: &str, created: u64) -> (r: CompletionStream)
        ensures
            r.deep_view() == initial_chunk_model(model@, id@, created),
    {
        let mut choices = Vec::new();
        choices.push(
            ChoiceStream {
                index: 0,
                delta: Delta { role: Some(owned("assistant")), content: None, tool_calls: None },
                finish_reason: None,
            },
        );
        let r = CompletionStream {
            choices,
            object: owned("chat.completion.chunk"),
            id: owned(id),
            model: owned(model),
            created,
            usage: Usage::default(),
        };
        assert(r.deep_view().choices =~= initial_chunk_model(model@, id@, created).choices);
        r
    }

    /// A heartbeat chunk (see [`heartbeat_chunk_model`]).
    pub fn heartbeat_chunk(heartbeat_char: &HeartbeatChar) -> (r: CompletionStream)
        ensures
            r.deep_view() == heartbeat_chunk_model(*heartbeat_char),
    {
        let content = heartbeat_char.as_str();
        let content_option = if content.is_empty() {
            None
        } else {
            Some(owned(content))
        };
        let mut choices = Vec::new();
        choices.push(
            ChoiceStream {
                index: 0,
                delta: Delta { role: None, content: content_option, tool_calls: None },
                finish_reason: None,
            },
        );
        let r = CompletionStream {
            choices,
            object: owned("chat.completion.chunk"),
            id: String::new(),
            model: String::new(),
            created: 0,
            usage: Usage::default(),
        };
        assert(r.deep_view().choices =~= heartbeat_chunk_model(*heartbeat_char).choices);
        assert(r.deep_view().id =~= Seq::<char>::empty());
        r
    }
}

/// A server-sent event of a stream.
#[derive(Debug)]
pub enum SseChunk {
    /// A completion chunk, sent as its JSON.
    Data(CompletionStream),
    /// The end marker, sent as it is (typically `[DONE]`).
    Done(String),
    /// An error, sent as the JSON `{"error": …}`.
    Error(ErrorChunk),
}

impl SseChunk {
    /// An event carrying a completion chunk.
    pub fn from_stream(stream: CompletionStream) -> (r: SseChunk)
        ensures
            r == SseChunk::Data(stream),
    {
        SseChunk::Data(stream)
    }

    /// An event carrying an end marker.
    pub fn from_done(msg: String) -> (r: SseChunk)
        ensures
            r == SseChunk::Done(msg),
    {
        SseChunk::Done(msg)
    }

    /// An event carrying an error.
    pub fn from_error(error: ErrorChunk) -> (r: SseChunk)
        ensures
            r == SseChunk::Error(error),
    {
        SseChunk::Error(error)
    }

    /// An event carrying a proxy error, as its streaming error chunk.
    pub fn from_proxy_error(error: &crate::error::ProxyError) -> (r: SseChunk)
        ensures
            r matches SseChunk::Error(c) && c.message@ == crate::error::error_message_text(*error)
                && c.error_type@ == crate::error::error_type_text(*error) && (c.code matches Some(
                k) && k@ == crate::error::error_code_text(*error)),
    {
        SseChunk::Error(error.to_streaming_chunk())
    }
}

/// The bytes `data: `.
pub open spec fn sse_prefix() -> Seq<u8> {
    seq![0x64u8, 0x61u8, 0x74u8, 0x61u8, 0x3Au8, 0x20u8]
}

/// The bytes of a blank line ending an event.
pub open spec fn sse_suffix() -> Seq<u8> {
    seq![0x0Au8, 0x0Au8]
}

/// Frames a payload as a server-sent event: `data: `, the payload, and a
/// blank line.
pub fn frame_sse(payload: &[u8]) -> (r: Vec<u8>)
    ensures
        r@ == sse_prefix() + payload@ + sse_suffix(),
{
    let mut out: Vec<u8> = Vec::new();
    out.push(0x64u8);
    out.push(0x61u8);
    out.push(0x74u8);
    out.push(0x61u8);
    out.push(0x3Au8);
    out.push(0x20u8);
    let mut i: usize = 0;
    while i < payload.len()
        invariant
            i <= payload.len(),
            out@ == sse_prefix() + payload@.take(i as int),
        decreases payload.len() - i,
    {
        out.push(payload[i]);
        assert(payload@.take(i + 1) =~= payload@.take(i as int).push(payload@[i as int]));
        i += 1;
    }
    out.push(0x0Au8);
    out.push(0x0Au8);
    assert(payload@.take(payload.len() as int) =~= payload@);
    assert(out@ =~= sse_prefix() + payload@ + sse_suffix());
    out
}

} // verus!
