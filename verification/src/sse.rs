//! The bytes of server-sent events: each chunk as compact JSON (the error
//! body as `{"error": …}` with its keys in order), the end marker as it is,
//! framed by `data: ` and a blank line.

use vstd::prelude::*;
use crate::completion::{ToolCall, ToolCallModel, Usage};
use crate::completion_stream::{ChoiceStream, ChoiceStreamModel, CompletionStream, CompletionStreamModel, Delta, DeltaModel};
use crate::json::{json_string, push_json_string};
use crate::number::{decimal_string, decimal_text};
use crate::streaming::{ErrorChunk, SseChunk, frame_sse, sse_prefix, sse_suffix};
use crate::text::{join_with, lemma_join_with_push, push_str};
use vstd::utf8::encode_utf8;

verus! {

broadcast use vstd::string::group_string_axioms;

/// JSON of a number.
pub open spec fn json_number(n: u64) -> Seq<char> {
    decimal_text(n as nat)
}

/// JSON of token usage.
pub open spec fn usage_json(u: Usage) -> Seq<char> {
    "{\"prompt_tokens\":"@ + json_number(u.prompt_tokens as u64) + ",\"completion_tokens\":"@
        + json_number(u.completion_tokens as u64) + ",\"total_tokens\":"@ + json_number(
        u.total_tokens as u64,
    ) + "}"@
}

/// JSON of a tool call: its type tag first, then its id and function.
pub open spec fn tool_call_json(c: ToolCallModel) -> Seq<char> {
    "{\"type\":\"function\",\"id\":"@ + json_string(c.id) + ",\"function\":{\"name\":"@ + json_string(
        c.function.name,
    ) + ",\"arguments\":"@ + json_string(c.function.arguments) + "}}"@
}

/// JSON of a list of tool calls.
pub open spec fn tool_calls_json(cs: Seq<ToolCallModel>) -> Seq<char> {
    "["@ + join_with(cs.map_values(|c: ToolCallModel| tool_call_json(c)), ","@) + "]"@
}

/// The members of a delta's JSON: those of its fields that are present.
pub open spec fn delta_members(d: DeltaModel) -> Seq<Seq<char>> {
    (match d.role {
        Some(r) => seq!["\"role\":"@ + json_string(r)],
        None => seq![],
    }) + (match d.content {
        Some(c) => seq!["\"content\":"@ + json_string(c)],
        None => seq![],
    }) + (match d.tool_calls {
        Some(t) => seq!["\"tool_calls\":"@ + tool_calls_json(t)],
        None => seq![],
    })
}

/// JSON of a delta: its present fields only.
pub open spec fn delta_json(d: DeltaModel) -> Seq<char> {
    "{"@ + join_with(delta_members(d), ","@) + "}"@
}

/// JSON of an optional string: the string, or `null`.
pub open spec fn optional_string_json(s: Option<Seq<char>>) -> Seq<char> {
    match s {
        Some(t) => json_string(t),
        None => "null"@,
    }
}

/// JSON of a stream choice.
pub open spec fn choice_json(c: ChoiceStreamModel) -> Seq<char> {
    "{\"index\":"@ + json_number(c.index as u64) + ",\"delta\":"@ + delta_json(c.delta)
        + ",\"finish_reason\":"@ + optional_string_json(c.finish_reason) + "}"@
}

/// JSON of a stream chunk.
pub open spec fn chunk_json(s: CompletionStreamModel) -> Seq<char> {
    "{\"choices\":["@ + join_with(s.choices.map_values(|c: ChoiceStreamModel| choice_json(c)), ","@)
        + "],\"object\":"@ + json_string(s.object) + ",\"id\":"@ + json_string(s.id) + ",\"model\":"@
        + json_string(s.model) + ",\"created\":"@ + json_number(s.created) + ",\"usage\":"@
        + usage_json(s.usage) + "}"@
}

/// JSON of an error body; its keys in order: code, message, type.
pub open spec fn error_json(message: Seq<char>, error_type: Seq<char>, code: Option<Seq<char>>) -> Seq<char> {
    "{\"error\":{\"code\":"@ + optional_string_json(code) + ",\"message\":"@ + json_string(message)
        + ",\"type\":"@ + json_string(error_type) + "}}"@
}

/// The text an event carries.
pub open spec fn event_payload(c: SseChunk) -> Seq<char> {
    match c {
        SseChunk::Data(s) => chunk_json(s.deep_view()),
        SseChunk::Done(m) => m@,
        SseChunk::Error(e) => error_json(e.message@, e.error_type@, e.code.deep_view()),
    }
}

fn push_number(out: &mut String, n: u64)
    ensures
        final(out)@ == old(out)@ + json_number(n),
{
    let d = decimal_string(n);
    push_str(out, d.as_str());
}

fn push_usage_json(out: &mut String, u: &Usage)
    ensures
        final(out)@ == old(out)@ + usage_json(*u),
{
    let ghost start = out@;
    push_str(out, "{\"prompt_tokens\":");
    push_number(out, u.prompt_tokens as u64);
    push_str(out, ",\"completion_tokens\":");
    push_number(out, u.completion_tokens as u64);
    push_str(out, ",\"total_tokens\":");
    push_number(out, u.total_tokens as u64);
    push_str(out, "}");
    assert(out@ =~= start + usage_json(*u));
}

fn push_tool_call_json(out: &mut String, c: &ToolCall)
    ensures
        final(out)@ == old(out)@ + tool_call_json(c.deep_view()),
{
    let ghost start = out@;
    match c {
        ToolCall::Function { id, function } => {
            push_str(out, "{\"type\":\"function\",\"id\":");
            push_json_string(out, id.as_str());
            push_str(out, ",\"function\":{\"name\":");
            push_json_string(out, function.name.as_str());
            push_str(out, ",\"arguments\":");
            push_json_string(out, function.arguments.as_str());
            push_str(out, "}}");
        },
    }
    assert(out@ =~= start + tool_call_json(c.deep_view()));
}

fn push_tool_calls_json(out: &mut String, cs: &Vec<ToolCall>)
    ensures
        final(out)@ == old(out)@ + tool_calls_json(cs.deep_view()),
{
    let ghost start = out@;
    let ghost all = cs.deep_view().map_values(|c: ToolCallModel| tool_call_json(c));
    push_str(out, "[");
    let mut i: usize = 0;
    while i < cs.len()
        invariant
            i <= cs.len(),
            all == cs.deep_view().map_values(|c: ToolCallModel| tool_call_json(c)),
            out@ == start + "["@ + join_with(all.take(i as int), ","@),
        decreases cs.len() - i,
    {
        let ghost before = out@;
        if i > 0 {
            push_str(out, ",");
        }
        push_tool_call_json(out, &cs[i]);
        proof {
            assert(all.take(i + 1) =~= all.take(i as int).push(all[i as int]));
            assert(all[i as int] == tool_call_json(cs.deep_view()[i as int]));
            lemma_join_with_push(all.take(i as int), ","@, all[i as int]);
        }
        i += 1;
    }
    push_str(out, "]");
    assert(all.take(cs.len() as int) =~= all);
    assert(out@ =~= start + tool_calls_json(cs.deep_view()));
}

/// Appends the parts separated by commas.
fn push_joined(out: &mut String, parts: &Vec<String>)
    ensures
        final(out)@ == old(out)@ + join_with(parts.deep_view(), ","@),
{
    let ghost start = out@;
    let ghost all = parts.deep_view();
    let mut i: usize = 0;
    while i < parts.len()
        invariant
            i <= parts.len(),
            all == parts.deep_view(),
            out@ == start + join_with(all.take(i as int), ","@),
        decreases parts.len() - i,
    {
        if i > 0 {
            push_str(out, ",");
        }
        push_str(out, parts[i].as_str());
        proof {
            assert(all.take(i + 1) =~= all.take(i as int).push(all[i as int]));
            lemma_join_with_push(all.take(i as int), ","@, all[i as int]);
        }
        i += 1;
    }
    assert(all.take(parts.len() as int) =~= all);
}

/// The members of a delta's JSON.
fn delta_member_texts(d: &Delta) -> (r: Vec<String>)
    ensures
        r.deep_view() == delta_members(d.deep_view()),
{
    let mut parts: Vec<String> = Vec::new();
    let ghost dv = d.deep_view();
    match &d.role {
        Some(r) => {
            let mut m = String::new();
            push_str(&mut m, "\"role\":");
            push_json_string(&mut m, r.as_str());
            parts.push(m);
        },
        None => {},
    }
    let ghost p1 = parts.deep_view();
    assert(p1 =~= match dv.role {
        Some(r) => seq!["\"role\":"@ + json_string(r)],
        None => Seq::<Seq<char>>::empty(),
    });
    match &d.content {
        Some(c) => {
            let mut m = String::new();
            push_str(&mut m, "\"content\":");
            push_json_string(&mut m, c.as_str());
            parts.push(m);
        },
        None => {},
    }
    let ghost p2 = parts.deep_view();
    assert(p2 =~= p1 + match dv.content {
        Some(c) => seq!["\"content\":"@ + json_string(c)],
        None => Seq::<Seq<char>>::empty(),
    });
    match &d.tool_calls {
        Some(t) => {
            let mut m = String::new();
            push_str(&mut m, "\"tool_calls\":");
            push_tool_calls_json(&mut m, t);
            parts.push(m);
        },
        None => {},
    }
    assert(parts.deep_view() =~= p2 + match dv.tool_calls {
        Some(t) => seq!["\"tool_calls\":"@ + tool_calls_json(t)],
        None => Seq::<Seq<char>>::empty(),
    });
    parts
}

fn push_delta_json(out: &mut String, d: &Delta)
    ensures
        final(out)@ == old(out)@ + delta_json(d.deep_view()),
{
    let ghost start = out@;
    let parts = delta_member_texts(d);
    push_str(out, "{");
    push_joined(out, &parts);
    push_str(out, "}");
    assert(out@ =~= start + delta_json(d.deep_view()));
}

fn push_optional_string_json(out: &mut String, s: &Option<String>)
    ensures
        final(out)@ == old(out)@ + optional_string_json(s.deep_view()),
{
    match s {
        Some(t) => push_json_string(out, t.as_str()),
        None => {
            proof {
                reveal_strlit("null");
            }
            push_str(out, "null");
        },
    }
}

fn push_choice_json(out: &mut String, c: &ChoiceStream)
    ensures
        final(out)@ == old(out)@ + choice_json(c.deep_view()),
{
    let ghost start = out@;
    push_str(out, "{\"index\":");
    push_number(out, c.index as u64);
    push_str(out, ",\"delta\":");
    push_delta_json(out, &c.delta);
    push_str(out, ",\"finish_reason\":");
    push_optional_string_json(out, &c.finish_reason);
    push_str(out, "}");
    assert(out@ =~= start + choice_json(c.deep_view()));
}

/// The compact JSON of a stream chunk.
pub fn chunk_json_text(s: &CompletionStream) -> (r: String)
    ensures
        r@ == chunk_json(s.deep_view()),
{
    let mut out = String::new();
    let ghost all = s.choices.deep_view().map_values(|c: ChoiceStreamModel| choice_json(c));
    push_str(&mut out, "{\"choices\":[");
    let mut i: usize = 0;
    while i < s.choices.len()
        invariant
            i <= s.choices.len(),
            all == s.choices.deep_view().map_values(|c: ChoiceStreamModel| choice_json(c)),
            out@ == "{\"choices\":["@ + join_with(all.take(i as int), ","@),
        decreases s.choices.len() - i,
    {
        if i > 0 {
            push_str(&mut out, ",");
        }
        push_choice_json(&mut out, &s.choices[i]);
        proof {
            assert(all.take(i + 1) =~= all.take(i as int).push(all[i as int]));
            assert(all[i as int] == choice_json(s.choices.deep_view()[i as int]));
            lemma_join_with_push(all.take(i as int), ","@, all[i as int]);
        }
        i += 1;
    }
    assert(all.take(s.choices.len() as int) =~= all);
    push_str(&mut out, "],\"object\":");
    push_json_string(&mut out, s.object.as_str());
    push_str(&mut out, ",\"id\":");
    push_json_string(&mut out, s.id.as_str());
    push_str(&mut out, ",\"model\":");
    push_json_string(&mut out, s.model.as_str());
    push_str(&mut out, ",\"created\":");
    push_number(&mut out, s.created);
    push_str(&mut out, ",\"usage\":");
    push_usage_json(&mut out, &s.usage);
    push_str(&mut out, "}");
    assert(out@ =~= chunk_json(s.deep_view()));
    out
}

/// The JSON body of an error chunk.
pub fn error_json_text(e: &ErrorChunk) -> (r: String)
    ensures
        r@ == error_json(e.message@, e.error_type@, e.code.deep_view()),
{
    let mut out = String::new();
    push_str(&mut out, "{\"error\":{\"code\":");
    push_optional_string_json(&mut out, &e.code);
    push_str(&mut out, ",\"message\":");
    push_json_string(&mut out, e.message.as_str());
    push_str(&mut out, ",\"type\":");
    push_json_string(&mut out, e.error_type.as_str());
    push_str(&mut out, "}}");
    assert(out@ =~= error_json(e.message@, e.error_type@, e.code.deep_view()));
    out
}

/// The bytes of the server-sent event for a chunk: `data: `, the chunk's
/// text in UTF-8 (see [`event_payload`]), a blank line.
pub fn sse_event(chunk: &SseChunk) -> (r: Vec<u8>)
    ensures
        r@ == sse_prefix() + encode_utf8(event_payload(*chunk)) + sse_suffix(),
{
    let text = match chunk {
        SseChunk::Data(s) => chunk_json_text(s),
        SseChunk::Done(m) => m.clone(),
        SseChunk::Error(e) => error_json_text(e),
    };
    frame_sse(text.as_str().as_bytes())
}

} // verus!
