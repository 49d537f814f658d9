//! Embedding the system prompt and the tool definitions into the first user
//! message.

use vstd::prelude::*;
use crate::content::{ChatRequest, ChatRequestModel, OpenAiContent, OpenAiContentModel, content_text};
use crate::openai_types::{
    OpenAiChatMessage, OpenAiChatMessageModel, OpenAiChatRequest, ToolModel, converted_messages,
    generate_tool_xml, token_limit, tool_xml,
};
use crate::content::ContentObjectModel;
use crate::text::{join_with, lemma_join_with_push, owned, push_str, str_eq};

verus! {

broadcast use vstd::string::group_string_axioms;

/// Why embedding tools failed.
#[derive(Debug)]
pub enum ToolEmbeddingError {
    /// There is no user message to embed into.
    NoUserMessages,
    /// A tool definition could not be read; its message.
    InvalidTool(String),
    /// Converting the request failed; its message.
    ContentMerging(String),
}

/// Position of the first message with the given role.
pub open spec fn first_with_role(ms: Seq<OpenAiChatMessageModel>, role: Seq<char>) -> Option<int>
    decreases ms.len(),
{
    if ms.len() == 0 {
        None
    } else if ms[0].role == role {
        Some(0)
    } else {
        match first_with_role(ms.drop_first(), role) {
            Some(i) => Some(i + 1),
            None => None,
        }
    }
}

/// The texts of the objects of type `text`, in order.
pub open spec fn text_type_texts(objs: Seq<ContentObjectModel>) -> Seq<Seq<char>>
    decreases objs.len(),
{
    if objs.len() == 0 {
        Seq::empty()
    } else if objs.last().content_type == "text"@ {
        text_type_texts(objs.drop_last()).push(objs.last().text)
    } else {
        text_type_texts(objs.drop_last())
    }
}

/// The text of the first user message into which the preamble is merged: a
/// string as it is, the texts of an array's text objects joined by spaces,
/// nothing for null.
pub open spec fn merge_text(c: OpenAiContentModel) -> Seq<char> {
    match c {
        OpenAiContentModel::String(s) => s,
        OpenAiContentModel::Array(a) => join_with(text_type_texts(a), " "@),
        OpenAiContentModel::Null => Seq::empty(),
    }
}

/// What embedding gives. The first system message is taken out and its text
/// starts the preamble; the tool definitions follow (after a blank line where
/// there was system text). A non-empty preamble, a blank line and the first
/// user message's text become that message's content; without a user
/// message that is an error. The messages are then converted.
pub open spec fn embed_outcome(
    model: Seq<char>,
    msgs0: Seq<OpenAiChatMessageModel>,
    max_tokens: Option<u32>,
    max_completion_tokens: Option<u32>,
    tools: Option<Seq<ToolModel>>,
    r: Result<ChatRequest, ToolEmbeddingError>,
) -> bool {
    let sp = first_with_role(msgs0, "system"@);
    let system_text = match sp {
        Some(i) => content_text(msgs0[i].content),
        None => Seq::empty(),
    };
    let msgs1 = match sp {
        Some(i) => msgs0.remove(i),
        None => msgs0,
    };
    let tools_part = if tools matches Some(ts) && ts.len() > 0 {
        (if system_text.len() > 0 {
            "\n\n"@
        } else {
            Seq::empty()
        }) + tool_xml(tools->0)
    } else {
        Seq::empty()
    };
    let preamble = system_text + tools_part;
    let limit = token_limit(max_tokens, max_completion_tokens);
    if preamble.len() == 0 {
        r matches Ok(req) && req.deep_view() == (ChatRequestModel {
            model: model,
            messages: converted_messages(msgs1),
            max_tokens: limit,
        })
    } else {
        match first_with_role(msgs1, "user"@) {
            None => r matches Err(ToolEmbeddingError::NoUserMessages),
            Some(u) => r matches Ok(req) && req.deep_view() == (ChatRequestModel {
                model: model,
                messages: converted_messages(
                    msgs1.update(
                        u,
                        OpenAiChatMessageModel {
                            content: OpenAiContentModel::String(
                                preamble + "\n\n"@ + merge_text(msgs1[u].content),
                            ),
                            ..msgs1[u]
                        },
                    ),
                ),
                max_tokens: limit,
            }),
        }
    }
}

proof fn lemma_first_with_role_step(ms: Seq<OpenAiChatMessageModel>, role: Seq<char>, i: int)
    requires
        0 <= i < ms.len(),
        forall|k: int| 0 <= k < i ==> ms[k].role != role,
    ensures
        ms[i].role == role ==> first_with_role(ms, role) == Some(i),
    decreases i,
{
    if i > 0 {
        lemma_first_with_role_step(ms.drop_first(), role, i - 1);
    }
}

proof fn lemma_first_with_role_none(ms: Seq<OpenAiChatMessageModel>, role: Seq<char>)
    requires
        forall|k: int| 0 <= k < ms.len() ==> ms[k].role != role,
    ensures
        first_with_role(ms, role) is None,
    decreases ms.len(),
{
    if ms.len() > 0 {
        lemma_first_with_role_none(ms.drop_first(), role);
    }
}

/// Position of the first message with the given role.
pub(crate) fn position_of_role(messages: &Vec<OpenAiChatMessage>, role: &str) -> (r: Option<usize>)
    ensures
        match r {
            Some(i) => first_with_role(messages.deep_view(), role@) == Some(i as int) && i
                < messages.len(),
            None => first_with_role(messages.deep_view(), role@) is None,
        },
{
    let mut i: usize = 0;
    while i < messages.len()
        invariant
            i <= messages.len(),
            forall|k: int| 0 <= k < i ==> messages.deep_view()[k].role != role@,
        decreases messages.len() - i,
    {
        if str_eq(messages[i].role.as_str(), role) {
            proof {
                lemma_first_with_role_step(messages.deep_view(), role@, i as int);
            }
            return Some(i);
        }
        i += 1;
    }
    proof {
        lemma_first_with_role_none(messages.deep_view(), role@);
    }
    None
}

/// Takes the first system message out of the conversation and gives its text.
pub fn extract_system_message_content(messages: &mut Vec<OpenAiChatMessage>) -> (r: Option<String>)
    ensures
        match first_with_role(old(messages).deep_view(), "system"@) {
            Some(i) => {
                &&& r matches Some(t) && t@ == content_text(old(messages).deep_view()[i].content)
                &&& final(messages).deep_view() == old(messages).deep_view().remove(i)
            },
            None => r is None && final(messages).deep_view() == old(messages).deep_view(),
        },
{
    match position_of_role(messages, "system") {
        Some(pos) => {
            let ghost raw = messages@;
            let m = messages.remove(pos);
            assert(messages.deep_view() =~= old(messages).deep_view().remove(pos as int)) by {
                assert forall|k: int| 0 <= k < messages@.len() implies messages@[k] == (if k < pos {
                    raw[k]
                } else {
                    raw[k + 1]
                }) by {}
            }
            Some(m.content.to_text())
        },
        None => None,
    }
}

/// The merge text of content (see [`merge_text`]).
pub fn merge_text_of(c: &OpenAiContent) -> (r: String)
    ensures
        r@ == merge_text(c.deep_view()),
{
    match c {
        OpenAiContent::String(s) => s.clone(),
        OpenAiContent::Array(a) => {
            let mut out = String::new();
            let mut any = false;
            let mut i: usize = 0;
            while i < a.len()
                invariant
                    i <= a.len(),
                    any == (text_type_texts(a.deep_view().take(i as int)).len() > 0),
                    out@ == join_with(text_type_texts(a.deep_view().take(i as int)), " "@),
                decreases a.len() - i,
            {
                let ghost prev = a.deep_view().take(i as int);
                let ghost next = a.deep_view().take(i + 1);
                assert(next.drop_last() =~= prev);
                if str_eq(a[i].content_type.as_str(), "text") {
                    if any {
                        push_str(&mut out, " ");
                    }
                    push_str(&mut out, a[i].text.as_str());
                    proof {
                        lemma_join_with_push(text_type_texts(prev), " "@, a[i as int].text@);
                    }
                    any = true;
                }
                i += 1;
            }
            assert(a.deep_view().take(a.len() as int) =~= a.deep_view());
            out
        },
        OpenAiContent::Null => String::new(),
    }
}

/// Embeds the system prompt and the tool definitions into the first user
/// message and converts the request (see [`embed_outcome`]).
pub fn embed_tools_in_chat_request(openai_request: OpenAiChatRequest) -> (r: Result<ChatRequest, ToolEmbeddingError>)
    ensures
        embed_outcome(
            openai_request.model@,
            openai_request.messages.deep_view(),
            openai_request.max_tokens,
            openai_request.max_completion_tokens,
            openai_request.tools.deep_view(),
            r,
        ),
{
    let ghost msgs0 = openai_request.messages.deep_view();
    let ghost tools0 = openai_request.tools.deep_view();
    let ghost sp = first_with_role(msgs0, "system"@);
    let ghost msgs1 = match sp {
        Some(i) => msgs0.remove(i),
        None => msgs0,
    };
    let ghost system_text0 = match sp {
        Some(i) => content_text(msgs0[i].content),
        None => Seq::<char>::empty(),
    };
    let mut req = openai_request;
    let system = extract_system_message_content(&mut req.messages);
    assert(req.messages.deep_view() == msgs1);
    let tools = req.tools.take();
    let mut preamble = String::new();
    match &system {
        Some(s) => push_str(&mut preamble, s.as_str()),
        None => {},
    }
    let ghost system_text = preamble@;
    assert(system_text =~= system_text0);
    match &tools {
        Some(ts) => {
            if ts.len() > 0 {
                if !preamble.as_str().is_empty() {
                    push_str(&mut preamble, "\n\n");
                }
                let xml = generate_tool_xml(ts.as_slice(), req.model.as_str());
                push_str(&mut preamble, xml.as_str());
            }
        },
        None => {},
    }
    let ghost tools_part = if tools0 matches Some(ts) && ts.len() > 0 {
        (if system_text0.len() > 0 {
            "\n\n"@
        } else {
            Seq::empty()
        }) + tool_xml(tools0->0)
    } else {
        Seq::<char>::empty()
    };
    assert(preamble@ =~= system_text0 + tools_part);
    if !preamble.as_str().is_empty() {
        match position_of_role(&req.messages, "user") {
            None => return Err(ToolEmbeddingError::NoUserMessages),
            Some(u) => {
                let ghost before = req.messages.deep_view();
                let ghost raw = req.messages@;
                let mut m = req.messages.remove(u);
                let text = merge_text_of(&m.content);
                let mut merged = preamble.clone();
                push_str(&mut merged, "\n\n");
                push_str(&mut merged, text.as_str());
                m.content = OpenAiContent::String(merged);
                let ghost mv = m.deep_view();
                req.messages.insert(u, m);
                assert(req.messages.deep_view() =~= before.update(u as int, mv)) by {
                    assert forall|k: int| 0 <= k < req.messages@.len() && k != u implies req.messages@[k]
                        == raw[k] by {}
                }
            },
        }
    }
    assert(req.tools is None);
    assert(req.model@ == openai_request.model@);
    match req.to_straico_request() {
        Ok(c) => Ok(c),
        Err(e) => Err(ToolEmbeddingError::ContentMerging(e.message())),
    }
}

} // verus!
