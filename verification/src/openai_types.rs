//! OpenAI chat requests and their conversion to the Straico chat format.

use vstd::prelude::*;
use crate::content::{
    ChatMessage, ChatMessageModel, ChatRequest, ChatRequestModel, ContentObject,
    ContentObjectModel, OpenAiContent, OpenAiContentModel, content_objects_of, text_object,
};
use crate::error::ProxyError;
use crate::tool_embedding::{first_with_role, merge_text, merge_text_of, position_of_role};
use crate::json::{json_string, push_json_string};
use crate::text::{
    concat_all, join_with, lemma_concat_all_push, lemma_join_with_push, owned, push_str,
    replace_all, replace_chars, str_eq, string_of, chars_of,
};

verus! {

broadcast use vstd::string::group_string_axioms;

// ---------------------------------------------------------------------------
// Types
// ---------------------------------------------------------------------------

/// A function call within a tool call.
#[derive(Debug)]
pub struct OpenAiFunctionCall {
    /// The name of the function being called.
    pub name: String,
    /// The arguments, as a JSON string.
    pub arguments: String,
}

/// A tool call made by the assistant.
#[derive(Debug)]
pub struct OpenAiToolCall {
    /// The ID of the tool call.
    pub id: String,
    /// The type of the tool (typically "function").
    pub tool_type: String,
    /// The function call details.
    pub function: OpenAiFunctionCall,
}

/// Model of a tool call.
pub struct ToolCallModel {
    pub id: Seq<char>,
    pub tool_type: Seq<char>,
    pub name: Seq<char>,
    pub arguments: Seq<char>,
}

impl DeepView for OpenAiToolCall {
    type V = ToolCallModel;

    open spec fn deep_view(&self) -> ToolCallModel {
        ToolCallModel {
            id: self.id@,
            tool_type: self.tool_type@,
            name: self.function.name@,
            arguments: self.function.arguments@,
        }
    }
}

/// A chat message in OpenAI format.
#[derive(Debug)]
pub struct OpenAiChatMessage {
    /// The role of the sender (system, user, assistant, tool).
    pub role: String,
    /// The content, as a string, an array of content objects, or null.
    pub content: OpenAiContent,
    /// Tool call ID for tool messages.
    pub tool_call_id: Option<String>,
    /// Name for function/tool messages.
    pub name: Option<String>,
    /// Tool calls made by assistant messages.
    pub tool_calls: Option<Vec<OpenAiToolCall>>,
}

/// Model of an OpenAI chat message.
pub struct OpenAiChatMessageModel {
    pub role: Seq<char>,
    pub content: OpenAiContentModel,
    pub tool_call_id: Option<Seq<char>>,
    pub name: Option<Seq<char>>,
    pub tool_calls: Option<Seq<ToolCallModel>>,
}

impl DeepView for OpenAiChatMessage {
    type V = OpenAiChatMessageModel;

    open spec fn deep_view(&self) -> OpenAiChatMessageModel {
        OpenAiChatMessageModel {
            role: self.role@,
            content: self.content.deep_view(),
            tool_call_id: self.tool_call_id.deep_view(),
            name: self.name.deep_view(),
            tool_calls: self.tool_calls.deep_view(),
        }
    }
}

/// A function definition within a tool.
#[derive(Debug)]
pub struct OpenAiFunction {
    /// The name of the function.
    pub name: String,
    /// A description of what the function does.
    pub description: Option<String>,
    /// The JSON Schema of the parameters, as pretty-printed JSON text.
    pub parameters: Option<String>,
}

/// Model of a function definition.
pub struct FunctionModel {
    pub name: Seq<char>,
    pub description: Option<Seq<char>>,
    pub parameters: Option<Seq<char>>,
}

impl DeepView for OpenAiFunction {
    type V = FunctionModel;

    open spec fn deep_view(&self) -> FunctionModel {
        FunctionModel {
            name: self.name@,
            description: self.description.deep_view(),
            parameters: self.parameters.deep_view(),
        }
    }
}

/// A tool available to the model.
#[derive(Debug)]
pub struct OpenAiTool {
    /// The type of the tool (typically "function").
    pub tool_type: String,
    /// The function definition.
    pub function: OpenAiFunction,
}

/// Model of a tool.
pub struct ToolModel {
    pub tool_type: Seq<char>,
    pub function: FunctionModel,
}

impl DeepView for OpenAiTool {
    type V = ToolModel;

    open spec fn deep_view(&self) -> ToolModel {
        ToolModel { tool_type: self.tool_type@, function: self.function.deep_view() }
    }
}

/// A named tool choice.
#[derive(Debug)]
pub struct OpenAiNamedToolChoice {
    /// The type of the tool (typically "function").
    pub tool_type: String,
    /// The specific function to use.
    pub function: OpenAiFunction,
}

/// A tool choice: "none", "auto", "required", or a named tool.
#[derive(Debug)]
pub enum OpenAiToolChoice {
    String(String),
    Object(OpenAiNamedToolChoice),
}

/// An OpenAI chat request. The sampling temperature, a float, is carried
/// beside it by the caller.
#[derive(Debug)]
pub struct OpenAiChatRequest {
    /// The model identifier.
    pub model: String,
    /// The chat messages.
    pub messages: Vec<OpenAiChatMessage>,
    /// Maximum number of tokens to generate.
    pub max_tokens: Option<u32>,
    /// Maximum number of completion tokens (used where `max_tokens` is absent).
    pub max_completion_tokens: Option<u32>,
    /// Whether to stream the response.
    pub stream: bool,
    /// Tools available to the model.
    pub tools: Option<Vec<OpenAiTool>>,
    /// Tool choice.
    pub tool_choice: Option<OpenAiToolChoice>,
}

impl OpenAiChatRequest {
    /// A request for `default-model` with no messages and nothing set.
    pub fn default_request() -> (r: OpenAiChatRequest)
        ensures
            r.model@ == "default-model"@,
            r.messages@.len() == 0,
            r.max_tokens is None,
            r.max_completion_tokens is None,
            !r.stream,
            r.tools is None,
            r.tool_choice is None,
    {
        OpenAiChatRequest {
            model: owned("default-model"),
            messages: Vec::new(),
            max_tokens: None,
            max_completion_tokens: None,
            stream: false,
            tools: None,
            tool_choice: None,
        }
    }
}

// ---------------------------------------------------------------------------
// JSON text
// ---------------------------------------------------------------------------

/// Compact JSON of one tool call: `{"id":…,"type":…,"function":{"name":…,"arguments":…}}`.
pub open spec fn tool_call_json(c: ToolCallModel) -> Seq<char> {
    "{\"id\":"@ + json_string(c.id) + ",\"type\":"@ + json_string(c.tool_type)
        + ",\"function\":{\"name\":"@ + json_string(c.name) + ",\"arguments\":"@ + json_string(
        c.arguments,
    ) + "}}"@
}

/// Compact JSON array of tool calls.
pub open spec fn tool_calls_json(cs: Seq<ToolCallModel>) -> Seq<char> {
    "["@ + join_with(cs.map_values(|c: ToolCallModel| tool_call_json(c)), ","@) + "]"@
}

/// Compact JSON of a tool output: `{"tool_call_id":…,"output":…}`.
pub open spec fn tool_output_json(id: Seq<char>, output: Seq<char>) -> Seq<char> {
    "{\"tool_call_id\":"@ + json_string(id) + ",\"output\":"@ + json_string(output) + "}"@
}

/// Pretty JSON of a function definition, fields in order, absent ones left
/// out, the parameters' JSON indented one level.
pub open spec fn function_pretty_json(f: FunctionModel) -> Seq<char> {
    "{\n  \"name\": "@ + json_string(f.name) + match f.description {
        Some(d) => ",\n  \"description\": "@ + json_string(d),
        None => Seq::empty(),
    } + match f.parameters {
        Some(p) => ",\n  \"parameters\": "@ + replace_all(p, "\n"@, "\n  "@),
        None => Seq::empty(),
    } + "\n}"@
}

fn push_tool_call_json(out: &mut String, c: &OpenAiToolCall)
    ensures
        final(out)@ == old(out)@ + tool_call_json(c.deep_view()),
{
    push_str(out, "{\"id\":");
    push_json_string(out, c.id.as_str());
    push_str(out, ",\"type\":");
    push_json_string(out, c.tool_type.as_str());
    push_str(out, ",\"function\":{\"name\":");
    push_json_string(out, c.function.name.as_str());
    push_str(out, ",\"arguments\":");
    push_json_string(out, c.function.arguments.as_str());
    push_str(out, "}}");
    assert(out@ =~= old(out)@ + tool_call_json(c.deep_view()));
}

/// The compact JSON array of tool calls.
pub fn tool_calls_json_text(calls: &[OpenAiToolCall]) -> (r: String)
    ensures
        r@ == tool_calls_json(calls.deep_view()),
{
    let mut out = owned("[");
    let ghost parts = calls.deep_view().map_values(|c: ToolCallModel| tool_call_json(c));
    let mut i: usize = 0;
    while i < calls.len()
        invariant
            i <= calls.len(),
            parts == calls.deep_view().map_values(|c: ToolCallModel| tool_call_json(c)),
            out@ == "["@ + join_with(parts.take(i as int), ","@),
        decreases calls.len() - i,
    {
        if i > 0 {
            push_str(&mut out, ",");
        }
        let ghost before = out@;
        push_tool_call_json(&mut out, &calls[i]);
        proof {
            assert(parts.take(i + 1) =~= parts.take(i as int).push(parts[i as int]));
            lemma_join_with_push(parts.take(i as int), ","@, parts[i as int]);
            if i == 0 {
                assert(parts.take(0) =~= Seq::<Seq<char>>::empty());
            }
        }
        i += 1;
    }
    push_str(&mut out, "]");
    assert(parts.take(calls.len() as int) =~= parts);
    assert(out@ =~= tool_calls_json(calls.deep_view()));
    out
}

/// The compact JSON of a tool output.
pub fn tool_output_json_text(id: &str, output: &str) -> (r: String)
    ensures
        r@ == tool_output_json(id@, output@),
{
    let mut out = owned("{\"tool_call_id\":");
    push_json_string(&mut out, id);
    push_str(&mut out, ",\"output\":");
    push_json_string(&mut out, output);
    push_str(&mut out, "}");
    assert(out@ =~= tool_output_json(id@, output@));
    out
}

/// The pretty JSON of a function definition.
pub fn function_pretty_json_text(f: &OpenAiFunction) -> (r: String)
    ensures
        r@ == function_pretty_json(f.deep_view()),
{
    let mut out = owned("{\n  \"name\": ");
    push_json_string(&mut out, f.name.as_str());
    let ghost after_name = out@;
    match &f.description {
        Some(d) => {
            push_str(&mut out, ",\n  \"description\": ");
            push_json_string(&mut out, d.as_str());
        },
        None => {},
    }
    let ghost after_desc = out@;
    match &f.parameters {
        Some(p) => {
            push_str(&mut out, ",\n  \"parameters\": ");
            let pv = chars_of(p.as_str());
            let nl = chars_of("\n");
            let indented = chars_of("\n  ");
            let r = replace_chars(&pv, &nl, &indented);
            let rs = string_of(&r);
            push_str(&mut out, rs.as_str());
        },
        None => {},
    }
    push_str(&mut out, "\n}");
    assert(out@ =~= function_pretty_json(f.deep_view()));
    out
}

// ---------------------------------------------------------------------------
// Tool definitions embedded in the prompt
// ---------------------------------------------------------------------------

/// Text that introduces the tool definitions.
pub open spec fn tools_preamble() -> Seq<char> {
    "\n# Tools\n\nYou may call one or more functions to assist with the user query\n\nYou are provided with available function signatures within <tools></tools> XML tags:\n<tools>\n"@
}

/// Text that closes the tool definitions and explains the tool-call format.
pub open spec fn tools_postamble() -> Seq<char> {
    "\n</tools>\n# Tool Calls\n\nStart with the opening tag <tool_calls>. For each tool call, return a json object with function name and arguments within <tool_call></tool_call> tags:\n<tool_call>{\"name\": <function-name>, \"arguments\": <args-json-object>}</tool_call>. close the tool calls section with </tool_calls>\n"@
}

/// The tool definitions as prompt text: the preamble, each function's
/// pretty JSON, the postamble.
pub open spec fn tool_xml(tools: Seq<ToolModel>) -> Seq<char> {
    tools_preamble() + concat_all(tools.map_values(|t: ToolModel| function_pretty_json(t.function)))
        + tools_postamble()
}

/// Generates the tool definitions text that is embedded in the prompt.
pub fn generate_tool_xml(tools: &[OpenAiTool], _model: &str) -> (r: String)
    ensures
        r@ == tool_xml(tools.deep_view()),
{
    let mut out = owned(
        "\n# Tools\n\nYou may call one or more functions to assist with the user query\n\nYou are provided with available function signatures within <tools></tools> XML tags:\n<tools>\n",
    );
    let ghost parts = tools.deep_view().map_values(|t: ToolModel| function_pretty_json(t.function));
    let mut i: usize = 0;
    while i < tools.len()
        invariant
            i <= tools.len(),
            parts == tools.deep_view().map_values(|t: ToolModel| function_pretty_json(t.function)),
            out@ == tools_preamble() + concat_all(parts.take(i as int)),
        decreases tools.len() - i,
    {
        let f = function_pretty_json_text(&tools[i].function);
        push_str(&mut out, f.as_str());
        proof {
            assert(parts.take(i + 1) =~= parts.take(i as int).push(parts[i as int]));
            lemma_concat_all_push(parts.take(i as int), parts[i as int]);
        }
        i += 1;
    }
    push_str(
        &mut out,
        "\n</tools>\n# Tool Calls\n\nStart with the opening tag <tool_calls>. For each tool call, return a json object with function name and arguments within <tool_call></tool_call> tags:\n<tool_call>{\"name\": <function-name>, \"arguments\": <args-json-object>}</tool_call>. close the tool calls section with </tool_calls>\n",
    );
    assert(parts.take(tools.len() as int) =~= parts);
    assert(out@ =~= tool_xml(tools.deep_view()));
    out
}

// ---------------------------------------------------------------------------
// Messages
// ---------------------------------------------------------------------------

/// The text of the first content object of OpenAI content, or empty.
pub open spec fn first_content_text(c: OpenAiContentModel) -> Seq<char> {
    let objs = content_objects_of(c);
    if objs.len() > 0 {
        objs[0].text
    } else {
        Seq::empty()
    }
}

/// The content objects that carry an assistant's tool calls: the calls'
/// JSON between `<tool_calls>` and `</tool_calls>`, or nothing where there
/// are no calls.
pub open spec fn tool_call_objects(calls: Option<Seq<ToolCallModel>>) -> Seq<ContentObjectModel> {
    match calls {
        Some(cs) => if cs.len() > 0 {
            seq![
                text_object("<tool_calls>"@),
                text_object(tool_calls_json(cs)),
                text_object("</tool_calls>"@),
            ]
        } else {
            seq![]
        },
        None => seq![],
    }
}

/// The Straico message for an OpenAI message: a tool message becomes a user
/// message holding `<tool_output>{"tool_call_id":…,"output":…}</tool_output>`
/// (the output being the text of the first content object); any other
/// message keeps its role, its content objects, and its tool calls as text.
pub open spec fn converted_message(m: OpenAiChatMessageModel) -> ChatMessageModel {
    if m.role == "tool"@ {
        ChatMessageModel {
            role: "user"@,
            content: seq![
                text_object(
                    "<tool_output>"@ + tool_output_json(
                        match m.tool_call_id {
                            Some(i) => i,
                            None => Seq::empty(),
                        },
                        first_content_text(m.content),
                    ) + "</tool_output>"@,
                ),
            ],
        }
    } else {
        ChatMessageModel {
            role: m.role,
            content: content_objects_of(m.content) + tool_call_objects(m.tool_calls),
        }
    }
}

/// The Straico messages for a sequence of OpenAI messages.
pub open spec fn converted_messages(ms: Seq<OpenAiChatMessageModel>) -> Seq<ChatMessageModel> {
    ms.map_values(|m: OpenAiChatMessageModel| converted_message(m))
}

/// A copy of OpenAI content as Straico content objects.
fn content_objects_of_ref(c: &OpenAiContent) -> (r: Vec<ContentObject>)
    ensures
        r.deep_view() == content_objects_of(c.deep_view()),
{
    match c {
        OpenAiContent::String(s) => {
            let mut v = Vec::new();
            v.push(ContentObject::text(s.as_str()));
            assert(v.deep_view() =~= content_objects_of(c.deep_view()));
            v
        },
        OpenAiContent::Array(a) => crate::content::content_objects_from_openai(a),
        OpenAiContent::Null => {
            let v: Vec<ContentObject> = Vec::new();
            assert(v.deep_view() =~= content_objects_of(c.deep_view()));
            v
        },
    }
}

/// Appends a text object to a list of content objects.
fn push_text_object(v: &mut Vec<ContentObject>, text: &str)
    ensures
        final(v).deep_view() == old(v).deep_view().push(text_object(text@)),
{
    let ghost before = v@;
    v.push(ContentObject::text(text));
    assert(v.deep_view() =~= old(v).deep_view().push(text_object(text@))) by {
        assert forall|k: int| 0 <= k < before.len() implies v@[k] == before[k] by {}
    }
}

/// Converts an OpenAI message to the Straico format (see [`converted_message`]).
pub fn convert_message(msg: &OpenAiChatMessage) -> (r: ChatMessage)
    ensures
        r.deep_view() == converted_message(msg.deep_view()),
{
    if str_eq(msg.role.as_str(), "tool") {
        let output: String = match &msg.content {
            OpenAiContent::String(s) => s.clone(),
            OpenAiContent::Array(a) => if a.len() > 0 {
                a[0].text.clone()
            } else {
                String::new()
            },
            OpenAiContent::Null => String::new(),
        };
        let id: String = match &msg.tool_call_id {
            Some(i) => i.clone(),
            None => String::new(),
        };
        let json = tool_output_json_text(id.as_str(), output.as_str());
        let mut text = owned("<tool_output>");
        push_str(&mut text, json.as_str());
        push_str(&mut text, "</tool_output>");
        let mut content: Vec<ContentObject> = Vec::new();
        push_text_object(&mut content, text.as_str());
        let r = ChatMessage::new("user", content);
        assert(r.deep_view().content =~= converted_message(msg.deep_view()).content);
        return r;
    }
    let mut content = content_objects_of_ref(&msg.content);
    let ghost base = content.deep_view();
    match &msg.tool_calls {
        Some(calls) => {
            if calls.len() > 0 {
                push_text_object(&mut content, "<tool_calls>");
                let json = tool_calls_json_text(calls.as_slice());
                push_text_object(&mut content, json.as_str());
                push_text_object(&mut content, "</tool_calls>");
            }
        },
        None => {},
    }
    assert(content.deep_view() =~= base + tool_call_objects(msg.deep_view().tool_calls));
    ChatMessage::new(msg.role.as_str(), content)
}

/// Converts an OpenAI message to the Straico format (see [`converted_message`]).
pub fn convert_openai_message_to_straico(message: OpenAiChatMessage) -> (r: ChatMessage)
    ensures
        r.deep_view() == converted_message(message.deep_view()),
{
    convert_message(&message)
}

/// Converts OpenAI messages to the Straico format, in order.
pub fn convert_messages(msgs: &Vec<OpenAiChatMessage>) -> (r: Vec<ChatMessage>)
    ensures
        r.deep_view() == converted_messages(msgs.deep_view()),
{
    let mut out: Vec<ChatMessage> = Vec::new();
    let mut i: usize = 0;
    while i < msgs.len()
        invariant
            i <= msgs.len(),
            out@.len() == i,
            out.deep_view() == converted_messages(msgs.deep_view()).take(i as int),
        decreases msgs.len() - i,
    {
        let ghost before = out@;
        let ghost bdv = out.deep_view();
        let c = convert_message(&msgs[i]);
        out.push(c);
        assert(out.deep_view() =~= converted_messages(msgs.deep_view()).take(i + 1)) by {
            assert forall|k: int| 0 <= k < out@.len() implies #[trigger] out.deep_view()[k]
                == converted_messages(msgs.deep_view()).take(i + 1)[k] by {
                if k < before.len() {
                    assert(out@[k] == before[k]);
                    assert(bdv[k] == before[k].deep_view());
                }
            }
        }
        i += 1;
    }
    assert(converted_messages(msgs.deep_view()).take(msgs.len() as int) =~= converted_messages(
        msgs.deep_view(),
    ));
    out
}

/// What is wrong with an OpenAI message, if anything: an empty or unknown
/// role, a tool message without a tool call ID, or bad content (null
/// content is allowed in an assistant message that carries tool calls).
pub open spec fn message_problem(m: OpenAiChatMessageModel) -> Option<Seq<char>> {
    if m.role.len() == 0 {
        Some("Message role cannot be empty"@)
    } else if !(m.role == "system"@ || m.role == "user"@ || m.role == "assistant"@ || m.role
        == "tool"@) {
        Some("Invalid message role: "@ + m.role)
    } else if m.role == "tool"@ && m.tool_call_id is None {
        Some("Tool messages must have a tool_call_id"@)
    } else if m.role == "assistant"@ && (m.tool_calls matches Some(cs) && cs.len() > 0)
        && m.content is Null {
        None
    } else {
        crate::content::openai_content_problem(m.content)
    }
}

/// Checks an OpenAI message (see [`message_problem`]).
pub fn validate_openai_message(message: &OpenAiChatMessage) -> (r: Result<(), String>)
    ensures
        crate::content::check_result(r, message_problem(message.deep_view())),
{
    let role = message.role.as_str();
    if role.is_empty() {
        return Err(owned("Message role cannot be empty"));
    }
    let is_tool = str_eq(role, "tool");
    let is_assistant = str_eq(role, "assistant");
    if !(str_eq(role, "system") || str_eq(role, "user") || is_assistant || is_tool) {
        let mut m = owned("Invalid message role: ");
        push_str(&mut m, role);
        return Err(m);
    }
    if is_tool && message.tool_call_id.is_none() {
        return Err(owned("Tool messages must have a tool_call_id"));
    }
    if is_assistant {
        let has_calls = match &message.tool_calls {
            Some(cs) => cs.len() > 0,
            None => false,
        };
        let is_null = match &message.content {
            OpenAiContent::Null => true,
            _ => false,
        };
        if has_calls && is_null {
            return Ok(());
        }
    }
    crate::content::validate_openai_content(&message.content)
}

// ---------------------------------------------------------------------------
// Requests
// ---------------------------------------------------------------------------

/// The type of the first tool that is not a function, if any.
pub open spec fn first_non_function(tools: Seq<ToolModel>) -> Option<Seq<char>>
    decreases tools.len(),
{
    if tools.len() == 0 {
        None
    } else if tools[0].tool_type != "function"@ {
        Some(tools[0].tool_type)
    } else {
        first_non_function(tools.drop_first())
    }
}

/// The token limit of a request: `max_tokens`, else `max_completion_tokens`.
pub open spec fn token_limit(max_tokens: Option<u32>, max_completion_tokens: Option<u32>) -> Option<u32> {
    match max_tokens {
        Some(t) => Some(t),
        None => max_completion_tokens,
    }
}

/// The messages with the tool definitions embedded into the first user
/// message: its content becomes the definitions, a blank line and its text
/// (see [`merge_text`]); none where there is no user message.
pub open spec fn tools_embedded(
    messages: Seq<OpenAiChatMessageModel>,
    tools: Seq<ToolModel>,
) -> Option<Seq<OpenAiChatMessageModel>> {
    match first_with_role(messages, "user"@) {
        None => None,
        Some(u) => Some(
            messages.update(
                u,
                OpenAiChatMessageModel {
                    content: OpenAiContentModel::String(
                        tool_xml(tools) + "\n\n"@ + merge_text(messages[u].content),
                    ),
                    ..messages[u]
                },
            ),
        ),
    }
}

/// What converting a request gives. Where function tools are given, their
/// definitions are embedded into the first user message (see
/// [`tools_embedded`]); without a user message that is an error. Every other
/// message, system messages included, is converted as it is. A tool that is
/// not a function is an error naming its type.
pub open spec fn straico_request_outcome(
    model: Seq<char>,
    messages: Seq<OpenAiChatMessageModel>,
    max_tokens: Option<u32>,
    max_completion_tokens: Option<u32>,
    tools: Option<Seq<ToolModel>>,
    r: Result<ChatRequest, ProxyError>,
) -> bool {
    let limit = token_limit(max_tokens, max_completion_tokens);
    if tools matches Some(ts) && ts.len() > 0 {
        match first_non_function(tools->0) {
            Some(t) => r matches Err(ProxyError::ToolEmbedding(m)) && m@ == "Unsupported tool type: "@
                + t,
            None => match tools_embedded(messages, tools->0) {
                None => r matches Err(ProxyError::ToolEmbedding(m)) && m@
                    == "No user messages found for tool embedding"@,
                Some(ms) => r matches Ok(req) && req.deep_view() == (ChatRequestModel {
                    model: model,
                    messages: converted_messages(ms),
                    max_tokens: limit,
                }),
            },
        }
    } else {
        r matches Ok(req) && req.deep_view() == (ChatRequestModel {
            model: model,
            messages: converted_messages(messages),
            max_tokens: limit,
        })
    }
}

/// The type of the first tool that is not a function, if any.
fn first_non_function_type(ts: &Vec<OpenAiTool>) -> (r: Option<String>)
    ensures
        r.deep_view() == first_non_function(ts.deep_view()),
{
    let mut i: usize = 0;
    assert(ts.deep_view().skip(0) =~= ts.deep_view());
    while i < ts.len()
        invariant
            i <= ts.len(),
            first_non_function(ts.deep_view()) == first_non_function(ts.deep_view().skip(i as int)),
        decreases ts.len() - i,
    {
        proof {
            assert(ts.deep_view().skip(i as int).drop_first() =~= ts.deep_view().skip(i + 1));
            assert(ts.deep_view().skip(i as int)[0] == ts.deep_view()[i as int]);
        }
        if !str_eq(ts[i].tool_type.as_str(), "function") {
            return Some(ts[i].tool_type.clone());
        }
        i += 1;
    }
    assert(ts.deep_view().skip(i as int) =~= Seq::<ToolModel>::empty());
    None
}

impl OpenAiChatRequest {
    /// Converts the request to the Straico chat format, taking its messages
    /// and tools out of it: the tool definitions are embedded into the first
    /// user message, which must exist, and system messages pass through as
    /// they are (see [`straico_request_outcome`]).
    pub fn to_straico_request(&mut self) -> (r: Result<ChatRequest, ProxyError>)
        ensures
            final(self).messages@.len() == 0,
            final(self).tools is None,
            final(self).model == old(self).model,
            final(self).max_tokens == old(self).max_tokens,
            final(self).max_completion_tokens == old(self).max_completion_tokens,
            final(self).stream == old(self).stream,
            final(self).tool_choice == old(self).tool_choice,
            straico_request_outcome(
                old(self).model@,
                old(self).messages.deep_view(),
                old(self).max_tokens,
                old(self).max_completion_tokens,
                old(self).tools.deep_view(),
                r,
            ),
    {
        let mut msgs: Vec<OpenAiChatMessage> = Vec::new();
        core::mem::swap(&mut msgs, &mut self.messages);
        let tools = self.tools.take();
        let limit = match self.max_tokens {
            Some(t) => Some(t),
            None => self.max_completion_tokens,
        };
        match tools {
            Some(ts) => {
                if ts.len() > 0 {
                    match first_non_function_type(&ts) {
                        Some(t) => {
                            let mut m = owned("Unsupported tool type: ");
                            push_str(&mut m, t.as_str());
                            return Err(ProxyError::ToolEmbedding(m));
                        },
                        None => {},
                    }
                    let xml = generate_tool_xml(ts.as_slice(), self.model.as_str());
                    match position_of_role(&msgs, "user") {
                        None => {
                            return Err(
                                ProxyError::ToolEmbedding(owned("No user messages found for tool embedding")),
                            );
                        },
                        Some(u) => {
                            let ghost before = msgs.deep_view();
                            let ghost raw = msgs@;
                            let mut m = msgs.remove(u);
                            let text = merge_text_of(&m.content);
                            let mut merged = xml;
                            push_str(&mut merged, "\n\n");
                            push_str(&mut merged, text.as_str());
                            m.content = OpenAiContent::String(merged);
                            let ghost mv = m.deep_view();
                            msgs.insert(u, m);
                            assert(msgs.deep_view() =~= before.update(u as int, mv)) by {
                                assert forall|k: int| 0 <= k < msgs@.len() && k != u implies msgs@[k]
                                    == raw[k] by {}
                            }
                        },
                    }
                }
            },
            None => {},
        }
        let converted = convert_messages(&msgs);
        Ok(ChatRequest { model: self.model.clone(), messages: converted, max_tokens: limit })
    }
}


/// A tool result goes upstream as a user message whose one text is the
/// result wrapped in `<tool_output>`: a JSON object whose `tool_call_id` is
/// the message's call id (empty where it has none) and whose `output` is the
/// text of its first content object (the string itself for string content).
pub proof fn law_tool_result_keeps_call_id(m: OpenAiChatMessageModel, output: Seq<char>)
    requires
        m.role == "tool"@,
        match m.content {
            OpenAiContentModel::String(s) => output == s,
            OpenAiContentModel::Array(a) => if a.len() > 0 {
                output == a[0].text
            } else {
                output == Seq::<char>::empty()
            },
            OpenAiContentModel::Null => output == Seq::<char>::empty(),
        },
    ensures
        converted_message(m).role == "user"@,
        converted_message(m).content.len() == 1,
        converted_message(m).content[0].content_type == "text"@,
        converted_message(m).content[0].text == "<tool_output>"@ + "{\"tool_call_id\":"@ + json_string(
            match m.tool_call_id {
                Some(id) => id,
                None => Seq::<char>::empty(),
            },
        ) + ",\"output\":"@ + json_string(output) + "}"@ + "</tool_output>"@,
{
    assert(first_content_text(m.content) == output);
}


/// Any other message keeps its role and its content objects, in order; an
/// assistant's tool calls follow them as text between `<tool_calls>` and
/// `</tool_calls>`, and a message without calls gains nothing.
pub proof fn law_other_messages_keep_content(m: OpenAiChatMessageModel)
    requires
        m.role != "tool"@,
    ensures
        converted_message(m).role == m.role,
        converted_message(m).content.take(content_objects_of(m.content).len() as int)
            == content_objects_of(m.content),
        (m.tool_calls is None || m.tool_calls == Some(Seq::<ToolCallModel>::empty()))
            ==> converted_message(m).content == content_objects_of(m.content),
        (m.tool_calls matches Some(cs) && cs.len() > 0) ==> converted_message(m).content.len()
            == content_objects_of(m.content).len() + 3,
{
    let objs = content_objects_of(m.content);
    assert(converted_message(m).content.take(objs.len() as int) =~= objs);
    if m.tool_calls is None || m.tool_calls == Some(Seq::<ToolCallModel>::empty()) {
        assert(converted_message(m).content =~= objs);
    }
}

} // verus!
