//! Completion responses of the Straico API, and the extraction of tool calls
//! that the model wrote between the tool-call markers of its prompt format
//! (chosen from the model's name).
//!
//! Reading the JSON of each tool call is the caller's part: it hands the
//! parsed calls back to [`Completion::parse_with`].

use vstd::prelude::*;
use crate::text::{
    chars_of, concat_all, contains_chars, contains_seq, extend_chars, find_from, has_prefix,
    has_suffix, is_first_occurrence, lemma_concat_all_push, matches_at, no_occurrence_from,
    occurs_at, owned, push_char, push_str, replace_all, replace_chars, starts_with_chars,
    ends_with_chars, str_eq, string_of, string_of_range, utf8_len, utf8_len_of_prefix, lowercase,
    to_lowercase,
};

verus! {

broadcast use vstd::string::group_string_axioms;

// ---------------------------------------------------------------------------
// Types
// ---------------------------------------------------------------------------

/// Word counts of a completion.
#[derive(Debug, Clone, Copy, PartialEq, Eq, Structural)]
pub struct Words {
    pub input: u32,
    pub output: u32,
    pub total: u32,
}

/// Token usage of a completion.
#[derive(Debug, Clone, Copy, PartialEq, Eq, Structural)]
pub struct Usage {
    pub prompt_tokens: u32,
    pub completion_tokens: u32,
    pub total_tokens: u32,
}

impl Default for Usage {
    fn default() -> (r: Self)
        ensures
            r == (Usage { prompt_tokens: 0, completion_tokens: 0, total_tokens: 0 }),
    {
        Usage { prompt_tokens: 0, completion_tokens: 0, total_tokens: 0 }
    }
}

/// A text object of a text array.
#[derive(Debug)]
pub enum TextObject {
    Text { text: String },
}

/// Message content: one text, or an array of text objects.
#[derive(Debug)]
pub enum Content {
    Text(String),
    TextArray(Vec<TextObject>),
}

/// Model of message content.
pub enum ContentModel {
    Text(Seq<char>),
    TextArray(Seq<Seq<char>>),
}

impl DeepView for TextObject {
    type V = Seq<char>;

    open spec fn deep_view(&self) -> Seq<char> {
        match self {
            TextObject::Text { text } => text@,
        }
    }
}

impl DeepView for Content {
    type V = ContentModel;

    open spec fn deep_view(&self) -> ContentModel {
        match self {
            Content::Text(t) => ContentModel::Text(t@),
            Content::TextArray(a) => ContentModel::TextArray(a.deep_view()),
        }
    }
}

/// The data of a function call: its name and its arguments as JSON text.
#[derive(Debug)]
pub struct FunctionData {
    pub name: String,
    pub arguments: String,
}

/// Model of function-call data.
pub struct FunctionDataModel {
    pub name: Seq<char>,
    pub arguments: Seq<char>,
}

impl DeepView for FunctionData {
    type V = FunctionDataModel;

    open spec fn deep_view(&self) -> FunctionDataModel {
        FunctionDataModel { name: self.name@, arguments: self.arguments@ }
    }
}

/// A tool call made by the assistant.
#[derive(Debug)]
pub enum ToolCall {
    Function { id: String, function: FunctionData },
}

/// Model of a tool call.
pub struct ToolCallModel {
    pub id: Seq<char>,
    pub function: FunctionDataModel,
}

impl DeepView for ToolCall {
    type V = ToolCallModel;

    open spec fn deep_view(&self) -> ToolCallModel {
        match self {
            ToolCall::Function { id, function } => ToolCallModel { id: id@, function: function.deep_view() },
        }
    }
}

/// A message of a conversation.
#[derive(Debug)]
pub enum Message {
    User { content: Content },
    Assistant { content: Option<Content>, tool_calls: Option<Vec<ToolCall>> },
    System { content: Content },
    Tool { content: Content },
}

/// Model of a message.
pub enum MessageModel {
    User { content: ContentModel },
    Assistant { content: Option<ContentModel>, tool_calls: Option<Seq<ToolCallModel>> },
    System { content: ContentModel },
    Tool { content: ContentModel },
}

impl DeepView for Message {
    type V = MessageModel;

    open spec fn deep_view(&self) -> MessageModel {
        match self {
            Message::User { content } => MessageModel::User { content: content.deep_view() },
            Message::Assistant { content, tool_calls } => MessageModel::Assistant {
                content: content.deep_view(),
                tool_calls: tool_calls.deep_view(),
            },
            Message::System { content } => MessageModel::System { content: content.deep_view() },
            Message::Tool { content } => MessageModel::Tool { content: content.deep_view() },
        }
    }
}

/// One generated choice.
#[derive(Debug)]
pub struct Choice {
    pub message: Message,
    pub index: u8,
    pub finish_reason: String,
}

/// Model of a choice.
pub struct ChoiceModel {
    pub message: MessageModel,
    pub index: u8,
    pub finish_reason: Seq<char>,
}

impl DeepView for Choice {
    type V = ChoiceModel;

    open spec fn deep_view(&self) -> ChoiceModel {
        ChoiceModel {
            message: self.message.deep_view(),
            index: self.index,
            finish_reason: self.finish_reason@,
        }
    }
}

/// A completion response.
#[derive(Debug)]
pub struct Completion {
    pub choices: Vec<Choice>,
    pub object: String,
    pub id: String,
    pub model: String,
    pub created: u64,
    pub usage: Usage,
}

/// One model's completion with its word counts (its price, in floats, is
/// kept by the caller).
#[derive(Debug)]
pub struct Model {
    pub completion: Completion,
    pub words: Words,
}

/// The completions of a request, one per model, in the order in which the
/// caller walked the answer's map of them, with the overall word counts.
#[derive(Debug)]
pub struct CompletionData {
    pub completions: Vec<Model>,
    pub overall_words: Words,
}

impl CompletionData {
    /// The first completion, in the order given. There must be one: the
    /// answer always carries a completion per requested model.
    pub fn get_completion_data(self) -> (r: Completion)
        requires
            self.completions@.len() > 0,
        ensures
            r == self.completions@[0].completion,
    {
        let mut completions = self.completions;
        let first = completions.remove(0);
        first.completion
    }
}

// ---------------------------------------------------------------------------
// Content
// ---------------------------------------------------------------------------

/// Each text followed by `suffix`, concatenated.
pub open spec fn joined_with_suffix(texts: Seq<Seq<char>>, suffix: Seq<char>) -> Seq<char>
    decreases texts.len(),
{
    if texts.len() == 0 {
        Seq::empty()
    } else {
        joined_with_suffix(texts.drop_last(), suffix) + texts.last() + suffix
    }
}

/// The text searched and replaced in: the text, or each text of the array
/// followed by a newline (also what converting content to a `String` gives).
pub open spec fn searchable_text(c: ContentModel) -> Seq<char> {
    match c {
        ContentModel::Text(t) => t,
        ContentModel::TextArray(a) => joined_with_suffix(a, seq!['\n']),
    }
}

/// The displayed text: the text, or each text of the array followed by a
/// space.
pub open spec fn display_text(c: ContentModel) -> Seq<char> {
    match c {
        ContentModel::Text(t) => t,
        ContentModel::TextArray(a) => joined_with_suffix(a, seq![' ']),
    }
}

/// The content holds no text: an empty text, or an array of empty texts.
pub open spec fn content_is_empty(c: ContentModel) -> bool {
    match c {
        ContentModel::Text(t) => t.len() == 0,
        ContentModel::TextArray(a) => all_texts_empty(a),
    }
}

/// Every text of the sequence is empty.
pub open spec fn all_texts_empty(a: Seq<Seq<char>>) -> bool {
    forall|i: int| 0 <= i < a.len() ==> (#[trigger] a[i]).len() == 0
}

fn text_of_object(o: &TextObject) -> (r: &String)
    ensures
        r@ == o.deep_view(),
{
    match o {
        TextObject::Text { text } => text,
    }
}

fn joined_texts(a: &Vec<TextObject>, suffix: char) -> (r: String)
    ensures
        r@ == joined_with_suffix(a.deep_view(), seq![suffix]),
{
    let mut out = String::new();
    let mut i: usize = 0;
    while i < a.len()
        invariant
            i <= a.len(),
            out@ == joined_with_suffix(a.deep_view().take(i as int), seq![suffix]),
        decreases a.len() - i,
    {
        push_str(&mut out, text_of_object(&a[i]).as_str());
        push_char(&mut out, suffix);
        proof {
            let t = a.deep_view().take(i + 1);
            assert(t.drop_last() =~= a.deep_view().take(i as int));
            assert(t.last() == a.deep_view()[i as int]);
        }
        i += 1;
    }
    assert(a.deep_view().take(a.len() as int) =~= a.deep_view());
    out
}

impl Content {
    /// Whether the content holds no text.
    pub fn is_empty(&self) -> (r: bool)
        ensures
            r == content_is_empty(self.deep_view()),
    {
        match self {
            Content::Text(t) => t.as_str().is_empty(),
            Content::TextArray(a) => {
                let mut i: usize = 0;
                while i < a.len()
                    invariant
                        i <= a.len(),
                        self.deep_view() == ContentModel::TextArray(a.deep_view()),
                        forall|k: int| 0 <= k < i ==> (#[trigger] a.deep_view()[k]).len() == 0,
                    decreases a.len() - i,
                {
                    if !text_of_object(&a[i]).as_str().is_empty() {
                        proof {
                            let m = a.deep_view();
                            assert(m[i as int].len() != 0);
                            assert(self.deep_view() == ContentModel::TextArray(m));
                            assert(!all_texts_empty(m));
                        }
                        return false;
                    }
                    i += 1;
                }
                true
            },
        }
    }

    /// The text searched and replaced in (see [`searchable_text`]); also what
    /// converting the content into a `String` gives.
    pub fn to_searchable_string(&self) -> (r: String)
        ensures
            r@ == searchable_text(self.deep_view()),
    {
        match self {
            Content::Text(t) => t.clone(),
            Content::TextArray(a) => joined_texts(a, '\n'),
        }
    }

    /// The displayed text (see [`display_text`]).
    pub fn to_text(&self) -> (r: String)
        ensures
            r@ == display_text(self.deep_view()),
    {
        match self {
            Content::Text(t) => t.clone(),
            Content::TextArray(a) => joined_texts(a, ' '),
        }
    }

    /// Byte position of the first occurrence of `pattern` in the searchable
    /// text (see [`first_from`]), none where it does not occur.
    pub fn find(&self, pattern: &str) -> (r: Option<usize>)
        requires
            utf8_len(searchable_text(self.deep_view())) <= usize::MAX,
        ensures
            match r {
                Some(b) => exists|k: int|
                    is_first_occurrence(searchable_text(self.deep_view()), pattern@, 0, k) && b
                        == utf8_len(searchable_text(self.deep_view()).take(k)),
                None => no_occurrence_from(searchable_text(self.deep_view()), pattern@, 0),
            },
            match first_from(searchable_text(self.deep_view()), pattern@, 0) {
                Some(k) => r == Some(utf8_len(searchable_text(self.deep_view()).take(k)) as usize),
                None => r is None,
            },
    {
        let s = self.to_searchable_string();
        let v = chars_of(s.as_str());
        let p = chars_of(pattern);
        match find_from(&v, &p, 0) {
            Some(k) => {
                proof {
                    lemma_first_from_some(v@, p@, 0, k as int);
                }
                Some(utf8_len_of_prefix(&v, k))
            },
            None => {
                proof {
                    lemma_first_from_none(v@, p@, 0);
                }
                None
            },
        }
    }

    /// The searchable text with every occurrence of `pattern` replaced.
    pub fn replace(&self, pattern: &str, replacement: &str) -> (r: String)
        ensures
            r@ == replace_all(searchable_text(self.deep_view()), pattern@, replacement@),
    {
        let s = self.to_searchable_string();
        let v = chars_of(s.as_str());
        let p = chars_of(pattern);
        let q = chars_of(replacement);
        let out = replace_chars(&v, &p, &q);
        string_of(&out)
    }
}

// ---------------------------------------------------------------------------
// Tool-call markup
// ---------------------------------------------------------------------------

/// First position at or after `start` where `pat` occurs.
pub open spec fn first_from(t: Seq<char>, pat: Seq<char>, start: int) -> Option<int>
    decreases t.len() + 1 - start,
{
    if start < 0 || start > t.len() {
        None
    } else if occurs_at(t, pat, start) {
        Some(start)
    } else {
        first_from(t, pat, start + 1)
    }
}

/// The spans `begin … end` in `t` from position `start` on, leftmost first,
/// each ending at the first `end` after its `begin` (the matches of the
/// pattern `begin(.*?)end` in text without line breaks).
pub open spec fn delimited_spans(t: Seq<char>, b: Seq<char>, e: Seq<char>, start: int) -> Seq<Seq<char>>
    decreases t.len() + 1 - start,
{
    if start < 0 || start > t.len() || b.len() == 0 {
        Seq::empty()
    } else {
        match first_from(t, b, start) {
            None => Seq::empty(),
            Some(p) => match first_from(t, e, p + b.len()) {
                None => Seq::empty(),
                Some(q) => {
                    proof {
                        lemma_first_from_found(t, b, start);
                        lemma_first_from_found(t, e, p + b.len());
                    }
                    seq![t.subrange(p, q + e.len())] + delimited_spans(t, b, e, q + e.len())
                },
            },
        }
    }
}

/// What [`first_from`] finds is an occurrence at or after the start.
pub proof fn lemma_first_from_found(t: Seq<char>, pat: Seq<char>, start: int)
    ensures
        first_from(t, pat, start) matches Some(k) ==> start <= k && occurs_at(t, pat, k),
    decreases t.len() + 1 - start,
{
    if start < 0 || start > t.len() {
    } else if occurs_at(t, pat, start) {
    } else {
        lemma_first_from_found(t, pat, start + 1);
    }
}

/// `s` with every leading repetition of `b` removed.
pub open spec fn trim_start_all(s: Seq<char>, b: Seq<char>) -> Seq<char>
    decreases s.len(),
{
    if b.len() > 0 && has_prefix(s, b) {
        trim_start_all(s.skip(b.len() as int), b)
    } else {
        s
    }
}

/// `s` with every trailing repetition of `e` removed.
pub open spec fn trim_end_all(s: Seq<char>, e: Seq<char>) -> Seq<char>
    decreases s.len(),
{
    if e.len() > 0 && has_suffix(s, e) {
        trim_end_all(s.take(s.len() - e.len()), e)
    } else {
        s
    }
}

/// The bodies of the tool calls in content, written between the markers
/// `b` and `e`: the spans of the searchable text with line breaks removed,
/// each with its markers trimmed off.
pub open spec fn tool_call_bodies(c: ContentModel, b: Seq<char>, e: Seq<char>) -> Seq<Seq<char>> {
    let t = replace_all(searchable_text(c), seq!['\n'], Seq::empty());
    delimited_spans(t, b, e, 0).map_values(|s: Seq<char>| trim_end_all(trim_start_all(s, b), e))
}

/// The content carries tool-call markup: the opening or the closing marker
/// occurs in its searchable text.
pub open spec fn has_tool_markup(c: ContentModel, b: Seq<char>, e: Seq<char>) -> bool {
    contains_seq(searchable_text(c), b) || contains_seq(searchable_text(c), e)
}

/// The tool-call bodies of a message, with the markers `b` and `e`: those of
/// an assistant message whose content carries markup, else none.
pub open spec fn message_tool_call_bodies(m: MessageModel, b: Seq<char>, e: Seq<char>) -> Option<Seq<Seq<char>>> {
    match m {
        MessageModel::Assistant { content: Some(c), .. } => if has_tool_markup(c, b, e) {
            Some(tool_call_bodies(c, b, e))
        } else {
            None
        },
        _ => None,
    }
}

// ---------------------------------------------------------------------------
// Prompt formats
// ---------------------------------------------------------------------------

/// The model families whose prompt formats differ.
#[derive(Debug, Clone, Copy, PartialEq, Eq, Structural)]
pub enum PromptFamily {
    Anthropic,
    Mistral,
    Llama3,
    CommandR,
    Qwen,
    DeepSeek,
    Default,
}

/// The family of a model, from its lower-cased name: the first of
/// `anthropic`, `mistral`, `llama3`, `command`, `qwen` and `deepseek` that
/// the name contains, else the default.
pub open spec fn prompt_family_of(lower: Seq<char>) -> PromptFamily {
    if contains_seq(lower, "anthropic"@) {
        PromptFamily::Anthropic
    } else if contains_seq(lower, "mistral"@) {
        PromptFamily::Mistral
    } else if contains_seq(lower, "llama3"@) {
        PromptFamily::Llama3
    } else if contains_seq(lower, "command"@) {
        PromptFamily::CommandR
    } else if contains_seq(lower, "qwen"@) {
        PromptFamily::Qwen
    } else if contains_seq(lower, "deepseek"@) {
        PromptFamily::DeepSeek
    } else {
        PromptFamily::Default
    }
}

/// The family of the model named `model` (see [`prompt_family_of`]).
pub fn prompt_family(model: &str) -> (r: PromptFamily)
    ensures
        r == prompt_family_of(lowercase(model@)),
{
    let lower = to_lowercase(model);
    let v = chars_of(lower.as_str());
    if contains_chars(&v, &chars_of("anthropic")) {
        PromptFamily::Anthropic
    } else if contains_chars(&v, &chars_of("mistral")) {
        PromptFamily::Mistral
    } else if contains_chars(&v, &chars_of("llama3")) {
        PromptFamily::Llama3
    } else if contains_chars(&v, &chars_of("command")) {
        PromptFamily::CommandR
    } else if contains_chars(&v, &chars_of("qwen")) {
        PromptFamily::Qwen
    } else if contains_chars(&v, &chars_of("deepseek")) {
        PromptFamily::DeepSeek
    } else {
        PromptFamily::Default
    }
}

/// The markers that open and close one tool call.
#[derive(Debug)]
pub struct ToolCallMarkers {
    pub begin: String,
    pub end: String,
}

/// The tool-call markers of each family's prompt format.
#[derive(Debug)]
pub struct PromptFormats {
    pub anthropic: ToolCallMarkers,
    pub mistral: ToolCallMarkers,
    pub llama3: ToolCallMarkers,
    pub command_r: ToolCallMarkers,
    pub qwen: ToolCallMarkers,
    pub deepseek: ToolCallMarkers,
    pub default: ToolCallMarkers,
}

impl PromptFormats {
    /// The markers of a family.
    pub open spec fn markers_of(self, f: PromptFamily) -> ToolCallMarkers {
        match f {
            PromptFamily::Anthropic => self.anthropic,
            PromptFamily::Mistral => self.mistral,
            PromptFamily::Llama3 => self.llama3,
            PromptFamily::CommandR => self.command_r,
            PromptFamily::Qwen => self.qwen,
            PromptFamily::DeepSeek => self.deepseek,
            PromptFamily::Default => self.default,
        }
    }

    /// The markers used for the model named `model`.
    pub open spec fn markers_for_model(self, model: Seq<char>) -> ToolCallMarkers {
        self.markers_of(prompt_family_of(lowercase(model)))
    }

    /// Every format opens a tool call with a non-empty marker.
    pub open spec fn wf(self) -> bool {
        &&& self.anthropic.begin@.len() > 0
        &&& self.mistral.begin@.len() > 0
        &&& self.llama3.begin@.len() > 0
        &&& self.command_r.begin@.len() > 0
        &&& self.qwen.begin@.len() > 0
        &&& self.deepseek.begin@.len() > 0
        &&& self.default.begin@.len() > 0
    }

    /// Every family of well-formed formats opens with a non-empty marker.
    pub proof fn lemma_markers_open(self, f: PromptFamily)
        requires
            self.wf(),
        ensures
            self.markers_of(f).begin@.len() > 0,
    {
    }

    /// Formats that all use the markers `begin` and `end`.
    pub fn uniform(begin: &str, end: &str) -> (r: PromptFormats)
        ensures
            forall|f: PromptFamily| (#[trigger] r.markers_of(f)).begin@ == begin@ && r.markers_of(f).end@ == end@,
    {
        PromptFormats {
            anthropic: ToolCallMarkers { begin: owned(begin), end: owned(end) },
            mistral: ToolCallMarkers { begin: owned(begin), end: owned(end) },
            llama3: ToolCallMarkers { begin: owned(begin), end: owned(end) },
            command_r: ToolCallMarkers { begin: owned(begin), end: owned(end) },
            qwen: ToolCallMarkers { begin: owned(begin), end: owned(end) },
            deepseek: ToolCallMarkers { begin: owned(begin), end: owned(end) },
            default: ToolCallMarkers { begin: owned(begin), end: owned(end) },
        }
    }

    /// The markers of a family.
    pub fn markers(&self, f: PromptFamily) -> (r: &ToolCallMarkers)
        ensures
            *r == self.markers_of(f),
    {
        match f {
            PromptFamily::Anthropic => &self.anthropic,
            PromptFamily::Mistral => &self.mistral,
            PromptFamily::Llama3 => &self.llama3,
            PromptFamily::CommandR => &self.command_r,
            PromptFamily::Qwen => &self.qwen,
            PromptFamily::DeepSeek => &self.deepseek,
            PromptFamily::Default => &self.default,
        }
    }

    /// The markers used for the model named `model`: those of its family
    /// (see [`prompt_family`]).
    pub fn markers_for(&self, model: &str) -> (r: &ToolCallMarkers)
        ensures
            *r == self.markers_for_model(model@),
    {
        self.markers(prompt_family(model))
    }
}

proof fn lemma_first_from_none(t: Seq<char>, pat: Seq<char>, start: int)
    requires
        0 <= start <= t.len(),
        no_occurrence_from(t, pat, start),
    ensures
        first_from(t, pat, start) is None,
    decreases t.len() - start,
{
    if start < t.len() {
        lemma_first_from_none(t, pat, start + 1);
    } else {
        assert(first_from(t, pat, start + 1) is None);
    }
}

proof fn lemma_first_from_some(t: Seq<char>, pat: Seq<char>, start: int, k: int)
    requires
        0 <= start <= t.len(),
        is_first_occurrence(t, pat, start, k),
    ensures
        first_from(t, pat, start) == Some(k),
    decreases k - start,
{
    if start < k {
        lemma_first_from_some(t, pat, start + 1, k);
    }
}

/// Removes every leading repetition of `b`.
fn trim_start_chars(s: &Vec<char>, b: &Vec<char>) -> (r: Vec<char>)
    ensures
        r@ == trim_start_all(s@, b@),
{
    let mut start: usize = 0;
    assert(s@.skip(0) =~= s@);
    if b.len() > 0 {
        while b.len() <= s.len() - start && matches_at(s, b, start)
            invariant
                start <= s.len(),
                b.len() > 0,
                trim_start_all(s@, b@) == trim_start_all(s@.skip(start as int), b@),
            decreases s.len() - start,
        {
            proof {
                let rest = s@.skip(start as int);
                assert(rest.subrange(0, b@.len() as int) =~= s@.subrange(
                    start as int,
                    start + b@.len(),
                ));
                assert(rest.skip(b@.len() as int) =~= s@.skip(start + b@.len()));
            }
            start = start + b.len();
        }
        proof {
            let rest = s@.skip(start as int);
            if has_prefix(rest, b@) {
                assert(rest.subrange(0, b@.len() as int) =~= s@.subrange(
                    start as int,
                    start + b@.len(),
                ));
            }
        }
    } else {
        assert(s@.skip(0) =~= s@);
    }
    let mut out: Vec<char> = Vec::new();
    let mut i = start;
    while i < s.len()
        invariant
            start <= i <= s.len(),
            out@ == s@.subrange(start as int, i as int),
        decreases s.len() - i,
    {
        out.push(s[i]);
        assert(s@.subrange(start as int, i + 1) =~= s@.subrange(start as int, i as int).push(
            s@[i as int],
        ));
        i += 1;
    }
    assert(out@ =~= s@.skip(start as int));
    out
}

/// Removes every trailing repetition of `e`.
fn trim_end_chars(s: &Vec<char>, e: &Vec<char>) -> (r: Vec<char>)
    ensures
        r@ == trim_end_all(s@, e@),
{
    let mut end: usize = s.len();
    assert(s@.take(s@.len() as int) =~= s@);
    if e.len() > 0 {
        while end >= e.len() && matches_at(s, e, end - e.len())
            invariant
                end <= s.len(),
                e.len() > 0,
                trim_end_all(s@, e@) == trim_end_all(s@.take(end as int), e@),
            decreases end,
        {
            proof {
                let pre = s@.take(end as int);
                assert(pre.subrange(pre.len() - e@.len(), pre.len() as int) =~= s@.subrange(
                    end - e@.len(),
                    end as int,
                ));
                assert(pre.take(pre.len() - e@.len()) =~= s@.take(end - e@.len()));
            }
            end = end - e.len();
        }
        proof {
            let pre = s@.take(end as int);
            if has_suffix(pre, e@) {
                assert(pre.subrange(pre.len() - e@.len(), pre.len() as int) =~= s@.subrange(
                    end - e@.len(),
                    end as int,
                ));
            }
        }
    } else {
        assert(s@.take(s@.len() as int) =~= s@);
    }
    let mut out: Vec<char> = Vec::new();
    let mut i: usize = 0;
    while i < end
        invariant
            i <= end <= s.len(),
            out@ == s@.take(i as int),
        decreases end - i,
    {
        out.push(s[i]);
        assert(s@.take(i + 1) =~= s@.take(i as int).push(s@[i as int]));
        i += 1;
    }
    out
}

/// The spans `begin … end` of `t` (see [`delimited_spans`]), trimmed.
fn extract_bodies(t: &Vec<char>, b: &Vec<char>, e: &Vec<char>) -> (r: Vec<String>)
    requires
        b.len() > 0,
    ensures
        r.deep_view() == delimited_spans(t@, b@, e@, 0).map_values(
            |s: Seq<char>| trim_end_all(trim_start_all(s, b@), e@),
        ),
{
    let ghost all = delimited_spans(t@, b@, e@, 0);
    let mut out: Vec<String> = Vec::new();
    let mut pos: usize = 0;
    let ghost mut done: Seq<Seq<char>> = Seq::empty();
    loop
        invariant
            pos <= t.len(),
            b.len() > 0,
            all == delimited_spans(t@, b@, e@, 0),
            all == done + delimited_spans(t@, b@, e@, pos as int),
            out.deep_view() == done.map_values(|s: Seq<char>| trim_end_all(trim_start_all(s, b@), e@)),
        decreases t.len() - pos,
    {
        let p = match find_from(t, b, pos) {
            Some(p) => p,
            None => {
                proof {
                    lemma_first_from_none(t@, b@, pos as int);
                    assert(all =~= done);
                    assert(out.deep_view() =~= all.map_values(
                        |s: Seq<char>| trim_end_all(trim_start_all(s, b@), e@),
                    ));
                }
                return out;
            },
        };
        proof {
            lemma_first_from_some(t@, b@, pos as int, p as int);
        }
        let after = p + b.len();
        let q = match find_from(t, e, after) {
            Some(q) => q,
            None => {
                proof {
                    lemma_first_from_none(t@, e@, after as int);
                    assert(all =~= done);
                    assert(out.deep_view() =~= all.map_values(
                        |s: Seq<char>| trim_end_all(trim_start_all(s, b@), e@),
                    ));
                }
                return out;
            },
        };
        proof {
            lemma_first_from_some(t@, e@, after as int, q as int);
        }
        let stop = q + e.len();
        let mut piece: Vec<char> = Vec::new();
        let mut k = p;
        while k < stop
            invariant
                p <= k <= stop <= t.len(),
                piece@ == t@.subrange(p as int, k as int),
            decreases stop - k,
        {
            piece.push(t[k]);
            assert(t@.subrange(p as int, k + 1) =~= t@.subrange(p as int, k as int).push(
                t@[k as int],
            ));
            k += 1;
        }
        let trimmed = trim_end_chars(&trim_start_chars(&piece, b), e);
        let ghost before = out@;
        let ghost bdv = out.deep_view();
        let body = string_of(&trimmed);
        out.push(body);
        proof {
            let f = |s: Seq<char>| trim_end_all(trim_start_all(s, b@), e@);
            let nd = done.push(t@.subrange(p as int, stop as int));
            assert(bdv == done.map_values(f));
            assert(bdv.len() == before.len());
            assert(out@.len() == nd.len());
            assert(out.deep_view() =~= nd.map_values(f)) by {
                assert forall|i: int| 0 <= i < out@.len() implies #[trigger] out.deep_view()[i]
                    == nd.map_values(f)[i] by {
                    if i < before.len() {
                        assert(out@[i] == before[i]);
                        assert(bdv[i] == before[i].deep_view());
                    } else {
                        assert(out@[i] == body);
                    }
                }
            }
            assert(done + delimited_spans(t@, b@, e@, pos as int) =~= nd + delimited_spans(
                t@,
                b@,
                e@,
                stop as int,
            ));
            done = nd;
        }
        pos = stop;
    }
}

impl Message {
    /// The bodies of the tool calls written in an assistant message's content
    /// between the given markers (see [`message_tool_call_bodies`]).
    pub fn tool_call_bodies(&self, markers: &ToolCallMarkers) -> (r: Option<Vec<String>>)
        requires
            markers.begin@.len() > 0,
        ensures
            match message_tool_call_bodies(self.deep_view(), markers.begin@, markers.end@) {
                Some(bodies) => r matches Some(v) && v.deep_view() == bodies,
                None => r is None,
            },
    {
        match self {
            Message::Assistant { content: Some(c), .. } => {
                let s = c.to_searchable_string();
                let v = chars_of(s.as_str());
                let b = chars_of(markers.begin.as_str());
                let e = chars_of(markers.end.as_str());
                if !(contains_chars(&v, &b) || contains_chars(&v, &e)) {
                    return None;
                }
                let nl = chars_of("\n");
                let empty: Vec<char> = Vec::new();
                proof {
                    reveal_strlit("\n");
                    assert(nl@ =~= seq!['\n']);
                }
                let flat = replace_chars(&v, &nl, &empty);
                Some(extract_bodies(&flat, &b, &e))
            },
            _ => None,
        }
    }
}

// ---------------------------------------------------------------------------
// Completions
// ---------------------------------------------------------------------------

/// The tool calls made from parsed function data, each with the id `func`.
pub open spec fn calls_from(fs: Seq<FunctionDataModel>) -> Seq<ToolCallModel> {
    fs.map_values(|f: FunctionDataModel| ToolCallModel { id: "func"@, function: f })
}

/// An assistant message with content, given parsed tool calls, holds the
/// calls and loses its content; every other message stays as it is.
pub open spec fn message_with_calls(m: MessageModel, calls: Option<Seq<FunctionDataModel>>) -> MessageModel {
    match calls {
        Some(fs) => match m {
            MessageModel::Assistant { content: Some(_), .. } => MessageModel::Assistant {
                content: None,
                tool_calls: Some(calls_from(fs)),
            },
            _ => m,
        },
        None => m,
    }
}

/// The finish reason of a choice: `tool_calls` for an assistant message
/// without content, `stop` in place of `end_turn` for one with content, the
/// reason as it is otherwise.
pub open spec fn finish_reason_after(m: MessageModel, f: Seq<char>) -> Seq<char> {
    match m {
        MessageModel::Assistant { content: None, .. } => "tool_calls"@,
        MessageModel::Assistant { content: Some(_), .. } => if f == "end_turn"@ {
            "stop"@
        } else {
            f
        },
        _ => f,
    }
}

/// A choice after its tool calls are applied and its finish reason settled.
pub open spec fn parsed_choice(c: ChoiceModel, calls: Option<Seq<FunctionDataModel>>) -> ChoiceModel {
    let m = message_with_calls(c.message, calls);
    ChoiceModel { message: m, index: c.index, finish_reason: finish_reason_after(m, c.finish_reason) }
}

/// The parsed tool calls given for choice `i` (none past the end).
pub open spec fn calls_at(parsed: Seq<Option<Seq<FunctionDataModel>>>, i: int) -> Option<Seq<FunctionDataModel>> {
    if 0 <= i < parsed.len() {
        parsed[i]
    } else {
        None
    }
}

/// Tool calls with the id `func` for each parsed function call.
fn calls_from_data(fs: Vec<FunctionData>) -> (r: Vec<ToolCall>)
    ensures
        r.deep_view() == calls_from(fs.deep_view()),
{
    let mut fs = fs;
    let ghost all = fs.deep_view();
    let mut out: Vec<ToolCall> = Vec::new();
    while fs.len() > 0
        invariant
            out@.len() + fs@.len() == all.len(),
            fs.deep_view() == all.skip(out@.len() as int),
            out.deep_view() == calls_from(all.take(out@.len() as int)),
        decreases fs.len(),
    {
        let ghost n: int = out@.len() as int;
        let ghost fraw = fs@;
        let ghost fdv = fs.deep_view();
        let f = fs.remove(0);
        proof {
            assert(fdv[0] == fraw[0].deep_view());
            assert(fdv[0] == all.skip(n)[0]);
            assert(f.deep_view() == all[n as int]);
            assert(fs.deep_view() =~= all.skip(n + 1)) by {
                assert forall|k: int| 0 <= k < fs@.len() implies #[trigger] fs.deep_view()[k] == all.skip(n + 1)[k] by {
                    assert(fs@[k] == fraw[k + 1]);
                    assert(fdv[k + 1] == fraw[k + 1].deep_view());
                    assert(fdv[k + 1] == all.skip(n)[k + 1]);
                }
            }
        }
        let ghost before = out@;
        let ghost bdv = out.deep_view();
        out.push(ToolCall::Function { id: owned("func"), function: f });
        proof {
            assert(out.deep_view() =~= calls_from(all.take(n + 1))) by {
                assert forall|k: int| 0 <= k < out@.len() implies #[trigger] out.deep_view()[k]
                    == calls_from(all.take(n + 1))[k] by {
                    if k < before.len() {
                        assert(out@[k] == before[k]);
                        assert(bdv[k] == before[k].deep_view());
                    }
                }
            }
        }
    }
    assert(all.take(all.len() as int) =~= all);
    out
}

/// Applies parsed tool calls to a message (see [`message_with_calls`]).
fn apply_calls(m: Message, calls: Option<Vec<FunctionData>>) -> (r: Message)
    ensures
        r.deep_view() == message_with_calls(m.deep_view(), calls.deep_view()),
{
    match calls {
        None => m,
        Some(fs) => match m {
            Message::Assistant { content: Some(_), tool_calls: _ } => Message::Assistant {
                content: None,
                tool_calls: Some(calls_from_data(fs)),
            },
            other => other,
        },
    }
}

/// Settles the finish reason of a choice (see [`finish_reason_after`]).
fn settled_finish_reason(m: &Message, f: String) -> (r: String)
    ensures
        r@ == finish_reason_after(m.deep_view(), f@),
{
    match m {
        Message::Assistant { content: None, .. } => owned("tool_calls"),
        Message::Assistant { content: Some(_), .. } => if str_eq(f.as_str(), "end_turn") {
            owned("stop")
        } else {
            f
        },
        _ => f,
    }
}

impl Completion {
    /// The tool-call bodies written in each choice's message, between the
    /// markers of the prompt format of the completion's model (see
    /// [`PromptFormats::markers_for`] and [`message_tool_call_bodies`]), in
    /// choice order; the caller parses each body as JSON function data.
    pub fn tool_call_segments(&self, formats: &PromptFormats) -> (r: Vec<Option<Vec<String>>>)
        requires
            formats.wf(),
        ensures
            r@.len() == self.choices@.len(),
            forall|i: int|
                0 <= i < r@.len() ==> match message_tool_call_bodies(
                    (#[trigger] self.choices@[i]).message.deep_view(),
                    formats.markers_for_model(self.model@).begin@,
                    formats.markers_for_model(self.model@).end@,
                ) {
                    Some(bodies) => r@[i] matches Some(v) && v.deep_view() == bodies,
                    None => r@[i] is None,
                },
    {
        let markers = formats.markers_for(self.model.as_str());
        proof {
            formats.lemma_markers_open(prompt_family_of(lowercase(self.model@)));
        }
        let mut out: Vec<Option<Vec<String>>> = Vec::new();
        let mut i: usize = 0;
        while i < self.choices.len()
            invariant
                i <= self.choices.len(),
                out@.len() == i,
                markers.begin@.len() > 0,
                *markers == formats.markers_for_model(self.model@),
                forall|k: int|
                    0 <= k < i ==> match message_tool_call_bodies(
                        (#[trigger] self.choices@[k]).message.deep_view(),
                        markers.begin@,
                        markers.end@,
                    ) {
                        Some(bodies) => out@[k] matches Some(v) && v.deep_view() == bodies,
                        None => out@[k] is None,
                    },
            decreases self.choices.len() - i,
        {
            let b = self.choices[i].message.tool_call_bodies(markers);
            out.push(b);
            i += 1;
        }
        out
    }

    /// Finishes a completion with the tool calls parsed from its segments:
    /// each choice's message takes its calls (see [`message_with_calls`]) and
    /// its finish reason is settled (see [`finish_reason_after`]).
    pub fn parse_with(self, parsed: Vec<Option<Vec<FunctionData>>>) -> (r: Completion)
        ensures
            r.object == self.object,
            r.id == self.id,
            r.model == self.model,
            r.created == self.created,
            r.usage == self.usage,
            r.choices.deep_view().len() == self.choices.deep_view().len(),
            forall|i: int|
                0 <= i < r.choices.deep_view().len() ==> #[trigger] r.choices.deep_view()[i]
                    == parsed_choice(self.choices.deep_view()[i], calls_at(parsed.deep_view(), i)),
    {
        let Completion { choices, object, id, model, created, usage } = self;
        let ghost all = choices.deep_view();
        let ghost pall = parsed.deep_view();
        let mut choices = choices;
        let mut parsed = parsed;
        let mut out: Vec<Choice> = Vec::new();
        let mut taken: usize = 0;
        while choices.len() > 0
            invariant
                out@.len() + choices@.len() == all.len(),
                choices.deep_view() == all.skip(out@.len() as int),
                taken == out@.len(),
                taken <= pall.len() ==> parsed.deep_view() == pall.skip(taken as int),
                taken > pall.len() ==> parsed@.len() == 0,
                forall|k: int|
                    0 <= k < out@.len() ==> #[trigger] out.deep_view()[k] == parsed_choice(
                        all[k],
                        calls_at(pall, k),
                    ),
            decreases choices.len(),
        {
            let ghost n: int = out@.len() as int;
            let ghost craw = choices@;
            let ghost cdv = choices.deep_view();
            let ghost praw = parsed@;
            let ghost pdv = parsed.deep_view();
            let c = choices.remove(0);
            proof {
                assert(cdv[0] == craw[0].deep_view());
                assert(cdv[0] == all.skip(n)[0]);
                assert(c.deep_view() == all[n as int]);
                assert(choices.deep_view() =~= all.skip(n + 1)) by {
                    assert forall|k: int| 0 <= k < choices@.len() implies #[trigger] choices.deep_view()[k] == all.skip(n + 1)[k] by {
                        assert(choices@[k] == craw[k + 1]);
                        assert(cdv[k + 1] == craw[k + 1].deep_view());
                        assert(cdv[k + 1] == all.skip(n)[k + 1]);
                    }
                }
            }
            let calls = if parsed.len() > 0 {
                let p = parsed.remove(0);
                proof {
                    assert(pdv[0] == praw[0].deep_view());
                    assert(pdv[0] == pall.skip(n)[0]);
                    assert(p.deep_view() == calls_at(pall, n as int));
                    assert(parsed.deep_view() =~= pall.skip(n + 1)) by {
                        assert forall|k: int| 0 <= k < parsed@.len() implies #[trigger] parsed.deep_view()[k] == pall.skip(n + 1)[k] by {
                            assert(parsed@[k] == praw[k + 1]);
                            assert(pdv[k + 1] == praw[k + 1].deep_view());
                            assert(pdv[k + 1] == pall.skip(n)[k + 1]);
                        }
                    }
                }
                p
            } else {
                assert(calls_at(pall, n as int) is None);
                None
            };
            let Choice { message, index, finish_reason } = c;
            let m = apply_calls(message, calls);
            let f = settled_finish_reason(&m, finish_reason);
            let ghost before = out@;
            let ghost bdv = out.deep_view();
            let nc = Choice { message: m, index, finish_reason: f };
            out.push(nc);
            proof {
                assert forall|k: int| 0 <= k < out@.len() implies #[trigger] out.deep_view()[k]
                    == parsed_choice(all[k], calls_at(pall, k)) by {
                    if k < before.len() {
                        assert(out@[k] == before[k]);
                        assert(bdv[k] == before[k].deep_view());
                    } else {
                        assert(out@[k] == nc);
                    }
                }
            }
            taken = out.len();
        }
        Completion { choices: out, object, id, model, created, usage }
    }
}


// ---------------------------------------------------------------------------
// Laws
// ---------------------------------------------------------------------------

/// Settling the finish reason of an assistant choice: where it keeps its
/// content, `end_turn` becomes `stop` and every other reason is kept as it
/// came; where parsed tool calls replace its content, it finishes with
/// `tool_calls` and holds one call per parsed function, with the id `func`.
pub proof fn law_finish_reason_settled(
    c: ChoiceModel,
    content: ContentModel,
    tool_calls: Option<Seq<ToolCallModel>>,
    calls: Option<Seq<FunctionDataModel>>,
)
    requires
        c.message == (MessageModel::Assistant { content: Some(content), tool_calls }),
    ensures
        calls is None ==> parsed_choice(c, calls).message == c.message,
        calls is None && c.finish_reason == "end_turn"@ ==> parsed_choice(c, calls).finish_reason
            == "stop"@,
        calls is None && c.finish_reason != "end_turn"@ ==> parsed_choice(c, calls).finish_reason
            == c.finish_reason,
        calls matches Some(fs) ==> {
            &&& parsed_choice(c, calls).finish_reason == "tool_calls"@
            &&& parsed_choice(c, calls).message matches MessageModel::Assistant {
                content: None,
                tool_calls: Some(ts),
            }
            &&& ts.len() == fs.len()
            &&& forall|k: int|
                0 <= k < fs.len() ==> (#[trigger] ts[k]).function == fs[k] && ts[k].id == "func"@
        },
        parsed_choice(c, calls).index == c.index,
{
}

/// The finish reason of every other choice is kept as it came: messages of
/// other roles, and an assistant message without content (which finishes
/// with `tool_calls`).
pub proof fn law_finish_reason_of_other_choices(c: ChoiceModel, calls: Option<Seq<FunctionDataModel>>)
    ensures
        !(c.message is Assistant) ==> parsed_choice(c, calls).finish_reason == c.finish_reason
            && parsed_choice(c, calls).message == c.message,
        (c.message matches MessageModel::Assistant { content: None, .. }) ==> parsed_choice(
            c,
            calls,
        ).finish_reason == "tool_calls"@,
{
}

} // verus!
