//! Message content in the OpenAI format and in the Straico format, and the
//! conversions and checks between them.

use vstd::prelude::*;
use vstd::utf8::{encode_utf8, encode_utf8_decode_utf8, is_char_boundary};
use crate::text::{
    concat_all, is_blank, lemma_concat_all_push, lemma_encode_utf8_concat, owned, push_str, str_eq,
    str_is_blank,
};

verus! {

broadcast use vstd::string::group_string_axioms;

// ---------------------------------------------------------------------------
// Types and their models
// ---------------------------------------------------------------------------

/// A content object: its type and its text.
pub struct ContentObjectModel {
    pub content_type: Seq<char>,
    pub text: Seq<char>,
}

/// A single content object in the OpenAI array format.
#[derive(Debug)]
pub struct OpenAiContentObject {
    /// The type of content (typically "text").
    pub content_type: String,
    /// The actual text content.
    pub text: String,
}

impl DeepView for OpenAiContentObject {
    type V = ContentObjectModel;

    open spec fn deep_view(&self) -> ContentObjectModel {
        ContentObjectModel { content_type: self.content_type@, text: self.text@ }
    }
}

/// OpenAI message content: a plain string, an array of content objects, or
/// null.
#[derive(Debug)]
pub enum OpenAiContent {
    String(String),
    Array(Vec<OpenAiContentObject>),
    Null,
}

/// Model of OpenAI message content.
pub enum OpenAiContentModel {
    String(Seq<char>),
    Array(Seq<ContentObjectModel>),
    Null,
}

impl DeepView for OpenAiContent {
    type V = OpenAiContentModel;

    open spec fn deep_view(&self) -> OpenAiContentModel {
        match self {
            OpenAiContent::String(s) => OpenAiContentModel::String(s@),
            OpenAiContent::Array(a) => OpenAiContentModel::Array(a.deep_view()),
            OpenAiContent::Null => OpenAiContentModel::Null,
        }
    }
}

/// A content object in the Straico chat format.
#[derive(Debug)]
pub struct ContentObject {
    /// The type of content (typically "text").
    pub content_type: String,
    /// The text.
    pub text: String,
}

impl DeepView for ContentObject {
    type V = ContentObjectModel;

    open spec fn deep_view(&self) -> ContentObjectModel {
        ContentObjectModel { content_type: self.content_type@, text: self.text@ }
    }
}

/// A text content object holding `t`.
pub open spec fn text_object(t: Seq<char>) -> ContentObjectModel {
    ContentObjectModel { content_type: "text"@, text: t }
}

impl ContentObject {
    /// A content object of the given type and text.
    pub fn new(content_type: &str, text: &str) -> (r: ContentObject)
        ensures
            r.deep_view() == (ContentObjectModel { content_type: content_type@, text: text@ }),
    {
        ContentObject { content_type: owned(content_type), text: owned(text) }
    }

    /// A text content object.
    pub fn text(text: &str) -> (r: ContentObject)
        ensures
            r.deep_view() == text_object(text@),
    {
        ContentObject { content_type: owned("text"), text: owned(text) }
    }
}

/// A chat message in the Straico format: a role and content objects.
pub struct ChatMessageModel {
    pub role: Seq<char>,
    pub content: Seq<ContentObjectModel>,
}

/// A chat message in the Straico chat format.
#[derive(Debug)]
pub struct ChatMessage {
    /// The role of the sender (system, user, assistant).
    pub role: String,
    /// The content objects of the message.
    pub content: Vec<ContentObject>,
}

impl DeepView for ChatMessage {
    type V = ChatMessageModel;

    open spec fn deep_view(&self) -> ChatMessageModel {
        ChatMessageModel { role: self.role@, content: self.content.deep_view() }
    }
}

impl ChatMessage {
    /// A message with the given role and content.
    pub fn new(role: &str, content: Vec<ContentObject>) -> (r: ChatMessage)
        ensures
            r.deep_view() == (ChatMessageModel { role: role@, content: content.deep_view() }),
    {
        ChatMessage { role: owned(role), content }
    }

    /// A user message holding one text object.
    pub fn user(text: &str) -> (r: ChatMessage)
        ensures
            r.deep_view() == (ChatMessageModel { role: "user"@, content: seq![text_object(text@)] }),
    {
        let mut content = Vec::new();
        content.push(ContentObject::text(text));
        assert(content.deep_view() =~= seq![text_object(text@)]);
        ChatMessage { role: owned("user"), content }
    }

    /// A system message holding one text object.
    pub fn system(text: &str) -> (r: ChatMessage)
        ensures
            r.deep_view() == (ChatMessageModel {
                role: "system"@,
                content: seq![text_object(text@)],
            }),
    {
        let mut content = Vec::new();
        content.push(ContentObject::text(text));
        assert(content.deep_view() =~= seq![text_object(text@)]);
        ChatMessage { role: owned("system"), content }
    }

    /// An assistant message holding one text object.
    pub fn assistant(text: &str) -> (r: ChatMessage)
        ensures
            r.deep_view() == (ChatMessageModel {
                role: "assistant"@,
                content: seq![text_object(text@)],
            }),
    {
        let mut content = Vec::new();
        content.push(ContentObject::text(text));
        assert(content.deep_view() =~= seq![text_object(text@)]);
        ChatMessage { role: owned("assistant"), content }
    }
}

/// A chat request in the Straico chat format.
pub struct ChatRequestModel {
    pub model: Seq<char>,
    pub messages: Seq<ChatMessageModel>,
    pub max_tokens: Option<u32>,
}

/// A chat request in the Straico chat format. The sampling temperature,
/// a float, is carried beside it by the caller.
#[derive(Debug)]
pub struct ChatRequest {
    /// The model to use.
    pub model: String,
    /// The conversation.
    pub messages: Vec<ChatMessage>,
    /// Maximum number of tokens to generate.
    pub max_tokens: Option<u32>,
}

impl DeepView for ChatRequest {
    type V = ChatRequestModel;

    open spec fn deep_view(&self) -> ChatRequestModel {
        ChatRequestModel {
            model: self.model@,
            messages: self.messages.deep_view(),
            max_tokens: self.max_tokens,
        }
    }
}

/// Builder of a [`ChatRequest`].
#[derive(Debug)]
pub struct ChatRequestBuilder {
    pub model: String,
    pub messages: Vec<ChatMessage>,
    pub max_tokens: Option<u32>,
}

impl ChatRequest {
    /// An empty builder: no model, no messages, no token limit.
    pub fn new() -> (r: ChatRequestBuilder)
        ensures
            r.model@ == Seq::<char>::empty(),
            r.messages@.len() == 0,
            r.max_tokens is None,
    {
        ChatRequestBuilder { model: String::new(), messages: Vec::new(), max_tokens: None }
    }

    /// An empty builder (same as [`ChatRequest::new`]).
    pub fn builder() -> (r: ChatRequestBuilder)
        ensures
            r.model@ == Seq::<char>::empty(),
            r.messages@.len() == 0,
            r.max_tokens is None,
    {
        ChatRequest::new()
    }
}

impl ChatRequestBuilder {
    /// Sets the model.
    pub fn model(self, model: &str) -> (r: ChatRequestBuilder)
        ensures
            r.model@ == model@,
            r.messages == self.messages,
            r.max_tokens == self.max_tokens,
    {
        ChatRequestBuilder { model: owned(model), ..self }
    }

    /// Appends one message.
    pub fn message(self, message: ChatMessage) -> (r: ChatRequestBuilder)
        ensures
            r.model == self.model,
            r.messages.deep_view() == self.messages.deep_view().push(message.deep_view()),
            r.max_tokens == self.max_tokens,
    {
        let mut messages = self.messages;
        let ghost before = messages@;
        messages.push(message);
        assert(messages.deep_view() =~= self.messages.deep_view().push(message.deep_view())) by {
            assert forall|k: int| 0 <= k < before.len() implies messages@[k] == before[k] by {}
        }
        ChatRequestBuilder { model: self.model, messages, max_tokens: self.max_tokens }
    }

    /// Replaces the messages.
    pub fn messages(self, messages: Vec<ChatMessage>) -> (r: ChatRequestBuilder)
        ensures
            r.model == self.model,
            r.messages == messages,
            r.max_tokens == self.max_tokens,
    {
        ChatRequestBuilder { model: self.model, messages, max_tokens: self.max_tokens }
    }

    /// Sets the token limit.
    pub fn max_tokens(self, max_tokens: u32) -> (r: ChatRequestBuilder)
        ensures
            r.model == self.model,
            r.messages == self.messages,
            r.max_tokens == Some(max_tokens),
    {
        ChatRequestBuilder { max_tokens: Some(max_tokens), ..self }
    }

    /// The request built.
    pub fn build(self) -> (r: ChatRequest)
        ensures
            r.model == self.model,
            r.messages == self.messages,
            r.max_tokens == self.max_tokens,
    {
        ChatRequest { model: self.model, messages: self.messages, max_tokens: self.max_tokens }
    }
}

// ---------------------------------------------------------------------------
// Specifications of the conversions
// ---------------------------------------------------------------------------

/// The content objects that OpenAI content stands for: one text object for
/// a string, the objects themselves for an array, none for null.
pub open spec fn content_objects_of(c: OpenAiContentModel) -> Seq<ContentObjectModel> {
    match c {
        OpenAiContentModel::String(s) => seq![text_object(s)],
        OpenAiContentModel::Array(a) => a,
        OpenAiContentModel::Null => seq![],
    }
}

/// The texts of a sequence of content objects.
pub open spec fn texts_of(objs: Seq<ContentObjectModel>) -> Seq<Seq<char>> {
    objs.map_values(|o: ContentObjectModel| o.text)
}

/// The text that OpenAI content renders to: the string, or the texts of the
/// array concatenated, or nothing for null.
pub open spec fn content_text(c: OpenAiContentModel) -> Seq<char> {
    match c {
        OpenAiContentModel::String(s) => s,
        OpenAiContentModel::Array(a) => concat_all(texts_of(a)),
        OpenAiContentModel::Null => seq![],
    }
}

/// The pieces into which `b` is cut: pieces of `max` bytes from the left,
/// the last one holding what remains; a sequence no longer than `max` is
/// one piece.
pub open spec fn byte_chunks(b: Seq<u8>, max: nat) -> Seq<Seq<u8>>
    decreases b.len(),
{
    if b.len() <= max || max == 0 {
        seq![b]
    } else {
        seq![b.take(max as int)] + byte_chunks(b.skip(max as int), max)
    }
}

/// Every cut that [`byte_chunks`] makes in `b` falls on a character boundary.
pub open spec fn cuts_on_char_boundaries(b: Seq<u8>, max: nat) -> bool
    decreases b.len(),
{
    if b.len() <= max || max == 0 {
        true
    } else {
        is_char_boundary(b, max as int) && cuts_on_char_boundaries(b.skip(max as int), max)
    }
}

/// Concatenation of byte sequences.
pub open spec fn concat_bytes(parts: Seq<Seq<u8>>) -> Seq<u8>
    decreases parts.len(),
{
    if parts.len() == 0 {
        Seq::empty()
    } else {
        parts[0] + concat_bytes(parts.drop_first())
    }
}

/// Appending one part to a byte concatenation.
proof fn lemma_concat_bytes_push(parts: Seq<Seq<u8>>, x: Seq<u8>)
    ensures
        concat_bytes(parts.push(x)) == concat_bytes(parts) + x,
    decreases parts.len(),
{
    if parts.len() == 0 {
        assert(parts.push(x).drop_first() =~= Seq::<Seq<u8>>::empty());
        assert(concat_bytes(Seq::<Seq<u8>>::empty()) =~= Seq::<u8>::empty());
        assert(concat_bytes(parts.push(x)) =~= x);
    } else {
        lemma_concat_bytes_push(parts.drop_first(), x);
        assert(parts.push(x).drop_first() =~= parts.drop_first().push(x));
        assert(concat_bytes(parts.push(x)) =~= concat_bytes(parts) + x);
    }
}

/// The encoding of joined texts is the join of their encodings.
proof fn lemma_encode_concat_all(texts: Seq<Seq<char>>)
    ensures
        encode_utf8(concat_all(texts)) == concat_bytes(texts.map_values(|t: Seq<char>| encode_utf8(t))),
    decreases texts.len(),
{
    let f = |t: Seq<char>| encode_utf8(t);
    if texts.len() == 0 {
        assert(texts.map_values(f) =~= Seq::<Seq<u8>>::empty());
        assert(encode_utf8(Seq::<char>::empty()) =~= Seq::<u8>::empty());
    } else {
        let init = texts.drop_last();
        lemma_encode_concat_all(init);
        lemma_encode_utf8_concat(concat_all(init), texts.last());
        assert(texts.map_values(f) =~= init.map_values(f).push(encode_utf8(texts.last())));
        lemma_concat_bytes_push(init.map_values(f), encode_utf8(texts.last()));
    }
}

/// Extracting the text of split content gives the content back: the texts
/// of pieces whose encodings are the byte chunks of `s` join to `s`.
pub proof fn law_split_then_extract(s: Seq<char>, max: nat, chunks: Seq<ContentObjectModel>)
    requires
        max > 0,
        chunks.len() == byte_chunks(encode_utf8(s), max).len(),
        forall|i: int|
            0 <= i < chunks.len() ==> encode_utf8(#[trigger] chunks[i].text) == byte_chunks(
                encode_utf8(s),
                max,
            )[i],
    ensures
        concat_all(texts_of(chunks)) == s,
{
    let texts = texts_of(chunks);
    let b = encode_utf8(s);
    lemma_encode_concat_all(texts);
    assert(texts.map_values(|t: Seq<char>| encode_utf8(t)) =~= byte_chunks(b, max)) by {
        assert forall|i: int| 0 <= i < texts.len() implies texts.map_values(|t: Seq<char>| encode_utf8(t))[i]
            == byte_chunks(b, max)[i] by {
            assert(texts[i] == chunks[i].text);
        }
    }
    law_byte_chunks_cover(b, max);
    encode_utf8_decode_utf8(concat_all(texts));
    encode_utf8_decode_utf8(s);
}

/// The pieces that [`byte_chunks`] makes give back the whole sequence, and
/// none is longer than the limit.
pub proof fn law_byte_chunks_cover(b: Seq<u8>, max: nat)
    requires
        max > 0,
    ensures
        concat_bytes(byte_chunks(b, max)) == b,
        forall|i: int| 0 <= i < byte_chunks(b, max).len() ==> #[trigger] byte_chunks(b, max)[i].len() <= max,
        byte_chunks(b, max).len() >= 1,
    decreases b.len(),
{
    if b.len() <= max {
        assert(byte_chunks(b, max) =~= seq![b]);
        assert(concat_bytes(Seq::<Seq<u8>>::empty()) =~= Seq::<u8>::empty());
        assert(concat_bytes(seq![b]) == b + concat_bytes(seq![b].drop_first()));
        assert(seq![b].drop_first() =~= Seq::<Seq<u8>>::empty());
        assert(b + Seq::<u8>::empty() =~= b);
    } else {
        law_byte_chunks_cover(b.skip(max as int), max);
        let rest = byte_chunks(b.skip(max as int), max);
        assert((seq![b.take(max as int)] + rest).drop_first() =~= rest);
        assert(b.take(max as int) + b.skip(max as int) =~= b);
        assert forall|i: int| 0 <= i < byte_chunks(b, max).len() implies #[trigger] byte_chunks(b, max)[i].len() <= max by {
            if i > 0 {
                assert(byte_chunks(b, max)[i] == rest[i - 1]);
            }
        }
    }
}

// ---------------------------------------------------------------------------
// Conversions
// ---------------------------------------------------------------------------

/// A text object in the OpenAI format.
fn openai_text_object(text: String) -> (r: OpenAiContentObject)
    ensures
        r.deep_view() == text_object(text@),
{
    OpenAiContentObject { content_type: owned("text"), text }
}

/// Normalizes OpenAI content to the array format: a string becomes one text
/// object, an array stays as it is, null becomes no objects.
pub fn normalize_openai_content_to_array(content: OpenAiContent) -> (r: Vec<OpenAiContentObject>)
    ensures
        r.deep_view() == content_objects_of(content.deep_view()),
{
    match content {
        OpenAiContent::String(text) => {
            let mut v = Vec::new();
            v.push(openai_text_object(text));
            assert(v.deep_view() =~= content_objects_of(content.deep_view()));
            v
        },
        OpenAiContent::Array(objects) => objects,
        OpenAiContent::Null => {
            let v: Vec<OpenAiContentObject> = Vec::new();
            assert(v.deep_view() =~= content_objects_of(content.deep_view()));
            v
        },
    }
}

impl OpenAiContent {
    /// The content as content objects (see [`normalize_openai_content_to_array`]).
    pub fn into_content_objects(self) -> (r: Vec<OpenAiContentObject>)
        ensures
            r.deep_view() == content_objects_of(self.deep_view()),
    {
        normalize_openai_content_to_array(self)
    }

    /// The text of the content: the string, or the texts of the array
    /// concatenated, or the empty string for null.
    pub fn to_text(&self) -> (r: String)
        ensures
            r@ == content_text(self.deep_view()),
    {
        match self {
            OpenAiContent::String(s) => s.clone(),
            OpenAiContent::Array(a) => {
                let mut out = String::new();
                let mut i: usize = 0;
                while i < a.len()
                    invariant
                        i <= a.len(),
                        out@ == concat_all(texts_of(a.deep_view().take(i as int))),
                    decreases a.len() - i,
                {
                    push_str(&mut out, a[i].text.as_str());
                    proof {
                        assert(texts_of(a.deep_view().take(i + 1)) =~= texts_of(
                            a.deep_view().take(i as int),
                        ).push(a[i as int].text@));
                        lemma_concat_all_push(texts_of(a.deep_view().take(i as int)), a[i as int].text@);
                    }
                    i += 1;
                }
                assert(a.deep_view().take(a.len() as int) =~= a.deep_view());
                out
            },
            OpenAiContent::Null => String::new(),
        }
    }
}

/// A Straico content object with the type and text of an OpenAI one.
pub fn content_object_from_openai(obj: OpenAiContentObject) -> (r: ContentObject)
    ensures
        r.deep_view() == obj.deep_view(),
{
    ContentObject { content_type: obj.content_type, text: obj.text }
}

/// Converts content objects one for one.
pub fn content_objects_from_openai(objs: &Vec<OpenAiContentObject>) -> (r: Vec<ContentObject>)
    ensures
        r.deep_view() == objs.deep_view(),
{
    let mut out: Vec<ContentObject> = Vec::new();
    let mut i: usize = 0;
    while i < objs.len()
        invariant
            i <= objs.len(),
            out@.len() == i,
            out.deep_view() == objs.deep_view().take(i as int),
        decreases objs.len() - i,
    {
        let o = &objs[i];
        let c = ContentObject { content_type: o.content_type.clone(), text: o.text.clone() };
        let ghost before = out@;
        out.push(c);
        assert(out.deep_view() =~= objs.deep_view().take(i + 1)) by {
            assert forall|k: int| 0 <= k < before.len() implies out@[k] == before[k] by {}
            assert(before.len() == i);
        }
        i += 1;
    }
    assert(objs.deep_view().take(objs.len() as int) =~= objs.deep_view());
    out
}

/// Converts OpenAI content to Straico content objects: one text object for a
/// string, the objects one for one for an array, none for null.
pub fn convert_openai_content_to_straico(content: OpenAiContent) -> (r: Vec<ContentObject>)
    ensures
        r.deep_view() == content_objects_of(content.deep_view()),
{
    let objs = normalize_openai_content_to_array(content);
    content_objects_from_openai(&objs)
}

/// Splits content into text objects of at most `max_length` bytes each,
/// cutting from the left; content no longer than the limit is one object.
pub fn split_content_into_chunks(content: &str, max_length: usize) -> (r: Vec<ContentObject>)
    requires
        encode_utf8(content@).len() <= usize::MAX,
        max_length > 0 || encode_utf8(content@).len() <= max_length,
        cuts_on_char_boundaries(encode_utf8(content@), max_length as nat),
    ensures
        r.len() == byte_chunks(encode_utf8(content@), max_length as nat).len(),
        forall|i: int|
            0 <= i < r.len() ==> {
                &&& (#[trigger] r@[i]).content_type@ == "text"@
                &&& encode_utf8(r@[i].text@) == byte_chunks(encode_utf8(content@), max_length as nat)[i]
            },
        concat_all(texts_of(r.deep_view())) == content@,
{
    let ghost all = byte_chunks(encode_utf8(content@), max_length as nat);
    assert(content.len() == encode_utf8(content@).len());
    if content.len() <= max_length {
        assert(all =~= seq![encode_utf8(content@)]);
        let mut v = Vec::new();
        v.push(ContentObject::text(content));
        proof {
            let t = texts_of(v.deep_view());
            assert(t.len() == 1 && t[0] == content@);
            assert(t.drop_last() =~= Seq::<Seq<char>>::empty());
            assert(concat_all(t.drop_last()) =~= Seq::<char>::empty());
            assert(concat_all(t) =~= content@);
        }
        return v;
    }
    let mut chunks: Vec<ContentObject> = Vec::new();
    let mut rest: &str = content;
    while rest.len() > max_length
        invariant
            max_length > 0,
            encode_utf8(rest@).len() <= usize::MAX,
            cuts_on_char_boundaries(encode_utf8(rest@), max_length as nat),
            all == byte_chunks(encode_utf8(content@), max_length as nat),
            chunks.len() + byte_chunks(encode_utf8(rest@), max_length as nat).len() == all.len(),
            forall|i: int|
                0 <= i < chunks.len() ==> {
                    &&& (#[trigger] chunks@[i]).content_type@ == "text"@
                    &&& encode_utf8(chunks@[i].text@) == all[i]
                },
            forall|i: int|
                0 <= i < byte_chunks(encode_utf8(rest@), max_length as nat).len() ==> #[trigger] byte_chunks(
                    encode_utf8(rest@),
                    max_length as nat,
                )[i] == all[chunks.len() + i],
        decreases encode_utf8(rest@).len(),
    {
        assert(rest.len() == encode_utf8(rest@).len());
        let ghost rb = encode_utf8(rest@);
        let ghost rest_chunks = byte_chunks(rb, max_length as nat);
        let (head, tail) = rest.split_at(max_length);
        proof {
            assert(encode_utf8(head@) =~= rb.take(max_length as int));
            assert(encode_utf8(tail@) =~= rb.skip(max_length as int));
            assert(rest_chunks == seq![rb.take(max_length as int)] + byte_chunks(
                rb.skip(max_length as int),
                max_length as nat,
            ));
        }
        let ghost before = chunks@;
        chunks.push(ContentObject::text(head));
        proof {
            assert(rest_chunks[0] == all[before.len() as int]);
            assert forall|i: int|
                0 <= i < byte_chunks(encode_utf8(tail@), max_length as nat).len() implies #[trigger] byte_chunks(
                encode_utf8(tail@),
                max_length as nat,
            )[i] == all[chunks.len() + i] by {
                assert(byte_chunks(encode_utf8(tail@), max_length as nat)[i] == rest_chunks[i + 1]);
            }
            assert forall|i: int| 0 <= i < chunks.len() implies {
                &&& (#[trigger] chunks@[i]).content_type@ == "text"@
                &&& encode_utf8(chunks@[i].text@) == all[i]
            } by {
                if i < before.len() {
                    assert(chunks@[i] == before[i]);
                }
            }
        }
        rest = tail;
    }
    assert(rest.len() == encode_utf8(rest@).len());
    let ghost before = chunks@;
    chunks.push(ContentObject::text(rest));
    proof {
        let rb = encode_utf8(rest@);
        assert(byte_chunks(rb, max_length as nat) =~= seq![rb]);
        assert forall|i: int| 0 <= i < chunks.len() implies {
            &&& (#[trigger] chunks@[i]).content_type@ == "text"@
            &&& encode_utf8(chunks@[i].text@) == all[i]
        } by {
            if i < before.len() {
                assert(chunks@[i] == before[i]);
            } else {
                assert(byte_chunks(rb, max_length as nat)[0] == all[before.len() as int]);
            }
        }
        let dv = chunks.deep_view();
        assert forall|i: int| 0 <= i < dv.len() implies encode_utf8(#[trigger] dv[i].text) == all[i] by {
            assert(dv[i] == chunks@[i].deep_view());
        }
        law_split_then_extract(content@, max_length as nat, dv);
    }
    chunks
}

/// Concatenates the texts of the content objects.
pub fn extract_text_from_content(content: &[ContentObject]) -> (r: String)
    ensures
        r@ == concat_all(texts_of(content.deep_view())),
{
    let mut out = String::new();
    let mut i: usize = 0;
    while i < content.len()
        invariant
            i <= content.len(),
            out@ == concat_all(texts_of(content.deep_view().take(i as int))),
        decreases content.len() - i,
    {
        push_str(&mut out, content[i].text.as_str());
        proof {
            assert(texts_of(content.deep_view().take(i + 1)) =~= texts_of(
                content.deep_view().take(i as int),
            ).push(content[i as int].text@));
            lemma_concat_all_push(texts_of(content.deep_view().take(i as int)), content[i as int].text@);
        }
        i += 1;
    }
    assert(content.deep_view().take(content.len() as int) =~= content.deep_view());
    out
}

// ---------------------------------------------------------------------------
// Validation and assembly
// ---------------------------------------------------------------------------

/// What is wrong with one content object, if anything: a type other than
/// `text`, or text that is empty or only white space.
pub open spec fn object_problem(o: ContentObjectModel) -> Option<Seq<char>> {
    if o.content_type != "text"@ {
        Some("Unsupported content type: "@ + o.content_type)
    } else if is_blank(o.text) {
        Some("Content object has empty text"@)
    } else {
        None
    }
}

/// The problem of the first content object that has one.
pub open spec fn first_object_problem(objs: Seq<ContentObjectModel>) -> Option<Seq<char>>
    decreases objs.len(),
{
    if objs.len() == 0 {
        None
    } else {
        match object_problem(objs[0]) {
            Some(m) => Some(m),
            None => first_object_problem(objs.drop_first()),
        }
    }
}

/// What is wrong with a list of content objects: none at all, or the
/// problem of the first object that has one.
pub open spec fn content_objects_problem(objs: Seq<ContentObjectModel>) -> Option<Seq<char>> {
    if objs.len() == 0 {
        Some("Content cannot be empty"@)
    } else {
        first_object_problem(objs)
    }
}

/// What is wrong with OpenAI content: a blank string, an empty array or one
/// with a bad object, or null.
pub open spec fn openai_content_problem(c: OpenAiContentModel) -> Option<Seq<char>> {
    match c {
        OpenAiContentModel::String(s) => if is_blank(s) {
            Some("Content cannot be empty"@)
        } else {
            None
        },
        OpenAiContentModel::Array(a) => if a.len() == 0 {
            Some("Content array cannot be empty"@)
        } else {
            first_object_problem(a)
        },
        OpenAiContentModel::Null => Some("Content cannot be null"@),
    }
}

/// The result of a check: success where there is no problem, else the
/// problem's message.
pub open spec fn check_result(r: Result<(), String>, problem: Option<Seq<char>>) -> bool {
    match problem {
        None => r is Ok,
        Some(m) => r matches Err(e) && e@ == m,
    }
}

/// The problem of one object, computed.
fn object_problem_of(content_type: &str, text: &str) -> (r: Option<String>)
    ensures
        match object_problem(ContentObjectModel { content_type: content_type@, text: text@ }) {
            None => r is None,
            Some(m) => r matches Some(e) && e@ == m,
        },
{
    if !str_eq(content_type, "text") {
        let mut msg = owned("Unsupported content type: ");
        push_str(&mut msg, content_type);
        Some(msg)
    } else if str_is_blank(text) {
        Some(owned("Content object has empty text"))
    } else {
        None
    }
}

proof fn lemma_first_problem_step(objs: Seq<ContentObjectModel>, i: int)
    requires
        0 <= i < objs.len(),
    ensures
        first_object_problem(objs.skip(i)) == match object_problem(objs[i]) {
            Some(m) => Some(m),
            None => first_object_problem(objs.skip(i + 1)),
        },
{
    assert(objs.skip(i).drop_first() =~= objs.skip(i + 1));
    assert(objs.skip(i)[0] == objs[i]);
}

/// Checks Straico content objects: there must be at least one, and each must
/// be a text object with text that is not blank.
pub fn validate_content_objects(content: &[ContentObject]) -> (r: Result<(), String>)
    ensures
        check_result(r, content_objects_problem(content.deep_view())),
{
    if content.len() == 0 {
        return Err(owned("Content cannot be empty"));
    }
    let ghost all = content.deep_view();
    assert(all.skip(0) =~= all);
    let mut i: usize = 0;
    while i < content.len()
        invariant
            i <= content.len(),
            all == content.deep_view(),
            first_object_problem(all) == first_object_problem(all.skip(i as int)),
        decreases content.len() - i,
    {
        proof {
            lemma_first_problem_step(all, i as int);
        }
        match object_problem_of(content[i].content_type.as_str(), content[i].text.as_str()) {
            Some(m) => return Err(m),
            None => {},
        }
        i += 1;
    }
    assert(all.skip(i as int) =~= Seq::<ContentObjectModel>::empty());
    Ok(())
}

/// Checks OpenAI content: a string must not be blank, an array must hold at
/// least one object and each must be a text object with text that is not
/// blank, and null content is refused.
pub fn validate_openai_content(content: &OpenAiContent) -> (r: Result<(), String>)
    ensures
        check_result(r, openai_content_problem(content.deep_view())),
{
    match content {
        OpenAiContent::String(s) => {
            if str_is_blank(s.as_str()) {
                Err(owned("Content cannot be empty"))
            } else {
                Ok(())
            }
        },
        OpenAiContent::Array(a) => {
            if a.len() == 0 {
                return Err(owned("Content array cannot be empty"));
            }
            let ghost all = a.deep_view();
            assert(all.skip(0) =~= all);
            let mut i: usize = 0;
            while i < a.len()
                invariant
                    i <= a.len(),
                    all == a.deep_view(),
                    all.len() > 0,
                    content.deep_view() == OpenAiContentModel::Array(all),
                    first_object_problem(all) == first_object_problem(all.skip(i as int)),
                decreases a.len() - i,
            {
                proof {
                    lemma_first_problem_step(all, i as int);
                }
                match object_problem_of(a[i].content_type.as_str(), a[i].text.as_str()) {
                    Some(m) => return Err(m),
                    None => {},
                }
                i += 1;
            }
            assert(all.skip(i as int) =~= Seq::<ContentObjectModel>::empty());
            Ok(())
        },
        OpenAiContent::Null => Err(owned("Content cannot be null")),
    }
}

/// A copy of a content object.
fn copy_object(o: &ContentObject) -> (r: ContentObject)
    ensures
        r.deep_view() == o.deep_view(),
{
    ContentObject { content_type: o.content_type.clone(), text: o.text.clone() }
}

/// Concatenation of sequences of content objects.
pub open spec fn flatten_objects(arrays: Seq<Seq<ContentObjectModel>>) -> Seq<ContentObjectModel>
    decreases arrays.len(),
{
    if arrays.len() == 0 {
        Seq::empty()
    } else {
        flatten_objects(arrays.drop_last()) + arrays.last()
    }
}

/// Merges several content arrays into one, keeping their order.
pub fn merge_content_arrays(arrays: Vec<Vec<ContentObject>>) -> (r: Vec<ContentObject>)
    ensures
        r.deep_view() == flatten_objects(arrays.deep_view()),
{
    let mut out: Vec<ContentObject> = Vec::new();
    let mut i: usize = 0;
    while i < arrays.len()
        invariant
            i <= arrays.len(),
            out.deep_view() == flatten_objects(arrays.deep_view().take(i as int)),
        decreases arrays.len() - i,
    {
        let inner = &arrays[i];
        let ghost start = out.deep_view();
        let mut j: usize = 0;
        while j < inner.len()
            invariant
                j <= inner.len(),
                out@.len() == start.len() + j,
                out.deep_view() == start + inner.deep_view().take(j as int),
            decreases inner.len() - j,
        {
            let ghost before = out@;
            let ghost bdv = out.deep_view();
            let c = copy_object(&inner[j]);
            out.push(c);
            assert(out.deep_view() =~= start + inner.deep_view().take(j + 1)) by {
                assert forall|k: int| 0 <= k < out@.len() implies #[trigger] out.deep_view()[k] == (start
                    + inner.deep_view().take(j + 1))[k] by {
                    if k < before.len() {
                        assert(out@[k] == before[k]);
                        assert(bdv[k] == before[k].deep_view());
                    } else {
                        assert(out@[k] == c);
                    }
                }
            }
            j += 1;
        }
        proof {
            assert(inner.deep_view().take(inner.len() as int) =~= inner.deep_view());
            let t = arrays.deep_view().take(i + 1);
            assert(t.drop_last() =~= arrays.deep_view().take(i as int));
            assert(t.last() == inner.deep_view());
        }
        i += 1;
    }
    assert(arrays.deep_view().take(arrays.len() as int) =~= arrays.deep_view());
    out
}

/// The default system message.
pub open spec fn default_system_message() -> ChatMessageModel {
    ChatMessageModel { role: "system"@, content: seq![text_object("You are a helpful assistant."@)] }
}

/// Creates the default system message.
pub fn create_default_system_message() -> (r: ChatMessage)
    ensures
        r.deep_view() == default_system_message(),
{
    ChatMessage::system("You are a helpful assistant.")
}

/// Some message of the conversation has the system role.
pub open spec fn has_system_message(messages: Seq<ChatMessageModel>) -> bool {
    exists|i: int| 0 <= i < messages.len() && (#[trigger] messages[i]).role == "system"@
}

/// The messages unchanged where one has the system role, else the default
/// system message followed by the messages.
pub open spec fn with_system_message(messages: Seq<ChatMessageModel>) -> Seq<ChatMessageModel> {
    if has_system_message(messages) {
        messages
    } else {
        seq![default_system_message()] + messages
    }
}

/// Makes sure the request has a system message: where none of its messages
/// has the system role, the default system message is put first.
pub fn ensure_system_message(request: ChatRequest) -> (r: ChatRequest)
    ensures
        r.model == request.model,
        r.max_tokens == request.max_tokens,
        r.messages.deep_view() == with_system_message(request.messages.deep_view()),
{
    let mut i: usize = 0;
    while i < request.messages.len()
        invariant
            i <= request.messages.len(),
            forall|k: int| 0 <= k < i ==> (#[trigger] request.messages.deep_view()[k]).role != "system"@,
        decreases request.messages.len() - i,
    {
        if str_eq(request.messages[i].role.as_str(), "system") {
            assert(request.messages.deep_view()[i as int].role == "system"@);
            return request;
        }
        i += 1;
    }
    let ghost before = request.messages.deep_view();
    let ghost raw = request.messages@;
    let mut messages = request.messages;
    messages.insert(0, create_default_system_message());
    assert(messages.deep_view() =~= seq![default_system_message()] + before) by {
        assert forall|k: int| 0 < k < messages@.len() implies messages@[k] == raw[k - 1] by {}
    }
    ChatRequest { model: request.model, messages, max_tokens: request.max_tokens }
}

/// The message has at least one content object whose text is not blank.
pub open spec fn has_meaningful_content(m: ChatMessageModel) -> bool {
    exists|i: int| 0 <= i < m.content.len() && !is_blank((#[trigger] m.content[i]).text)
}

/// Whether the message has at least one content object with text that is
/// not blank.
pub fn validate_message_content(message: &ChatMessage) -> (r: bool)
    ensures
        r == has_meaningful_content(message.deep_view()),
{
    let mut i: usize = 0;
    while i < message.content.len()
        invariant
            i <= message.content.len(),
            forall|k: int| 0 <= k < i ==> is_blank((#[trigger] message.content.deep_view()[k]).text),
        decreases message.content.len() - i,
    {
        if !str_is_blank(message.content[i].text.as_str()) {
            assert(!is_blank(message.deep_view().content[i as int].text));
            return true;
        }
        i += 1;
    }
    false
}

// ---------------------------------------------------------------------------
// Laws
// ---------------------------------------------------------------------------

/// The text of converted content is the text of the content itself.
pub proof fn law_conversion_keeps_text(c: OpenAiContentModel)
    ensures
        concat_all(texts_of(content_objects_of(c))) == content_text(c),
{
    match c {
        OpenAiContentModel::String(s) => {
            let t = texts_of(seq![text_object(s)]);
            assert(t.len() == 1 && t[0] == s);
            assert(t.drop_last() =~= Seq::<Seq<char>>::empty());
            assert(concat_all(t.drop_last()) =~= Seq::<char>::empty());
            assert(concat_all(t) =~= s);
        },
        OpenAiContentModel::Array(a) => {},
        OpenAiContentModel::Null => {
            assert(texts_of(Seq::<ContentObjectModel>::empty()).len() == 0);
        },
    }
}

/// OpenAI content passes validation exactly when the content objects it
/// converts to do.
pub proof fn law_conversion_keeps_validity(c: OpenAiContentModel)
    ensures
        openai_content_problem(c) is None <==> content_objects_problem(content_objects_of(c)) is None,
{
    reveal_strlit("text");
    match c {
        OpenAiContentModel::String(s) => {
            let objs = seq![text_object(s)];
            assert(objs.drop_first() =~= Seq::<ContentObjectModel>::empty());
            assert(first_object_problem(Seq::<ContentObjectModel>::empty()) is None);
            assert(objs[0] == text_object(s));
        },
        OpenAiContentModel::Array(a) => {},
        OpenAiContentModel::Null => {},
    }
}

/// Concatenating two lists of strings concatenates their concatenations.
pub proof fn lemma_concat_all_append(p: Seq<Seq<char>>, q: Seq<Seq<char>>)
    ensures
        concat_all(p + q) == concat_all(p) + concat_all(q),
    decreases q.len(),
{
    if q.len() == 0 {
        assert(p + q =~= p);
        assert(concat_all(p) + concat_all(q) =~= concat_all(p));
    } else {
        lemma_concat_all_append(p, q.drop_last());
        assert((p + q).drop_last() =~= p + q.drop_last());
        assert((p + q).last() == q.last());
        assert(concat_all(p) + concat_all(q.drop_last()) + q.last() =~= concat_all(p) + (concat_all(
            q.drop_last(),
        ) + q.last()));
    }
}

/// The text of merged content arrays is the text of each array, in order.
pub proof fn law_merge_keeps_text(arrays: Seq<Seq<ContentObjectModel>>)
    ensures
        concat_all(texts_of(flatten_objects(arrays))) == concat_all(
            arrays.map_values(|a: Seq<ContentObjectModel>| concat_all(texts_of(a))),
        ),
    decreases arrays.len(),
{
    let f = |a: Seq<ContentObjectModel>| concat_all(texts_of(a));
    if arrays.len() == 0 {
        assert(texts_of(flatten_objects(arrays)) =~= Seq::<Seq<char>>::empty());
        assert(arrays.map_values(f) =~= Seq::<Seq<char>>::empty());
    } else {
        let init = arrays.drop_last();
        law_merge_keeps_text(init);
        assert(texts_of(flatten_objects(init) + arrays.last()) =~= texts_of(flatten_objects(init))
            + texts_of(arrays.last()));
        lemma_concat_all_append(texts_of(flatten_objects(init)), texts_of(arrays.last()));
        assert(arrays.map_values(f) =~= init.map_values(f).push(f(arrays.last())));
        lemma_concat_all_push(init.map_values(f), f(arrays.last()));
    }
}

/// After the system message is ensured there is one, and ensuring it again
/// changes nothing.
pub proof fn law_system_message_idempotent(messages: Seq<ChatMessageModel>)
    ensures
        has_system_message(with_system_message(messages)),
        with_system_message(with_system_message(messages)) == with_system_message(messages),
{
    reveal_strlit("system");
    if !has_system_message(messages) {
        let w = with_system_message(messages);
        assert(w[0] == default_system_message());
        assert(w[0].role == "system"@);
    }
}

} // verus!
