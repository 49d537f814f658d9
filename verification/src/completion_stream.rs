//! A completion replayed as a stream of chunks: for each choice first the
//! role, then the content, then the tool calls, each in a chunk of its own.

use vstd::prelude::*;
use crate::completion::{
    Choice, ChoiceModel, Completion, ContentModel, Message, MessageModel, ToolCall, ToolCallModel,
    Usage, display_text,
};
use crate::text::owned;

verus! {

broadcast use vstd::string::group_string_axioms;

/// An incremental update of a choice's message.
#[derive(Debug)]
pub struct Delta {
    pub role: Option<String>,
    pub content: Option<String>,
    pub tool_calls: Option<Vec<ToolCall>>,
}

/// Model of a delta.
pub struct DeltaModel {
    pub role: Option<Seq<char>>,
    pub content: Option<Seq<char>>,
    pub tool_calls: Option<Seq<ToolCallModel>>,
}

impl DeepView for Delta {
    type V = DeltaModel;

    open spec fn deep_view(&self) -> DeltaModel {
        DeltaModel {
            role: self.role.deep_view(),
            content: self.content.deep_view(),
            tool_calls: self.tool_calls.deep_view(),
        }
    }
}

/// One choice of a stream chunk.
#[derive(Debug)]
pub struct ChoiceStream {
    pub index: u8,
    pub delta: Delta,
    pub finish_reason: Option<String>,
}

/// Model of a choice of a stream chunk.
pub struct ChoiceStreamModel {
    pub index: u8,
    pub delta: DeltaModel,
    pub finish_reason: Option<Seq<char>>,
}

impl DeepView for ChoiceStream {
    type V = ChoiceStreamModel;

    open spec fn deep_view(&self) -> ChoiceStreamModel {
        ChoiceStreamModel {
            index: self.index,
            delta: self.delta.deep_view(),
            finish_reason: self.finish_reason.deep_view(),
        }
    }
}

/// A chunk of a streamed completion.
#[derive(Debug)]
pub struct CompletionStream {
    pub choices: Vec<ChoiceStream>,
    pub object: String,
    pub id: String,
    pub model: String,
    pub created: u64,
    pub usage: Usage,
}

/// Model of a stream chunk.
pub struct CompletionStreamModel {
    pub choices: Seq<ChoiceStreamModel>,
    pub object: Seq<char>,
    pub id: Seq<char>,
    pub model: Seq<char>,
    pub created: u64,
    pub usage: Usage,
}

impl DeepView for CompletionStream {
    type V = CompletionStreamModel;

    open spec fn deep_view(&self) -> CompletionStreamModel {
        CompletionStreamModel {
            choices: self.choices.deep_view(),
            object: self.object@,
            id: self.id@,
            model: self.model@,
            created: self.created,
            usage: self.usage,
        }
    }
}

// ---------------------------------------------------------------------------
// Splitting a delta
// ---------------------------------------------------------------------------

/// The parts a delta is streamed in: the role, the content, the tool calls,
/// each alone, in that order, those present only.
pub open spec fn delta_parts(
    role: Option<Seq<char>>,
    content: Option<Seq<char>>,
    tool_calls: Option<Seq<ToolCallModel>>,
) -> Seq<DeltaModel> {
    (if role is Some {
        seq![DeltaModel { role: role, content: None, tool_calls: None }]
    } else {
        seq![]
    }) + (if content is Some {
        seq![DeltaModel { role: None, content: content, tool_calls: None }]
    } else {
        seq![]
    }) + (if tool_calls is Some {
        seq![DeltaModel { role: None, content: None, tool_calls: tool_calls }]
    } else {
        seq![]
    })
}

#[derive(Debug, Clone, Copy, PartialEq, Eq, Structural)]
enum DeltaState {
    Role,
    Content,
    ToolCalls,
    Done,
}

/// Iterator over the parts of a delta.
pub struct DeltaIterator {
    state: DeltaState,
    role: Option<String>,
    content: Option<String>,
    tool_calls: Option<Vec<ToolCall>>,
}

impl DeltaIterator {
    /// The state holds what it is about to yield.
    pub closed spec fn wf(&self) -> bool {
        match self.state {
            DeltaState::Role => self.role is Some,
            DeltaState::Content => self.content is Some,
            DeltaState::ToolCalls => self.tool_calls is Some,
            DeltaState::Done => true,
        }
    }

    /// The parts still to come.
    pub closed spec fn remaining(&self) -> Seq<DeltaModel> {
        match self.state {
            DeltaState::Role => delta_parts(
                self.role.deep_view(),
                self.content.deep_view(),
                self.tool_calls.deep_view(),
            ),
            DeltaState::Content => delta_parts(
                None,
                self.content.deep_view(),
                self.tool_calls.deep_view(),
            ),
            DeltaState::ToolCalls => delta_parts(None, None, self.tool_calls.deep_view()),
            DeltaState::Done => Seq::empty(),
        }
    }

    /// Whether every part has been yielded.
    pub fn is_done(&self) -> (r: bool)
        requires
            self.wf(),
        ensures
            r == (self.remaining().len() == 0),
    {
        match self.state {
            DeltaState::Done => true,
            _ => false,
        }
    }

    /// The next part of the delta.
    pub fn next(&mut self) -> (r: Option<Delta>)
        requires
            old(self).wf(),
        ensures
            final(self).wf(),
            old(self).remaining().len() == 0 ==> r is None && final(self).remaining() == old(
                self,
            ).remaining(),
            old(self).remaining().len() > 0 ==> (r matches Some(d) && d.deep_view() == old(
                self,
            ).remaining()[0] && final(self).remaining() == old(self).remaining().drop_first()),
    {
        let ghost rem = self.remaining();
        match self.state {
            DeltaState::Role => {
                self.state = if self.content.is_some() {
                    DeltaState::Content
                } else if self.tool_calls.is_some() {
                    DeltaState::ToolCalls
                } else {
                    DeltaState::Done
                };
                let role = self.role.take();
                assert(self.remaining() =~= rem.drop_first());
                Some(Delta { role, content: None, tool_calls: None })
            },
            DeltaState::Content => {
                self.state = if self.tool_calls.is_some() {
                    DeltaState::ToolCalls
                } else {
                    DeltaState::Done
                };
                let content = self.content.take();
                assert(self.remaining() =~= rem.drop_first());
                Some(Delta { role: None, content, tool_calls: None })
            },
            DeltaState::ToolCalls => {
                self.state = DeltaState::Done;
                let tool_calls = self.tool_calls.take();
                assert(self.remaining() =~= rem.drop_first());
                Some(Delta { role: None, content: None, tool_calls })
            },
            DeltaState::Done => None,
        }
    }
}

impl Delta {
    /// An iterator over the parts of the delta (see [`delta_parts`]).
    pub fn into_iter(self) -> (r: DeltaIterator)
        ensures
            r.wf(),
            r.remaining() == delta_parts(
                self.role.deep_view(),
                self.content.deep_view(),
                self.tool_calls.deep_view(),
            ),
    {
        let state = if self.role.is_some() {
            DeltaState::Role
        } else if self.content.is_some() {
            DeltaState::Content
        } else if self.tool_calls.is_some() {
            DeltaState::ToolCalls
        } else {
            DeltaState::Done
        };
        let r = DeltaIterator {
            state,
            role: self.role,
            content: self.content,
            tool_calls: self.tool_calls,
        };
        assert(r.remaining() =~= delta_parts(
            self.role.deep_view(),
            self.content.deep_view(),
            self.tool_calls.deep_view(),
        ));
        r
    }
}

// ---------------------------------------------------------------------------
// Splitting a choice
// ---------------------------------------------------------------------------

/// The choices a streamed choice is replayed in: one per part of its delta,
/// the finish reason on the last one only.
pub open spec fn choice_parts(index: u8, parts: Seq<DeltaModel>, finish_reason: Option<Seq<char>>) -> Seq<
    ChoiceStreamModel,
> {
    Seq::new(
        parts.len(),
        |k: int|
            ChoiceStreamModel {
                index: index,
                delta: parts[k],
                finish_reason: if k == parts.len() - 1 {
                    finish_reason
                } else {
                    None
                },
            },
    )
}

/// Iterator over the parts of a streamed choice.
pub struct ChoiceStreamIterator {
    index: u8,
    delta_iter: DeltaIterator,
    finish_reason: Option<String>,
}

impl ChoiceStreamIterator {
    pub closed spec fn wf(&self) -> bool {
        self.delta_iter.wf()
    }

    /// The choices still to come.
    pub closed spec fn remaining(&self) -> Seq<ChoiceStreamModel> {
        choice_parts(self.index, self.delta_iter.remaining(), self.finish_reason.deep_view())
    }

    /// The next choice.
    pub fn next(&mut self) -> (r: Option<ChoiceStream>)
        requires
            old(self).wf(),
        ensures
            final(self).wf(),
            old(self).remaining().len() == 0 ==> r is None && final(self).remaining() == old(
                self,
            ).remaining(),
            old(self).remaining().len() > 0 ==> (r matches Some(c) && c.deep_view() == old(
                self,
            ).remaining()[0] && final(self).remaining() == old(self).remaining().drop_first()),
    {
        let ghost rem = self.delta_iter.remaining();
        let delta = match self.delta_iter.next() {
            Some(d) => d,
            None => return None,
        };
        let finish_reason = if self.delta_iter.is_done() {
            self.finish_reason.clone()
        } else {
            None
        };
        assert(self.remaining() =~= choice_parts(self.index, rem, self.finish_reason.deep_view()).drop_first());
        Some(ChoiceStream { index: self.index, delta, finish_reason })
    }
}

impl ChoiceStream {
    /// An iterator over the parts of the choice (see [`choice_parts`]).
    pub fn into_iter(self) -> (r: ChoiceStreamIterator)
        ensures
            r.wf(),
            r.remaining() == choice_parts(
                self.index,
                delta_parts(
                    self.delta.role.deep_view(),
                    self.delta.content.deep_view(),
                    self.delta.tool_calls.deep_view(),
                ),
                self.finish_reason.deep_view(),
            ),
    {
        ChoiceStreamIterator {
            index: self.index,
            delta_iter: self.delta.into_iter(),
            finish_reason: self.finish_reason,
        }
    }
}

// ---------------------------------------------------------------------------
// Streaming a completion
// ---------------------------------------------------------------------------

/// The longest of the sequences.
pub open spec fn max_len(its: Seq<Seq<ChoiceStreamModel>>) -> nat
    decreases its.len(),
{
    if its.len() == 0 {
        0
    } else {
        let m = max_len(its.drop_last());
        if its.last().len() > m {
            its.last().len()
        } else {
            m
        }
    }
}

/// The choices of chunk `t`: the `t`-th part of every choice that has one,
/// in choice order.
pub open spec fn chunk_choices(its: Seq<Seq<ChoiceStreamModel>>, t: int) -> Seq<ChoiceStreamModel>
    decreases its.len(),
{
    if its.len() == 0 {
        Seq::empty()
    } else {
        chunk_choices(its.drop_last(), t) + if 0 <= t < its.last().len() {
            seq![its.last()[t]]
        } else {
            seq![]
        }
    }
}

/// The chunks of a stream: as many as the longest choice has parts, chunk
/// `t` holding the `t`-th parts and the completion's metadata.
pub open spec fn stream_chunks(
    its: Seq<Seq<ChoiceStreamModel>>,
    object: Seq<char>,
    id: Seq<char>,
    model: Seq<char>,
    created: u64,
    usage: Usage,
) -> Seq<CompletionStreamModel> {
    Seq::new(
        max_len(its),
        |t: int|
            CompletionStreamModel {
                choices: chunk_choices(its, t),
                object: object,
                id: id,
                model: model,
                created: created,
                usage: usage,
            },
    )
}

/// A sequence without its first element (an empty one stays empty).
pub open spec fn tail_of(s: Seq<ChoiceStreamModel>) -> Seq<ChoiceStreamModel> {
    if s.len() > 0 {
        s.drop_first()
    } else {
        s
    }
}

/// Every sequence advanced by one.
pub open spec fn tails(its: Seq<Seq<ChoiceStreamModel>>) -> Seq<Seq<ChoiceStreamModel>> {
    its.map_values(|s: Seq<ChoiceStreamModel>| tail_of(s))
}

proof fn lemma_chunk_choices_tails(its: Seq<Seq<ChoiceStreamModel>>, t: int)
    requires
        t >= 0,
    ensures
        chunk_choices(tails(its), t) == chunk_choices(its, t + 1),
    decreases its.len(),
{
    if its.len() > 0 {
        lemma_chunk_choices_tails(its.drop_last(), t);
        assert(tails(its).drop_last() =~= tails(its.drop_last()));
    }
}

proof fn lemma_max_len_tails(its: Seq<Seq<ChoiceStreamModel>>)
    ensures
        max_len(tails(its)) == if max_len(its) > 0 {
            max_len(its) - 1
        } else {
            0
        },
    decreases its.len(),
{
    if its.len() > 0 {
        lemma_max_len_tails(its.drop_last());
        assert(tails(its).drop_last() =~= tails(its.drop_last()));
    }
}

proof fn lemma_max_len_bound(its: Seq<Seq<ChoiceStreamModel>>)
    ensures
        forall|k: int| 0 <= k < its.len() ==> (#[trigger] its[k]).len() <= max_len(its),
        max_len(its) == 0 || exists|k: int| 0 <= k < its.len() && (#[trigger] its[k]).len() == max_len(its),
    decreases its.len(),
{
    if its.len() > 0 {
        lemma_max_len_bound(its.drop_last());
        let d = its.drop_last();
        assert forall|k: int| 0 <= k < its.len() implies (#[trigger] its[k]).len() <= max_len(its) by {
            if k < d.len() {
                assert(its[k] == d[k]);
            }
        }
        if max_len(its) > 0 && max_len(its) != its.last().len() {
            let k = choose|k: int| 0 <= k < d.len() && (#[trigger] d[k]).len() == max_len(d);
            assert(its[k] == d[k]);
        }
    }
}

proof fn lemma_chunk_zero_empty(its: Seq<Seq<ChoiceStreamModel>>)
    ensures
        (chunk_choices(its, 0).len() == 0) == (max_len(its) == 0),
    decreases its.len(),
{
    if its.len() > 0 {
        lemma_chunk_zero_empty(its.drop_last());
    }
}

/// Iterator over the chunks of a streamed completion.
pub struct CompletionStreamIterator {
    choices: Vec<ChoiceStreamIterator>,
    object: String,
    id: String,
    model: String,
    created: u64,
    usage: Usage,
    done: bool,
}

/// The parts still to come of each choice.
pub open spec fn remainings(its: Seq<ChoiceStreamIterator>) -> Seq<Seq<ChoiceStreamModel>> {
    its.map_values(|it: ChoiceStreamIterator| it.remaining())
}

impl CompletionStreamIterator {
    pub closed spec fn wf(&self) -> bool {
        forall|k: int| 0 <= k < self.choices@.len() ==> (#[trigger] self.choices@[k]).wf()
    }

    /// The chunks still to come.
    pub closed spec fn remaining(&self) -> Seq<CompletionStreamModel> {
        if self.done {
            Seq::empty()
        } else {
            stream_chunks(
                remainings(self.choices@),
                self.object@,
                self.id@,
                self.model@,
                self.created,
                self.usage,
            )
        }
    }

    /// The next chunk.
    pub fn next(&mut self) -> (r: Option<CompletionStream>)
        requires
            old(self).wf(),
        ensures
            final(self).wf(),
            old(self).remaining().len() == 0 ==> r is None && final(self).remaining().len() == 0,
            old(self).remaining().len() > 0 ==> (r matches Some(c) && c.deep_view() == old(
                self,
            ).remaining()[0] && final(self).remaining() == old(self).remaining().drop_first()),
    {
        if self.done {
            return None;
        }
        let ghost old_its = self.choices@;
        let ghost rems = remainings(old_its);
        let mut its: Vec<ChoiceStreamIterator> = Vec::new();
        core::mem::swap(&mut its, &mut self.choices);
        let mut new_its: Vec<ChoiceStreamIterator> = Vec::new();
        let mut choices_next: Vec<ChoiceStream> = Vec::new();
        let mut all_done = true;
        let mut j: usize = 0;
        while its.len() > 0
            invariant
                j + its@.len() == old_its.len(),
                rems == remainings(old_its),
                forall|k: int| 0 <= k < old_its.len() ==> (#[trigger] old_its[k]).wf(),
                forall|k: int| 0 <= k < its@.len() ==> (#[trigger] its@[k]) == old_its[j + k],
                new_its@.len() == j,
                forall|k: int| 0 <= k < j ==> (#[trigger] new_its@[k]).wf(),
                remainings(new_its@) == tails(rems.take(j as int)),
                choices_next.deep_view() == chunk_choices(rems.take(j as int), 0),
                all_done == forall|k: int| 0 <= k < j ==> (#[trigger] rems[k]).len() <= 1,
            decreases its.len(),
        {
            let ghost iraw = its@;
            let mut it = its.remove(0);
            assert(it == old_its[j as int]);
            assert(forall|k: int| 0 <= k < its@.len() ==> its@[k] == iraw[k + 1]);
            let ghost r0 = it.remaining();
            assert(r0 == rems[j as int]);
            let ghost cbefore = choices_next@;
            let ghost cdv = choices_next.deep_view();
            match it.next() {
                Some(c) => {
                    choices_next.push(c);
                    if !it.delta_iter.is_done() {
                        all_done = false;
                    }
                    proof {
                        assert(choices_next.deep_view() =~= cdv + seq![r0[0]]) by {
                            assert forall|k: int| 0 <= k < cbefore.len() implies choices_next@[k]
                                == cbefore[k] by {}
                        }
                    }
                },
                None => {
                    assert(choices_next.deep_view() =~= cdv);
                },
            }
            let ghost nbefore = new_its@;
            new_its.push(it);
            proof {
                let t = rems.take(j + 1);
                assert(t.drop_last() =~= rems.take(j as int));
                assert(t.last() == r0);
                assert(remainings(new_its@) =~= tails(rems.take(j + 1))) by {
                    assert forall|k: int| 0 <= k < new_its@.len() implies #[trigger] remainings(
                        new_its@,
                    )[k] == tails(rems.take(j + 1))[k] by {
                        if k < j {
                            assert(new_its@[k] == nbefore[k]);
                            assert(remainings(nbefore)[k] == tails(rems.take(j as int))[k]);
                        }
                    }
                }
                assert(it.delta_iter.remaining().len() == 0 <==> it.remaining().len() == 0);
            }
            j = new_its.len();
        }
        proof {
            assert(rems.take(j as int) =~= rems);
            lemma_chunk_zero_empty(rems);
            lemma_chunk_choices_tails(rems, 0);
            lemma_max_len_tails(rems);
            lemma_max_len_bound(rems);
        }
        self.choices = new_its;
        if choices_next.len() == 0 {
            self.done = true;
            return None;
        }
        self.done = all_done;
        let chunk = CompletionStream {
            choices: choices_next,
            object: self.object.clone(),
            id: self.id.clone(),
            model: self.model.clone(),
            created: self.created,
            usage: self.usage,
        };
        proof {
            let old_rem = stream_chunks(rems, self.object@, self.id@, self.model@, self.created, self.usage);
            assert(chunk.deep_view() == old_rem[0]);
            if all_done {
                assert(max_len(rems) <= 1);
                assert(old_rem.drop_first() =~= Seq::<CompletionStreamModel>::empty());
            } else {
                let new_rem = stream_chunks(tails(rems), self.object@, self.id@, self.model@, self.created, self.usage);
                assert forall|t: int| 0 <= t < new_rem.len() implies #[trigger] new_rem[t] == old_rem.drop_first()[t] by {
                    lemma_chunk_choices_tails(rems, t);
                }
                assert(new_rem =~= old_rem.drop_first());
            }
        }
        Some(chunk)
    }
}

/// The parts of each choice of a chunk.
pub open spec fn choices_parts(cs: Seq<ChoiceStreamModel>) -> Seq<Seq<ChoiceStreamModel>> {
    cs.map_values(|c: ChoiceStreamModel| choice_parts(
        c.index,
        delta_parts(c.delta.role, c.delta.content, c.delta.tool_calls),
        c.finish_reason,
    ))
}

/// The chunks a completion chunk is replayed in.
pub open spec fn replayed_chunks(c: CompletionStreamModel) -> Seq<CompletionStreamModel> {
    stream_chunks(choices_parts(c.choices), c.object, c.id, c.model, c.created, c.usage)
}

impl CompletionStream {
    /// An iterator over the chunks of the replayed completion.
    pub fn into_iter(self) -> (r: CompletionStreamIterator)
        ensures
            r.wf(),
            r.remaining() == replayed_chunks(self.deep_view()),
    {
        let CompletionStream { choices, object, id, model, created, usage } = self;
        let ghost all = choices.deep_view();
        let mut choices = choices;
        let mut its: Vec<ChoiceStreamIterator> = Vec::new();
        while choices.len() > 0
            invariant
                its@.len() + choices@.len() == all.len(),
                choices.deep_view() == all.skip(its@.len() as int),
                forall|k: int| 0 <= k < its@.len() ==> (#[trigger] its@[k]).wf(),
                remainings(its@) == choices_parts(all).take(its@.len() as int),
            decreases choices.len(),
        {
            let ghost n: int = its@.len() as int;
            let ghost craw = choices@;
            let ghost cdv = choices.deep_view();
            let c = choices.remove(0);
            proof {
                assert(cdv[0] == craw[0].deep_view());
                assert(cdv[0] == all.skip(n)[0]);
                assert(choices.deep_view() =~= all.skip(n + 1)) by {
                    assert forall|k: int| 0 <= k < choices@.len() implies #[trigger] choices.deep_view()[k]
                        == all.skip(n + 1)[k] by {
                        assert(choices@[k] == craw[k + 1]);
                        assert(cdv[k + 1] == craw[k + 1].deep_view());
                        assert(cdv[k + 1] == all.skip(n)[k + 1]);
                    }
                }
            }
            let ghost ibefore = its@;
            let it = c.into_iter();
            its.push(it);
            proof {
                assert(remainings(its@) =~= choices_parts(all).take(n + 1)) by {
                    assert forall|k: int| 0 <= k < its@.len() implies #[trigger] remainings(its@)[k]
                        == choices_parts(all).take(n + 1)[k] by {
                        if k < n {
                            assert(its@[k] == ibefore[k]);
                            assert(remainings(ibefore)[k] == choices_parts(all).take(n)[k]);
                        }
                    }
                }
            }
        }
        assert(choices_parts(all).take(all.len() as int) =~= choices_parts(all));
        CompletionStreamIterator { choices: its, object, id, model, created, usage, done: false }
    }

    /// All chunks of the replayed completion (see [`replayed_chunks`]).
    pub fn into_chunks(self) -> (r: Vec<CompletionStream>)
        ensures
            r.deep_view() == replayed_chunks(self.deep_view()),
    {
        let ghost all = replayed_chunks(self.deep_view());
        let mut it = self.into_iter();
        let mut out: Vec<CompletionStream> = Vec::new();
        loop
            invariant
                it.wf(),
                all == replayed_chunks(self.deep_view()),
                out.deep_view() + it.remaining() == all,
            decreases it.remaining().len(),
        {
            let ghost rem = it.remaining();
            let ghost before = out@;
            let ghost bdv = out.deep_view();
            match it.next() {
                Some(c) => {
                    out.push(c);
                    proof {
                        assert(out.deep_view() =~= bdv.push(rem[0])) by {
                            assert forall|k: int| 0 <= k < before.len() implies out@[k] == before[k] by {}
                        }
                        assert(out.deep_view() + it.remaining() =~= bdv + rem);
                    }
                },
                None => {
                    assert(rem.len() == 0);
                    assert(out.deep_view() =~= all);
                    return out;
                },
            }
        }
    }
}

// ---------------------------------------------------------------------------
// From a completion
// ---------------------------------------------------------------------------

/// The delta that carries a whole message: its role (`function` for a tool
/// message), its displayed content, its tool calls.
pub open spec fn message_delta(m: MessageModel) -> DeltaModel {
    match m {
        MessageModel::User { content } => DeltaModel {
            role: Some("user"@),
            content: Some(display_text(content)),
            tool_calls: None,
        },
        MessageModel::Assistant { content, tool_calls } => DeltaModel {
            role: Some("assistant"@),
            content: match content {
                Some(c) => Some(display_text(c)),
                None => None,
            },
            tool_calls: tool_calls,
        },
        MessageModel::System { content } => DeltaModel {
            role: Some("system"@),
            content: Some(display_text(content)),
            tool_calls: None,
        },
        MessageModel::Tool { content } => DeltaModel {
            role: Some("function"@),
            content: Some(display_text(content)),
            tool_calls: None,
        },
    }
}

impl Delta {
    /// The delta that carries a whole message (see [`message_delta`]).
    pub fn from_message(m: Message) -> (r: Delta)
        ensures
            r.deep_view() == message_delta(m.deep_view()),
    {
        match m {
            Message::User { content } => Delta {
                role: Some(owned("user")),
                content: Some(content.to_text()),
                tool_calls: None,
            },
            Message::Assistant { content, tool_calls } => Delta {
                role: Some(owned("assistant")),
                content: match content {
                    Some(c) => Some(c.to_text()),
                    None => None,
                },
                tool_calls,
            },
            Message::System { content } => Delta {
                role: Some(owned("system")),
                content: Some(content.to_text()),
                tool_calls: None,
            },
            Message::Tool { content } => Delta {
                role: Some(owned("function")),
                content: Some(content.to_text()),
                tool_calls: None,
            },
        }
    }
}

/// The stream choice for a completion choice.
pub open spec fn choice_stream_of(c: ChoiceModel) -> ChoiceStreamModel {
    ChoiceStreamModel {
        index: c.index,
        delta: message_delta(c.message),
        finish_reason: Some(c.finish_reason),
    }
}

impl ChoiceStream {
    /// The stream choice for a completion choice: its message as a delta and
    /// its finish reason.
    pub fn from_choice(c: Choice) -> (r: ChoiceStream)
        ensures
            r.deep_view() == choice_stream_of(c.deep_view()),
    {
        let Choice { message, index, finish_reason } = c;
        ChoiceStream { index, delta: Delta::from_message(message), finish_reason: Some(finish_reason) }
    }
}

impl CompletionStream {
    /// The stream chunk for a whole completion.
    pub fn from_completion(c: Completion) -> (r: CompletionStream)
        ensures
            r.deep_view() == (CompletionStreamModel {
                choices: c.choices.deep_view().map_values(|x: ChoiceModel| choice_stream_of(x)),
                object: c.object@,
                id: c.id@,
                model: c.model@,
                created: c.created,
                usage: c.usage,
            }),
    {
        let Completion { choices, object, id, model, created, usage } = c;
        let ghost all = choices.deep_view();
        let mut choices = choices;
        let mut out: Vec<ChoiceStream> = Vec::new();
        while choices.len() > 0
            invariant
                out@.len() + choices@.len() == all.len(),
                choices.deep_view() == all.skip(out@.len() as int),
                out.deep_view() == all.take(out@.len() as int).map_values(
                    |x: ChoiceModel| choice_stream_of(x),
                ),
            decreases choices.len(),
        {
            let ghost n: int = out@.len() as int;
            let ghost craw = choices@;
            let ghost cdv = choices.deep_view();
            let ch = choices.remove(0);
            proof {
                assert(cdv[0] == craw[0].deep_view());
                assert(cdv[0] == all.skip(n)[0]);
                assert(choices.deep_view() =~= all.skip(n + 1)) by {
                    assert forall|k: int| 0 <= k < choices@.len() implies #[trigger] choices.deep_view()[k]
                        == all.skip(n + 1)[k] by {
                        assert(choices@[k] == craw[k + 1]);
                        assert(cdv[k + 1] == craw[k + 1].deep_view());
                        assert(cdv[k + 1] == all.skip(n)[k + 1]);
                    }
                }
            }
            let ghost before = out@;
            let ghost bdv = out.deep_view();
            let cs = ChoiceStream::from_choice(ch);
            out.push(cs);
            proof {
                assert(out.deep_view() =~= all.take(n + 1).map_values(|x: ChoiceModel| choice_stream_of(x))) by {
                    assert forall|k: int| 0 <= k < out@.len() implies #[trigger] out.deep_view()[k]
                        == all.take(n + 1).map_values(|x: ChoiceModel| choice_stream_of(x))[k] by {
                        if k < n {
                            assert(out@[k] == before[k]);
                            assert(bdv[k] == before[k].deep_view());
                        } else {
                            assert(out@[k] == cs);
                        }
                    }
                }
            }
        }
        assert(all.take(all.len() as int) =~= all);
        CompletionStream { choices: out, object, id, model, created, usage }
    }
}

// ---------------------------------------------------------------------------
// From an answer of the chat endpoint
// ---------------------------------------------------------------------------

/// The delta that carries an answer message: an assistant's tool calls
/// where it made any, else its displayed content; no role; nothing for
/// other messages.
pub open spec fn answer_delta(m: MessageModel) -> DeltaModel {
    match m {
        MessageModel::Assistant { content, tool_calls } => match tool_calls {
            Some(tc) => DeltaModel { role: None, content: None, tool_calls: Some(tc) },
            None => DeltaModel {
                role: None,
                content: match content {
                    Some(c) => Some(display_text(c)),
                    None => None,
                },
                tool_calls: None,
            },
        },
        _ => DeltaModel { role: None, content: None, tool_calls: None },
    }
}

/// The stream choice for a choice of an answer.
pub open spec fn answer_choice(c: ChoiceModel) -> ChoiceStreamModel {
    ChoiceStreamModel { index: c.index, delta: answer_delta(c.message), finish_reason: Some(c.finish_reason) }
}

impl Delta {
    /// The delta that carries an answer message (see [`answer_delta`]).
    pub fn from_answer_message(m: Message) -> (r: Delta)
        ensures
            r.deep_view() == answer_delta(m.deep_view()),
    {
        match m {
            Message::Assistant { content, tool_calls } => match tool_calls {
                Some(tc) => Delta { role: None, content: None, tool_calls: Some(tc) },
                None => Delta {
                    role: None,
                    content: match content {
                        Some(c) => Some(c.to_text()),
                        None => None,
                    },
                    tool_calls: None,
                },
            },
            _ => Delta { role: None, content: None, tool_calls: None },
        }
    }
}

impl ChoiceStream {
    /// The stream choice for a choice of an answer (see [`answer_choice`]).
    pub fn from_answer_choice(c: Choice) -> (r: ChoiceStream)
        ensures
            r.deep_view() == answer_choice(c.deep_view()),
    {
        let Choice { message, index, finish_reason } = c;
        ChoiceStream { index, delta: Delta::from_answer_message(message), finish_reason: Some(finish_reason) }
    }
}

impl CompletionStream {
    /// The stream chunk that carries a whole answer of the chat endpoint:
    /// its choices as [`answer_choice`] turns them, the object
    /// `chat.completion.chunk`, its id, model, time and usage.
    pub fn from_answer(c: Completion) -> (r: CompletionStream)
        ensures
            r.deep_view() == (CompletionStreamModel {
                choices: c.choices.deep_view().map_values(|x: ChoiceModel| answer_choice(x)),
                object: "chat.completion.chunk"@,
                id: c.id@,
                model: c.model@,
                created: c.created,
                usage: c.usage,
            }),
    {
        let Completion { choices, object: _, id, model, created, usage } = c;
        let ghost all = choices.deep_view();
        let mut choices = choices;
        let mut out: Vec<ChoiceStream> = Vec::new();
        while choices.len() > 0
            invariant
                out@.len() + choices@.len() == all.len(),
                choices.deep_view() == all.skip(out@.len() as int),
                out.deep_view() == all.take(out@.len() as int).map_values(|x: ChoiceModel| answer_choice(x)),
            decreases choices.len(),
        {
            let ghost n: int = out@.len() as int;
            let ghost craw = choices@;
            let ghost cdv = choices.deep_view();
            let ch = choices.remove(0);
            proof {
                assert(cdv[0] == craw[0].deep_view());
                assert(cdv[0] == all.skip(n)[0]);
                assert(choices.deep_view() =~= all.skip(n + 1)) by {
                    assert forall|k: int| 0 <= k < choices@.len() implies #[trigger] choices.deep_view()[k]
                        == all.skip(n + 1)[k] by {
                        assert(choices@[k] == craw[k + 1]);
                        assert(cdv[k + 1] == craw[k + 1].deep_view());
                        assert(cdv[k + 1] == all.skip(n)[k + 1]);
                    }
                }
            }
            let ghost before = out@;
            let ghost bdv = out.deep_view();
            let cs = ChoiceStream::from_answer_choice(ch);
            out.push(cs);
            proof {
                assert(out.deep_view() =~= all.take(n + 1).map_values(|x: ChoiceModel| answer_choice(x))) by {
                    assert forall|k: int| 0 <= k < out@.len() implies #[trigger] out.deep_view()[k]
                        == all.take(n + 1).map_values(|x: ChoiceModel| answer_choice(x))[k] by {
                        if k < n {
                            assert(out@[k] == before[k]);
                            assert(bdv[k] == before[k].deep_view());
                        } else {
                            assert(out@[k] == cs);
                        }
                    }
                }
            }
        }
        assert(all.take(all.len() as int) =~= all);
        proof {
            reveal_strlit("chat.completion.chunk");
        }
        CompletionStream { choices: out, object: owned("chat.completion.chunk"), id, model, created, usage }
    }
}

// ---------------------------------------------------------------------------
// Laws
// ---------------------------------------------------------------------------

/// What a client that applies the deltas in order has: each field as the
/// last delta that carried it set it.
pub open spec fn merge_deltas(parts: Seq<DeltaModel>) -> DeltaModel
    decreases parts.len(),
{
    if parts.len() == 0 {
        DeltaModel { role: None, content: None, tool_calls: None }
    } else {
        let m = merge_deltas(parts.drop_last());
        let d = parts.last();
        DeltaModel {
            role: if d.role is Some { d.role } else { m.role },
            content: if d.content is Some { d.content } else { m.content },
            tool_calls: if d.tool_calls is Some { d.tool_calls } else { m.tool_calls },
        }
    }
}

/// A delta carries exactly one of its fields.
pub open spec fn carries_one_field(d: DeltaModel) -> bool {
    (if d.role is Some { 1int } else { 0 }) + (if d.content is Some { 1int } else { 0 }) + (
    if d.tool_calls is Some { 1int } else { 0 }) == 1
}

proof fn lemma_merge_push(parts: Seq<DeltaModel>, d: DeltaModel)
    ensures
        merge_deltas(parts.push(d)) == (DeltaModel {
            role: if d.role is Some { d.role } else { merge_deltas(parts).role },
            content: if d.content is Some { d.content } else { merge_deltas(parts).content },
            tool_calls: if d.tool_calls is Some { d.tool_calls } else { merge_deltas(parts).tool_calls },
        }),
{
    assert(parts.push(d).drop_last() =~= parts);
}

/// Streaming a delta in parts loses nothing: each part carries one field,
/// and applying the parts in order gives the delta back.
pub proof fn law_delta_parts_recombine(
    role: Option<Seq<char>>,
    content: Option<Seq<char>>,
    tool_calls: Option<Seq<ToolCallModel>>,
)
    ensures
        forall|i: int|
            0 <= i < delta_parts(role, content, tool_calls).len() ==> carries_one_field(
                #[trigger] delta_parts(role, content, tool_calls)[i],
            ),
        merge_deltas(delta_parts(role, content, tool_calls)) == (DeltaModel {
            role,
            content,
            tool_calls,
        }),
{
    let r = DeltaModel { role: role, content: None, tool_calls: None };
    let c = DeltaModel { role: None, content: content, tool_calls: None };
    let t = DeltaModel { role: None, content: None, tool_calls: tool_calls };
    let p0: Seq<DeltaModel> = seq![];
    let p1 = if role is Some { p0.push(r) } else { p0 };
    let p2 = if content is Some { p1.push(c) } else { p1 };
    let p3 = if tool_calls is Some { p2.push(t) } else { p2 };
    assert(delta_parts(role, content, tool_calls) =~= p3);
    assert(merge_deltas(p0) == DeltaModel { role: None, content: None, tool_calls: None });
    if role is Some {
        lemma_merge_push(p0, r);
    }
    if content is Some {
        lemma_merge_push(p1, c);
    }
    if tool_calls is Some {
        lemma_merge_push(p2, t);
    }
}

/// Replaying a choice loses nothing: applying the deltas of its parts in
/// order gives its delta back, and the last part carries its finish reason.
/// (A choice whose delta carries no field has no parts at all.)
pub proof fn law_choice_replay_recombines(c: ChoiceStreamModel)
    requires
        c.delta.role is Some || c.delta.content is Some || c.delta.tool_calls is Some,
    ensures
        merge_deltas(
            choice_parts(
                c.index,
                delta_parts(c.delta.role, c.delta.content, c.delta.tool_calls),
                c.finish_reason,
            ).map_values(|x: ChoiceStreamModel| x.delta),
        ) == c.delta,
        choice_parts(
            c.index,
            delta_parts(c.delta.role, c.delta.content, c.delta.tool_calls),
            c.finish_reason,
        ).last().finish_reason == c.finish_reason,
{
    let parts = delta_parts(c.delta.role, c.delta.content, c.delta.tool_calls);
    let cp = choice_parts(c.index, parts, c.finish_reason);
    assert(cp.map_values(|x: ChoiceStreamModel| x.delta) =~= parts);
    law_delta_parts_recombine(c.delta.role, c.delta.content, c.delta.tool_calls);
    assert(parts.len() > 0);
}


/// Streaming an answer keeps what its assistant message says: the tool calls
/// it made travel in the chunk (and merging its delta gives them back), or,
/// without tool calls, its displayed content; the role is left out, and the
/// choice's index and finish reason come along.
pub proof fn law_answer_chunk_keeps_message(
    c: ChoiceModel,
    content: Option<ContentModel>,
    tool_calls: Option<Seq<ToolCallModel>>,
)
    requires
        c.message == (MessageModel::Assistant { content, tool_calls }),
    ensures
        answer_choice(c).index == c.index,
        answer_choice(c).finish_reason == Some(c.finish_reason),
        answer_choice(c).delta.role is None,
        tool_calls matches Some(tc) ==> answer_choice(c).delta.tool_calls == Some(tc)
            && answer_choice(c).delta.content is None
            && merge_deltas(seq![answer_choice(c).delta]).tool_calls == Some(tc),
        tool_calls is None ==> answer_choice(c).delta.tool_calls is None
            && answer_choice(c).delta.content == match content {
                Some(x) => Some(display_text(x)),
                None => None::<Seq<char>>,
            },
{
    let d = answer_choice(c).delta;
    assert(seq![d].drop_last() =~= Seq::<DeltaModel>::empty());
}

} // verus!
