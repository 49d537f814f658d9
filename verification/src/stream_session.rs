//! The decisions of a streamed chat response.
//!
//! While the upstream answer is pending, the client gets the opening chunk and
//! then a heartbeat at every tick of a timer; when the answer arrives it gets
//! the answer (or the error) and the end marker. The caller owns the timer and
//! the upstream request: it feeds each tick and the reply to
//! [`StreamSession::step`] and sends the chunks that come back.

use vstd::prelude::*;
use crate::completion_stream::CompletionStream;
use crate::error::{ProxyError, error_code_text, error_message_text, error_type_text};
use crate::streaming::{HeartbeatChar, SseChunk, heartbeat_chunk_model, initial_chunk_model};
use crate::text::owned;

verus! {

broadcast use vstd::string::group_string_axioms;

/// How far a streamed response has come.
#[derive(Debug, Clone, Copy, PartialEq, Eq, Structural)]
pub enum SessionPhase {
    /// Nothing has been sent yet.
    Opening,
    /// The opening chunk went out; the upstream answer is pending.
    Waiting,
    /// The answer and the end marker went out.
    Closed,
}

/// What happened while a response streams.
#[derive(Debug)]
pub enum SessionEvent {
    /// The heartbeat timer fired.
    Tick,
    /// The upstream answer arrived, already converted to a stream chunk, or
    /// failed.
    Reply(Result<CompletionStream, ProxyError>),
}

/// The kind of a chunk sent to the client.
#[derive(Debug, Clone, Copy, PartialEq, Eq, Structural)]
pub enum ChunkKind {
    /// The chunk that announces the assistant role.
    Opening,
    /// A heartbeat while the answer is pending.
    Heartbeat,
    /// The upstream answer.
    Answer,
    /// The error that replaced the answer.
    Failure,
    /// The end marker.
    Done,
}

/// The state of one streamed response.
#[derive(Debug)]
pub struct StreamSession {
    pub phase: SessionPhase,
    pub model: String,
    pub id: String,
    pub created: u64,
    pub heartbeat: HeartbeatChar,
}

/// The next phase and the kinds of the chunks sent, for a tick (`tick`) or a
/// reply that succeeded (`ok`) or failed.
pub open spec fn step_plan(phase: SessionPhase, tick: bool, ok: bool) -> (SessionPhase, Seq<ChunkKind>) {
    let answer = if ok {
        ChunkKind::Answer
    } else {
        ChunkKind::Failure
    };
    match phase {
        SessionPhase::Opening => if tick {
            (SessionPhase::Waiting, seq![ChunkKind::Opening, ChunkKind::Heartbeat])
        } else {
            (SessionPhase::Closed, seq![ChunkKind::Opening, answer, ChunkKind::Done])
        },
        SessionPhase::Waiting => if tick {
            (SessionPhase::Waiting, seq![ChunkKind::Heartbeat])
        } else {
            (SessionPhase::Closed, seq![answer, ChunkKind::Done])
        },
        SessionPhase::Closed => (SessionPhase::Closed, seq![]),
    }
}

/// The event is a timer tick.
pub open spec fn is_tick(e: SessionEvent) -> bool {
    e is Tick
}

/// The event is an answer that arrived.
pub open spec fn is_answer(e: SessionEvent) -> bool {
    e matches SessionEvent::Reply(Ok(_))
}

/// `c` is the chunk of kind `k` that the session `s` sends for event `e`.
pub open spec fn chunk_of_kind(s: StreamSession, e: SessionEvent, k: ChunkKind, c: SseChunk) -> bool {
    match k {
        ChunkKind::Opening => c matches SseChunk::Data(d) && d.deep_view() == initial_chunk_model(
            s.model@,
            s.id@,
            s.created,
        ),
        ChunkKind::Heartbeat => c matches SseChunk::Data(d) && d.deep_view() == heartbeat_chunk_model(
            s.heartbeat,
        ),
        ChunkKind::Answer => e matches SessionEvent::Reply(Ok(answer)) && c == SseChunk::Data(answer),
        ChunkKind::Failure => e matches SessionEvent::Reply(Err(err)) && c matches SseChunk::Error(
            ch,
        ) && ch.message@ == error_message_text(err) && ch.error_type@ == error_type_text(err) && (
        ch.code matches Some(code) && code@ == error_code_text(err)),
        ChunkKind::Done => c matches SseChunk::Done(m) && m@ == "[DONE]"@,
    }
}

impl StreamSession {
    /// A session for a response from `model`, identified by `id` and created
    /// at `created`, with the given heartbeat character.
    pub fn new(model: &str, id: &str, created: u64, heartbeat: HeartbeatChar) -> (r: StreamSession)
        ensures
            r.phase == SessionPhase::Opening,
            r.model@ == model@,
            r.id@ == id@,
            r.created == created,
            r.heartbeat == heartbeat,
    {
        StreamSession { phase: SessionPhase::Opening, model: owned(model), id: owned(id), created, heartbeat }
    }

    fn opening_chunk(&self) -> (r: SseChunk)
        ensures
            r matches SseChunk::Data(d) && d.deep_view() == initial_chunk_model(
                self.model@,
                self.id@,
                self.created,
            ),
    {
        SseChunk::Data(CompletionStream::initial_chunk(self.model.as_str(), self.id.as_str(), self.created))
    }

    fn heartbeat_chunk(&self) -> (r: SseChunk)
        ensures
            r matches SseChunk::Data(d) && d.deep_view() == heartbeat_chunk_model(self.heartbeat),
    {
        SseChunk::Data(CompletionStream::heartbeat_chunk(&self.heartbeat))
    }

    /// Handles one event: the chunks to send, in order, as [`step_plan`]
    /// lays them out; the session moves to the plan's phase.
    pub fn step(&mut self, event: SessionEvent) -> (r: Vec<SseChunk>)
        ensures
            final(self).phase == step_plan(old(self).phase, is_tick(event), is_answer(event)).0,
            final(self).model == old(self).model,
            final(self).id == old(self).id,
            final(self).created == old(self).created,
            final(self).heartbeat == old(self).heartbeat,
            r@.len() == step_plan(old(self).phase, is_tick(event), is_answer(event)).1.len(),
            forall|i: int|
                0 <= i < r@.len() ==> chunk_of_kind(
                    *old(self),
                    event,
                    step_plan(old(self).phase, is_tick(event), is_answer(event)).1[i],
                    #[trigger] r@[i],
                ),
    {
        let ghost plan = step_plan(self.phase, is_tick(event), is_answer(event));
        let ghost ev = event;
        let mut out: Vec<SseChunk> = Vec::new();
        if self.phase == SessionPhase::Closed {
            assert(out@ =~= Seq::<SseChunk>::empty());
            return out;
        }
        if self.phase == SessionPhase::Opening {
            out.push(self.opening_chunk());
        }
        match event {
            SessionEvent::Tick => {
                out.push(self.heartbeat_chunk());
                self.phase = SessionPhase::Waiting;
            },
            SessionEvent::Reply(result) => {
                match result {
                    Ok(answer) => out.push(SseChunk::Data(answer)),
                    Err(err) => out.push(SseChunk::from_proxy_error(&err)),
                }
                proof {
                    reveal_strlit("[DONE]");
                }
                out.push(SseChunk::Done(owned("[DONE]")));
                self.phase = SessionPhase::Closed;
            },
        }
        proof {
            assert(out@.len() == plan.1.len());
            assert forall|i: int| 0 <= i < out@.len() implies chunk_of_kind(
                *old(self),
                ev,
                plan.1[i],
                #[trigger] out@[i],
            ) by {}
        }
        out
    }
}

// ---------------------------------------------------------------------------
// Laws
// ---------------------------------------------------------------------------

/// The phase reached and the chunk kinds sent when the events, each a tick
/// (`true`) or a reply (its success), happen from `phase` on.
pub open spec fn run_plan(phase: SessionPhase, events: Seq<(bool, bool)>) -> (SessionPhase, Seq<ChunkKind>)
    decreases events.len(),
{
    if events.len() == 0 {
        (phase, Seq::empty())
    } else {
        let before = run_plan(phase, events.drop_last());
        let e = events.last();
        let next = step_plan(before.0, e.0, e.1);
        (next.0, before.1 + next.1)
    }
}

/// A stream whose first chunk, and only that one, is the opening chunk, and
/// whose end marker, if any, is its last chunk and its only one.
pub open spec fn well_framed(kinds: Seq<ChunkKind>) -> bool {
    &&& kinds.len() > 0 ==> kinds[0] == ChunkKind::Opening
    &&& forall|i: int| 0 < i < kinds.len() ==> kinds[i] != ChunkKind::Opening
    &&& forall|i: int| 0 <= i < kinds.len() - 1 ==> kinds[i] != ChunkKind::Done
}

/// How the phase reflects what was sent so far.
pub open spec fn phase_matches(phase: SessionPhase, kinds: Seq<ChunkKind>) -> bool {
    match phase {
        SessionPhase::Opening => kinds.len() == 0,
        SessionPhase::Waiting => kinds.len() > 0 && kinds.last() != ChunkKind::Done,
        SessionPhase::Closed => kinds.len() > 0 && kinds.last() == ChunkKind::Done,
    }
}

proof fn lemma_run_framed(events: Seq<(bool, bool)>)
    ensures
        well_framed(run_plan(SessionPhase::Opening, events).1),
        phase_matches(run_plan(SessionPhase::Opening, events).0, run_plan(SessionPhase::Opening, events).1),
    decreases events.len(),
{
    if events.len() > 0 {
        lemma_run_framed(events.drop_last());
        let before = run_plan(SessionPhase::Opening, events.drop_last());
        let e = events.last();
        let next = step_plan(before.0, e.0, e.1);
        let all = before.1 + next.1;
        assert(all == run_plan(SessionPhase::Opening, events).1);
        assert forall|i: int| 0 < i < all.len() implies all[i] != ChunkKind::Opening by {
            if i >= before.1.len() {
                assert(all[i] == next.1[i - before.1.len()]);
            }
        }
        assert forall|i: int| 0 <= i < all.len() - 1 implies all[i] != ChunkKind::Done by {
            if i < before.1.len() - 1 {
                assert(all[i] == before.1[i]);
            } else if i == before.1.len() - 1 {
                assert(all[i] == before.1.last());
            } else {
                assert(all[i] == next.1[i - before.1.len()]);
            }
        }
    }
}

/// Whatever ticks and reply happen, the client sees the opening chunk first
/// and only first, and the end marker, once sent, last and only once; the
/// stream has ended exactly when the end marker was sent.
pub proof fn law_stream_is_well_framed(events: Seq<(bool, bool)>)
    ensures
        well_framed(run_plan(SessionPhase::Opening, events).1),
        (run_plan(SessionPhase::Opening, events).0 == SessionPhase::Closed) <==> (run_plan(
            SessionPhase::Opening,
            events,
        ).1.len() > 0 && run_plan(SessionPhase::Opening, events).1.last() == ChunkKind::Done),
{
    lemma_run_framed(events);
}

/// Once a reply has been handled, nothing more is sent.
pub proof fn law_nothing_after_reply(phase: SessionPhase, tick: bool, ok: bool)
    ensures
        step_plan(step_plan(phase, false, ok).0, tick, ok).1.len() == 0,
{
}

} // verus!
