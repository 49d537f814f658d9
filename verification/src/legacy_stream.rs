//! How the legacy server replays a completion as a stream: each choice's
//! content is cut at spaces into pieces (each keeping its space), the role
//! and the tool calls go with the first piece, every piece repeats the
//! choice's finish reason, and the stream ends when the shortest choice
//! runs out.

use vstd::prelude::*;
use crate::completion::{ToolCall, ToolCallModel, Usage};
use crate::completion_stream::{
    ChoiceStream, ChoiceStreamModel, CompletionStream, CompletionStreamModel, Delta, DeltaModel,
};
use crate::content::lemma_concat_all_append;
use crate::text::{chars_of, concat_all, owned, string_of_range};

verus! {

broadcast use vstd::string::group_string_axioms;

// ---------------------------------------------------------------------------
// Cutting text at spaces
// ---------------------------------------------------------------------------

/// Where the first piece of `t` ends: just after its first space, or at its
/// end.
pub open spec fn space_piece_end(t: Seq<char>) -> nat
    decreases t.len(),
{
    if t.len() == 0 {
        0
    } else if t[0] == ' ' {
        1
    } else {
        1 + space_piece_end(t.drop_first())
    }
}

/// The first piece of non-empty text is not empty and fits in it.
pub proof fn lemma_space_piece_end_bounds(t: Seq<char>)
    ensures
        t.len() > 0 ==> 1 <= space_piece_end(t) <= t.len(),
    decreases t.len(),
{
    if t.len() > 0 && t[0] != ' ' {
        lemma_space_piece_end_bounds(t.drop_first());
        if t.drop_first().len() == 0 {
            assert(space_piece_end(t.drop_first()) == 0);
        }
    }
}

/// The pieces `str::split_inclusive(' ')` cuts text into: each ends with a
/// space, except perhaps the last; none is empty; there are none for empty
/// text.
pub open spec fn space_pieces(t: Seq<char>) -> Seq<Seq<char>>
    decreases t.len(),
{
    if t.len() == 0 {
        Seq::empty()
    } else {
        proof {
            lemma_space_piece_end_bounds(t);
        }
        seq![t.take(space_piece_end(t) as int)] + space_pieces(t.skip(space_piece_end(t) as int))
    }
}

proof fn lemma_space_piece_end_at(t: Seq<char>, k: int)
    requires
        0 <= k < t.len(),
        forall|j: int| 0 <= j < k ==> t[j] != ' ',
        t[k] == ' ',
    ensures
        space_piece_end(t) == k + 1,
    decreases k,
{
    if k > 0 {
        lemma_space_piece_end_at(t.drop_first(), k - 1);
    }
}

proof fn lemma_space_piece_end_none(t: Seq<char>)
    requires
        forall|j: int| 0 <= j < t.len() ==> t[j] != ' ',
    ensures
        space_piece_end(t) == t.len(),
    decreases t.len(),
{
    if t.len() > 0 {
        lemma_space_piece_end_none(t.drop_first());
    }
}

/// Cuts text at spaces (see [`space_pieces`]).
pub fn split_at_spaces(text: &str) -> (r: Vec<String>)
    ensures
        r.deep_view() == space_pieces(text@),
{
    let v = chars_of(text);
    let mut pieces: Vec<String> = Vec::new();
    let mut start: usize = 0;
    assert(text@.skip(0) =~= text@);
    assert(pieces.deep_view() + space_pieces(text@) =~= space_pieces(text@));
    while start < v.len()
        invariant
            start <= v.len(),
            v@ == text@,
            space_pieces(text@) == pieces.deep_view() + space_pieces(text@.skip(start as int)),
        decreases v.len() - start,
    {
        let mut j: usize = start;
        while j < v.len() && v[j] != ' '
            invariant
                start <= j <= v.len(),
                forall|k: int| start <= k < j ==> v@[k] != ' ',
            decreases v.len() - j,
        {
            j += 1;
        }
        let end: usize = if j < v.len() {
            j + 1
        } else {
            j
        };
        let ghost rest = text@.skip(start as int);
        proof {
            if j < v.len() {
                assert forall|k: int| 0 <= k < j - start implies rest[k] != ' ' by {
                    assert(rest[k] == v@[start + k]);
                }
                assert(rest[j - start] == v@[j as int]);
                lemma_space_piece_end_at(rest, j - start);
            } else {
                assert forall|k: int| 0 <= k < rest.len() implies rest[k] != ' ' by {
                    assert(rest[k] == v@[start + k]);
                }
                lemma_space_piece_end_none(rest);
            }
            assert(space_piece_end(rest) == end - start);
            assert(rest.take(end - start) =~= v@.subrange(start as int, end as int));
            assert(rest.skip(end - start) =~= text@.skip(end as int));
        }
        let piece = string_of_range(&v, start, end);
        let ghost before = pieces.deep_view();
        pieces.push(piece);
        proof {
            assert(pieces.deep_view() =~= before.push(piece@));
            assert(space_pieces(rest) == seq![rest.take(end - start)] + space_pieces(rest.skip(end - start)));
            assert(space_pieces(text@) =~= pieces.deep_view() + space_pieces(text@.skip(end as int)));
        }
        start = end;
    }
    assert(text@.skip(start as int) =~= Seq::<char>::empty());
    assert(pieces.deep_view() + Seq::<Seq<char>>::empty() =~= pieces.deep_view());
    pieces
}

// ---------------------------------------------------------------------------
// The replay
// ---------------------------------------------------------------------------

/// The pieces of a choice's content.
pub open spec fn content_pieces(c: ChoiceStreamModel) -> Seq<Seq<char>> {
    match c.delta.content {
        Some(t) => space_pieces(t),
        None => Seq::empty(),
    }
}

/// How many chunks a choice is replayed in: one per content piece, or one
/// for its tool calls alone, or none.
pub open spec fn part_count(c: ChoiceStreamModel) -> nat {
    if content_pieces(c).len() > 0 {
        content_pieces(c).len()
    } else if c.delta.tool_calls is Some {
        1
    } else {
        0
    }
}

/// The `t`-th replayed part of a choice.
pub open spec fn legacy_part(c: ChoiceStreamModel, t: int) -> ChoiceStreamModel {
    ChoiceStreamModel {
        index: c.index,
        delta: DeltaModel {
            role: if t == 0 {
                c.delta.role
            } else {
                None
            },
            content: if t < content_pieces(c).len() {
                Some(content_pieces(c)[t])
            } else {
                None
            },
            tool_calls: if t == 0 {
                c.delta.tool_calls
            } else {
                None
            },
        },
        finish_reason: c.finish_reason,
    }
}

/// The fewest parts of any of the choices (none for no choices).
pub open spec fn fewest_parts(cs: Seq<ChoiceStreamModel>) -> nat
    decreases cs.len(),
{
    if cs.len() == 0 {
        0
    } else if cs.len() == 1 {
        part_count(cs[0])
    } else {
        let m = fewest_parts(cs.drop_last());
        let p = part_count(cs.last());
        if p < m {
            p
        } else {
            m
        }
    }
}

/// The chunks the legacy server streams for a completion chunk.
pub open spec fn legacy_chunks(s: CompletionStreamModel) -> Seq<CompletionStreamModel> {
    Seq::new(
        fewest_parts(s.choices),
        |t: int|
            CompletionStreamModel {
                choices: s.choices.map_values(|c: ChoiceStreamModel| legacy_part(c, t)),
                object: s.object,
                id: s.id,
                model: s.model,
                created: s.created,
                usage: s.usage,
            },
    )
}

/// A copy of an optional string.
fn copy_optional(s: &Option<String>) -> (r: Option<String>)
    ensures
        r.deep_view() == s.deep_view(),
{
    match s {
        Some(t) => Some(owned(t.as_str())),
        None => None,
    }
}

/// The legacy replay of a completion chunk (see [`legacy_chunks`]). Every
/// choice must carry a role, and there must be a choice: the legacy
/// iterator unwraps the role, and without choices it never ends.
pub fn legacy_stream_chunks(stream: CompletionStream) -> (r: Vec<CompletionStream>)
    requires
        stream.choices@.len() > 0,
        forall|i: int| 0 <= i < stream.choices@.len() ==> (#[trigger] stream.choices@[i]).delta.role is Some,
    ensures
        r.deep_view() == legacy_chunks(stream.deep_view()),
{
    let ghost sv = stream.deep_view();
    let ghost all = sv.choices;
    let CompletionStream { choices, object, id, model, created, usage } = stream;
    let k = choices.len();
    let mut choices = choices;
    let mut indices: Vec<u8> = Vec::new();
    let mut roles: Vec<String> = Vec::new();
    let mut words: Vec<Vec<String>> = Vec::new();
    let mut tcs: Vec<Option<Vec<ToolCall>>> = Vec::new();
    let mut frs: Vec<Option<String>> = Vec::new();
    let mut counts: Vec<usize> = Vec::new();
    let mut n: usize = 0;
    while n < k
        invariant
            k == all.len(),
            n <= k,
            choices@.len() == k - n,
            choices.deep_view() == all.skip(n as int),
            forall|i: int| 0 <= i < choices@.len() ==> (#[trigger] choices@[i]).delta.role is Some,
            indices@.len() == n,
            roles@.len() == n,
            words@.len() == n,
            tcs@.len() == n,
            frs@.len() == n,
            counts@.len() == n,
            forall|j: int| 0 <= j < n ==> (#[trigger] indices@[j]) == all[j].index,
            forall|j: int| 0 <= j < n ==> Some((#[trigger] roles@[j])@) == all[j].delta.role,
            forall|j: int| 0 <= j < n ==> (#[trigger] words@[j]).deep_view() == content_pieces(all[j]),
            forall|j: int| 0 <= j < n ==> (#[trigger] tcs@[j]).deep_view() == all[j].delta.tool_calls,
            forall|j: int| 0 <= j < n ==> (#[trigger] frs@[j]).deep_view() == all[j].finish_reason,
            forall|j: int| 0 <= j < n ==> (#[trigger] counts@[j]) == part_count(all[j]),
            forall|j: int| 0 <= j < n ==> part_count(all[j]) <= usize::MAX,
        decreases k - n,
    {
        let ghost craw = choices@;
        let ghost cdv = choices.deep_view();
        let ch = choices.remove(0);
        proof {
            assert(cdv[0] == craw[0].deep_view());
            assert(cdv[0] == all[n as int]);
            assert(choices.deep_view() =~= all.skip(n + 1)) by {
                assert forall|q: int| 0 <= q < choices@.len() implies #[trigger] choices.deep_view()[q]
                    == all.skip(n + 1)[q] by {
                    assert(choices@[q] == craw[q + 1]);
                    assert(cdv[q + 1] == craw[q + 1].deep_view());
                }
            }
            assert forall|i: int| 0 <= i < choices@.len() implies (#[trigger] choices@[i]).delta.role is Some by {
                assert(choices@[i] == craw[i + 1]);
            }
        }
        let ChoiceStream { index, delta, finish_reason } = ch;
        let Delta { role, content, tool_calls } = delta;
        let role = role.unwrap();
        let pieces = match &content {
            Some(t) => split_at_spaces(t.as_str()),
            None => Vec::new(),
        };
        assert(pieces.deep_view() =~= content_pieces(all[n as int]));
        let count: usize = if pieces.len() > 0 {
            pieces.len()
        } else if tool_calls.is_some() {
            1
        } else {
            0
        };
        indices.push(index);
        roles.push(role);
        words.push(pieces);
        tcs.push(tool_calls);
        frs.push(finish_reason);
        counts.push(count);
        n += 1;
    }
    let mut m: usize = counts[0];
    let mut i: usize = 1;
    assert(all.take(1).drop_last() =~= Seq::<ChoiceStreamModel>::empty());
    assert(fewest_parts(all.take(1)) == part_count(all[0]));
    while i < k
        invariant
            k == all.len(),
            1 <= i <= k,
            counts@.len() == k,
            forall|j: int| 0 <= j < k ==> (#[trigger] counts@[j]) == part_count(all[j]),
            m == fewest_parts(all.take(i as int)),
        decreases k - i,
    {
        proof {
            assert(all.take(i + 1).drop_last() =~= all.take(i as int));
            assert(all.take(i + 1).last() == all[i as int]);
        }
        if counts[i] < m {
            m = counts[i];
        }
        i += 1;
    }
    assert(all.take(k as int) =~= all);
    let mut out: Vec<CompletionStream> = Vec::new();
    let mut t: usize = 0;
    while t < m
        invariant
            k == all.len(),
            k > 0,
            m == fewest_parts(all),
            t <= m,
            indices@.len() == k,
            roles@.len() == k,
            words@.len() == k,
            frs@.len() == k,
            t == 0 ==> tcs@.len() == k,
            t == 0 ==> forall|j: int| 0 <= j < k ==> (#[trigger] tcs@[j]).deep_view() == all[j].delta.tool_calls,
            forall|j: int| 0 <= j < k ==> (#[trigger] indices@[j]) == all[j].index,
            forall|j: int| 0 <= j < k ==> Some((#[trigger] roles@[j])@) == all[j].delta.role,
            forall|j: int| 0 <= j < k ==> (#[trigger] words@[j]).deep_view() == content_pieces(all[j]),
            forall|j: int| 0 <= j < k ==> (#[trigger] frs@[j]).deep_view() == all[j].finish_reason,
            out@.len() == t,
            forall|q: int| 0 <= q < t ==> (#[trigger] out.deep_view()[q]) == legacy_chunks(sv)[q],
            sv.choices == all,
            sv.object == object@,
            sv.id == id@,
            sv.model == model@,
            sv.created == created,
            sv.usage == usage,
        decreases m - t,
    {
        let mut cs: Vec<ChoiceStream> = Vec::new();
        let mut j: usize = 0;
        while j < k
            invariant
                k == all.len(),
                j <= k,
                indices@.len() == k,
                roles@.len() == k,
                words@.len() == k,
                frs@.len() == k,
                t == 0 ==> tcs@.len() == k - j,
                t == 0 ==> forall|q: int|
                    0 <= q < k - j ==> (#[trigger] tcs@[q]).deep_view() == all[q + j].delta.tool_calls,
                forall|q: int| 0 <= q < k ==> (#[trigger] indices@[q]) == all[q].index,
                forall|q: int| 0 <= q < k ==> Some((#[trigger] roles@[q])@) == all[q].delta.role,
                forall|q: int| 0 <= q < k ==> (#[trigger] words@[q]).deep_view() == content_pieces(all[q]),
                forall|q: int| 0 <= q < k ==> (#[trigger] frs@[q]).deep_view() == all[q].finish_reason,
                cs@.len() == j,
                forall|q: int| 0 <= q < j ==> (#[trigger] cs.deep_view()[q]) == legacy_part(all[q], t as int),
            decreases k - j,
        {
            let role = if t == 0 {
                Some(owned(roles[j].as_str()))
            } else {
                None
            };
            let content = if t < words[j].len() {
                Some(owned(words[j][t].as_str()))
            } else {
                None
            };
            let ghost traw = tcs@;
            let tool_calls = if t == 0 {
                tcs.remove(0)
            } else {
                None
            };
            proof {
                if t == 0 {
                    assert(tool_calls.deep_view() == all[j as int].delta.tool_calls);
                    assert forall|q: int| 0 <= q < k - j - 1 implies (#[trigger] tcs@[q]).deep_view()
                        == all[q + j + 1].delta.tool_calls by {
                        assert(tcs@[q] == traw[q + 1]);
                    }
                }
                assert(words@[j as int].deep_view() == content_pieces(all[j as int]));
                if t < words[j as int]@.len() {
                    assert(words@[j as int].deep_view()[t as int] == words@[j as int]@[t as int]@);
                }
            }
            let c = ChoiceStream {
                index: indices[j],
                delta: Delta { role, content, tool_calls },
                finish_reason: copy_optional(&frs[j]),
            };
            assert(c.deep_view() == legacy_part(all[j as int], t as int));
            let ghost before = cs@;
            let ghost bdv = cs.deep_view();
            let ghost cv = c.deep_view();
            cs.push(c);
            proof {
                assert forall|q: int| 0 <= q < j + 1 implies (#[trigger] cs.deep_view()[q]) == legacy_part(
                    all[q],
                    t as int,
                ) by {
                    if q < j {
                        assert(cs@[q] == before[q]);
                        assert(bdv[q] == before[q].deep_view());
                    } else {
                        assert(cs@[q].deep_view() == cv);
                    }
                }
            }
            j += 1;
        }
        let ghost cs_view = cs.deep_view();
        assert(forall|q: int| 0 <= q < k ==> cs_view[q] == legacy_part(all[q], t as int));
        let chunk = CompletionStream {
            choices: cs,
            object: owned(object.as_str()),
            id: owned(id.as_str()),
            model: owned(model.as_str()),
            created,
            usage,
        };
        proof {
            assert(j == k);
            assert forall|q: int| 0 <= q < k implies #[trigger] chunk.deep_view().choices[q] == all.map_values(
                |c: ChoiceStreamModel| legacy_part(c, t as int),
            )[q] by {
                assert(chunk.deep_view().choices[q] == cs_view[q]);
            }
            assert(chunk.deep_view().choices =~= all.map_values(|c: ChoiceStreamModel| legacy_part(c, t as int)));
            assert(chunk.deep_view() == legacy_chunks(sv)[t as int]);
        }
        let ghost before = out@;
        let ghost odv = out.deep_view();
        let ghost chv = chunk.deep_view();
        out.push(chunk);
        proof {
            assert forall|q: int| 0 <= q < t + 1 implies (#[trigger] out.deep_view()[q]) == legacy_chunks(sv)[q] by {
                if q < t {
                    assert(out@[q] == before[q]);
                    assert(odv[q] == before[q].deep_view());
                } else {
                    assert(out@[q].deep_view() == chv);
                }
            }
        }
        t += 1;
    }
    assert(t == m);
    assert(legacy_chunks(sv).len() == m);
    assert forall|q: int| 0 <= q < m implies #[trigger] out.deep_view()[q] == legacy_chunks(sv)[q] by {}
    assert(out.deep_view() =~= legacy_chunks(sv));
    out
}

// ---------------------------------------------------------------------------
// Laws
// ---------------------------------------------------------------------------

/// Cutting text at spaces loses nothing: the pieces, none of them empty,
/// join back to the text, and every piece but the last ends with a space.
pub proof fn law_space_pieces_rejoin(t: Seq<char>)
    ensures
        concat_all(space_pieces(t)) == t,
        forall|i: int| 0 <= i < space_pieces(t).len() ==> (#[trigger] space_pieces(t)[i]).len() > 0,
        forall|i: int|
            0 <= i < space_pieces(t).len() - 1 ==> (#[trigger] space_pieces(t)[i]).last() == ' ',
    decreases t.len(),
{
    if t.len() > 0 {
        lemma_space_piece_end_bounds(t);
        let e = space_piece_end(t) as int;
        let rest = t.skip(e);
        law_space_pieces_rejoin(rest);
        let head = t.take(e);
        let ps = space_pieces(t);
        assert(ps == seq![head] + space_pieces(rest));
        lemma_concat_all_append(seq![head], space_pieces(rest));
        assert(seq![head].drop_last() =~= Seq::<Seq<char>>::empty());
        assert(concat_all(Seq::<Seq<char>>::empty()) =~= Seq::<char>::empty());
        assert(concat_all(seq![head]) =~= head);
        assert(head + rest =~= t);
        if space_pieces(rest).len() > 0 {
            lemma_piece_ends_with_space(t);
        }
        assert forall|i: int| 0 <= i < ps.len() implies (#[trigger] ps[i]).len() > 0 by {
            if i > 0 {
                assert(ps[i] == space_pieces(rest)[i - 1]);
            }
        }
        assert forall|i: int| 0 <= i < ps.len() - 1 implies (#[trigger] ps[i]).last() == ' ' by {
            if i > 0 {
                assert(ps[i] == space_pieces(rest)[i - 1]);
            }
        }
    }
}

/// Where text goes on after its first piece, that piece ends with a space.
proof fn lemma_piece_ends_with_space(t: Seq<char>)
    requires
        space_piece_end(t) < t.len(),
    ensures
        space_piece_end(t) >= 1,
        t[space_piece_end(t) - 1] == ' ',
    decreases t.len(),
{
    if t[0] != ' ' {
        lemma_piece_ends_with_space(t.drop_first());
    }
}

} // verus!
