//! The log lines written for each incoming request, with the
//! `Authorization` header's value withheld.

use vstd::prelude::*;
use crate::number::{decimal_string, decimal_text};
use crate::text::{chars_of, join_with, lemma_join_with_push, owned, push_str};

verus! {

broadcast use vstd::string::group_string_axioms;

/// ASCII lower-case of a character; other characters stay.
pub open spec fn ascii_lower(c: char) -> char {
    if 'A' <= c && c <= 'Z' {
        ((c as u32) + 32) as char
    } else {
        c
    }
}

/// `a` and `b` are equal ignoring ASCII case.
pub open spec fn eq_ignore_ascii_case(a: Seq<char>, b: Seq<char>) -> bool {
    a.len() == b.len() && forall|i: int| 0 <= i < a.len() ==> ascii_lower(#[trigger] a[i]) == ascii_lower(b[i])
}

fn lower_char(c: char) -> (r: char)
    ensures
        r == ascii_lower(c),
{
    if 'A' <= c && c <= 'Z' {
        ((c as u32 + 32) as u8) as char
    } else {
        c
    }
}

/// Whether a header name is `authorization`, in any ASCII case.
pub fn is_authorization_header(name: &str) -> (r: bool)
    ensures
        r == eq_ignore_ascii_case(name@, "authorization"@),
{
    let a = chars_of(name);
    let b = chars_of("authorization");
    if a.len() != b.len() {
        return false;
    }
    let mut i: usize = 0;
    while i < a.len()
        invariant
            i <= a.len() == b.len(),
            a@ == name@,
            b@ == "authorization"@,
            forall|k: int| 0 <= k < i ==> ascii_lower(#[trigger] a@[k]) == ascii_lower(b@[k]),
        decreases a.len() - i,
    {
        if lower_char(a[i]) != lower_char(b[i]) {
            return false;
        }
        i += 1;
    }
    true
}

/// A header of a request as logged: its name, its value where it is text,
/// and its raw bytes.
#[derive(Debug)]
pub struct HeaderEntry {
    pub name: String,
    pub value: Option<String>,
    pub raw: Vec<u8>,
}

/// Debug text of a byte slice: `[1, 2, 3]`.
pub open spec fn bytes_debug_text(b: Seq<u8>) -> Seq<char> {
    "["@ + join_with(b.map_values(|x: u8| decimal_text(x as nat)), ", "@) + "]"@
}

/// The log line of one header.
pub open spec fn header_line_text(name: Seq<char>, value: Option<Seq<char>>, raw: Seq<u8>) -> Seq<char> {
    match value {
        Some(v) => if eq_ignore_ascii_case(name, "authorization"@) {
            "  "@ + name + ": [REDACTED]"@
        } else {
            "  "@ + name + ": "@ + v
        },
        None => "  "@ + name + ": <non-UTF8 value, bytes: "@ + bytes_debug_text(raw) + ">"@,
    }
}

fn bytes_debug_string(b: &[u8]) -> (r: String)
    ensures
        r@ == bytes_debug_text(b@),
{
    let mut out = owned("[");
    let ghost parts = b@.map_values(|x: u8| decimal_text(x as nat));
    let mut i: usize = 0;
    while i < b.len()
        invariant
            i <= b.len(),
            parts == b@.map_values(|x: u8| decimal_text(x as nat)),
            out@ == "["@ + join_with(parts.take(i as int), ", "@),
        decreases b.len() - i,
    {
        if i > 0 {
            push_str(&mut out, ", ");
        }
        let d = decimal_string(b[i] as u64);
        push_str(&mut out, d.as_str());
        proof {
            assert(parts.take(i + 1) =~= parts.take(i as int).push(parts[i as int]));
            lemma_join_with_push(parts.take(i as int), ", "@, parts[i as int]);
            if i == 0 {
                assert(parts.take(0) =~= Seq::<Seq<char>>::empty());
            }
        }
        i += 1;
    }
    push_str(&mut out, "]");
    assert(parts.take(b.len() as int) =~= parts);
    assert(out@ =~= bytes_debug_text(b@));
    out
}

/// The log line of one header (see [`header_line_text`]).
pub fn header_log_line(name: &str, value: Option<&str>, raw: &[u8]) -> (r: String)
    ensures
        r@ == header_line_text(
            name@,
            match value {
                Some(v) => Some(v@),
                None => None,
            },
            raw@,
        ),
{
    let mut out = owned("  ");
    push_str(&mut out, name);
    match value {
        Some(v) => {
            if is_authorization_header(name) {
                push_str(&mut out, ": [REDACTED]");
            } else {
                push_str(&mut out, ": ");
                push_str(&mut out, v);
            }
        },
        None => {
            push_str(&mut out, ": <non-UTF8 value, bytes: ");
            let d = bytes_debug_string(raw);
            push_str(&mut out, d.as_str());
            push_str(&mut out, ">");
        },
    }
    assert(out@ =~= header_line_text(
        name@,
        match value {
            Some(v) => Some(v@),
            None => None,
        },
        raw@,
    ));
    out
}

/// The lines logged for a request: a banner, the peer, method and path, the
/// HTTP version, each header, and a closing rule.
pub open spec fn request_log_text(
    peer: Seq<char>,
    method: Seq<char>,
    path: Seq<char>,
    version: Seq<char>,
    headers: Seq<(Seq<char>, Option<Seq<char>>, Seq<u8>)>,
) -> Seq<Seq<char>> {
    seq![
        "=== Incoming Request ==="@,
        "From: "@ + peer,
        "Method: "@ + method + " "@ + path,
        "HTTP Version: "@ + version,
        "Headers:"@,
    ] + headers.map_values(|h: (Seq<char>, Option<Seq<char>>, Seq<u8>)| header_line_text(h.0, h.1, h.2))
        + seq!["========================"@]
}

/// The model of a header entry.
pub open spec fn header_model(h: HeaderEntry) -> (Seq<char>, Option<Seq<char>>, Seq<u8>) {
    (h.name@, h.value.deep_view(), h.raw@)
}

/// The log lines of a request (see [`request_log_text`]); `version` is the
/// HTTP version as its debug text shows it.
pub fn request_log_lines(peer: &str, method: &str, path: &str, version: &str, headers: &Vec<HeaderEntry>) -> (r: Vec<String>)
    ensures
        r.deep_view() == request_log_text(
            peer@,
            method@,
            path@,
            version@,
            headers@.map_values(|h: HeaderEntry| header_model(h)),
        ),
{
    let mut out: Vec<String> = Vec::new();
    out.push(owned("=== Incoming Request ==="));
    let mut l = owned("From: ");
    push_str(&mut l, peer);
    out.push(l);
    let mut l = owned("Method: ");
    push_str(&mut l, method);
    push_str(&mut l, " ");
    push_str(&mut l, path);
    out.push(l);
    let mut l = owned("HTTP Version: ");
    push_str(&mut l, version);
    out.push(l);
    out.push(owned("Headers:"));
    let ghost hs = headers@.map_values(|h: HeaderEntry| header_model(h));
    let ghost lines = hs.map_values(|h: (Seq<char>, Option<Seq<char>>, Seq<u8>)| header_line_text(h.0, h.1, h.2));
    let ghost head = out.deep_view();
    let mut i: usize = 0;
    while i < headers.len()
        invariant
            i <= headers.len(),
            hs == headers@.map_values(|h: HeaderEntry| header_model(h)),
            lines == hs.map_values(|h: (Seq<char>, Option<Seq<char>>, Seq<u8>)| header_line_text(h.0, h.1, h.2)),
            out@.len() == 5 + i,
            head.len() == 5,
            out.deep_view() == head + lines.take(i as int),
        decreases headers.len() - i,
    {
        let h = &headers[i];
        let v: Option<&str> = match &h.value {
            Some(s) => Some(s.as_str()),
            None => None,
        };
        let line = header_log_line(h.name.as_str(), v, h.raw.as_slice());
        proof {
            assert(hs[i as int] == header_model(headers@[i as int]));
            assert(line@ == lines[i as int]);
        }
        let ghost before = out@;
        let ghost bdv = out.deep_view();
        out.push(line);
        proof {
            assert(out.deep_view() =~= head + lines.take(i + 1)) by {
                assert forall|k: int| 0 <= k < out@.len() implies #[trigger] out.deep_view()[k] == (head
                    + lines.take(i + 1))[k] by {
                    if k < before.len() {
                        assert(out@[k] == before[k]);
                        assert(bdv[k] == before[k].deep_view());
                    } else {
                        assert(out@[k] == line);
                    }
                }
            }
        }
        i += 1;
    }
    let ghost before = out@;
    let ghost bdv = out.deep_view();
    out.push(owned("========================"));
    proof {
        assert(lines.take(headers.len() as int) =~= lines);
        assert(out.deep_view() =~= request_log_text(peer@, method@, path@, version@, hs)) by {
            assert forall|k: int| 0 <= k < before.len() implies out@[k] == before[k] by {}
            assert forall|k: int| 0 <= k < out@.len() implies #[trigger] out.deep_view()[k]
                == request_log_text(peer@, method@, path@, version@, hs)[k] by {
                if k < before.len() {
                    assert(out@[k] == before[k]);
                    assert(bdv[k] == before[k].deep_view());
                }
            }
        }
    }
    out
}

} // verus!
