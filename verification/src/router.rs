//! Upstream providers and how a model name selects one.

use vstd::prelude::*;
use crate::error::ProxyError;
use crate::text::{chars_of, lowercase, owned, push_str, str_eq, string_of_range, to_lowercase};

verus! {

broadcast use vstd::string::group_string_axioms;

/// An upstream provider.
#[derive(Debug, Clone, Copy, PartialEq, Eq, Structural)]
pub enum Provider {
    Straico,
}

/// The part of a model name before the first `/` (all of it where there is
/// no `/`).
pub open spec fn model_prefix(m: Seq<char>) -> Seq<char>
    decreases m.len(),
{
    if m.len() == 0 {
        m
    } else if m[0] == '/' {
        Seq::empty()
    } else {
        seq![m[0]] + model_prefix(m.drop_first())
    }
}

/// The name under which a provider is shown.
pub open spec fn provider_name(p: Provider) -> Seq<char> {
    match p {
        Provider::Straico => "straico"@,
    }
}

proof fn lemma_model_prefix_split(m: Seq<char>, i: int)
    requires
        0 <= i <= m.len(),
        forall|k: int| 0 <= k < i ==> m[k] != '/',
        i == m.len() || m[i] == '/',
    ensures
        model_prefix(m) == m.take(i),
    decreases m.len(),
{
    if m.len() == 0 {
        assert(m.take(i) =~= m);
    } else if i == 0 {
        assert(m.take(0) =~= Seq::<char>::empty());
    } else {
        lemma_model_prefix_split(m.drop_first(), i - 1);
        assert(m.take(i) =~= seq![m[0]] + m.drop_first().take(i - 1));
    }
}

impl Provider {
    /// The provider named by the prefix of a model name (before the first
    /// `/`), compared case-insensitively; an unknown prefix is a bad request.
    pub fn from_model(model: &str) -> (r: Result<Provider, ProxyError>)
        ensures
            lowercase(model_prefix(model@)) == "straico"@ ==> r == Ok::<Provider, ProxyError>(
                Provider::Straico,
            ),
            lowercase(model_prefix(model@)) != "straico"@ ==> (r matches Err(ProxyError::BadRequest(m))
                && m@ == "Unknown provider: "@ + model_prefix(model@)),
    {
        let v = chars_of(model);
        let mut i: usize = 0;
        while i < v.len() && v[i] != '/'
            invariant
                i <= v.len(),
                forall|k: int| 0 <= k < i ==> v@[k] != '/',
            decreases v.len() - i,
        {
            i += 1;
        }
        proof {
            lemma_model_prefix_split(model@, i as int);
        }
        let prefix = string_of_range(&v, 0, i);
        assert(prefix@ =~= model_prefix(model@)) by {
            assert(model@.take(i as int) =~= v@.subrange(0, i as int));
        }
        let lower = to_lowercase(prefix.as_str());
        Provider::from_prefix(prefix.as_str(), lower.as_str())
    }

    /// The provider named by a model prefix, given the prefix lower-cased:
    /// Straico for `straico`, else a bad request naming the prefix.
    pub fn from_prefix(prefix: &str, lowered: &str) -> (r: Result<Provider, ProxyError>)
        ensures
            lowered@ == "straico"@ ==> r == Ok::<Provider, ProxyError>(Provider::Straico),
            lowered@ != "straico"@ ==> (r matches Err(ProxyError::BadRequest(m)) && m@ == "Unknown provider: "@
                + prefix@),
    {
        if str_eq(lowered, "straico") {
            Ok(Provider::Straico)
        } else {
            let mut m = owned("Unknown provider: ");
            push_str(&mut m, prefix);
            Err(ProxyError::BadRequest(m))
        }
    }

    /// The base URL of the provider's API.
    pub fn base_url(&self) -> (r: &'static str)
        ensures
            r@ == "https://api.straico.com/v2"@,
    {
        "https://api.straico.com/v2"
    }

    /// The environment variable that holds the provider's API key.
    pub fn env_var_name(&self) -> (r: &'static str)
        ensures
            r@ == "STRAICO_API_KEY"@,
    {
        "STRAICO_API_KEY"
    }

    /// The name under which the provider is shown.
    pub fn name(&self) -> (r: &'static str)
        ensures
            r@ == provider_name(*self),
    {
        match self {
            Provider::Straico => "straico",
        }
    }
}

/// The model name sent to a provider's own API: the segment after the first
/// `/` (up to the next one) where the name has a `/`, else the name itself.
pub open spec fn model_for_provider(m: Seq<char>) -> Seq<char> {
    let p = model_prefix(m);
    if p.len() < m.len() {
        model_prefix(m.skip(p.len() as int + 1))
    } else {
        m
    }
}

/// The index of the first `/` in `v` at or after `from`, or the length.
fn next_slash(v: &Vec<char>, from: usize) -> (r: usize)
    requires
        from <= v.len(),
    ensures
        from <= r <= v.len(),
        forall|k: int| from <= k < r ==> v@[k] != '/',
        r == v.len() || v@[r as int] == '/',
{
    let mut i: usize = from;
    while i < v.len() && v[i] != '/'
        invariant
            from <= i <= v.len(),
            forall|k: int| from <= k < i ==> v@[k] != '/',
        decreases v.len() - i,
    {
        i += 1;
    }
    i
}

/// The model name without its provider segment (see [`model_for_provider`]).
pub fn model_without_provider(model: &str) -> (r: String)
    ensures
        r@ == model_for_provider(model@),
{
    let v = chars_of(model);
    let i = next_slash(&v, 0);
    proof {
        lemma_model_prefix_split(model@, i as int);
    }
    if i == v.len() {
        return owned(model);
    }
    let j = next_slash(&v, i + 1);
    let ghost rest = model@.skip(i + 1);
    proof {
        assert forall|k: int| 0 <= k < j - (i + 1) implies rest[k] != '/' by {
            assert(rest[k] == v@[k + i + 1]);
        }
        if j < v.len() {
            assert(rest[j - (i + 1)] == v@[j as int]);
        }
        lemma_model_prefix_split(rest, j - (i + 1));
    }
    let r = string_of_range(&v, i + 1, j);
    assert(r@ =~= model_for_provider(model@)) by {
        assert(rest.take(j - (i + 1)) =~= v@.subrange(i + 1, j as int));
    }
    r
}

} // verus!
