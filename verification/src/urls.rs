//! URL normalization for the gateway endpoints.
//!
//! A legacy single-model binding advertises its base URL with a trailing
//! `/openai` segment (and sometimes a trailing slash); the canonical
//! `endpoint_base` carries neither. Conversely, the effective API host is
//! always the canonical base with one `/openai` segment appended.

use vstd::prelude::*;
use vstd::string::StrSliceExecFns;
use vstd::string::StringExecFns;

verus! {

/// `s` with every trailing `'/'` removed.
pub open spec fn trim_slashes(s: Seq<char>) -> Seq<char>
    decreases s.len(),
{
    if s.len() > 0 && s.last() == '/' {
        trim_slashes(s.drop_last())
    } else {
        s
    }
}

/// `s` with every trailing `/openai` segment removed.
pub open spec fn trim_openai(s: Seq<char>) -> Seq<char>
    decreases s.len(),
{
    if s.len() >= 7 && s.subrange(s.len() - 7, s.len() as int) == "/openai"@ {
        trim_openai(s.subrange(0, s.len() - 7))
    } else {
        s
    }
}

/// Canonical form of a legacy `api_base`: trailing slashes removed first,
/// then trailing `/openai` segments.
pub open spec fn strip_spec(s: Seq<char>) -> Seq<char> {
    trim_openai(trim_slashes(s))
}

/// The effective API host for a canonical base: one `/openai` segment
/// appended after removing any trailing slash.
pub open spec fn host_spec(s: Seq<char>) -> Seq<char> {
    trim_slashes(s) + "/openai"@
}

/// The conventional model-listing endpoint under a canonical base.
pub open spec fn listing_url_spec(s: Seq<char>) -> Seq<char> {
    trim_slashes(s) + "/openai/v1/models"@
}

/// Number of characters of `s` that remain once trailing slashes go.
fn trimmed_slash_len(s: &str) -> (end: usize)
    ensures
        end <= s@.len(),
        s@.subrange(0, end as int) == trim_slashes(s@),
{
    let mut end = s.unicode_len();
    proof {
        assert(s@.subrange(0, end as int) =~= s@);
    }
    while end > 0 && s.get_char(end - 1) == '/'
        invariant
            end <= s@.len(),
            trim_slashes(s@) == trim_slashes(s@.subrange(0, end as int)),
        decreases end,
    {
        proof {
            let p = s@.subrange(0, end as int);
            assert(p.last() == s@[end - 1]);
            assert(p.drop_last() =~= s@.subrange(0, end - 1));
        }
        end = end - 1;
    }
    proof {
        let p = s@.subrange(0, end as int);
        if end > 0 {
            assert(p.last() == s@[end - 1]);
        }
        assert(trim_slashes(p) == p);
    }
    end
}

/// Whether the seven characters of `s` just before position `end` spell
/// `/openai`.
fn has_openai_before(s: &str, end: usize) -> (r: bool)
    requires
        7 <= end <= s@.len(),
    ensures
        r == (s@.subrange(end - 7, end as int) == "/openai"@),
{
    proof {
        reveal_strlit("/openai");
    }
    let r = s.get_char(end - 7) == '/' && s.get_char(end - 6) == 'o' && s.get_char(end - 5) == 'p'
        && s.get_char(end - 4) == 'e' && s.get_char(end - 3) == 'n' && s.get_char(end - 2) == 'a'
        && s.get_char(end - 1) == 'i';
    proof {
        let p = s@.subrange(end - 7, end as int);
        assert(p[0] == s@[end - 7]);
        assert(p[1] == s@[end - 6]);
        assert(p[2] == s@[end - 5]);
        assert(p[3] == s@[end - 4]);
        assert(p[4] == s@[end - 3]);
        assert(p[5] == s@[end - 2]);
        assert(p[6] == s@[end - 1]);
        if r {
            assert(p =~= "/openai"@);
        }
    }
    r
}

/// Canonicalize a legacy `api_base`: remove a trailing slash, then the
/// trailing `/openai` segment, each as often as present.
pub fn strip_openai_suffix(api_base: &str) -> (r: String)
    ensures
        r@ == strip_spec(api_base@),
{
    let mut end = trimmed_slash_len(api_base);
    proof {
        assert(trim_openai(api_base@.subrange(0, end as int)) == strip_spec(api_base@));
    }
    while end >= 7 && has_openai_before(api_base, end)
        invariant
            end <= api_base@.len(),
            strip_spec(api_base@) == trim_openai(api_base@.subrange(0, end as int)),
        decreases end,
    {
        proof {
            let p = api_base@.subrange(0, end as int);
            assert(p.subrange(p.len() - 7, p.len() as int) =~= api_base@.subrange(
                end - 7,
                end as int,
            ));
            assert(p.subrange(0, p.len() - 7) =~= api_base@.subrange(0, end - 7));
        }
        end = end - 7;
    }
    proof {
        let p = api_base@.subrange(0, end as int);
        if end >= 7 {
            assert(p.subrange(p.len() - 7, p.len() as int) =~= api_base@.subrange(
                end - 7,
                end as int,
            ));
        }
        assert(trim_openai(p) == p);
    }
    api_base.substring_char(0, end).to_owned()
}

/// The host handed to the chat-completion client: the canonical base with
/// one `/openai` segment appended (any trailing slash removed first).
pub fn openai_host(endpoint_base: &str) -> (r: String)
    ensures
        r@ == host_spec(endpoint_base@),
{
    let end = trimmed_slash_len(endpoint_base);
    let mut r = endpoint_base.substring_char(0, end).to_owned();
    r.append("/openai");
    r
}

/// The conventional model-listing URL under `endpoint_base`.
pub fn models_listing_url(endpoint_base: &str) -> (r: String)
    ensures
        r@ == listing_url_spec(endpoint_base@),
{
    let end = trimmed_slash_len(endpoint_base);
    let mut r = endpoint_base.substring_char(0, end).to_owned();
    r.append("/openai/v1/models");
    r
}

/// What `trim_openai` leaves never still ends in `/openai`.
proof fn lemma_trim_openai_fixed(s: Seq<char>)
    ensures
        ({
            let t = trim_openai(s);
            !(t.len() >= 7 && t.subrange(t.len() - 7, t.len() as int) == "/openai"@)
        }),
    decreases s.len(),
{
    if s.len() >= 7 && s.subrange(s.len() - 7, s.len() as int) == "/openai"@ {
        lemma_trim_openai_fixed(s.subrange(0, s.len() - 7));
    }
}

/// Stripping the `/openai` suffix from an already-stripped base is a no-op,
/// provided the stripped base does not end in a slash (removing a suffix can
/// expose one, and a second pass would then remove it).
pub proof fn lemma_strip_idempotent(s: Seq<char>)
    requires
        !(strip_spec(s).len() > 0 && strip_spec(s).last() == '/'),
    ensures
        strip_spec(strip_spec(s)) == strip_spec(s),
{
    let r = strip_spec(s);
    assert(trim_slashes(r) == r);
    lemma_trim_openai_fixed(trim_slashes(s));
    assert(trim_openai(r) == r);
}

/// Host derivation inverts suffix-stripping: appending `/openai` to a base
/// that is already in canonical form and stripping the result gives the base
/// back, so `host_spec(strip_spec(base + "/openai")) == base + "/openai"`.
/// With a trailing slash, `base + "/openai/"` strips to the same canonical
/// base, and the derived host is then the slash-free form of the input.
pub proof fn lemma_host_inverts_strip(base: Seq<char>)
    requires
        trim_slashes(base) == base,
        trim_openai(base) == base,
    ensures
        strip_spec(base + "/openai"@) == base,
        host_spec(base) == base + "/openai"@,
        host_spec(strip_spec(base + "/openai"@)) == base + "/openai"@,
        strip_spec(base + "/openai/"@) == base,
{
    reveal_strlit("/openai");
    reveal_strlit("/openai/");
    let x = base + "/openai"@;
    assert(x.len() == base.len() + 7);
    assert(x.last() == 'i');
    assert(trim_slashes(x) == x);
    assert(x.subrange(x.len() - 7, x.len() as int) =~= "/openai"@);
    assert(x.subrange(0, x.len() - 7) =~= base);
    assert(trim_openai(x) == trim_openai(base));
    let y = base + "/openai/"@;
    assert(y.last() == '/');
    assert(y.drop_last() =~= x);
    assert(trim_slashes(y) == trim_slashes(x));
}

} // verus!
