//! Model discovery helpers, off the default path.
//!
//! A rich discovery endpoint advertises models with capability tags; the
//! conventional listing endpoint advertises identifiers only, which count as
//! chat-capable. A companion filter keeps the models whose tags
//! case-insensitively match `chat`, `tools` or `completion`.

use vstd::prelude::*;
use vstd::string::StrSliceExecFns;
use vstd::string::StringExecFns;

use crate::json::{get_str_field, json_as_str, json_get, json_obj_get, json_parse,
    parse_json_text, str_field, str_value, Json};

verus! {

/// A model advertised by a discovery endpoint.
#[derive(Debug)]
pub struct AdvertisedModel {
    pub name: String,
    /// Capability tags, compared case-insensitively.
    pub capabilities: Vec<String>,
}

/// Mathematical image of an advertised model.
pub struct ModelView {
    pub name: Seq<char>,
    pub capabilities: Seq<Seq<char>>,
}

impl View for AdvertisedModel {
    type V = ModelView;

    open spec fn view(&self) -> ModelView {
        ModelView { name: self.name@, capabilities: self.capabilities.deep_view() }
    }
}

/// The images of a sequence of advertised models.
pub open spec fn models_view(ms: Seq<AdvertisedModel>) -> Seq<ModelView> {
    ms.map_values(|m: AdvertisedModel| m@)
}

/// Case-insensitive equality of two characters, folding only the ASCII
/// letters.
pub open spec fn ic_char_eq(a: char, b: char) -> bool {
    ||| a == b
    ||| (65 <= a as int <= 90 && a as int + 32 == b as int)
    ||| (65 <= b as int <= 90 && b as int + 32 == a as int)
}

/// Case-insensitive equality of two strings, folding only the ASCII letters.
pub open spec fn ic_seq_eq(a: Seq<char>, b: Seq<char>) -> bool {
    a.len() == b.len() && (forall|i: int| 0 <= i < a.len() ==> ic_char_eq(a[i], b[i]))
}

/// Whether a capability tag marks a model as chat-capable.
pub open spec fn qualifying_tag(t: Seq<char>) -> bool {
    ||| ic_seq_eq(t, "chat"@)
    ||| ic_seq_eq(t, "tools"@)
    ||| ic_seq_eq(t, "completion"@)
}

/// Whether some capability tag of the model qualifies.
pub open spec fn chat_capable(m: ModelView) -> bool {
    exists|i: int| 0 <= i < m.capabilities.len() && qualifying_tag(m.capabilities[i])
}

/// The names of the chat-capable models, in order.
pub open spec fn chat_names(ms: Seq<ModelView>) -> Seq<Seq<char>>
    decreases ms.len(),
{
    if ms.len() == 0 {
        Seq::empty()
    } else {
        let prefix = chat_names(ms.drop_last());
        if chat_capable(ms.last()) {
            prefix.push(ms.last().name)
        } else {
            prefix
        }
    }
}

/// Case-insensitive string equality, folding only the ASCII letters.
pub fn eq_ignore_case(a: &str, b: &str) -> (r: bool)
    ensures
        r == ic_seq_eq(a@, b@),
{
    let alen = a.unicode_len();
    let blen = b.unicode_len();
    if alen != blen {
        return false;
    }
    let mut i: usize = 0;
    while i < alen
        invariant
            alen == a@.len(),
            blen == b@.len(),
            alen == blen,
            i <= alen,
            forall|k: int| 0 <= k < i ==> ic_char_eq(a@[k], b@[k]),
        decreases alen - i,
    {
        let x = a.get_char(i) as u32;
        let y = b.get_char(i) as u32;
        let same = x == y || (65 <= x && x <= 90 && x + 32 == y) || (65 <= y && y <= 90 && y + 32
            == x);
        if !same {
            proof {
                assert(!ic_char_eq(a@[i as int], b@[i as int]));
            }
            return false;
        }
        i = i + 1;
    }
    true
}

/// Whether some capability tag of the model qualifies as chat-capable.
pub fn model_is_chat(m: &AdvertisedModel) -> (r: bool)
    ensures
        r == chat_capable(m@),
{
    let n = m.capabilities.len();
    let mut i: usize = 0;
    while i < n
        invariant
            n == m.capabilities@.len(),
            i <= n,
            forall|j: int| 0 <= j < i ==> !qualifying_tag(m.capabilities.deep_view()[j]),
        decreases n - i,
    {
        proof {
            assert(m.capabilities.deep_view()[i as int] == m.capabilities@[i as int]@);
        }
        let c = &m.capabilities[i];
        if eq_ignore_case(c.as_str(), "chat") || eq_ignore_case(c.as_str(), "tools")
            || eq_ignore_case(c.as_str(), "completion") {
            proof {
                let caps = m@.capabilities;
                assert(caps == m.capabilities.deep_view());
                assert(qualifying_tag(caps[i as int]));
                assert(chat_capable(m@));
            }
            return true;
        }
        i = i + 1;
    }
    proof {
        assert(m.capabilities.deep_view().len() == m.capabilities@.len());
    }
    false
}

/// Keep the names of the models carrying a `chat`, `tools` or `completion`
/// tag, compared case-insensitively, in order.
pub fn filter_chat_models(models: &Vec<AdvertisedModel>) -> (r: Vec<String>)
    ensures
        r.deep_view() == chat_names(models_view(models@)),
{
    let n = models.len();
    let mut r: Vec<String> = Vec::new();
    proof {
        assert(models_view(models@.take(0)) =~= Seq::<ModelView>::empty());
        assert(r.deep_view() =~= Seq::<Seq<char>>::empty());
    }
    let mut i: usize = 0;
    while i < n
        invariant
            n == models@.len(),
            i <= n,
            r.deep_view() == chat_names(models_view(models@.take(i as int))),
        decreases n - i,
    {
        proof {
            let mv = models_view(models@.take(i as int + 1));
            assert(mv.drop_last() =~= models_view(models@.take(i as int)));
            assert(mv.last() == models@[i as int]@);
        }
        let ghost r_old = r.deep_view();
        if model_is_chat(&models[i]) {
            r.push(models[i].name.clone());
            proof {
                assert(r.deep_view() =~= r_old.push(models@[i as int]@.name));
            }
        }
        i = i + 1;
    }
    proof {
        assert(models@.take(n as int) =~= models@);
    }
    r
}

/// The capability strings of an array, when every element is a string.
pub open spec fn caps_of(items: Seq<Json>) -> Option<Seq<Seq<char>>>
    decreases items.len(),
{
    if items.len() == 0 {
        Some(Seq::empty())
    } else {
        match caps_of(items.drop_last()) {
            Some(prefix) => match str_value(items.last()) {
                Some(s) => Some(prefix.push(s)),
                None => None,
            },
            None => None,
        }
    }
}

/// What the discovery document's entry for one model must hold: a `name`
/// string, and when a `capabilities` field exists, an array of strings
/// (absent means no tags).
pub open spec fn model_of(j: Json) -> Option<ModelView> {
    match str_field(j, "name"@) {
        Some(nm) => match json_get(j, "capabilities"@) {
            None => Some(ModelView { name: nm, capabilities: Seq::empty() }),
            Some(c) => match c {
                Json::Arr(items) => match caps_of(items@) {
                    Some(cs) => Some(ModelView { name: nm, capabilities: cs }),
                    None => None,
                },
                _ => None,
            },
        },
        None => None,
    }
}

/// The models of an array of entries, when every entry is well-formed.
pub open spec fn models_of(items: Seq<Json>) -> Option<Seq<ModelView>>
    decreases items.len(),
{
    if items.len() == 0 {
        Some(Seq::empty())
    } else {
        match models_of(items.drop_last()) {
            Some(prefix) => match model_of(items.last()) {
                Some(m) => Some(prefix.push(m)),
                None => None,
            },
            None => None,
        }
    }
}

/// What the rich discovery endpoint's response yields: the advertised models
/// when the document is an object whose optional `advertisedModels` field is
/// a well-formed array; `None` on any mismatch.
pub open spec fn config_models_spec(doc: Option<Json>) -> Option<Seq<ModelView>> {
    match doc {
        None => None,
        Some(j) => match j {
            Json::Obj(_) => match json_get(j, "advertisedModels"@) {
                None => Some(Seq::empty()),
                Some(a) => match a {
                    Json::Arr(items) => models_of(items@),
                    _ => None,
                },
            },
            _ => None,
        },
    }
}

/// A malformed element poisons the whole capability array.
proof fn lemma_caps_of_none(items: Seq<Json>, k: int)
    requires
        0 <= k < items.len(),
        str_value(items[k]) is None,
    ensures
        caps_of(items) is None,
    decreases items.len(),
{
    if k < items.len() - 1 {
        lemma_caps_of_none(items.drop_last(), k);
    }
}

/// A malformed entry poisons the whole model array.
proof fn lemma_models_of_none(items: Seq<Json>, k: int)
    requires
        0 <= k < items.len(),
        model_of(items[k]) is None,
    ensures
        models_of(items) is None,
    decreases items.len(),
{
    if k < items.len() - 1 {
        lemma_models_of_none(items.drop_last(), k);
    }
}

/// The strings of a capability array; `None` when an element is no string.
fn parse_caps_arr(items: &Vec<Json>) -> (r: Option<Vec<String>>)
    ensures
        match r {
            Some(v) => caps_of(items@) == Some(v.deep_view()),
            None => caps_of(items@) is None,
        },
{
    let n = items.len();
    let mut caps: Vec<String> = Vec::new();
    proof {
        assert(items@.take(0) =~= Seq::<Json>::empty());
        assert(caps.deep_view() =~= Seq::<Seq<char>>::empty());
    }
    let mut i: usize = 0;
    while i < n
        invariant
            n == items@.len(),
            i <= n,
            caps_of(items@.take(i as int)) == Some(caps.deep_view()),
        decreases n - i,
    {
        proof {
            assert(items@.take(i as int + 1).drop_last() =~= items@.take(i as int));
            assert(items@.take(i as int + 1).last() == items@[i as int]);
        }
        let ghost caps_old = caps.deep_view();
        match json_as_str(&items[i]) {
            Some(s) => {
                caps.push(s.clone());
                proof {
                    assert(caps.deep_view() =~= caps_old.push(items@[i as int]->Str_0@));
                }
            },
            None => {
                proof {
                    lemma_caps_of_none(items@, i as int);
                }
                return None;
            },
        }
        i = i + 1;
    }
    proof {
        assert(items@.take(n as int) =~= items@);
    }
    Some(caps)
}

/// One advertised model from one entry; `None` when the entry is malformed.
fn parse_model(item: &Json) -> (r: Option<AdvertisedModel>)
    ensures
        match r {
            Some(m) => model_of(*item) == Some(m@),
            None => model_of(*item) is None,
        },
{
    let name = match get_str_field(item, "name") {
        Some(s) => s.clone(),
        None => {
            return None;
        },
    };
    match json_obj_get(item, "capabilities") {
        None => {
            let m = AdvertisedModel { name, capabilities: Vec::new() };
            proof {
                assert(m@.capabilities =~= Seq::<Seq<char>>::empty());
            }
            Some(m)
        },
        Some(c) => {
            match c {
                Json::Arr(cap_items) => match parse_caps_arr(cap_items) {
                    Some(caps) => Some(AdvertisedModel { name, capabilities: caps }),
                    None => None,
                },
                _ => None,
            }
        },
    }
}

/// The advertised models of an array of entries; `None` when one entry is
/// malformed.
fn parse_models_arr(items: &Vec<Json>) -> (r: Option<Vec<AdvertisedModel>>)
    ensures
        match r {
            Some(v) => models_of(items@) == Some(models_view(v@)),
            None => models_of(items@) is None,
        },
{
    let n = items.len();
    let mut out: Vec<AdvertisedModel> = Vec::new();
    proof {
        assert(items@.take(0) =~= Seq::<Json>::empty());
        assert(models_view(out@) =~= Seq::<ModelView>::empty());
    }
    let mut i: usize = 0;
    while i < n
        invariant
            n == items@.len(),
            i <= n,
            models_of(items@.take(i as int)) == Some(models_view(out@)),
        decreases n - i,
    {
        proof {
            assert(items@.take(i as int + 1).drop_last() =~= items@.take(i as int));
            assert(items@.take(i as int + 1).last() == items@[i as int]);
        }
        let ghost out_old = models_view(out@);
        match parse_model(&items[i]) {
            Some(m) => {
                let ghost mv = m@;
                out.push(m);
                proof {
                    assert(models_view(out@) =~= out_old.push(mv));
                }
            },
            None => {
                proof {
                    lemma_models_of_none(items@, i as int);
                }
                return None;
            },
        }
        i = i + 1;
    }
    proof {
        assert(items@.take(n as int) =~= items@);
    }
    Some(out)
}

/// Parse the rich discovery endpoint's response body: the advertised models,
/// or `None` when the body or an entry is malformed (the caller then falls
/// back to the conventional listing).
pub fn parse_config_response(body: &str) -> (r: Option<Vec<AdvertisedModel>>)
    ensures
        match r {
            Some(v) => config_models_spec(json_parse(body@)) == Some(models_view(v@)),
            None => config_models_spec(json_parse(body@)) is None,
        },
{
    let doc = match parse_json_text(body) {
        Some(d) => d,
        None => {
            return None;
        },
    };
    match &doc {
        Json::Obj(_) => {},
        _ => {
            return None;
        },
    }
    match json_obj_get(&doc, "advertisedModels") {
        None => {
            let empty: Vec<AdvertisedModel> = Vec::new();
            proof {
                assert(models_view(empty@) =~= Seq::<ModelView>::empty());
            }
            Some(empty)
        },
        Some(a) => match a {
            Json::Arr(items) => parse_models_arr(items),
            _ => None,
        },
    }
}

/// The identifiers that the conventional listing advertises: each entry of
/// the `data` array whose `id` field is a string, in order; anything else
/// about the document counts as an empty listing.
pub open spec fn listing_names(items: Seq<Json>) -> Seq<Seq<char>>
    decreases items.len(),
{
    if items.len() == 0 {
        Seq::empty()
    } else {
        let prefix = listing_names(items.drop_last());
        match str_field(items.last(), "id"@) {
            Some(s) => prefix.push(s),
            None => prefix,
        }
    }
}

/// What the conventional listing endpoint's response yields: `None` only on
/// malformed JSON; otherwise the identifiers under `data`.
pub open spec fn listing_models_spec(doc: Option<Json>) -> Option<Seq<Seq<char>>> {
    match doc {
        None => None,
        Some(j) => Some(
            match json_get(j, "data"@) {
                Some(d) => match d {
                    Json::Arr(items) => listing_names(items@),
                    _ => Seq::empty(),
                },
                None => Seq::empty(),
            },
        ),
    }
}

/// The models named by a listing, each carrying the one generic chat tag the
/// listing format implies.
pub open spec fn chat_tagged(names: Seq<Seq<char>>) -> Seq<ModelView> {
    names.map_values(|n: Seq<char>| ModelView { name: n, capabilities: seq!["CHAT"@] })
}

/// Parse the conventional model-listing response body. `None` on malformed
/// JSON; otherwise one chat-tagged model per well-formed `data` entry.
pub fn parse_models_listing(body: &str) -> (r: Option<Vec<AdvertisedModel>>)
    ensures
        match r {
            Some(v) => listing_models_spec(json_parse(body@)) matches Some(names) && models_view(
                v@,
            ) == chat_tagged(names),
            None => json_parse(body@) is None,
        },
{
    let doc = match parse_json_text(body) {
        Some(d) => d,
        None => {
            return None;
        },
    };
    let items = match json_obj_get(&doc, "data") {
        Some(d) => match d {
            Json::Arr(items) => items,
            _ => {
                let empty: Vec<AdvertisedModel> = Vec::new();
                proof {
                    assert(models_view(empty@) =~= chat_tagged(Seq::<Seq<char>>::empty()));
                }
                return Some(empty);
            },
        },
        None => {
            let empty: Vec<AdvertisedModel> = Vec::new();
            proof {
                assert(models_view(empty@) =~= chat_tagged(Seq::<Seq<char>>::empty()));
            }
            return Some(empty);
        },
    };
    let n = items.len();
    let mut out: Vec<AdvertisedModel> = Vec::new();
    proof {
        assert(items@.take(0) =~= Seq::<Json>::empty());
        assert(models_view(out@) =~= chat_tagged(listing_names(items@.take(0))));
    }
    let mut i: usize = 0;
    while i < n
        invariant
            n == items@.len(),
            i <= n,
            models_view(out@) == chat_tagged(listing_names(items@.take(i as int))),
        decreases n - i,
    {
        proof {
            assert(items@.take(i as int + 1).drop_last() =~= items@.take(i as int));
            assert(items@.take(i as int + 1).last() == items@[i as int]);
        }
        let ghost out_old = models_view(out@);
        match get_str_field(&items[i], "id") {
            Some(s) => {
                let mut caps: Vec<String> = Vec::new();
                caps.push(String::from_str("CHAT"));
                let m = AdvertisedModel { name: s.clone(), capabilities: caps };
                proof {
                    assert(m@.capabilities =~= seq!["CHAT"@]);
                }
                let ghost mv = m@;
                out.push(m);
                proof {
                    assert(models_view(out@) =~= out_old.push(mv));
                    assert(chat_tagged(listing_names(items@.take(i as int + 1))) =~= out_old.push(
                        mv,
                    ));
                }
            },
            None => {
                proof {
                    assert(chat_tagged(listing_names(items@.take(i as int + 1))) =~= models_view(
                        out@,
                    ));
                }
            },
        }
        i = i + 1;
    }
    proof {
        assert(items@.take(n as int) =~= items@);
    }
    Some(out)
}

} // verus!
