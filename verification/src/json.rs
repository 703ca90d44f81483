//! A plain model of the JSON trees that the platform injects.
//!
//! The service catalog arrives as untyped JSON text. Parsing the text is
//! delegated to an outside parser behind one trusted boundary; everything the
//! credential logic then reads — object fields, arrays, strings — is held in
//! the library's own [`Json`] tree, so that catalog navigation and schema
//! detection are verified. Numbers never matter to this logic, so they are
//! carried without their value.

use vstd::prelude::*;
use vstd::string::StrSliceExecFns;

verus! {

/// A JSON tree, as far as the catalog logic reads one.
#[derive(Debug)]
pub enum Json {
    Null,
    Bool(bool),
    /// A number; its value plays no part in credential resolution.
    Num,
    Str(String),
    Arr(Vec<Json>),
    /// An object, as the pairs of key and value in the order the parser
    /// handed them out (keys are unique after parsing).
    Obj(Vec<(String, Json)>),
}

/// The value under the first entry of `entries` whose key is `key`.
pub open spec fn obj_lookup(entries: Seq<(String, Json)>, key: Seq<char>) -> Option<Json>
    decreases entries.len(),
{
    if entries.len() == 0 {
        None
    } else if entries[0].0@ == key {
        Some(entries[0].1)
    } else {
        obj_lookup(entries.drop_first(), key)
    }
}

/// The value under `key` if `j` is an object holding that key.
pub open spec fn json_get(j: Json, key: Seq<char>) -> Option<Json> {
    match j {
        Json::Obj(entries) => obj_lookup(entries@, key),
        _ => None,
    }
}

/// The characters of `j` if it is a string.
pub open spec fn str_value(j: Json) -> Option<Seq<char>> {
    match j {
        Json::Str(s) => Some(s@),
        _ => None,
    }
}

/// The characters under `key` if `j` is an object whose `key` field is a
/// string.
pub open spec fn str_field(j: Json, key: Seq<char>) -> Option<Seq<char>> {
    match json_get(j, key) {
        Some(v) => str_value(v),
        None => None,
    }
}

/// What the outside parser, followed by abstraction into [`Json`], makes of
/// a text: `None` on malformed JSON. A function of the characters alone.
pub uninterp spec fn json_parse(s: Seq<char>) -> Option<Json>;

#[verifier::external_type_specification]
#[verifier::external_body]
pub struct ExValue(serde_json::Value);

/// Relies on serde_json::from_str: parses JSON text, `None` on malformed
/// input; the tree is then abstracted into [`Json`] by [`json_of_value`].
#[verifier::external_body]
pub(crate) fn parse_json_text(s: &str) -> (r: Option<Json>)
    ensures
        r == json_parse(s@),
{
    match serde_json::from_str::<serde_json::Value>(s) {
        Ok(v) => Some(json_of_value(&v)),
        Err(_) => None,
    }
}

/// Abstracts a tree of serde_json::Value into the library's model, variant by
/// variant; only [`parse_json_text`] calls it.
#[verifier::external_body]
fn json_of_value(v: &serde_json::Value) -> Json {
    match v {
        serde_json::Value::Null => Json::Null,
        serde_json::Value::Bool(b) => Json::Bool(*b),
        serde_json::Value::Number(_) => Json::Num,
        serde_json::Value::String(s) => Json::Str(s.clone()),
        serde_json::Value::Array(a) => Json::Arr(a.iter().map(json_of_value).collect()),
        serde_json::Value::Object(o) => Json::Obj(
            o.iter().map(|(k, w)| (k.clone(), json_of_value(w))).collect(),
        ),
    }
}

/// Character-for-character string equality.
pub fn str_eq(a: &str, b: &str) -> (r: bool)
    ensures
        r == (a@ == b@),
{
    let alen = a.unicode_len();
    let blen = b.unicode_len();
    if alen != blen {
        proof {
            if a@ == b@ {
                assert(a@.len() == b@.len());
            }
        }
        return false;
    }
    let mut i: usize = 0;
    while i < alen
        invariant
            alen == a@.len(),
            blen == b@.len(),
            alen == blen,
            i <= alen,
            forall|k: int| 0 <= k < i ==> a@[k] == b@[k],
        decreases alen - i,
    {
        if a.get_char(i) != b.get_char(i) {
            proof {
                if a@ == b@ {
                    assert(a@[i as int] == b@[i as int]);
                }
            }
            return false;
        }
        i = i + 1;
    }
    proof {
        assert(a@ =~= b@);
    }
    true
}

/// The value under `key`, if `j` is an object holding that key.
pub fn json_obj_get<'a>(j: &'a Json, key: &str) -> (r: Option<&'a Json>)
    ensures
        match r {
            Some(v) => json_get(*j, key@) == Some(*v),
            None => json_get(*j, key@) is None,
        },
{
    match j {
        Json::Obj(entries) => {
            let n = entries.len();
            let mut i: usize = 0;
            proof {
                assert(entries@.skip(0) =~= entries@);
            }
            while i < n
                invariant
                    n == entries@.len(),
                    i <= n,
                    json_get(*j, key@) == obj_lookup(entries@.skip(i as int), key@),
                decreases n - i,
            {
                proof {
                    let t = entries@.skip(i as int);
                    assert(t[0] == entries@[i as int]);
                    assert(t.drop_first() =~= entries@.skip(i as int + 1));
                }
                if str_eq(entries[i].0.as_str(), key) {
                    proof {
                        assert(obj_lookup(entries@.skip(i as int), key@) == Some(
                            entries@[i as int].1,
                        ));
                    }
                    return Some(&entries[i].1);
                }
                i = i + 1;
            }
            proof {
                assert(entries@.skip(n as int) =~= Seq::<(String, Json)>::empty());
            }
            None
        },
        _ => None,
    }
}

/// The characters of `j`, if it is a string.
pub fn json_as_str<'a>(j: &'a Json) -> (r: Option<&'a String>)
    ensures
        match r {
            Some(s) => str_value(*j) == Some(s@),
            None => str_value(*j) is None,
        },
{
    match j {
        Json::Str(s) => Some(s),
        _ => None,
    }
}

/// The string under `key`, if `j` is an object whose `key` field is a string.
pub fn get_str_field<'a>(j: &'a Json, key: &str) -> (r: Option<&'a String>)
    ensures
        match r {
            Some(s) => str_field(*j, key@) == Some(s@),
            None => str_field(*j, key@) is None,
        },
{
    match json_obj_get(j, key) {
        Some(v) => json_as_str(v),
        None => None,
    }
}

} // verus!
