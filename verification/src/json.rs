//! JSON documents as the library sees them.
//!
//! Registry responses arrive as bytes.  One trusted wrapper parses them
//! through `serde_json` and rebuilds the document as the library's own
//! [`Json`] tree; the parse result is a function of the bytes alone and
//! carries the name [`spec_json_of`].  Everything read out of a document
//! afterwards — field lookup, string, integer and array content — is
//! verified code with exact contracts over that tree.

use vstd::prelude::*;
use crate::text::str_eq;

verus! {

#[verifier::external_type_specification]
#[verifier::external_body]
pub struct ExValue(serde_json::Value);

/// A JSON document, with object fields in the deterministic (sorted) key
/// order the parser yields.  Numbers outside the unsigned 64-bit integers
/// are kept only as a mark: the registry protocol never reads them.
pub enum Json {
    Null,
    Bool(bool),
    UInt(u64),
    NumOther,
    Str(String),
    Arr(Vec<Json>),
    Obj(Vec<(String, Json)>),
}

/// The document that a byte body parses to, when it is valid JSON.
/// Same bytes, same document, in every process and on every machine.
pub uninterp spec fn spec_json_of(body: Seq<u8>) -> Option<Json>;

/// Relies on serde_json's value model: rebuilds the parsed document as
/// the library's own tree, one arm per variant, moving content only;
/// object fields arrive in serde_json's deterministic sorted key order.
#[verifier::external_body]
fn json_of_value(v: serde_json::Value) -> Json {
    match v {
        serde_json::Value::Null => Json::Null,
        serde_json::Value::Bool(b) => Json::Bool(b),
        serde_json::Value::Number(n) => match n.as_u64() {
            Some(u) => Json::UInt(u),
            None => Json::NumOther,
        },
        serde_json::Value::String(s) => Json::Str(s),
        serde_json::Value::Array(a) => Json::Arr(a.into_iter().map(json_of_value).collect()),
        serde_json::Value::Object(m) => Json::Obj(
            m.into_iter().map(|(k, f)| (k, json_of_value(f))).collect(),
        ),
    }
}

/// Relies on serde_json::from_slice: parses a byte body as one JSON
/// document, or fails; the result depends on the bytes alone.
#[verifier::external_body]
pub fn parse_json(body: &[u8]) -> (r: Option<Json>)
    ensures
        r == spec_json_of(body@),
{
    match serde_json::from_slice::<serde_json::Value>(body) {
        Ok(v) => Some(json_of_value(v)),
        Err(_) => None,
    }
}

/// The value under `key` among an object's fields: the first entry
/// carrying the key (the parser yields each key once).
pub open spec fn spec_get_entries(fields: Seq<(String, Json)>, key: Seq<char>) -> Option<Json>
    decreases fields.len(),
{
    if fields.len() == 0 {
        None
    } else if fields[0].0@ == key {
        Some(fields[0].1)
    } else {
        spec_get_entries(fields.drop_first(), key)
    }
}

/// The value under `key`, when the document is an object holding it.
pub open spec fn spec_get(doc: Json, key: Seq<char>) -> Option<Json> {
    match doc {
        Json::Obj(fields) => spec_get_entries(fields@, key),
        _ => None,
    }
}

/// The content of a JSON string.
pub open spec fn spec_str_of(j: Json) -> Option<String> {
    match j {
        Json::Str(s) => Some(s),
        _ => None,
    }
}

/// The content of a JSON unsigned integer.
pub open spec fn spec_uint_of(j: Json) -> Option<u64> {
    match j {
        Json::UInt(u) => Some(u),
        _ => None,
    }
}

/// The elements of a JSON array.
pub open spec fn spec_arr_of(j: Json) -> Option<Seq<Json>> {
    match j {
        Json::Arr(a) => Some(a@),
        _ => None,
    }
}

/// The string under a key of an object, when present and a string.
pub open spec fn spec_get_string(doc: Json, key: Seq<char>) -> Option<String> {
    match spec_get(doc, key) {
        Some(f) => spec_str_of(f),
        None => None,
    }
}

/// The integer under a key of an object, when present and an integer.
pub open spec fn spec_get_uint(doc: Json, key: Seq<char>) -> Option<u64> {
    match spec_get(doc, key) {
        Some(f) => spec_uint_of(f),
        None => None,
    }
}

/// The strings of a JSON array of strings; nothing when any element is
/// not a string, or the document is not an array.
pub open spec fn spec_string_array_of(j: Json) -> Option<Seq<String>> {
    match spec_arr_of(j) {
        Some(arr) => {
            if forall|i: int| 0 <= i < arr.len() ==> spec_str_of(arr[i]) is Some {
                Some(Seq::new(arr.len(), |i: int| spec_str_of(arr[i])->0))
            } else {
                None
            }
        }
        None => None,
    }
}

/// A key found at `i`, with no earlier entry carrying it, is the lookup's
/// answer.
proof fn lemma_get_entries_found(fields: Seq<(String, Json)>, key: Seq<char>, i: int)
    requires
        0 <= i < fields.len(),
        fields[i].0@ == key,
        forall|j: int| 0 <= j < i ==> fields[j].0@ != key,
    ensures
        spec_get_entries(fields, key) == Some(fields[i].1),
    decreases fields.len(),
{
    if fields[0].0@ != key {
        lemma_get_entries_found(fields.drop_first(), key, i - 1);
    }
}

/// With no entry carrying the key, the lookup yields nothing.
proof fn lemma_get_entries_missing(fields: Seq<(String, Json)>, key: Seq<char>)
    requires
        forall|j: int| 0 <= j < fields.len() ==> fields[j].0@ != key,
    ensures
        spec_get_entries(fields, key) is None,
    decreases fields.len(),
{
    if fields.len() > 0 {
        lemma_get_entries_missing(fields.drop_first(), key);
    }
}

/// Look a key up among an object's fields.
pub fn get_field<'a>(doc: &'a Json, key: &str) -> (r: Option<&'a Json>)
    ensures
        match r {
            Some(f) => spec_get(*doc, key@) == Some(*f),
            None => spec_get(*doc, key@) is None,
        },
{
    match doc {
        Json::Obj(fields) => {
            proof {
                assert(*doc == Json::Obj(*fields));
            }
            let n = fields.len();
            let mut i: usize = 0;
            while i < n
                invariant
                    *doc == Json::Obj(*fields),
                    n == fields@.len(),
                    i <= n,
                    forall|j: int| 0 <= j < i ==> fields@[j].0@ != key@,
                decreases n - i,
            {
                if str_eq(fields[i].0.as_str(), key) {
                    proof {
                        lemma_get_entries_found(fields@, key@, i as int);
                    }
                    return Some(&fields[i].1);
                }
                i += 1;
            }
            proof {
                lemma_get_entries_missing(fields@, key@);
            }
            None
        }
        _ => None,
    }
}

/// The content of a JSON string.
pub fn as_string(j: &Json) -> (r: Option<String>)
    ensures
        r == spec_str_of(*j),
{
    match j {
        Json::Str(s) => Some(s.clone()),
        _ => None,
    }
}

/// The content of a JSON unsigned integer.
pub fn as_uint(j: &Json) -> (r: Option<u64>)
    ensures
        r == spec_uint_of(*j),
{
    match j {
        Json::UInt(u) => Some(*u),
        _ => None,
    }
}

/// The elements of a JSON array.
pub fn as_array<'a>(j: &'a Json) -> (r: Option<&'a Vec<Json>>)
    ensures
        match r {
            Some(a) => spec_arr_of(*j) == Some(a@),
            None => spec_arr_of(*j) is None,
        },
{
    match j {
        Json::Arr(a) => Some(a),
        _ => None,
    }
}

/// The string under a key of an object, when present and a string.
pub fn get_string_field(doc: &Json, key: &str) -> (r: Option<String>)
    ensures
        r == spec_get_string(*doc, key@),
{
    match get_field(doc, key) {
        Some(f) => as_string(f),
        None => None,
    }
}

/// The integer under a key of an object, when present and an integer.
pub fn get_u64_field(doc: &Json, key: &str) -> (r: Option<u64>)
    ensures
        r == spec_get_uint(*doc, key@),
{
    match get_field(doc, key) {
        Some(f) => as_uint(f),
        None => None,
    }
}

/// Read a JSON array of strings in order; any other shape is refused.
pub fn parse_string_array(j: &Json) -> (r: Option<Vec<String>>)
    ensures
        match r {
            Some(v) => spec_string_array_of(*j) == Some(v@),
            None => spec_string_array_of(*j) is None,
        },
{
    match as_array(j) {
        Some(arr) => {
            let n = arr.len();
            let mut out: Vec<String> = Vec::new();
            let mut i: usize = 0;
            while i < n
                invariant
                    n == arr@.len(),
                    i <= n,
                    out@.len() == i,
                    spec_arr_of(*j) == Some(arr@),
                    forall|k: int| 0 <= k < i ==> (#[trigger] spec_str_of(arr@[k])) is Some,
                    forall|k: int|
                        0 <= k < i ==> #[trigger] out@[k] == spec_str_of(arr@[k])->0,
                decreases n - i,
            {
                let s = match as_string(&arr[i]) {
                    Some(s) => s,
                    None => {
                        return None;
                    }
                };
                proof {
                    assert(spec_str_of(arr@[i as int]) == Some(s));
                }
                out.push(s);
                i += 1;
            }
            proof {
                let ss = spec_string_array_of(*j);
                assert(ss is Some);
                assert(ss->0 =~= out@);
                assert(ss == Some(out@));
            }
            Some(out)
        }
        None => None,
    }
}

} // verus!
