//! A plain-value model of parsed JSON documents, and the trusted bridge that
//! obtains one from the JSON parser. The configuration resolver reads
//! persisted settings through this model only.
use vstd::prelude::*;

verus! {

/// A JSON document as plain values. A number is kept as its `i64` value when
/// it has one, and as `None` otherwise (a fraction, or an integer out of
/// range): the resolver only ever needs integers. An object keeps its
/// key-deduplicated entries in the parser's order.
#[derive(Debug)]
pub enum Json {
    Null,
    Bool(bool),
    Num(Option<i64>),
    Str(String),
    Arr(Vec<Json>),
    Obj(Vec<(String, Json)>),
}

#[verifier::external_type_specification]
#[verifier::external_body]
pub struct ExJsonValue(serde_json::Value);

/// What the JSON parser makes of a document: `None` when the text is not
/// valid JSON, else the parsed tree. The result depends on the text alone.
pub uninterp spec fn parsed_json(s: Seq<char>) -> Option<Json>;

/// Relies on `serde_json::Value::as_i64`, `clone`, and the variants of
/// `serde_json::Value`: rebuilds the parsed tree as plain values, variant by
/// variant, in the order the parser's map keeps its keys.
#[verifier::external_body]
fn value_to_json(v: &serde_json::Value) -> Json {
    match v {
        serde_json::Value::Null => Json::Null,
        serde_json::Value::Bool(b) => Json::Bool(*b),
        serde_json::Value::Number(n) => Json::Num(n.as_i64()),
        serde_json::Value::String(s) => Json::Str(s.clone()),
        serde_json::Value::Array(a) => Json::Arr(a.iter().map(value_to_json).collect()),
        serde_json::Value::Object(m) => Json::Obj(
            m.iter().map(|(k, x)| (k.clone(), value_to_json(x))).collect(),
        ),
    }
}

/// Relies on `serde_json::from_str::<serde_json::Value>`: parses the document
/// or reports failure; the outcome is a function of the text alone.
#[verifier::external_body]
pub(crate) fn parse_json(s: &str) -> (r: Option<Json>)
    ensures
        r == parsed_json(s@),
{
    match serde_json::from_str::<serde_json::Value>(s) {
        Ok(v) => Some(value_to_json(&v)),
        Err(_) => None,
    }
}

/// The value under `key` among an object's entries: the first match.
pub open spec fn obj_get(fields: Seq<(String, Json)>, key: Seq<char>) -> Option<Json>
    decreases fields.len(),
{
    if fields.len() == 0 {
        None
    } else if fields[0].0@ == key {
        Some(fields[0].1)
    } else {
        obj_get(fields.drop_first(), key)
    }
}

/// The value under `key` when the document is an object; nothing otherwise.
pub open spec fn json_get(j: Json, key: Seq<char>) -> Option<Json> {
    match j {
        Json::Obj(fields) => obj_get(fields@, key),
        _ => None,
    }
}

/// Whether two string slices hold the same characters.
pub fn str_eq(a: &str, b: &str) -> (r: bool)
    ensures
        r == (a@ == b@),
{
    let n = a.unicode_len();
    if n != b.unicode_len() {
        return false;
    }
    let mut i: usize = 0;
    while i < n
        invariant
            0 <= i <= n,
            n == a@.len(),
            n == b@.len(),
            forall|j: int| 0 <= j < i ==> a@[j] == b@[j],
        decreases n - i,
    {
        if a.get_char(i) != b.get_char(i) {
            return false;
        }
        i = i + 1;
    }
    proof {
        assert(a@ =~= b@);
    }
    true
}

/// Looks `key` up among an object's entries.
pub fn fields_get<'a>(fields: &'a Vec<(String, Json)>, key: &str) -> (r: Option<&'a Json>)
    ensures
        match r {
            Some(v) => obj_get(fields@, key@) == Some(*v),
            None => obj_get(fields@, key@) is None,
        },
{
    let n = fields.len();
    let mut i: usize = 0;
    proof {
        assert(fields@.skip(0) =~= fields@);
    }
    while i < n
        invariant
            0 <= i <= n,
            n == fields@.len(),
            obj_get(fields@, key@) == obj_get(fields@.skip(i as int), key@),
        decreases n - i,
    {
        proof {
            assert(fields@.skip(i as int)[0] == fields@[i as int]);
            assert(fields@.skip(i as int).drop_first() =~= fields@.skip(i + 1 as int));
        }
        if str_eq(fields[i].0.as_str(), key) {
            return Some(&fields[i].1);
        }
        i = i + 1;
    }
    proof {
        assert(fields@.skip(n as int) =~= Seq::<(String, Json)>::empty());
    }
    None
}

/// Looks `key` up in a document, as reading a field of a JSON object does:
/// present only when the document is an object holding the key.
pub fn lookup<'a>(j: &'a Json, key: &str) -> (r: Option<&'a Json>)
    ensures
        match r {
            Some(v) => json_get(*j, key@) == Some(*v),
            None => json_get(*j, key@) is None,
        },
{
    match j {
        Json::Obj(fields) => fields_get(fields, key),
        _ => None,
    }
}

} // verus!
