//! A plain model of the JSON documents the relay returns, obtained through
//! serde_json. The library inspects documents only through this model; what it
//! reads of them — field lookup — is verified code.

use vstd::prelude::*;

verus! {

/// A parsed JSON document. Numbers that are integers fitting `i64` keep their
/// value; any other number is `NonInt`. Object entries keep the order in which
/// serde_json's map hands them out.
pub enum Json {
    Null,
    Bool(bool),
    Int(i64),
    NonInt,
    Str(String),
    Arr(Vec<Json>),
    Obj(Vec<(String, Json)>),
}

/// The document a string denotes as JSON, `None` where it is not valid JSON.
/// It depends on the string alone; `parse_json` is the one function that
/// produces it.
pub uninterp spec fn json_of(s: Seq<char>) -> Option<Json>;

/// Declares serde_json's document type, so that the conversion below can
/// take it; the library never looks inside a value of it.
#[verifier::external_type_specification]
#[verifier::external_body]
pub struct ExJsonValue(serde_json::Value);

/// Declares serde_json's number type, for the same purpose.
#[verifier::external_type_specification]
#[verifier::external_body]
pub struct ExJsonNumber(serde_json::Number);

/// Relies on serde_json::Number::as_i64: `Some` exactly for an integer that
/// fits in `i64`, holding its value.
#[verifier::external_body]
fn json_from_number(n: &serde_json::Number) -> Json {
    match n.as_i64() {
        Some(i) => Json::Int(i),
        None => Json::NonInt,
    }
}

/// Relies on serde_json::Value: one arm per variant, fields carried over one
/// to one; object entries come out in the map's iteration order.
#[verifier::external_body]
fn json_from_value(v: &serde_json::Value) -> Json {
    match v {
        serde_json::Value::Null => Json::Null,
        serde_json::Value::Bool(b) => Json::Bool(*b),
        serde_json::Value::Number(n) => json_from_number(n),
        serde_json::Value::String(s) => Json::Str(s.clone()),
        serde_json::Value::Array(a) => Json::Arr(a.iter().map(json_from_value).collect()),
        serde_json::Value::Object(m) => Json::Obj(
            m.iter().map(|(k, x)| (k.clone(), json_from_value(x))).collect(),
        ),
    }
}

/// Relies on serde_json::from_str: whether a string is valid JSON, and the
/// document it denotes, depend on the string alone.
#[verifier::external_body]
pub(crate) fn parse_json(s: &str) -> (r: Option<Json>)
    ensures
        r == json_of(s@),
{
    match serde_json::from_str::<serde_json::Value>(s) {
        Ok(v) => Some(json_from_value(&v)),
        Err(_) => None,
    }
}

/// Character-for-character string equality.
pub fn str_eq(a: &str, b: &str) -> (r: bool)
    ensures
        r == (a@ == b@),
{
    let la = a.unicode_len();
    let lb = b.unicode_len();
    if la != lb {
        return false;
    }
    let mut i: usize = 0;
    while i < la
        invariant
            i <= la,
            la == a@.len(),
            la == b@.len(),
            forall|j: int| 0 <= j < i ==> a@[j] == b@[j],
        decreases la - i,
    {
        if a.get_char(i) != b.get_char(i) {
            return false;
        }
        i = i + 1;
    }
    proof {
        assert(a@ =~= b@);
    }
    true
}

/// The value under `key` in an object's field list: the first binding with
/// that name, `None` where the name does not occur.
pub open spec fn lookup(fields: Seq<(String, Json)>, key: Seq<char>) -> Option<Json>
    decreases fields.len(),
{
    if fields.len() == 0 {
        None
    } else if fields[0].0@ == key {
        Some(fields[0].1)
    } else {
        lookup(fields.drop_first(), key)
    }
}

/// Finds the first binding named `key` in an object's field list.
pub fn lookup_field<'a>(fields: &'a Vec<(String, Json)>, key: &str) -> (r: Option<&'a Json>)
    ensures
        match r {
            Some(j) => lookup(fields@, key@) == Some(*j),
            None => lookup(fields@, key@) is None,
        },
{
    let mut i: usize = 0;
    proof {
        assert(fields@.skip(0) =~= fields@);
    }
    while i < fields.len()
        invariant
            i <= fields@.len(),
            lookup(fields@, key@) == lookup(fields@.skip(i as int), key@),
        decreases fields@.len() - i,
    {
        proof {
            assert(fields@.skip(i as int)[0] == fields@[i as int]);
            assert(fields@.skip(i as int).drop_first() =~= fields@.skip(i as int + 1));
        }
        if str_eq(fields[i].0.as_str(), key) {
            return Some(&fields[i].1);
        }
        i = i + 1;
    }
    proof {
        assert(fields@.skip(fields@.len() as int) =~= Seq::<(String, Json)>::empty());
    }
    None
}

} // verus!
