//! A model of a parsed JSON document, and the trusted boundary to serde_json.
//!
//! The library never inspects a `serde_json::Value` directly: the trusted
//! [`parse_json`] wrapper turns the text into a [`Json`] value of this crate,
//! and everything downstream of it is verified against that model.

use vstd::prelude::*;

verus! {

/// A JSON document, reduced to what this library can observe of it.
///
/// Numbers that fit an `i64` are kept exactly; any other number (a fraction,
/// or an integer beyond the `i64` range) is collapsed to [`Json::OtherNumber`],
/// which no schema of this library accepts.
#[derive(Debug, PartialEq)]
pub enum Json {
    Null,
    Bool(bool),
    Int(i64),
    OtherNumber,
    Text(String),
    Array(Vec<Json>),
    Object(Vec<(String, Json)>),
}

/// Whether serde_json accepts `data` as a JSON document: a fixed function of
/// the bytes alone.
pub uninterp spec fn json_accepted(data: Seq<u8>) -> bool;

/// The [`Json`] model of the document that serde_json parses out of `data`,
/// meaningful when `json_accepted(data)` holds: a fixed function of the bytes
/// alone. Object keys come out deduplicated (the last occurrence of a key
/// wins) and in key order.
pub uninterp spec fn json_model(data: Seq<u8>) -> Json;

#[verifier::external_type_specification]
#[verifier::external_body]
pub struct ExValue(serde_json::Value);

/// Relies on serde_json::Value: converts the parsed tree into the [`Json`]
/// model, variant by variant; a number is kept only when `Number::as_i64`
/// represents it exactly, and objects come out of serde_json's map with
/// deduplicated keys in key order.
#[verifier::external_body]
fn value_to_json(v: serde_json::Value) -> Json {
    match v {
        serde_json::Value::Null => Json::Null,
        serde_json::Value::Bool(b) => Json::Bool(b),
        serde_json::Value::Number(n) => match n.as_i64() {
            Some(i) => Json::Int(i),
            None => Json::OtherNumber,
        },
        serde_json::Value::String(s) => Json::Text(s),
        serde_json::Value::Array(xs) => Json::Array(xs.into_iter().map(value_to_json).collect()),
        serde_json::Value::Object(m) => Json::Object(
            m.into_iter().map(|(k, x)| (k, value_to_json(x))).collect(),
        ),
    }
}

/// Relies on serde_json::from_slice: it accepts exactly the well-formed JSON
/// documents (a fixed function of the bytes), and the parsed tree is a fixed
/// function of the bytes too; [`value_to_json`] reduces it to the model.
#[verifier::external_body]
pub fn parse_json(data: &[u8]) -> (r: Option<Json>)
    ensures
        r is Some <==> json_accepted(data@),
        r matches Some(j) ==> j == json_model(data@),
{
    serde_json::from_slice::<serde_json::Value>(data).ok().map(value_to_json)
}

/// The value of the first field named `key`, scanning left to right.
pub open spec fn obj_lookup(fields: Seq<(String, Json)>, key: Seq<char>) -> Option<Json>
    decreases fields.len(),
{
    if fields.len() == 0 {
        None
    } else if fields[0].0@ == key {
        Some(fields[0].1)
    } else {
        obj_lookup(fields.drop_first(), key)
    }
}

/// Looks a field up by name among the fields of a JSON object.
pub fn find_field<'a>(fields: &'a Vec<(String, Json)>, key: &String) -> (r: Option<&'a Json>)
    ensures
        match r {
            Some(v) => obj_lookup(fields@, key@) == Some(*v),
            None => obj_lookup(fields@, key@) is None,
        },
{
    let mut i: usize = 0;
    proof {
        assert(fields@.skip(0) =~= fields@);
    }
    while i < fields.len()
        invariant
            i <= fields@.len(),
            obj_lookup(fields@, key@) == obj_lookup(fields@.skip(i as int), key@),
        decreases fields@.len() - i,
    {
        if fields[i].0 == *key {
            assert(fields@.skip(i as int)[0] == fields@[i as int]);
            return Some(&fields[i].1);
        }
        proof {
            assert(fields@.skip(i as int).drop_first() =~= fields@.skip(i + 1));
            assert(fields@.skip(i as int)[0] == fields@[i as int]);
        }
        i = i + 1;
    }
    None
}

} // verus!
