//! The library's model of a JSON document, and the trusted bridge that
//! obtains one from JSON text.
//!
//! Numbers the login logic reads are unsigned integers; a number outside
//! that range (negative or fractional) is kept only as a marker, which the
//! extraction logic treats as absent — matching a reader that asks for an
//! unsigned integer and falls back on failure.

use vstd::prelude::*;

use crate::text::str_eq;

verus! {

/// A JSON value.
#[derive(Debug)]
pub enum JsonValue {
    Null,
    Bool(bool),
    UInt(u64),
    NumOther,
    Text(String),
    Array(Vec<JsonValue>),
    Object(Vec<(String, JsonValue)>),
}

/// First member under `key` among the pairs at positions `i` and later.
pub open spec fn obj_get_from(
    pairs: Seq<(String, JsonValue)>,
    key: Seq<char>,
    i: int,
) -> Option<JsonValue>
    decreases pairs.len() - i,
{
    if i < 0 || i >= pairs.len() {
        None
    } else if pairs[i].0@ == key {
        Some(pairs[i].1)
    } else {
        obj_get_from(pairs, key, i + 1)
    }
}

/// The member of a JSON object under `key`: the first pair with that key.
pub open spec fn obj_get(pairs: Seq<(String, JsonValue)>, key: Seq<char>) -> Option<JsonValue> {
    obj_get_from(pairs, key, 0)
}

/// Looks `key` up among an object's members, returning the first match.
pub fn obj_find<'a>(pairs: &'a Vec<(String, JsonValue)>, key: &str) -> (r: Option<&'a JsonValue>)
    ensures
        match r {
            Some(v) => obj_get(pairs@, key@) == Some(*v),
            None => obj_get(pairs@, key@) is None,
        },
{
    let mut i: usize = 0;
    while i < pairs.len()
        invariant
            i <= pairs@.len(),
            obj_get(pairs@, key@) == obj_get_from(pairs@, key@, i as int),
        decreases pairs@.len() - i,
    {
        if str_eq(pairs[i].0.as_str(), key) {
            return Some(&pairs[i].1);
        }
        i += 1;
    }
    None
}

/// Declares `serde_json::Value`, the parser's own tree type, so that the
/// conversion into the library's value type can be stated; the type stays
/// opaque and no logic reads it directly.
#[verifier::external_type_specification]
#[verifier::external_body]
pub struct ExValue(serde_json::Value);

/// The document that parsing a piece of JSON text yields, if the text is
/// valid JSON: the result of `serde_json::from_str`, rebuilt as the
/// library's value type. It depends on the text alone.
pub uninterp spec fn json_of(s: Seq<char>) -> Option<JsonValue>;

/// Rebuilds a `serde_json` tree as the library's value type, one arm per
/// variant: numbers through `serde_json::Number::as_u64`, arrays and objects
/// member by member. Only `parse_json` calls it.
#[verifier::external_body]
fn value_model(v: serde_json::Value) -> JsonValue {
    match v {
        serde_json::Value::Null => JsonValue::Null,
        serde_json::Value::Bool(b) => JsonValue::Bool(b),
        serde_json::Value::Number(n) => match n.as_u64() {
            Some(u) => JsonValue::UInt(u),
            None => JsonValue::NumOther,
        },
        serde_json::Value::String(s) => JsonValue::Text(s),
        serde_json::Value::Array(a) => JsonValue::Array(a.into_iter().map(value_model).collect()),
        serde_json::Value::Object(m) => JsonValue::Object(
            m.into_iter().map(|p| (p.0, value_model(p.1))).collect(),
        ),
    }
}

/// Relies on `serde_json::from_str`: it returns the parsed document exactly
/// when the text is valid JSON, and a message describing the fault
/// otherwise. `json_of` names the rebuilt document.
#[verifier::external_body]
pub fn parse_json(s: &str) -> (r: Result<JsonValue, String>)
    ensures
        match r {
            Ok(v) => json_of(s@) == Some(v),
            Err(_) => json_of(s@) is None,
        },
{
    match serde_json::from_str::<serde_json::Value>(s) {
        Ok(v) => Ok(value_model(v)),
        Err(e) => Err(e.to_string()),
    }
}

/// Dropping the pair at position `i` shifts the scan by one place.
proof fn lemma_obj_get_from_shift(
    pairs: Seq<(String, JsonValue)>,
    key: Seq<char>,
    i: int,
    j: int,
)
    requires
        0 <= i <= j,
        i < pairs.len(),
    ensures
        obj_get_from(pairs.remove(i), key, j) == obj_get_from(pairs, key, j + 1),
    decreases pairs.len() - j,
{
    pairs.remove_ensures(i);
    let rem = pairs.remove(i);
    if j < rem.len() {
        if pairs[j + 1].0@ != key {
            lemma_obj_get_from_shift(pairs, key, i, j + 1);
        }
    }
}

/// Dropping a pair whose key is not `key` leaves the lookup of `key` as it was.
proof fn lemma_obj_get_remove(pairs: Seq<(String, JsonValue)>, key: Seq<char>, i: int, j: int)
    requires
        0 <= j <= i < pairs.len(),
        pairs[i].0@ != key,
    ensures
        obj_get_from(pairs.remove(i), key, j) == obj_get_from(pairs, key, j),
    decreases i - j,
{
    pairs.remove_ensures(i);
    if j < i {
        if pairs[j].0@ != key {
            lemma_obj_get_remove(pairs, key, i, j + 1);
        }
    } else {
        lemma_obj_get_from_shift(pairs, key, i, i);
    }
}

/// Removes the first member under `key` and returns its value; the lookup of
/// every other key is unchanged.
pub fn obj_take(pairs: &mut Vec<(String, JsonValue)>, key: &str) -> (r: Option<JsonValue>)
    ensures
        r == obj_get(old(pairs)@, key@),
        forall|k2: Seq<char>|
            k2 != key@ ==> #[trigger] obj_get(final(pairs)@, k2) == obj_get(old(pairs)@, k2),
{
    let mut i: usize = 0;
    while i < pairs.len()
        invariant
            i <= pairs@.len(),
            pairs@ == old(pairs)@,
            obj_get(pairs@, key@) == obj_get_from(pairs@, key@, i as int),
        decreases pairs@.len() - i,
    {
        if str_eq(pairs[i].0.as_str(), key) {
            let p = pairs.remove(i);
            proof {
                assert forall|k2: Seq<char>| k2 != key@ implies #[trigger] obj_get(
                    pairs@,
                    k2,
                ) == obj_get(old(pairs)@, k2) by {
                    lemma_obj_get_remove(old(pairs)@, k2, i as int, 0);
                }
            }
            return Some(p.1);
        }
        i += 1;
    }
    None
}

} // verus!
