//! JSON documents as the library sees them, and the one call into serde_json
//! that produces them.
use vstd::prelude::*;

verus! {

#[verifier::external_type_specification]
#[verifier::external_body]
pub struct ExValue(serde_json::Value);

/// A JSON number: the text that serde_json renders for it, and its value when
/// it is a non-negative integer that fits in a `u64`.
pub struct JsonNumber {
    pub text: String,
    pub unsigned: Option<u64>,
}

/// A JSON value. Object members keep serde_json's order and unique keys.
pub enum Json {
    Null,
    Bool(bool),
    Number(JsonNumber),
    Str(String),
    Array(Vec<Json>),
    Object(Vec<(String, Json)>),
}

/// The value that serde_json reads from `text`, or `None` where it rejects the
/// text as JSON.
pub uninterp spec fn json_parse(text: Seq<char>) -> Option<Json>;

/// Relies on `serde_json::from_str::<serde_json::Value>`: the outcome is a
/// function of the text alone; its error is kept as serde_json's message.
#[verifier::external_body]
pub(crate) fn parse_json(text: &str) -> (r: Result<Json, String>)
    ensures
        r is Ok <==> json_parse(text@) is Some,
        r matches Ok(v) ==> json_parse(text@) == Some(v),
{
    match serde_json::from_str::<serde_json::Value>(text) {
        Ok(v) => Ok(json_from_value(v)),
        Err(e) => Err(e.to_string()),
    }
}

/// Moves serde_json's tree into `Json`, one node for one node; the number text
/// is serde_json's `Display` of the number and `unsigned` its `as_u64`.
#[verifier::external_body]
fn json_from_value(v: serde_json::Value) -> Json {
    match v {
        serde_json::Value::Null => Json::Null,
        serde_json::Value::Bool(b) => Json::Bool(b),
        serde_json::Value::Number(n) => Json::Number(JsonNumber { text: n.to_string(), unsigned: n.as_u64() }),
        serde_json::Value::String(s) => Json::Str(s),
        serde_json::Value::Array(a) => Json::Array(a.into_iter().map(json_from_value).collect()),
        serde_json::Value::Object(m) => Json::Object(m.into_iter().map(|(k, c)| (k, json_from_value(c))).collect()),
    }
}

/// The value of the first member of `entries` named `key`.
pub open spec fn field(entries: Seq<(String, Json)>, key: Seq<char>) -> Option<Json>
    decreases entries.len(),
{
    if entries.len() == 0 {
        None
    } else if entries[0].0@ == key {
        Some(entries[0].1)
    } else {
        field(entries.drop_first(), key)
    }
}

/// The value behind an optional reference.
pub open spec fn deref(v: Option<&Json>) -> Option<Json> {
    match v {
        Some(j) => Some(*j),
        None => None,
    }
}

/// The member named `key` of `v`, where `v` is an object that has one.
pub open spec fn member(v: Option<Json>, key: Seq<char>) -> Option<Json> {
    match v {
        Some(Json::Object(entries)) => field(entries@, key),
        _ => None,
    }
}

/// The first element of `v`, where `v` is a non-empty array.
pub open spec fn first_element(v: Option<Json>) -> Option<Json> {
    match v {
        Some(Json::Array(items)) => if items@.len() > 0 {
            Some(items@[0])
        } else {
            None
        },
        _ => None,
    }
}

/// Looks up the first member of `entries` named `key`.
pub fn find_field<'a>(entries: &'a Vec<(String, Json)>, key: &String) -> (r: Option<&'a Json>)
    ensures
        r is Some <==> field(entries@, key@) is Some,
        r matches Some(v) ==> field(entries@, key@) == Some(*v),
{
    let n = entries.len();
    let mut i: usize = 0;
    assert(entries@.subrange(0, n as int) =~= entries@);
    while i < n
        invariant
            n == entries@.len(),
            i <= n,
            field(entries@, key@) == field(entries@.subrange(i as int, n as int), key@),
        decreases n - i,
    {
        assert(entries@.subrange(i as int, n as int).drop_first() =~= entries@.subrange(
            i + 1,
            n as int,
        ));
        if entries[i].0 == *key {
            return Some(&entries[i].1);
        }
        i = i + 1;
    }
    None
}

/// The member named `key` of `v`, where `v` is an object that has one.
pub fn member_of<'a>(v: Option<&'a Json>, key: &String) -> (r: Option<&'a Json>)
    ensures
        r is Some <==> member(deref(v), key@) is Some,
        r matches Some(x) ==> member(deref(v), key@) == Some(*x),
{
    match v {
        Some(Json::Object(entries)) => find_field(entries, key),
        _ => None,
    }
}

/// The first element of `v`, where `v` is a non-empty array.
pub fn first_of<'a>(v: Option<&'a Json>) -> (r: Option<&'a Json>)
    ensures
        r is Some <==> first_element(deref(v)) is Some,
        r matches Some(x) ==> first_element(deref(v)) == Some(*x),
{
    match v {
        Some(Json::Array(items)) => if items.len() > 0 {
            Some(&items[0])
        } else {
            None
        },
        _ => None,
    }
}

} // verus!
