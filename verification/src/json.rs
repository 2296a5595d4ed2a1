//! JSON documents as plain values, read with `serde_json`.

use vstd::prelude::*;

verus! {

/// A JSON value. Object members are kept in the order in which the parser hands them out;
/// a number is kept as its decimal text.
#[derive(Debug)]
pub enum Json {
    Null,
    Bool(bool),
    Number(String),
    Str(String),
    Array(Vec<Json>),
    Object(Vec<(String, Json)>),
}

#[verifier::external_type_specification]
#[verifier::external_body]
pub struct ExJsonValue(serde_json::Value);

/// The document that a text denotes, or `None` where the text is not one JSON document.
pub uninterp spec fn json_document(text: Seq<char>) -> Option<Json>;

/// Copies a `serde_json::Value` into a [`Json`], variant by variant. Nothing is claimed of
/// the copy.
#[verifier::external_body]
fn json_from_value(value: serde_json::Value) -> Json {
    match value {
        serde_json::Value::Null => Json::Null,
        serde_json::Value::Bool(b) => Json::Bool(b),
        serde_json::Value::Number(n) => Json::Number(n.to_string()),
        serde_json::Value::String(s) => Json::Str(s),
        serde_json::Value::Array(items) => Json::Array(items.into_iter().map(json_from_value).collect()),
        serde_json::Value::Object(members) => Json::Object(
            members.into_iter().map(|(k, v)| (k, json_from_value(v))).collect(),
        ),
    }
}

/// Calls `serde_json::from_str` for a `serde_json::Value`. The claim: whether the call
/// succeeds, and the value it yields, depend on the text alone, so the outcome is the
/// named document of that text.
#[verifier::external_body]
pub(crate) fn parse_json(text: &str) -> (document: Option<Json>)
    ensures
        document == json_document(text@),
{
    match serde_json::from_str::<serde_json::Value>(text) {
        Ok(value) => Some(json_from_value(value)),
        Err(_) => None,
    }
}

/// The value of the first member of `members` whose name is `key`.
pub open spec fn member(members: Seq<(String, Json)>, key: Seq<char>) -> Option<Json>
    decreases members.len(),
{
    if members.len() == 0 {
        None
    } else if members[0].0@ == key {
        Some(members[0].1)
    } else {
        member(members.drop_first(), key)
    }
}

/// Looks a member of an object up by its name.
pub fn get_member<'a>(members: &'a Vec<(String, Json)>, key: &str) -> (found: Option<&'a Json>)
    ensures
        found == match member(members@, key@) {
            Some(value) => Some(&value),
            None => None,
        },
{
    let wanted = key.to_owned();
    let mut i: usize = 0;
    assert(members@.skip(0) =~= members@);
    while i < members.len()
        invariant
            i <= members.len(),
            wanted@ == key@,
            member(members@, key@) == member(members@.skip(i as int), key@),
        decreases members.len() - i,
    {
        if members[i].0 == wanted {
            assert(members@.skip(i as int)[0] == members@[i as int]);
            return Some(&members[i].1);
        }
        assert(members@.skip(i as int).drop_first() == members@.skip(i as int + 1));
        i += 1;
    }
    None
}

} // verus!
