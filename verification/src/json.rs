//! JSON, one level at a time.
//!
//! The engine carries JSON as text and never builds a tree of it. Where a
//! decision depends on what a text holds, the text is opened: that tells
//! what kind of value it is and, for an array or an object, gives the
//! values inside, each again as text. Reading the text is left to
//! `serde_json`.

use serde_json::Value;
use vstd::prelude::*;

use crate::text::{chars_of, equal_chars};

verus! {

/// One member of an object: its key, and its value as compact JSON text.
#[derive(Debug)]
pub struct JsonMember {
    pub key: String,
    pub value: String,
}

/// What a JSON text holds at its top level.
#[derive(Debug)]
pub enum JsonNode {
    Null,
    Bool(bool),
    /// A number, and the integer that it is if it is one that fits 64
    /// signed bits.
    Number(Option<i64>),
    Text(String),
    /// The elements, in order, each as compact JSON text.
    Array(Vec<String>),
    /// The members, in the order in which `serde_json` keeps them.
    Object(Vec<JsonMember>),
}

/// [`JsonNode`] as a mathematical value.
pub enum JsonShape {
    Null,
    Bool(bool),
    Number(Option<i64>),
    Text(Seq<char>),
    Array(Seq<Seq<char>>),
    Object(Seq<(Seq<char>, Seq<char>)>),
}

/// The texts of a list of strings.
pub open spec fn texts(items: Seq<String>) -> Seq<Seq<char>> {
    Seq::new(items.len(), |i: int| items[i]@)
}

/// The keys and values of a list of members.
pub open spec fn pairs(members: Seq<JsonMember>) -> Seq<(Seq<char>, Seq<char>)> {
    Seq::new(members.len(), |i: int| (members[i].key@, members[i].value@))
}

impl View for JsonNode {
    type V = JsonShape;

    open spec fn view(&self) -> JsonShape {
        match self {
            JsonNode::Null => JsonShape::Null,
            JsonNode::Bool(b) => JsonShape::Bool(*b),
            JsonNode::Number(n) => JsonShape::Number(*n),
            JsonNode::Text(s) => JsonShape::Text(s@),
            JsonNode::Array(items) => JsonShape::Array(texts(items@)),
            JsonNode::Object(members) => JsonShape::Object(pairs(members@)),
        }
    }
}

/// What `serde_json` makes of a text: the top level of the value that the
/// text holds, or the message of the error with which it refuses the text.
pub uninterp spec fn json_opened(text: Seq<char>) -> Result<JsonShape, Seq<char>>;

/// `serde_json::from_str` into a `serde_json::Value`, and the top level of
/// that value: its variant, with each element of an array and each value
/// of an object written out again by the value's `Display`, which is compact
/// JSON. A text that is refused gives the error's own message. The result
/// depends on the text alone.
#[verifier::external_body]
pub(crate) fn open_json(text: &str) -> (r: Result<JsonNode, String>)
    ensures
        match r {
            Ok(node) => json_opened(text@) == Ok::<JsonShape, Seq<char>>(node@),
            Err(message) => json_opened(text@) == Err::<JsonShape, Seq<char>>(message@),
        },
{
    let value = serde_json::from_str::<Value>(text).map_err(|e| e.to_string())?;
    Ok(match value {
        Value::Null => JsonNode::Null,
        Value::Bool(b) => JsonNode::Bool(b),
        Value::Number(n) => JsonNode::Number(n.as_i64()),
        Value::String(s) => JsonNode::Text(s),
        Value::Array(a) => JsonNode::Array(a.iter().map(|v| v.to_string()).collect()),
        Value::Object(o) => JsonNode::Object(
            o.iter().map(|(k, v)| JsonMember { key: k.clone(), value: v.to_string() }).collect(),
        ),
    })
}

/// Position of the first member with the given key.
pub open spec fn member_at(members: Seq<(Seq<char>, Seq<char>)>, key: Seq<char>, i: int) -> bool {
    &&& 0 <= i < members.len()
    &&& members[i].0 == key
    &&& forall|j: int| 0 <= j < i ==> members[j].0 != key
}

/// The value of the first member with the given key, as text.
pub open spec fn member_value(members: Seq<(Seq<char>, Seq<char>)>, key: Seq<char>) -> Option<
    Seq<char>,
>
    decreases members.len(),
{
    if members.len() == 0 {
        None
    } else if members[0].0 == key {
        Some(members[0].1)
    } else {
        member_value(members.drop_first(), key)
    }
}

/// The first member with the given key, by its position.
pub fn find_member(members: &Vec<JsonMember>, key: &str) -> (r: Option<usize>)
    ensures
        match r {
            Some(i) => member_at(pairs(members@), key@, i as int) && member_value(
                pairs(members@),
                key@,
            ) == Some(members@[i as int].value@),
            None => member_value(pairs(members@), key@) is None && forall|j: int|
                0 <= j < members@.len() ==> members@[j].key@ != key@,
        },
{
    let wanted = chars_of(key);
    let mut i: usize = 0;
    assert(pairs(members@).subrange(0, members@.len() as int) =~= pairs(members@));
    while i < members.len()
        invariant
            i <= members@.len(),
            wanted@ == key@,
            forall|j: int| 0 <= j < i ==> members@[j].key@ != key@,
            member_value(pairs(members@), key@) == member_value(
                pairs(members@).subrange(i as int, members@.len() as int),
                key@,
            ),
        decreases members@.len() - i,
    {
        let ghost rest = pairs(members@).subrange(i as int, members@.len() as int);
        assert(rest[0] == pairs(members@)[i as int]);
        assert(rest.drop_first() =~= pairs(members@).subrange(i + 1, members@.len() as int));
        let own = chars_of(members[i].key.as_str());
        if equal_chars(&own, &wanted) {
            assert(member_at(pairs(members@), key@, i as int));
            return Some(i);
        }
        i += 1;
    }
    assert(pairs(members@).subrange(i as int, members@.len() as int).len() == 0);
    None
}

/// The string that an opened text holds, if it holds one and was not
/// refused.
pub open spec fn shape_string(opened: Result<JsonShape, Seq<char>>) -> Option<Seq<char>> {
    match opened {
        Ok(JsonShape::Text(s)) => Some(s),
        _ => None,
    }
}

/// The string that an opened text holds, if it holds one and was not
/// refused.
pub fn node_string(opened: Result<JsonNode, String>) -> (r: Option<String>)
    ensures
        match r {
            Some(s) => opened matches Ok(JsonNode::Text(t)) && s == t,
            None => !(opened matches Ok(JsonNode::Text(_))),
        },
{
    match opened {
        Ok(JsonNode::Text(s)) => Some(s),
        _ => None,
    }
}

/// The string under `key` of an object: the value of the first member with
/// that key, if that value is a JSON string.
pub open spec fn member_string(members: Seq<(Seq<char>, Seq<char>)>, key: Seq<char>) -> Option<
    Seq<char>,
> {
    match member_value(members, key) {
        Some(text) => shape_string(json_opened(text)),
        None => None,
    }
}

/// The string under `key` of an object, if there is one.
pub fn string_member(members: &Vec<JsonMember>, key: &str) -> (r: Option<String>)
    ensures
        match r {
            Some(s) => member_string(pairs(members@), key@) == Some(s@),
            None => member_string(pairs(members@), key@) is None,
        },
{
    match find_member(members, key) {
        Some(i) => node_string(open_json(members[i].value.as_str())),
        None => None,
    }
}

/// The integer under `key` of an object: the value of the first member
/// with that key, if that value is an integer of 64 signed bits.
pub open spec fn member_integer(members: Seq<(Seq<char>, Seq<char>)>, key: Seq<char>) -> Option<
    i64,
> {
    match member_value(members, key) {
        Some(text) => match json_opened(text) {
            Ok(JsonShape::Number(n)) => n,
            _ => None,
        },
        None => None,
    }
}

/// The integer under `key` of an object, if there is one.
pub fn integer_member(members: &Vec<JsonMember>, key: &str) -> (r: Option<i64>)
    ensures
        r == member_integer(pairs(members@), key@),
{
    match find_member(members, key) {
        Some(i) => match open_json(members[i].value.as_str()) {
            Ok(JsonNode::Number(n)) => n,
            _ => None,
        },
        None => None,
    }
}

} // verus!
