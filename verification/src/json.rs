//! A JSON document as plain values, with the lookups that the client reads
//! responses by.
use vstd::prelude::*;
use crate::text::same_text;

verus! {

/// A JSON number: an unsigned integer, a negative integer, or any other
/// number, which is kept as its decimal text.
#[derive(Clone, Debug)]
pub enum JsonNumber {
    PosInt(u64),
    NegInt(i64),
    Float(String),
}

/// One member of a JSON object.
#[derive(Debug)]
pub struct JsonMember {
    pub key: String,
    pub value: JsonValue,
}

/// A JSON value. The members of an object keep the order in which they were
/// given.
#[derive(Debug)]
pub enum JsonValue {
    Null,
    Bool(bool),
    Number(JsonNumber),
    Str(String),
    Array(Vec<JsonValue>),
    Object(Vec<JsonMember>),
}

/// The value of the first member named `key`, if any.
pub open spec fn member_value(members: Seq<JsonMember>, key: Seq<char>) -> Option<JsonValue>
    decreases members.len(),
{
    if members.len() == 0 {
        None
    } else if members[0].key@ == key {
        Some(members[0].value)
    } else {
        member_value(members.drop_first(), key)
    }
}

/// The value under `key` when `v` is an object that has such a member.
pub open spec fn json_get(v: JsonValue, key: Seq<char>) -> Option<JsonValue> {
    match v {
        JsonValue::Object(members) => member_value(members@, key),
        _ => None,
    }
}

/// The text of `v` when it is a string.
pub open spec fn json_str(v: JsonValue) -> Option<Seq<char>> {
    match v {
        JsonValue::Str(s) => Some(s@),
        _ => None,
    }
}

/// The text under `key` when it is a string.
pub open spec fn str_at(v: JsonValue, key: Seq<char>) -> Option<Seq<char>> {
    match json_get(v, key) {
        Some(JsonValue::Str(s)) => Some(s@),
        _ => None,
    }
}

/// The elements under `key` when it is an array.
pub open spec fn array_at(v: JsonValue, key: Seq<char>) -> Option<Seq<JsonValue>> {
    match json_get(v, key) {
        Some(JsonValue::Array(items)) => Some(items@),
        _ => None,
    }
}

/// The boolean under `key` when it is one.
pub open spec fn bool_at(v: JsonValue, key: Seq<char>) -> Option<bool> {
    match json_get(v, key) {
        Some(JsonValue::Bool(b)) => Some(b),
        _ => None,
    }
}

/// The number under `key` when it is an integer that fits in 64 unsigned bits.
pub open spec fn u64_at(v: JsonValue, key: Seq<char>) -> Option<u64> {
    match json_get(v, key) {
        Some(JsonValue::Number(JsonNumber::PosInt(n))) => Some(n),
        _ => None,
    }
}

/// Looks up the first member named `key` of an object.
pub fn member<'a>(members: &'a Vec<JsonMember>, key: &str) -> (r: Option<&'a JsonValue>)
    ensures
        r is Some == member_value(members@, key@) is Some,
        r is Some ==> *r->0 == member_value(members@, key@)->0,
{
    let mut i: usize = 0;
    assert(members@.skip(0) =~= members@);
    while i < members.len()
        invariant
            i <= members.len(),
            member_value(members@, key@) == member_value(members@.skip(i as int), key@),
        decreases members.len() - i,
    {
        assert(members@.skip(i as int).drop_first() =~= members@.skip(i + 1));
        if same_text(members[i].key.as_str(), key) {
            return Some(&members[i].value);
        }
        i = i + 1;
    }
    None
}

impl JsonValue {
    /// The value under `key` when `self` is an object that has such a member.
    pub fn get<'a>(&'a self, key: &str) -> (r: Option<&'a JsonValue>)
        ensures
            r is Some == json_get(*self, key@) is Some,
            r is Some ==> *r->0 == json_get(*self, key@)->0,
    {
        match self {
            JsonValue::Object(members) => member(members, key),
            _ => None,
        }
    }

    /// The text of `self` when it is a string.
    pub fn as_str<'a>(&'a self) -> (r: Option<&'a str>)
        ensures
            r is Some == json_str(*self) is Some,
            r is Some ==> r->0@ == json_str(*self)->0,
    {
        match self {
            JsonValue::Str(s) => Some(s.as_str()),
            _ => None,
        }
    }

    /// The text under `key` when it is a string.
    pub fn str_at<'a>(&'a self, key: &str) -> (r: Option<&'a str>)
        ensures
            r is Some == str_at(*self, key@) is Some,
            r is Some ==> r->0@ == str_at(*self, key@)->0,
    {
        match self.get(key) {
            Some(v) => v.as_str(),
            None => None,
        }
    }

    /// The elements under `key` when it is an array.
    pub fn array_at<'a>(&'a self, key: &str) -> (r: Option<&'a Vec<JsonValue>>)
        ensures
            r is Some == array_at(*self, key@) is Some,
            r is Some ==> r->0@ == array_at(*self, key@)->0,
    {
        match self.get(key) {
            Some(JsonValue::Array(items)) => Some(items),
            _ => None,
        }
    }

    /// The boolean under `key` when it is one.
    pub fn bool_at(&self, key: &str) -> (r: Option<bool>)
        ensures
            r == bool_at(*self, key@),
    {
        match self.get(key) {
            Some(JsonValue::Bool(b)) => Some(*b),
            _ => None,
        }
    }

    /// The number under `key` when it is an integer that fits in 64 unsigned bits.
    pub fn u64_at(&self, key: &str) -> (r: Option<u64>)
        ensures
            r == u64_at(*self, key@),
    {
        match self.get(key) {
            Some(JsonValue::Number(JsonNumber::PosInt(n))) => Some(*n),
            _ => None,
        }
    }
}

} // verus!
