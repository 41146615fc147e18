//! A JSON document as plain values.

use vstd::prelude::*;
use crate::text::{decimal, decimal_string, signed_decimal, signed_decimal_string};

verus! {

/// A JSON number: an integer, or the text of a number that is none.
#[derive(Clone, Debug)]
pub enum JsonNumber {
    /// A non-negative integer.
    PosInt(u64),
    /// A negative integer.
    NegInt(i64),
    /// Any other number, as it is written.
    Float(String),
}

/// A JSON value. The members of an object are held in the order in which they
/// were added; where a key occurs twice, the later member counts.
#[derive(Debug)]
pub enum JsonValue {
    Null,
    Bool(bool),
    Number(JsonNumber),
    String(String),
    Array(Vec<JsonValue>),
    Object(Vec<(String, JsonValue)>),
}

/// The value that `members` holds under `key`: that of the last member with
/// that key.
pub open spec fn member(members: Seq<(String, JsonValue)>, key: Seq<char>) -> Option<JsonValue>
    decreases members.len(),
{
    if members.len() == 0 {
        None
    } else if members.last().0@ == key {
        Some(members.last().1)
    } else {
        member(members.drop_last(), key)
    }
}

impl JsonNumber {
    /// The number as a reader sees it.
    pub open spec fn text(self) -> Seq<char> {
        match self {
            JsonNumber::PosInt(n) => decimal(n as nat),
            JsonNumber::NegInt(n) => signed_decimal(n as int),
            JsonNumber::Float(written) => written@,
        }
    }

    /// The number as a reader sees it.
    pub fn to_text(&self) -> (out: String)
        ensures
            out@ == self.text(),
    {
        match self {
            JsonNumber::PosInt(n) => decimal_string(*n),
            JsonNumber::NegInt(n) => signed_decimal_string(*n),
            JsonNumber::Float(written) => written.clone(),
        }
    }

    /// The number as a `u64`, if it is a non-negative integer.
    pub fn as_u64(&self) -> (r: Option<u64>)
        ensures
            r == match *self {
                JsonNumber::PosInt(n) => Some(n),
                _ => None,
            },
    {
        match self {
            JsonNumber::PosInt(n) => Some(*n),
            _ => None,
        }
    }
}

impl JsonValue {
    /// The value under `key`, where this is an object that has such a member.
    pub open spec fn field(self, key: Seq<char>) -> Option<JsonValue> {
        match self {
            JsonValue::Object(members) => member(members@, key),
            _ => None,
        }
    }

    /// The value under `key`, where this is an object that has such a member.
    pub fn get(&self, key: &str) -> (r: Option<&JsonValue>)
        ensures
            match r {
                Some(found) => self.field(key@) == Some(*found),
                None => self.field(key@) is None,
            },
    {
        match self {
            JsonValue::Object(members) => lookup_member(members, key),
            _ => None,
        }
    }
}

/// The value that `members` holds under `key`.
pub fn lookup_member<'a>(members: &'a Vec<(String, JsonValue)>, key: &str) -> (r: Option<&'a JsonValue>)
    ensures
        match r {
            Some(found) => member(members@, key@) == Some(*found),
            None => member(members@, key@) is None,
        },
{
    let wanted = String::from_str(key);
    let mut i: usize = members.len();
    proof {
        assert(members@.take(i as int) == members@);
    }
    while i > 0
        invariant
            i <= members.len(),
            wanted@ == key@,
            member(members@, key@) == member(members@.take(i as int), key@),
        decreases i,
    {
        proof {
            assert(members@.take(i as int).drop_last() == members@.take(i as int - 1));
        }
        if members[i - 1].0 == wanted {
            return Some(&members[i - 1].1);
        }
        i -= 1;
    }
    None
}

} // verus!
