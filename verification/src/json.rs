//! A JSON document as the gateway reads it: by member name, by position, as text, as a number.

use vstd::prelude::*;
use crate::text::text_eq;

verus! {

/// A JSON number: a non-negative integer, a signed integer, or the text of any other number.
#[derive(Clone, Debug, PartialEq, Eq)]
pub enum Number {
    Unsigned(u64),
    Signed(i64),
    Decimal(String),
}

/// A JSON value. The members of an object are kept in the order in which they were given.
#[derive(Debug, PartialEq, Eq)]
pub enum Json {
    Null,
    Bool(bool),
    Number(Number),
    Text(String),
    List(Vec<Json>),
    Object(Vec<(String, Json)>),
}

/// The value of the last member named `key`, if there is one.
pub open spec fn lookup(members: Seq<(String, Json)>, key: Seq<char>) -> Option<Json>
    decreases members.len(),
{
    if members.len() == 0 {
        None
    } else if members.last().0@ == key {
        Some(members.last().1)
    } else {
        lookup(members.drop_last(), key)
    }
}

/// A borrowed value as the value itself.
pub open spec fn owned(value: Option<&Json>) -> Option<Json> {
    match value {
        Some(v) => Some(*v),
        None => None,
    }
}

impl Number {
    /// The number as a `u64`, where it is a non-negative integer in range.
    pub open spec fn unsigned(self) -> Option<u64> {
        match self {
            Number::Unsigned(n) => Some(n),
            Number::Signed(n) => if n >= 0 {
                Some(n as u64)
            } else {
                None
            },
            Number::Decimal(_) => None,
        }
    }

    /// The number as a `u64`, where it is a non-negative integer in range.
    pub fn as_u64(&self) -> (n: Option<u64>)
        ensures
            n == self.unsigned(),
    {
        match self {
            Number::Unsigned(n) => Some(*n),
            Number::Signed(n) => if *n >= 0 {
                Some(*n as u64)
            } else {
                None
            },
            Number::Decimal(_) => None,
        }
    }
}

impl Json {
    /// The member named `key` of an object; nothing for any other value.
    pub open spec fn member(self, key: Seq<char>) -> Option<Json> {
        match self {
            Json::Object(members) => lookup(members@, key),
            _ => None,
        }
    }

    /// The element at `index` of a list; nothing for any other value.
    pub open spec fn element(self, index: int) -> Option<Json> {
        match self {
            Json::List(items) => if 0 <= index < items@.len() {
                Some(items@[index])
            } else {
                None
            },
            _ => None,
        }
    }

    /// The characters of a text value; nothing for any other value.
    pub open spec fn text(self) -> Option<Seq<char>> {
        match self {
            Json::Text(t) => Some(t@),
            _ => None,
        }
    }

    /// The value of a non-negative integer; nothing for any other value.
    pub open spec fn unsigned(self) -> Option<u64> {
        match self {
            Json::Number(n) => n.unsigned(),
            _ => None,
        }
    }

    /// The member named `key` of an object.
    pub fn get(&self, key: &str) -> (found: Option<&Json>)
        ensures
            owned(found) == self.member(key@),
    {
        match self {
            Json::Object(members) => {
                let mut i: usize = members.len();
                assert(members@.take(i as int) =~= members@);
                while i > 0
                    invariant
                        i <= members@.len(),
                        self.member(key@) == lookup(members@.take(i as int), key@),
                    decreases i,
                {
                    i -= 1;
                    proof {
                        let upto = members@.take(i + 1);
                        assert(upto.last() == members@[i as int]);
                        assert(upto.drop_last() =~= members@.take(i as int));
                    }
                    let entry = &members[i];
                    if text_eq(entry.0.as_str(), key) {
                        return Some(&entry.1);
                    }
                }
                None
            },
            _ => None,
        }
    }

    /// The element at `index` of a list.
    pub fn at(&self, index: usize) -> (found: Option<&Json>)
        ensures
            owned(found) == self.element(index as int),
    {
        match self {
            Json::List(items) => if index < items.len() {
                Some(&items[index])
            } else {
                None
            },
            _ => None,
        }
    }

    /// The text of a text value.
    pub fn as_str(&self) -> (found: Option<&str>)
        ensures
            match found {
                Some(t) => self.text() == Some(t@),
                None => self.text() is None,
            },
    {
        match self {
            Json::Text(t) => Some(t.as_str()),
            _ => None,
        }
    }

    /// The value of a non-negative integer.
    pub fn as_u64(&self) -> (found: Option<u64>)
        ensures
            found == self.unsigned(),
    {
        match self {
            Json::Number(n) => n.as_u64(),
            _ => None,
        }
    }
}

} // verus!
