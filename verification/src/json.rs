//! A JSON value as plain data, and the lookups that the protocols need.

use vstd::prelude::*;

verus! {

/// A JSON number. A number with a fraction or an exponent is kept as the
/// bits of its double-precision form.
#[derive(Clone, Copy, Debug, PartialEq, Eq)]
pub enum JsonNumber {
    Unsigned(u64),
    Signed(i64),
    Float(u64),
}

/// A JSON value. An object is the list of its members in order; a lookup
/// finds the first member with the key.
#[derive(Debug, PartialEq)]
pub enum JsonValue {
    Null,
    Bool(bool),
    Number(JsonNumber),
    Text(String),
    Array(Vec<JsonValue>),
    Object(Vec<(String, JsonValue)>),
}

/// The first position from `from` on whose member has the key, or the number
/// of members where none has.
pub open spec fn find_from(members: Seq<(String, JsonValue)>, key: Seq<char>, from: int) -> int
    decreases members.len() - from,
{
    if from < 0 || from >= members.len() {
        members.len() as int
    } else if members[from].0@ == key {
        from
    } else {
        find_from(members, key, from + 1)
    }
}

/// The member of an object with the given key, if it is an object and has
/// one.
pub open spec fn member(v: JsonValue, key: Seq<char>) -> Option<JsonValue> {
    match v {
        JsonValue::Object(members) => {
            let i = find_from(members@, key, 0);
            if i < members@.len() {
                Some(members@[i].1)
            } else {
                None
            }
        },
        _ => None,
    }
}

/// The member with the given key, or null where there is none.
pub open spec fn member_or_null(v: JsonValue, key: Seq<char>) -> JsonValue {
    match member(v, key) {
        Some(found) => found,
        None => JsonValue::Null,
    }
}

/// The text of a value that is a string.
pub open spec fn text_of(v: JsonValue) -> Option<Seq<char>> {
    match v {
        JsonValue::Text(s) => Some(s@),
        _ => None,
    }
}

/// The text of the member with the given key, where that member is a string.
pub open spec fn text_member(v: JsonValue, key: Seq<char>) -> Option<Seq<char>> {
    text_of(member_or_null(v, key))
}

/// Are the two texts the same?
pub fn same_text(a: &str, b: &str) -> (r: bool)
    ensures
        r == (a@ == b@),
{
    let left = String::from_str(a);
    let right = String::from_str(b);
    left == right
}

/// Position of the first member with the key, or the number of members.
fn find_member(members: &Vec<(String, JsonValue)>, key: &str) -> (i: usize)
    ensures
        i as int == find_from(members@, key@, 0),
        i <= members@.len(),
{
    let mut i: usize = 0;
    while i < members.len()
        invariant
            i <= members@.len(),
            find_from(members@, key@, 0) == find_from(members@, key@, i as int),
        decreases members@.len() - i,
    {
        if same_text(members[i].0.as_str(), key) {
            return i;
        }
        i += 1;
    }
    i
}

impl JsonValue {
    /// The member with the given key, if this is an object that has one.
    pub fn get(&self, key: &str) -> (r: Option<&JsonValue>)
        ensures
            match r {
                Some(found) => member(*self, key@) == Some(*found),
                None => member(*self, key@) is None,
            },
    {
        match self {
            JsonValue::Object(members) => {
                let i = find_member(members, key);
                if i < members.len() {
                    Some(&members[i].1)
                } else {
                    None
                }
            },
            _ => None,
        }
    }

    /// The text, if this is a string.
    pub fn as_str(&self) -> (r: Option<&str>)
        ensures
            match r {
                Some(s) => text_of(*self) == Some(s@),
                None => text_of(*self) is None,
            },
    {
        match self {
            JsonValue::Text(s) => Some(s.as_str()),
            _ => None,
        }
    }

    /// The text of the member with the given key, where that member is a
    /// string.
    pub fn get_str(&self, key: &str) -> (r: Option<&str>)
        ensures
            match r {
                Some(s) => text_member(*self, key@) == Some(s@),
                None => text_member(*self, key@) is None,
            },
    {
        match self.get(key) {
            Some(found) => found.as_str(),
            None => None,
        }
    }

    /// Gives up the value for its member with the given key, or for null
    /// where it has none.
    pub fn take(self, key: &str) -> (r: JsonValue)
        ensures
            r == member_or_null(self, key@),
    {
        match self {
            JsonValue::Object(members) => {
                let mut members = members;
                let i = find_member(&members, key);
                if i < members.len() {
                    let (_, found) = members.swap_remove(i);
                    found
                } else {
                    JsonValue::Null
                }
            },
            _ => JsonValue::Null,
        }
    }
}

} // verus!
