use vstd::prelude::*;

verus! {

/// A JSON number as the conversion reads it.
#[derive(Clone, Copy, Debug, PartialEq, Eq)]
pub enum Number {
    /// An integer: a JSON reader gives one in the range of `i64` or of `u64`.
    Int(i128),
    /// A number written with a fraction or an exponent, by its integer part: the value
    /// truncated toward zero, saturated to the range of `i128`.
    Float(i128),
}

/// A loosely typed JSON value, as it stands in an input document.
///
/// An object keeps its members in document order.
#[derive(Debug, PartialEq, Eq)]
pub enum JsonValue {
    Null,
    Bool(bool),
    Number(Number),
    Str(String),
    Array(Vec<JsonValue>),
    Object(Vec<(String, JsonValue)>),
}

/// The value of the first member named `key` at or after position `i`.
pub open spec fn lookup_from(members: Seq<(String, JsonValue)>, key: Seq<char>, i: int) -> Option<
    JsonValue,
>
    decreases members.len() - i,
{
    if i < 0 || i >= members.len() {
        None
    } else if members[i].0@ == key {
        Some(members[i].1)
    } else {
        lookup_from(members, key, i + 1)
    }
}

/// The value of the member named `key` of an object (the first one, if the name repeats).
pub open spec fn lookup(members: Seq<(String, JsonValue)>, key: Seq<char>) -> Option<JsonValue> {
    lookup_from(members, key, 0)
}

/// The position of the first member named `key`, if there is one.
pub fn find_member(members: &Vec<(String, JsonValue)>, key: &str) -> (r: Option<usize>)
    ensures
        match r {
            Some(i) => i < members@.len() && lookup(members@, key@) == Some(members@[i as int].1),
            None => lookup(members@, key@) is None,
        },
{
    let wanted = key.to_owned();
    let mut i: usize = 0;
    while i < members.len()
        invariant
            i <= members@.len(),
            wanted@ == key@,
            lookup(members@, key@) == lookup_from(members@, key@, i as int),
        decreases members@.len() - i,
    {
        if members[i].0 == wanted {
            return Some(i);
        }
        i = i + 1;
    }
    None
}

} // verus!
