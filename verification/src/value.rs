//! The configuration data model: the shapes of parsed configuration data
//! that the generator reads.

use vstd::prelude::*;

verus! {

/// One parsed configuration value.
///
/// Only strings, booleans, arrays and tables carry information the generator
/// uses; any other value (an integer, a float, a date) is `Other`, present
/// only so that its shape can be rejected.
#[derive(Debug, PartialEq, Eq)]
pub enum Value {
    Str(String),
    Bool(bool),
    Arr(Vec<Value>),
    Table(Vec<(String, Value)>),
    Other,
}

/// The first value bound to `key` in a key/value list, if any.
pub open spec fn lookup(entries: Seq<(String, Value)>, key: Seq<char>) -> Option<Value>
    decreases entries.len(),
{
    if entries.len() == 0 {
        None
    } else if entries[0].0@ == key {
        Some(entries[0].1)
    } else {
        lookup(entries.skip(1), key)
    }
}

/// Whether `key` is bound in a key/value list.
pub open spec fn has_key(entries: Seq<(String, Value)>, key: Seq<char>) -> bool {
    lookup(entries, key) is Some
}

impl Value {
    /// The value under `key` when `self` is a table; `None` on any other shape.
    pub open spec fn spec_get(self, key: Seq<char>) -> Option<Value> {
        match self {
            Value::Table(entries) => lookup(entries@, key),
            _ => None,
        }
    }
}

/// The first value bound to `key`, searching the list from the front.
pub fn table_get<'a>(entries: &'a Vec<(String, Value)>, key: &str) -> (r: Option<&'a Value>)
    ensures
        match r {
            Some(v) => lookup(entries@, key@) == Some(*v),
            None => lookup(entries@, key@) is None,
        },
{
    let k: String = key.to_owned();
    let mut i: usize = 0;
    assert(entries@.skip(0) =~= entries@);
    while i < entries.len()
        invariant
            i <= entries@.len(),
            k@ == key@,
            lookup(entries@, key@) == lookup(entries@.skip(i as int), key@),
        decreases entries@.len() - i,
    {
        assert(entries@.skip(i as int)[0] == entries@[i as int]);
        assert(entries@.skip(i as int).skip(1) =~= entries@.skip(i as int + 1));
        if entries[i].0 == k {
            return Some(&entries[i].1);
        }
        i += 1;
    }
    None
}

/// Looks `key` up in `value` when it is a table, as `spec_get` describes.
pub fn value_get<'a>(value: &'a Value, key: &str) -> (r: Option<&'a Value>)
    ensures
        match r {
            Some(v) => value.spec_get(key@) == Some(*v),
            None => value.spec_get(key@) is None,
        },
{
    match value {
        Value::Table(entries) => table_get(entries, key),
        _ => None,
    }
}

} // verus!
