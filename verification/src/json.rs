//! A plain model of JSON values.
//!
//! The remote service speaks JSON. This crate does not parse or print JSON
//! text; it states every wire rule over this value model, and the unverified
//! shell around the crate converts between this model and whatever JSON
//! machinery it uses. An object is an ordered list of key/value pairs; when
//! a key occurs more than once, the first occurrence wins (see [`lookup`]).

use vstd::prelude::*;

verus! {

/// A JSON value, held as plain data.
#[derive(Debug)]
pub enum JsonValue {
    Null,
    Bool(bool),
    Int(i64),
    Str(String),
    Arr(Vec<JsonValue>),
    Obj(Vec<(String, JsonValue)>),
}

/// The value under `key` in an object's entry list: the first entry whose
/// key matches, or `None` when no entry does.
pub open spec fn lookup(entries: Seq<(String, JsonValue)>, key: Seq<char>) -> Option<JsonValue>
    decreases entries.len(),
{
    if entries.len() == 0 {
        None
    } else if entries[0].0@ == key {
        Some(entries[0].1)
    } else {
        lookup(entries.skip(1), key)
    }
}

/// The value under the canonical key, or, when the canonical key is absent,
/// under the legacy key. The canonical spelling wins when both are present.
pub open spec fn lookup_with_alias(
    entries: Seq<(String, JsonValue)>,
    canonical: Seq<char>,
    legacy: Seq<char>,
) -> Option<JsonValue> {
    match lookup(entries, canonical) {
        Some(v) => Some(v),
        None => lookup(entries, legacy),
    }
}

/// The keys of an object's entry list, in order.
pub open spec fn keys_of(entries: Seq<(String, JsonValue)>) -> Seq<Seq<char>> {
    entries.map_values(|e: (String, JsonValue)| e.0@)
}

/// Finds the first entry of `entries` whose key equals `key`.
pub fn obj_get<'a>(entries: &'a Vec<(String, JsonValue)>, key: &str) -> (r: Option<&'a JsonValue>)
    ensures
        match r {
            Some(v) => lookup(entries@, key@) == Some(*v),
            None => lookup(entries@, key@) is None,
        },
{
    let wanted: String = String::from_str(key);
    let n: usize = entries.len();
    let mut i: usize = 0;
    proof {
        assert(entries@.skip(0) =~= entries@);
    }
    while i < n
        invariant
            n == entries@.len(),
            i <= n,
            wanted@ == key@,
            lookup(entries@, key@) == lookup(entries@.skip(i as int), key@),
        decreases n - i,
    {
        if entries[i].0 == wanted {
            proof {
                assert(entries@.skip(i as int)[0] == entries@[i as int]);
            }
            return Some(&entries[i].1);
        }
        proof {
            assert(entries@.skip(i as int)[0] == entries@[i as int]);
            assert(entries@.skip(i as int).skip(1) =~= entries@.skip(i as int + 1));
        }
        i = i + 1;
    }
    proof {
        assert(entries@.skip(n as int) =~= Seq::<(String, JsonValue)>::empty());
    }
    None
}

/// Finds the value under `canonical`, falling back to `legacy`; the
/// canonical spelling wins when both keys are present.
pub fn obj_get_with_alias<'a>(
    entries: &'a Vec<(String, JsonValue)>,
    canonical: &str,
    legacy: &str,
) -> (r: Option<&'a JsonValue>)
    ensures
        match r {
            Some(v) => lookup_with_alias(entries@, canonical@, legacy@) == Some(*v),
            None => lookup_with_alias(entries@, canonical@, legacy@) is None,
        },
{
    match obj_get(entries, canonical) {
        Some(v) => Some(v),
        None => obj_get(entries, legacy),
    }
}

} // verus!
