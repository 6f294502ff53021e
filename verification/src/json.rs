//! An owned structured-data tree, the wire shape of one protocol message,
//! together with verified key and dotted-path access.
//!
//! An object keeps its entries as a sequence of key/value pairs; a lookup
//! returns the value of the first entry whose key matches.

use vstd::prelude::*;
use crate::strutil::str_eq;

verus! {

/// One node of a structured-data tree.
///
/// A non-integral number is carried as its bit pattern (`FloatBits`), so
/// a payload holding one survives the lossless fallbacks unchanged; no
/// recognized category reads a number.
#[derive(Debug, PartialEq)]
pub enum JsonValue {
    Null,
    Bool(bool),
    Int(i64),
    UInt(u64),
    FloatBits(u64),
    Str(String),
    Arr(Vec<JsonValue>),
    Obj(Vec<(String, JsonValue)>),
}

/// The value of the first entry at or after `i` whose key reads `key`,
/// or `None` when no such entry exists.
pub open spec fn entries_get_from(es: Seq<(String, JsonValue)>, key: Seq<char>, i: int) -> Option<
    JsonValue,
>
    decreases es.len() - i,
{
    if i < 0 || i >= es.len() {
        None
    } else if es[i].0@ == key {
        Some(es[i].1)
    } else {
        entries_get_from(es, key, i + 1)
    }
}

/// The value stored under `key` when `v` is an object holding that key.
pub open spec fn spec_get(v: JsonValue, key: Seq<char>) -> Option<JsonValue> {
    match v {
        JsonValue::Obj(es) => entries_get_from(es@, key, 0),
        _ => None,
    }
}

/// The value two levels down, under `k1` then `k2`.
pub open spec fn spec_get2(v: JsonValue, k1: Seq<char>, k2: Seq<char>) -> Option<JsonValue> {
    match spec_get(v, k1) {
        Some(w) => spec_get(w, k2),
        None => None,
    }
}

/// The text stored under `key`, when present and of string shape.
pub open spec fn spec_get_str(v: JsonValue, key: Seq<char>) -> Option<Seq<char>> {
    match spec_get(v, key) {
        Some(JsonValue::Str(s)) => Some(s@),
        _ => None,
    }
}

/// The text stored under `k1` then `k2`, when present and of string shape.
pub open spec fn spec_get_str2(v: JsonValue, k1: Seq<char>, k2: Seq<char>) -> Option<Seq<char>> {
    match spec_get2(v, k1, k2) {
        Some(JsonValue::Str(s)) => Some(s@),
        _ => None,
    }
}

impl JsonValue {
    /// Looks `key` up in an object node; `None` on any other node shape.
    pub fn get<'a>(&'a self, key: &str) -> (r: Option<&'a JsonValue>)
        ensures
            match r {
                Some(w) => spec_get(*self, key@) == Some(*w),
                None => spec_get(*self, key@) is None,
            },
    {
        match self {
            JsonValue::Obj(es) => {
                let n = es.len();
                let mut i: usize = 0;
                while i < n
                    invariant
                        i <= n,
                        n == es@.len(),
                        spec_get(*self, key@) == entries_get_from(es@, key@, 0),
                        entries_get_from(es@, key@, 0) == entries_get_from(es@, key@, i as int),
                    decreases n - i,
                {
                    if str_eq(es[i].0.as_str(), key) {
                        proof {
                            assert(entries_get_from(es@, key@, i as int) == Some(
                                es@[i as int].1,
                            ));
                        }
                        return Some(&es[i].1);
                    }
                    i += 1;
                }
                None
            },
            _ => None,
        }
    }

    /// Looks up `k1` then `k2`.
    pub fn get2<'a>(&'a self, k1: &str, k2: &str) -> (r: Option<&'a JsonValue>)
        ensures
            match r {
                Some(w) => spec_get2(*self, k1@, k2@) == Some(*w),
                None => spec_get2(*self, k1@, k2@) is None,
            },
    {
        match self.get(k1) {
            Some(w) => w.get(k2),
            None => None,
        }
    }

    /// The text under `key`, when present and of string shape.
    pub fn get_str<'a>(&'a self, key: &str) -> (r: Option<&'a String>)
        ensures
            match r {
                Some(s) => spec_get_str(*self, key@) == Some(s@),
                None => spec_get_str(*self, key@) is None,
            },
    {
        match self.get(key) {
            Some(JsonValue::Str(s)) => Some(s),
            _ => None,
        }
    }

    /// The text under `k1` then `k2`, when present and of string shape.
    pub fn get_str2<'a>(&'a self, k1: &str, k2: &str) -> (r: Option<&'a String>)
        ensures
            match r {
                Some(s) => spec_get_str2(*self, k1@, k2@) == Some(s@),
                None => spec_get_str2(*self, k1@, k2@) is None,
            },
    {
        match self.get2(k1, k2) {
            Some(JsonValue::Str(s)) => Some(s),
            _ => None,
        }
    }
}

} // verus!
