//! A model of the JSON documents the pipeline reads.
//!
//! Webhook payloads and query responses arrive as dynamic JSON.  The
//! pipeline only ever asks four things of such a document: the member of an
//! object under a key, a string value, an unsigned number, and an array of
//! values.  This module holds a document as plain values and answers those
//! four questions with exact contracts, so that "field absent" is a total,
//! provable case rather than an implicit fallback.

use vstd::prelude::*;

verus! {

/// A JSON document, as much of it as the pipeline can read.
#[derive(Debug)]
pub enum Json {
    Null,
    Bool(bool),
    /// A number representable as `u64` — the only numbers the pipeline
    /// reads.
    UInt(u64),
    /// Any other number (negative or fractional).  Kept so that every
    /// document has an image here; never readable as a number.
    OtherNumber,
    Str(String),
    Arr(Vec<Json>),
    Obj(Vec<(String, Json)>),
}

/// The value under `key` in an object's member list: the first entry whose
/// name equals `key`, if any.
pub open spec fn obj_lookup(entries: Seq<(String, Json)>, key: Seq<char>) -> Option<Json>
    decreases entries.len(),
{
    if entries.len() == 0 {
        None
    } else if entries[0].0@ == key {
        Some(entries[0].1)
    } else {
        obj_lookup(entries.drop_first(), key)
    }
}

impl Json {
    /// The member of an object under `key`; `None` of any non-object.
    pub open spec fn spec_get(self, key: Seq<char>) -> Option<Json> {
        match self {
            Json::Obj(entries) => obj_lookup(entries@, key),
            _ => None,
        }
    }

    /// The member under `key`, with `Null` standing in where there is
    /// none: how the pipeline treats a missing member, so that lookups
    /// chain through absent intermediate objects.
    pub open spec fn at(self, key: Seq<char>) -> Json {
        match self.spec_get(key) {
            Some(v) => v,
            None => Json::Null,
        }
    }

    /// The characters of a string value; `None` of anything else.
    pub open spec fn spec_str(self) -> Option<Seq<char>> {
        match self {
            Json::Str(s) => Some(s@),
            _ => None,
        }
    }

    /// The value of a number that fits in `u64`; `None` of anything else.
    pub open spec fn spec_u64(self) -> Option<u64> {
        match self {
            Json::UInt(n) => Some(n),
            _ => None,
        }
    }

    /// The items of an array value; `None` of anything else.
    pub open spec fn spec_arr(self) -> Option<Seq<Json>> {
        match self {
            Json::Arr(items) => Some(items@),
            _ => None,
        }
    }

    /// The items of an array value, with no items standing in for any
    /// non-array: how the pipeline walks a member that may be missing.
    pub open spec fn spec_items(self) -> Seq<Json> {
        match self {
            Json::Arr(items) => items@,
            _ => Seq::empty(),
        }
    }
}

/// Character-for-character equality of two string slices.
pub fn str_eq(a: &str, b: &str) -> (r: bool)
    ensures
        r == (a@ == b@),
{
    let a_owned: String = a.to_owned();
    let b_owned: String = b.to_owned();
    a_owned == b_owned
}

impl Json {
    /// The member of this object under `key`, if this is an object with
    /// such a member.
    pub fn get<'a>(&'a self, key: &str) -> (r: Option<&'a Json>)
        ensures
            match r {
                Some(v) => self.spec_get(key@) == Some(*v),
                None => self.spec_get(key@) is None,
            },
    {
        match self {
            Json::Obj(entries) => {
                let n = entries.len();
                let mut i: usize = 0;
                proof {
                    assert(entries@.skip(0) =~= entries@);
                }
                while i < n
                    invariant
                        n == entries.len(),
                        i <= n,
                        self.spec_get(key@) == obj_lookup(entries@.skip(i as int), key@),
                    decreases n - i,
                {
                    let entry = &entries[i];
                    if str_eq(entry.0.as_str(), key) {
                        proof {
                            assert(entries@.skip(i as int)[0] == entries@[i as int]);
                        }
                        return Some(&entry.1);
                    }
                    proof {
                        assert(entries@.skip(i as int).drop_first() =~= entries@.skip(
                            i as int + 1,
                        ));
                    }
                    i = i + 1;
                }
                proof {
                    assert(entries@.skip(n as int) =~= Seq::<(String, Json)>::empty());
                }
                None
            },
            _ => None,
        }
    }

    /// The string slice held by a string value.
    pub fn as_str<'a>(&'a self) -> (r: Option<&'a str>)
        ensures
            match r {
                Some(s) => self.spec_str() == Some(s@),
                None => self.spec_str() is None,
            },
    {
        match self {
            Json::Str(s) => Some(s.as_str()),
            _ => None,
        }
    }

    /// The value of a number that fits in `u64`.
    pub fn as_u64(&self) -> (r: Option<u64>)
        ensures
            r == self.spec_u64(),
    {
        match self {
            Json::UInt(n) => Some(*n),
            _ => None,
        }
    }

    /// The items of an array value.
    pub fn as_array<'a>(&'a self) -> (r: Option<&'a Vec<Json>>)
        ensures
            match r {
                Some(items) => self.spec_arr() == Some(items@),
                None => self.spec_arr() is None,
            },
    {
        match self {
            Json::Arr(items) => Some(items),
            _ => None,
        }
    }

    /// Whether this value is exactly the string `s` — how the pipeline
    /// compares a JSON value against a literal.
    pub fn is_string(&self, s: &str) -> (r: bool)
        ensures
            r == (self.spec_str() == Some(s@)),
    {
        match self {
            Json::Str(t) => str_eq(t.as_str(), s),
            _ => false,
        }
    }
}

} // verus!
