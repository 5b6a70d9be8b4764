//! The tree model of the platform payloads.
//!
//! Every endpoint answers with loosely shaped JSON; the resolver only ever
//! reads objects, arrays, strings and non-negative integers out of it.  The
//! transport layer converts whatever it parsed into this type before the
//! resolver sees it; anything the resolver has no use for (floats, negative
//! numbers) maps to `Null`, which every reader here treats as "absent".

use vstd::prelude::*;

verus! {

/// A JSON-like tree value: the shape of a platform response, as far as the
/// resolver reads it.
pub enum Json {
    Null,
    Bool(bool),
    Num(u64),
    Str(String),
    Arr(Vec<Json>),
    Obj(Vec<(String, Json)>),
}

/// The value bound to `key` among `pairs`, scanning from index `i` on: the
/// first binding wins, and a missing key reads as `Null`, exactly as the
/// platform payloads are indexed.
pub open spec fn lookup_from(pairs: Seq<(String, Json)>, key: Seq<char>, i: int) -> Json
    decreases pairs.len() - i,
{
    if i < 0 || i >= pairs.len() {
        Json::Null
    } else if pairs[i].0@ == key {
        pairs[i].1
    } else {
        lookup_from(pairs, key, i + 1)
    }
}

/// The field `key` of `j`: `Null` unless `j` is an object carrying that key.
pub open spec fn get_spec(j: Json, key: Seq<char>) -> Json {
    match j {
        Json::Obj(pairs) => lookup_from(pairs@, key, 0),
        _ => Json::Null,
    }
}

/// The elements of `j`: empty unless `j` is an array.
pub open spec fn arr_of(j: Json) -> Seq<Json> {
    match j {
        Json::Arr(v) => v@,
        _ => Seq::empty(),
    }
}

/// The character content of `j`: empty unless `j` is a string.
pub open spec fn str_of(j: Json) -> Seq<char> {
    match j {
        Json::Str(s) => s@,
        _ => Seq::empty(),
    }
}

impl Json {
    /// Borrow the field `key`.  `None` means the field reads as `Null`
    /// (`self` is not an object, or no pair carries the key).
    pub fn get<'a>(&'a self, key: &str) -> (r: Option<&'a Json>)
        ensures
            match r {
                Some(v) => *v == get_spec(*self, key@),
                None => get_spec(*self, key@) == Json::Null,
            },
    {
        match self {
            Json::Obj(pairs) => {
                let k: String = key.to_owned();
                let n = pairs.len();
                let mut i: usize = 0;
                while i < n
                    invariant
                        n == pairs@.len(),
                        i <= n,
                        k@ == key@,
                        get_spec(*self, key@) == lookup_from(pairs@, key@, 0),
                        lookup_from(pairs@, key@, 0) == lookup_from(pairs@, key@, i as int),
                    decreases n - i,
                {
                    if pairs[i].0 == k {
                        proof {
                            assert(lookup_from(pairs@, key@, i as int) == pairs@[i as int].1);
                        }
                        return Some(&pairs[i].1);
                    }
                    i = i + 1;
                }
                None
            },
            _ => None,
        }
    }
}

} // verus!
