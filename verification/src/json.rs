//! A self-contained model of a JSON document.
//!
//! Upstream documents arrive as semi-structured JSON. The library holds them
//! in this owned tree so that every lookup the normalizer performs is plain,
//! verifiable code. Object members keep their source order; a lookup returns
//! the first member with a matching key. Numbers carry only the unsigned
//! integer reading, the single numeric reading the normalizer ever uses;
//! a number outside that range is represented as `Null`.

use vstd::prelude::*;

verus! {

/// One JSON value.
pub enum Json {
    Null,
    Bool(bool),
    Num(u64),
    Str(String),
    Arr(Vec<Json>),
    Obj(Vec<(String, Json)>),
}

/// First value bound to `key` among `members`, scanning left to right.
pub open spec fn spec_member_lookup(members: Seq<(String, Json)>, key: Seq<char>) -> Option<Json>
    decreases members.len(),
{
    if members.len() == 0 {
        None
    } else if members[0].0@ == key {
        Some(members[0].1)
    } else {
        spec_member_lookup(members.drop_first(), key)
    }
}

/// Value bound to `key` when `j` is an object; `None` on any other shape.
pub open spec fn spec_get(j: Json, key: Seq<char>) -> Option<Json> {
    match j {
        Json::Obj(members) => spec_member_lookup(members@, key),
        _ => None,
    }
}

/// String content of `j` when it is a string.
pub open spec fn spec_as_str(j: Json) -> Option<Seq<char>> {
    match j {
        Json::Str(s) => Some(s@),
        _ => None,
    }
}

/// Unsigned integer content of `j` when it is a number.
pub open spec fn spec_as_u64(j: Json) -> Option<u64> {
    match j {
        Json::Num(n) => Some(n),
        _ => None,
    }
}

/// String found under `key` of object `j`, when both shapes hold.
pub open spec fn spec_get_str(j: Json, key: Seq<char>) -> Option<Seq<char>> {
    match spec_get(j, key) {
        Some(v) => spec_as_str(v),
        None => None,
    }
}

impl Json {
    /// Member lookup: the first value bound to `key` when `self` is an
    /// object, `None` when the key is absent or `self` is not an object.
    pub fn get<'a>(&'a self, key: &String) -> (r: Option<&'a Json>)
        ensures
            match r {
                Some(v) => spec_get(*self, key@) == Some(*v),
                None => spec_get(*self, key@) is None,
            },
    {
        match self {
            Json::Obj(members) => {
                let n = members.len();
                let mut i: usize = 0;
                proof {
                    assert(members@.skip(0) =~= members@);
                }
                while i < n
                    invariant
                        i <= n == members@.len(),
                        spec_get(*self, key@) == spec_member_lookup(members@, key@),
                        spec_member_lookup(members@, key@) == spec_member_lookup(
                            members@.skip(i as int),
                            key@,
                        ),
                    decreases n - i,
                {
                    proof {
                        assert(members@.skip(i as int)[0] == members@[i as int]);
                        assert(members@.skip(i as int).drop_first() =~= members@.skip(i + 1));
                    }
                    if members[i].0 == *key {
                        return Some(&members[i].1);
                    }
                    i += 1;
                }
                proof {
                    assert(members@.skip(n as int) =~= Seq::<(String, Json)>::empty());
                }
                None
            },
            _ => None,
        }
    }

    /// String content, when `self` is a string.
    pub fn as_str<'a>(&'a self) -> (r: Option<&'a String>)
        ensures
            match r {
                Some(s) => spec_as_str(*self) == Some(s@),
                None => spec_as_str(*self) is None,
            },
    {
        match self {
            Json::Str(s) => Some(s),
            _ => None,
        }
    }

    /// Unsigned integer content, when `self` is a number.
    pub fn as_u64(&self) -> (r: Option<u64>)
        ensures
            r == spec_as_u64(*self),
    {
        match self {
            Json::Num(n) => Some(*n),
            _ => None,
        }
    }
}

} // verus!
