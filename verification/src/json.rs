//! The generic JSON value tree that every decoder reads.

use crate::text::str_eq;
use vstd::prelude::*;

verus! {

/// One JSON value.
///
/// A number keeps the text it was written with, so that no digit is lost on
/// the way to an exact decimal. An object keeps its members in the order in
/// which they were written.
#[derive(Debug, PartialEq)]
pub enum JsonValue {
    Null,
    Bool(bool),
    Number(String),
    Text(String),
    Array(Vec<JsonValue>),
    Object(Vec<(String, JsonValue)>),
}

/// The value of the first member named `key`, if there is one.
pub open spec fn spec_lookup(members: Seq<(String, JsonValue)>, key: Seq<char>) -> Option<
    JsonValue,
>
    decreases members.len(),
{
    if members.len() == 0 {
        None
    } else if members[0].0@ == key {
        Some(members[0].1)
    } else {
        spec_lookup(members.drop_first(), key)
    }
}

/// A key that none of the first `n` members has is looked up among the rest.
proof fn lemma_lookup_skip(members: Seq<(String, JsonValue)>, key: Seq<char>, n: int)
    requires
        0 <= n <= members.len(),
        forall|j: int| 0 <= j < n ==> (#[trigger] members[j]).0@ != key,
    ensures
        spec_lookup(members, key) == spec_lookup(members.skip(n), key),
    decreases n,
{
    if n == 0 {
        assert(members.skip(0) =~= members);
    } else {
        assert(members[0].0@ != key);
        let rest = members.drop_first();
        assert forall|j: int| 0 <= j < n - 1 implies (#[trigger] rest[j]).0@ != key by {
            assert(rest[j] == members[j + 1]);
        }
        lemma_lookup_skip(rest, key, n - 1);
        assert(rest.skip(n - 1) =~= members.skip(n));
    }
}

impl JsonValue {
    /// What `key` names in this value: a member's value where this is an object
    /// that has the key, and nothing otherwise.
    pub open spec fn spec_get(self, key: Seq<char>) -> Option<JsonValue> {
        match self {
            JsonValue::Object(members) => spec_lookup(members@, key),
            _ => None,
        }
    }

    /// Whether this value is an object.
    pub fn is_object(&self) -> (object: bool)
        ensures
            object == (self is Object),
    {
        match self {
            JsonValue::Object(_) => true,
            _ => false,
        }
    }

    /// Looks `key` up in an object.
    pub fn get(&self, key: &str) -> (found: Option<&JsonValue>)
        ensures
            match found {
                Some(value) => self.spec_get(key@) == Some(*value),
                None => self.spec_get(key@) is None,
            },
    {
        match self {
            JsonValue::Object(members) => {
                let mut i: usize = 0;
                while i < members.len()
                    invariant
                        *self == JsonValue::Object(*members),
                        i <= members@.len(),
                        forall|j: int| 0 <= j < i ==> (#[trigger] members@[j]).0@ != key@,
                    decreases members@.len() - i,
                {
                    if str_eq(members[i].0.as_str(), key) {
                        proof {
                            lemma_lookup_skip(members@, key@, i as int);
                            let rest = members@.skip(i as int);
                            assert(rest.len() > 0);
                            assert(rest[0] == members@[i as int]);
                            assert(spec_lookup(rest, key@) == Some(members@[i as int].1));
                        }
                        return Some(&members[i].1);
                    }
                    i += 1;
                }
                proof {
                    lemma_lookup_skip(members@, key@, members@.len() as int);
                }
                None
            },
            _ => None,
        }
    }
}

} // verus!
