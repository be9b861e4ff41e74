//! The JSON values that travel over the control and plugin sockets, as the
//! library reads and builds them. Objects keep their members in order; a
//! lookup finds the first member with the key.
use crate::seq_util::{first_index, lemma_first_index_found, lemma_first_index_none};
use crate::text::{owned, str_eq};
use vstd::prelude::*;

verus! {

/// A JSON number as the wire carries it. `Float` holds the IEEE-754 bits of
/// an `f64`; the library never does arithmetic on it.
#[derive(Debug, Clone, Copy, PartialEq, Eq, Structural)]
pub enum JsonNumber {
    PosInt(u64),
    NegInt(i64),
    Float(u64),
}

/// A JSON value.
#[derive(Debug, PartialEq)]
pub enum JsonValue {
    Null,
    Bool(bool),
    Number(JsonNumber),
    Str(String),
    Array(Vec<JsonValue>),
    Object(Vec<(String, JsonValue)>),
}

/// The member of `fields` named `key` (by characters).
pub open spec fn key_is(key: Seq<char>) -> spec_fn((String, JsonValue)) -> bool {
    |f: (String, JsonValue)| f.0@ == key
}

/// The value of the first member of `fields` named `key`, if any.
pub open spec fn lookup(fields: Seq<(String, JsonValue)>, key: Seq<char>) -> Option<JsonValue> {
    match first_index(fields, key_is(key)) {
        Some(i) => Some(fields[i].1),
        None => None,
    }
}

impl JsonValue {
    /// `value.get(key)`: the member named `key` of an object; `None` for
    /// anything that is not an object or has no such member.
    pub open spec fn spec_get(self, key: Seq<char>) -> Option<JsonValue> {
        match self {
            JsonValue::Object(fields) => lookup(fields@, key),
            _ => None,
        }
    }

    /// The characters of a string value.
    pub open spec fn spec_as_str(self) -> Option<Seq<char>> {
        match self {
            JsonValue::Str(s) => Some(s@),
            _ => None,
        }
    }

    /// A non-negative integer value.
    pub open spec fn spec_as_u64(self) -> Option<u64> {
        match self {
            JsonValue::Number(JsonNumber::PosInt(n)) => Some(n),
            _ => None,
        }
    }

    /// Any number (where the wire side reads it as an `f64`).
    pub open spec fn spec_as_number(self) -> Option<JsonNumber> {
        match self {
            JsonValue::Number(n) => Some(n),
            _ => None,
        }
    }

    /// The string member `key` of an object: `get(key).and_then(as_str)`.
    pub open spec fn str_field(self, key: Seq<char>) -> Option<Seq<char>> {
        match self.spec_get(key) {
            Some(v) => v.spec_as_str(),
            None => None,
        }
    }

    /// The unsigned member `key`: `get(key).and_then(as_u64)`.
    pub open spec fn u64_field(self, key: Seq<char>) -> Option<u64> {
        match self.spec_get(key) {
            Some(v) => v.spec_as_u64(),
            None => None,
        }
    }

    /// The numeric member `key`: `get(key).and_then(as_f64)`.
    pub open spec fn number_field(self, key: Seq<char>) -> Option<JsonNumber> {
        match self.spec_get(key) {
            Some(v) => v.spec_as_number(),
            None => None,
        }
    }

    /// Member lookup.
    pub fn get(&self, key: &str) -> (r: Option<&JsonValue>)
        ensures
            r matches Some(v) ==> self.spec_get(key@) == Some(*v),
            r is None ==> self.spec_get(key@) is None,
    {
        match self {
            JsonValue::Object(fields) => {
                let n = fields.len();
                let mut i: usize = 0;
                while i < n
                    invariant
                        n == fields@.len(),
                        i <= n,
                        forall|j: int| 0 <= j < i ==> !key_is(key@)(#[trigger] fields@[j]),
                        self.spec_get(key@) == lookup(fields@, key@),
                    decreases n - i,
                {
                    if str_eq(fields[i].0.as_str(), key) {
                        proof {
                            assert(key_is(key@)(fields@[i as int]));
                            lemma_first_index_found(fields@, key_is(key@), i as int);
                            assert(lookup(fields@, key@) == Some(fields@[i as int].1));
                        }
                        return Some(&fields[i].1);
                    }
                    i = i + 1;
                }
                proof {
                    lemma_first_index_none(fields@, key_is(key@));
                }
                None
            },
            _ => None,
        }
    }

    /// The characters of a string value.
    pub fn as_str(&self) -> (r: Option<&str>)
        ensures
            r matches Some(s) ==> self.spec_as_str() == Some(s@),
            r is None ==> self.spec_as_str() is None,
    {
        match self {
            JsonValue::Str(s) => Some(s.as_str()),
            _ => None,
        }
    }

    /// A non-negative integer value.
    pub fn as_u64(&self) -> (r: Option<u64>)
        ensures
            r == self.spec_as_u64(),
    {
        match self {
            JsonValue::Number(JsonNumber::PosInt(n)) => Some(*n),
            _ => None,
        }
    }

    /// Any number.
    pub fn as_number(&self) -> (r: Option<JsonNumber>)
        ensures
            r == self.spec_as_number(),
    {
        match self {
            JsonValue::Number(n) => Some(*n),
            _ => None,
        }
    }

    /// `get(key).and_then(as_str)`.
    pub fn get_str(&self, key: &str) -> (r: Option<&str>)
        ensures
            r matches Some(s) ==> self.str_field(key@) == Some(s@),
            r is None ==> self.str_field(key@) is None,
    {
        match self.get(key) {
            Some(v) => v.as_str(),
            None => None,
        }
    }

    /// `get(key).and_then(as_u64)`.
    pub fn get_u64(&self, key: &str) -> (r: Option<u64>)
        ensures
            r == self.u64_field(key@),
    {
        match self.get(key) {
            Some(v) => v.as_u64(),
            None => None,
        }
    }

    /// `get(key).and_then(as_f64)`, with the number kept as it came.
    pub fn get_number(&self, key: &str) -> (r: Option<JsonNumber>)
        ensures
            r == self.number_field(key@),
    {
        match self.get(key) {
            Some(v) => v.as_number(),
            None => None,
        }
    }

    /// Remove the member named `key` from an object and hand it out
    /// (`None` where there is none, or `self` is not an object).
    pub fn take_member(&mut self, key: &str) -> (r: Option<JsonValue>)
        ensures
            r == old(self).spec_get(key@),
            forall|k: Seq<char>| k != key@ ==> #[trigger] final(self).spec_get(k) == old(
                self,
            ).spec_get(k),
    {
        let idx = match self {
            JsonValue::Object(fields) => find_member(fields, key),
            _ => None,
        };
        match idx {
            Some(i) => match self {
                JsonValue::Object(fields) => {
                    let ghost before = fields@;
                    let (_k, v) = fields.remove(i);
                    proof {
                        lemma_first_index_found(before, key_is(key@), i as int);
                        assert forall|k: Seq<char>| k != key@ implies lookup(fields@, k) == lookup(
                            before,
                            k,
                        ) by {
                            lemma_lookup_after_remove(before, i as int, key@, k);
                        }
                    }
                    Some(v)
                },
                _ => None,
            },
            None => None,
        }
    }

    /// Remove the member named `key` and hand it out, `null` where there is
    /// none (`get(key).cloned().unwrap_or(Value::Null)` on an owned value).
    pub fn take_or_null(&mut self, key: &str) -> (r: JsonValue)
        ensures
            old(self).spec_get(key@) matches Some(v) ==> r == v,
            old(self).spec_get(key@) is None ==> r == JsonValue::Null,
            forall|k: Seq<char>| k != key@ ==> #[trigger] final(self).spec_get(k) == old(
                self,
            ).spec_get(k),
    {
        match self.take_member(key) {
            Some(v) => v,
            None => JsonValue::Null,
        }
    }
}

/// Index of the first member of `fields` named `key`.
pub fn find_member(fields: &Vec<(String, JsonValue)>, key: &str) -> (r: Option<usize>)
    ensures
        r matches Some(i) ==> crate::seq_util::is_first(fields@, key_is(key@), i as int),
        r is None ==> first_index(fields@, key_is(key@)) is None,
{
    let n = fields.len();
    let mut i: usize = 0;
    while i < n
        invariant
            n == fields@.len(),
            i <= n,
            forall|j: int| 0 <= j < i ==> !key_is(key@)(#[trigger] fields@[j]),
        decreases n - i,
    {
        if str_eq(fields[i].0.as_str(), key) {
            return Some(i);
        }
        i = i + 1;
    }
    proof {
        lemma_first_index_none(fields@, key_is(key@));
    }
    None
}

/// Removing a member named `key` leaves lookups of any other key as they were.
pub proof fn lemma_lookup_after_remove(
    f: Seq<(String, JsonValue)>,
    i: int,
    key: Seq<char>,
    k: Seq<char>,
)
    requires
        0 <= i < f.len(),
        f[i].0@ == key,
        key != k,
    ensures
        lookup(f.remove(i), k) == lookup(f, k),
{
    let g = f.remove(i);
    let p = key_is(k);
    match first_index(f, p) {
        Some(j) => {
            crate::seq_util::lemma_first_index_exists(f, p, j);
            assert(crate::seq_util::is_first(f, p, j));
            if j < i {
                assert(g[j] == f[j]);
                assert forall|t: int| 0 <= t < j implies !p(#[trigger] g[t]) by {
                    assert(g[t] == f[t]);
                }
                lemma_first_index_found(g, p, j);
            } else {
                assert(j != i);
                assert(g[j - 1] == f[j]);
                assert forall|t: int| 0 <= t < j - 1 implies !p(#[trigger] g[t]) by {
                    if t < i {
                        assert(g[t] == f[t]);
                    } else {
                        assert(g[t] == f[t + 1]);
                    }
                }
                lemma_first_index_found(g, p, j - 1);
            }
        },
        None => {
            assert forall|t: int| 0 <= t < g.len() implies !p(#[trigger] g[t]) by {
                if t < i {
                    assert(g[t] == f[t]);
                    if p(f[t]) {
                        crate::seq_util::lemma_first_index_exists(f, p, t);
                    }
                } else {
                    assert(g[t] == f[t + 1]);
                    if p(f[t + 1]) {
                        crate::seq_util::lemma_first_index_exists(f, p, t + 1);
                    }
                }
            }
            lemma_first_index_none(g, p);
        },
    }
}

/// A member `(key, value)` of an object.
pub fn member(key: &str, value: JsonValue) -> (r: (String, JsonValue))
    ensures
        r.0@ == key@,
        r.1 == value,
{
    (owned(key), value)
}

/// A string value holding the characters of `s`.
pub fn json_str(s: &str) -> (r: JsonValue)
    ensures
        r.spec_as_str() == Some(s@),
{
    JsonValue::Str(owned(s))
}

} // verus!
