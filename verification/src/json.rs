//! JSON values as the frontend reads them from Ekos Live messages, with the
//! accessors it uses (`v[key]`, `as_i64`, `as_u64`, `as_bool`, `as_str`,
//! `as_array`). Numbers keep what integer reads need; a non-integer number is
//! held by its IEEE-754 bit pattern, which only the renderer interprets.

use vstd::prelude::*;

use crate::text::{chars_eq, chars_eq_str, chars_of};

verus! {

/// A JSON number: a non-negative integer, a negative integer, or another
/// number (its `f64` bit pattern).
#[derive(Clone, Copy, Debug, PartialEq, Eq)]
pub enum JsonNumber {
    PosInt(u64),
    NegInt(i64),
    Float(u64),
}

/// A JSON value. Object members keep their order; keys are expected to be
/// distinct, and a lookup takes the first member with the key.
pub enum Json {
    Null,
    Bool(bool),
    Number(JsonNumber),
    Str(String),
    Array(Vec<Json>),
    Object(Vec<JsonMember>),
}

/// One member of a JSON object.
pub struct JsonMember {
    pub key: String,
    pub value: Json,
}

/// The member of `members` named `key`, searching from index `j`.
pub open spec fn member_from(members: Seq<JsonMember>, key: Seq<char>, j: int) -> Option<Json>
    decreases members.len() - j,
{
    if j < 0 || j >= members.len() {
        None
    } else if members[j].key@ == key {
        Some(members[j].value)
    } else {
        member_from(members, key, j + 1)
    }
}

impl Json {
    /// `v.get(key)`: the member `key` of an object.
    pub open spec fn get_spec(&self, key: Seq<char>) -> Option<Json> {
        match self {
            Json::Object(m) => member_from(m@, key, 0),
            _ => None,
        }
    }

    /// `v[key]`: the member `key` of an object, `null` otherwise.
    pub open spec fn at(&self, key: Seq<char>) -> Json {
        match self.get_spec(key) {
            Some(v) => v,
            None => Json::Null,
        }
    }

    /// `as_i64`: an integer that fits in `i64`.
    pub open spec fn i64_of(&self) -> Option<i64> {
        match self {
            Json::Number(JsonNumber::PosInt(u)) => if u <= i64::MAX {
                Some(u as i64)
            } else {
                None
            },
            Json::Number(JsonNumber::NegInt(i)) => Some(*i),
            _ => None,
        }
    }

    /// `as_u64`: a non-negative integer.
    pub open spec fn u64_of(&self) -> Option<u64> {
        match self {
            Json::Number(JsonNumber::PosInt(u)) => Some(*u),
            _ => None,
        }
    }

    /// `as_bool`.
    pub open spec fn bool_of(&self) -> Option<bool> {
        match self {
            Json::Bool(b) => Some(*b),
            _ => None,
        }
    }

    /// `as_str`.
    pub open spec fn str_of(&self) -> Option<Seq<char>> {
        match self {
            Json::Str(s) => Some(s@),
            _ => None,
        }
    }

    /// `v.get(key)`.
    pub fn get(&self, key: &str) -> (r: Option<&Json>)
        ensures
            match self.get_spec(key@) {
                Some(v) => r matches Some(x) && *x == v,
                None => r is None,
            },
    {
        match self {
            Json::Object(m) => {
                let kv = chars_of(key);
                let mut i: usize = 0;
                while i < m.len()
                    invariant
                        i <= m@.len(),
                        kv@ == key@,
                        self.get_spec(key@) == member_from(m@, key@, i as int),
                    decreases m.len() - i,
                {
                    let mk = chars_of(m[i].key.as_str());
                    if chars_eq(&mk, &kv) {
                        assert(m@[i as int].key@ == key@);
                        assert(member_from(m@, key@, i as int) == Some(m@[i as int].value));
                        assert(self.get_spec(key@) == Some(m@[i as int].value));
                        let r = &m[i].value;
                        assert(*r == m@[i as int].value);
                        return Some(r);
                    }
                    i += 1;
                }
                None
            },
            _ => None,
        }
    }

    /// `v[key].as_i64()`.
    pub fn i64_at(&self, key: &str) -> (r: Option<i64>)
        ensures
            r == self.at(key@).i64_of(),
    {
        match self.get(key) {
            Some(v) => v.as_i64(),
            None => None,
        }
    }

    /// `v[key].as_u64()`.
    pub fn u64_at(&self, key: &str) -> (r: Option<u64>)
        ensures
            r == self.at(key@).u64_of(),
    {
        match self.get(key) {
            Some(v) => v.as_u64(),
            None => None,
        }
    }

    /// `v[key].as_bool()`.
    pub fn bool_at(&self, key: &str) -> (r: Option<bool>)
        ensures
            r == self.at(key@).bool_of(),
    {
        match self.get(key) {
            Some(v) => v.as_bool(),
            None => None,
        }
    }

    /// `v[key].as_str()`.
    pub fn str_at(&self, key: &str) -> (r: Option<&str>)
        ensures
            match self.at(key@).str_of() {
                Some(s) => r matches Some(x) && x@ == s,
                None => r is None,
            },
    {
        match self.get(key) {
            Some(v) => v.as_str(),
            None => None,
        }
    }

    /// `as_i64`.
    pub fn as_i64(&self) -> (r: Option<i64>)
        ensures
            r == self.i64_of(),
    {
        match self {
            Json::Number(JsonNumber::PosInt(u)) => {
                if *u <= 0x7fff_ffff_ffff_ffff {
                    Some(*u as i64)
                } else {
                    None
                }
            },
            Json::Number(JsonNumber::NegInt(i)) => Some(*i),
            _ => None,
        }
    }

    /// `as_u64`.
    pub fn as_u64(&self) -> (r: Option<u64>)
        ensures
            r == self.u64_of(),
    {
        match self {
            Json::Number(JsonNumber::PosInt(u)) => Some(*u),
            _ => None,
        }
    }

    /// `as_bool`.
    pub fn as_bool(&self) -> (r: Option<bool>)
        ensures
            r == self.bool_of(),
    {
        match self {
            Json::Bool(b) => Some(*b),
            _ => None,
        }
    }

    /// `as_str`.
    pub fn as_str(&self) -> (r: Option<&str>)
        ensures
            match self.str_of() {
                Some(s) => r matches Some(x) && x@ == s,
                None => r is None,
            },
    {
        match self {
            Json::Str(s) => Some(s.as_str()),
            _ => None,
        }
    }

    /// `as_array`.
    pub fn as_array(&self) -> (r: Option<&Vec<Json>>)
        ensures
            match self {
                Json::Array(a) => r matches Some(x) && x == a,
                _ => r is None,
            },
    {
        match self {
            Json::Array(a) => Some(a),
            _ => None,
        }
    }

    /// `is_array`.
    pub fn is_array(&self) -> (r: bool)
        ensures
            r == (self is Array),
    {
        match self {
            Json::Array(_) => true,
            _ => false,
        }
    }

    /// Whether this value is the string `s`.
    pub fn is_str(&self, s: &str) -> (r: bool)
        ensures
            r == (self.str_of() == Some(s@)),
    {
        match self {
            Json::Str(t) => {
                let a = chars_of(t.as_str());
                chars_eq_str(&a, s)
            },
            _ => false,
        }
    }
}

/// `v[key]` by reference, `Null` when absent.
pub fn member<'a>(v: &'a Json, key: &str, null: &'a Json) -> (r: &'a Json)
    requires
        *null == Json::Null,
    ensures
        *r == v.at(key@),
{
    match v.get(key) {
        Some(x) => x,
        None => null,
    }
}

} // verus!
