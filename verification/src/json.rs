//! The library's own model of the free-form initialization options.
//!
//! The host hands the plugin a JSON document; the resolution only ever reads
//! object members by key, array elements, and strings. This model holds
//! exactly those as plain values. Numeric payloads are never read by the
//! resolution, so `Number` carries none.

use vstd::prelude::*;

verus! {

/// One member of a JSON object.
pub struct JsonMember {
    pub key: String,
    pub value: JsonValue,
}

/// A JSON value, as far as the resolution reads one.
pub enum JsonValue {
    Null,
    Bool(bool),
    Number,
    Str(String),
    Array(Vec<JsonValue>),
    Object(Vec<JsonMember>),
}

/// The value of the first member named `key`, looking from index `i` on.
pub open spec fn spec_lookup_from(members: Seq<JsonMember>, key: Seq<char>, i: int) -> Option<
    JsonValue,
>
    decreases members.len() - i,
{
    if i < 0 || i >= members.len() {
        None
    } else if members[i].key@ == key {
        Some(members[i].value)
    } else {
        spec_lookup_from(members, key, i + 1)
    }
}

/// The value of the first member named `key`, if any.
pub open spec fn spec_lookup(members: Seq<JsonMember>, key: Seq<char>) -> Option<JsonValue> {
    spec_lookup_from(members, key, 0)
}

impl JsonValue {
    /// The member named `key` of an object; `None` on any other value.
    pub open spec fn spec_get(self, key: Seq<char>) -> Option<JsonValue> {
        match self {
            JsonValue::Object(members) => spec_lookup(members@, key),
            _ => None,
        }
    }

    /// The member named `key`, if `self` is an object that has one.
    pub fn get<'a>(&'a self, key: &str) -> (r: Option<&'a JsonValue>)
        ensures
            match r {
                Some(v) => self.spec_get(key@) == Some(*v),
                None => self.spec_get(key@) is None,
            },
    {
        match self {
            JsonValue::Object(members) => {
                let wanted: String = key.to_owned();
                let n = members.len();
                let mut i: usize = 0;
                while i < n
                    invariant
                        n == members@.len(),
                        0 <= i <= n,
                        wanted@ == key@,
                        *self == JsonValue::Object(*members),
                        self.spec_get(key@) == spec_lookup_from(members@, key@, i as int),
                    decreases n - i,
                {
                    if members[i].key == wanted {
                        assert(spec_lookup_from(members@, key@, i as int) == Some(
                            members@[i as int].value,
                        ));
                        return Some(&members[i].value);
                    }
                    assert(spec_lookup_from(members@, key@, i as int) == spec_lookup_from(
                        members@,
                        key@,
                        i + 1,
                    ));
                    i = i + 1;
                }
                None
            },
            _ => None,
        }
    }

    /// The characters of `self`, if it is a string.
    pub fn as_str<'a>(&'a self) -> (r: Option<&'a str>)
        ensures
            r is Some <==> self is Str,
            self matches JsonValue::Str(s) ==> (r matches Some(t) && t@ == s@),
    {
        match self {
            JsonValue::Str(s) => Some(s.as_str()),
            _ => None,
        }
    }

    /// The elements of `self`, if it is an array.
    pub fn as_array<'a>(&'a self) -> (r: Option<&'a Vec<JsonValue>>)
        ensures
            r is Some <==> self is Array,
            self matches JsonValue::Array(items) ==> (r matches Some(v) && v@ == items@),
    {
        match self {
            JsonValue::Array(items) => Some(items),
            _ => None,
        }
    }
}

} // verus!
