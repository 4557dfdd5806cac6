//! A plain JSON document tree, as read by the worker and inspection contracts.
//!
//! Object entries keep their order; a lookup answers with the first entry whose
//! key matches, which for a parsed JSON object (unique keys) is the only one.
use vstd::prelude::*;

use crate::text::str_eq;

verus! {

/// A JSON number, kept in the form that the wire reader produced it.
#[derive(Debug, Clone, PartialEq)]
pub enum JsonNumber {
    /// A non-negative integer that fits in a `u64`.
    PosInt(u64),
    /// A negative integer that fits in an `i64`.
    NegInt(i64),
    /// Any other number, held by the bit pattern of its IEEE-754 double.
    Float(u64),
}

/// A JSON value.
#[derive(Debug, PartialEq)]
pub enum JsonValue {
    Null,
    Bool(bool),
    Number(JsonNumber),
    String(String),
    Array(Vec<JsonValue>),
    Object(Vec<(String, JsonValue)>),
}

/// The value of the first entry of `entries` whose key is `key`.
pub open spec fn entries_lookup(entries: Seq<(String, JsonValue)>, key: Seq<char>) -> Option<JsonValue>
    decreases entries.len(),
{
    if entries.len() == 0 {
        None
    } else if entries[0].0@ == key {
        Some(entries[0].1)
    } else {
        entries_lookup(entries.skip(1), key)
    }
}

pub proof fn lemma_lookup_step(entries: Seq<(String, JsonValue)>, i: int, key: Seq<char>)
    requires
        0 <= i < entries.len(),
    ensures
        entries_lookup(entries.skip(i), key) == (if entries[i].0@ == key {
            Some(entries[i].1)
        } else {
            entries_lookup(entries.skip(i + 1), key)
        }),
{
    assert(entries.skip(i).skip(1) =~= entries.skip(i + 1));
}

impl JsonValue {
    /// The member `key` of an object; `None` for a missing member or a non-object.
    pub open spec fn field(self, key: Seq<char>) -> Option<JsonValue> {
        match self {
            JsonValue::Object(entries) => entries_lookup(entries@, key),
            _ => None,
        }
    }

    pub open spec fn spec_is_object(self) -> bool {
        self is Object
    }

    pub open spec fn spec_is_null(self) -> bool {
        self is Null
    }

    pub open spec fn spec_is_string(self) -> bool {
        self is String
    }

    /// The number as a `u64`, when it is a non-negative integer.
    pub open spec fn spec_as_u64(self) -> Option<u64> {
        match self {
            JsonValue::Number(JsonNumber::PosInt(n)) => Some(n),
            _ => None,
        }
    }

    pub open spec fn spec_as_bool(self) -> Option<bool> {
        match self {
            JsonValue::Bool(b) => Some(b),
            _ => None,
        }
    }

    pub open spec fn spec_as_str(self) -> Option<Seq<char>> {
        match self {
            JsonValue::String(s) => Some(s@),
            _ => None,
        }
    }

    pub open spec fn spec_as_array(self) -> Option<Seq<JsonValue>> {
        match self {
            JsonValue::Array(items) => Some(items@),
            _ => None,
        }
    }

    /// Member `key` read as a string.
    pub open spec fn field_str(self, key: Seq<char>) -> Option<Seq<char>> {
        match self.field(key) {
            Some(v) => v.spec_as_str(),
            None => None,
        }
    }

    /// Member `key` read as a `u64`.
    pub open spec fn field_u64(self, key: Seq<char>) -> Option<u64> {
        match self.field(key) {
            Some(v) => v.spec_as_u64(),
            None => None,
        }
    }

    /// Member `key` read as a boolean.
    pub open spec fn field_bool(self, key: Seq<char>) -> Option<bool> {
        match self.field(key) {
            Some(v) => v.spec_as_bool(),
            None => None,
        }
    }

    /// Member `key` read as an array.
    pub open spec fn field_array(self, key: Seq<char>) -> Option<Seq<JsonValue>> {
        match self.field(key) {
            Some(v) => v.spec_as_array(),
            None => None,
        }
    }

    /// Whether member `key` is present and is an object.
    pub open spec fn field_is_object(self, key: Seq<char>) -> bool {
        match self.field(key) {
            Some(v) => v is Object,
            None => false,
        }
    }

    pub fn is_object(&self) -> (r: bool)
        ensures
            r == self.spec_is_object(),
    {
        match self {
            JsonValue::Object(_) => true,
            _ => false,
        }
    }

    pub fn is_null(&self) -> (r: bool)
        ensures
            r == self.spec_is_null(),
    {
        match self {
            JsonValue::Null => true,
            _ => false,
        }
    }

    pub fn is_string(&self) -> (r: bool)
        ensures
            r == self.spec_is_string(),
    {
        match self {
            JsonValue::String(_) => true,
            _ => false,
        }
    }

    pub fn as_u64(&self) -> (r: Option<u64>)
        ensures
            r == self.spec_as_u64(),
    {
        match self {
            JsonValue::Number(JsonNumber::PosInt(n)) => Some(*n),
            _ => None,
        }
    }

    pub fn as_bool(&self) -> (r: Option<bool>)
        ensures
            r == self.spec_as_bool(),
    {
        match self {
            JsonValue::Bool(b) => Some(*b),
            _ => None,
        }
    }

    pub fn as_str(&self) -> (r: Option<&str>)
        ensures
            r is Some <==> self.spec_as_str() is Some,
            r matches Some(s) ==> self.spec_as_str() == Some(s@),
    {
        match self {
            JsonValue::String(s) => Some(s.as_str()),
            _ => None,
        }
    }

    pub fn as_array(&self) -> (r: Option<&Vec<JsonValue>>)
        ensures
            r is Some <==> self.spec_as_array() is Some,
            r matches Some(items) ==> self.spec_as_array() == Some(items@),
    {
        match self {
            JsonValue::Array(items) => Some(items),
            _ => None,
        }
    }

    /// The member `key` of an object, as `serde_json::Value::get` finds it.
    pub fn get(&self, key: &str) -> (r: Option<&JsonValue>)
        ensures
            r is Some <==> self.field(key@) is Some,
            r matches Some(v) ==> self.field(key@) == Some(*v),
    {
        match self {
            JsonValue::Object(entries) => {
                let mut i: usize = 0;
                assert(entries@.skip(0) =~= entries@);
                while i < entries.len()
                    invariant
                        0 <= i <= entries.len(),
                        self.field(key@) == entries_lookup(entries@.skip(i as int), key@),
                    decreases entries.len() - i,
                {
                    proof {
                        lemma_lookup_step(entries@, i as int, key@);
                    }
                    if str_eq(entries[i].0.as_str(), key) {
                        return Some(&entries[i].1);
                    }
                    i += 1;
                }
                assert(entries@.skip(i as int).len() == 0);
                None
            },
            _ => None,
        }
    }

    /// Member `key` read as a string.
    pub fn get_str(&self, key: &str) -> (r: Option<&str>)
        ensures
            r is Some <==> self.field_str(key@) is Some,
            r matches Some(s) ==> self.field_str(key@) == Some(s@),
    {
        match self.get(key) {
            Some(v) => v.as_str(),
            None => None,
        }
    }

    /// Member `key` read as a `u64`.
    pub fn get_u64(&self, key: &str) -> (r: Option<u64>)
        ensures
            r == self.field_u64(key@),
    {
        match self.get(key) {
            Some(v) => v.as_u64(),
            None => None,
        }
    }

    /// Member `key` read as a boolean.
    pub fn get_bool(&self, key: &str) -> (r: Option<bool>)
        ensures
            r == self.field_bool(key@),
    {
        match self.get(key) {
            Some(v) => v.as_bool(),
            None => None,
        }
    }

    /// Member `key` read as an array.
    pub fn get_array(&self, key: &str) -> (r: Option<&Vec<JsonValue>>)
        ensures
            r is Some <==> self.field_array(key@) is Some,
            r matches Some(items) ==> self.field_array(key@) == Some(items@),
    {
        match self.get(key) {
            Some(v) => v.as_array(),
            None => None,
        }
    }

    /// Whether member `key` is present and is an object.
    pub fn get_is_object(&self, key: &str) -> (r: bool)
        ensures
            r == self.field_is_object(key@),
    {
        match self.get(key) {
            Some(v) => v.is_object(),
            None => false,
        }
    }
}

/// Whether every item is a JSON string.
pub open spec fn all_strings(items: Seq<JsonValue>) -> bool {
    forall|i: int| 0 <= i < items.len() ==> (#[trigger] items[i]) is String
}

/// Whether every item of `items` is a JSON string.
pub fn all_strings_exec(items: &Vec<JsonValue>) -> (r: bool)
    ensures
        r == all_strings(items@),
{
    let mut i: usize = 0;
    while i < items.len()
        invariant
            0 <= i <= items.len(),
            forall|j: int| 0 <= j < i ==> (#[trigger] items@[j]) is String,
        decreases items.len() - i,
    {
        if !items[i].is_string() {
            return false;
        }
        i += 1;
    }
    true
}

/// `j` is the JSON string `s`.
pub open spec fn str_json(j: JsonValue, s: Seq<char>) -> bool {
    j.spec_as_str() == Some(s)
}

/// `j` is the JSON string `s`, or `null` for none.
pub open spec fn opt_str_json(j: JsonValue, s: Option<Seq<char>>) -> bool {
    match s {
        Some(x) => str_json(j, x),
        None => j is Null,
    }
}

/// `j` is an object whose members are, in order, keyed by `keys`.
pub open spec fn object_keys(j: JsonValue, keys: Seq<Seq<char>>) -> bool {
    match j {
        JsonValue::Object(es) => es@.len() == keys.len() && forall|i: int| 0 <= i < keys.len() ==> (#[trigger] es@[i]).0@ == keys[i],
        _ => false,
    }
}

/// Member `i` of an object's entries.
pub open spec fn member(j: JsonValue, i: int) -> JsonValue {
    j->Object_0@[i].1
}

} // verus!
