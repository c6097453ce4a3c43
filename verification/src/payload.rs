//! The part of a JSON notification payload (or preference document) that
//! the notification rules read: the top-level members of an object, each
//! with its scalar value. Nested objects and arrays, and numbers that are
//! not `i64`, are kept only as "some other value".

use vstd::prelude::*;
use crate::number::{parse_i64, spec_parse_i64};
use crate::text::str_eq;

verus! {

/// A member value as the rules see it.
#[derive(Debug)]
pub enum JsonScalar {
    Null,
    Bool(bool),
    Int(i64),
    Str(String),
    /// A nested object or array, or a number outside `i64`.
    Other,
}

/// The members of a JSON value; `is_object` is false (and there are no
/// members) when the value is not an object.
#[derive(Debug)]
pub struct JsonObject {
    pub is_object: bool,
    pub fields: Vec<(String, JsonScalar)>,
}

/// The value of the first member named `key` (a JSON object has at most one).
pub open spec fn lookup(fields: Seq<(String, JsonScalar)>, key: Seq<char>) -> Option<JsonScalar>
    decreases fields.len(),
{
    if fields.len() == 0 {
        None
    } else if fields[0].0@ == key {
        Some(fields[0].1)
    } else {
        lookup(fields.drop_first(), key)
    }
}

/// The text of a string member.
pub open spec fn str_member(fields: Seq<(String, JsonScalar)>, key: Seq<char>) -> Option<Seq<char>> {
    match lookup(fields, key) {
        Some(JsonScalar::Str(s)) => Some(s@),
        _ => None,
    }
}

/// The value of a boolean member.
pub open spec fn bool_member(fields: Seq<(String, JsonScalar)>, key: Seq<char>) -> Option<bool> {
    match lookup(fields, key) {
        Some(JsonScalar::Bool(b)) => Some(b),
        _ => None,
    }
}

/// The value of an integer member.
pub open spec fn int_member(fields: Seq<(String, JsonScalar)>, key: Seq<char>) -> Option<i64> {
    match lookup(fields, key) {
        Some(JsonScalar::Int(v)) => Some(v),
        _ => None,
    }
}

/// A positive id written as a decimal string member.
pub open spec fn spec_numeric_payload_id(fields: Seq<(String, JsonScalar)>, key: Seq<char>) -> Option<i64> {
    match str_member(fields, key) {
        Some(s) => match spec_parse_i64(s) {
            Ok(v) => if v > 0 { Some(v) } else { None },
            Err(_) => None,
        },
        None => None,
    }
}

proof fn lemma_lookup_skip(fields: Seq<(String, JsonScalar)>, key: Seq<char>, i: int)
    requires
        0 <= i < fields.len(),
        fields[i].0@ != key,
    ensures
        lookup(fields.skip(i), key) == lookup(fields.skip(i + 1), key),
{
    assert(fields.skip(i).drop_first() =~= fields.skip(i + 1));
}

/// The index of the first member named `key`.
pub fn find_member(fields: &Vec<(String, JsonScalar)>, key: &str) -> (r: Option<usize>)
    ensures
        match r {
            Some(i) => i < fields@.len() && fields@[i as int].0@ == key@ && lookup(fields@, key@) == Some(fields@[i as int].1),
            None => lookup(fields@, key@) is None,
        },
{
    let mut i: usize = 0;
    assert(fields@.skip(0) =~= fields@);
    while i < fields.len()
        invariant
            i <= fields@.len(),
            lookup(fields@, key@) == lookup(fields@.skip(i as int), key@),
        decreases fields.len() - i,
    {
        if str_eq(fields[i].0.as_str(), key) {
            return Some(i);
        }
        proof {
            lemma_lookup_skip(fields@, key@, i as int);
        }
        i = i + 1;
    }
    None
}

/// The text of a string member.
pub fn get_str<'a>(obj: &'a JsonObject, key: &str) -> (r: Option<&'a str>)
    ensures
        match r {
            Some(s) => str_member(obj.fields@, key@) == Some(s@),
            None => str_member(obj.fields@, key@) is None,
        },
{
    match find_member(&obj.fields, key) {
        Some(i) => match &obj.fields[i].1 {
            JsonScalar::Str(s) => Some(s.as_str()),
            _ => None,
        },
        None => None,
    }
}

/// The value of a boolean member.
pub fn get_bool(obj: &JsonObject, key: &str) -> (r: Option<bool>)
    ensures
        r == bool_member(obj.fields@, key@),
{
    match find_member(&obj.fields, key) {
        Some(i) => match &obj.fields[i].1 {
            JsonScalar::Bool(b) => Some(*b),
            _ => None,
        },
        None => None,
    }
}

/// The value of an integer member.
pub fn get_int(obj: &JsonObject, key: &str) -> (r: Option<i64>)
    ensures
        r == int_member(obj.fields@, key@),
{
    match find_member(&obj.fields, key) {
        Some(i) => match &obj.fields[i].1 {
            JsonScalar::Int(v) => Some(*v),
            _ => None,
        },
        None => None,
    }
}

/// A positive id stored as a decimal string member (ids travel as strings).
pub fn numeric_payload_id(payload: &JsonObject, field: &str) -> (r: Option<i64>)
    ensures
        r == spec_numeric_payload_id(payload.fields@, field@),
{
    match get_str(payload, field) {
        Some(s) => match parse_i64(s) {
            Ok(v) => if v > 0 {
                Some(v)
            } else {
                None
            },
            Err(_) => None,
        },
        None => None,
    }
}

/// Member `i` of the payload is the text member `name` with value `value`.
pub open spec fn text_member(p: JsonObject, i: int, name: Seq<char>, value: Seq<char>) -> bool {
    &&& 0 <= i < p.fields@.len()
    &&& p.fields@[i].0@ == name
    &&& p.fields@[i].1 matches JsonScalar::Str(s) && s@ == value
}

/// A text member of a payload.
pub fn text_field(name: &str, value: String) -> (f: (String, JsonScalar))
    ensures
        f.0@ == name@,
        f.1 matches JsonScalar::Str(s) && s@ == value@,
{
    (String::from_str(name), JsonScalar::Str(value))
}

} // verus!
