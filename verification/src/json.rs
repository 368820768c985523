//! Reading values out of JSON documents.

use crate::number::Number;
use vstd::prelude::*;

verus! {

/// `serde_json::Value`, a JSON value of any kind.
#[verifier::external_type_specification]
#[verifier::external_body]
pub struct ExValue(serde_json::Value);

/// What a JSON value holds, as far as command payloads are concerned.
pub enum Shape {
    /// A boolean.
    Bool(bool),
    /// A number: its double-precision form by bit pattern, and its value as an unsigned integer
    /// where it is one.
    Number { real_bits: Option<u64>, unsigned: Option<u64> },
    /// An object, by its members.
    Object(Map<Seq<char>, serde_json::Value>),
    /// Null, a string or an array.
    Other,
}

/// The contents of a JSON value.
pub uninterp spec fn shape(v: serde_json::Value) -> Shape;

/// `Value::get` with a string index: the member of that name if the value is an object that has
/// it, and nothing for any other value.
#[verifier::external_body]
fn value_get<'a>(v: &'a serde_json::Value, key: &str) -> (r: Option<&'a serde_json::Value>)
    ensures
        match shape(*v) {
            Shape::Object(members) => if members.contains_key(key@) {
                r == Some(&members[key@])
            } else {
                r is None
            },
            _ => r is None,
        },
{
    v.get(key)
}

/// `Value::as_bool`: the boolean if the value is one.
#[verifier::external_body]
fn value_as_bool(v: &serde_json::Value) -> (r: Option<bool>)
    ensures
        r == (match shape(*v) {
            Shape::Bool(b) => Some(b),
            _ => None,
        }),
{
    v.as_bool()
}

/// `Value::as_u64`: the number if the value is an integer that fits.
#[verifier::external_body]
fn value_as_u64(v: &serde_json::Value) -> (r: Option<u64>)
    ensures
        r == (match shape(*v) {
            Shape::Number { unsigned, .. } => unsigned,
            _ => None,
        }),
{
    v.as_u64()
}

/// `Value::as_f64`: the number in double precision if the value is a number, by its bit pattern.
/// A JSON number is always finite.
#[verifier::external_body]
fn value_as_real_bits(v: &serde_json::Value) -> (r: Option<u64>)
    ensures
        r == (match shape(*v) {
            Shape::Number { real_bits, .. } => real_bits,
            _ => None,
        }),
        r is Some ==> (Number { bits: r->0 }).is_finite_spec(),
{
    match v.as_f64() {
        Some(x) => Some(x.to_bits()),
        None => None,
    }
}

/// Whether a value is an object with a member of this name, whatever the member holds.
pub open spec fn has_member(v: serde_json::Value, key: Seq<char>) -> bool {
    match shape(v) {
        Shape::Object(members) => members.contains_key(key),
        _ => false,
    }
}

/// What the member of this name holds; as good as null where there is none.
pub open spec fn member_shape(v: serde_json::Value, key: Seq<char>) -> Shape {
    match shape(v) {
        Shape::Object(members) => if members.contains_key(key) {
            shape(members[key])
        } else {
            Shape::Other
        },
        _ => Shape::Other,
    }
}

/// The boolean member of this name.
pub open spec fn bool_member_of(v: serde_json::Value, key: Seq<char>) -> Option<bool> {
    match member_shape(v, key) {
        Shape::Bool(b) => Some(b),
        _ => None,
    }
}

/// The unsigned integer member of this name.
pub open spec fn unsigned_member_of(v: serde_json::Value, key: Seq<char>) -> Option<u64> {
    match member_shape(v, key) {
        Shape::Number { unsigned, .. } => unsigned,
        _ => None,
    }
}

/// The number member of this name, by its bit pattern.
pub open spec fn real_member_of(v: serde_json::Value, key: Seq<char>) -> Option<u64> {
    match member_shape(v, key) {
        Shape::Number { real_bits, .. } => real_bits,
        _ => None,
    }
}

/// Looks up a member of an object.
pub fn member<'a>(v: &'a serde_json::Value, key: &str) -> (r: Option<&'a serde_json::Value>)
    ensures
        r is Some <==> has_member(*v, key@),
        r matches Some(m) ==> shape(*m) == member_shape(*v, key@),
{
    value_get(v, key)
}

/// Reads a boolean member.
pub fn bool_member(v: &serde_json::Value, key: &str) -> (r: Option<bool>)
    ensures
        r == bool_member_of(*v, key@),
{
    match value_get(v, key) {
        Some(m) => value_as_bool(m),
        None => None,
    }
}

/// Reads an unsigned integer member.
pub fn unsigned_member(v: &serde_json::Value, key: &str) -> (r: Option<u64>)
    ensures
        r == unsigned_member_of(*v, key@),
{
    match value_get(v, key) {
        Some(m) => value_as_u64(m),
        None => None,
    }
}

/// Reads a number member, by its bit pattern. The number is finite.
pub fn real_member(v: &serde_json::Value, key: &str) -> (r: Option<u64>)
    ensures
        r == real_member_of(*v, key@),
        r is Some ==> (Number { bits: r->0 }).is_finite_spec(),
{
    match value_get(v, key) {
        Some(m) => value_as_real_bits(m),
        None => None,
    }
}

/// A member is what stands in the object under exactly its name; it is read as a boolean, as an
/// unsigned integer or as a number only if it is one.
pub proof fn members_are_found_by_name(
    v: serde_json::Value,
    members: Map<Seq<char>, serde_json::Value>,
    key: Seq<char>,
)
    requires
        shape(v) == Shape::Object(members),
    ensures
        has_member(v, key) <==> members.contains_key(key),
        members.contains_key(key) ==> member_shape(v, key) == shape(members[key]),
        bool_member_of(v, key) is Some <==> members.contains_key(key) && shape(
            members[key],
        ) is Bool,
        bool_member_of(v, key) is Some ==> shape(members[key]) == Shape::Bool(
            bool_member_of(v, key)->0,
        ),
        unsigned_member_of(v, key) == (if members.contains_key(key) && shape(
            members[key],
        ) is Number {
            shape(members[key])->unsigned
        } else {
            None
        }),
        real_member_of(v, key) == (if members.contains_key(key) && shape(members[key]) is Number {
            shape(members[key])->real_bits
        } else {
            None
        }),
{
}

/// What is no object has no members.
pub proof fn only_objects_have_members(v: serde_json::Value, key: Seq<char>)
    requires
        !(shape(v) is Object),
    ensures
        !has_member(v, key),
        bool_member_of(v, key) is None,
        unsigned_member_of(v, key) is None,
        real_member_of(v, key) is None,
{
}

} // verus!
