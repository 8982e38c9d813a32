//! JSON values as mathematics.
//!
//! Documents are parsed and held by `serde_json`. Verus cannot look inside a
//! `serde_json::Value`, so this module names its content, [`json_of`], as a
//! [`Json`] tree, and states what each `serde_json` accessor does in terms of that
//! tree. These statements are taken on trust; everything above them is proved from
//! them.

use serde_json::{Number, Value};
use vstd::prelude::*;

verus! {

#[verifier::external_type_specification]
#[verifier::external_body]
pub struct ExValue(serde_json::Value);

#[verifier::external_type_specification]
#[verifier::external_body]
pub struct ExNumber(serde_json::Number);

#[verifier::external_type_specification]
#[verifier::external_body]
pub struct ExError(serde_json::Error);

#[verifier::external_type_specification]
#[verifier::external_body]
#[verifier::reject_recursive_types(K)]
#[verifier::reject_recursive_types(V)]
pub struct ExMap<K, V>(serde_json::Map<K, V>);

/// The members of a JSON object, as `serde_json` holds them.
pub type Members = serde_json::Map<String, Value>;

/// The content of a JSON number.
pub enum Num {
    /// A number written without fraction or exponent.
    Int(int),
    /// Any other number, identified by the bits of the binary64 value it was read as.
    Real(u64),
}

/// The content of a JSON value.
pub enum Json {
    Null,
    Bool(bool),
    Number(Num),
    String(Seq<char>),
    Array(Seq<Json>),
    Object(Map<Seq<char>, Json>),
}

impl Json {
    /// Whether this is an object with a member called `key`.
    pub open spec fn has(self, key: Seq<char>) -> bool {
        self matches Json::Object(members) && members.contains_key(key)
    }

    /// The member called `key`; `Null` stands for a member that is not there.
    pub open spec fn member(self, key: Seq<char>) -> Json {
        match self {
            Json::Object(members) => if members.contains_key(key) {
                members[key]
            } else {
                Json::Null
            },
            _ => Json::Null,
        }
    }

    /// This object without the member called `key`.
    pub open spec fn without(self, key: Seq<char>) -> Json {
        match self {
            Json::Object(members) => Json::Object(members.remove(key)),
            _ => self,
        }
    }

    /// This object with the member called `key` set to `value`.
    pub open spec fn with(self, key: Seq<char>, value: Json) -> Json {
        match self {
            Json::Object(members) => Json::Object(members.insert(key, value)),
            _ => self,
        }
    }
}

/// The content of a `serde_json::Value`.
pub uninterp spec fn json_of(v: Value) -> Json;

/// The content of a `serde_json::Number`.
pub uninterp spec fn num_of(n: Number) -> Num;

/// The members of a `serde_json::Map`.
pub uninterp spec fn members_of(m: Members) -> Map<Seq<char>, Json>;

/// What `serde_json` reads from a text, `None` where it reports an error.
pub uninterp spec fn parse_json(text: Seq<u8>) -> Option<Json>;

/// The members of the empty object.
pub open spec fn no_members() -> Map<Seq<char>, Json> {
    Map::empty()
}

/// The contents of a vector of values, item by item.
pub open spec fn items_of(items: Seq<Value>) -> Seq<Json> {
    Seq::new(items.len(), |i: int| json_of(items[i]))
}

/// How leaving a member out, or setting it to `null`, shows in the members of an object:
/// that member reads as `null`, and every other member reads as before.
pub proof fn lemma_member_left_out(j: Json, key: Seq<char>, other: Seq<char>)
    ensures
        j.without(key).member(other) == (if other == key {
            Json::Null
        } else {
            j.member(other)
        }),
        j.with(key, Json::Null).member(other) == j.without(key).member(other),
        j.without(key) is Object <==> j is Object,
        j.with(key, Json::Null) is Object <==> j is Object,
{
}

/// `Clone` for `serde_json::Number`: the copy is the same number.
pub assume_specification[ <serde_json::Number as Clone>::clone ](n: &serde_json::Number) -> (r:
    serde_json::Number)
    ensures
        num_of(r) == num_of(*n),
;

/// `serde_json::from_slice`, at `Value`: the value read from the whole text, or the
/// error that `serde_json` reports. Which texts are accepted is left to `serde_json`;
/// the contract only names the outcome, [`parse_json`].
#[verifier::external_body]
pub(crate) fn parse(text: &[u8]) -> (r: Result<Value, serde_json::Error>)
    ensures
        match r {
            Ok(v) => parse_json(text@) == Some(json_of(v)),
            Err(_) => parse_json(text@) is None,
        },
{
    serde_json::from_slice::<Value>(text)
}

/// `Value::get` with a string index: the member of that name where the value is an
/// object that has one, and nothing otherwise.
#[verifier::external_body]
pub(crate) fn value_get<'a>(v: &'a Value, key: &str) -> (r: Option<&'a Value>)
    ensures
        match r {
            Some(m) => json_of(*v).has(key@) && json_of(*m) == json_of(*v).member(key@),
            None => !json_of(*v).has(key@),
        },
{
    v.get(key)
}

/// `Value::is_null`.
#[verifier::external_body]
pub(crate) fn value_is_null(v: &Value) -> (r: bool)
    ensures
        r == (json_of(*v) is Null),
{
    v.is_null()
}

/// `Value::is_object`.
#[verifier::external_body]
pub(crate) fn value_is_object(v: &Value) -> (r: bool)
    ensures
        r == (json_of(*v) is Object),
{
    v.is_object()
}

/// `Value::as_bool`: the boolean, where the value is one.
#[verifier::external_body]
pub(crate) fn value_as_bool(v: &Value) -> (r: Option<bool>)
    ensures
        r == (match json_of(*v) {
            Json::Bool(b) => Some(b),
            _ => None,
        }),
{
    v.as_bool()
}

/// `Value::as_u64`: the number, where the value is an integer from 0 to `u64::MAX`.
#[verifier::external_body]
pub(crate) fn value_as_u64(v: &Value) -> (r: Option<u64>)
    ensures
        r == (match json_of(*v) {
            Json::Number(Num::Int(n)) if 0 <= n <= u64::MAX => Some(n as u64),
            _ => None,
        }),
{
    v.as_u64()
}

/// `Value::as_i64`: the number, where the value is an integer from `i64::MIN` to
/// `i64::MAX`.
#[verifier::external_body]
pub(crate) fn value_as_i64(v: &Value) -> (r: Option<i64>)
    ensures
        r == (match json_of(*v) {
            Json::Number(Num::Int(n)) if i64::MIN <= n <= i64::MAX => Some(n as i64),
            _ => None,
        }),
{
    v.as_i64()
}

/// `Value::as_number`: the number, where the value is one.
#[verifier::external_body]
pub(crate) fn value_as_number<'a>(v: &'a Value) -> (r: Option<&'a Number>)
    ensures
        match r {
            Some(n) => json_of(*v) == Json::Number(num_of(*n)),
            None => !(json_of(*v) is Number),
        },
{
    v.as_number()
}

/// `Value::as_str`: the text, where the value is a string.
#[verifier::external_body]
pub(crate) fn value_as_str<'a>(v: &'a Value) -> (r: Option<&'a str>)
    ensures
        match r {
            Some(s) => json_of(*v) == Json::String(s@),
            None => !(json_of(*v) is String),
        },
{
    v.as_str()
}

/// `Value::as_array`: the items, where the value is an array.
#[verifier::external_body]
pub(crate) fn value_as_array<'a>(v: &'a Value) -> (r: Option<&'a Vec<Value>>)
    ensures
        match r {
            Some(items) => json_of(*v) == Json::Array(items_of(items@)),
            None => !(json_of(*v) is Array),
        },
{
    v.as_array()
}

/// `Value::Null`.
#[verifier::external_body]
pub(crate) fn null_value() -> (v: Value)
    ensures
        json_of(v) == Json::Null,
{
    Value::Null
}

/// `Value::Bool`.
#[verifier::external_body]
pub(crate) fn bool_value(b: bool) -> (v: Value)
    ensures
        json_of(v) == Json::Bool(b),
{
    Value::Bool(b)
}

/// `Value::from` at `u64`: the integer itself.
#[verifier::external_body]
pub(crate) fn u64_value(n: u64) -> (v: Value)
    ensures
        json_of(v) == Json::Number(Num::Int(n as int)),
{
    Value::from(n)
}

/// `Value::from` at `i64`: the integer itself.
#[verifier::external_body]
pub(crate) fn i64_value(n: i64) -> (v: Value)
    ensures
        json_of(v) == Json::Number(Num::Int(n as int)),
{
    Value::from(n)
}

/// `Value::Number`.
#[verifier::external_body]
pub(crate) fn number_value(n: Number) -> (v: Value)
    ensures
        json_of(v) == Json::Number(num_of(n)),
{
    Value::Number(n)
}

/// `Value::String`.
#[verifier::external_body]
pub(crate) fn string_value(s: String) -> (v: Value)
    ensures
        json_of(v) == Json::String(s@),
{
    Value::String(s)
}

/// `Value::Array`.
#[verifier::external_body]
pub(crate) fn array_value(items: Vec<Value>) -> (v: Value)
    ensures
        json_of(v) == Json::Array(items_of(items@)),
{
    Value::Array(items)
}

/// `Map::new`: a map without members.
#[verifier::external_body]
pub(crate) fn new_members() -> (m: Members)
    ensures
        members_of(m) == no_members(),
{
    serde_json::Map::new()
}

/// `Map::insert`: the member is added, in place of one of the same name if there
/// was one.
#[verifier::external_body]
pub(crate) fn insert_member(m: &mut Members, key: String, value: Value)
    ensures
        members_of(*final(m)) == members_of(*old(m)).insert(key@, json_of(value)),
{
    m.insert(key, value);
}

/// `Value::Object`.
#[verifier::external_body]
pub(crate) fn object_value(m: Members) -> (v: Value)
    ensures
        json_of(v) == Json::Object(members_of(m)),
{
    Value::Object(m)
}

} // verus!
