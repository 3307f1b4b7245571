//! JSON values as `serde_json` holds them, and what the contracts of this
//! crate say of them.
//!
//! A `serde_json::Value` is opaque to the verifier. [`Json`] is the document it
//! holds, as a mathematical value, and [`json_of`] relates the two. What the
//! functions of `serde_json` do to a value is assumed here, not proved: the
//! second half of this file states it, one item for each function.

use serde_json::Value;
use vstd::prelude::*;

verus! {

/// A JSON document.
pub enum Json {
    Null,
    Bool(bool),
    /// A number held as an integer. `serde_json` holds one so from `i64::MIN`
    /// up to `u64::MAX`.
    Integer(int),
    /// Any other number, by the bit pattern of the double that holds it.
    Real(u64),
    String(Seq<char>),
    Array(Seq<Json>),
    /// The members of an object, by key.
    Object(Map<Seq<char>, Json>),
}

impl Json {
    /// The member under `key`, if this is an object that has one.
    pub open spec fn member(self, key: Seq<char>) -> Option<Json> {
        match self {
            Json::Object(members) => if members.dom().contains(key) {
                Some(members[key])
            } else {
                None
            },
            _ => None,
        }
    }

    /// The number as an `i64`, if this is an integer in that range.
    pub open spec fn integer(self) -> Option<i64> {
        match self {
            Json::Integer(i) => if i64::MIN <= i <= i64::MAX {
                Some(i as i64)
            } else {
                None
            },
            _ => None,
        }
    }

    /// The text, if this is a string.
    pub open spec fn text(self) -> Option<Seq<char>> {
        match self {
            Json::String(s) => Some(s),
            _ => None,
        }
    }
}

/// The document that a `serde_json::Value` holds.
///
/// Variant for variant: `Value::Null` is [`Json::Null`], `Value::Bool` is
/// [`Json::Bool`], `Value::String` is [`Json::String`] of its characters,
/// `Value::Array` is [`Json::Array`] of its items in their order, and
/// `Value::Object` is [`Json::Object`] of its members. A `Value::Number` is
/// [`Json::Integer`] where `serde_json` holds it as an integer, signed or
/// unsigned, and [`Json::Real`] where it holds it as a double.
pub uninterp spec fn json_of(value: Value) -> Json;

/// The documents that a sequence of values holds, in the same order.
pub open spec fn documents(values: Seq<Value>) -> Seq<Json> {
    values.map_values(|value: Value| json_of(value))
}

/// Adding a value at the end adds its document at the end.
pub proof fn lemma_documents_push(values: Seq<Value>, value: Value)
    ensures
        documents(values.push(value)) == documents(values).push(json_of(value)),
{
    assert(documents(values.push(value)) =~= documents(values).push(json_of(value)));
}

/// The members that a sequence of pairs of key and value gives an object.
pub open spec fn members_of(pairs: Seq<(String, Value)>) -> Map<Seq<char>, Json>
    decreases pairs.len(),
{
    if pairs.len() == 0 {
        Map::empty()
    } else {
        members_of(pairs.drop_last()).insert(pairs.last().0@, json_of(pairs.last().1))
    }
}

// From here on, each item says what is assumed of `serde_json`.

/// `serde_json::Value`, which this crate hands on without looking inside.
#[verifier::external_type_specification]
#[verifier::external_body]
pub struct ExValue(serde_json::Value);

/// `serde_json::Error`, of which this crate reads nothing.
#[verifier::external_type_specification]
#[verifier::external_body]
pub struct ExError(serde_json::Error);

/// What `serde_json::from_slice` makes of some bytes: the document, or `None`
/// where it reports an error.
pub uninterp spec fn parsed(bytes: Seq<u8>) -> Option<Json>;

/// `serde_json::from_slice` at `Value`. Whether it accepts the bytes, and the
/// document it then gives, depend on the bytes alone; [`parsed`] names both.
#[verifier::external_body]
pub(crate) fn parse_value(bytes: &[u8]) -> (found: Result<Value, serde_json::Error>)
    ensures
        found matches Ok(value) ==> parsed(bytes@) == Some(json_of(value)),
        found is Err ==> parsed(bytes@) is None,
{
    serde_json::from_slice::<Value>(bytes)
}

/// `Value::get` with a string key: the member under that key where the value
/// is an object that has one, `None` otherwise.
#[verifier::external_body]
pub(crate) fn member_of<'a>(value: &'a Value, key: &str) -> (found: Option<&'a Value>)
    ensures
        found matches Some(inner) ==> json_of(*value).member(key@) == Some(json_of(*inner)),
        found is None ==> json_of(*value).member(key@) is None,
{
    value.get(key)
}

/// `Value::as_i64`: the number where the value is an integer that fits `i64`,
/// `None` for any other value.
pub assume_specification[ Value::as_i64 ](value: &Value) -> (number: Option<i64>)
    ensures
        number == json_of(*value).integer(),
;

/// `Value::as_str`: the text where the value is a string, `None` for any other
/// value.
pub assume_specification<'a>[ Value::as_str ](value: &'a Value) -> (text: Option<&'a str>)
    ensures
        text matches Some(s) ==> json_of(*value).text() == Some(s@),
        text is None ==> json_of(*value).text() is None,
;

/// `Value::is_null`: whether the value is `Value::Null`.
pub assume_specification[ Value::is_null ](value: &Value) -> (null: bool)
    ensures
        null == (json_of(*value) is Null),
;

/// `Value::is_object`: whether the value is a `Value::Object`.
pub assume_specification[ Value::is_object ](value: &Value) -> (object: bool)
    ensures
        object == (json_of(*value) is Object),
;

/// `Value::clone`: a value that holds the same document.
#[verifier::external_body]
pub(crate) fn copy_of(value: &Value) -> (copy: Value)
    ensures
        json_of(copy) == json_of(*value),
{
    value.clone()
}

/// The variant `Value::Null`.
#[verifier::external_body]
pub(crate) fn null_value() -> (value: Value)
    ensures
        json_of(value) == Json::Null,
{
    Value::Null
}

/// `Value::from` on a `String`: the string value with that text.
#[verifier::external_body]
pub(crate) fn string_value(text: String) -> (value: Value)
    ensures
        json_of(value) == Json::String(text@),
{
    Value::from(text)
}

/// `Value::from` on a `u64`: the integer value of that number.
#[verifier::external_body]
pub(crate) fn unsigned_value(number: u64) -> (value: Value)
    ensures
        json_of(value) == Json::Integer(number as int),
{
    Value::from(number)
}

/// `Value::from` on an `i64`: the integer value of that number.
#[verifier::external_body]
pub(crate) fn signed_value(number: i64) -> (value: Value)
    ensures
        json_of(value) == Json::Integer(number as int),
{
    Value::from(number)
}

/// The variant `Value::Array`: the array of the given values, in their order.
#[verifier::external_body]
pub(crate) fn array_value(items: Vec<Value>) -> (value: Value)
    ensures
        json_of(value) == Json::Array(documents(items@)),
{
    Value::Array(items)
}

/// `Value::from_iter` on pairs of key and value: the object that has each
/// pair as a member. Pairs that share a key are left out by `requires`: the
/// map behind an object keeps one of them, and which is not promised.
#[verifier::external_body]
pub(crate) fn object_value(members: Vec<(String, Value)>) -> (value: Value)
    requires
        forall|i: int, j: int|
            0 <= i < j < members@.len() ==> (#[trigger] members@[i]).0@ != (
            #[trigger] members@[j]).0@,
    ensures
        json_of(value) == Json::Object(members_of(members@)),
{
    Value::from_iter(members)
}

} // verus!
