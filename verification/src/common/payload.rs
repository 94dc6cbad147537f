//! The claim set of a token as the JSON object that is signed.

use vstd::prelude::*;

verus! {

#[verifier::external_type_specification]
#[verifier::external_body]
#[verifier::reject_recursive_types(K)]
#[verifier::reject_recursive_types(V)]
pub struct ExJsonMap<K, V>(serde_json::Map<K, V>);

#[verifier::external_type_specification]
#[verifier::external_body]
pub struct ExJsonValue(serde_json::Value);

/// A JSON object: the claim set that a token carries.
pub type JsonMap = serde_json::Map<String, serde_json::Value>;

/// What one member of a claim set holds, as far as this library reads it.
pub enum ClaimValue {
    /// A JSON number written without fraction or exponent, from `i64::MIN`
    /// to `u64::MAX`.
    Integer(int),
    /// A JSON string.
    Text(Seq<char>),
    /// Any other JSON value.
    Other,
}

/// The members of a JSON object, by name.
pub uninterp spec fn payload_entries(payload: JsonMap) -> Map<Seq<char>, ClaimValue>;

/// The members of an empty object.
pub open spec fn no_entries() -> Map<Seq<char>, ClaimValue> {
    Map::empty()
}

/// `serde_json::Map::new`: an object without members.
#[verifier::external_body]
pub(crate) fn new_payload() -> (payload: JsonMap)
    ensures
        payload_entries(payload) == no_entries(),
{
    serde_json::Map::new()
}

/// `serde_json::Map::insert` with a number made by `Value::from(i64)`: the
/// member `key` now holds the integer `value`, whatever it held before; the
/// other members are unchanged.
#[verifier::external_body]
pub(crate) fn put_integer(
    payload: &mut JsonMap,
    key: &str,
    value: i64,
)
    ensures
        payload_entries(*final(payload)) == payload_entries(*old(payload)).insert(
            key@,
            ClaimValue::Integer(value as int),
        ),
{
    payload.insert(key.to_owned(), serde_json::Value::from(value));
}

/// `serde_json::Map::insert` with a string made by `Value::from(&str)`: the
/// member `key` now holds the text `value`; the other members are unchanged.
#[verifier::external_body]
pub(crate) fn put_text(
    payload: &mut JsonMap,
    key: &str,
    value: &str,
)
    ensures
        payload_entries(*final(payload)) == payload_entries(*old(payload)).insert(
            key@,
            ClaimValue::Text(value@),
        ),
{
    payload.insert(key.to_owned(), serde_json::Value::from(value));
}

/// What `integer_at` returns for a member.
pub open spec fn as_signed(entries: Map<Seq<char>, ClaimValue>, key: Seq<char>) -> Option<i64> {
    if entries.contains_key(key) {
        match entries[key] {
            ClaimValue::Integer(n) => if i64::MIN <= n <= i64::MAX {
                Some(n as i64)
            } else {
                None
            },
            _ => None,
        }
    } else {
        None
    }
}

/// What `unsigned_at` returns for a member.
pub open spec fn as_unsigned(entries: Map<Seq<char>, ClaimValue>, key: Seq<char>) -> Option<u64> {
    if entries.contains_key(key) {
        match entries[key] {
            ClaimValue::Integer(n) => if 0 <= n <= u64::MAX {
                Some(n as u64)
            } else {
                None
            },
            _ => None,
        }
    } else {
        None
    }
}

/// What `text_at` returns for a member.
pub open spec fn as_text(entries: Map<Seq<char>, ClaimValue>, key: Seq<char>) -> Option<
    Seq<char>,
> {
    if entries.contains_key(key) {
        match entries[key] {
            ClaimValue::Text(text) => Some(text),
            _ => None,
        }
    } else {
        None
    }
}

/// `serde_json::Map::get`, then `Value::as_i64`: the member `key` where it is
/// present and an integer that fits `i64`.
#[verifier::external_body]
pub(crate) fn integer_at(payload: &JsonMap, key: &str) -> (value: Option<i64>)
    ensures
        value == as_signed(payload_entries(*payload), key@),
{
    payload.get(key).and_then(serde_json::Value::as_i64)
}

/// `serde_json::Map::get`, then `Value::as_u64`: the member `key` where it is
/// present and an integer that fits `u64`.
#[verifier::external_body]
pub(crate) fn unsigned_at(payload: &JsonMap, key: &str) -> (value: Option<u64>)
    ensures
        value == as_unsigned(payload_entries(*payload), key@),
{
    payload.get(key).and_then(serde_json::Value::as_u64)
}

/// `serde_json::Map::get`, then `Value::as_str`: a copy of the member `key`
/// where it is present and a string.
#[verifier::external_body]
pub(crate) fn text_at(payload: &JsonMap, key: &str) -> (value: Option<String>)
    ensures
        match value {
            Some(text) => as_text(payload_entries(*payload), key@) == Some(text@),
            None => as_text(payload_entries(*payload), key@) is None,
        },
{
    payload.get(key).and_then(serde_json::Value::as_str).map(str::to_owned)
}

} // verus!
