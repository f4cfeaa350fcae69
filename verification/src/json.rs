//! The key-value records that the map data gives for its features.

use crate::ieee::Binary64;
use gaia_assetgen::Properties;
use serde_json::Value;
use vstd::prelude::*;

verus! {

/// `serde_json::Map`, a record of values by their keys. `Properties` is the
/// name that the map data gives to such a record of `Value`s under `String`
/// keys.
#[verifier::external_type_specification]
#[verifier::external_body]
#[verifier::reject_recursive_types(K)]
#[verifier::reject_recursive_types(V)]
pub struct ExObject<K, V>(serde_json::Map<K, V>);

/// `serde_json::Value`, a value of JSON: a text, a number, or something
/// else.
#[verifier::external_type_specification]
#[verifier::external_body]
pub struct ExValue(Value);

/// The values that a record holds, by their keys.
pub uninterp spec fn entries(record: Properties) -> Map<Seq<char>, Value>;

/// The text that a value is, where it is a text.
pub uninterp spec fn text_of(value: Value) -> Option<Seq<char>>;

/// The bits of the binary64 number that a value reads as, where it reads as
/// one.
pub uninterp spec fn number_of(value: Value) -> Option<u64>;

/// `serde_json::Map::get`: the value that the record holds under `key`, or
/// nothing where it has no such key.
#[verifier::external_body]
pub(crate) fn get<'a>(record: &'a Properties, key: &str) -> (value: Option<&'a Value>)
    ensures
        value.is_some() == entries(*record).contains_key(key@),
        value matches Some(found) ==> *found == entries(*record)[key@],
{
    record.get(key)
}

/// `serde_json::Value::as_str`: the text of a value that is a text, and
/// nothing for a value of any other kind.
#[verifier::external_body]
pub(crate) fn as_text<'a>(value: &'a Value) -> (text: Option<&'a str>)
    ensures
        text.is_some() == text_of(*value).is_some(),
        text matches Some(found) ==> text_of(*value) == Some(found@),
{
    value.as_str()
}

/// `serde_json::Value::as_f64`: the binary64 number that a value reads as,
/// handed on by its bits, and nothing for a value that is no number.
#[verifier::external_body]
pub(crate) fn as_number(value: &Value) -> (number: Option<Binary64>)
    ensures
        number.is_some() == number_of(*value).is_some(),
        number matches Some(found) ==> number_of(*value) == Some(found.bits),
{
    match value.as_f64() {
        Some(number) => Some(Binary64 { bits: number.to_bits() }),
        None => None,
    }
}

} // verus!
