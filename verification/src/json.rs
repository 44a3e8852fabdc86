//! JSON documents, held as `serde_json` values and read through a
//! mathematical model.
use vstd::prelude::*;

verus! {

/// What a JSON document holds. Integers are exact; a number with a fraction
/// or an exponent is only known to be one.
pub enum Json {
    Null,
    Bool(bool),
    Integer(int),
    Fraction,
    Text(Seq<char>),
    Array(Seq<Json>),
    Object(Map<Seq<char>, Json>),
}

/// `serde_json::Value`, carried as it is: what it holds is known through
/// `json_model` alone.
#[verifier::external_type_specification]
#[verifier::external_body]
pub struct ExJsonValue(serde_json::Value);

/// `serde_json::Map`, carried as it is: what it holds is known through
/// `json_members` alone.
#[verifier::external_type_specification]
#[verifier::external_body]
#[verifier::reject_recursive_types(K)]
#[verifier::reject_recursive_types(V)]
pub struct ExJsonObject<K, V>(serde_json::Map<K, V>);

/// The document that a `serde_json::Value` holds.
pub uninterp spec fn json_model(value: serde_json::Value) -> Json;

/// The members that a `serde_json::Map` holds, by key.
pub uninterp spec fn json_members(
    object: serde_json::Map<String, serde_json::Value>,
) -> Map<Seq<char>, Json>;

/// The member of `json` under `key`, if `json` is an object that has one.
pub open spec fn member_of(json: Json, key: Seq<char>) -> Option<Json> {
    match json {
        Json::Object(members) => if members.contains_key(key) {
            Some(members[key])
        } else {
            None
        },
        _ => None,
    }
}

/// The text of the member of `json` under `key`, if there is such a member
/// and it is a string.
pub open spec fn text_member_of(json: Json, key: Seq<char>) -> Option<Seq<char>> {
    match member_of(json, key) {
        Some(Json::Text(text)) => Some(text),
        _ => None,
    }
}

/// The member of `json` under `key` as a 32-bit unsigned number, if there is
/// such a member and it is an integer in that range.
pub open spec fn u32_member_of(json: Json, key: Seq<char>) -> Option<u32> {
    match member_of(json, key) {
        Some(Json::Integer(number)) => if 0 <= number <= u32::MAX {
            Some(number as u32)
        } else {
            None
        },
        _ => None,
    }
}

/// The member of `json` under `key` as an unsigned number of the machine's
/// word, if there is such a member and it is an integer in that range.
pub open spec fn usize_member_of(json: Json, key: Seq<char>) -> Option<usize> {
    match member_of(json, key) {
        Some(Json::Integer(number)) => if 0 <= number <= usize::MAX {
            Some(number as usize)
        } else {
            None
        },
        _ => None,
    }
}

/// The member of `json` under `key` as a truth value, if there is such a
/// member and it is a boolean.
pub open spec fn bool_member_of(json: Json, key: Seq<char>) -> Option<bool> {
    match member_of(json, key) {
        Some(Json::Bool(flag)) => Some(flag),
        _ => None,
    }
}

/// The member of `json` under `key` as a text that may be left out: `None`
/// inside where the member is missing or null, the text where it is a
/// string, and `None` outside where it is anything else.
pub open spec fn optional_text_member_of(json: Json, key: Seq<char>) -> Option<Option<Seq<char>>> {
    match member_of(json, key) {
        None => Some(None),
        Some(Json::Null) => Some(None),
        Some(Json::Text(text)) => Some(Some(text)),
        _ => None,
    }
}

/// The member of `json` under `key` as a value that may be left out: `None`
/// where the member is missing or null.
pub open spec fn optional_member_of(json: Json, key: Seq<char>) -> Option<Json> {
    match member_of(json, key) {
        None => None,
        Some(Json::Null) => None,
        Some(other) => Some(other),
    }
}

/// `serde_json::Value::get` with a string key: the member under `key` where
/// `value` is an object that holds one, and `None` in every other case.
#[verifier::external_body]
pub(crate) fn member<'a>(
    value: &'a serde_json::Value,
    key: &str,
) -> (found: Option<&'a serde_json::Value>)
    ensures
        match found {
            Some(inner) => member_of(json_model(*value), key@) == Some(json_model(*inner)),
            None => member_of(json_model(*value), key@) is None,
        },
{
    value.get(key)
}

/// `serde_json::Value::as_str`: the text of a string, `None` for any other
/// kind of value.
#[verifier::external_body]
pub(crate) fn as_text<'a>(value: &'a serde_json::Value) -> (text: Option<&'a str>)
    ensures
        match text {
            Some(s) => json_model(*value) == Json::Text(s@),
            None => !(json_model(*value) is Text),
        },
{
    value.as_str()
}

/// `serde_json::Value::as_u64`: the number where `value` is an integer that
/// is not negative, `None` for a negative integer, for a number with a
/// fraction or an exponent, and for any other kind of value.
#[verifier::external_body]
pub(crate) fn as_unsigned(value: &serde_json::Value) -> (number: Option<u64>)
    ensures
        match number {
            Some(n) => json_model(*value) == Json::Integer(n as int),
            None => !(json_model(*value) matches Json::Integer(i) && i >= 0),
        },
{
    value.as_u64()
}

/// `serde_json::Value::as_bool`: the truth value of a boolean, `None` for
/// any other kind of value.
#[verifier::external_body]
pub(crate) fn as_boolean(value: &serde_json::Value) -> (flag: Option<bool>)
    ensures
        match flag {
            Some(b) => json_model(*value) == Json::Bool(b),
            None => !(json_model(*value) is Bool),
        },
{
    value.as_bool()
}

/// `serde_json::Value::is_null`: whether `value` is the JSON null.
#[verifier::external_body]
pub(crate) fn is_null(value: &serde_json::Value) -> (null: bool)
    ensures
        null == (json_model(*value) is Null),
{
    value.is_null()
}

/// The variant `serde_json::Value::String`: the JSON string with the text of
/// `text`.
#[verifier::external_body]
pub(crate) fn text_value(text: String) -> (value: serde_json::Value)
    ensures
        json_model(value) == Json::Text(text@),
{
    serde_json::Value::String(text)
}

/// `serde_json::Value::from` on a `u32`: the JSON integer `number`.
#[verifier::external_body]
pub(crate) fn number_value(number: u32) -> (value: serde_json::Value)
    ensures
        json_model(value) == Json::Integer(number as int),
{
    serde_json::Value::from(number)
}

/// `serde_json::Map::new`: an object without members.
#[verifier::external_body]
pub(crate) fn new_object() -> (object: serde_json::Map<String, serde_json::Value>)
    ensures
        json_members(object).dom() == Set::<Seq<char>>::empty(),
{
    serde_json::Map::new()
}

/// `serde_json::Map::insert`: afterwards the object holds `value` under
/// `key`, in place of what it held there before, and every other member as
/// it was.
#[verifier::external_body]
pub(crate) fn insert_member(
    object: &mut serde_json::Map<String, serde_json::Value>,
    key: String,
    value: serde_json::Value,
)
    ensures
        json_members(*final(object)) == json_members(*old(object)).insert(key@, json_model(value)),
{
    object.insert(key, value);
}

/// The variant `serde_json::Value::Object`: the JSON object with the members
/// of `object`.
#[verifier::external_body]
pub(crate) fn object_value(
    object: serde_json::Map<String, serde_json::Value>,
) -> (value: serde_json::Value)
    ensures
        json_model(value) == Json::Object(json_members(object)),
{
    serde_json::Value::Object(object)
}

/// Tells the variant `serde_json::Value::Object` from the others: the
/// members of an object, and any other value handed back as it came.
#[verifier::external_body]
pub(crate) fn into_object(
    value: serde_json::Value,
) -> (object: Result<serde_json::Map<String, serde_json::Value>, serde_json::Value>)
    ensures
        match object {
            Ok(members) => json_model(value) == Json::Object(json_members(members)),
            Err(other) => other == value && !(json_model(value) is Object),
        },
{
    match value {
        serde_json::Value::Object(members) => Ok(members),
        other => Err(other),
    }
}

/// `Clone` of `serde_json::Value`: a value equal to the one given.
#[verifier::external_body]
pub(crate) fn copy_value(value: &serde_json::Value) -> (copy: serde_json::Value)
    ensures
        copy == *value,
{
    value.clone()
}

/// The text of the member of `body` under `key`, where it is a string.
pub fn text_member<'a>(body: &'a serde_json::Value, key: &str) -> (text: Option<&'a str>)
    ensures
        match text {
            Some(s) => text_member_of(json_model(*body), key@) == Some(s@),
            None => text_member_of(json_model(*body), key@) is None,
        },
{
    match member(body, key) {
        Some(inner) => as_text(inner),
        None => None,
    }
}

/// The member of `body` under `key`, where it is an integer that fits in 32
/// bits without a sign.
pub fn u32_member(body: &serde_json::Value, key: &str) -> (number: Option<u32>)
    ensures
        number == u32_member_of(json_model(*body), key@),
{
    match member(body, key) {
        Some(inner) => match as_unsigned(inner) {
            Some(n) => if n <= 0xffff_ffff {
                Some(n as u32)
            } else {
                None
            },
            None => None,
        },
        None => None,
    }
}

/// The member of `body` under `key`, where it is an integer that fits in the
/// machine's word without a sign.
pub fn usize_member(body: &serde_json::Value, key: &str) -> (number: Option<usize>)
    ensures
        number == usize_member_of(json_model(*body), key@),
{
    match member(body, key) {
        Some(inner) => match as_unsigned(inner) {
            Some(n) => if n <= usize::MAX as u64 {
                Some(n as usize)
            } else {
                None
            },
            None => None,
        },
        None => None,
    }
}

/// The member of `body` under `key`, where it is a boolean.
pub fn bool_member(body: &serde_json::Value, key: &str) -> (flag: Option<bool>)
    ensures
        flag == bool_member_of(json_model(*body), key@),
{
    match member(body, key) {
        Some(inner) => as_boolean(inner),
        None => None,
    }
}

/// The member of `body` under `key` as a text that may be left out; `Err`
/// where the member is there and is neither null nor a string.
pub fn optional_text_member(
    body: &serde_json::Value,
    key: &str,
) -> (text: Result<Option<String>, ()>)
    ensures
        match text {
            Ok(Some(t)) => optional_text_member_of(json_model(*body), key@) == Some(Some(t@)),
            Ok(None) => optional_text_member_of(json_model(*body), key@) == Some(
                None::<Seq<char>>,
            ),
            Err(_) => optional_text_member_of(json_model(*body), key@) is None,
        },
{
    match member(body, key) {
        None => Ok(None),
        Some(inner) => {
            if is_null(inner) {
                Ok(None)
            } else {
                match as_text(inner) {
                    Some(t) => Ok(Some(t.to_owned())),
                    None => Err(()),
                }
            }
        },
    }
}

/// The member of `body` under `key` as a value that may be left out.
pub fn optional_member(body: &serde_json::Value, key: &str) -> (found: Option<serde_json::Value>)
    ensures
        match found {
            Some(value) => optional_member_of(json_model(*body), key@) == Some(json_model(value)),
            None => optional_member_of(json_model(*body), key@) is None,
        },
{
    match member(body, key) {
        None => None,
        Some(inner) => {
            if is_null(inner) {
                None
            } else {
                Some(copy_value(inner))
            }
        },
    }
}

} // verus!
