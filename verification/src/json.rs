//! The boundary to `serde_json`.
//!
//! JSON values stay what `serde_json` makes of them. Verified code never
//! looks inside one: it asks through the functions of this module, and the
//! contracts of those functions speak of [`JsonModel`], the mathematical
//! tree that a value stands for. Nothing in this module is proved; each
//! function says in its documentation which function of `serde_json` it
//! relies on and what it takes for granted about it.

use vstd::prelude::*;

verus! {

/// `serde_json::Value`, carried through verified code as an opaque value.
#[verifier::external_type_specification]
#[verifier::external_body]
pub struct ExValue(serde_json::Value);

/// `serde_json::Number`, carried through verified code as an opaque value.
#[verifier::external_type_specification]
#[verifier::external_body]
pub struct ExNumber(serde_json::Number);

/// `serde_json::Map`, the object representation of `serde_json`.
#[verifier::external_type_specification]
#[verifier::external_body]
#[verifier::reject_recursive_types(K)]
#[verifier::reject_recursive_types(V)]
pub struct ExJsonMap<K, V>(serde_json::Map<K, V>);

/// `serde_json::Error`, what `serde_json` reports when text is not JSON.
#[verifier::external_type_specification]
#[verifier::external_body]
pub struct ExJsonError(serde_json::Error);

/// The tree that a JSON value stands for.
///
/// Objects are maps: a key occurs at most once and the order of the members
/// carries no meaning. Numbers are kept as `serde_json` holds them.
pub enum JsonModel {
    Null,
    Bool(bool),
    Number(serde_json::Number),
    Text(Seq<char>),
    Array(Seq<JsonModel>),
    Object(Map<Seq<char>, JsonModel>),
}

/// The tree that `value` stands for.
pub uninterp spec fn json_view(value: serde_json::Value) -> JsonModel;

/// The members that `members` holds, each value as the tree it stands for.
pub uninterp spec fn object_fields(members: serde_json::Map<String, serde_json::Value>) -> Map<Seq<char>, JsonModel>;

/// What `serde_json::from_slice` makes of `bytes` when asked for a
/// `serde_json::Value`: the tree of the value it returns, or `None` where
/// it reports an error.
pub uninterp spec fn parsed_json(bytes: Seq<u8>) -> Option<JsonModel>;

/// The members of an object without members.
pub open spec fn no_fields() -> Map<Seq<char>, JsonModel> {
    Map::empty()
}

/// The trees of the elements of `items`, in order.
pub open spec fn json_views(items: Seq<serde_json::Value>) -> Seq<JsonModel> {
    Seq::new(items.len(), |i: int| json_view(items[i]))
}

/// Calls `serde_json::from_slice::<serde_json::Value>`.
///
/// Taken for granted: the outcome depends on the bytes alone, so it is the
/// one that [`parsed_json`] names.
#[verifier::external_body]
pub(crate) fn parse(bytes: &[u8]) -> (parsed: Result<serde_json::Value, serde_json::Error>)
    ensures
        match parsed {
            Ok(value) => parsed_json(bytes@) == Some(json_view(value)),
            Err(_) => parsed_json(bytes@) is None,
        },
{
    serde_json::from_slice::<serde_json::Value>(bytes)
}

/// Calls `serde_json::Value::as_str`.
///
/// Taken for granted: it returns the text of a JSON string and `None` for
/// every other value.
#[verifier::external_body]
pub(crate) fn as_text<'a>(value: &'a serde_json::Value) -> (text: Option<&'a str>)
    ensures
        match text {
            Some(s) => json_view(*value) == JsonModel::Text(s@),
            None => !(json_view(*value) is Text),
        },
{
    value.as_str()
}

/// Calls `serde_json::Value::as_array`.
///
/// Taken for granted: it returns the elements of a JSON array, in order,
/// and `None` for every other value.
#[verifier::external_body]
pub(crate) fn as_items<'a>(value: &'a serde_json::Value) -> (items: Option<&'a Vec<serde_json::Value>>)
    ensures
        match items {
            Some(elements) => json_view(*value) == JsonModel::Array(json_views(elements@)),
            None => !(json_view(*value) is Array),
        },
{
    value.as_array()
}

/// Calls `serde_json::Value::as_number`.
///
/// Taken for granted: it returns the number of a JSON number and `None`
/// for every other value.
#[verifier::external_body]
pub(crate) fn as_number<'a>(value: &'a serde_json::Value) -> (number: Option<&'a serde_json::Number>)
    ensures
        match number {
            Some(n) => json_view(*value) == JsonModel::Number(*n),
            None => !(json_view(*value) is Number),
        },
{
    value.as_number()
}

/// `Clone` of `serde_json::Number`.
///
/// Taken for granted: the clone is the same number.
pub assume_specification[ <serde_json::Number as Clone>::clone ](number: &serde_json::Number) -> (copy: serde_json::Number)
    ensures
        copy == *number,
;

/// Calls `serde_json::Value::is_null`.
///
/// Taken for granted: it tells whether the value is JSON `null`.
#[verifier::external_body]
pub(crate) fn is_null(value: &serde_json::Value) -> (null: bool)
    ensures
        null == (json_view(*value) is Null),
{
    value.is_null()
}

/// Calls `serde_json::Value::get` with a string key.
///
/// Taken for granted: on an object that has a member under `key` it
/// returns that member's value; on an object without such a member, and on
/// every value that is no object, it returns `None`.
#[verifier::external_body]
pub(crate) fn member<'a>(value: &'a serde_json::Value, key: &str) -> (found: Option<&'a serde_json::Value>)
    ensures
        match found {
            Some(inner) => {
                &&& json_view(*value) matches JsonModel::Object(fields)
                &&& fields.contains_key(key@)
                &&& fields[key@] == json_view(*inner)
            },
            None => !(json_view(*value) matches JsonModel::Object(fields) && fields.contains_key(key@)),
        },
{
    value.get(key)
}

/// Calls `serde_json::Map::new`.
///
/// Taken for granted: the new map has no member.
#[verifier::external_body]
pub(crate) fn new_object() -> (members: serde_json::Map<String, serde_json::Value>)
    ensures
        object_fields(members) == no_fields(),
{
    serde_json::Map::new()
}

/// Calls `serde_json::Map::insert`.
///
/// Taken for granted: afterwards the map holds `value` under `key` and is
/// otherwise unchanged, and the value that stood under `key` before, if
/// there was one, is returned.
#[verifier::external_body]
pub(crate) fn set_member(
    members: &mut serde_json::Map<String, serde_json::Value>,
    key: String,
    value: serde_json::Value,
) -> (replaced: Option<serde_json::Value>)
    ensures
        object_fields(*final(members)) == object_fields(*old(members)).insert(key@, json_view(value)),
        match replaced {
            Some(previous) => object_fields(*old(members)).contains_key(key@) && object_fields(*old(members))[key@] == json_view(previous),
            None => !object_fields(*old(members)).contains_key(key@),
        },
{
    members.insert(key, value)
}

/// Calls `serde_json::Value::from` on a `String`.
///
/// Taken for granted: the result is the JSON string with that text.
#[verifier::external_body]
pub(crate) fn text_value(text: String) -> (value: serde_json::Value)
    ensures
        json_view(value) == JsonModel::Text(text@),
{
    serde_json::Value::from(text)
}

/// Calls `serde_json::Value::from` on a `serde_json::Map`.
///
/// Taken for granted: the result is the JSON object with those members.
#[verifier::external_body]
pub(crate) fn object_value(members: serde_json::Map<String, serde_json::Value>) -> (value: serde_json::Value)
    ensures
        json_view(value) == JsonModel::Object(object_fields(members)),
{
    serde_json::Value::from(members)
}

} // verus!
