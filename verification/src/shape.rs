//! Reading the members of a JSON object.
//!
//! A payload is a JSON object whose members are texts, texts that may be
//! missing, lists of texts or numbers. Members that a payload does not
//! name are ignored. The functions here read one member each and say with
//! `None` that the value at hand does not have the shape asked for.

use vstd::prelude::*;
use crate::json::{as_items, as_number, as_text, is_null, json_view, json_views, member, JsonModel};

verus! {

/// The member of `tree` under `key`, if `tree` is an object that has one.
pub open spec fn member_at(tree: JsonModel, key: Seq<char>) -> Option<JsonModel> {
    match tree {
        JsonModel::Object(fields) => if fields.contains_key(key) {
            Some(fields[key])
        } else {
            None
        },
        _ => None,
    }
}

/// The text that `tree` is, if it is a JSON string.
pub open spec fn text_of(tree: JsonModel) -> Option<Seq<char>> {
    match tree {
        JsonModel::Text(text) => Some(text),
        _ => None,
    }
}

/// The text under `key`: present only where `tree` is an object with a
/// JSON string under `key`.
pub open spec fn text_at(tree: JsonModel, key: Seq<char>) -> Option<Seq<char>> {
    match member_at(tree, key) {
        Some(found) => text_of(found),
        None => None,
    }
}

/// The text under `key` where that member may be left out.
///
/// A member that is missing and a member that is `null` both read as
/// `Some(None)`, a JSON string reads as `Some(Some(..))`, and a member of
/// any other sort does not fit and reads as `None`. A value that is no
/// object has no members, so every member is missing from it.
pub open spec fn optional_text_at(tree: JsonModel, key: Seq<char>) -> Option<Option<Seq<char>>> {
    match member_at(tree, key) {
        None => Some(None),
        Some(JsonModel::Null) => Some(None),
        Some(JsonModel::Text(text)) => Some(Some(text)),
        Some(_) => None,
    }
}

/// The number under `key`: present only where `tree` is an object with a
/// JSON number under `key`.
pub open spec fn number_at(tree: JsonModel, key: Seq<char>) -> Option<serde_json::Number> {
    match member_at(tree, key) {
        Some(JsonModel::Number(number)) => Some(number),
        _ => None,
    }
}

/// Whether every element of `items` is a JSON string.
pub open spec fn all_texts(items: Seq<JsonModel>) -> bool {
    forall|i: int| 0 <= i < items.len() ==> #[trigger] text_of(items[i]) is Some
}

/// The texts that `tree` lists, in order: present only where `tree` is an
/// array of JSON strings.
pub open spec fn texts_of(tree: JsonModel) -> Option<Seq<Seq<char>>> {
    match tree {
        JsonModel::Array(items) => if all_texts(items) {
            Some(Seq::new(items.len(), |i: int| text_of(items[i])->Some_0))
        } else {
            None
        },
        _ => None,
    }
}

/// The views of the elements of `texts`, in order.
pub open spec fn text_views(texts: Seq<String>) -> Seq<Seq<char>> {
    Seq::new(texts.len(), |i: int| texts[i]@)
}

/// What an optional text looks like in contracts.
pub open spec fn optional_view(text: Option<String>) -> Option<Seq<char>> {
    match text {
        Some(present) => Some(present@),
        None => None,
    }
}

/// What is read under `key` does not depend on the members under other
/// keys: adding or replacing one of those changes nothing.
pub proof fn lemma_other_members_are_ignored(
    fields: Map<Seq<char>, JsonModel>,
    other: Seq<char>,
    value: JsonModel,
    key: Seq<char>,
)
    requires
        other != key,
    ensures
        member_at(JsonModel::Object(fields.insert(other, value)), key) == member_at(JsonModel::Object(fields), key),
        text_at(JsonModel::Object(fields.insert(other, value)), key) == text_at(JsonModel::Object(fields), key),
        optional_text_at(JsonModel::Object(fields.insert(other, value)), key) == optional_text_at(
            JsonModel::Object(fields),
            key,
        ),
        number_at(JsonModel::Object(fields.insert(other, value)), key) == number_at(JsonModel::Object(fields), key),
{
}

/// Reads the text under `key`.
pub fn read_text(value: &serde_json::Value, key: &str) -> (text: Option<String>)
    ensures
        optional_view(text) == text_at(json_view(*value), key@),
{
    match member(value, key) {
        Some(found) => match as_text(found) {
            Some(text) => Some(String::from_str(text)),
            None => None,
        },
        None => None,
    }
}

/// Reads the text under `key` where that member may be left out.
pub fn read_optional_text(value: &serde_json::Value, key: &str) -> (text: Option<Option<String>>)
    ensures
        match text {
            Some(read) => optional_text_at(json_view(*value), key@) == Some(optional_view(read)),
            None => optional_text_at(json_view(*value), key@) is None,
        },
{
    match member(value, key) {
        None => Some(None),
        Some(found) => {
            if is_null(found) {
                Some(None)
            } else {
                match as_text(found) {
                    Some(text) => Some(Some(String::from_str(text))),
                    None => None,
                }
            }
        },
    }
}

/// Reads the number under `key`.
pub fn read_number(value: &serde_json::Value, key: &str) -> (number: Option<serde_json::Number>)
    ensures
        number == number_at(json_view(*value), key@),
{
    match member(value, key) {
        Some(found) => match as_number(found) {
            Some(number) => Some(number.clone()),
            None => None,
        },
        None => None,
    }
}

/// Reads a list of texts.
pub fn read_texts(value: &serde_json::Value) -> (texts: Option<Vec<String>>)
    ensures
        match texts {
            Some(read) => texts_of(json_view(*value)) == Some(text_views(read@)),
            None => texts_of(json_view(*value)) is None,
        },
{
    let items = match as_items(value) {
        Some(items) => items,
        None => {
            return None;
        },
    };
    let ghost trees = json_views(items@);
    let mut texts: Vec<String> = Vec::new();
    let mut at: usize = 0;
    while at < items.len()
        invariant
            at <= items.len(),
            trees == json_views(items@),
            json_view(*value) == JsonModel::Array(trees),
            texts.len() == at,
            forall|i: int| 0 <= i < at ==> text_of(#[trigger] trees[i]) == Some(texts[i]@),
        decreases items.len() - at,
    {
        match as_text(&items[at]) {
            Some(text) => {
                texts.push(String::from_str(text));
            },
            None => {
                assert(text_of(trees[at as int]) is None);
                return None;
            },
        }
        at += 1;
    }
    assert(all_texts(trees));
    assert(text_views(texts@) =~= Seq::new(trees.len(), |i: int| text_of(trees[i])->Some_0));
    Some(texts)
}

} // verus!
