//! JSON values as `serde_json` holds them, and what the verified code may
//! know of one: the tree it stands for.

use crate::text::string_views;
use vstd::prelude::*;

verus! {

#[verifier::external_type_specification]
#[verifier::external_body]
pub struct ExJsonValue(serde_json::Value);

#[verifier::external_type_specification]
#[verifier::external_body]
pub struct ExJsonError(serde_json::Error);

/// A JSON document as a tree. A number is kept as the text that stands for it;
/// an object has one value for each of its keys, in no order.
pub enum JsonTree {
    Null,
    Bool(bool),
    Number(Seq<char>),
    Text(Seq<char>),
    Array(Seq<JsonTree>),
    Object(Map<Seq<char>, JsonTree>),
}

/// The tree that a `serde_json::Value` holds.
pub uninterp spec fn json_tree(value: serde_json::Value) -> JsonTree;

/// The indented text that `serde_json` writes for a tree.
pub uninterp spec fn json_pretty_text(tree: JsonTree) -> Seq<char>;

/// The compact text that `serde_json` writes for a tree.
pub uninterp spec fn json_text(tree: JsonTree) -> Seq<char>;

/// The tree that `serde_json` reads from a text, where the text is JSON.
pub uninterp spec fn json_parsed(text: Seq<char>) -> Option<JsonTree>;

/// The trees of a sequence of values.
pub open spec fn json_trees(values: Seq<serde_json::Value>) -> Seq<JsonTree> {
    values.map_values(|value: serde_json::Value| json_tree(value))
}

/// The member of an object under `key`, if the tree is an object that has one.
pub open spec fn member(tree: JsonTree, key: Seq<char>) -> Option<JsonTree> {
    match tree {
        JsonTree::Object(members) => if members.contains_key(key) {
            Some(members[key])
        } else {
            None
        },
        _ => None,
    }
}

/// Makes `serde_json::Value::Object` of an empty `serde_json::Map`: an object
/// without members.
#[verifier::external_body]
pub(crate) fn json_object() -> (object: serde_json::Value)
    ensures
        json_tree(object) == JsonTree::Object(Map::empty()),
{
    serde_json::Value::Object(serde_json::Map::new())
}

/// Calls `serde_json::Map::insert` on the map of an object: the object then has
/// `value` under `key`, in place of what it had there, and its other members
/// as before.
#[verifier::external_body]
pub(crate) fn json_insert(object: &mut serde_json::Value, key: &str, value: serde_json::Value)
    requires
        json_tree(*old(object)) is Object,
    ensures
        json_tree(*final(object)) == JsonTree::Object(
            json_tree(*old(object))->Object_0.insert(key@, json_tree(value)),
        ),
{
    if let serde_json::Value::Object(members) = object {
        members.insert(key.to_owned(), value);
    }
}

/// Makes `serde_json::Value::String` of a copy of `text`.
#[verifier::external_body]
pub(crate) fn json_string(text: &str) -> (value: serde_json::Value)
    ensures
        json_tree(value) == JsonTree::Text(text@),
{
    serde_json::Value::String(text.to_owned())
}

/// Makes `serde_json::Value::Bool` of `flag`.
#[verifier::external_body]
pub(crate) fn json_bool(flag: bool) -> (value: serde_json::Value)
    ensures
        json_tree(value) == JsonTree::Bool(flag),
{
    serde_json::Value::Bool(flag)
}

/// Makes `serde_json::Value::Array` of `items`, in their order.
#[verifier::external_body]
pub(crate) fn json_array(items: Vec<serde_json::Value>) -> (value: serde_json::Value)
    ensures
        json_tree(value) == JsonTree::Array(json_trees(items@)),
{
    serde_json::Value::Array(items)
}

/// Calls `to_string` on a `serde_json::Value`, which writes its compact text:
/// `json_text` of its tree.
#[verifier::external_body]
pub(crate) fn json_to_text(value: &serde_json::Value) -> (text: String)
    ensures
        text@ == json_text(json_tree(*value)),
{
    value.to_string()
}

/// Calls `serde_json::from_str` for a `serde_json::Value`. It succeeds where
/// `json_parsed` of the text is a tree, and then returns a value of that tree.
#[verifier::external_body]
pub(crate) fn parse_json(text: &str) -> (parsed: Result<serde_json::Value, serde_json::Error>)
    ensures
        parsed is Ok <==> json_parsed(text@) is Some,
        parsed is Ok ==> json_tree(parsed->Ok_0) == json_parsed(text@)->0,
{
    serde_json::from_str(text)
}

/// Calls `serde_json::Value::get` with a string key: the member of an object
/// under that key, and nothing where the value is no object or has no such
/// member.
#[verifier::external_body]
pub(crate) fn json_get<'a>(value: &'a serde_json::Value, key: &str) -> (found: Option<
    &'a serde_json::Value,
>)
    ensures
        found is Some <==> member(json_tree(*value), key@) is Some,
        found is Some ==> json_tree(*found->0) == member(json_tree(*value), key@)->0,
{
    value.get(key)
}

/// Calls `serde_json::Value::as_str`: the text of a string value, and nothing
/// for any other value.
#[verifier::external_body]
pub(crate) fn json_as_str<'a>(value: &'a serde_json::Value) -> (text: Option<&'a str>)
    ensures
        text is Some <==> json_tree(*value) is Text,
        text is Some ==> text->0@ == json_tree(*value)->Text_0,
{
    value.as_str()
}

/// Calls `serde_json::Value::as_array`: the items of an array value, and
/// nothing for any other value.
#[verifier::external_body]
pub(crate) fn json_as_array<'a>(value: &'a serde_json::Value) -> (items: Option<
    &'a Vec<serde_json::Value>,
>)
    ensures
        items is Some <==> json_tree(*value) is Array,
        items is Some ==> json_trees(items->0@) == json_tree(*value)->Array_0,
{
    value.as_array()
}

/// Formats a `serde_json::Value` with `{:#}`, for which its `Display` writes
/// the indented text of the value: `json_pretty_text` of its tree.
#[verifier::external_body]
pub(crate) fn json_to_pretty_text(value: &serde_json::Value) -> (text: String)
    ensures
        text@ == json_pretty_text(json_tree(*value)),
{
    format!("{:#}", value)
}

/// The text under `key`, if the tree is an object that has a string there.
pub open spec fn member_text(tree: JsonTree, key: Seq<char>) -> Option<Seq<char>> {
    match member(tree, key) {
        Some(JsonTree::Text(text)) => Some(text),
        _ => None,
    }
}

/// Whether every tree of a sequence is a string.
pub open spec fn all_text(items: Seq<JsonTree>) -> bool {
    forall|k: int| 0 <= k < items.len() ==> (#[trigger] items[k]) is Text
}

/// The texts of a sequence of strings.
pub open spec fn texts_of(items: Seq<JsonTree>) -> Seq<Seq<char>> {
    items.map_values(|item: JsonTree| item->Text_0)
}

/// The texts under `key`, if the tree is an object that has an array of
/// strings there.
pub open spec fn member_texts(tree: JsonTree, key: Seq<char>) -> Option<Seq<Seq<char>>> {
    match member(tree, key) {
        Some(JsonTree::Array(items)) => if all_text(items) {
            Some(texts_of(items))
        } else {
            None
        },
        _ => None,
    }
}

/// The text under `key` of an object.
pub fn text_member(value: &serde_json::Value, key: &str) -> (text: Option<String>)
    ensures
        text is Some <==> member_text(json_tree(*value), key@) is Some,
        text is Some ==> text->0@ == member_text(json_tree(*value), key@)->0,
{
    match json_get(value, key) {
        Some(found) => match json_as_str(found) {
            Some(text) => Some(text.to_owned()),
            None => None,
        },
        None => None,
    }
}

/// The texts of an array of strings.
pub fn texts_of_array(items: &Vec<serde_json::Value>) -> (texts: Option<Vec<String>>)
    ensures
        texts is Some <==> all_text(json_trees(items@)),
        texts is Some ==> string_views(texts->0@) == texts_of(json_trees(items@)),
{
    let mut texts: Vec<String> = Vec::new();
    let mut at: usize = 0;
    while at < items.len()
        invariant
            at <= items.len(),
            texts@.len() == at,
            forall|k: int| 0 <= k < at ==> (#[trigger] json_trees(items@)[k]) is Text,
            forall|k: int|
                0 <= k < at ==> (#[trigger] texts@[k])@ == json_trees(items@)[k]->Text_0,
        decreases items.len() - at,
    {
        match json_as_str(&items[at]) {
            Some(text) => {
                texts.push(text.to_owned());
            },
            None => {
                proof {
                    assert(!(json_trees(items@)[at as int] is Text));
                }
                return None;
            },
        }
        at = at + 1;
    }
    proof {
        assert(string_views(texts@) =~= texts_of(json_trees(items@)));
    }
    Some(texts)
}

/// The texts under `key` of an object.
pub fn texts_member(value: &serde_json::Value, key: &str) -> (texts: Option<Vec<String>>)
    ensures
        texts is Some <==> member_texts(json_tree(*value), key@) is Some,
        texts is Some ==> string_views(texts->0@) == member_texts(json_tree(*value), key@)->0,
{
    match json_get(value, key) {
        Some(found) => match json_as_array(found) {
            Some(items) => texts_of_array(items),
            None => None,
        },
        None => None,
    }
}

} // verus!
