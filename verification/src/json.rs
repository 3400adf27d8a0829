//! JSON values of `serde_json`, read by member and written to bytes.
use vstd::prelude::*;

verus! {

/// A JSON number of `serde_json`, carried through unread.
#[verifier::external_type_specification]
#[verifier::external_body]
pub struct ExJsonNumber(serde_json::Number);

/// A JSON value of `serde_json`.
#[verifier::external_type_specification]
#[verifier::external_body]
pub struct ExJsonValue(serde_json::Value);

/// An error of `serde_json`.
#[verifier::external_type_specification]
#[verifier::external_body]
pub struct ExJsonError(serde_json::Error);

/// What a JSON value holds.
pub ghost enum JsonTree {
    Null,
    Bool(bool),
    Number(serde_json::Number),
    Text(Seq<char>),
    Array(Seq<JsonTree>),
    Object(Map<Seq<char>, JsonTree>),
}

/// What a value of `serde_json` holds.
pub uninterp spec fn json_tree(value: serde_json::Value) -> JsonTree;

/// What `serde_json::from_str` reads from a text, or `None` where it gives an
/// error.
pub uninterp spec fn json_parse(text: Seq<char>) -> Option<JsonTree>;

/// The bytes that `serde_json::to_vec` writes for a value that holds this tree,
/// or `None` where it gives an error.
pub uninterp spec fn json_bytes(tree: JsonTree) -> Option<Seq<u8>>;

/// What each of these values holds.
pub open spec fn json_trees(values: Seq<serde_json::Value>) -> Seq<JsonTree> {
    Seq::new(values.len(), |i: int| json_tree(values[i]))
}

/// The members of an object that is put together from these, of which a later
/// one replaces an earlier one of the same name.
pub open spec fn json_members(pairs: Seq<(String, serde_json::Value)>) -> Map<Seq<char>, JsonTree>
    decreases pairs.len(),
{
    if pairs.len() == 0 {
        Map::empty()
    } else {
        json_members(pairs.drop_last()).insert(pairs.last().0@, json_tree(pairs.last().1))
    }
}

/// A member of an object; null for a member that is not there, and of anything
/// that is no object.
pub open spec fn member(tree: JsonTree, name: Seq<char>) -> JsonTree {
    match tree {
        JsonTree::Object(members) => if members.dom().contains(name) {
            members[name]
        } else {
            JsonTree::Null
        },
        _ => JsonTree::Null,
    }
}

/// The items of an array.
pub open spec fn items(tree: JsonTree) -> Option<Seq<JsonTree>> {
    match tree {
        JsonTree::Array(list) => Some(list),
        _ => None,
    }
}

/// The characters of a string.
pub open spec fn text(tree: JsonTree) -> Option<Seq<char>> {
    match tree {
        JsonTree::Text(s) => Some(s),
        _ => None,
    }
}

/// `serde_json::from_str`, read into a `serde_json::Value`. Whether it succeeds,
/// and what the value holds, depends on the text alone.
#[verifier::external_body]
pub(crate) fn parse_value(s: &str) -> (r: Result<serde_json::Value, serde_json::Error>)
    ensures
        match r {
            Ok(value) => json_parse(s@) == Some(json_tree(value)),
            Err(_) => json_parse(s@) is None,
        },
{
    serde_json::from_str(s)
}

/// Indexing a `serde_json::Value` by name: the member of that name of an
/// object, and null in every other case.
#[verifier::external_body]
pub(crate) fn value_member<'a>(value: &'a serde_json::Value, name: &str) -> (r:
    &'a serde_json::Value)
    ensures
        json_tree(*r) == member(json_tree(*value), name@),
{
    &value[name]
}

/// `serde_json::Value::as_array`: the items of an array, in order.
#[verifier::external_body]
pub(crate) fn value_items(value: &serde_json::Value) -> (r: Option<&Vec<serde_json::Value>>)
    ensures
        match r {
            Some(list) => items(json_tree(*value)) == Some(json_trees(list@)),
            None => items(json_tree(*value)) is None,
        },
{
    value.as_array()
}

/// `serde_json::Value::as_str`: the characters of a string.
#[verifier::external_body]
pub(crate) fn value_text(value: &serde_json::Value) -> (r: Option<&str>)
    ensures
        match r {
            Some(s) => text(json_tree(*value)) == Some(s@),
            None => text(json_tree(*value)) is None,
        },
{
    value.as_str()
}

/// `serde_json::Value::String`: a string value.
#[verifier::external_body]
pub(crate) fn text_value(s: String) -> (r: serde_json::Value)
    ensures
        json_tree(r) == JsonTree::Text(s@),
{
    serde_json::Value::String(s)
}

/// `serde_json::Value::Array`: an array value.
#[verifier::external_body]
pub(crate) fn array_value(values: Vec<serde_json::Value>) -> (r: serde_json::Value)
    ensures
        json_tree(r) == JsonTree::Array(json_trees(values@)),
{
    serde_json::Value::Array(values)
}

/// `serde_json::Value::Object` of a `serde_json::Map` that is collected from
/// pairs: as in any map, a later pair replaces an earlier one of its name.
#[verifier::external_body]
pub(crate) fn object_value(pairs: Vec<(String, serde_json::Value)>) -> (r: serde_json::Value)
    ensures
        json_tree(r) == JsonTree::Object(json_members(pairs@)),
{
    serde_json::Value::Object(pairs.into_iter().collect())
}

/// `serde_json::to_vec`. Whether it succeeds, and what it writes, depends on
/// what the value holds alone.
#[verifier::external_body]
pub(crate) fn value_to_bytes(value: &serde_json::Value) -> (r: Result<Vec<u8>, serde_json::Error>)
    ensures
        match r {
            Ok(bytes) => json_bytes(json_tree(*value)) == Some(bytes@),
            Err(_) => json_bytes(json_tree(*value)) is None,
        },
{
    serde_json::to_vec(value)
}

} // verus!
