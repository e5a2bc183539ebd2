//! The JSON documents of speedrun.com responses, read with `serde_json`.
//!
//! A parsed document and the values found in it carry, as their view, the
//! JSON value they hold in `serde_json`'s data model. What `serde_json`
//! computes beyond that data model (what a text parses to, what a JSON
//! pointer finds) is named, not written out.

use vstd::prelude::*;

verus! {

/// A parsed JSON value (`serde_json::Value`).
#[verifier::external_type_specification]
#[verifier::external_body]
pub struct ExJsonValue(serde_json::Value);

/// The error of a JSON text that does not parse (`serde_json::Error`).
#[verifier::external_type_specification]
#[verifier::external_body]
pub struct ExJsonError(serde_json::Error);

/// A JSON value as `serde_json::Value` holds it: a number as the bit
/// pattern of the double it converts to, if it converts; an object as its
/// members in the order of its map.
pub enum JsonTree {
    Null,
    Bool(bool),
    Number(Option<u64>),
    String(Seq<char>),
    Array(Seq<JsonTree>),
    Object(Seq<(Seq<char>, JsonTree)>),
}

/// The JSON value a text parses to, if `serde_json` accepts the text.
pub uninterp spec fn parsed_json(text: Seq<char>) -> Option<JsonTree>;

/// The value a JSON pointer finds in a JSON value, as
/// `serde_json::Value::pointer` finds it.
pub uninterp spec fn pointer_target(value: JsonTree, pointer: Seq<char>) -> Option<JsonTree>;

/// Whether a text is a JSON document that `serde_json` accepts.
pub open spec fn is_json_text(text: Seq<char>) -> bool {
    parsed_json(text) is Some
}

/// A parsed JSON document.
pub struct JsonDocument {
    value: serde_json::Value,
    tree: Ghost<JsonTree>,
}

impl View for JsonDocument {
    type V = JsonTree;

    closed spec fn view(&self) -> JsonTree {
        self.tree@
    }
}

/// A value inside a parsed JSON document.
pub struct JsonRef<'a> {
    value: &'a serde_json::Value,
    tree: Ghost<JsonTree>,
}

impl<'a> View for JsonRef<'a> {
    type V = JsonTree;

    closed spec fn view(&self) -> JsonTree {
        self.tree@
    }
}

/// Parses a JSON document (`serde_json::from_str::<serde_json::Value>`):
/// the text parses exactly when `serde_json` accepts it, to the value that
/// `serde_json` parses it to.
#[verifier::external_body]
pub(crate) fn parse_json_text(text: &str) -> (parsed: Result<JsonDocument, serde_json::Error>)
    ensures
        match parsed_json(text@) {
            Some(tree) => parsed matches Ok(document) && document@ == tree,
            None => parsed is Err,
        },
{
    serde_json::from_str(text).map(|value| JsonDocument { value, tree: Ghost(parsed_json(text@)->0) })
}

/// Describes a JSON parse error (`Display` of `serde_json::Error`). The text
/// is not stated.
#[verifier::external_body]
pub(crate) fn json_error_message(error: &serde_json::Error) -> String {
    error.to_string()
}

/// The whole value of a parsed document.
pub fn document_root<'a>(document: &'a JsonDocument) -> (root: JsonRef<'a>)
    ensures
        root@ == document@,
{
    JsonRef { value: &document.value, tree: Ghost(document.tree@) }
}

/// Looks a value up by a JSON pointer (`serde_json::Value::pointer`): it
/// finds what `pointer_target` names.
#[verifier::external_body]
pub(crate) fn json_pointer<'a>(node: &JsonRef<'a>, pointer: &str) -> (found: Option<JsonRef<'a>>)
    ensures
        match pointer_target(node@, pointer@) {
            Some(target) => found matches Some(f) && f@ == target,
            None => found is None,
        },
{
    node.value.pointer(pointer).map(|value| JsonRef { value, tree: Ghost(pointer_target(node@, pointer@)->0) })
}

/// The text of a JSON string (`serde_json::Value::as_str`), copied; `None`
/// for any other value.
#[verifier::external_body]
pub(crate) fn json_as_str(node: &JsonRef) -> (text: Option<String>)
    ensures
        match node@ {
            JsonTree::String(s) => text matches Some(t) && t@ == s,
            _ => text is None,
        },
{
    node.value.as_str().map(str::to_owned)
}

/// The value of a JSON boolean (`serde_json::Value::as_bool`); `None` for
/// any other value.
#[verifier::external_body]
pub(crate) fn json_as_bool(node: &JsonRef) -> (b: Option<bool>)
    ensures
        match node@ {
            JsonTree::Bool(v) => b == Some(v),
            _ => b is None,
        },
{
    node.value.as_bool()
}

/// The bit pattern of the double a JSON number converts to
/// (`serde_json::Value::as_f64`); `None` for any other value.
#[verifier::external_body]
pub(crate) fn json_as_f64_bits(node: &JsonRef) -> (bits: Option<u64>)
    ensures
        match node@ {
            JsonTree::Number(n) => bits == n,
            _ => bits is None,
        },
{
    node.value.as_f64().map(|number| number.to_bits())
}

/// The elements of a JSON array (`serde_json::Value::as_array`), in order;
/// `None` for any other value.
#[verifier::external_body]
pub(crate) fn json_as_array<'a>(node: &JsonRef<'a>) -> (elements: Option<Vec<JsonRef<'a>>>)
    ensures
        match node@ {
            JsonTree::Array(items) => elements matches Some(e) && e@.len() == items.len() && (
            forall|i: int| 0 <= i < items.len() ==> (#[trigger] e@[i])@ == items[i]),
            _ => elements is None,
        },
{
    node.value.as_array().map(
        |items| items.iter().enumerate().map(
            |(i, value)| JsonRef { value, tree: Ghost(node@->Array_0[i as int]) },
        ).collect(),
    )
}

/// The members of a JSON object (`serde_json::Value::as_object`), as keys
/// and values in the order of the object's map; `None` for any other value.
#[verifier::external_body]
pub(crate) fn json_as_object<'a>(node: &JsonRef<'a>) -> (members: Option<Vec<(String, JsonRef<'a>)>>)
    ensures
        match node@ {
            JsonTree::Object(m) => members matches Some(e) && e@.len() == m.len() && (
            forall|i: int|
                0 <= i < m.len() ==> (#[trigger] e@[i]).0@ == m[i].0 && e@[i].1@ == m[i].1),
            _ => members is None,
        },
{
    node.value.as_object().map(
        |map| map.iter().enumerate().map(
            |(i, (key, value))| (key.clone(), JsonRef { value, tree: Ghost(node@->Object_0[i as int].1) }),
        ).collect(),
    )
}

/// The texts of an optional string.
pub open spec fn option_text(text: Option<String>) -> Option<Seq<char>> {
    match text {
        Some(t) => Some(t@),
        None => None,
    }
}

/// The string a JSON pointer finds, if it finds a string.
pub open spec fn spec_optional_str(value: JsonTree, pointer: Seq<char>) -> Option<Seq<char>> {
    match pointer_target(value, pointer) {
        Some(JsonTree::String(s)) => Some(s),
        _ => None,
    }
}

/// The boolean a JSON pointer finds, if it finds a boolean.
pub open spec fn spec_optional_bool(value: JsonTree, pointer: Seq<char>) -> Option<bool> {
    match pointer_target(value, pointer) {
        Some(JsonTree::Bool(b)) => Some(b),
        _ => None,
    }
}

/// The number a JSON pointer finds, as the bit pattern of a double, if it
/// finds a number that converts.
pub open spec fn spec_optional_f64_bits(value: JsonTree, pointer: Seq<char>) -> Option<u64> {
    match pointer_target(value, pointer) {
        Some(JsonTree::Number(n)) => n,
        _ => None,
    }
}

/// The elements of the array a JSON pointer finds, if it finds an array.
pub open spec fn spec_optional_array(value: JsonTree, pointer: Seq<char>) -> Option<Seq<JsonTree>> {
    match pointer_target(value, pointer) {
        Some(JsonTree::Array(items)) => Some(items),
        _ => None,
    }
}

/// The values of a sequence of found values.
pub open spec fn trees<'a>(nodes: Seq<JsonRef<'a>>) -> Seq<JsonTree> {
    nodes.map_values(|n: JsonRef<'a>| n@)
}

/// The string at a JSON pointer, if there is one.
pub(crate) fn optional_str(value: &JsonRef, pointer: &str) -> (text: Option<String>)
    ensures
        option_text(text) == spec_optional_str(value@, pointer@),
{
    match json_pointer(value, pointer) {
        Some(found) => json_as_str(&found),
        None => None,
    }
}

/// The boolean at a JSON pointer, if there is one.
pub(crate) fn optional_bool(value: &JsonRef, pointer: &str) -> (b: Option<bool>)
    ensures
        b == spec_optional_bool(value@, pointer@),
{
    match json_pointer(value, pointer) {
        Some(found) => json_as_bool(&found),
        None => None,
    }
}

/// The number at a JSON pointer as the bit pattern of a double, if there is
/// one.
pub(crate) fn optional_f64_bits(value: &JsonRef, pointer: &str) -> (bits: Option<u64>)
    ensures
        bits == spec_optional_f64_bits(value@, pointer@),
{
    match json_pointer(value, pointer) {
        Some(found) => json_as_f64_bits(&found),
        None => None,
    }
}

/// The elements of the array at a JSON pointer, if there is one.
pub(crate) fn optional_array<'a>(value: &JsonRef<'a>, pointer: &str) -> (elements: Option<
    Vec<JsonRef<'a>>,
>)
    ensures
        match spec_optional_array(value@, pointer@) {
            Some(items) => elements matches Some(e) && trees(e@) == items,
            None => elements is None,
        },
{
    match json_pointer(value, pointer) {
        Some(found) => {
            let elements = json_as_array(&found);
            proof {
                if elements is Some {
                    assert(trees(elements->0@) =~= found@->Array_0);
                }
            }
            elements
        },
        None => None,
    }
}

} // verus!
