//! JSON documents, read through `serde_json`.
//!
//! A parsed document stays a `serde_json::Value`. What the contracts say of
//! such a value they say over [`JsonTree`], the mathematical tree it stands
//! for. The functions of this module are the only places where the outside
//! crate is called; their contracts are taken on trust.

use vstd::prelude::*;

verus! {

/// The mathematical value of a JSON document.
pub enum JsonTree {
    Null,
    Bool(bool),
    /// A number. The payload is the number as a `u64` where the number was
    /// written as a non-negative integer that fits; `None` for negative and
    /// fractional numbers.
    Number(Option<u64>),
    Text(Seq<char>),
    Array(Seq<JsonTree>),
    Object(Map<Seq<char>, JsonTree>),
}

/// `serde_json::Value`, declared so that parsed documents can be passed
/// around. Nothing inside such a value is visible to a proof.
#[verifier::external_type_specification]
#[verifier::external_body]
pub struct ExValue(serde_json::Value);

/// The tree that a `serde_json::Value` holds. The accessors below say how
/// their results relate to it.
pub uninterp spec fn json_tree(value: serde_json::Value) -> JsonTree;

/// What `serde_json::from_str` makes of a text: the tree of the document, or
/// `None` where it reports an error. No contract says which texts are
/// documents, except that the empty text is none.
pub uninterp spec fn json_parse(text: Seq<char>) -> Option<JsonTree>;

/// The member of an object under a key; `None` where the tree is no object
/// or has no such key.
pub open spec fn spec_member(tree: JsonTree, key: Seq<char>) -> Option<JsonTree> {
    match tree {
        JsonTree::Object(members) => if members.contains_key(key) {
            Some(members[key])
        } else {
            None
        },
        _ => None,
    }
}

/// The elements of an array; `None` where the tree is no array.
pub open spec fn spec_elements(tree: JsonTree) -> Option<Seq<JsonTree>> {
    match tree {
        JsonTree::Array(items) => Some(items),
        _ => None,
    }
}

/// The tree as an unsigned integer; `None` where it is no number, or a
/// negative or fractional one.
pub open spec fn spec_unsigned(tree: JsonTree) -> Option<u64> {
    match tree {
        JsonTree::Number(n) => n,
        _ => None,
    }
}

/// The tree as a text; `None` where it is no string.
pub open spec fn spec_text(tree: JsonTree) -> Option<Seq<char>> {
    match tree {
        JsonTree::Text(s) => Some(s),
        _ => None,
    }
}

/// Calls `serde_json::from_str` for a `Value`. The outcome depends on the
/// text alone and is named by [`json_parse`]; an error becomes `None`. Of
/// the parser itself only one fact is stated: the empty text is no document.
#[verifier::external_body]
pub(crate) fn parse_document(text: &str) -> (parsed: Option<serde_json::Value>)
    ensures
        match parsed {
            Some(value) => json_parse(text@) == Some(json_tree(value)),
            None => json_parse(text@) is None,
        },
        text@.len() == 0 ==> parsed is None,
{
    serde_json::from_str::<serde_json::Value>(text).ok()
}

/// Calls `serde_json::Value::get` with a string key: the member under that
/// key where the value is an object that has the key, else `None`.
#[verifier::external_body]
pub(crate) fn member_of<'a>(value: &'a serde_json::Value, key: &str) -> (found: Option<
    &'a serde_json::Value,
>)
    ensures
        match found {
            Some(inner) => spec_member(json_tree(*value), key@) == Some(json_tree(*inner)),
            None => spec_member(json_tree(*value), key@) is None,
        },
{
    value.get(key)
}

/// Calls `serde_json::Value::as_array`: the vector of elements where the
/// value is an array, else `None`.
#[verifier::external_body]
pub(crate) fn elements_of<'a>(value: &'a serde_json::Value) -> (found: Option<
    &'a Vec<serde_json::Value>,
>)
    ensures
        match found {
            Some(items) => {
                &&& spec_elements(json_tree(*value)) is Some
                &&& spec_elements(json_tree(*value)).unwrap().len() == items@.len()
                &&& forall|i: int|
                    0 <= i < items@.len() ==> spec_elements(json_tree(*value)).unwrap()[i]
                        == json_tree(#[trigger] items@[i])
            },
            None => spec_elements(json_tree(*value)) is None,
        },
{
    value.as_array()
}

/// Calls `serde_json::Value::as_u64`: the number where the value is a
/// non-negative integer that fits a `u64`, else `None`.
#[verifier::external_body]
pub(crate) fn unsigned_of(value: &serde_json::Value) -> (found: Option<u64>)
    ensures
        found == spec_unsigned(json_tree(*value)),
{
    value.as_u64()
}

/// Calls `serde_json::Value::as_str`: the string where the value is one,
/// else `None`.
#[verifier::external_body]
pub(crate) fn text_of<'a>(value: &'a serde_json::Value) -> (found: Option<&'a str>)
    ensures
        match found {
            Some(s) => spec_text(json_tree(*value)) == Some(s@),
            None => spec_text(json_tree(*value)) is None,
        },
{
    value.as_str()
}

} // verus!
