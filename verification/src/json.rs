//! JSON values of `serde_json`, seen through a mathematical model of what they hold.
//!
//! `serde_json::Value` is opaque to the proofs. [`contents`] names the tree that a value holds,
//! and the functions below read, build and parse values in terms of that tree.

use serde_json::Value;
use vstd::prelude::*;

verus! {

/// What a JSON value holds. The value of a number is left out: no number is ever read or written.
pub enum Json {
    Null,
    Bool(bool),
    Number,
    Text(Seq<char>),
    Array(Seq<Json>),
    Object(Map<Seq<char>, Json>),
}

impl Json {
    /// The value under `key`; null where there is none.
    pub open spec fn field(self, key: Seq<char>) -> Json {
        match self {
            Json::Object(entries) => if entries.contains_key(key) { entries[key] } else { Json::Null },
            _ => Json::Null,
        }
    }

    /// The element at `index`; null where there is none.
    pub open spec fn item(self, index: int) -> Json {
        match self {
            Json::Array(items) => if 0 <= index < items.len() { items[index] } else { Json::Null },
            _ => Json::Null,
        }
    }

    /// The text that the value holds; the empty text where it holds something else.
    pub open spec fn text(self) -> Seq<char> {
        match self {
            Json::Text(text) => text,
            _ => Seq::empty(),
        }
    }

    /// The elements of an array; none where the value is something else.
    pub open spec fn items(self) -> Seq<Json> {
        match self {
            Json::Array(items) => items,
            _ => Seq::empty(),
        }
    }
}

/// An object with one entry.
pub open spec fn entry(key: Seq<char>, value: Json) -> Json {
    Json::Object(map![key => value])
}

/// `serde_json::Value`, carried through as it is.
#[verifier::external_type_specification]
#[verifier::external_body]
pub struct ExValue(serde_json::Value);

/// `serde_json::Error`, of which only its presence matters.
#[verifier::external_type_specification]
#[verifier::external_body]
pub struct ExError(serde_json::Error);

/// The tree that a `serde_json::Value` holds.
pub uninterp spec fn contents(value: serde_json::Value) -> Json;

/// The tree that `serde_json::from_slice` makes of a JSON text; `None` where it refuses the text.
pub uninterp spec fn parsed(bytes: Seq<u8>) -> Option<Json>;

/// The trees of several values.
pub open spec fn contents_of(values: Seq<serde_json::Value>) -> Seq<Json> {
    Seq::new(values.len(), |i: int| contents(values[i]))
}

/// `Index::index` of `Value` with a string: the value under the key of an object, and null where
/// the value is no object or has no such key.
#[verifier::external_body]
pub(crate) fn field<'a>(value: &'a Value, key: &str) -> (found: &'a Value)
    ensures
        contents(*found) == contents(*value).field(key@),
{
    &value[key]
}

/// `Index::index` of `Value` with a number: the element of an array at that place, and null where
/// the value is no array or is too short.
#[verifier::external_body]
pub(crate) fn item<'a>(value: &'a Value, index: usize) -> (found: &'a Value)
    ensures
        contents(*found) == contents(*value).item(index as int),
{
    &value[index]
}

/// `Value::as_str`: the text of a string, and `None` for every other value.
#[verifier::external_body]
pub(crate) fn as_text<'a>(value: &'a Value) -> (text: Option<&'a str>)
    ensures
        text is Some <==> contents(*value) is Text,
        text is Some ==> contents(*value) == Json::Text(text->0@),
{
    value.as_str()
}

/// `Value::as_array`: the elements of an array, and `None` for every other value.
#[verifier::external_body]
pub(crate) fn as_items<'a>(value: &'a Value) -> (items: Option<&'a Vec<Value>>)
    ensures
        items is Some <==> contents(*value) is Array,
        items is Some ==> contents(*value) == Json::Array(contents_of(items->0@)),
{
    value.as_array()
}

/// `From<String>` of `Value`: a string that holds the text.
#[verifier::external_body]
pub(crate) fn from_text(text: String) -> (value: Value)
    ensures
        contents(value) == Json::Text(text@),
{
    Value::from(text)
}

/// `From<bool>` of `Value`: the boolean itself.
#[verifier::external_body]
pub(crate) fn from_bool(flag: bool) -> (value: Value)
    ensures
        contents(value) == Json::Bool(flag),
{
    Value::from(flag)
}

/// `From<Vec<Value>>` of `Value`: an array of the values, in their order.
#[verifier::external_body]
pub(crate) fn from_items(items: Vec<Value>) -> (value: Value)
    ensures
        contents(value) == Json::Array(contents_of(items@)),
{
    Value::from(items)
}

/// `Map::new` of `serde_json`, as a value: an object without entries.
#[verifier::external_body]
pub(crate) fn empty_object() -> (value: Value)
    ensures
        contents(value) == Json::Object(Map::empty()),
{
    Value::from(serde_json::Map::new())
}

/// `IndexMut::index_mut` of `Value` with a string, written through: the entry of the object is set
/// and the others stay. It panics where the value is neither an object nor null.
#[verifier::external_body]
pub(crate) fn set_field(object: &mut Value, key: &str, value: Value)
    requires
        contents(*old(object)) is Object,
    ensures
        contents(*final(object)) == Json::Object(
            contents(*old(object))->Object_0.insert(key@, contents(value)),
        ),
{
    object[key] = value;
}

/// `serde_json::from_slice`, read as a `Value`: what it makes of the bytes, or its error where it
/// refuses them.
#[verifier::external_body]
pub(crate) fn parse(bytes: &[u8]) -> (value: Result<Value, serde_json::Error>)
    ensures
        value is Ok <==> parsed(bytes@) is Some,
        value is Ok ==> parsed(bytes@) == Some(contents(value->Ok_0)),
{
    serde_json::from_slice(bytes)
}

/// The text of a value, empty where it is no string.
pub(crate) fn text_or_empty(value: &Value) -> (text: String)
    ensures
        text@ == contents(*value).text(),
{
    match as_text(value) {
        Some(text) => text.to_string(),
        None => String::new(),
    }
}

/// An object with one entry.
pub(crate) fn object_of(key: &str, value: Value) -> (object: Value)
    ensures
        contents(object) == entry(key@, contents(value)),
{
    let mut object = empty_object();
    set_field(&mut object, key, value);
    object
}

/// An array of one value.
pub(crate) fn array_of(value: Value) -> (array: Value)
    ensures
        contents(array) == Json::Array(seq![contents(value)]),
{
    let mut items: Vec<Value> = Vec::new();
    items.push(value);
    assert(contents_of(items@) =~= seq![contents(value)]);
    from_items(items)
}

/// Reading a tree: an object gives what stands under a key and an array what stands at a place, and
/// both give null for what is not there. Only a text gives a text.
pub proof fn law_what_a_tree_gives(tree: Json, key: Seq<char>, index: int)
    ensures
        match tree {
            Json::Object(entries) => {
                &&& entries.contains_key(key) ==> tree.field(key) == entries[key]
                &&& !entries.contains_key(key) ==> tree.field(key) == Json::Null
            },
            _ => tree.field(key) == Json::Null,
        },
        match tree {
            Json::Array(items) => {
                &&& tree.items() == items
                &&& 0 <= index < items.len() ==> tree.item(index) == items[index]
                &&& !(0 <= index < items.len()) ==> tree.item(index) == Json::Null
            },
            _ => tree.items().len() == 0 && tree.item(index) == Json::Null,
        },
        match tree {
            Json::Text(text) => tree.text() == text,
            _ => tree.text().len() == 0,
        },
{
}

/// The trees of several values are those of each, in their order.
pub proof fn law_values_are_seen_one_by_one(values: Seq<serde_json::Value>)
    ensures
        contents_of(values).len() == values.len(),
        forall|i: int| 0 <= i < values.len() ==> contents_of(values)[i] == contents(
            #[trigger] values[i],
        ),
{
}

} // verus!
