//! JSON values, held in `serde_json::Value`.

use crate::text::texts;
use vstd::prelude::*;

verus! {

/// What a JSON value holds: the kinds of values that a configuration is made of.
pub enum JsonTree {
    Bool(bool),
    Number(nat),
    Text(Seq<char>),
    List(Seq<JsonTree>),
    Object(Map<Seq<char>, JsonTree>),
}

impl JsonTree {
    /// The object with one field set, added or replaced.
    pub open spec fn with(self, key: Seq<char>, value: JsonTree) -> JsonTree {
        JsonTree::Object(self->Object_0.insert(key, value))
    }

    /// Tells whether the object has the field.
    pub open spec fn has(self, key: Seq<char>) -> bool {
        self is Object && self->Object_0.contains_key(key)
    }

    /// The field of the object.
    pub open spec fn field(self, key: Seq<char>) -> JsonTree {
        self->Object_0[key]
    }
}

/// The object without fields.
pub open spec fn no_fields() -> JsonTree {
    JsonTree::Object(Map::empty())
}

/// The list of texts.
pub open spec fn text_items(items: Seq<Seq<char>>) -> JsonTree {
    JsonTree::List(items.map_values(|item: Seq<char>| JsonTree::Text(item)))
}

/// The JSON values of `serde_json`.
#[verifier::external_type_specification]
#[verifier::external_body]
pub struct ExValue(serde_json::Value);

/// What a `serde_json::Value` holds.
pub uninterp spec fn tree(value: serde_json::Value) -> JsonTree;

/// The text that `serde_json::to_string_pretty` gives for a value with the given contents, or
/// the message of its error.
pub uninterp spec fn pretty_text(contents: JsonTree) -> Result<Seq<char>, Seq<char>>;

/// `serde_json::Value::Bool` holds the given boolean.
#[verifier::external_body]
pub(crate) fn json_bool(flag: bool) -> (value: serde_json::Value)
    ensures
        tree(value) == JsonTree::Bool(flag),
{
    serde_json::Value::Bool(flag)
}

/// `serde_json::Value::from` on a `u16` gives the number.
#[verifier::external_body]
pub(crate) fn json_number(number: u16) -> (value: serde_json::Value)
    ensures
        tree(value) == JsonTree::Number(number as nat),
{
    serde_json::Value::from(number)
}

/// `serde_json::Value::String` holds the given text.
#[verifier::external_body]
pub(crate) fn json_text(text: &str) -> (value: serde_json::Value)
    ensures
        tree(value) == JsonTree::Text(text@),
{
    serde_json::Value::String(text.to_owned())
}

/// `serde_json::Value::Array` holds the given values in their order.
#[verifier::external_body]
pub(crate) fn json_list(items: Vec<serde_json::Value>) -> (value: serde_json::Value)
    ensures
        tree(value) == JsonTree::List(items@.map_values(|item: serde_json::Value| tree(item))),
{
    serde_json::Value::Array(items)
}

/// `serde_json::Map::new` has no entry; `serde_json::Value::Object` holds its entries.
#[verifier::external_body]
pub(crate) fn json_object() -> (value: serde_json::Value)
    ensures
        tree(value) == no_fields(),
{
    serde_json::Value::Object(serde_json::Map::new())
}

/// Assigning to `object[key]` of a `serde_json::Value` that is an object adds the field or
/// replaces its value, and leaves the other fields as they are. On a value of another kind
/// the assignment may panic, so such a value is left out.
#[verifier::external_body]
pub(crate) fn json_set(object: &mut serde_json::Value, key: &str, value: serde_json::Value)
    requires
        tree(*old(object)) is Object,
    ensures
        tree(*final(object)) == tree(*old(object)).with(key@, tree(value)),
{
    object[key] = value;
}

/// `serde_json::to_string_pretty` gives a text that depends on what the value holds alone: the
/// fields of an object are written in the order of their keys. On a `serde_json::Value` it does
/// not fail, since all keys are texts and the text goes to memory; an error would be given by
/// its message.
#[verifier::external_body]
pub(crate) fn json_to_string_pretty(value: &serde_json::Value) -> (text: Result<String, String>)
    ensures
        pretty_text(tree(*value)) == match text {
            Ok(text) => Ok::<Seq<char>, Seq<char>>(text@),
            Err(error) => Err(error@),
        },
        text is Ok,
{
    serde_json::to_string_pretty(value).map_err(|error| error.to_string())
}

/// The list of one value.
pub(crate) fn json_single(item: serde_json::Value) -> (value: serde_json::Value)
    ensures
        tree(value) == JsonTree::List(seq![tree(item)]),
{
    let mut items: Vec<serde_json::Value> = Vec::new();
    items.push(item);
    assert(items@.map_values(|item: serde_json::Value| tree(item)) =~= seq![tree(item)]);
    json_list(items)
}

/// The list of the given texts.
pub(crate) fn json_texts(list: &Vec<String>) -> (value: serde_json::Value)
    ensures
        tree(value) == text_items(texts(list@)),
{
    let mut items: Vec<serde_json::Value> = Vec::new();
    let mut i: usize = 0;
    while i < list.len()
        invariant
            i <= list.len(),
            items.len() == i,
            forall|j: int| 0 <= j < i ==> tree(#[trigger] items[j]) == JsonTree::Text(list[j]@),
        decreases list.len() - i,
    {
        items.push(json_text(list[i].as_str()));
        i += 1;
    }
    assert(items@.map_values(|item: serde_json::Value| tree(item)) =~= texts(list@).map_values(
        |item: Seq<char>| JsonTree::Text(item),
    ));
    json_list(items)
}

} // verus!
