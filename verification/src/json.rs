//! JSON documents, as `serde_json` holds them, and what this crate needs to
//! read from them and to build of them.
use crate::text::decimal;
use vstd::prelude::*;

verus! {

/// `serde_json::Value`, opaque: what it holds is told by [`json_view`].
#[verifier::external_type_specification]
#[verifier::external_body]
pub struct ExValue(serde_json::Value);

/// `serde_json::Map`, opaque: what it holds is told by [`members_view`].
#[verifier::external_type_specification]
#[verifier::external_body]
#[verifier::reject_recursive_types(K)]
#[verifier::reject_recursive_types(V)]
pub struct ExMap<K, V>(serde_json::Map<K, V>);

/// A JSON document as a mathematical value.
///
/// A number is told by its decimal notation, so that integers and fractions
/// have one form. The members of an object are told by their names: they are
/// kept in the order of the names, not in that of insertion.
pub enum JsonView {
    Null,
    Bool(bool),
    Number(Seq<char>),
    Text(Seq<char>),
    Array(Seq<JsonView>),
    Object(Map<Seq<char>, JsonView>),
}

/// What a `serde_json::Value` holds.
pub uninterp spec fn json_view(value: serde_json::Value) -> JsonView;

/// The members that a `serde_json::Map` holds, by name.
pub uninterp spec fn members_view(members: serde_json::Map<String, serde_json::Value>) -> Map<
    Seq<char>,
    JsonView,
>;

/// The compact JSON notation of a document: no white space between the tokens,
/// and members in the order of their names.
pub uninterp spec fn json_text(document: JsonView) -> Seq<char>;

/// The members of the empty object.
pub open spec fn no_members() -> Map<Seq<char>, JsonView> {
    Map::empty()
}

/// The notation of a document for error messages.
pub uninterp spec fn json_debug_text(document: JsonView) -> Seq<char>;

/// What each of a sequence of documents holds.
pub open spec fn json_views(values: Seq<serde_json::Value>) -> Seq<JsonView> {
    Seq::new(values.len(), |i: int| json_view(values[i]))
}

/// The member `name` of a document, where it is an object that has one.
pub open spec fn member(document: JsonView, name: Seq<char>) -> Option<JsonView> {
    match document {
        JsonView::Object(members) => if members.contains_key(name) {
            Some(members[name])
        } else {
            None
        },
        _ => None,
    }
}

/// The text that a document is, where it is one.
pub open spec fn text_in(document: JsonView) -> Option<Seq<char>> {
    match document {
        JsonView::Text(text) => Some(text),
        _ => None,
    }
}

/// `serde_json::Value::get` with a text as index: the member of that name
/// where the value is an object that has one, and nothing otherwise.
#[verifier::external_body]
pub(crate) fn get_member<'a>(value: &'a serde_json::Value, name: &str) -> (found: Option<
    &'a serde_json::Value,
>)
    ensures
        found is Some <==> member(json_view(*value), name@) is Some,
        found matches Some(inner) ==> member(json_view(*value), name@) == Some(json_view(*inner)),
{
    value.get(name)
}

/// `serde_json::Value::as_str`: the text, where the value is one.
pub assume_specification[ serde_json::Value::as_str ](value: &serde_json::Value) -> (text: Option<
    &str,
>)
    ensures
        text is Some <==> text_in(json_view(*value)) is Some,
        text matches Some(inner) ==> text_in(json_view(*value)) == Some(inner@),
;

/// `serde_json::Value::as_array`: the elements in their order, where the value
/// is an array.
pub assume_specification[ serde_json::Value::as_array ](value: &serde_json::Value) -> (items:
    Option<&Vec<serde_json::Value>>)
    ensures
        items is Some <==> json_view(*value) is Array,
        items matches Some(inner) ==> json_view(*value) == JsonView::Array(json_views(inner@)),
;

/// `serde_json::Map::new`: no members.
pub assume_specification[ serde_json::Map::<String, serde_json::Value>::new ]() -> (members:
    serde_json::Map<String, serde_json::Value>)
    ensures
        members_view(members) == no_members(),
;

/// `serde_json::Map::insert`: the member is added, or takes the place of the
/// one of its name, which is handed back.
pub assume_specification[ serde_json::Map::<String, serde_json::Value>::insert ](
    members: &mut serde_json::Map<String, serde_json::Value>,
    k: String,
    v: serde_json::Value,
) -> (replaced: Option<serde_json::Value>)
    ensures
        members_view(*final(members)) == members_view(*old(members)).insert(k@, json_view(v)),
        replaced is Some <==> members_view(*old(members)).contains_key(k@),
        replaced matches Some(value) ==> json_view(value) == members_view(*old(members))[k@],
;

/// `serde_json::Value::Null`.
#[verifier::external_body]
pub(crate) fn null_value() -> (value: serde_json::Value)
    ensures
        json_view(value) == JsonView::Null,
{
    serde_json::Value::Null
}

/// `serde_json::Value::Bool`.
#[verifier::external_body]
pub(crate) fn bool_value(flag: bool) -> (value: serde_json::Value)
    ensures
        json_view(value) == JsonView::Bool(flag),
{
    serde_json::Value::Bool(flag)
}

/// `<serde_json::Value as From<u64>>::from`: the number, whose notation is
/// its decimal digits.
#[verifier::external_body]
pub(crate) fn number_value(number: u64) -> (value: serde_json::Value)
    ensures
        json_view(value) == JsonView::Number(decimal(number as nat)),
{
    serde_json::Value::from(number)
}

/// `serde_json::Value::String`.
#[verifier::external_body]
pub(crate) fn text_value(text: String) -> (value: serde_json::Value)
    ensures
        json_view(value) == JsonView::Text(text@),
{
    serde_json::Value::String(text)
}

/// `serde_json::Value::Array`.
#[verifier::external_body]
pub(crate) fn array_value(items: Vec<serde_json::Value>) -> (value: serde_json::Value)
    ensures
        json_view(value) == JsonView::Array(json_views(items@)),
{
    serde_json::Value::Array(items)
}

/// `serde_json::Value::Object`.
#[verifier::external_body]
pub(crate) fn object_value(members: serde_json::Map<String, serde_json::Value>) -> (value:
    serde_json::Value)
    ensures
        json_view(value) == JsonView::Object(members_view(members)),
{
    serde_json::Value::Object(members)
}

/// `<serde_json::Value as ToString>::to_string`: the compact notation. It
/// depends on what the value holds alone; how it is spelt is not stated.
#[verifier::external_body]
pub(crate) fn compact_text(value: &serde_json::Value) -> (text: String)
    ensures
        text@ == json_text(json_view(*value)),
{
    value.to_string()
}

/// `<serde_json::Value as Debug>::fmt`: the notation for error messages. It
/// depends on what the value holds alone; how it is spelt is not stated.
#[verifier::external_body]
pub(crate) fn debug_text(value: &serde_json::Value) -> (text: String)
    ensures
        text@ == json_debug_text(json_view(*value)),
{
    format!("{:?}", value)
}

} // verus!
