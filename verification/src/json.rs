//! JSON values as `serde_json` reads them, and the few questions this library asks of them.

use vstd::prelude::*;

verus! {

/// What a JSON value holds, as far as this library reads it.
pub enum JsonView {
    /// A whole number in the range of `i64`.
    Integer(i64),
    /// A string.
    Text(Seq<char>),
    /// An array, with its items in order.
    Array(Seq<JsonView>),
    /// An object, with its members by name.
    Object(Map<Seq<char>, JsonView>),
    /// Anything else: `null`, a boolean, or a number that is no whole number in the range of
    /// `i64`.
    Other,
}

/// `serde_json::Value`, a JSON value: nothing is known of it but what [`content`] says.
#[verifier::external_type_specification]
#[verifier::external_body]
pub struct ExValue(serde_json::Value);

/// `serde_json::Error`, the parser's error: nothing is known of it but what [`words`] says.
#[verifier::external_type_specification]
#[verifier::external_body]
pub struct ExError(serde_json::Error);

/// What `serde_json::from_str` makes of a text: the value that it reads from it, or the words
/// of the error that it reports.
pub uninterp spec fn parsed(text: Seq<char>) -> Result<JsonView, Seq<char>>;

/// What a `serde_json::Value` holds.
pub uninterp spec fn content(value: serde_json::Value) -> JsonView;

/// The words of a `serde_json::Error`, as its `to_string` writes them.
pub uninterp spec fn words(error: serde_json::Error) -> Seq<char>;

/// The member of an object with a given name, if the value is an object and has one.
pub open spec fn member(json: JsonView, name: Seq<char>) -> Option<JsonView> {
    match json {
        JsonView::Object(members) if members.contains_key(name) => Some(members[name]),
        _ => None,
    }
}

/// The string under a given name, if the value is an object whose member of that name is a string.
pub open spec fn text_member(json: JsonView, name: Seq<char>) -> Option<Seq<char>> {
    match member(json, name) {
        Some(JsonView::Text(text)) => Some(text),
        _ => None,
    }
}

/// The whole number under a given name, if the value is an object whose member of that name is
/// one.
pub open spec fn integer_member(json: JsonView, name: Seq<char>) -> Option<i64> {
    match member(json, name) {
        Some(JsonView::Integer(number)) => Some(number),
        _ => None,
    }
}

/// Calls `serde_json::from_str` for a `serde_json::Value`. Trusted: what comes back depends on
/// the text alone, so [`parsed`] names it, a value by what it holds and an error by its words.
#[verifier::external_body]
pub(crate) fn read_value(text: &str) -> (r: Result<serde_json::Value, serde_json::Error>)
    ensures
        match r {
            Ok(value) => parsed(text@) == Ok::<JsonView, Seq<char>>(content(value)),
            Err(error) => parsed(text@) == Err::<JsonView, Seq<char>>(words(error)),
        },
{
    serde_json::from_str::<serde_json::Value>(text)
}

/// Calls `to_string` on a `serde_json::Error`, which writes the error as a line of text.
/// Trusted: the text depends on the error alone, so [`words`] names it.
#[verifier::external_body]
pub(crate) fn describe(error: &serde_json::Error) -> (r: String)
    ensures
        r@ == words(*error),
{
    error.to_string()
}

/// Calls `serde_json::Value::get` with a name. Trusted: it hands out the member of that name
/// where the value is an object that has one, and nothing otherwise.
#[verifier::external_body]
pub(crate) fn get_member<'a>(value: &'a serde_json::Value, name: &str) -> (r: Option<
    &'a serde_json::Value,
>)
    ensures
        match r {
            Some(found) => member(content(*value), name@) == Some(content(*found)),
            None => member(content(*value), name@) is None,
        },
{
    value.get(name)
}

/// Calls `serde_json::Value::as_i64`. Trusted: it gives the number where the value is a whole
/// number in the range of `i64`, and nothing otherwise.
#[verifier::external_body]
pub(crate) fn get_integer(value: &serde_json::Value) -> (r: Option<i64>)
    ensures
        r == match content(*value) {
            JsonView::Integer(number) => Some(number),
            _ => None,
        },
{
    value.as_i64()
}

/// Calls `serde_json::Value::as_str`. Trusted: it gives the string where the value is one, and
/// nothing otherwise.
#[verifier::external_body]
pub(crate) fn get_text<'a>(value: &'a serde_json::Value) -> (r: Option<&'a str>)
    ensures
        match r {
            Some(text) => content(*value) == JsonView::Text(text@),
            None => !(content(*value) is Text),
        },
{
    value.as_str()
}

/// Calls `serde_json::Value::as_array`. Trusted: it gives the items, in order, where the value
/// is an array, and nothing otherwise.
#[verifier::external_body]
pub(crate) fn get_items<'a>(value: &'a serde_json::Value) -> (r: Option<
    &'a Vec<serde_json::Value>,
>)
    ensures
        match r {
            Some(items) => content(*value) == JsonView::Array(
                Seq::new(items@.len(), |i: int| content(items@[i])),
            ),
            None => !(content(*value) is Array),
        },
{
    value.as_array()
}

/// The string under a given name of an object.
pub fn text_of(value: &serde_json::Value, name: &str) -> (r: Option<String>)
    ensures
        match r {
            Some(text) => text_member(content(*value), name@) == Some(text@),
            None => text_member(content(*value), name@) is None,
        },
{
    match get_member(value, name) {
        Some(found) => match get_text(found) {
            Some(text) => Some(text.to_owned()),
            None => None,
        },
        None => None,
    }
}

} // verus!
