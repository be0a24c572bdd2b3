//! Reading JSON response bodies with `serde_json`.
//!
//! A decoded document stays opaque here. [`JsonView`] says what a document is as
//! far as this crate ever looks: nothing, a text, an object of named members,
//! or something else. The functions that call `serde_json` are not proved; each
//! says which call it makes and what it takes that call to do.

use vstd::prelude::*;
use serde_json::Value;

verus! {

#[verifier::external_type_specification]
#[verifier::external_body]
pub struct ExValue(Value);

/// What a JSON document holds.
pub enum JsonView {
    /// The document `null`.
    Null,
    /// A string, with its text.
    Text(Seq<char>),
    /// An object, with its members by name.
    Object(Map<Seq<char>, JsonView>),
    /// A number, a truth value or an array.
    Other,
}

/// What a decoded document holds.
pub uninterp spec fn json_view(document: Value) -> JsonView;

/// What `serde_json::from_str` makes of a text: nothing when the text is not one
/// JSON document, otherwise what the document holds.
pub uninterp spec fn decoded(text: Seq<char>) -> Option<JsonView>;

/// Whether a text is one JSON document.
pub open spec fn is_json(text: Seq<char>) -> bool {
    decoded(text) is Some
}

/// The member of the given name, if the document is an object that has one.
pub open spec fn member_of(document: JsonView, name: Seq<char>) -> Option<JsonView> {
    match document {
        JsonView::Object(members) => if members.contains_key(name) {
            Some(members[name])
        } else {
            None
        },
        _ => None,
    }
}

/// The text of a document that is a string.
pub open spec fn text_in(document: JsonView) -> Option<Seq<char>> {
    match document {
        JsonView::Text(text) => Some(text),
        _ => None,
    }
}

/// The text of the member of the given name, if the document is an object that
/// has such a member and the member is a string.
pub open spec fn text_at(document: JsonView, name: Seq<char>) -> Option<Seq<char>> {
    match member_of(document, name) {
        Some(member) => text_in(member),
        None => None,
    }
}

/// The text member of the given name in a JSON text.
pub open spec fn text_member(text: Seq<char>, name: Seq<char>) -> Option<Seq<char>> {
    match decoded(text) {
        Some(document) => text_at(document, name),
        None => None,
    }
}

/// `serde_json::from_str`: the decoded document, or nothing when the text is not JSON.
#[verifier::external_body]
pub(crate) fn parse_json(text: &str) -> (r: Option<Value>)
    ensures
        match decoded(text@) {
            Some(view) => r matches Some(document) && json_view(document) == view,
            None => r is None,
        },
{
    match serde_json::from_str::<Value>(text) {
        Ok(v) => Some(v),
        Err(_) => None,
    }
}

/// `Value::get` with a name: the member of that name, if the document is an
/// object that has one.
#[verifier::external_body]
pub(crate) fn json_member<'a>(document: &'a Value, name: &str) -> (r: Option<&'a Value>)
    ensures
        match member_of(json_view(*document), name@) {
            Some(view) => r matches Some(member) && json_view(*member) == view,
            None => r is None,
        },
{
    document.get(name)
}

/// `Value::as_str`: the text, if the document is a string.
#[verifier::external_body]
pub(crate) fn json_text(document: &Value) -> (r: Option<String>)
    ensures
        match text_in(json_view(*document)) {
            Some(text) => r matches Some(s) && s@ == text,
            None => r is None,
        },
{
    match document.as_str() {
        Some(s) => Some(s.to_owned()),
        None => None,
    }
}

/// `Value::is_null`: whether the document is `null`.
#[verifier::external_body]
pub(crate) fn json_is_null(document: &Value) -> (r: bool)
    ensures
        r == (json_view(*document) is Null),
{
    document.is_null()
}

/// `Value::is_object`: whether the document is an object.
#[verifier::external_body]
pub(crate) fn json_is_object(document: &Value) -> (r: bool)
    ensures
        r == (json_view(*document) is Object),
{
    document.is_object()
}

/// The text of the member of the given name in a decoded document.
pub(crate) fn read_text_at(document: &Value, name: &str) -> (r: Option<String>)
    ensures
        match text_at(json_view(*document), name@) {
            Some(value) => r matches Some(s) && s@ == value,
            None => r is None,
        },
{
    match json_member(document, name) {
        Some(member) => json_text(member),
        None => None,
    }
}

/// The text member of the given name in a JSON text.
pub fn read_text_member(text: &str, name: &str) -> (r: Option<String>)
    ensures
        match text_member(text@, name@) {
            Some(value) => r matches Some(s) && s@ == value,
            None => r is None,
        },
{
    match parse_json(text) {
        Some(document) => read_text_at(&document, name),
        None => None,
    }
}

} // verus!
