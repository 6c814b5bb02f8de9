//! JSON documents, read with `serde_json`. The crate's values are opaque
//! here; what one holds is named by `json_of`, and each function that reads
//! one says what it returns in terms of that name.

use vstd::prelude::*;

verus! {

/// `serde_json::Value`, a JSON value. Nothing of its inside is known here;
/// `json_of` names what it holds.
#[verifier::external_type_specification]
#[verifier::external_body]
pub struct ExJsonValue(serde_json::Value);

/// `serde_json::Error`, why a text is no JSON document. It is only turned
/// into its text.
#[verifier::external_type_specification]
#[verifier::external_body]
pub struct ExJsonError(serde_json::Error);

/// What a JSON value holds. Of a number only that it is one: no rule of
/// this library reads a number.
pub enum Json {
    Null,
    Bool(bool),
    Number,
    Text(Seq<char>),
    Array(Seq<Json>),
    Object(Map<Seq<char>, Json>),
}

/// What `value` holds.
pub uninterp spec fn json_of(value: serde_json::Value) -> Json;

/// What `text` holds where it is one JSON document, and nothing where it
/// is none.
pub uninterp spec fn json_parse(text: Seq<char>) -> Option<Json>;

/// The member `key` of an object; `Null` where `doc` is no object or has no
/// such member.
pub open spec fn member(doc: Json, key: Seq<char>) -> Json {
    match doc {
        Json::Object(members) => if members.dom().contains(key) {
            members[key]
        } else {
            Json::Null
        },
        _ => Json::Null,
    }
}

/// The text that `j` is, or `default` where it is no text.
pub open spec fn text_or(j: Json, default: Seq<char>) -> Seq<char> {
    match j {
        Json::Text(t) => t,
        _ => default,
    }
}

/// `serde_json::from_str` at the type `Value`: the document that `text`
/// holds, or the crate's error where `text` is no JSON document. The result
/// depends on the text alone.
#[verifier::external_body]
pub(crate) fn parse_json(text: &str) -> (parsed: Result<serde_json::Value, serde_json::Error>)
    ensures
        match parsed {
            Ok(value) => json_parse(text@) == Some(json_of(value)),
            Err(_) => json_parse(text@) is None,
        },
{
    serde_json::from_str::<serde_json::Value>(text)
}

/// The `Display` text of a `serde_json::Error`. Nothing is claimed of it.
#[verifier::external_body]
pub(crate) fn json_error_text(error: &serde_json::Error) -> (text: String) {
    error.to_string()
}

/// `value[key]`: indexing a `Value` by a string gives the member of that
/// name, and `Null` where the value is no object or has no such member.
#[verifier::external_body]
pub(crate) fn json_member<'a>(doc: &'a serde_json::Value, key: &str) -> (value:
    &'a serde_json::Value)
    ensures
        json_of(*value) == member(json_of(*doc), key@),
{
    &doc[key]
}

/// `Value::is_null`.
#[verifier::external_body]
pub(crate) fn json_is_null(value: &serde_json::Value) -> (null: bool)
    ensures
        null == (json_of(*value) is Null),
{
    value.is_null()
}

/// `Value::as_str`: the text of a string value, nothing for any other.
#[verifier::external_body]
pub(crate) fn json_text<'a>(value: &'a serde_json::Value) -> (text: Option<&'a str>)
    ensures
        match text {
            Some(t) => json_of(*value) == Json::Text(t@),
            None => !(json_of(*value) is Text),
        },
{
    value.as_str()
}

/// `Value::as_array`: the items of an array value, nothing for any other.
#[verifier::external_body]
pub(crate) fn json_items<'a>(value: &'a serde_json::Value) -> (items: Option<
    &'a Vec<serde_json::Value>,
>)
    ensures
        match items {
            Some(list) => json_of(*value) == Json::Array(
                Seq::new(list@.len(), |k: int| json_of(list@[k])),
            ),
            None => !(json_of(*value) is Array),
        },
{
    value.as_array()
}

} // verus!
