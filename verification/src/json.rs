//! The bridge to `serde_json`: parsing a line into a JSON value and reading
//! members out of it.
//!
//! A `serde_json::Value` is opaque to the verifier. What it holds is named by
//! [`json_of`], a tree of plain values, and every function below that touches
//! a `Value` says over that tree what it returns. The functions marked
//! `external_body` are believed, not proved; the rest of the crate works on the
//! [`Field`]s that [`read_field`] copies out.

use vstd::prelude::*;

verus! {

/// Declares `serde_json::Value`, a parsed JSON document, as an opaque type.
#[verifier::external_type_specification]
#[verifier::external_body]
pub struct ExValue(serde_json::Value);

/// Declares `serde_json::Error`, the failure of parsing, as an opaque type.
#[verifier::external_type_specification]
#[verifier::external_body]
pub struct ExJsonError(serde_json::Error);

/// A JSON document as a tree of plain values.
pub ghost enum Json {
    Null,
    Bool(bool),
    /// A number: its decimal text as `serde_json` prints it, and its value as
    /// an unsigned 64-bit integer where it is one.
    Number { text: Seq<char>, unsigned: Option<u64> },
    Text(Seq<char>),
    List(Seq<Json>),
    Object(Map<Seq<char>, Json>),
}

impl Json {
    /// The member of an object under `key`; `None` for a missing key and for
    /// anything that is no object.
    pub open spec fn member(self, key: Seq<char>) -> Option<Json> {
        match self {
            Json::Object(members) => if members.contains_key(key) {
                Some(members[key])
            } else {
                None
            },
            _ => None,
        }
    }
}

/// What a `serde_json::Value` holds.
pub uninterp spec fn json_of(value: serde_json::Value) -> Json;

/// What `serde_json::from_str` makes of a text: the document it parses to, or
/// `None` where it reports an error.
pub uninterp spec fn json_parse(text: Seq<char>) -> Option<Json>;

/// Calls `serde_json::from_str` for a `Value`. Parsing depends on the text
/// alone: the value returned holds the document named by [`json_parse`], and
/// an error comes exactly where that is `None`.
#[verifier::external_body]
pub(crate) fn parse_value(text: &str) -> (r: Result<serde_json::Value, serde_json::Error>)
    ensures
        match r {
            Ok(value) => json_parse(text@) == Some(json_of(value)),
            Err(_) => json_parse(text@) is None,
        },
{
    serde_json::from_str::<serde_json::Value>(text)
}

/// Calls `Value::get` with a string index: the member under `key` where the
/// value is an object that has one, `None` otherwise.
#[verifier::external_body]
pub(crate) fn member<'a>(value: &'a serde_json::Value, key: &str) -> (r: Option<
    &'a serde_json::Value,
>)
    ensures
        match r {
            Some(found) => json_of(*value).member(key@) == Some(json_of(*found)),
            None => json_of(*value).member(key@) is None,
        },
{
    value.get(key)
}

/// Calls `Value::is_null`.
#[verifier::external_body]
pub(crate) fn is_null(value: &serde_json::Value) -> (r: bool)
    ensures
        r == (json_of(*value) is Null),
{
    value.is_null()
}

/// Calls `Value::as_bool`: the boolean where the value is one.
#[verifier::external_body]
pub(crate) fn as_flag(value: &serde_json::Value) -> (r: Option<bool>)
    ensures
        match r {
            Some(flag) => json_of(*value) == Json::Bool(flag),
            None => !(json_of(*value) is Bool),
        },
{
    value.as_bool()
}

/// Calls `Value::as_str`: the text where the value is a string.
#[verifier::external_body]
pub(crate) fn as_text<'a>(value: &'a serde_json::Value) -> (r: Option<&'a str>)
    ensures
        match r {
            Some(text) => json_of(*value) == Json::Text(text@),
            None => !(json_of(*value) is Text),
        },
{
    value.as_str()
}

/// Calls `Value::as_u64`: the number where the value is a non-negative
/// integer that fits 64 bits, `None` for every other value.
#[verifier::external_body]
pub(crate) fn as_unsigned(value: &serde_json::Value) -> (r: Option<u64>)
    ensures
        r == match json_of(*value) {
            Json::Number { text, unsigned } => unsigned,
            _ => None,
        },
{
    value.as_u64()
}

/// Prints the number of a `Value::Number` with the `Display` of
/// `serde_json::Number`: the decimal text where the value is a number.
#[verifier::external_body]
pub(crate) fn number_text(value: &serde_json::Value) -> (r: Option<String>)
    ensures
        match r {
            Some(printed) => json_of(*value) matches Json::Number { text, unsigned } && text
                == printed@,
            None => !(json_of(*value) is Number),
        },
{
    match value {
        serde_json::Value::Number(number) => Some(number.to_string()),
        _ => None,
    }
}

/// One member of a message, as far as the bridge reads it.
#[derive(Debug, Clone, PartialEq, Eq)]
pub enum Field {
    /// The key is missing.
    Absent,
    /// The member is `null`.
    Null,
    Flag(bool),
    /// A number: its decimal text, and its value where it is a non-negative
    /// integer that fits 64 bits.
    Number { text: String, unsigned: Option<u64> },
    Text(String),
    /// An array or an object.
    Other,
}

/// The mathematical value of a [`Field`].
pub ghost enum FieldView {
    Absent,
    Null,
    Flag(bool),
    Number { text: Seq<char>, unsigned: Option<u64> },
    Text(Seq<char>),
    Other,
}

impl View for Field {
    type V = FieldView;

    open spec fn view(&self) -> FieldView {
        match self {
            Field::Absent => FieldView::Absent,
            Field::Null => FieldView::Null,
            Field::Flag(flag) => FieldView::Flag(*flag),
            Field::Number { text, unsigned } => FieldView::Number {
                text: text@,
                unsigned: *unsigned,
            },
            Field::Text(text) => FieldView::Text(text@),
            Field::Other => FieldView::Other,
        }
    }
}

impl FieldView {
    /// The field that stands for an optional JSON value.
    pub open spec fn of(json: Option<Json>) -> FieldView {
        match json {
            None => FieldView::Absent,
            Some(Json::Null) => FieldView::Null,
            Some(Json::Bool(flag)) => FieldView::Flag(flag),
            Some(Json::Number { text, unsigned }) => FieldView::Number { text, unsigned },
            Some(Json::Text(text)) => FieldView::Text(text),
            Some(Json::List(_)) => FieldView::Other,
            Some(Json::Object(_)) => FieldView::Other,
        }
    }

}

/// The JSON value behind an optional reference.
pub open spec fn json_behind(value: Option<&serde_json::Value>) -> Option<Json> {
    match value {
        Some(found) => Some(json_of(*found)),
        None => None,
    }
}

/// Copies out of a JSON value what the bridge reads of it.
pub fn read_field(value: Option<&serde_json::Value>) -> (r: Field)
    ensures
        r@ == FieldView::of(json_behind(value)),
{
    match value {
        None => Field::Absent,
        Some(found) => {
            if is_null(found) {
                Field::Null
            } else if let Some(flag) = as_flag(found) {
                Field::Flag(flag)
            } else if let Some(text) = number_text(found) {
                Field::Number { text, unsigned: as_unsigned(found) }
            } else if let Some(text) = as_text(found) {
                Field::Text(String::from_str(text))
            } else {
                Field::Other
            }
        },
    }
}

/// The member of `value` under `key`, as a field.
pub fn member_field(value: &serde_json::Value, key: &str) -> (r: Field)
    ensures
        r@ == FieldView::of(json_of(*value).member(key@)),
{
    read_field(member(value, key))
}

impl Field {
    /// A copy of this field.
    pub fn duplicate(&self) -> (r: Field)
        ensures
            r@ == self@,
    {
        match self {
            Field::Absent => Field::Absent,
            Field::Null => Field::Null,
            Field::Flag(flag) => Field::Flag(*flag),
            Field::Number { text, unsigned } => Field::Number {
                text: text.clone(),
                unsigned: *unsigned,
            },
            Field::Text(text) => Field::Text(text.clone()),
            Field::Other => Field::Other,
        }
    }
}

} // verus!
