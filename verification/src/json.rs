//! JSON documents, as `serde_json` holds them, and what the rest of the
//! library reads from them.
//!
//! A `serde_json::Value` is opaque to the verifier. Its content is named by
//! `json_content`, and every accessor below is a thin call into
//! `serde_json` whose contract is trusted, not proved.

use vstd::prelude::*;

verus! {

/// Declares `serde_json::Value` as a type that the verifier carries
/// through without looking inside.
#[verifier::external_type_specification]
#[verifier::external_body]
pub struct ExValue(serde_json::Value);

/// The content of a JSON document.
///
/// Integers keep their value; a number that is not an integer is only known
/// to be one.
pub enum JsonView {
    Null,
    Bool(bool),
    /// A non-negative integer.
    Unsigned(u64),
    /// A negative integer.
    Negative(i64),
    /// A number with a fraction or an exponent.
    Real,
    Text(Seq<char>),
    List(Seq<JsonView>),
    Object(Map<Seq<char>, JsonView>),
}

/// What a `serde_json::Value` holds.
pub uninterp spec fn json_content(value: serde_json::Value) -> JsonView;

/// What `serde_json` reads from a text: the document, or nothing where the
/// text is not one JSON document.
pub uninterp spec fn parsed_json(text: Seq<char>) -> Option<JsonView>;

impl JsonView {
    /// The member `key` of an object; nothing for a missing key and for a
    /// document that is not an object.
    pub open spec fn member(self, key: Seq<char>) -> Option<JsonView> {
        match self {
            JsonView::Object(members) => if members.contains_key(key) {
                Some(members[key])
            } else {
                None
            },
            _ => None,
        }
    }

    /// The characters of a string document.
    pub open spec fn text(self) -> Option<Seq<char>> {
        match self {
            JsonView::Text(t) => Some(t),
            _ => None,
        }
    }

    /// The value of a boolean document.
    pub open spec fn flag(self) -> Option<bool> {
        match self {
            JsonView::Bool(b) => Some(b),
            _ => None,
        }
    }

    /// The value of a non-negative integer document.
    pub open spec fn unsigned(self) -> Option<u64> {
        match self {
            JsonView::Unsigned(n) => Some(n),
            _ => None,
        }
    }

    /// The elements of an array document.
    pub open spec fn items(self) -> Option<Seq<JsonView>> {
        match self {
            JsonView::List(items) => Some(items),
            _ => None,
        }
    }

    /// Whether the document is `null`.
    pub open spec fn is_null(self) -> bool {
        self is Null
    }

    /// Whether the document is an object.
    pub open spec fn is_object(self) -> bool {
        self is Object
    }
}

/// The contents of a run of documents.
pub open spec fn json_contents(values: Seq<serde_json::Value>) -> Seq<JsonView> {
    values.map_values(|v: serde_json::Value| json_content(v))
}

/// Calls `serde_json::from_str` for a `Value`. Trusted: the outcome depends
/// on the text alone, and an error is reported as `None`.
#[verifier::external_body]
pub(crate) fn parse(text: &str) -> (document: Option<serde_json::Value>)
    ensures
        document.is_some() == parsed_json(text@).is_some(),
        document matches Some(v) ==> parsed_json(text@) == Some(json_content(v)),
{
    serde_json::from_str::<serde_json::Value>(text).ok()
}

/// Calls `Value::get` with a string key. Trusted: an object hands out the
/// member stored under the key, anything else hands out nothing.
#[verifier::external_body]
pub(crate) fn member<'a>(value: &'a serde_json::Value, key: &str) -> (found: Option<&'a serde_json::Value>)
    ensures
        found.is_some() == json_content(*value).member(key@).is_some(),
        found matches Some(m) ==> json_content(*value).member(key@) == Some(json_content(*m)),
{
    value.get(key)
}

/// Calls `Value::as_str`. Trusted: a string hands out its characters,
/// anything else nothing.
#[verifier::external_body]
pub(crate) fn as_text<'a>(value: &'a serde_json::Value) -> (text: Option<&'a str>)
    ensures
        text.is_some() == json_content(*value).text().is_some(),
        text matches Some(t) ==> json_content(*value).text() == Some(t@),
{
    value.as_str()
}

/// Calls `Value::as_bool`. Trusted: a boolean hands out its value, anything
/// else nothing.
#[verifier::external_body]
pub(crate) fn as_flag(value: &serde_json::Value) -> (flag: Option<bool>)
    ensures
        flag == json_content(*value).flag(),
{
    value.as_bool()
}

/// Calls `Value::as_u64`. Trusted: a non-negative integer hands out its
/// value, anything else nothing.
#[verifier::external_body]
pub(crate) fn as_unsigned(value: &serde_json::Value) -> (number: Option<u64>)
    ensures
        number == json_content(*value).unsigned(),
{
    value.as_u64()
}

/// Calls `Value::as_array`. Trusted: an array hands out its elements in
/// order, anything else nothing.
#[verifier::external_body]
pub(crate) fn as_items<'a>(value: &'a serde_json::Value) -> (items: Option<&'a Vec<serde_json::Value>>)
    ensures
        items.is_some() == json_content(*value).items().is_some(),
        items matches Some(list) ==> json_content(*value).items() == Some(json_contents(list@)),
{
    value.as_array()
}

/// Calls `Value::is_null`.
#[verifier::external_body]
pub(crate) fn is_null(value: &serde_json::Value) -> (null: bool)
    ensures
        null == json_content(*value).is_null(),
{
    value.is_null()
}

/// Calls `Value::is_object`.
#[verifier::external_body]
pub(crate) fn is_object(value: &serde_json::Value) -> (object: bool)
    ensures
        object == json_content(*value).is_object(),
{
    value.is_object()
}

} // verus!
