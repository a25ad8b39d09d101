//! JSON values as plain data, and the reading of JSON text.
//!
//! The text is read by `serde_json`. What it reads is handed on as a [`Json`] value, on
//! which the rest of the library works. Where a text gives one key several times,
//! `serde_json` keeps the last of them, so that a value read from text has every key
//! once; a [`Json`] value made by hand may have a key as often as its maker likes.

use vstd::prelude::*;

verus! {

/// The mathematical model of a [`Json`] value.
pub enum JsonView {
    /// `null`.
    Null,
    /// `true` or `false`.
    Bool(bool),
    /// A number, by its decimal text.
    Number(Seq<char>),
    /// A string.
    Text(Seq<char>),
    /// An array.
    Array(Seq<JsonView>),
    /// An object: its members, each a key and a value.
    Object(Seq<(Seq<char>, JsonView)>),
}

/// A JSON value.
#[derive(Debug, PartialEq, Eq)]
pub enum Json {
    /// `null`.
    Null,
    /// `true` or `false`.
    Bool(bool),
    /// A number, by its decimal text.
    Number(String),
    /// A string.
    Text(String),
    /// An array.
    Array(Vec<Json>),
    /// An object: its members, each a key and a value.
    Object(Vec<(String, Json)>),
}

/// The models of a sequence of values, in the same order.
pub open spec fn models(items: Seq<Json>) -> Seq<JsonView>
    decreases items,
{
    Seq::new(
        items.len(),
        |i: int|
            if 0 <= i < items.len() {
                items[i].model()
            } else {
                arbitrary()
            },
    )
}

/// The models of the members of an object, in the same order.
pub open spec fn member_models(members: Seq<(String, Json)>) -> Seq<(Seq<char>, JsonView)>
    decreases members,
{
    Seq::new(
        members.len(),
        |i: int|
            if 0 <= i < members.len() {
                (members[i].0@, members[i].1.model())
            } else {
                arbitrary()
            },
    )
}

impl Json {
    /// The model of this value.
    pub open spec fn model(self) -> JsonView
        decreases self,
    {
        match self {
            Json::Null => JsonView::Null,
            Json::Bool(b) => JsonView::Bool(b),
            Json::Number(n) => JsonView::Number(n@),
            Json::Text(s) => JsonView::Text(s@),
            Json::Array(items) => JsonView::Array(models(items@)),
            Json::Object(members) => JsonView::Object(member_models(members@)),
        }
    }
}

impl View for Json {
    type V = JsonView;

    open spec fn view(&self) -> JsonView {
        self.model()
    }
}

/// `serde_json::Value`, the value that `serde_json` reads. Nothing is known of what is
/// inside it but through [`held`].
#[verifier::external_type_specification]
#[verifier::external_body]
pub struct ExValue(serde_json::Value);

/// `serde_json::Error`, the error of `serde_json`. It is only handed on.
#[verifier::external_type_specification]
#[verifier::external_body]
pub struct ExError(serde_json::Error);

/// The JSON value that a `serde_json::Value` holds. It is given no definition here: it
/// is whatever [`unpack`] finds in the value.
pub uninterp spec fn held(value: serde_json::Value) -> JsonView;

/// The JSON value that `serde_json::from_str` reads from `text`, or `None` where it
/// rejects `text`. It is given no definition here: the grammar of JSON is that of
/// `serde_json`.
pub uninterp spec fn decoded(text: Seq<char>) -> Option<JsonView>;

/// Calls `serde_json::from_str` to read one `serde_json::Value` from `text`. The
/// contract says only that the outcome is a function of the text: it names the value
/// that is read, and says that an error comes exactly where no value is read.
#[verifier::external_body]
fn read(text: &str) -> (outcome: Result<serde_json::Value, serde_json::Error>)
    ensures
        match outcome {
            Ok(value) => decoded(text@) == Some(held(value)),
            Err(_) => decoded(text@) is None,
        },
{
    serde_json::from_str::<serde_json::Value>(text)
}

/// Takes a `serde_json::Value` apart, variant by variant, into a [`Json`] value that
/// holds the same. A `serde_json::Number` is kept as the text that it prints as.
#[verifier::external_body]
fn unpack(value: serde_json::Value) -> (json: Json)
    ensures
        json@ == held(value),
{
    match value {
        serde_json::Value::Null => Json::Null,
        serde_json::Value::Bool(b) => Json::Bool(b),
        serde_json::Value::Number(n) => Json::Number(n.to_string()),
        serde_json::Value::String(s) => Json::Text(s),
        serde_json::Value::Array(items) => Json::Array(items.into_iter().map(unpack).collect()),
        serde_json::Value::Object(members) => Json::Object(
            members.into_iter().map(|(key, member)| (key, unpack(member))).collect(),
        ),
    }
}

/// Reads `text` as one JSON value. `None` means that `text` is not JSON.
pub fn parse(text: &str) -> (json: Option<Json>)
    ensures
        match json {
            Some(value) => decoded(text@) == Some(value@),
            None => decoded(text@) is None,
        },
{
    match read(text) {
        Ok(value) => Some(unpack(value)),
        Err(_) => None,
    }
}

} // verus!
