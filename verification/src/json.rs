//! JSON documents as the library reads them.
//!
//! Turning bytes into a document is the work of the `serde_json` crate. What
//! that crate makes of given bytes is named here, not restated; everything
//! that is done with a document afterwards is this library's own.

use crate::text::str_eq;
use vstd::prelude::*;

verus! {

/// A JSON document.
#[derive(Debug, PartialEq)]
pub enum Json {
    /// `null`
    Null,
    /// `true` or `false`
    Bool(bool),
    /// A number that is a 64-bit signed integer.
    Integer(i64),
    /// Any other number, in the text in which it is written out.
    Decimal(String),
    /// A string.
    Text(String),
    /// An array, with its items in order.
    Array(Vec<Json>),
    /// An object: its members' names and values.
    Object(Vec<(String, Json)>),
}

/// What a JSON document says.
pub enum JsonView {
    /// `null`
    Null,
    /// `true` or `false`
    Bool(bool),
    /// A number that is a 64-bit signed integer.
    Integer(int),
    /// Any other number, in the text in which it is written out.
    Decimal(Seq<char>),
    /// A string.
    Text(Seq<char>),
    /// An array, with what its items say.
    Array(Seq<JsonView>),
    /// An object: its members' names and what their values say.
    Object(Seq<(Seq<char>, JsonView)>),
}

/// What a JSON document says.
pub open spec fn json_view(doc: Json) -> JsonView
    decreases doc,
{
    match doc {
        Json::Null => JsonView::Null,
        Json::Bool(flag) => JsonView::Bool(flag),
        Json::Integer(number) => JsonView::Integer(number as int),
        Json::Decimal(number) => JsonView::Decimal(number@),
        Json::Text(text) => JsonView::Text(text@),
        Json::Array(items) => JsonView::Array(
            Seq::new(
                items@.len(),
                |i: int|
                    if 0 <= i < items@.len() {
                        json_view(items@[i])
                    } else {
                        JsonView::Null
                    },
            ),
        ),
        Json::Object(members) => JsonView::Object(
            Seq::new(
                members@.len(),
                |i: int|
                    if 0 <= i < members@.len() {
                        (members@[i].0@, json_view(members@[i].1))
                    } else {
                        (Seq::empty(), JsonView::Null)
                    },
            ),
        ),
    }
}

impl View for Json {
    type V = JsonView;

    open spec fn view(&self) -> JsonView {
        json_view(*self)
    }
}

/// The value of the first of `members` that is called `name`.
pub open spec fn first_named(members: Seq<(Seq<char>, JsonView)>, name: Seq<char>) -> Option<
    JsonView,
>
    decreases members.len(),
{
    if members.len() == 0 {
        None
    } else if members[0].0 == name {
        Some(members[0].1)
    } else {
        first_named(members.skip(1), name)
    }
}

impl JsonView {
    /// The value of the member called `name`, where the document is an
    /// object that has such a member.
    pub open spec fn member(self, name: Seq<char>) -> Option<JsonView> {
        match self {
            JsonView::Object(members) => first_named(members, name),
            _ => None,
        }
    }
}

impl Json {
    /// The value of the member called `name`, where the document is an
    /// object that has such a member.
    pub fn member(&self, name: &str) -> (found: Option<&Json>)
        ensures
            match found {
                Some(value) => self@.member(name@) == Some(value@),
                None => self@.member(name@) is None,
            },
    {
        match self {
            Json::Object(members) => {
                let ghost all = Seq::new(members@.len(), |i: int| (members@[i].0@, members@[i].1@));
                let mut i: usize = 0;
                assert(self@ == JsonView::Object(all)) by {
                    assert(self@->Object_0 =~= all);
                }
                assert(all.skip(0) == all);
                while i < members.len()
                    invariant
                        i <= members.len(),
                        self@ == JsonView::Object(all),
                        all.len() == members.len(),
                        forall|j: int|
                            0 <= j < members.len() ==> all[j] == (
                                (#[trigger] members[j]).0@,
                                members[j].1@,
                            ),
                        first_named(all, name@) == first_named(all.skip(i as int), name@),
                    decreases members.len() - i,
                {
                    assert(all.skip(i as int)[0] == all[i as int]);
                    assert(all.skip(i as int).skip(1) == all.skip(i + 1));
                    if str_eq(members[i].0.as_str(), name) {
                        return Some(&members[i].1);
                    }
                    i = i + 1;
                }
                None
            },
            _ => None,
        }
    }

    /// The document's text, where it is a string.
    pub fn as_text(&self) -> (text: Option<&str>)
        ensures
            match text {
                Some(text) => self@ == JsonView::Text(text@),
                None => !(self@ is Text),
            },
    {
        match self {
            Json::Text(text) => Some(text.as_str()),
            _ => None,
        }
    }

    /// The document's number, where it is a 64-bit signed integer.
    pub fn as_integer(&self) -> (number: Option<i64>)
        ensures
            match number {
                Some(number) => self@ == JsonView::Integer(number as int),
                None => !(self@ is Integer),
            },
    {
        match self {
            Json::Integer(number) => Some(*number),
            _ => None,
        }
    }

    /// The document's items, where it is an array.
    pub fn as_array(&self) -> (items: Option<&Vec<Json>>)
        ensures
            match items {
                Some(items) => self@ == JsonView::Array(
                    Seq::new(items@.len(), |i: int| items@[i]@),
                ),
                None => !(self@ is Array),
            },
    {
        match self {
            Json::Array(items) => {
                assert(self@->Array_0 == Seq::new(items@.len(), |i: int| items@[i]@));
                Some(items)
            },
            _ => None,
        }
    }

    /// Whether the document is `null`.
    pub fn is_null(&self) -> (null: bool)
        ensures
            null == (self@ is Null),
    {
        match self {
            Json::Null => true,
            _ => false,
        }
    }
}

/// `serde_json::Value`: a parsed document, carried as it is.
#[verifier::external_type_specification]
#[verifier::external_body]
pub struct ExJsonValue(serde_json::Value);

/// `serde_json::Error`: why bytes are no document, carried as it is.
#[verifier::external_type_specification]
#[verifier::external_body]
pub struct ExJsonError(serde_json::Error);

/// What a `serde_json::Value` says.
pub uninterp spec fn value_doc(value: serde_json::Value) -> JsonView;

/// The text that a `serde_json::Error` gives when it is displayed.
pub uninterp spec fn json_error_text(error: serde_json::Error) -> Seq<char>;

/// What `serde_json::from_slice` makes of bytes: the document that they
/// spell, or the reason why they spell none.
pub uninterp spec fn parsed_json(bytes: Seq<u8>) -> Result<JsonView, Seq<char>>;

/// `serde_json::from_slice` into a `serde_json::Value`: the outcome depends
/// on the bytes alone.
#[verifier::external_body]
pub(crate) fn parse_value(bytes: &[u8]) -> (parsed: Result<serde_json::Value, serde_json::Error>)
    ensures
        match parsed {
            Ok(value) => parsed_json(bytes@) == Ok::<JsonView, Seq<char>>(value_doc(value)),
            Err(error) => parsed_json(bytes@) == Err::<JsonView, Seq<char>>(json_error_text(error)),
        },
{
    serde_json::from_slice::<serde_json::Value>(bytes)
}

/// The `Display` text of a `serde_json::Error`.
#[verifier::external_body]
pub(crate) fn json_error_message(error: &serde_json::Error) -> (message: String)
    ensures
        message@ == json_error_text(*error),
{
    error.to_string()
}

/// Moves what a `serde_json::Value` holds into a `Json`, variant by variant.
/// A number becomes `Integer` where `serde_json::Number::as_i64` gives one,
/// and `Decimal` with its `Display` text otherwise.
#[verifier::external_body]
pub(crate) fn json_from_value(value: serde_json::Value) -> (doc: Json)
    ensures
        doc@ == value_doc(value),
{
    match value {
        serde_json::Value::Null => Json::Null,
        serde_json::Value::Bool(flag) => Json::Bool(flag),
        serde_json::Value::Number(number) => match number.as_i64() {
            Some(integer) => Json::Integer(integer),
            None => Json::Decimal(number.to_string()),
        },
        serde_json::Value::String(text) => Json::Text(text),
        serde_json::Value::Array(items) => Json::Array(
            items.into_iter().map(json_from_value).collect(),
        ),
        serde_json::Value::Object(members) => Json::Object(
            members.into_iter().map(|(name, value)| (name, json_from_value(value))).collect(),
        ),
    }
}

/// Reads bytes as a JSON document.
pub fn parse_json(bytes: &[u8]) -> (parsed: Result<Json, String>)
    ensures
        match parsed {
            Ok(doc) => parsed_json(bytes@) == Ok::<JsonView, Seq<char>>(doc@),
            Err(reason) => parsed_json(bytes@) == Err::<JsonView, Seq<char>>(reason@),
        },
{
    match parse_value(bytes) {
        Ok(value) => Ok(json_from_value(value)),
        Err(error) => Err(json_error_message(&error)),
    }
}

} // verus!
