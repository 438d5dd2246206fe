//! How a response body becomes a typed value.
//!
//! Every response type says which JSON documents have its shape and what a
//! value of it holds of such a document. Reading a body is the same for all
//! of them: the bytes are parsed, and the document is held against the shape.

use crate::error::ApiError;
use crate::json::{parse_json, parsed_json, Json, JsonView};
use crate::text::concat2;
use vstd::prelude::*;

verus! {

/// A type that a response body can be read as.
pub trait ApiResponse: Sized {
    /// Whether a document has the shape of this response.
    spec fn decodable(doc: JsonView) -> bool;

    /// Whether this value holds what the document says: each of its fields
    /// is the member that the service names for it.
    spec fn decoded_from(&self, doc: JsonView) -> bool;

    /// Reads a document as this response. There is a value exactly for the
    /// documents that have the shape.
    fn from_json(doc: &Json) -> (decoded: Option<Self>)
        ensures
            decoded is Some == Self::decodable(doc@),
            decoded matches Some(response) ==> response.decoded_from(doc@),
    ;

    /// Reads the bytes of a response body as this response.
    ///
    /// Bytes that are no JSON document earn `Deserialization`, with the
    /// parser's reason in its text; so does a document that has not the
    /// shape of this response. Otherwise the outcome is a value that holds
    /// what the document says.
    fn deserialize_response(bytes: &[u8]) -> (outcome: Result<Self, ApiError>)
        ensures
            match parsed_json(bytes@) {
                Err(reason) => outcome matches Err(ApiError::Deserialization(text)) && text@
                    == unreadable_text(reason),
                Ok(doc) => if Self::decodable(doc) {
                    outcome matches Ok(response) && response.decoded_from(doc)
                } else {
                    outcome matches Err(ApiError::Deserialization(text)) && text@
                        == misshapen_text()
                },
            },
    {
        match parse_json(bytes) {
            Err(reason) => Err(unreadable(reason.as_str())),
            Ok(doc) => match Self::from_json(&doc) {
                Some(response) => Ok(response),
                None => Err(misshapen()),
            },
        }
    }
}

/// The text of the error for bytes that are no JSON document.
pub open spec fn unreadable_text(reason: Seq<char>) -> Seq<char> {
    "Deserialization error: "@ + reason
}

/// The text of the error for a document of another shape.
pub open spec fn misshapen_text() -> Seq<char> {
    "Deserialization error: unexpected shape of the response"@
}

/// Whether `outcome` is what reading `bytes` as a `T` gives: what
/// `deserialize_response` owes for them.
pub open spec fn is_decoding<T: ApiResponse>(bytes: Seq<u8>, outcome: Result<T, ApiError>) -> bool {
    match parsed_json(bytes) {
        Err(reason) => outcome matches Err(ApiError::Deserialization(text)) && text@
            == unreadable_text(reason),
        Ok(doc) => if T::decodable(doc) {
            outcome matches Ok(response) && response.decoded_from(doc)
        } else {
            outcome matches Err(ApiError::Deserialization(text)) && text@ == misshapen_text()
        },
    }
}

/// The text of the error for a request that the network did not complete.
pub open spec fn network_text(reason: Seq<char>) -> Seq<char> {
    "Geonames api error: "@ + reason
}

/// The error for bytes that are no JSON document, or no document that the
/// response can be read from, with the reader's reason.
pub fn unreadable(reason: &str) -> (error: ApiError)
    ensures
        error matches ApiError::Deserialization(text) && text@ == unreadable_text(reason@),
{
    ApiError::Deserialization(concat2("Deserialization error: ", reason))
}

/// The error for a document of another shape.
pub fn misshapen() -> (error: ApiError)
    ensures
        error matches ApiError::Deserialization(text) && text@ == misshapen_text(),
{
    ApiError::Deserialization(
        String::from_str("Deserialization error: unexpected shape of the response"),
    )
}

/// The error for a request that the network did not complete, with the
/// network's reason.
pub fn network_failure(reason: &str) -> (error: ApiError)
    ensures
        error matches ApiError::NetworkFailure(text) && text@ == network_text(reason@),
{
    ApiError::NetworkFailure(concat2("Geonames api error: ", reason))
}

/// Turns what the network handed back into the result of a call: the body
/// read as a `T`, or `NetworkFailure` with the network's reason where the
/// request was not completed.
pub fn read_response<T: ApiResponse>(transport: Result<Vec<u8>, String>) -> (outcome: Result<
    T,
    ApiError,
>)
    ensures
        match transport {
            Ok(body) => is_decoding::<T>(body@, outcome),
            Err(reason) => outcome matches Err(ApiError::NetworkFailure(text)) && text@
                == network_text(reason@),
        },
{
    match transport {
        Ok(body) => T::deserialize_response(body.as_slice()),
        Err(reason) => Err(network_failure(reason.as_str())),
    }
}

/// The text of the member called `name`, where it is a string.
pub open spec fn text_at(doc: JsonView, name: Seq<char>) -> Option<Seq<char>> {
    match doc.member(name) {
        Some(JsonView::Text(text)) => Some(text),
        _ => None,
    }
}

/// The text of the member called `name`, which may be missing or `null`:
/// `Some(None)` then, and `None` where it is there and no string.
pub open spec fn optional_text_at(doc: JsonView, name: Seq<char>) -> Option<Option<Seq<char>>> {
    match doc.member(name) {
        None => Some(None),
        Some(JsonView::Null) => Some(None),
        Some(JsonView::Text(text)) => Some(Some(text)),
        _ => None,
    }
}

/// The number of the member called `name`, where it is an integer from
/// `low` to `high`.
pub open spec fn integer_at(doc: JsonView, name: Seq<char>, low: int, high: int) -> Option<int> {
    match doc.member(name) {
        Some(JsonView::Integer(number)) => if low <= number <= high {
            Some(number)
        } else {
            None
        },
        _ => None,
    }
}

/// The number of the member called `name`, where it is an integer that a
/// 32-bit signed number can hold.
pub open spec fn int32_at(doc: JsonView, name: Seq<char>) -> Option<int> {
    integer_at(doc, name, i32::MIN as int, i32::MAX as int)
}

/// The number of the member called `name`, where it is an integer that a
/// 64-bit signed number can hold.
pub open spec fn int64_at(doc: JsonView, name: Seq<char>) -> Option<int> {
    integer_at(doc, name, i64::MIN as int, i64::MAX as int)
}

/// The text of a string that may be missing.
pub open spec fn text_of(text: Option<String>) -> Option<Seq<char>> {
    match text {
        Some(text) => Some(text@),
        None => None,
    }
}

/// The items of the member called `name`, where it is an array.
pub open spec fn items_at(doc: JsonView, name: Seq<char>) -> Option<Seq<JsonView>> {
    match doc.member(name) {
        Some(JsonView::Array(items)) => Some(items),
        _ => None,
    }
}

/// The member called `name`, unless it is missing or `null`.
pub open spec fn present_at(doc: JsonView, name: Seq<char>) -> Option<JsonView> {
    match doc.member(name) {
        None => None,
        Some(JsonView::Null) => None,
        Some(inner) => Some(inner),
    }
}

/// Whether each of `items` has the shape of a `T`.
pub open spec fn all_decodable<T: ApiResponse>(items: Seq<JsonView>) -> bool {
    forall|i: int| 0 <= i < items.len() ==> T::decodable(#[trigger] items[i])
}

/// Whether `values` hold, one by one, what `items` say.
pub open spec fn all_decoded<T: ApiResponse>(values: Seq<T>, items: Seq<JsonView>) -> bool {
    &&& values.len() == items.len()
    &&& forall|i: int| 0 <= i < items.len() ==> (#[trigger] values[i]).decoded_from(items[i])
}

/// Whether the member called `name` has the shape of a `T`.
pub open spec fn nested_decodable<T: ApiResponse>(doc: JsonView, name: Seq<char>) -> bool {
    doc.member(name) matches Some(inner) && T::decodable(inner)
}

/// Whether `value` holds what the member called `name` says.
pub open spec fn nested_decoded<T: ApiResponse>(value: T, doc: JsonView, name: Seq<char>) -> bool {
    doc.member(name) matches Some(inner) && value.decoded_from(inner)
}

/// Whether the member called `name` is missing, `null`, or has the shape of
/// a `T`.
pub open spec fn optional_decodable<T: ApiResponse>(doc: JsonView, name: Seq<char>) -> bool {
    present_at(doc, name) matches Some(inner) ==> T::decodable(inner)
}

/// Whether `value` holds what the member called `name` says: nothing where
/// the member is missing or `null`.
pub open spec fn optional_decoded<T: ApiResponse>(
    value: Option<T>,
    doc: JsonView,
    name: Seq<char>,
) -> bool {
    match present_at(doc, name) {
        None => value is None,
        Some(inner) => value matches Some(held) && held.decoded_from(inner),
    }
}

/// Whether the member called `name` is an array of documents that each have
/// the shape of a `T`.
pub open spec fn list_decodable<T: ApiResponse>(doc: JsonView, name: Seq<char>) -> bool {
    items_at(doc, name) matches Some(items) && all_decodable::<T>(items)
}

/// Whether `values` hold, one by one, what the items of the member called
/// `name` say.
pub open spec fn list_decoded<T: ApiResponse>(
    values: Seq<T>,
    doc: JsonView,
    name: Seq<char>,
) -> bool {
    items_at(doc, name) matches Some(items) && all_decoded::<T>(values, items)
}

/// The text of the member called `name`, where it is a string.
pub fn text_field(doc: &Json, name: &str) -> (text: Option<String>)
    ensures
        match text {
            Some(text) => text_at(doc@, name@) == Some(text@),
            None => text_at(doc@, name@) is None,
        },
{
    match doc.member(name) {
        Some(inner) => match inner.as_text() {
            Some(text) => Some(String::from_str(text)),
            None => None,
        },
        None => None,
    }
}

/// The text of the member called `name`, which may be missing or `null`.
pub fn optional_text_field(doc: &Json, name: &str) -> (text: Option<Option<String>>)
    ensures
        match text {
            Some(text) => optional_text_at(doc@, name@) == Some(text_of(text)),
            None => optional_text_at(doc@, name@) is None,
        },
{
    match doc.member(name) {
        None => Some(None),
        Some(inner) => {
            if inner.is_null() {
                Some(None)
            } else {
                match inner.as_text() {
                    Some(text) => Some(Some(String::from_str(text))),
                    None => None,
                }
            }
        },
    }
}

/// The number of the member called `name`, where it is an integer that a
/// 32-bit signed number can hold.
pub fn int32_field(doc: &Json, name: &str) -> (number: Option<i32>)
    ensures
        match number {
            Some(number) => int32_at(doc@, name@) == Some(number as int),
            None => int32_at(doc@, name@) is None,
        },
{
    match doc.member(name) {
        Some(inner) => match inner.as_integer() {
            Some(number) => {
                if -2147483648 <= number && number <= 2147483647 {
                    Some(number as i32)
                } else {
                    None
                }
            },
            None => None,
        },
        None => None,
    }
}

/// The number of the member called `name`, where it is an integer that a
/// 64-bit signed number can hold.
pub fn int64_field(doc: &Json, name: &str) -> (number: Option<i64>)
    ensures
        match number {
            Some(number) => int64_at(doc@, name@) == Some(number as int),
            None => int64_at(doc@, name@) is None,
        },
{
    match doc.member(name) {
        Some(inner) => inner.as_integer(),
        None => None,
    }
}

/// The member called `name`, read as a `T`.
pub fn nested_field<T: ApiResponse>(doc: &Json, name: &str) -> (value: Option<T>)
    ensures
        value is Some == nested_decodable::<T>(doc@, name@),
        value matches Some(held) ==> nested_decoded::<T>(held, doc@, name@),
{
    match doc.member(name) {
        Some(inner) => T::from_json(inner),
        None => None,
    }
}

/// The member called `name`, read as a `T` unless it is missing or `null`.
pub fn optional_field<T: ApiResponse>(doc: &Json, name: &str) -> (value: Option<Option<T>>)
    ensures
        value is Some == optional_decodable::<T>(doc@, name@),
        value matches Some(held) ==> optional_decoded::<T>(held, doc@, name@),
{
    match doc.member(name) {
        None => Some(None),
        Some(inner) => {
            if inner.is_null() {
                Some(None)
            } else {
                match T::from_json(inner) {
                    Some(held) => Some(Some(held)),
                    None => None,
                }
            }
        },
    }
}

/// The items of the member called `name`, each read as a `T`.
pub fn list_field<T: ApiResponse>(doc: &Json, name: &str) -> (values: Option<Vec<T>>)
    ensures
        values is Some == list_decodable::<T>(doc@, name@),
        values matches Some(held) ==> list_decoded::<T>(held@, doc@, name@),
{
    let items = match doc.member(name) {
        Some(inner) => match inner.as_array() {
            Some(items) => items,
            None => {
                return None;
            },
        },
        None => {
            return None;
        },
    };
    let ghost said = Seq::new(items@.len(), |i: int| items@[i]@);
    assert(items_at(doc@, name@) == Some(said));
    let mut held: Vec<T> = Vec::new();
    let mut i: usize = 0;
    while i < items.len()
        invariant
            i <= items.len(),
            held@.len() == i,
            said == Seq::new(items@.len(), |i: int| items@[i]@),
            items_at(doc@, name@) == Some(said),
            forall|j: int| 0 <= j < i ==> T::decodable(#[trigger] said[j]),
            forall|j: int| 0 <= j < i ==> (#[trigger] held@[j]).decoded_from(said[j]),
        decreases items.len() - i,
    {
        match T::from_json(&items[i]) {
            Some(value) => {
                held.push(value);
            },
            None => {
                assert(!T::decodable(said[i as int]));
                return None;
            },
        }
        i = i + 1;
    }
    Some(held)
}

} // verus!
