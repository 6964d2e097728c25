//! The boundary to `serde_json`: the JSON value type, a mathematical view of
//! what a value holds, and the few accessors the classifier reads it through.
//!
//! Everything marked `external_body` here is believed, not proved.

use vstd::prelude::*;

verus! {

/// `serde_json::Value`, carried as an opaque value. What one holds is
/// `json_view` of it.
#[verifier::external_type_specification]
#[verifier::external_body]
pub struct ExValue(serde_json::Value);

/// `serde_json::Error`, carried as an opaque value. Nothing is read from it.
#[verifier::external_type_specification]
#[verifier::external_body]
pub struct ExJsonError(serde_json::Error);

/// What a JSON number is. A number is held in one of three ways, and which
/// one is part of the value.
pub enum NumberView {
    /// A non-negative integer that fits in 64 bits.
    Unsigned(u64),
    /// A negative integer that fits in 64 bits.
    Negative(i64),
    /// Any other number, as the bits of the double that stands for it.
    Double(u64),
}

/// The mathematical content of a JSON value.
pub enum JsonView {
    Null,
    Boolean(bool),
    Number(NumberView),
    Text(Seq<char>),
    Array(Seq<JsonView>),
    Object(Map<Seq<char>, JsonView>),
}

/// What a `serde_json::Value` holds.
pub uninterp spec fn json_view(v: serde_json::Value) -> JsonView;

/// What `serde_json::from_slice` makes of a body: the content of the value it
/// returns, or `None` where it returns an error (the bytes are not one JSON
/// document, or one nested deeper than the parser goes).
pub uninterp spec fn parsed_json(bytes: Seq<u8>) -> Option<JsonView>;

/// The member of an object stored under `key`; `None` for a missing key and
/// for anything that is not an object.
pub open spec fn member_of(j: JsonView, key: Seq<char>) -> Option<JsonView> {
    match j {
        JsonView::Object(members) => if members.contains_key(key) {
            Some(members[key])
        } else {
            None
        },
        _ => None,
    }
}

/// The text of a JSON string; `None` for every other kind of value.
pub open spec fn text_of(j: JsonView) -> Option<Seq<char>> {
    match j {
        JsonView::Text(s) => Some(s),
        _ => None,
    }
}

/// The value of a non-negative 64-bit integer; `None` for every other value.
pub open spec fn unsigned_of(j: JsonView) -> Option<u64> {
    match j {
        JsonView::Number(NumberView::Unsigned(n)) => Some(n),
        _ => None,
    }
}

/// The value that a 64-bit signed integer can give of a JSON number: a
/// negative integer as it is, a non-negative one up to `i64::MAX`; `None` for
/// every other value.
pub open spec fn signed_of(j: JsonView) -> Option<i64> {
    match j {
        JsonView::Number(NumberView::Negative(n)) => Some(n),
        JsonView::Number(NumberView::Unsigned(n)) => if n <= i64::MAX {
            Some(n as i64)
        } else {
            None
        },
        _ => None,
    }
}

/// The value of a JSON number that is held as an integer, of either sign;
/// `None` for a number held as a double and for every other kind of value.
pub open spec fn integer_of(j: JsonView) -> Option<int> {
    match j {
        JsonView::Number(NumberView::Unsigned(n)) => Some(n as int),
        JsonView::Number(NumberView::Negative(n)) => Some(n as int),
        _ => None,
    }
}

/// The elements of a JSON array; `None` for every other kind of value.
pub open spec fn elements_of(j: JsonView) -> Option<Seq<JsonView>> {
    match j {
        JsonView::Array(items) => Some(items),
        _ => None,
    }
}

/// The contents of a slice of values, element by element.
pub open spec fn views_of(items: Seq<serde_json::Value>) -> Seq<JsonView> {
    Seq::new(items.len(), |i: int| json_view(items[i]))
}

/// Calls `serde_json::from_slice` for a `Value`. Trusted: the outcome depends
/// on the bytes alone, so it is the named `parsed_json` of them; a returned
/// value holds exactly that content, and an error means there is none.
#[verifier::external_body]
pub(crate) fn parse_value(bytes: &[u8]) -> (r: Result<serde_json::Value, serde_json::Error>)
    ensures
        match r {
            Ok(v) => parsed_json(bytes@) == Some(json_view(v)),
            Err(_) => parsed_json(bytes@) is None,
        },
{
    serde_json::from_slice::<serde_json::Value>(bytes)
}

/// Calls `Value::get` with a string key. Trusted: it yields the member stored
/// under `key` when the value is an object that has one, and `None` otherwise.
#[verifier::external_body]
pub(crate) fn get_member<'a>(v: &'a serde_json::Value, key: &str) -> (r: Option<&'a serde_json::Value>)
    ensures
        match r {
            Some(m) => member_of(json_view(*v), key@) == Some(json_view(*m)),
            None => member_of(json_view(*v), key@) is None,
        },
{
    v.get(key)
}

/// Calls `Value::as_str`. Trusted: it yields the text of a JSON string and
/// `None` for every other kind of value.
#[verifier::external_body]
pub(crate) fn get_text<'a>(v: &'a serde_json::Value) -> (r: Option<&'a str>)
    ensures
        match r {
            Some(s) => text_of(json_view(*v)) == Some(s@),
            None => text_of(json_view(*v)) is None,
        },
{
    v.as_str()
}

/// Calls `Value::as_u64`. Trusted: it yields the number when the value is a
/// non-negative integer within 64 bits, and `None` otherwise.
#[verifier::external_body]
pub(crate) fn get_unsigned(v: &serde_json::Value) -> (r: Option<u64>)
    ensures
        r == unsigned_of(json_view(*v)),
{
    v.as_u64()
}

/// Calls `Value::as_i64`. Trusted: it yields a negative integer as it is, a
/// non-negative integer when it is at most `i64::MAX`, and `None` otherwise.
#[verifier::external_body]
pub(crate) fn get_signed(v: &serde_json::Value) -> (r: Option<i64>)
    ensures
        r == signed_of(json_view(*v)),
{
    v.as_i64()
}

/// Calls `Value::as_array`. Trusted: it yields the elements of a JSON array,
/// in order, and `None` for every other kind of value.
#[verifier::external_body]
pub(crate) fn get_elements<'a>(v: &'a serde_json::Value) -> (r: Option<&'a Vec<serde_json::Value>>)
    ensures
        match r {
            Some(items) => elements_of(json_view(*v)) == Some(views_of(items@)),
            None => elements_of(json_view(*v)) is None,
        },
{
    v.as_array()
}

} // verus!
