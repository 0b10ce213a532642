//! JSON documents, read and written by the `json` crate.
//!
//! Nothing here is proved: each function below hands its arguments to the
//! crate and says of the result what the crate's source shows. What a value
//! holds is known only by the names declared here.

use crate::text::digit_runs_fit;
use vstd::prelude::*;

verus! {

/// A JSON value of the `json` crate. Nothing is known of what is in it but
/// through the names below.
#[verifier::external_type_specification]
#[verifier::external_body]
pub struct ExJsonValue(json::JsonValue);

/// The value that `json::parse` makes of a text; `None` where it fails.
pub uninterp spec fn json_document(text: Seq<char>) -> Option<json::JsonValue>;

/// The text of a JSON string; `None` for a value of another kind.
pub uninterp spec fn json_text(value: json::JsonValue) -> Option<Seq<char>>;

/// Whether a JSON value is an object.
pub uninterp spec fn json_is_object(value: json::JsonValue) -> bool;

/// What a JSON value holds under a key: a null where it holds nothing there
/// or is no object.
pub uninterp spec fn json_member(value: json::JsonValue, key: Seq<char>) -> json::JsonValue;

/// The members of a JSON array in order; none for a value of another kind.
pub uninterp spec fn json_members(value: json::JsonValue) -> Seq<json::JsonValue>;

/// A JSON value after `text` was put under `key`: an object with that
/// member added or changed, and a new object of that one member where the
/// value was no object.
pub uninterp spec fn json_with_text(value: json::JsonValue, key: Seq<char>, text: Seq<char>) -> json::JsonValue;

/// A JSON value as `JsonValue::pretty` writes it, each level indented by
/// `spaces` spaces.
pub uninterp spec fn json_pretty(value: json::JsonValue, spaces: u16) -> Seq<char>;

/// How many digits in a row `json::parse` can count: it keeps the place of
/// the decimal point in sixteen bits, and steps it once for each digit of a
/// fraction.
pub const JSON_DIGITS: usize = 32767;

/// How far `JsonValue::pretty` may indent each level: the crate keeps the
/// indentation of a line in sixteen bits, and the parser takes no more than
/// 512 levels.
pub const JSON_INDENT: u16 = 100;

/// Calls `json::parse`, which reads a whole text as one JSON value, and
/// forgets which error it gave. The crate fails on a fraction of more than
/// 32,768 digits; such text is left out.
#[verifier::external_body]
pub(crate) fn parse_json(text: &str) -> (doc: Option<json::JsonValue>)
    requires
        digit_runs_fit(text@, JSON_DIGITS as nat),
    ensures
        doc == json_document(text@),
{
    json::parse(text).ok()
}

/// Calls `JsonValue::as_str`: the text of a string, `None` for any other
/// value.
#[verifier::external_body]
pub(crate) fn text_of(value: &json::JsonValue) -> (text: Option<&str>)
    ensures
        text.deep_view() == json_text(*value),
{
    value.as_str()
}

/// Calls `JsonValue::is_object`.
#[verifier::external_body]
pub(crate) fn is_object(value: &json::JsonValue) -> (b: bool)
    ensures
        b == json_is_object(*value),
{
    value.is_object()
}

/// Indexes a `JsonValue` by a key. The crate returns the value under the
/// key, and a null where the value is no object or has no such key.
#[verifier::external_body]
pub(crate) fn member<'a>(value: &'a json::JsonValue, key: &str) -> (found: &'a json::JsonValue)
    ensures
        *found == json_member(*value, key@),
{
    &value[key]
}

/// Calls `JsonValue::members`, which walks an array in order and yields
/// nothing for a value that is no array.
#[verifier::external_body]
pub(crate) fn members<'a>(value: &'a json::JsonValue) -> (items: Vec<&'a json::JsonValue>)
    ensures
        items@.len() == json_members(*value).len(),
        forall|i: int| 0 <= i < items@.len() ==> *#[trigger] items@[i] == json_members(*value)[i],
{
    value.members().collect()
}

/// Assigns a string through `IndexMut`: the crate puts it under the key of
/// an object, and makes an empty object of any other value first. The string
/// is then what stands under the key.
#[verifier::external_body]
pub(crate) fn set_text(value: &mut json::JsonValue, key: &str, text: &str)
    ensures
        *final(value) == json_with_text(*old(value), key@, text@),
        json_text(json_member(*final(value), key@)) == Some(text@),
{
    value[key] = text.into();
}

/// Calls `JsonValue::pretty`, which writes the value as JSON text over
/// several lines. The crate multiplies the depth by `spaces` in sixteen bits;
/// a wide indentation is left out.
#[verifier::external_body]
pub(crate) fn pretty(value: &json::JsonValue, spaces: u16) -> (text: String)
    requires
        spaces <= JSON_INDENT,
    ensures
        text@ == json_pretty(*value, spaces),
{
    value.pretty(spaces)
}

} // verus!
