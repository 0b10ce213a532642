//! TOML documents, read and written by the `toml_edit` crate.
//!
//! Nothing here is proved: each function below hands its arguments to the
//! crate and says of the result what the crate's source shows. What a
//! document holds is known only by the names declared here.

use vstd::prelude::*;

verus! {

/// A TOML document of the `toml_edit` crate. Nothing is known of what is in
/// it but through the names below.
#[verifier::external_type_specification]
#[verifier::external_body]
pub struct ExDocument(toml_edit::Document);

/// An item of a TOML document: a value, a table, or an array of tables.
#[verifier::external_type_specification]
#[verifier::external_body]
pub struct ExItem(toml_edit::Item);

/// The document that `toml_edit` makes of a text; `None` where it fails.
pub uninterp spec fn toml_document(text: Seq<char>) -> Option<toml_edit::Document>;

/// What the root table of a document holds under a key.
pub uninterp spec fn toml_entry(doc: toml_edit::Document, key: Seq<char>) -> Option<
    toml_edit::Item,
>;

/// What an item holds under a key; `None` where it is no table or has no
/// such key.
pub uninterp spec fn toml_item_entry(item: toml_edit::Item, key: Seq<char>) -> Option<
    toml_edit::Item,
>;

/// The text of an item that is a string; `None` for any other item.
pub uninterp spec fn toml_text(item: toml_edit::Item) -> Option<Seq<char>>;

/// The values of an item that is an array, in order, each as its text where
/// it is a string; `None` for an item that is no array.
pub uninterp spec fn toml_texts(item: toml_edit::Item) -> Option<Seq<Option<Seq<char>>>>;

/// Whether an item is a table or an inline table.
pub uninterp spec fn toml_is_table(item: toml_edit::Item) -> bool;

/// A document after the string `text` was put under `key` of its root
/// table.
pub uninterp spec fn toml_with_text(
    doc: toml_edit::Document,
    key: Seq<char>,
    text: Seq<char>,
) -> toml_edit::Document;

/// A document after the string `text` was put under `key` of the table that
/// its root table holds under `table`.
pub uninterp spec fn toml_with_text_in(
    doc: toml_edit::Document,
    table: Seq<char>,
    key: Seq<char>,
    text: Seq<char>,
) -> toml_edit::Document;

/// A document as it is written out.
pub uninterp spec fn toml_written(doc: toml_edit::Document) -> Seq<char>;

/// Parses a text with `Document`'s `FromStr`, and forgets which error it
/// gave.
#[verifier::external_body]
pub(crate) fn parse_toml(text: &str) -> (doc: Option<toml_edit::Document>)
    ensures
        doc == toml_document(text@),
{
    text.parse::<toml_edit::Document>().ok()
}

/// Calls `Table::get` on the root table of a document: the item under the
/// key, if there is one.
#[verifier::external_body]
pub(crate) fn root_entry<'a>(doc: &'a toml_edit::Document, key: &str) -> (found: Option<
    &'a toml_edit::Item,
>)
    ensures
        match found {
            Some(item) => toml_entry(*doc, key@) == Some(*item),
            None => toml_entry(*doc, key@) is None,
        },
{
    doc.get(key)
}

/// Calls `Item::get` with a key: the item under the key in a table or an
/// inline table, `None` in anything else.
#[verifier::external_body]
pub(crate) fn item_entry<'a>(item: &'a toml_edit::Item, key: &str) -> (found: Option<
    &'a toml_edit::Item,
>)
    ensures
        match found {
            Some(inner) => toml_item_entry(*item, key@) == Some(*inner),
            None => toml_item_entry(*item, key@) is None,
        },
{
    item.get(key)
}

/// Calls `Item::as_str`: the text of a string, `None` for any other item.
#[verifier::external_body]
pub(crate) fn item_text(item: &toml_edit::Item) -> (text: Option<&str>)
    ensures
        text.deep_view() == toml_text(*item),
{
    item.as_str()
}

/// Calls `Item::as_array`, walks the array with `Array::iter` and asks each
/// value for its text with `Value::as_str`.
#[verifier::external_body]
pub(crate) fn item_texts(item: &toml_edit::Item) -> (texts: Option<Vec<Option<String>>>)
    ensures
        texts.deep_view() == toml_texts(*item),
{
    item.as_array().map(|array| array.iter().map(|v| v.as_str().map(|s| s.to_owned())).collect())
}

/// Calls `Item::is_table_like`: whether the item is a table or an inline
/// table.
#[verifier::external_body]
pub(crate) fn is_table(item: &toml_edit::Item) -> (b: bool)
    ensures
        b == toml_is_table(*item),
{
    item.is_table_like()
}

/// Assigns `toml_edit::value(text)` through `IndexMut` of the document: the
/// crate adds the key to the root table or changes what is under it.
#[verifier::external_body]
pub(crate) fn set_text(doc: &mut toml_edit::Document, key: &str, text: &str)
    ensures
        *final(doc) == toml_with_text(*old(doc), key@, text@),
{
    doc[key] = toml_edit::value(text);
}

/// Assigns `toml_edit::value(text)` through `IndexMut` of the document and
/// then of the item under `table`. The crate makes an inline table where the
/// root has nothing under `table`, and panics where it has something there
/// that is neither a table nor an inline table.
#[verifier::external_body]
pub(crate) fn set_text_in(doc: &mut toml_edit::Document, table: &str, key: &str, text: &str)
    requires
        toml_entry(*old(doc), table@) matches Some(item) ==> toml_is_table(item),
    ensures
        *final(doc) == toml_with_text_in(*old(doc), table@, key@, text@),
{
    doc[table][key] = toml_edit::value(text);
}

/// Writes a document out with its `Display`, which keeps what the parser
/// read as it was and adds what was changed.
#[verifier::external_body]
pub(crate) fn written(doc: &toml_edit::Document) -> (text: String)
    ensures
        text@ == toml_written(*doc),
{
    doc.to_string()
}

} // verus!
