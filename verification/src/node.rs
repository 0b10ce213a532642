//! The Node-style manifest, `package.json`.

use crate::error::{CliError, CliErrorView};
use crate::json_doc::{
    is_object, json_document, json_is_object, json_member, json_members, json_text, member,
    members, parse_json, text_of, JSON_DIGITS,
};
use crate::manifest::{
    package_of, read_record, PackageInfo, PackageInfoView, RawAuthor, RawAuthorView, SourceRecord,
    SourceRecordView,
};
use crate::source::{SourceFile, SourceFileView};
use crate::text::{digit_runs_fit, digit_runs_within};
use vstd::prelude::*;

verus! {

/// The JSON value that a text is read as: none where the text is no JSON, and
/// none where it holds more digits in a row than the parser can count.
pub open spec fn json_read(text: Seq<char>) -> Option<json::JsonValue> {
    if digit_runs_fit(text, JSON_DIGITS as nat) {
        json_document(text)
    } else {
        None
    }
}

/// Reads a text as JSON.
pub fn read_json(text: &str) -> (doc: Option<json::JsonValue>)
    ensures
        doc == json_read(text@),
{
    if digit_runs_within(text, JSON_DIGITS) {
        parse_json(text)
    } else {
        None
    }
}

/// The entry that a JSON value stands for: a string is free text, an object
/// is a record of `name` and `email`.
pub open spec fn raw_of_json(value: json::JsonValue) -> RawAuthorView {
    match json_text(value) {
        Some(text) => RawAuthorView::Text(text),
        None => if json_is_object(value) {
            RawAuthorView::Fields {
                name: json_text(json_member(value, "name"@)),
                email: json_text(json_member(value, "email"@)),
            }
        } else {
            RawAuthorView::Other
        },
    }
}

/// What a `package.json` holds: `author`, the array `contributors`, `name`
/// and `homepage`.
pub open spec fn node_record(doc: json::JsonValue) -> SourceRecordView {
    SourceRecordView {
        name: json_text(json_member(doc, "name"@)),
        author: raw_of_json(json_member(doc, "author"@)),
        contributors: json_members(json_member(doc, "contributors"@)).map_values(
            |item: json::JsonValue| raw_of_json(item),
        ),
        url: json_text(json_member(doc, "homepage"@)),
    }
}

/// What a `package.json` says of its project, if it can be had.
pub open spec fn node_package(file: SourceFileView) -> Option<PackageInfoView> {
    match file {
        SourceFileView::Text(text) => match json_read(text) {
            Some(doc) => Some(package_of(node_record(doc))),
            None => None,
        },
        _ => None,
    }
}

/// The warning that a `package.json` gives rise to: one where it is there
/// and cannot be read, or cannot be read as JSON.
pub open spec fn node_warnings(file: SourceFileView) -> Seq<CliErrorView> {
    match file {
        SourceFileView::Missing => Seq::empty(),
        SourceFileView::Unreadable => seq![CliErrorView::FailedRead { kind: "package.json"@ }],
        SourceFileView::Text(text) => if json_read(text) is None {
            seq![CliErrorView::FailedParse { kind: "package.json"@ }]
        } else {
            Seq::empty()
        },
    }
}

/// Copies a text that may be missing.
fn owned(text: Option<&str>) -> (copy: Option<String>)
    ensures
        copy.deep_view() == text.deep_view(),
{
    match text {
        Some(t) => Some(t.to_owned()),
        None => None,
    }
}

/// Reads the entry that a JSON value stands for.
fn raw_entry(value: &json::JsonValue) -> (raw: RawAuthor)
    ensures
        raw@ == raw_of_json(*value),
{
    match text_of(value) {
        Some(text) => RawAuthor::Text(text.to_owned()),
        None => if is_object(value) {
            RawAuthor::Fields {
                name: owned(text_of(member(value, "name"))),
                email: owned(text_of(member(value, "email"))),
            }
        } else {
            RawAuthor::Other
        },
    }
}

/// Takes from a parsed `package.json` what the library reads of it.
pub fn record_of_node(doc: &json::JsonValue) -> (record: SourceRecord)
    ensures
        record@ == node_record(*doc),
{
    let items = members(member(doc, "contributors"));
    let ghost wanted = json_members(json_member(*doc, "contributors"@)).map_values(
        |item: json::JsonValue| raw_of_json(item),
    );
    let mut contributors: Vec<RawAuthor> = Vec::new();
    let mut i: usize = 0;
    while i < items.len()
        invariant
            i <= items.len(),
            items@.len() == wanted.len(),
            forall|k: int| 0 <= k < items@.len() ==> raw_of_json(*#[trigger] items@[k]) == wanted[k],
            contributors.deep_view() == wanted.take(i as int),
        decreases items.len() - i,
    {
        let ghost before = contributors.deep_view();
        let raw = raw_entry(items[i]);
        assert(raw@ == wanted[i as int]);
        contributors.push(raw);
        assert(contributors.deep_view() =~= before.push(raw@));
        assert(contributors.deep_view() =~= wanted.take(i + 1));
        i += 1;
    }
    assert(wanted.take(i as int) =~= wanted);
    SourceRecord {
        name: owned(text_of(member(doc, "name"))),
        author: raw_entry(member(doc, "author")),
        contributors,
        url: owned(text_of(member(doc, "homepage"))),
    }
}

/// Reads a `package.json`: the project's name and address, the author and
/// then the contributors. A file that is missing says nothing; one that
/// cannot be read, is no JSON, or holds more digits in a row than the parser
/// can count, says nothing and leaves a warning.
pub fn read_node(file: &SourceFile, warnings: &mut Vec<CliError>) -> (info: Option<PackageInfo>)
    ensures
        info.deep_view() == node_package(file@),
        final(warnings).deep_view() == old(warnings).deep_view() + node_warnings(file@),
{
    let ghost before = warnings.deep_view();
    match file {
        SourceFile::Missing => {
            assert(before + Seq::<CliErrorView>::empty() =~= before);
            None
        },
        SourceFile::Unreadable => {
            let warning = CliError::FailedRead { kind: "package.json".to_owned() };
            warnings.push(warning);
            assert(warnings.deep_view() =~= before + node_warnings(file@));
            None
        },
        SourceFile::Text(text) => match read_json(text.as_str()) {
            None => {
                let warning = CliError::FailedParse { kind: "package.json".to_owned() };
                warnings.push(warning);
                assert(warnings.deep_view() =~= before + node_warnings(file@));
                None
            },
            Some(doc) => {
                assert(before + Seq::<CliErrorView>::empty() =~= before);
                let record = record_of_node(&doc);
                Some(read_record(&record))
            },
        },
    }
}

} // verus!
