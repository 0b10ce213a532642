//! The Rust-style manifest, `Cargo.toml`.

use crate::error::{CliError, CliErrorView};
use crate::manifest::{
    package_of, read_record, PackageInfo, PackageInfoView, RawAuthor, RawAuthorView, SourceRecord,
    SourceRecordView,
};
use crate::source::{SourceFile, SourceFileView};
use crate::toml_doc::{
    item_entry, item_text, item_texts, parse_toml, root_entry, toml_document, toml_entry,
    toml_item_entry, toml_text, toml_texts,
};
use vstd::prelude::*;

verus! {

/// The text under a key of a table, where a string stands there.
pub open spec fn toml_field(table: toml_edit::Item, key: Seq<char>) -> Option<Seq<char>> {
    match toml_item_entry(table, key) {
        Some(item) => toml_text(item),
        None => None,
    }
}

/// The entry that one value of `authors` stands for: a string is free text,
/// anything else names nobody.
pub open spec fn raw_of_toml(text: Option<Seq<char>>) -> RawAuthorView {
    match text {
        Some(t) => RawAuthorView::Text(t),
        None => RawAuthorView::Other,
    }
}

/// The entries of the array `authors` of a table; none where it has no such
/// array.
pub open spec fn toml_authors(table: toml_edit::Item) -> Seq<RawAuthorView> {
    match toml_item_entry(table, "authors"@) {
        Some(item) => match toml_texts(item) {
            Some(texts) => texts.map_values(|t: Option<Seq<char>>| raw_of_toml(t)),
            None => Seq::empty(),
        },
        None => Seq::empty(),
    }
}

/// What the table `package` of a `Cargo.toml` holds: `name`, `homepage` and
/// the array `authors`. It has no primary author.
pub open spec fn cargo_record(package: toml_edit::Item) -> SourceRecordView {
    SourceRecordView {
        name: toml_field(package, "name"@),
        author: RawAuthorView::Other,
        contributors: toml_authors(package),
        url: toml_field(package, "homepage"@),
    }
}

/// The table `package` of a manifest, if the manifest can be had and holds
/// one.
pub open spec fn cargo_table(file: SourceFileView) -> Option<toml_edit::Item> {
    match file {
        SourceFileView::Text(text) => match toml_document(text) {
            Some(doc) => toml_entry(doc, "package"@),
            None => None,
        },
        _ => None,
    }
}

/// What a `Cargo.toml` says of its project, if it can be had.
pub open spec fn cargo_package(file: SourceFileView) -> Option<PackageInfoView> {
    match cargo_table(file) {
        Some(package) => Some(package_of(cargo_record(package))),
        None => None,
    }
}

/// The warning that a `Cargo.toml` gives rise to: one where it is there and
/// cannot be read, is no TOML, or has no `package`.
pub open spec fn cargo_warnings(file: SourceFileView) -> Seq<CliErrorView> {
    match file {
        SourceFileView::Missing => Seq::empty(),
        SourceFileView::Unreadable => seq![CliErrorView::FailedRead { kind: "Cargo.toml"@ }],
        SourceFileView::Text(_) => if cargo_table(file) is None {
            seq![CliErrorView::FailedParse { kind: "Cargo.toml"@ }]
        } else {
            Seq::empty()
        },
    }
}

/// Gives up on a `Cargo.toml`: leaves the warning that it could not be
/// parsed, and has nothing to return.
pub fn failed_parse<T>(warnings: &mut Vec<CliError>) -> (nothing: Option<T>)
    ensures
        nothing is None,
        final(warnings).deep_view() == old(warnings).deep_view().push(
            CliErrorView::FailedParse { kind: "Cargo.toml"@ },
        ),
{
    let ghost before = warnings.deep_view();
    let warning = CliError::FailedParse { kind: "Cargo.toml".to_owned() };
    warnings.push(warning);
    assert(warnings.deep_view() =~= before.push(warning@));
    None
}

/// Reads the text under a key of a table.
fn field(table: &toml_edit::Item, key: &str) -> (text: Option<String>)
    ensures
        text.deep_view() == toml_field(*table, key@),
{
    match item_entry(table, key) {
        Some(item) => match item_text(item) {
            Some(t) => Some(t.to_owned()),
            None => None,
        },
        None => None,
    }
}

/// Reads the entries of the array `authors` of a table.
fn authors_entries(table: &toml_edit::Item) -> (raws: Vec<RawAuthor>)
    ensures
        raws.deep_view() == toml_authors(*table),
{
    let mut raws: Vec<RawAuthor> = Vec::new();
    let listed = match item_entry(table, "authors") {
        Some(item) => item_texts(item),
        None => None,
    };
    match listed {
        None => {
            assert(raws.deep_view() =~= Seq::<RawAuthorView>::empty());
        },
        Some(texts) => {
            let ghost wanted = texts.deep_view().map_values(
                |t: Option<Seq<char>>| raw_of_toml(t),
            );
            let mut i: usize = 0;
            while i < texts.len()
                invariant
                    i <= texts.len(),
                    wanted == texts.deep_view().map_values(|t: Option<Seq<char>>| raw_of_toml(t)),
                    raws.deep_view() == wanted.take(i as int),
                decreases texts.len() - i,
            {
                let ghost before = raws.deep_view();
                let raw = match &texts[i] {
                    Some(t) => RawAuthor::Text(t.clone()),
                    None => RawAuthor::Other,
                };
                assert(raw@ == wanted[i as int]);
                raws.push(raw);
                assert(raws.deep_view() =~= before.push(raw@));
                assert(raws.deep_view() =~= wanted.take(i + 1));
                i += 1;
            }
            assert(wanted.take(i as int) =~= wanted);
        },
    }
    raws
}

/// Takes from the table `package` what the library reads of it.
pub fn record_of_cargo(package: &toml_edit::Item) -> (record: SourceRecord)
    ensures
        record@ == cargo_record(*package),
{
    SourceRecord {
        name: field(package, "name"),
        author: RawAuthor::Other,
        contributors: authors_entries(package),
        url: field(package, "homepage"),
    }
}

/// Reads a `Cargo.toml`: the package's name and homepage and its authors,
/// each of them free text. A file that is missing says nothing; one that
/// cannot be read, is no TOML or has no `package` says nothing and leaves a
/// warning.
pub fn read_cargo(file: &SourceFile, warnings: &mut Vec<CliError>) -> (info: Option<PackageInfo>)
    ensures
        info.deep_view() == cargo_package(file@),
        final(warnings).deep_view() == old(warnings).deep_view() + cargo_warnings(file@),
{
    let ghost before = warnings.deep_view();
    match file {
        SourceFile::Missing => {
            assert(before + Seq::<CliErrorView>::empty() =~= before);
            None
        },
        SourceFile::Unreadable => {
            let warning = CliError::FailedRead { kind: "Cargo.toml".to_owned() };
            warnings.push(warning);
            assert(warnings.deep_view() =~= before + cargo_warnings(file@));
            None
        },
        SourceFile::Text(text) => match parse_toml(text.as_str()) {
            None => {
                let nothing = failed_parse(warnings);
                assert(warnings.deep_view() =~= before + cargo_warnings(file@));
                nothing
            },
            Some(doc) => match root_entry(&doc, "package") {
                None => {
                    let nothing = failed_parse(warnings);
                    assert(warnings.deep_view() =~= before + cargo_warnings(file@));
                    nothing
                },
                Some(package) => {
                    assert(before + Seq::<CliErrorView>::empty() =~= before);
                    let record = record_of_cargo(package);
                    Some(read_record(&record))
                },
            },
        },
    }
}

/// Reads a Python project's manifest where it is written as a `Cargo.toml`
/// is.
pub fn read_python(file: &SourceFile, warnings: &mut Vec<CliError>) -> (info: Option<PackageInfo>)
    ensures
        info.deep_view() == cargo_package(file@),
        final(warnings).deep_view() == old(warnings).deep_view() + cargo_warnings(file@),
{
    read_cargo(file, warnings)
}

} // verus!
