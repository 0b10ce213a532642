//! Writing the licence's identifier into the project's manifest.

use crate::error::{CliError, CliErrorView};
use crate::json_doc::{json_member, json_pretty, json_text, json_with_text, pretty};
use crate::node::{json_read, read_json};
use crate::source::{SourceFile, SourceFileView};
use crate::text::{replace, replaced};
use crate::toml_doc::{
    is_table, parse_toml, root_entry, toml_document, toml_entry, toml_is_table, toml_with_text,
    toml_with_text_in, toml_written, written,
};
use vstd::prelude::*;

verus! {

/// A manifest to write back: the file, the name under which the run speaks
/// of it, and its new text.
#[derive(Debug)]
pub struct Stamp {
    pub path: &'static str,
    pub kind: &'static str,
    pub contents: String,
}

/// A [`Stamp`] as plain sequences.
pub struct StampView {
    pub path: Seq<char>,
    pub kind: Seq<char>,
    pub contents: Seq<char>,
}

impl View for Stamp {
    type V = StampView;

    open spec fn view(&self) -> StampView {
        StampView { path: self.path@, kind: self.kind@, contents: self.contents@ }
    }
}

impl DeepView for Stamp {
    type V = StampView;

    open spec fn deep_view(&self) -> StampView {
        self@
    }
}

/// The text of a file, where it was read.
pub open spec fn text_in(file: SourceFileView) -> Option<Seq<char>> {
    match file {
        SourceFileView::Text(text) => Some(text),
        _ => None,
    }
}

/// A `package.json` with the licence in it: the document with `license`
/// set, written out with one tab for each level. There is none where the
/// file cannot be read as JSON.
pub open spec fn node_stamp(license_type: Seq<char>, file: SourceFileView) -> Option<StampView> {
    match text_in(file) {
        Some(text) => match json_read(text) {
            Some(doc) => Some(
                StampView {
                    path: "package.json"@,
                    kind: "package.json"@,
                    contents: replaced(
                        json_pretty(json_with_text(doc, "license"@, license_type), 4),
                        "    "@,
                        "\t"@,
                    ),
                },
            ),
            None => None,
        },
        None => None,
    }
}

/// Whether a document can take a key under `package`: it has nothing
/// there, or a table.
pub open spec fn takes_package(doc: toml_edit::Document) -> bool {
    toml_entry(doc, "package"@) matches Some(item) ==> toml_is_table(item)
}

/// A `Cargo.toml` with the licence in it: the document with `license` set
/// under `package`.
pub open spec fn cargo_stamp(license_type: Seq<char>, file: SourceFileView) -> Option<
    StampView,
> {
    match text_in(file) {
        Some(text) => match toml_document(text) {
            Some(doc) => if takes_package(doc) {
                Some(
                    StampView {
                        path: "Cargo.toml"@,
                        kind: "Cargo.toml"@,
                        contents: toml_written(
                            toml_with_text_in(doc, "package"@, "license"@, license_type),
                        ),
                    },
                )
            } else {
                None
            },
            None => None,
        },
        None => None,
    }
}

/// A `pyproject.toml` with the licence in it: the document with `license`
/// set at its root. The run speaks of the file as of a `Cargo.toml`.
pub open spec fn python_stamp(license_type: Seq<char>, file: SourceFileView) -> Option<
    StampView,
> {
    match text_in(file) {
        Some(text) => match toml_document(text) {
            Some(doc) => Some(
                StampView {
                    path: "pyproject.toml"@,
                    kind: "Cargo.toml"@,
                    contents: toml_written(toml_with_text(doc, "license"@, license_type)),
                },
            ),
            None => None,
        },
        None => None,
    }
}

/// The warning that a manifest gives rise to where it cannot take the
/// licence: none where it is missing or takes it.
pub open spec fn stamp_warnings(
    file: SourceFileView,
    kind: Seq<char>,
    stamp: Option<StampView>,
) -> Seq<CliErrorView> {
    match file {
        SourceFileView::Missing => Seq::empty(),
        SourceFileView::Unreadable => seq![CliErrorView::FailedRead { kind }],
        SourceFileView::Text(_) => if stamp is None {
            seq![CliErrorView::FailedParse { kind }]
        } else {
            Seq::empty()
        },
    }
}

/// The manifest that takes the licence: the first of `package.json`,
/// `Cargo.toml` and `pyproject.toml` that can.
pub open spec fn stamp_of(
    license_type: Seq<char>,
    node: SourceFileView,
    cargo: SourceFileView,
    python: SourceFileView,
) -> Option<StampView> {
    if node_stamp(license_type, node) is Some {
        node_stamp(license_type, node)
    } else if cargo_stamp(license_type, cargo) is Some {
        cargo_stamp(license_type, cargo)
    } else {
        python_stamp(license_type, python)
    }
}

/// The warnings that [`write_pkg`] leaves: one for each manifest that it
/// came to and that could not take the licence.
pub open spec fn write_warnings(
    license_type: Seq<char>,
    node: SourceFileView,
    cargo: SourceFileView,
    python: SourceFileView,
) -> Seq<CliErrorView> {
    let first = stamp_warnings(node, "package.json"@, node_stamp(license_type, node));
    let second = stamp_warnings(cargo, "Cargo.toml"@, cargo_stamp(license_type, cargo));
    let third = stamp_warnings(python, "Cargo.toml"@, python_stamp(license_type, python));
    if node_stamp(license_type, node) is Some {
        first
    } else if cargo_stamp(license_type, cargo) is Some {
        first + second
    } else {
        first + second + third
    }
}

/// Leaves the warning of a manifest that could not take the licence.
fn warn_of(file: &SourceFile, kind: &str, warnings: &mut Vec<CliError>)
    ensures
        final(warnings).deep_view() == old(warnings).deep_view() + stamp_warnings(
            file@,
            kind@,
            None,
        ),
{
    let ghost before = warnings.deep_view();
    match file {
        SourceFile::Missing => {
            assert(before + Seq::<CliErrorView>::empty() =~= before);
        },
        SourceFile::Unreadable => {
            let warning = CliError::FailedRead { kind: kind.to_owned() };
            warnings.push(warning);
            assert(warnings.deep_view() =~= before + seq![warning@]);
        },
        SourceFile::Text(_) => {
            let warning = CliError::FailedParse { kind: kind.to_owned() };
            warnings.push(warning);
            assert(warnings.deep_view() =~= before + seq![warning@]);
        },
    }
}

/// The `package.json` that is written out, where one is: the document that
/// was read, with `license` set.
pub open spec fn node_stamped(license_type: Seq<char>, file: SourceFileView) -> Option<
    json::JsonValue,
> {
    match text_in(file) {
        Some(text) => match json_read(text) {
            Some(doc) => Some(json_with_text(doc, "license"@, license_type)),
            None => None,
        },
        None => None,
    }
}

/// Sets the licence in a `package.json`. The document that is written out
/// holds the licence's identifier under `license`.
pub fn stamp_node(license_type: &str, file: &SourceFile) -> (stamp: Option<Stamp>)
    ensures
        stamp.deep_view() == node_stamp(license_type@, file@),
        node_stamped(license_type@, file@) matches Some(doc) ==> json_text(
            json_member(doc, "license"@),
        ) == Some(license_type@),
{
    match file {
        SourceFile::Text(text) => match read_json(text.as_str()) {
            Some(doc) => {
                let mut doc = doc;
                crate::json_doc::set_text(&mut doc, "license", license_type);
                let spaced = pretty(&doc, 4);
                Some(
                    Stamp {
                        path: "package.json",
                        kind: "package.json",
                        contents: replace(spaced.as_str(), "    ", "\t"),
                    },
                )
            },
            None => None,
        },
        _ => None,
    }
}

/// Sets the licence in a `Cargo.toml`.
pub fn stamp_cargo(license_type: &str, file: &SourceFile) -> (stamp: Option<Stamp>)
    ensures
        stamp.deep_view() == cargo_stamp(license_type@, file@),
{
    match file {
        SourceFile::Text(text) => match parse_toml(text.as_str()) {
            Some(doc) => {
                let mut doc = doc;
                let ready = match root_entry(&doc, "package") {
                    Some(item) => is_table(item),
                    None => true,
                };
                if ready {
                    crate::toml_doc::set_text_in(&mut doc, "package", "license", license_type);
                    Some(Stamp { path: "Cargo.toml", kind: "Cargo.toml", contents: written(&doc) })
                } else {
                    None
                }
            },
            None => None,
        },
        _ => None,
    }
}

/// Sets the licence in a `pyproject.toml`.
pub fn stamp_python(license_type: &str, file: &SourceFile) -> (stamp: Option<Stamp>)
    ensures
        stamp.deep_view() == python_stamp(license_type@, file@),
{
    match file {
        SourceFile::Text(text) => match parse_toml(text.as_str()) {
            Some(doc) => {
                let mut doc = doc;
                crate::toml_doc::set_text(&mut doc, "license", license_type);
                Some(Stamp { path: "pyproject.toml", kind: "Cargo.toml", contents: written(&doc) })
            },
            None => None,
        },
        _ => None,
    }
}

/// Chooses the manifest that takes the licence's identifier and gives its
/// new text: `package.json` first, then `Cargo.toml`, then
/// `pyproject.toml`. A manifest that is there and cannot be read or parsed
/// leaves a warning, and the next one is tried.
pub fn write_pkg(
    license_type: &str,
    node: &SourceFile,
    cargo: &SourceFile,
    python: &SourceFile,
    warnings: &mut Vec<CliError>,
) -> (stamp: Option<Stamp>)
    ensures
        stamp.deep_view() == stamp_of(license_type@, node@, cargo@, python@),
        final(warnings).deep_view() == old(warnings).deep_view() + write_warnings(
            license_type@,
            node@,
            cargo@,
            python@,
        ),
{
    let ghost before = warnings.deep_view();
    let ghost none = Seq::<CliErrorView>::empty();
    let first = stamp_node(license_type, node);
    if first.is_some() {
        assert(before + none =~= before);
        return first;
    }
    warn_of(node, "package.json", warnings);
    let ghost one = stamp_warnings(node@, "package.json"@, None);
    let second = stamp_cargo(license_type, cargo);
    if second.is_some() {
        assert(before + one =~= before + (one + none));
        return second;
    }
    warn_of(cargo, "Cargo.toml", warnings);
    let ghost two = stamp_warnings(cargo@, "Cargo.toml"@, None);
    let third = stamp_python(license_type, python);
    if third.is_some() {
        assert(before + one + two =~= before + (one + two + none));
        return third;
    }
    warn_of(python, "Cargo.toml", warnings);
    let ghost three = stamp_warnings(python@, "Cargo.toml"@, None);
    assert(before + one + two + three =~= before + (one + two + three));
    third
}

} // verus!
