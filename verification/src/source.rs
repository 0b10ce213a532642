//! What was found on disk and in the version control's settings, as plain
//! values. The caller reads; the library decides.

use vstd::prelude::*;

verus! {

/// What became of the attempt to read one file.
#[derive(Debug)]
pub enum SourceFile {
    /// There is no such file.
    Missing,
    /// The file is there and could not be read.
    Unreadable,
    /// The file's text.
    Text(String),
}

/// A [`SourceFile`] as plain sequences.
pub enum SourceFileView {
    Missing,
    Unreadable,
    Text(Seq<char>),
}

impl View for SourceFile {
    type V = SourceFileView;

    open spec fn view(&self) -> SourceFileView {
        match self {
            SourceFile::Missing => SourceFileView::Missing,
            SourceFile::Unreadable => SourceFileView::Unreadable,
            SourceFile::Text(text) => SourceFileView::Text(text@),
        }
    }
}

impl DeepView for SourceFile {
    type V = SourceFileView;

    open spec fn deep_view(&self) -> SourceFileView {
        self@
    }
}

} // verus!
