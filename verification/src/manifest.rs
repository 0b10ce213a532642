//! What a manifest says of a project, before and after its authors are read.

use crate::author::{all_named, author_of, parse_author, Author, AuthorView};
use crate::author_form::lemma_name_is_trimmed;
use vstd::prelude::*;

verus! {

/// What is known of a project: its name, its authors in order, its address.
#[derive(Debug)]
pub struct PackageInfo {
    pub name: Option<String>,
    pub authors: Vec<Author>,
    pub url: Option<String>,
}

/// A [`PackageInfo`] as plain sequences.
pub struct PackageInfoView {
    pub name: Option<Seq<char>>,
    pub authors: Seq<AuthorView>,
    pub url: Option<Seq<char>>,
}

impl View for PackageInfo {
    type V = PackageInfoView;

    open spec fn view(&self) -> PackageInfoView {
        PackageInfoView {
            name: self.name.deep_view(),
            authors: self.authors.deep_view(),
            url: self.url.deep_view(),
        }
    }
}

impl DeepView for PackageInfo {
    type V = PackageInfoView;

    open spec fn deep_view(&self) -> PackageInfoView {
        self@
    }
}

/// One entry of a manifest that names a person, as the manifest has it.
#[derive(Debug)]
pub enum RawAuthor {
    /// Free text: `Name <email> (aside)`.
    Text(String),
    /// A record with the keys `name` and `email`, each a string or missing.
    /// It names an author where its name has a character.
    Fields { name: Option<String>, email: Option<String> },
    /// Anything else: it names nobody.
    Other,
}

/// A [`RawAuthor`] as plain sequences.
pub enum RawAuthorView {
    Text(Seq<char>),
    Fields { name: Option<Seq<char>>, email: Option<Seq<char>> },
    Other,
}

impl View for RawAuthor {
    type V = RawAuthorView;

    open spec fn view(&self) -> RawAuthorView {
        match self {
            RawAuthor::Text(text) => RawAuthorView::Text(text@),
            RawAuthor::Fields { name, email } => RawAuthorView::Fields {
                name: name.deep_view(),
                email: email.deep_view(),
            },
            RawAuthor::Other => RawAuthorView::Other,
        }
    }
}

impl DeepView for RawAuthor {
    type V = RawAuthorView;

    open spec fn deep_view(&self) -> RawAuthorView {
        self@
    }
}

/// What one manifest holds, entry by entry and unread: the primary author,
/// the contributors in the order of the file, the project's name and address.
#[derive(Debug)]
pub struct SourceRecord {
    pub name: Option<String>,
    pub author: RawAuthor,
    pub contributors: Vec<RawAuthor>,
    pub url: Option<String>,
}

/// A [`SourceRecord`] as plain sequences.
pub struct SourceRecordView {
    pub name: Option<Seq<char>>,
    pub author: RawAuthorView,
    pub contributors: Seq<RawAuthorView>,
    pub url: Option<Seq<char>>,
}

impl View for SourceRecord {
    type V = SourceRecordView;

    open spec fn view(&self) -> SourceRecordView {
        SourceRecordView {
            name: self.name.deep_view(),
            author: self.author@,
            contributors: self.contributors.deep_view(),
            url: self.url.deep_view(),
        }
    }
}

impl DeepView for SourceRecord {
    type V = SourceRecordView;

    open spec fn deep_view(&self) -> SourceRecordView {
        self@
    }
}

/// The author that one entry names: free text is parsed, a record gives its
/// fields as they are where its name has a character, anything else names
/// nobody.
pub open spec fn author_of_raw(raw: RawAuthorView) -> Option<AuthorView> {
    match raw {
        RawAuthorView::Text(text) => author_of(text),
        RawAuthorView::Fields { name: Some(name), email } => if name.len() > 0 {
            Some(AuthorView { name, email })
        } else {
            None
        },
        _ => None,
    }
}

/// The authors that a list of entries names, in the order of the entries.
pub open spec fn authors_of_raw(raws: Seq<RawAuthorView>) -> Seq<AuthorView>
    decreases raws.len(),
{
    if raws.len() == 0 {
        Seq::empty()
    } else {
        let before = authors_of_raw(raws.drop_last());
        match author_of_raw(raws.last()) {
            Some(author) => before.push(author),
            None => before,
        }
    }
}

/// What a record says of its project: the primary author first, then the
/// contributors in the order of the record.
pub open spec fn package_of(record: SourceRecordView) -> PackageInfoView {
    PackageInfoView {
        name: record.name,
        authors: authors_of_raw(seq![record.author] + record.contributors),
        url: record.url,
    }
}

/// The authors of two lists of entries, one after the other, are the
/// authors of the first list and then those of the second.
pub proof fn lemma_authors_in_order(first: Seq<RawAuthorView>, second: Seq<RawAuthorView>)
    ensures
        authors_of_raw(first + second) == authors_of_raw(first) + authors_of_raw(second),
    decreases second.len(),
{
    if second.len() == 0 {
        assert(first + second =~= first);
        assert(authors_of_raw(first) + authors_of_raw(second) =~= authors_of_raw(first));
    } else {
        let all = first + second;
        assert(all.drop_last() =~= first + second.drop_last());
        assert(all.last() == second.last());
        lemma_authors_in_order(first, second.drop_last());
        let before = authors_of_raw(first) + authors_of_raw(second.drop_last());
        match author_of_raw(second.last()) {
            Some(author) => {
                assert(before.push(author) =~= authors_of_raw(first) + authors_of_raw(
                    second.drop_last(),
                ).push(author));
            },
            None => {},
        }
    }
}

/// The authors of a record keep the order in which the record declares
/// them. Where every entry names an author, the primary author is the first
/// and the i-th contributor comes i places after it.
pub proof fn lemma_declaration_order(record: SourceRecordView)
    requires
        author_of_raw(record.author) is Some,
        forall|i: int|
            0 <= i < record.contributors.len() ==> author_of_raw(
                #[trigger] record.contributors[i],
            ) is Some,
    ensures
        package_of(record).authors.len() == record.contributors.len() + 1,
        package_of(record).authors[0] == author_of_raw(record.author)->0,
        forall|i: int|
            0 <= i < record.contributors.len() ==> #[trigger] package_of(record).authors[i + 1]
                == author_of_raw(record.contributors[i])->0,
{
    let primary = seq![record.author];
    lemma_authors_in_order(primary, record.contributors);
    assert(primary.drop_last() =~= Seq::<RawAuthorView>::empty());
    assert(authors_of_raw(primary.drop_last()) =~= Seq::<AuthorView>::empty());
    assert(authors_of_raw(primary) =~= seq![author_of_raw(record.author)->0]);
    lemma_all_named(record.contributors);
}

/// Where every entry names an author, there are as many authors as entries,
/// each in the place of its entry.
proof fn lemma_all_named(raws: Seq<RawAuthorView>)
    requires
        forall|i: int| 0 <= i < raws.len() ==> author_of_raw(#[trigger] raws[i]) is Some,
    ensures
        authors_of_raw(raws).len() == raws.len(),
        forall|i: int|
            0 <= i < raws.len() ==> #[trigger] authors_of_raw(raws)[i] == author_of_raw(
                raws[i],
            )->0,
    decreases raws.len(),
{
    if raws.len() > 0 {
        lemma_all_named(raws.drop_last());
        assert(author_of_raw(raws.last()) is Some);
    }
}

/// Every author of a record has a name: no entry names an author without
/// one.
pub proof fn lemma_record_names_its_authors(record: SourceRecordView)
    ensures
        all_named(package_of(record).authors),
{
    lemma_entries_name_their_authors(seq![record.author] + record.contributors);
}

/// Every author of a list of entries has a name.
pub proof fn lemma_entries_name_their_authors(raws: Seq<RawAuthorView>)
    ensures
        all_named(authors_of_raw(raws)),
    decreases raws.len(),
{
    if raws.len() > 0 {
        lemma_entries_name_their_authors(raws.drop_last());
        match raws.last() {
            RawAuthorView::Text(text) => {
                lemma_name_is_trimmed(text);
            },
            _ => {},
        }
    }
}

/// Copies a text that may be missing.
fn clone_text(text: &Option<String>) -> (copy: Option<String>)
    ensures
        copy.deep_view() == text.deep_view(),
{
    match text {
        Some(t) => Some(t.clone()),
        None => None,
    }
}

/// Reads the author that one entry names.
pub fn read_raw(raw: &RawAuthor) -> (author: Option<Author>)
    ensures
        author.deep_view() == author_of_raw(raw@),
{
    match raw {
        RawAuthor::Text(text) => parse_author(text.as_str()),
        RawAuthor::Fields { name: Some(name), email } => if name.as_str().is_empty() {
            None
        } else {
            Some(Author { name: name.clone(), email: clone_text(email) })
        },
        _ => None,
    }
}

/// Reads the authors of a record and keeps its name and address.
pub fn read_record(record: &SourceRecord) -> (info: PackageInfo)
    ensures
        info@ == package_of(record@),
{
    let mut authors: Vec<Author> = Vec::new();
    let ghost raws = seq![record.author@] + record.contributors.deep_view();
    let ghost none = Seq::<RawAuthorView>::empty();
    assert(authors.deep_view() =~= authors_of_raw(none));
    if let Some(author) = read_raw(&record.author) {
        authors.push(author);
        assert(authors.deep_view() =~= authors_of_raw(none).push(author@));
    }
    proof {
        assert(raws.take(1).drop_last() =~= none);
        assert(raws.take(1).last() == record.author@);
    }
    let mut i: usize = 0;
    while i < record.contributors.len()
        invariant
            i <= record.contributors.len(),
            raws == seq![record.author@] + record.contributors.deep_view(),
            authors.deep_view() == authors_of_raw(raws.take(i + 1)),
        decreases record.contributors.len() - i,
    {
        let ghost before = authors.deep_view();
        let found = read_raw(&record.contributors[i]);
        proof {
            assert(raws.take(i + 2).drop_last() =~= raws.take(i + 1));
            assert(raws.take(i + 2).last() == record.contributors[i as int]@);
        }
        if let Some(author) = found {
            authors.push(author);
            assert(authors.deep_view() =~= before.push(author@));
        }
        i += 1;
    }
    proof {
        assert(raws.take(i + 1) =~= raws);
    }
    PackageInfo { name: clone_text(&record.name), authors, url: clone_text(&record.url) }
}

} // verus!
