//! Who wrote the project and what it is called: the answer is sought in the
//! flags, the two manifests and the version control's settings, in that
//! order of trust, and held against what the licence needs.

use crate::author::{all_named, Author, AuthorView};
use crate::cargo::{cargo_package, cargo_record, cargo_table, cargo_warnings, read_cargo};
use crate::error::{CliError, CliErrorView};
use crate::git::{git_author, read_git};
use crate::manifest::{lemma_record_names_its_authors, PackageInfo, PackageInfoView};
use crate::node::{json_read, node_package, node_record, node_warnings, read_node};
use crate::source::{SourceFile, SourceFileView};
use vstd::prelude::*;

verus! {

/// What a licence needs to know besides the authors' names.
#[derive(Clone, Copy, Debug)]
pub struct RequirementMask {
    /// The project's name.
    pub project: bool,
    /// The project's address.
    pub url: bool,
    /// The email of at least one author.
    pub email: bool,
}

/// What the caller found around the project: the two manifests, what
/// `git config` printed if it ran, and the clock in seconds since 1970 if it
/// can be read.
#[derive(Debug)]
pub struct Sources {
    pub node: SourceFile,
    pub cargo: SourceFile,
    pub git: Option<String>,
    pub now: Option<u64>,
}

/// [`Sources`] as plain sequences.
pub struct SourcesView {
    pub node: SourceFileView,
    pub cargo: SourceFileView,
    pub git: Option<Seq<char>>,
    pub now: Option<u64>,
}

impl View for Sources {
    type V = SourcesView;

    open spec fn view(&self) -> SourcesView {
        SourcesView {
            node: self.node@,
            cargo: self.cargo@,
            git: self.git.deep_view(),
            now: self.now,
        }
    }
}

impl DeepView for Sources {
    type V = SourcesView;

    open spec fn deep_view(&self) -> SourcesView {
        self@
    }
}

impl Sources {
    /// Nothing around the project: no manifest, no version control, no clock.
    pub fn none() -> (sources: Sources)
        ensures
            sources@ == (SourcesView {
                node: SourceFileView::Missing,
                cargo: SourceFileView::Missing,
                git: None,
                now: None,
            }),
    {
        Sources { node: SourceFile::Missing, cargo: SourceFile::Missing, git: None, now: None }
    }
}

/// The author that the flags name in the i-th place: the i-th name with the
/// i-th email, and without one where the emails have run out.
pub open spec fn pair_at(names: Seq<Seq<char>>, emails: Seq<Seq<char>>, i: int) -> AuthorView {
    AuthorView {
        name: names[i],
        email: if i < emails.len() {
            Some(emails[i])
        } else {
            None
        },
    }
}

/// The authors that the first `n` names of the flags name. A name without a
/// character names nobody.
pub open spec fn paired_to(names: Seq<Seq<char>>, emails: Seq<Seq<char>>, n: int) -> Seq<
    AuthorView,
>
    decreases n,
{
    if n <= 0 || n > names.len() {
        Seq::empty()
    } else if names[n - 1].len() > 0 {
        paired_to(names, emails, n - 1).push(pair_at(names, emails, n - 1))
    } else {
        paired_to(names, emails, n - 1)
    }
}

/// The authors that the flags name, in the order of the names: each name
/// that has a character, with the email of its place.
pub open spec fn paired(names: Seq<Seq<char>>, emails: Seq<Seq<char>>) -> Seq<AuthorView> {
    paired_to(names, emails, names.len() as int)
}

/// Whether the flags alone answer every question: they name an author, and
/// whatever else the licence needs. Where every name has a character, they
/// hold an email as soon as one email is given.
pub open spec fn flags_suffice(
    emails: Seq<Seq<char>>,
    names: Seq<Seq<char>>,
    project: Option<Seq<char>>,
    url: Option<Seq<char>>,
    needs: RequirementMask,
) -> bool {
    &&& paired(names, emails).len() > 0
    &&& needs.project ==> project is Some
    &&& needs.url ==> url is Some
    &&& needs.email ==> some_email(paired(names, emails))
}

/// The first of two answers, the second where there is no first.
pub open spec fn or_else(first: Option<Seq<char>>, second: Option<Seq<char>>) -> Option<
    Seq<char>,
> {
    if first is Some {
        first
    } else {
        second
    }
}

/// Nothing known of a project.
pub open spec fn nothing_known() -> PackageInfoView {
    PackageInfoView { name: None, authors: Seq::empty(), url: None }
}

/// What the manifests say. The Node-style manifest is asked first, and where
/// it names an author the Rust-style one is not asked at all. Where it names
/// none, the authors are those of the Rust-style manifest, and the name and
/// the address are taken from the first manifest that has them.
pub open spec fn manifests_say(
    node: Option<PackageInfoView>,
    cargo: Option<PackageInfoView>,
) -> PackageInfoView {
    let first = match node {
        Some(n) => n,
        None => nothing_known(),
    };
    let second = match cargo {
        Some(c) => c,
        None => nothing_known(),
    };
    if first.authors.len() > 0 {
        first
    } else {
        PackageInfoView {
            name: or_else(first.name, second.name),
            authors: second.authors,
            url: or_else(first.url, second.url),
        }
    }
}

/// What all sources say together. The authors are those of the manifests;
/// where they name none, those of the flags; where they name none either,
/// the user of the version control. The name and the address are those of
/// the manifests, and those of the flags where the manifests have none.
pub open spec fn gathered(
    emails: Seq<Seq<char>>,
    names: Seq<Seq<char>>,
    project: Option<Seq<char>>,
    url: Option<Seq<char>>,
    node: Option<PackageInfoView>,
    cargo: Option<PackageInfoView>,
    vcs: Option<AuthorView>,
) -> PackageInfoView {
    let found = manifests_say(node, cargo);
    PackageInfoView {
        name: or_else(found.name, project),
        authors: if found.authors.len() > 0 {
            found.authors
        } else if paired(names, emails).len() > 0 {
            paired(names, emails)
        } else {
            match vcs {
                Some(user) => seq![user],
                None => Seq::empty(),
            }
        },
        url: or_else(found.url, url),
    }
}

/// Whether one of the authors has an email.
pub open spec fn some_email(authors: Seq<AuthorView>) -> bool {
    exists|i: int| 0 <= i < authors.len() && (#[trigger] authors[i]).email is Some
}

/// The project's name is needed and missing.
pub open spec fn missing_project() -> CliErrorView {
    CliErrorView::MissingFlag {
        flag: "-p or --project"@,
        reason: "The project name could not be obtained via a Cargo.toml (Rust) or package.json (Node.js)!"@,
    }
}

/// The project's address is needed and missing.
pub open spec fn missing_url() -> CliErrorView {
    CliErrorView::MissingFlag {
        flag: "-u or --url"@,
        reason: "The url could not be obtained via a Cargo.toml (Rust) or package.json (Node.js)!"@,
    }
}

/// No author is known.
pub open spec fn missing_name() -> CliErrorView {
    CliErrorView::MissingFlag {
        flag: "-n or --name"@,
        reason: "The name(s) could not be obtained via a Cargo.toml (Rust), package.json (Node.js) or git config!"@,
    }
}

/// An email is needed and no author has one.
pub open spec fn missing_email() -> CliErrorView {
    CliErrorView::MissingFlag {
        flag: "-e or --email"@,
        reason: "There must be at least one email to accompany the name(s)! Either provide it via the flag, in a Cargo.toml (Rust), or in a package.json (Node.js)!"@,
    }
}

/// The first thing that is needed and missing: the project's name, then its
/// address, then an author, then an email.
pub open spec fn first_missing(info: PackageInfoView, needs: RequirementMask) -> Option<
    CliErrorView,
> {
    if needs.project && info.name is None {
        Some(missing_project())
    } else if needs.url && info.url is None {
        Some(missing_url())
    } else if info.authors.len() == 0 {
        Some(missing_name())
    } else if needs.email && !some_email(info.authors) {
        Some(missing_email())
    } else {
        None
    }
}

/// What the flags alone answer.
pub open spec fn flags_say(
    emails: Seq<Seq<char>>,
    names: Seq<Seq<char>>,
    project: Option<Seq<char>>,
    url: Option<Seq<char>>,
) -> PackageInfoView {
    PackageInfoView { name: project, authors: paired(names, emails), url }
}

/// The answer of the full search: what all sources say together, if nothing
/// needed is missing from it.
pub open spec fn cascade(
    emails: Seq<Seq<char>>,
    names: Seq<Seq<char>>,
    project: Option<Seq<char>>,
    url: Option<Seq<char>>,
    needs: RequirementMask,
    node: Option<PackageInfoView>,
    cargo: Option<PackageInfoView>,
    vcs: Option<AuthorView>,
) -> Result<PackageInfoView, CliErrorView> {
    let info = gathered(emails, names, project, url, node, cargo, vcs);
    match first_missing(info, needs) {
        Some(error) => Err(error),
        None => Ok(info),
    }
}

/// The answer: that of the flags where they suffice, else that of the full
/// search.
pub open spec fn resolution(
    emails: Seq<Seq<char>>,
    names: Seq<Seq<char>>,
    project: Option<Seq<char>>,
    url: Option<Seq<char>>,
    needs: RequirementMask,
    node: Option<PackageInfoView>,
    cargo: Option<PackageInfoView>,
    vcs: Option<AuthorView>,
) -> Result<PackageInfoView, CliErrorView> {
    if flags_suffice(emails, names, project, url, needs) {
        Ok(flags_say(emails, names, project, url))
    } else {
        cascade(emails, names, project, url, needs, node, cargo, vcs)
    }
}

/// An outcome as plain sequences.
pub open spec fn outcome_view(outcome: Result<PackageInfo, CliError>) -> Result<
    PackageInfoView,
    CliErrorView,
> {
    match outcome {
        Ok(info) => Ok(info@),
        Err(error) => Err(error@),
    }
}

/// Pairs the names and the emails of the flags by position, and passes
/// over a name without a character.
pub fn pair_authors(names: &Vec<String>, emails: &Vec<String>) -> (authors: Vec<Author>)
    ensures
        authors.deep_view() == paired(names.deep_view(), emails.deep_view()),
{
    let mut authors: Vec<Author> = Vec::new();
    let mut i: usize = 0;
    assert(authors.deep_view() =~= paired_to(names.deep_view(), emails.deep_view(), 0));
    while i < names.len()
        invariant
            i <= names.len(),
            authors.deep_view() == paired_to(names.deep_view(), emails.deep_view(), i as int),
        decreases names.len() - i,
    {
        let ghost before = authors.deep_view();
        if !names[i].as_str().is_empty() {
            let email = if i < emails.len() {
                Some(emails[i].clone())
            } else {
                None
            };
            let author = Author { name: names[i].clone(), email };
            assert(author@ == pair_at(names.deep_view(), emails.deep_view(), i as int));
            authors.push(author);
            assert(authors.deep_view() =~= before.push(author@));
        }
        i += 1;
    }
    authors
}

/// Tests whether one of the authors has an email.
fn has_email(authors: &Vec<Author>) -> (found: bool)
    ensures
        found == some_email(authors.deep_view()),
{
    let mut i: usize = 0;
    while i < authors.len()
        invariant
            i <= authors.len(),
            forall|k: int| 0 <= k < i ==> (#[trigger] authors.deep_view()[k]).email is None,
        decreases authors.len() - i,
    {
        if authors[i].email.is_some() {
            assert(authors.deep_view()[i as int].email is Some);
            return true;
        }
        i += 1;
    }
    false
}

/// Tests whether the authors of the flags, with the rest of the flags, answer
/// every question.
fn suffice(
    flagged: &Vec<Author>,
    project: &Option<String>,
    url: &Option<String>,
    needs: RequirementMask,
) -> (enough: bool)
    ensures
        enough == {
            &&& flagged.len() > 0
            &&& needs.project ==> project is Some
            &&& needs.url ==> url is Some
            &&& needs.email ==> some_email(flagged.deep_view())
        },
{
    flagged.len() > 0 && (!needs.project || project.is_some()) && (!needs.url || url.is_some())
        && (!needs.email || has_email(flagged))
}

/// Takes the first of two answers, the second where there is no first.
fn fallback(first: Option<String>, second: Option<String>) -> (text: Option<String>)
    ensures
        text.deep_view() == or_else(first.deep_view(), second.deep_view()),
{
    if first.is_some() {
        first
    } else {
        second
    }
}

/// What is known of a project of which nothing is known.
fn unknown() -> (info: PackageInfo)
    ensures
        info@ == nothing_known(),
{
    let info = PackageInfo { name: None, authors: Vec::new(), url: None };
    assert(info.authors.deep_view() =~= Seq::<AuthorView>::empty());
    info
}

/// Puts together what the two manifests say.
fn merge_manifests(node: Option<PackageInfo>, cargo: Option<PackageInfo>) -> (found: PackageInfo)
    ensures
        found@ == manifests_say(node.deep_view(), cargo.deep_view()),
{
    let first = match node {
        Some(n) => n,
        None => unknown(),
    };
    if first.authors.len() > 0 {
        first
    } else {
        let second = match cargo {
            Some(c) => c,
            None => unknown(),
        };
        PackageInfo {
            name: fallback(first.name, second.name),
            authors: second.authors,
            url: fallback(first.url, second.url),
        }
    }
}

/// The error that asks for a flag.
fn missing_flag(flag: &str, reason: &str) -> (error: CliError)
    ensures
        error@ == (CliErrorView::MissingFlag { flag: flag@, reason: reason@ }),
{
    CliError::MissingFlag { flag: flag.to_owned(), reason: reason.to_owned() }
}

/// Holds what was gathered against what the licence needs.
pub fn validate(info: PackageInfo, needs: RequirementMask) -> (outcome: Result<
    PackageInfo,
    CliError,
>)
    ensures
        outcome_view(outcome) == match first_missing(info@, needs) {
            Some(error) => Err::<PackageInfoView, CliErrorView>(error),
            None => Ok(info@),
        },
{
    if needs.project && info.name.is_none() {
        Err(
            missing_flag(
                "-p or --project",
                "The project name could not be obtained via a Cargo.toml (Rust) or package.json (Node.js)!",
            ),
        )
    } else if needs.url && info.url.is_none() {
        Err(
            missing_flag(
                "-u or --url",
                "The url could not be obtained via a Cargo.toml (Rust) or package.json (Node.js)!",
            ),
        )
    } else if info.authors.len() == 0 {
        Err(
            missing_flag(
                "-n or --name",
                "The name(s) could not be obtained via a Cargo.toml (Rust), package.json (Node.js) or git config!",
            ),
        )
    } else if needs.email && !has_email(&info.authors) {
        Err(
            missing_flag(
                "-e or --email",
                "There must be at least one email to accompany the name(s)! Either provide it via the flag, in a Cargo.toml (Rust), or in a package.json (Node.js)!",
            ),
        )
    } else {
        Ok(info)
    }
}

/// Resolves the project's authors, name and address from the flags and from
/// what the sources said, each source already read.
pub fn resolve(
    emails: Vec<String>,
    names: Vec<String>,
    project: Option<String>,
    url: Option<String>,
    needs: RequirementMask,
    node: Option<PackageInfo>,
    cargo: Option<PackageInfo>,
    vcs: Option<Author>,
) -> (outcome: Result<PackageInfo, CliError>)
    ensures
        outcome_view(outcome) == resolution(
            emails.deep_view(),
            names.deep_view(),
            project.deep_view(),
            url.deep_view(),
            needs,
            node.deep_view(),
            cargo.deep_view(),
            vcs.deep_view(),
        ),
{
    let flagged = pair_authors(&names, &emails);
    if suffice(&flagged, &project, &url, needs) {
        return Ok(PackageInfo { name: project, authors: flagged, url });
    }
    let found = merge_manifests(node, cargo);
    let authors = if found.authors.len() > 0 {
        found.authors
    } else if flagged.len() > 0 {
        flagged
    } else {
        let mut users: Vec<Author> = Vec::new();
        assert(users.deep_view() =~= Seq::<AuthorView>::empty());
        if let Some(user) = vcs {
            users.push(user);
            assert(users.deep_view() =~= seq![user@]);
        }
        users
    };
    let info = PackageInfo {
        name: fallback(found.name, project),
        authors,
        url: fallback(found.url, url),
    };
    validate(info, needs)
}

/// The user of the version control, if its settings were listed and name
/// one.
pub open spec fn vcs_user(listing: Option<Seq<char>>) -> Option<AuthorView> {
    match listing {
        Some(text) => git_author(text),
        None => None,
    }
}

/// What [`get_info`] answers.
pub open spec fn info_of(
    emails: Seq<Seq<char>>,
    names: Seq<Seq<char>>,
    project: Option<Seq<char>>,
    url: Option<Seq<char>>,
    needs: RequirementMask,
    sources: SourcesView,
) -> Result<PackageInfoView, CliErrorView> {
    resolution(
        emails,
        names,
        project,
        url,
        needs,
        node_package(sources.node),
        cargo_package(sources.cargo),
        vcs_user(sources.git),
    )
}

/// Whether the Node-style manifest names an author.
pub open spec fn node_names_author(node: SourceFileView) -> bool {
    node_package(node) matches Some(info) && info.authors.len() > 0
}

/// The warnings that [`get_info`] leaves. It looks at no file where the
/// flags suffice, and at the Rust-style manifest only where the Node-style
/// one names no author.
pub open spec fn warnings_of(
    emails: Seq<Seq<char>>,
    names: Seq<Seq<char>>,
    project: Option<Seq<char>>,
    url: Option<Seq<char>>,
    needs: RequirementMask,
    sources: SourcesView,
) -> Seq<CliErrorView> {
    if flags_suffice(emails, names, project, url, needs) {
        Seq::empty()
    } else if node_names_author(sources.node) {
        node_warnings(sources.node)
    } else {
        node_warnings(sources.node) + cargo_warnings(sources.cargo)
    }
}

/// Resolves the project's authors, name and address: from the flags alone
/// where they suffice, else from the manifests, the flags and the version
/// control's settings, in that order. It fails where something that the
/// licence needs is still missing, and names the flag that would supply it.
pub fn get_info(
    emails: Vec<String>,
    names: Vec<String>,
    project: Option<String>,
    url: Option<String>,
    needs: RequirementMask,
    sources: &Sources,
    warnings: &mut Vec<CliError>,
) -> (outcome: Result<PackageInfo, CliError>)
    ensures
        outcome_view(outcome) == info_of(
            emails.deep_view(),
            names.deep_view(),
            project.deep_view(),
            url.deep_view(),
            needs,
            sources@,
        ),
        final(warnings).deep_view() == old(warnings).deep_view() + warnings_of(
            emails.deep_view(),
            names.deep_view(),
            project.deep_view(),
            url.deep_view(),
            needs,
            sources@,
        ),
{
    let ghost before = warnings.deep_view();
    let flagged = pair_authors(&names, &emails);
    if suffice(&flagged, &project, &url, needs) {
        assert(before + Seq::<CliErrorView>::empty() =~= before);
        return resolve(emails, names, project, url, needs, None, None, None);
    }
    let node = read_node(&sources.node, warnings);
    let answered = match &node {
        Some(info) => info.authors.len() > 0,
        None => false,
    };
    let cargo = if answered {
        None
    } else {
        let cargo = read_cargo(&sources.cargo, warnings);
        assert(warnings.deep_view() =~= before + (node_warnings(sources@.node) + cargo_warnings(
            sources@.cargo,
        )));
        cargo
    };
    let vcs = match &sources.git {
        Some(listing) => read_git(listing.clone()),
        None => None,
    };
    resolve(emails, names, project, url, needs, node, cargo, vcs)
}

/// The flags' own answer is the answer of the full search where every
/// source is silent: to stop at the flags where they suffice changes no
/// answer of that search.
pub proof fn lemma_flags_alone(
    emails: Seq<Seq<char>>,
    names: Seq<Seq<char>>,
    project: Option<Seq<char>>,
    url: Option<Seq<char>>,
    needs: RequirementMask,
)
    requires
        flags_suffice(emails, names, project, url, needs),
    ensures
        cascade(emails, names, project, url, needs, None, None, None) == Ok::<
            PackageInfoView,
            CliErrorView,
        >(flags_say(emails, names, project, url)),
{
    let info = gathered(emails, names, project, url, None, None, None);
    assert(info == flags_say(emails, names, project, url));
}

/// An answer holds what the licence needs: an author, and the project's
/// name, its address and an email where the mask asks for them.
pub proof fn lemma_answer_is_complete(
    emails: Seq<Seq<char>>,
    names: Seq<Seq<char>>,
    project: Option<Seq<char>>,
    url: Option<Seq<char>>,
    needs: RequirementMask,
    node: Option<PackageInfoView>,
    cargo: Option<PackageInfoView>,
    vcs: Option<AuthorView>,
)
    ensures
        resolution(emails, names, project, url, needs, node, cargo, vcs) matches Ok(info) ==> {
            &&& info.authors.len() > 0
            &&& needs.project ==> info.name is Some
            &&& needs.url ==> info.url is Some
            &&& needs.email ==> some_email(info.authors)
        },
{
}

/// Where every name of the flags has a character, the flags name one author
/// for each name, in order, and they name an email as soon as one is given:
/// they suffice where there is a name and the project's name, its address
/// and an email are given as far as the licence needs them.
pub proof fn lemma_flags_with_names(
    emails: Seq<Seq<char>>,
    names: Seq<Seq<char>>,
    project: Option<Seq<char>>,
    url: Option<Seq<char>>,
    needs: RequirementMask,
)
    requires
        forall|i: int| 0 <= i < names.len() ==> (#[trigger] names[i]).len() > 0,
    ensures
        paired(names, emails) == Seq::new(names.len(), |i: int| pair_at(names, emails, i)),
        flags_suffice(emails, names, project, url, needs) <==> {
            &&& names.len() > 0
            &&& needs.project ==> project is Some
            &&& needs.url ==> url is Some
            &&& needs.email ==> emails.len() > 0
        },
{
    lemma_paired_in_full(names, emails, names.len() as int);
    let authors = paired(names, emails);
    assert(authors =~= Seq::new(names.len(), |i: int| pair_at(names, emails, i)));
    if names.len() > 0 && emails.len() > 0 {
        assert(authors[0].email is Some);
    }
    if some_email(authors) {
        let i = choose|i: int| 0 <= i < authors.len() && (#[trigger] authors[i]).email is Some;
        assert(i < emails.len());
    }
}

/// Where each of the first `n` names has a character, each of them names an
/// author.
proof fn lemma_paired_in_full(names: Seq<Seq<char>>, emails: Seq<Seq<char>>, n: int)
    requires
        0 <= n <= names.len(),
        forall|i: int| 0 <= i < names.len() ==> (#[trigger] names[i]).len() > 0,
    ensures
        paired_to(names, emails, n).len() == n,
        forall|i: int|
            0 <= i < n ==> #[trigger] paired_to(names, emails, n)[i] == pair_at(names, emails, i),
    decreases n,
{
    if n > 0 {
        lemma_paired_in_full(names, emails, n - 1);
        assert(names[n - 1].len() > 0);
    }
}

/// Every author that the first `n` names of the flags name has a name.
proof fn lemma_flags_name_their_authors(
    names: Seq<Seq<char>>,
    emails: Seq<Seq<char>>,
    n: int,
)
    ensures
        all_named(paired_to(names, emails, n)),
    decreases n,
{
    if 0 < n <= names.len() {
        lemma_flags_name_their_authors(names, emails, n - 1);
    }
}

/// Every author of an answer has a name, if every author that a source
/// named has one.
pub proof fn lemma_answer_names_its_authors(
    emails: Seq<Seq<char>>,
    names: Seq<Seq<char>>,
    project: Option<Seq<char>>,
    url: Option<Seq<char>>,
    needs: RequirementMask,
    node: Option<PackageInfoView>,
    cargo: Option<PackageInfoView>,
    vcs: Option<AuthorView>,
)
    requires
        node matches Some(info) ==> all_named(info.authors),
        cargo matches Some(info) ==> all_named(info.authors),
        vcs matches Some(user) ==> user.is_named(),
    ensures
        resolution(emails, names, project, url, needs, node, cargo, vcs) matches Ok(info)
            ==> all_named(info.authors),
{
    lemma_flags_name_their_authors(names, emails, names.len() as int);
}

/// Every author that [`get_info`] answers with has a name, whatever the
/// flags and the sources hold.
pub proof fn lemma_info_names_its_authors(
    emails: Seq<Seq<char>>,
    names: Seq<Seq<char>>,
    project: Option<Seq<char>>,
    url: Option<Seq<char>>,
    needs: RequirementMask,
    sources: SourcesView,
)
    ensures
        info_of(emails, names, project, url, needs, sources) matches Ok(info) ==> all_named(
            info.authors,
        ),
{
    match sources.node {
        SourceFileView::Text(text) => match json_read(text) {
            Some(doc) => {
                lemma_record_names_its_authors(node_record(doc));
            },
            None => {},
        },
        _ => {},
    }
    match cargo_table(sources.cargo) {
        Some(package) => {
            lemma_record_names_its_authors(cargo_record(package));
        },
        None => {},
    }
    lemma_answer_names_its_authors(
        emails,
        names,
        project,
        url,
        needs,
        node_package(sources.node),
        cargo_package(sources.cargo),
        vcs_user(sources.git),
    );
}

/// Where the Node-style manifest names an author, the full search answers
/// with its authors, its name and its address, and what the Rust-style
/// manifest and the version control say changes nothing.
pub proof fn lemma_node_comes_first(
    emails: Seq<Seq<char>>,
    names: Seq<Seq<char>>,
    project: Option<Seq<char>>,
    url: Option<Seq<char>>,
    needs: RequirementMask,
    node: PackageInfoView,
    cargo: Option<PackageInfoView>,
    vcs: Option<AuthorView>,
)
    requires
        node.authors.len() > 0,
    ensures
        gathered(emails, names, project, url, Some(node), cargo, vcs).authors == node.authors,
        cascade(emails, names, project, url, needs, Some(node), cargo, vcs) == cascade(
            emails,
            names,
            project,
            url,
            needs,
            Some(node),
            None,
            None,
        ),
{
}

/// Where the Node-style manifest names an author, the Rust-style manifest is
/// not looked at: neither the answer nor the warnings depend on it.
pub proof fn lemma_rust_manifest_not_asked(
    emails: Seq<Seq<char>>,
    names: Seq<Seq<char>>,
    project: Option<Seq<char>>,
    url: Option<Seq<char>>,
    needs: RequirementMask,
    sources: SourcesView,
    cargo: SourceFileView,
)
    requires
        node_names_author(sources.node),
    ensures
        info_of(emails, names, project, url, needs, sources) == info_of(
            emails,
            names,
            project,
            url,
            needs,
            SourcesView { cargo, ..sources },
        ),
        warnings_of(emails, names, project, url, needs, sources) == warnings_of(
            emails,
            names,
            project,
            url,
            needs,
            SourcesView { cargo, ..sources },
        ),
{
}

/// Where the licence needs the project's address, no manifest can be had
/// and no address is given, the resolution fails and asks for the address.
/// Only the project's name, where it is needed and missing too, is asked for
/// before it.
pub proof fn lemma_address_is_asked_for(
    emails: Seq<Seq<char>>,
    names: Seq<Seq<char>>,
    project: Option<Seq<char>>,
    needs: RequirementMask,
    vcs: Option<AuthorView>,
)
    requires
        needs.url,
        needs.project ==> project is Some,
    ensures
        resolution(emails, names, project, None, needs, None, None, vcs) == Err::<
            PackageInfoView,
            CliErrorView,
        >(missing_url()),
{
}

/// Two runs on the same flags and the same sources give the same answer:
/// the same authors, name and address, character for character, or the same
/// error.
pub proof fn lemma_same_run_same_answer(
    first: Result<PackageInfo, CliError>,
    second: Result<PackageInfo, CliError>,
    emails: Seq<Seq<char>>,
    names: Seq<Seq<char>>,
    project: Option<Seq<char>>,
    url: Option<Seq<char>>,
    needs: RequirementMask,
    sources: SourcesView,
)
    requires
        outcome_view(first) == info_of(emails, names, project, url, needs, sources),
        outcome_view(second) == info_of(emails, names, project, url, needs, sources),
    ensures
        outcome_view(first) == outcome_view(second),
        first is Ok <==> second is Ok,
        first matches Ok(a) ==> second matches Ok(b) && a@ == b@,
        first matches Err(a) ==> second matches Err(b) && a@ == b@,
{
}

} // verus!
