//! The settings of the version control system, as `git config` lists them:
//! one `key value` pair on each line.

use crate::author::{Author, AuthorView};
use crate::text::{
    chars_of, has_at, is_white_space, starts_at, trim_bounds, trimmed, white_space,
};
use vstd::prelude::*;
use vstd::string::StringExecFns;

verus! {

/// One setting that the scan of the listing finds.
pub enum GitEntry {
    /// What follows `user.name` on its line.
    Name(Seq<char>),
    /// What follows `user.email` on its line.
    Email(Seq<char>),
}

/// The key before the user's name.
pub open spec fn name_key() -> Seq<char> {
    "user.name"@
}

/// The key before the user's email.
pub open spec fn email_key() -> Seq<char> {
    "user.email"@
}

/// Where the white space that reaches `i` ends.
pub open spec fn space_end(s: Seq<char>, i: int) -> int
    decreases s.len() - i,
{
    if 0 <= i < s.len() && is_white_space(s[i]) {
        space_end(s, i + 1)
    } else {
        i
    }
}

/// Where the line that reaches `i` ends: at its line feed, or with the text.
pub open spec fn line_end(s: Seq<char>, i: int) -> int
    decreases s.len() - i,
{
    if 0 <= i < s.len() && s[i] != '\n' {
        line_end(s, i + 1)
    } else {
        i
    }
}

/// The last place from `k` down to `low` that holds no line feed.
pub open spec fn last_on_line(s: Seq<char>, low: int, k: int) -> Option<int>
    decreases k - low + 1,
{
    if k < 0 || k < low || k >= s.len() {
        None
    } else if s[k] != '\n' {
        Some(k)
    } else {
        last_on_line(s, low, k - 1)
    }
}

/// Where the value of a key begins, the key having ended before `q`. White
/// space must follow the key, and the value begins where it ends. Where it
/// runs on to the end of the text, it gives back its last character that is
/// no line feed as the value, as long as one character of white space is
/// left after the key.
pub open spec fn value_start(s: Seq<char>, q: int) -> Option<int> {
    let r = space_end(s, q);
    if r == q {
        None
    } else if r < s.len() {
        Some(r)
    } else {
        last_on_line(s, q + 1, s.len() - 1)
    }
}

/// Where the value of the key `key` begins, if the key stands at `p` and has
/// a value.
pub open spec fn setting_at(s: Seq<char>, p: int, key: Seq<char>) -> Option<int> {
    if has_at(s, p, key) {
        value_start(s, p + key.len())
    } else {
        None
    }
}

/// The settings of the user's name and email that a scan of `s` from `p`
/// finds, left to right and without overlap. A value runs to the end of its
/// line. Where no setting starts the scan moves on by one character.
pub open spec fn entries(s: Seq<char>, p: int) -> Seq<GitEntry>
    decreases s.len() - p,
{
    if p < 0 || p >= s.len() {
        Seq::empty()
    } else {
        match setting_at(s, p, name_key()) {
            Some(k) => {
                proof {
                    lemma_setting_bounds(s, p, name_key());
                    lemma_line_end_bounds(s, k);
                }
                seq![GitEntry::Name(s.subrange(k, line_end(s, k)))] + entries(s, line_end(s, k))
            },
            None => match setting_at(s, p, email_key()) {
                Some(k) => {
                    proof {
                        lemma_setting_bounds(s, p, email_key());
                        lemma_line_end_bounds(s, k);
                    }
                    seq![GitEntry::Email(s.subrange(k, line_end(s, k)))] + entries(
                        s,
                        line_end(s, k),
                    )
                },
                None => entries(s, p + 1),
            },
        }
    }
}

/// The user's name: the names set, each without the white space around it,
/// one after the other.
pub open spec fn git_name(es: Seq<GitEntry>) -> Seq<char>
    decreases es.len(),
{
    if es.len() == 0 {
        Seq::empty()
    } else {
        match es.last() {
            GitEntry::Name(n) => git_name(es.drop_last()) + trimmed(n),
            GitEntry::Email(_) => git_name(es.drop_last()),
        }
    }
}

/// The user's email: the one set last, as it stands.
pub open spec fn git_email(es: Seq<GitEntry>) -> Option<Seq<char>>
    decreases es.len(),
{
    if es.len() == 0 {
        None
    } else {
        match es.last() {
            GitEntry::Email(e) => Some(e),
            GitEntry::Name(_) => git_email(es.drop_last()),
        }
    }
}

/// The user that a listing of settings names. No name, no user.
pub open spec fn git_author(listing: Seq<char>) -> Option<AuthorView> {
    let es = entries(listing, 0);
    if git_name(es).len() == 0 {
        None
    } else {
        Some(AuthorView { name: git_name(es), email: git_email(es) })
    }
}

/// White space ends inside the text, and not before a white space
/// character.
pub proof fn lemma_space_end_bounds(s: Seq<char>, i: int)
    requires
        0 <= i <= s.len(),
    ensures
        i <= space_end(s, i) <= s.len(),
        space_end(s, i) < s.len() ==> !is_white_space(s[space_end(s, i)]),
    decreases s.len() - i,
{
    if i < s.len() && is_white_space(s[i]) {
        lemma_space_end_bounds(s, i + 1);
    }
}

/// A line ends inside the text, at or after the place that it reaches.
pub proof fn lemma_line_end_bounds(s: Seq<char>, i: int)
    requires
        0 <= i <= s.len(),
    ensures
        i <= line_end(s, i) <= s.len(),
    decreases s.len() - i,
{
    if i < s.len() && s[i] != '\n' {
        lemma_line_end_bounds(s, i + 1);
    }
}

/// The place that was found lies between the two bounds and holds no line
/// feed.
pub proof fn lemma_last_on_line_bounds(s: Seq<char>, low: int, k: int)
    ensures
        last_on_line(s, low, k) matches Some(at) ==> 0 <= at && low <= at <= k && at < s.len()
            && s[at] != '\n',
    decreases k - low + 1,
{
    if 0 <= k && low <= k < s.len() && s[k] == '\n' {
        lemma_last_on_line_bounds(s, low, k - 1);
    }
}

/// A value begins behind its key and the white space after it, inside the
/// text, and not with a line feed.
pub proof fn lemma_setting_bounds(s: Seq<char>, p: int, key: Seq<char>)
    requires
        0 <= p,
    ensures
        setting_at(s, p, key) matches Some(k) ==> p + key.len() < k < s.len() && s[k] != '\n',
{
    if has_at(s, p, key) {
        let q = p + key.len();
        lemma_space_end_bounds(s, q);
        lemma_last_on_line_bounds(s, q + 1, s.len() - 1);
    }
}

/// Finds where the value of a key begins, the key having ended before `q`.
fn find_value(cs: &Vec<char>, q: usize) -> (start: Option<usize>)
    requires
        q <= cs.len(),
    ensures
        start matches Some(k) ==> value_start(cs@, q as int) == Some(k as int),
        start is None ==> value_start(cs@, q as int) is None,
{
    let mut r: usize = q;
    while r < cs.len() && white_space(cs[r])
        invariant
            q <= r <= cs.len(),
            space_end(cs@, q as int) == space_end(cs@, r as int),
        decreases cs.len() - r,
    {
        r += 1;
    }
    if r == q {
        return None;
    }
    if r < cs.len() {
        return Some(r);
    }
    let mut k: usize = cs.len() - 1;
    while k > q
        invariant
            q <= k < cs.len(),
            space_end(cs@, q as int) == cs.len(),
            last_on_line(cs@, q + 1, cs.len() - 1) == last_on_line(cs@, q + 1, k as int),
        decreases k - q,
    {
        if cs[k] != '\n' {
            return Some(k);
        }
        k -= 1;
    }
    None
}

/// Finds where the value of the key `key` begins, if the key stands at `p`.
fn find_setting(cs: &Vec<char>, p: usize, key: &str) -> (start: Option<usize>)
    requires
        p < cs.len(),
    ensures
        start matches Some(k) ==> setting_at(cs@, p as int, key@) == Some(k as int) && p < k
            < cs.len(),
        start is None ==> setting_at(cs@, p as int, key@) is None,
{
    if starts_at(cs, p, key) {
        proof {
            lemma_setting_bounds(cs@, p as int, key@);
        }
        let n: usize = key.unicode_len();
        find_value(cs, p + n)
    } else {
        None
    }
}

/// Finds where the line that reaches `i` ends.
fn find_line_end(cs: &Vec<char>, i: usize) -> (end: usize)
    requires
        i <= cs.len(),
    ensures
        end == line_end(cs@, i as int),
        i <= end <= cs.len(),
{
    let mut end: usize = i;
    while end < cs.len() && cs[end] != '\n'
        invariant
            i <= end <= cs.len(),
            line_end(cs@, i as int) == line_end(cs@, end as int),
        decreases cs.len() - end,
    {
        end += 1;
    }
    end
}

/// Reads the user's name and email from the listing that
/// `git config --get-regexp` prints.
pub fn read_git(stdout: String) -> (author: Option<Author>)
    ensures
        author.deep_view() == git_author(stdout@),
{
    let text = stdout.as_str();
    let cs = chars_of(text);
    let n: usize = cs.len();
    let mut name = String::new();
    let mut email: Option<String> = None;
    let mut p: usize = 0;
    let ghost mut done: Seq<GitEntry> = Seq::empty();
    while p < n
        invariant
            n == cs.len(),
            cs@ == text@,
            text@ == stdout@,
            p <= n,
            entries(text@, 0) == done + entries(text@, p as int),
            name@ == git_name(done),
            email.deep_view() == git_email(done),
        decreases n - p,
    {
        match find_setting(&cs, p, "user.name") {
            Some(k) => {
                let end = find_line_end(&cs, k);
                let (a, b) = trim_bounds(&cs, k, end);
                name.append(text.substring_char(a, b));
                proof {
                    let entry = GitEntry::Name(text@.subrange(k as int, end as int));
                    assert(done + (seq![entry] + entries(text@, end as int)) =~= done.push(entry)
                        + entries(text@, end as int));
                    assert(done.push(entry).drop_last() =~= done);
                    done = done.push(entry);
                }
                p = end;
            },
            None => match find_setting(&cs, p, "user.email") {
                Some(k) => {
                    let end = find_line_end(&cs, k);
                    email = Some(text.substring_char(k, end).to_owned());
                    proof {
                        let entry = GitEntry::Email(text@.subrange(k as int, end as int));
                        assert(done + (seq![entry] + entries(text@, end as int)) =~= done.push(
                            entry,
                        ) + entries(text@, end as int));
                        assert(done.push(entry).drop_last() =~= done);
                        done = done.push(entry);
                    }
                    p = end;
                },
                None => {
                    p += 1;
                },
            },
        }
    }
    proof {
        assert(entries(text@, n as int) =~= Seq::<GitEntry>::empty());
        assert(done + Seq::<GitEntry>::empty() =~= done);
    }
    if name.as_str().is_empty() {
        None
    } else {
        Some(Author { name, email })
    }
}

} // verus!
