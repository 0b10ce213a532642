//! Authors, and the free-text form in which manifests name them:
//! `Name Name <email> (aside)`, in any order.

use crate::text::{chars_of, is_white_space, joined, white_space};
use vstd::prelude::*;

verus! {

/// One contributor.
#[derive(Debug)]
pub struct Author {
    pub name: String,
    pub email: Option<String>,
}

/// What an [`Author`] says, as plain sequences of characters.
pub struct AuthorView {
    pub name: Seq<char>,
    pub email: Option<Seq<char>>,
}

impl View for Author {
    type V = AuthorView;

    open spec fn view(&self) -> AuthorView {
        AuthorView { name: self.name@, email: self.email.deep_view() }
    }
}

impl DeepView for Author {
    type V = AuthorView;

    open spec fn deep_view(&self) -> AuthorView {
        self@
    }
}

impl Clone for Author {
    fn clone(&self) -> (copy: Author)
        ensures
            copy@ == self@,
    {
        let email = match &self.email {
            Some(e) => Some(e.clone()),
            None => None,
        };
        Author { name: self.name.clone(), email }
    }
}

impl AuthorView {
    /// Whether the author has a name: one character at least.
    pub open spec fn is_named(self) -> bool {
        self.name.len() > 0
    }
}

/// Whether every author of a list has a name.
pub open spec fn all_named(authors: Seq<AuthorView>) -> bool {
    forall|i: int| 0 <= i < authors.len() ==> (#[trigger] authors[i]).is_named()
}

/// One match of the scan of an author string.
pub enum Token {
    /// A bare word: a run of characters that are neither white space nor one
    /// of `<`, `>`, `(`, `)`.
    Name(Seq<char>),
    /// What stands between `<` and `>`.
    Email(Seq<char>),
    /// What stands between `(` and `)`; it says nothing of the author.
    Aside(Seq<char>),
}

/// Whether `c` can stand in a bare word.
pub open spec fn is_name_char(c: char) -> bool {
    !is_white_space(c) && c != '<' && c != '>' && c != '(' && c != ')'
}

/// Where the run of bare-word characters that reaches `i` ends.
pub open spec fn name_end(s: Seq<char>, i: int) -> int
    decreases s.len() - i,
{
    if 0 <= i < s.len() && is_name_char(s[i]) {
        name_end(s, i + 1)
    } else {
        i
    }
}

/// The first `close` at or after `k`, if no line ends before it.
pub open spec fn close_from(s: Seq<char>, k: int, close: char) -> Option<int>
    decreases s.len() - k,
{
    if k < 0 || k >= s.len() {
        None
    } else if s[k] == close {
        Some(k)
    } else if s[k] == '\n' {
        None
    } else {
        close_from(s, k + 1, close)
    }
}

/// Where the span that opens at `i` closes. A span holds at least one
/// character and stays on one line, and it closes at the first `close` after
/// that one character.
pub open spec fn span_close(s: Seq<char>, i: int, close: char) -> Option<int> {
    if 0 <= i && i + 1 < s.len() && s[i + 1] != '\n' {
        close_from(s, i + 2, close)
    } else {
        None
    }
}

/// The matches that a scan of `s` from `i` finds, left to right and without
/// overlap. At each place it takes a bare word as far as it runs, or a span in
/// angle brackets, or a span in parentheses; where none of them starts it
/// moves on by one character.
pub open spec fn tokens(s: Seq<char>, i: int) -> Seq<Token>
    decreases s.len() - i,
{
    if i < 0 || i >= s.len() {
        Seq::empty()
    } else if is_name_char(s[i]) {
        let j = name_end(s, i + 1);
        proof {
            lemma_name_end_bounds(s, i + 1);
        }
        seq![Token::Name(s.subrange(i, j))] + tokens(s, j)
    } else if s[i] == '<' || s[i] == '(' {
        let close = if s[i] == '<' {
            '>'
        } else {
            ')'
        };
        match span_close(s, i, close) {
            Some(k) => {
                proof {
                    lemma_close_from_bounds(s, i + 2, close);
                }
                let inside = s.subrange(i + 1, k);
                let token = if s[i] == '<' {
                    Token::Email(inside)
                } else {
                    Token::Aside(inside)
                };
                seq![token] + tokens(s, k + 1)
            },
            None => tokens(s, i + 1),
        }
    } else {
        tokens(s, i + 1)
    }
}

/// The bare words among the tokens, in order.
pub open spec fn names_of(ts: Seq<Token>) -> Seq<Seq<char>>
    decreases ts.len(),
{
    if ts.len() == 0 {
        Seq::empty()
    } else {
        match ts[0] {
            Token::Name(n) => seq![n] + names_of(ts.drop_first()),
            _ => names_of(ts.drop_first()),
        }
    }
}

/// The first email among the tokens.
pub open spec fn first_email(ts: Seq<Token>) -> Option<Seq<char>>
    decreases ts.len(),
{
    if ts.len() == 0 {
        None
    } else {
        match ts[0] {
            Token::Email(e) => Some(e),
            _ => first_email(ts.drop_first()),
        }
    }
}

/// The author that a list of tokens names: the bare words joined by single
/// spaces, with the first email. No bare word, no author.
pub open spec fn author_of_tokens(ts: Seq<Token>) -> Option<AuthorView> {
    let names = names_of(ts);
    if names.len() == 0 {
        None
    } else {
        Some(AuthorView { name: joined(names, seq![' ']), email: first_email(ts) })
    }
}

/// The author that a free-text string names.
pub open spec fn author_of(text: Seq<char>) -> Option<AuthorView> {
    author_of_tokens(tokens(text, 0))
}

/// A run of bare-word characters ends inside the text, holds nothing but
/// such characters, and is not followed by one.
pub proof fn lemma_name_end_bounds(s: Seq<char>, i: int)
    requires
        0 <= i <= s.len(),
    ensures
        i <= name_end(s, i) <= s.len(),
        forall|j: int| i <= j < name_end(s, i) ==> is_name_char(#[trigger] s[j]),
        name_end(s, i) < s.len() ==> !is_name_char(s[name_end(s, i)]),
    decreases s.len() - i,
{
    if i < s.len() && is_name_char(s[i]) {
        lemma_name_end_bounds(s, i + 1);
    }
}

/// A closing bracket that was found stands at or after the place from which
/// it was sought.
pub proof fn lemma_close_from_bounds(s: Seq<char>, k: int, close: char)
    requires
        0 <= k,
    ensures
        close_from(s, k, close) matches Some(e) ==> k <= e < s.len() && s[e] == close,
    decreases s.len() - k,
{
    if k < s.len() && s[k] != close && s[k] != '\n' {
        lemma_close_from_bounds(s, k + 1, close);
    }
}

/// The bare words of a list with one more token at its end.
proof fn lemma_names_push(ts: Seq<Token>, t: Token)
    ensures
        names_of(ts.push(t)) == match t {
            Token::Name(n) => names_of(ts).push(n),
            _ => names_of(ts),
        },
    decreases ts.len(),
{
    if ts.len() == 0 {
        assert(ts.push(t).drop_first() =~= Seq::<Token>::empty());
        assert(names_of(ts.push(t).drop_first()) =~= Seq::<Seq<char>>::empty());
        match t {
            Token::Name(n) => {
                assert(seq![n] + Seq::<Seq<char>>::empty() =~= names_of(ts).push(n));
            },
            _ => {},
        }
    } else {
        assert(ts.push(t).drop_first() =~= ts.drop_first().push(t));
        lemma_names_push(ts.drop_first(), t);
        let rest = names_of(ts.drop_first());
        match (ts[0], t) {
            (Token::Name(a), Token::Name(n)) => {
                assert(seq![a] + rest.push(n) =~= (seq![a] + rest).push(n));
            },
            _ => {},
        }
    }
}

/// The first email of a list with one more token at its end.
proof fn lemma_first_email_push(ts: Seq<Token>, t: Token)
    ensures
        first_email(ts.push(t)) == match first_email(ts) {
            Some(e) => Some(e),
            None => match t {
                Token::Email(e) => Some(e),
                _ => None,
            },
        },
    decreases ts.len(),
{
    if ts.len() == 0 {
        assert(ts.push(t).drop_first() =~= Seq::<Token>::empty());
    } else {
        assert(ts.push(t).drop_first() =~= ts.drop_first().push(t));
        lemma_first_email_push(ts.drop_first(), t);
    }
}

/// Tests whether a character can stand in a bare word.
fn name_char(c: char) -> (b: bool)
    ensures
        b == is_name_char(c),
{
    !white_space(c) && c != '<' && c != '>' && c != '(' && c != ')'
}

/// Finds where the run of bare-word characters that reaches `i` ends.
fn find_name_end(cs: &Vec<char>, i: usize) -> (j: usize)
    requires
        i <= cs.len(),
    ensures
        j == name_end(cs@, i as int),
        i <= j <= cs.len(),
{
    let mut j: usize = i;
    while j < cs.len() && name_char(cs[j])
        invariant
            i <= j <= cs.len(),
            name_end(cs@, i as int) == name_end(cs@, j as int),
        decreases cs.len() - j,
    {
        j += 1;
    }
    j
}

/// Finds where the span that opens at `i` closes.
fn find_close(cs: &Vec<char>, i: usize, close: char) -> (end: Option<usize>)
    requires
        i < cs.len(),
    ensures
        match end {
            Some(k) => span_close(cs@, i as int, close) == Some(k as int) && i + 2 <= k < cs.len(),
            None => span_close(cs@, i as int, close) is None,
        },
{
    if cs.len() - i < 2 || cs[i + 1] == '\n' {
        return None;
    }
    let mut k: usize = i + 2;
    while k < cs.len()
        invariant
            i + 2 <= k <= cs.len(),
            cs@[i + 1] != '\n',
            close_from(cs@, i + 2, close) == close_from(cs@, k as int, close),
        decreases cs.len() - k,
    {
        if cs[k] == close {
            return Some(k);
        }
        if cs[k] == '\n' {
            return None;
        }
        k += 1;
    }
    None
}

/// Reads one author from a free-text string such as
/// `John Doe <john@x.com> (https://x.com)`.
pub fn parse_author(text: &str) -> (author: Option<Author>)
    ensures
        author.deep_view() == author_of(text@),
{
    let cs = chars_of(text);
    let n: usize = cs.len();
    let mut name = String::new();
    let mut email: Option<String> = None;
    let mut seen: bool = false;
    let mut i: usize = 0;
    let ghost mut done: Seq<Token> = Seq::empty();
    proof {
        reveal_strlit(" ");
        assert(" "@ =~= seq![' ']);
    }
    while i < n
        invariant
            n == cs.len(),
            cs@ == text@,
            i <= n,
            tokens(text@, 0) == done + tokens(text@, i as int),
            seen == (names_of(done).len() > 0),
            name@ == joined(names_of(done), seq![' ']),
            email.deep_view() == first_email(done),
            " "@ == seq![' '],
        decreases n - i,
    {
        let c = cs[i];
        if name_char(c) {
            let j = find_name_end(&cs, i + 1);
            let ghost token = Token::Name(text@.subrange(i as int, j as int));
            if seen {
                name.append(" ");
            }
            name.append(text.substring_char(i, j));
            proof {
                lemma_names_push(done, token);
                lemma_first_email_push(done, token);
                let before = names_of(done);
                let word = text@.subrange(i as int, j as int);
                assert(before.push(word).drop_last() =~= before);
                assert(done + (seq![token] + tokens(text@, j as int)) =~= done.push(token)
                    + tokens(text@, j as int));
                done = done.push(token);
            }
            seen = true;
            i = j;
        } else if c == '<' || c == '(' {
            let close = if c == '<' {
                '>'
            } else {
                ')'
            };
            match find_close(&cs, i, close) {
                Some(k) => {
                    let ghost inside = text@.subrange(i + 1, k as int);
                    let ghost token = if c == '<' {
                        Token::Email(inside)
                    } else {
                        Token::Aside(inside)
                    };
                    if c == '<' && email.is_none() {
                        email = Some(text.substring_char(i + 1, k).to_owned());
                    }
                    proof {
                        lemma_names_push(done, token);
                        lemma_first_email_push(done, token);
                        assert(done + (seq![token] + tokens(text@, k + 1)) =~= done.push(token)
                            + tokens(text@, k + 1));
                        done = done.push(token);
                    }
                    i = k + 1;
                },
                None => {
                    i += 1;
                },
            }
        } else {
            i += 1;
        }
    }
    proof {
        assert(tokens(text@, n as int) =~= Seq::<Token>::empty());
        assert(done + Seq::<Token>::empty() =~= done);
    }
    if seen {
        Some(Author { name, email })
    } else {
        None
    }
}

} // verus!
