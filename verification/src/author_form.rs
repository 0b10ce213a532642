//! The usual form of an author string, and that reading such a string gives
//! back what was written.

use crate::author::{
    author_of, close_from, first_email, is_name_char, lemma_close_from_bounds,
    lemma_name_end_bounds, name_end, names_of, span_close, tokens, AuthorView, Token,
};
use crate::text::{drop_space, is_white_space, joined, skip_space, trimmed};
use vstd::prelude::*;

verus! {

/// A token as it is written: a bare word as it is, an email in angle
/// brackets, an aside in parentheses.
pub open spec fn written_token(t: Token) -> Seq<char> {
    match t {
        Token::Name(n) => n,
        Token::Email(e) => seq!['<'] + e + seq!['>'],
        Token::Aside(a) => seq!['('] + a + seq![')'],
    }
}

/// Tokens as they are written: one after the other, with one space between
/// each two.
pub open spec fn written_tokens(ts: Seq<Token>) -> Seq<char>
    decreases ts.len(),
{
    if ts.len() == 0 {
        Seq::empty()
    } else if ts.len() == 1 {
        written_token(ts[0])
    } else {
        written_token(ts[0]) + seq![' '] + written_tokens(ts.drop_first())
    }
}

/// Whether a token can be written and read back: a bare word has a
/// character and none that ends it; an email or an aside has a character,
/// stays on one line and does not hold the bracket that closes it.
pub open spec fn can_be_written(t: Token) -> bool {
    match t {
        Token::Name(n) => n.len() > 0 && forall|i: int|
            0 <= i < n.len() ==> is_name_char(#[trigger] n[i]),
        Token::Email(e) => e.len() > 0 && forall|i: int|
            0 <= i < e.len() ==> (#[trigger] e[i]) != '>' && e[i] != '\n',
        Token::Aside(a) => a.len() > 0 && forall|i: int|
            0 <= i < a.len() ==> (#[trigger] a[i]) != ')' && a[i] != '\n',
    }
}

/// Whether every token of a list can be written and read back.
pub open spec fn all_can_be_written(ts: Seq<Token>) -> bool {
    forall|i: int| 0 <= i < ts.len() ==> can_be_written(#[trigger] ts[i])
}

/// A run of bare-word characters ends at the same character whatever stands
/// before it.
proof fn lemma_name_end_shift(a: Seq<char>, b: Seq<char>, i: int)
    requires
        0 <= i <= b.len(),
    ensures
        name_end(a + b, a.len() + i) == a.len() + name_end(b, i),
    decreases b.len() - i,
{
    if i < b.len() {
        assert((a + b)[a.len() + i] == b[i]);
        if is_name_char(b[i]) {
            lemma_name_end_shift(a, b, i + 1);
        }
    }
}

/// A closing bracket is found at the same character whatever stands before
/// the place from which it is sought.
proof fn lemma_close_from_shift(a: Seq<char>, b: Seq<char>, k: int, close: char)
    requires
        0 <= k,
    ensures
        close_from(a + b, a.len() + k, close) == match close_from(b, k, close) {
            Some(e) => Some(a.len() + e),
            None => None,
        },
    decreases b.len() - k,
{
    if k < b.len() {
        assert((a + b)[a.len() + k] == b[k]);
        if b[k] != close && b[k] != '\n' {
            lemma_close_from_shift(a, b, k + 1, close);
        }
    }
}

/// A span closes at the same character whatever stands before it.
proof fn lemma_span_close_shift(a: Seq<char>, b: Seq<char>, i: int, close: char)
    requires
        0 <= i,
    ensures
        span_close(a + b, a.len() + i, close) == match span_close(b, i, close) {
            Some(e) => Some(a.len() + e),
            None => None,
        },
{
    if i + 1 < b.len() {
        assert((a + b)[a.len() + i + 1] == b[i + 1]);
        lemma_close_from_shift(a, b, i + 2, close);
    }
}

/// What a scan finds from some place on does not depend on what stands
/// before that place.
pub proof fn lemma_tokens_shift(a: Seq<char>, b: Seq<char>, i: int)
    requires
        0 <= i <= b.len(),
    ensures
        tokens(a + b, a.len() + i) == tokens(b, i),
    decreases b.len() - i,
{
    let s = a + b;
    let p = a.len() + i;
    if i < b.len() {
        assert(s[p] == b[i]);
        if is_name_char(b[i]) {
            lemma_name_end_shift(a, b, i + 1);
            lemma_name_end_bounds(b, i + 1);
            let j = name_end(b, i + 1);
            assert(s.subrange(p, a.len() + j) =~= b.subrange(i, j));
            lemma_tokens_shift(a, b, j);
        } else if b[i] == '<' || b[i] == '(' {
            let close = if b[i] == '<' {
                '>'
            } else {
                ')'
            };
            lemma_span_close_shift(a, b, i, close);
            match span_close(b, i, close) {
                Some(k) => {
                    lemma_close_from_bounds(b, i + 2, close);
                    assert(s.subrange(p + 1, a.len() + k) =~= b.subrange(i + 1, k));
                    lemma_tokens_shift(a, b, k + 1);
                },
                None => {
                    lemma_tokens_shift(a, b, i + 1);
                },
            }
        } else {
            lemma_tokens_shift(a, b, i + 1);
        }
    }
}

/// A stretch of bare-word characters that is not followed by one is a whole
/// run.
proof fn lemma_name_end_run(s: Seq<char>, i: int, end: int)
    requires
        0 <= i <= end <= s.len(),
        forall|j: int| i <= j < end ==> is_name_char(#[trigger] s[j]),
        end < s.len() ==> !is_name_char(s[end]),
    ensures
        name_end(s, i) == end,
    decreases end - i,
{
    if i < end {
        lemma_name_end_run(s, i + 1, end);
    }
}

/// A closing bracket is found where it stands, if neither it nor a line
/// feed stands before it.
proof fn lemma_close_from_run(s: Seq<char>, k: int, end: int, close: char)
    requires
        0 <= k <= end < s.len(),
        forall|j: int| k <= j < end ==> (#[trigger] s[j]) != close && s[j] != '\n',
        s[end] == close,
    ensures
        close_from(s, k, close) == Some(end),
    decreases end - k,
{
    if k < end {
        lemma_close_from_run(s, k + 1, end, close);
    }
}

/// A token that was written is the first that the scan finds, and the scan
/// goes on behind it. A bare word must not run on into what follows.
proof fn lemma_first_token(t: Token, rest: Seq<char>)
    requires
        can_be_written(t),
        t is Name && rest.len() > 0 ==> !is_name_char(rest[0]),
    ensures
        tokens(written_token(t) + rest, 0) == seq![t] + tokens(
            written_token(t) + rest,
            written_token(t).len() as int,
        ),
{
    let w = written_token(t);
    let s = w + rest;
    match t {
        Token::Name(n) => {
            assert(s[0] == n[0]);
            assert forall|j: int| 1 <= j < n.len() implies is_name_char(#[trigger] s[j]) by {
                assert(s[j] == n[j]);
            }
            if n.len() < s.len() {
                assert(s[n.len() as int] == rest[0]);
            }
            lemma_name_end_run(s, 1, n.len() as int);
            assert(s.subrange(0, n.len() as int) =~= n);
        },
        Token::Email(e) => {
            let end: int = e.len() as int + 1;
            assert(s[0] == '<');
            assert(!is_name_char('<'));
            assert(s[1] == e[0]);
            assert(s[end] == '>');
            assert forall|j: int| 2 <= j < end implies (#[trigger] s[j]) != '>' && s[j] != '\n' by {
                assert(s[j] == e[j - 1]);
            }
            lemma_close_from_run(s, 2, end, '>');
            assert(s.subrange(1, end) =~= e);
        },
        Token::Aside(a) => {
            let end: int = a.len() as int + 1;
            assert(s[0] == '(');
            assert(!is_name_char('('));
            assert(s[1] == a[0]);
            assert(s[end] == ')');
            assert forall|j: int| 2 <= j < end implies (#[trigger] s[j]) != ')' && s[j] != '\n' by {
                assert(s[j] == a[j - 1]);
            }
            lemma_close_from_run(s, 2, end, ')');
            assert(s.subrange(1, end) =~= a);
        },
    }
}

/// Reading what was written gives back the tokens that were written: the
/// same bare words, emails and asides, in the same order.
pub proof fn lemma_tokens_of_written(ts: Seq<Token>)
    requires
        all_can_be_written(ts),
    ensures
        tokens(written_tokens(ts), 0) == ts,
    decreases ts.len(),
{
    if ts.len() == 0 {
        assert(tokens(written_tokens(ts), 0) =~= ts);
    } else {
        let t = ts[0];
        let w = written_token(t);
        assert(can_be_written(t));
        if ts.len() == 1 {
            let none = Seq::<char>::empty();
            lemma_first_token(t, none);
            assert(w + none =~= w);
            assert(tokens(w, w.len() as int) =~= Seq::<Token>::empty());
            assert(seq![t] + Seq::<Token>::empty() =~= ts);
        } else {
            let others = ts.drop_first();
            assert(all_can_be_written(others)) by {
                assert forall|i: int| 0 <= i < others.len() implies can_be_written(
                    #[trigger] others[i],
                ) by {
                    assert(others[i] == ts[i + 1]);
                }
            }
            lemma_tokens_of_written(others);
            let tail = written_tokens(others);
            let rest = seq![' '] + tail;
            let s = w + rest;
            assert(written_tokens(ts) =~= s);
            assert(rest[0] == ' ');
            assert(is_white_space(' '));
            lemma_first_token(t, rest);
            assert(s[w.len() as int] == ' ');
            assert(is_white_space(' '));
            assert(tokens(s, w.len() as int) == tokens(s, w.len() as int + 1));
            assert(s =~= (w + seq![' ']) + tail);
            lemma_tokens_shift(w + seq![' '], tail, 0);
            assert(seq![t] + others =~= ts);
        }
    }
}

/// Whether a sequence of characters is white space throughout.
pub open spec fn is_gap(gap: Seq<char>) -> bool {
    forall|i: int| 0 <= i < gap.len() ==> is_white_space(#[trigger] gap[i])
}

/// Whether gaps fit tokens: there is one before each token and one after
/// the last, each of them white space throughout, and two bare words have
/// at least one character between them.
pub open spec fn gaps_fit(ts: Seq<Token>, gaps: Seq<Seq<char>>) -> bool {
    &&& gaps.len() == ts.len() + 1
    &&& forall|i: int| 0 <= i < gaps.len() ==> is_gap(#[trigger] gaps[i])
    &&& forall|i: int|
        0 < i < ts.len() && ts[i - 1] is Name && ts[i] is Name ==> (#[trigger] gaps[i]).len() > 0
}

/// Tokens as they are written with any white space around them: a gap, and
/// then each token with the next gap behind it.
pub open spec fn spaced_tokens(ts: Seq<Token>, gaps: Seq<Seq<char>>) -> Seq<char>
    recommends
        gaps.len() == ts.len() + 1,
    decreases ts.len(),
{
    if ts.len() == 0 {
        gaps[0]
    } else {
        gaps[0] + written_token(ts[0]) + spaced_tokens(ts.drop_first(), gaps.drop_first())
    }
}

/// The scan passes over white space.
proof fn lemma_gap_is_passed(gap: Seq<char>, rest: Seq<char>)
    requires
        is_gap(gap),
    ensures
        tokens(gap + rest, 0) == tokens(rest, 0),
    decreases gap.len(),
{
    if gap.len() == 0 {
        assert(gap + rest =~= rest);
    } else {
        let s = gap + rest;
        let head = seq![gap[0]];
        let tail = gap.drop_first() + rest;
        assert(s[0] == gap[0]);
        assert(is_white_space(gap[0]));
        assert(s =~= head + tail);
        lemma_tokens_shift(head, tail, 0);
        assert(is_gap(gap.drop_first())) by {
            assert forall|i: int| 0 <= i < gap.drop_first().len() implies is_white_space(
                #[trigger] gap.drop_first()[i],
            ) by {
                assert(gap.drop_first()[i] == gap[i + 1]);
            }
        }
        lemma_gap_is_passed(gap.drop_first(), rest);
    }
}

/// Whatever the white space between them, reading what was written gives
/// back the tokens that were written.
pub proof fn lemma_tokens_of_spaced(ts: Seq<Token>, gaps: Seq<Seq<char>>)
    requires
        all_can_be_written(ts),
        gaps_fit(ts, gaps),
    ensures
        tokens(spaced_tokens(ts, gaps), 0) == ts,
    decreases ts.len(),
{
    assert(is_gap(gaps[0]));
    if ts.len() == 0 {
        let none = Seq::<char>::empty();
        lemma_gap_is_passed(gaps[0], none);
        assert(gaps[0] + none =~= gaps[0]);
        assert(tokens(none, 0) =~= ts);
    } else {
        let t = ts[0];
        let w = written_token(t);
        let others = ts.drop_first();
        let later = gaps.drop_first();
        let tail = spaced_tokens(others, later);
        assert(can_be_written(t));
        assert(all_can_be_written(others)) by {
            assert forall|i: int| 0 <= i < others.len() implies can_be_written(
                #[trigger] others[i],
            ) by {
                assert(others[i] == ts[i + 1]);
            }
        }
        assert(gaps_fit(others, later)) by {
            assert forall|i: int| 0 <= i < later.len() implies is_gap(#[trigger] later[i]) by {
                assert(later[i] == gaps[i + 1]);
            }
            assert forall|i: int|
                0 < i < others.len() && others[i - 1] is Name && others[i] is Name implies (
            #[trigger] later[i]).len() > 0 by {
                assert(others[i - 1] == ts[i]);
                assert(others[i] == ts[i + 1]);
                assert(later[i] == gaps[i + 1]);
            }
        }
        lemma_tokens_of_spaced(others, later);
        assert(spaced_tokens(ts, gaps) =~= gaps[0] + (w + tail));
        lemma_gap_is_passed(gaps[0], w + tail);
        if t is Name && tail.len() > 0 {
            assert(later[0] == gaps[1]);
            assert(is_gap(gaps[1]));
            if gaps[1].len() > 0 {
                assert(is_white_space(gaps[1][0]));
                assert(tail[0] == gaps[1][0]);
            } else {
                assert(others.len() > 0);
                assert(others[0] == ts[1]);
                assert(!(ts[1] is Name));
                assert(can_be_written(ts[1]));
                assert(tail =~= written_token(others[0]) + spaced_tokens(
                    others.drop_first(),
                    later.drop_first(),
                ));
                assert(tail[0] == written_token(others[0])[0]);
                assert(tail[0] == '<' || tail[0] == '(');
            }
        }
        lemma_first_token(t, tail);
        lemma_tokens_shift(w, tail, 0);
        assert(seq![t] + others =~= ts);
    }
}

/// A string in the usual form names one author, whatever the white space in
/// it: the name is the bare words joined by single spaces, and the email is
/// the first one in angle brackets.
pub proof fn lemma_spaced_form_is_read(ts: Seq<Token>, gaps: Seq<Seq<char>>)
    requires
        all_can_be_written(ts),
        gaps_fit(ts, gaps),
        names_of(ts).len() > 0,
    ensures
        author_of(spaced_tokens(ts, gaps)) == Some(
            AuthorView { name: joined(names_of(ts), seq![' ']), email: first_email(ts) },
        ),
{
    lemma_tokens_of_spaced(ts, gaps);
}

/// The first email among tokens is the one before which no email stands.
pub proof fn lemma_first_email_found(ts: Seq<Token>, k: int)
    requires
        0 <= k < ts.len(),
        ts[k] is Email,
        forall|j: int| 0 <= j < k ==> !(#[trigger] ts[j] is Email),
    ensures
        first_email(ts) == Some(ts[k]->Email_0),
    decreases ts.len(),
{
    if k > 0 {
        assert(!(ts[0] is Email));
        let others = ts.drop_first();
        assert(others[k - 1] == ts[k]);
        assert forall|j: int| 0 <= j < k - 1 implies !(#[trigger] others[j] is Email) by {
            assert(others[j] == ts[j + 1]);
        }
        lemma_first_email_found(others, k - 1);
    }
}

/// A string in the usual form names one author. Whatever the order in which
/// its bare words, its emails in angle brackets and its asides in
/// parentheses stand, with one space between each two: the author's name is
/// the bare words joined by single spaces, and the email is the first one
/// in angle brackets.
pub proof fn lemma_usual_form_is_read(ts: Seq<Token>)
    requires
        all_can_be_written(ts),
        names_of(ts).len() > 0,
    ensures
        author_of(written_tokens(ts)) == Some(
            AuthorView { name: joined(names_of(ts), seq![' ']), email: first_email(ts) },
        ),
{
    lemma_tokens_of_written(ts);
}

/// A string without a bare word names nobody, whatever else it holds.
pub proof fn lemma_no_word_no_author(ts: Seq<Token>)
    requires
        all_can_be_written(ts),
        names_of(ts).len() == 0,
    ensures
        author_of(written_tokens(ts)) is None,
{
    lemma_tokens_of_written(ts);
}

/// Whether a sequence of characters is a bare word: it has a character, and
/// holds neither white space nor a bracket.
pub open spec fn is_word(n: Seq<char>) -> bool {
    n.len() > 0 && forall|i: int| 0 <= i < n.len() ==> is_name_char(#[trigger] n[i])
}

/// Whether every member of a list is a bare word.
pub open spec fn all_words(names: Seq<Seq<char>>) -> bool {
    forall|k: int| 0 <= k < names.len() ==> is_word(#[trigger] names[k])
}

/// The scan takes nothing for a name but a bare word.
proof fn lemma_names_are_words(s: Seq<char>, i: int)
    requires
        0 <= i,
    ensures
        all_words(names_of(tokens(s, i))),
    decreases s.len() - i,
{
    let ts = tokens(s, i);
    if i >= s.len() {
        assert(names_of(ts) =~= Seq::<Seq<char>>::empty());
    } else if is_name_char(s[i]) {
        let j = name_end(s, i + 1);
        lemma_name_end_bounds(s, i + 1);
        lemma_names_are_words(s, j);
        let word = s.subrange(i, j);
        assert(is_word(word)) by {
            assert forall|k: int| 0 <= k < word.len() implies is_name_char(#[trigger] word[k]) by {
                assert(word[k] == s[i + k]);
            }
        }
        assert(ts.drop_first() =~= tokens(s, j));
        assert(names_of(ts) == seq![word] + names_of(tokens(s, j)));
    } else if s[i] == '<' || s[i] == '(' {
        let close = if s[i] == '<' {
            '>'
        } else {
            ')'
        };
        match span_close(s, i, close) {
            Some(k) => {
                lemma_close_from_bounds(s, i + 2, close);
                lemma_names_are_words(s, k + 1);
                assert(ts.drop_first() =~= tokens(s, k + 1));
            },
            None => {
                lemma_names_are_words(s, i + 1);
            },
        }
    } else {
        lemma_names_are_words(s, i + 1);
    }
}

/// Bare words joined by spaces begin with the first character of the first
/// and end with the last character of the last.
proof fn lemma_joined_words(names: Seq<Seq<char>>)
    requires
        names.len() > 0,
        all_words(names),
    ensures
        joined(names, seq![' ']).len() > 0,
        joined(names, seq![' '])[0] == names[0][0],
        joined(names, seq![' ']).last() == names.last().last(),
    decreases names.len(),
{
    assert(is_word(names[0]));
    assert(is_word(names.last()));
    if names.len() > 1 {
        let before = names.drop_last();
        assert(all_words(before)) by {
            assert forall|k: int| 0 <= k < before.len() implies is_word(#[trigger] before[k]) by {
                assert(before[k] == names[k]);
            }
        }
        lemma_joined_words(before);
        assert(before[0] == names[0]);
    }
}

/// The name of an author that was read from free text is never empty, and
/// has no white space at either end: to trim it changes nothing.
pub proof fn lemma_name_is_trimmed(text: Seq<char>)
    ensures
        author_of(text) matches Some(author) ==> author.name.len() > 0 && trimmed(author.name)
            == author.name,
{
    let names = names_of(tokens(text, 0));
    if names.len() > 0 {
        lemma_names_are_words(text, 0);
        lemma_joined_words(names);
        let name = joined(names, seq![' ']);
        assert(is_word(names[0]));
        assert(is_word(names.last()));
        assert(!is_white_space(name[0]));
        assert(!is_white_space(name.last()));
        assert(skip_space(name) == name);
        assert(drop_space(name) == name);
    }
}

} // verus!
