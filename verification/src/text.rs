//! Characters and strings: white space, trimming, joining, replacing and
//! decimal numbers.

use vstd::prelude::*;
use vstd::string::StringExecFns;

verus! {

/// Whether `c` is white space, as Unicode lists it under `White_Space`.
pub open spec fn is_white_space(c: char) -> bool {
    ||| '\u{9}' <= c <= '\u{d}'
    ||| c == ' '
    ||| c == '\u{85}'
    ||| c == '\u{a0}'
    ||| c == '\u{1680}'
    ||| '\u{2000}' <= c <= '\u{200a}'
    ||| c == '\u{2028}'
    ||| c == '\u{2029}'
    ||| c == '\u{202f}'
    ||| c == '\u{205f}'
    ||| c == '\u{3000}'
}

/// Tests a character for white space.
pub fn white_space(c: char) -> (b: bool)
    ensures
        b == is_white_space(c),
{
    ('\u{9}' <= c && c <= '\u{d}') || c == ' ' || c == '\u{85}' || c == '\u{a0}' || c == '\u{1680}'
        || ('\u{2000}' <= c && c <= '\u{200a}') || c == '\u{2028}' || c == '\u{2029}' || c
        == '\u{202f}' || c == '\u{205f}' || c == '\u{3000}'
}

/// Whether two strings hold the same characters.
pub fn same_text(a: &str, b: &str) -> (same: bool)
    ensures
        same == (a@ == b@),
{
    let left = a.to_owned();
    let right = b.to_owned();
    left == right
}

/// The characters of a string, one by one.
pub fn chars_of(s: &str) -> (cs: Vec<char>)
    ensures
        cs@ == s@,
{
    broadcast use vstd::string::group_string_axioms;

    let mut cs: Vec<char> = Vec::new();
    for c in it: s.chars()
        invariant
            it.seq() == s@,
            cs@ == it.seq().take(it.index() as int),
    {
        cs.push(c);
        assert(cs@ =~= it.seq().take(it.index() + 1));
    }
    assert(s@.take(s@.len() as int) =~= s@);
    cs
}

/// Whether `word` stands in `s` at `i`.
pub open spec fn has_at(s: Seq<char>, i: int, word: Seq<char>) -> bool {
    0 <= i && i + word.len() <= s.len() && s.subrange(i, i + word.len()) == word
}

/// Tests whether a word stands at a place of a text.
pub fn starts_at(cs: &Vec<char>, p: usize, key: &str) -> (found: bool)
    ensures
        found == has_at(cs@, p as int, key@),
{
    let word = chars_of(key);
    if p > cs.len() || word.len() > cs.len() - p {
        return false;
    }
    let mut i: usize = 0;
    while i < word.len()
        invariant
            i <= word.len(),
            p + word.len() <= cs.len(),
            word@ == key@,
            cs@.subrange(p as int, p + i) == word@.take(i as int),
        decreases word.len() - i,
    {
        if cs[p + i] != word[i] {
            assert(cs@.subrange(p as int, p + word.len())[i as int] != word@[i as int]);
            return false;
        }
        assert(cs@.subrange(p as int, p + i + 1) =~= cs@.subrange(p as int, p + i).push(
            cs@[p + i],
        ));
        assert(word@.take(i + 1) =~= word@.take(i as int).push(word@[i as int]));
        i += 1;
    }
    assert(word@.take(i as int) =~= word@);
    true
}

/// `s` with `to` in the place of each `from`. The places are found from
/// left to right, and none of them reaches into another. An empty `from`
/// has no place.
pub open spec fn replaced(s: Seq<char>, from: Seq<char>, to: Seq<char>) -> Seq<char>
    decreases s.len(),
{
    if from.len() == 0 || s.len() < from.len() {
        s
    } else if has_at(s, 0, from) {
        to + replaced(s.subrange(from.len() as int, s.len() as int), from, to)
    } else {
        seq![s[0]] + replaced(s.drop_first(), from, to)
    }
}

/// Puts `to` in the place of each `from` in a text.
pub fn replace(text: &str, from: &str, to: &str) -> (changed: String)
    ensures
        changed@ == replaced(text@, from@, to@),
{
    let cs = chars_of(text);
    let n: usize = cs.len();
    let m: usize = from.unicode_len();
    if m == 0 {
        return text.to_owned();
    }
    let mut changed = String::new();
    let mut kept: usize = 0;
    let mut i: usize = 0;
    assert(text@.subrange(0, n as int) =~= text@);
    assert(changed@ + text@.subrange(0, 0) + replaced(text@, from@, to@) =~= replaced(
        text@,
        from@,
        to@,
    ));
    while i < n
        invariant
            n == cs.len(),
            cs@ == text@,
            m == from@.len(),
            m > 0,
            kept <= i <= n,
            replaced(text@, from@, to@) == changed@ + text@.subrange(kept as int, i as int)
                + replaced(text@.subrange(i as int, n as int), from@, to@),
        decreases n - i,
    {
        let ghost rest = text@.subrange(i as int, n as int);
        let ghost done = changed@;
        let ghost pending = text@.subrange(kept as int, i as int);
        if starts_at(&cs, i, from) {
            changed.append(text.substring_char(kept, i));
            changed.append(to);
            proof {
                let after = replaced(text@.subrange(i + m, n as int), from@, to@);
                assert(rest.subrange(0, m as int) =~= text@.subrange(i as int, i + m));
                assert(rest.subrange(m as int, rest.len() as int) =~= text@.subrange(
                    i + m,
                    n as int,
                ));
                assert(replaced(rest, from@, to@) == to@ + after);
                assert(done + pending + (to@ + after) =~= changed@ + text@.subrange(i + m, i + m)
                    + after);
            }
            i += m;
            kept = i;
        } else {
            proof {
                let after = replaced(text@.subrange(i + 1, n as int), from@, to@);
                assert(rest.drop_first() =~= text@.subrange(i + 1, n as int));
                if rest.len() >= m {
                    assert(rest.subrange(0, m as int) =~= text@.subrange(i as int, i + m));
                    assert(replaced(rest, from@, to@) == seq![rest[0]] + after);
                } else {
                    assert(replaced(rest, from@, to@) == rest);
                    assert(after == rest.drop_first());
                    assert(rest =~= seq![rest[0]] + after);
                }
                assert(done + pending + (seq![rest[0]] + after) =~= done + text@.subrange(
                    kept as int,
                    i + 1,
                ) + after);
            }
            i += 1;
        }
    }
    changed.append(text.substring_char(kept, n));
    proof {
        assert(text@.subrange(n as int, n as int) =~= Seq::<char>::empty());
        assert(replaced(Seq::<char>::empty(), from@, to@) =~= Seq::<char>::empty());
        assert(changed@ =~= changed@ + Seq::<char>::empty());
    }
    changed
}

/// The parts in order, with `sep` between each two of them.
pub open spec fn joined(parts: Seq<Seq<char>>, sep: Seq<char>) -> Seq<char>
    decreases parts.len(),
{
    if parts.len() == 0 {
        Seq::empty()
    } else if parts.len() == 1 {
        parts[0]
    } else {
        joined(parts.drop_last(), sep) + sep + parts.last()
    }
}

/// Joins strings with a separator between each two of them.
pub fn join(parts: &Vec<String>, sep: &str) -> (text: String)
    ensures
        text@ == joined(parts.deep_view(), sep@),
{
    let mut text = String::new();
    let mut i: usize = 0;
    while i < parts.len()
        invariant
            i <= parts.len(),
            text@ == joined(parts.deep_view().take(i as int), sep@),
        decreases parts.len() - i,
    {
        let ghost all = parts.deep_view();
        proof {
            assert(all.take(i + 1).drop_last() =~= all.take(i as int));
            assert(all.take(i + 1).last() == parts[i as int]@);
            if i == 1 {
                assert(all.take(1).drop_last() =~= Seq::<Seq<char>>::empty());
            }
        }
        if i > 0 {
            text.append(sep);
        }
        text.append(parts[i].as_str());
        proof {
            if i == 0 {
                assert(text@ =~= parts[0]@);
            } else if i == 1 {
                assert(joined(all.take(1), sep@) == all[0]);
            }
        }
        i += 1;
    }
    assert(parts.deep_view().take(i as int) =~= parts.deep_view());
    text
}

/// `s` without the white space that it begins with.
pub open spec fn skip_space(s: Seq<char>) -> Seq<char>
    decreases s.len(),
{
    if s.len() > 0 && is_white_space(s[0]) {
        skip_space(s.drop_first())
    } else {
        s
    }
}

/// `s` without the white space that it ends with.
pub open spec fn drop_space(s: Seq<char>) -> Seq<char>
    decreases s.len(),
{
    if s.len() > 0 && is_white_space(s.last()) {
        drop_space(s.drop_last())
    } else {
        s
    }
}

/// `s` without the white space at either end.
pub open spec fn trimmed(s: Seq<char>) -> Seq<char> {
    drop_space(skip_space(s))
}

/// Where the part of `cs` between `from` and `to` begins and ends once the
/// white space at either end is left out.
pub fn trim_bounds(cs: &Vec<char>, from: usize, to: usize) -> (bounds: (usize, usize))
    requires
        from <= to <= cs.len(),
    ensures
        from <= bounds.0 <= bounds.1 <= to,
        cs@.subrange(bounds.0 as int, bounds.1 as int) == trimmed(
            cs@.subrange(from as int, to as int),
        ),
{
    let mut a: usize = from;
    while a < to && white_space(cs[a])
        invariant
            from <= a <= to <= cs.len(),
            skip_space(cs@.subrange(from as int, to as int)) == skip_space(
                cs@.subrange(a as int, to as int),
            ),
        decreases to - a,
    {
        assert(cs@.subrange(a as int, to as int).drop_first() =~= cs@.subrange(a + 1, to as int));
        a += 1;
    }
    let mut b: usize = to;
    while b > a && white_space(cs[b - 1])
        invariant
            a <= b <= to <= cs.len(),
            drop_space(cs@.subrange(a as int, to as int)) == drop_space(
                cs@.subrange(a as int, b as int),
            ),
        decreases b - a,
    {
        assert(cs@.subrange(a as int, b as int).drop_last() =~= cs@.subrange(a as int, b - 1));
        b -= 1;
    }
    (a, b)
}

/// Whether `c` is one of the ten digits.
pub open spec fn is_digit(c: char) -> bool {
    '0' <= c <= '9'
}

/// How many digits stand in a row just before `i`.
pub open spec fn digits_before(s: Seq<char>, i: int) -> nat
    decreases i,
{
    if 0 < i <= s.len() && is_digit(s[i - 1]) {
        digits_before(s, i - 1) + 1
    } else {
        0
    }
}

/// Whether no more than `most` digits stand in a row anywhere in `s`.
pub open spec fn digit_runs_fit(s: Seq<char>, most: nat) -> bool {
    forall|i: int| 0 <= i <= s.len() ==> #[trigger] digits_before(s, i) <= most
}

/// Tests whether no more than `most` digits stand in a row in a text.
pub fn digit_runs_within(text: &str, most: usize) -> (fit: bool)
    ensures
        fit == digit_runs_fit(text@, most as nat),
{
    let cs = chars_of(text);
    let mut run: usize = 0;
    let mut i: usize = 0;
    assert(digits_before(cs@, 0) == 0);
    while i < cs.len()
        invariant
            cs@ == text@,
            i <= cs.len(),
            run == digits_before(cs@, i as int),
            run <= i,
            forall|k: int| 0 <= k <= i ==> #[trigger] digits_before(cs@, k) <= most,
        decreases cs.len() - i,
    {
        if '0' <= cs[i] && cs[i] <= '9' {
            run += 1;
        } else {
            run = 0;
        }
        i += 1;
        assert(run == digits_before(cs@, i as int));
        if run > most {
            return false;
        }
    }
    true
}

/// The digit that stands for `d`.
pub open spec fn digit(d: nat) -> char {
    if d == 0 {
        '0'
    } else if d == 1 {
        '1'
    } else if d == 2 {
        '2'
    } else if d == 3 {
        '3'
    } else if d == 4 {
        '4'
    } else if d == 5 {
        '5'
    } else if d == 6 {
        '6'
    } else if d == 7 {
        '7'
    } else if d == 8 {
        '8'
    } else {
        '9'
    }
}

/// A number in decimal digits, without leading zeros.
pub open spec fn decimal(n: nat) -> Seq<char>
    decreases n,
{
    if n < 10 {
        seq![digit(n)]
    } else {
        decimal(n / 10).push(digit(n % 10))
    }
}

/// The digit that stands for `d`, as a text.
fn digit_text(d: u64) -> (text: &'static str)
    requires
        d < 10,
    ensures
        text@ == seq![digit(d as nat)],
{
    proof {
        reveal_strlit("0");
        reveal_strlit("1");
        reveal_strlit("2");
        reveal_strlit("3");
        reveal_strlit("4");
        reveal_strlit("5");
        reveal_strlit("6");
        reveal_strlit("7");
        reveal_strlit("8");
        reveal_strlit("9");
    }
    let text = if d == 0 {
        "0"
    } else if d == 1 {
        "1"
    } else if d == 2 {
        "2"
    } else if d == 3 {
        "3"
    } else if d == 4 {
        "4"
    } else if d == 5 {
        "5"
    } else if d == 6 {
        "6"
    } else if d == 7 {
        "7"
    } else if d == 8 {
        "8"
    } else {
        "9"
    };
    assert(text@ =~= seq![digit(d as nat)]);
    text
}

/// Writes a number in decimal digits.
pub fn decimal_text(n: u64) -> (text: String)
    ensures
        text@ == decimal(n as nat),
    decreases n,
{
    if n < 10 {
        String::from_str(digit_text(n))
    } else {
        let mut text = decimal_text(n / 10);
        text.append(digit_text(n % 10));
        assert(text@ =~= decimal((n / 10) as nat).push(digit((n % 10) as nat)));
        text
    }
}

} // verus!
