use licer::author::parse_author;
use regex::Regex;

fn parsed(text: &str) -> Option<(String, Option<String>)> {
    parse_author(text).map(|author| (author.name, author.email))
}

fn named(name: &str, email: Option<&str>) -> Option<(String, Option<String>)> {
    Some((name.to_owned(), email.map(|e| e.to_owned())))
}

/// The same reading by a pattern: three alternatives, tried at each place
/// from left to right.
fn by_pattern(pattern: &Regex, text: &str) -> Option<(String, Option<String>)> {
    let mut name = String::new();
    let mut email: Option<String> = None;
    for found in pattern.captures_iter(text) {
        if let Some(word) = found.name("name") {
            name.push_str(word.as_str());
            name.push(' ');
        } else if let Some(address) = found.name("email") {
            if email.is_none() {
                email = Some(address.as_str().to_owned());
            }
        }
    }
    let name = name.trim().to_owned();
    if name.is_empty() {
        None
    } else {
        Some((name, email))
    }
}

fn author_pattern() -> Regex {
    Regex::new(r"(?P<name>[^<>()\s]+)|(?:<(?P<email>.+?)>)|(?:\(.+?\))").unwrap()
}

#[test]
fn email_alone_names_nobody() {
    assert_eq!(parsed("<a@b.com>"), None);
}

#[test]
fn aside_stands_between_name_and_email() {
    assert_eq!(
        parsed("John Appleseed (https://johnny.com) <john@x.us>"),
        named("John Appleseed", Some("john@x.us"))
    );
}

#[test]
fn usual_form_in_every_order() {
    let wanted = named("John Doe", Some("john@x.com"));
    assert_eq!(parsed("John Doe <john@x.com> (https://x.com)"), wanted);
    assert_eq!(parsed("John Doe (https://x.com) <john@x.com>"), wanted);
    assert_eq!(parsed("<john@x.com> John Doe (https://x.com)"), wanted);
    assert_eq!(parsed("(https://x.com) John Doe <john@x.com>"), wanted);
    assert_eq!(parsed("<john@x.com> (https://x.com) John Doe"), wanted);
    assert_eq!(parsed("(https://x.com) <john@x.com> John Doe"), wanted);
    assert_eq!(parsed("John <john@x.com> Doe (https://x.com)"), wanted);
    assert_eq!(parsed("John (https://x.com) <john@x.com> Doe"), wanted);
}

#[test]
fn no_brackets_gives_the_whole_string_as_name() {
    assert_eq!(parsed("Jane"), named("Jane", None));
    assert_eq!(parsed("  Jane   van \t Doe \n"), named("Jane van Doe", None));
}

#[test]
fn nothing_names_nobody() {
    assert_eq!(parsed(""), None);
    assert_eq!(parsed("   \t\n"), None);
    assert_eq!(parsed("(an aside)"), None);
    assert_eq!(parsed("(an aside) <a@b.c>"), None);
    assert_eq!(parsed("<>()"), None);
}

#[test]
fn aside_is_left_out_whatever_it_holds() {
    assert_eq!(parsed("Jane (not an address) Doe"), named("Jane Doe", None));
    assert_eq!(parsed("Jane (<a@b.c>) Doe"), named("Jane Doe", None));
    assert_eq!(parsed("Jane(Doe)"), named("Jane", None));
}

#[test]
fn first_email_is_kept() {
    assert_eq!(parsed("Jane <a@b.c> <d@e.f>"), named("Jane", Some("a@b.c")));
    assert_eq!(parsed("<a@b.c> Jane <d@e.f> Doe"), named("Jane Doe", Some("a@b.c")));
}

#[test]
fn span_needs_its_closing_bracket_on_the_same_line() {
    assert_eq!(parsed("Jane <a@b.c"), named("Jane a@b.c", None));
    assert_eq!(parsed("Jane (home"), named("Jane home", None));
    assert_eq!(parsed("Jane <a\nb>"), named("Jane a b", None));
    assert_eq!(parsed("Jane <> Doe"), named("Jane Doe", None));
    assert_eq!(parsed("Jane <>> Doe"), named("Jane Doe", Some(">")));
    assert_eq!(parsed("Jane <a b> Doe"), named("Jane Doe", Some("a b")));
    assert_eq!(parsed("Jane <<a>"), named("Jane", Some("<a")));
}

#[test]
fn name_may_hold_any_other_character() {
    assert_eq!(parsed("Zo\u{eb} O'Neil-\u{5b8b}"), named("Zo\u{eb} O'Neil-\u{5b8b}", None));
    assert_eq!(parsed("A\u{a0}B\u{3000}C"), named("A B C", None));
}

#[test]
fn name_has_no_space_around_it() {
    for text in ["  a  ", "\ta b\n", "a (x) ", " <e> a"] {
        let (name, _) = parsed(text).unwrap();
        assert_eq!(name.trim(), name);
        assert!(!name.is_empty());
    }
}

fn word(mut code: usize, letters: &[char], length: usize) -> String {
    let mut text = String::new();
    for _ in 0..length {
        text.push(letters[code % letters.len()]);
        code /= letters.len();
    }
    text
}

#[test]
fn reads_every_short_string_as_the_pattern_does() {
    let pattern = author_pattern();
    let letters = ['a', ' ', '<', '>', '(', ')', '\n', '@'];
    for length in 0..6 {
        let mut count: usize = 1;
        for _ in 0..length {
            count *= letters.len();
        }
        for code in 0..count {
            let text = word(code, &letters, length);
            assert_eq!(parsed(&text), by_pattern(&pattern, &text), "{:?}", text);
        }
    }
}

#[test]
fn reads_longer_strings_as_the_pattern_does() {
    let pattern = author_pattern();
    let letters = [
        'J', 'o', ' ', ' ', '<', '>', '(', ')', '\n', '\t', '\r', '\u{a0}', '\u{2028}', '\u{e9}',
        '.', '@',
    ];
    let mut seed: u64 = 0x2545_f491_4f6c_dd1d;
    for _ in 0..4000 {
        let mut text = String::new();
        seed = seed.wrapping_mul(6364136223846793005).wrapping_add(1442695040888963407);
        let length = 6 + (seed >> 60) as usize;
        for _ in 0..length {
            seed = seed.wrapping_mul(6364136223846793005).wrapping_add(1442695040888963407);
            text.push(letters[(seed >> 33) as usize % letters.len()]);
        }
        assert_eq!(parsed(&text), by_pattern(&pattern, &text), "{:?}", text);
    }
}

#[test]
fn reads_a_long_string_in_good_time() {
    let mut text = String::new();
    for _ in 0..4000 {
        text.push_str("word (aside) ");
    }
    text.push_str("<e@x>");
    let (name, email) = parsed(&text).unwrap();
    assert_eq!(name.len(), 4000 * 5 - 1);
    assert_eq!(email, Some("e@x".to_owned()));
}

#[test]
fn takes_each_character_as_the_pattern_does() {
    let pattern = author_pattern();
    let mut code: u32 = 0;
    while code <= 0x10ffff {
        if let Some(c) = char::from_u32(code) {
            let text: String = ['a', c, 'b', '<', c, 'c', '>', '(', c, ')'].iter().collect();
            assert_eq!(parsed(&text), by_pattern(&pattern, &text), "{:x}", code);
        }
        code += if code < 0x3100 { 1 } else { 89 };
    }
}
