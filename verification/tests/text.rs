use licer::text::{
    chars_of, decimal_text, digit_runs_within, join, replace, same_text, trim_bounds, white_space,
};

#[test]
fn white_space_is_what_the_standard_library_calls_so() {
    for code in 0..=0x10ffff_u32 {
        if let Some(c) = char::from_u32(code) {
            assert_eq!(white_space(c), c.is_whitespace(), "{:x}", code);
        }
    }
}

#[test]
fn characters_of_a_string() {
    assert_eq!(chars_of(""), Vec::<char>::new());
    assert_eq!(chars_of("a\u{e9}\u{5b8b}"), vec!['a', '\u{e9}', '\u{5b8b}']);
}

#[test]
fn same_text_compares_characters() {
    assert!(same_text("mit", "mit"));
    assert!(!same_text("mit", "mit "));
    assert!(same_text("", ""));
}

#[test]
fn joins_with_the_separator_between() {
    assert_eq!(join(&Vec::new(), ", "), "");
    assert_eq!(join(&vec!["a".to_owned()], ", "), "a");
    assert_eq!(join(&vec!["a".to_owned(), "b".to_owned(), "c".to_owned()], ", "), "a, b, c");
    assert_eq!(join(&vec!["".to_owned(), "".to_owned()], "-"), "-");
}

#[test]
fn decimal_digits_of_a_number() {
    assert_eq!(decimal_text(0), "0");
    assert_eq!(decimal_text(7), "7");
    assert_eq!(decimal_text(10), "10");
    assert_eq!(decimal_text(2025), "2025");
    assert_eq!(decimal_text(u64::MAX), "18446744073709551615");
    for n in 0..3000_u64 {
        assert_eq!(decimal_text(n), n.to_string());
    }
}

#[test]
fn trims_between_bounds() {
    let cs = chars_of("ab  cd \t e  ");
    assert_eq!(trim_bounds(&cs, 0, cs.len()), (0, 10));
    assert_eq!(trim_bounds(&cs, 2, 7), (4, 6));
    assert_eq!(trim_bounds(&cs, 2, 4), (4, 4));
    assert_eq!(trim_bounds(&cs, 3, 3), (3, 3));
}

#[test]
fn replaces_from_left_to_right() {
    assert_eq!(replace("{\n    \"a\": {\n        \"b\": 1\n    }\n}", "    ", "\t"), "{\n\t\"a\": {\n\t\t\"b\": 1\n\t}\n}");
    assert_eq!(replace("aaaaa", "aa", "b"), "bba");
    assert_eq!(replace("abc", "abcd", "x"), "abc");
    assert_eq!(replace("", "a", "x"), "");
    assert_eq!(replace("abab", "ab", ""), "");
    assert_eq!(replace("abab", "", "x"), "abab");
}

#[test]
fn replaces_as_the_standard_library_does() {
    let letters = ['a', 'b', ' '];
    for length in 0..9 {
        let mut count: usize = 1;
        for _ in 0..length {
            count *= letters.len();
        }
        for code in 0..count {
            let mut text = String::new();
            let mut rest = code;
            for _ in 0..length {
                text.push(letters[rest % letters.len()]);
                rest /= letters.len();
            }
            for from in ["a", "ab", "aa", "  ", "aba"] {
                assert_eq!(replace(&text, from, "\t"), text.replace(from, "\t"), "{:?}", text);
            }
        }
    }
}

#[test]
fn counts_digits_in_a_row() {
    assert!(digit_runs_within("", 0));
    assert!(digit_runs_within("abc", 0));
    assert!(!digit_runs_within("a1", 0));
    assert!(digit_runs_within("12.345,67", 3));
    assert!(!digit_runs_within("12.3456,7", 3));
    assert!(!digit_runs_within("1234", 3));
    assert!(digit_runs_within("123a456", 3));
    assert!(digit_runs_within("\u{661}\u{662}\u{663}\u{664}", 3));
}
