use licer::read_git;
use regex::Regex;

fn listed(text: &str) -> Option<(String, Option<String>)> {
    read_git(text.to_owned()).map(|author| (author.name, author.email))
}

fn user(name: &str, email: Option<&str>) -> Option<(String, Option<String>)> {
    Some((name.to_owned(), email.map(|e| e.to_owned())))
}

/// The same reading by a pattern.
fn by_settings(pattern: &Regex, text: &str) -> Option<(String, Option<String>)> {
    let mut name = String::new();
    let mut email: Option<String> = None;
    for found in pattern.captures_iter(text) {
        if let Some(value) = found.name("name") {
            name.push_str(value.as_str().trim());
        } else if let Some(value) = found.name("email") {
            email = Some(value.as_str().to_owned());
        }
    }
    if name.is_empty() {
        None
    } else {
        Some((name, email))
    }
}

fn settings_pattern() -> Regex {
    Regex::new(r"(?m)(?:user\.name\s+)(?P<name>.+)|(?:user\.email\s+)(?P<email>.+)").unwrap()
}

#[test]
fn name_and_email_of_the_user() {
    assert_eq!(
        listed("user.name Jane Janes\nuser.email jane@x.net\n"),
        user("Jane Janes", Some("jane@x.net"))
    );
}

#[test]
fn other_settings_are_passed_over() {
    assert_eq!(
        listed("core.editor vim\nuser.email j@x.net\nuser.name J\ncore.bare false"),
        user("J", Some("j@x.net"))
    );
}

#[test]
fn no_name_no_user() {
    assert_eq!(listed(""), None);
    assert_eq!(listed("user.email jane@x.net"), None);
    assert_eq!(listed("user.name"), None);
    assert_eq!(listed("user.name   "), None);
    assert_eq!(listed("user.nameJane"), None);
}

#[test]
fn name_is_trimmed_and_email_is_not() {
    assert_eq!(
        listed("user.name \t Jane  \r\nuser.email  j@x.net \r\n"),
        user("Jane", Some("j@x.net \r"))
    );
}

#[test]
fn names_add_up_and_the_last_email_stays() {
    assert_eq!(
        listed("user.name Ja\nuser.email a@x\nuser.name ne\nuser.email b@x"),
        user("Jane", Some("b@x"))
    );
}

#[test]
fn value_may_begin_on_the_next_line() {
    assert_eq!(listed("user.name\n  Jane"), user("Jane", None));
}

#[test]
fn value_runs_to_the_end_of_its_line() {
    assert_eq!(
        listed("user.name Jane user.email j@x.net"),
        user("Jane user.email j@x.net", None)
    );
}

#[test]
fn white_space_at_the_end_gives_back_one_character() {
    assert_eq!(listed("user.name Jane\nuser.email  "), user("Jane", Some(" ")));
    assert_eq!(listed("user.name Jane\nuser.email \t\n\n"), user("Jane", Some("\t")));
    assert_eq!(listed("user.name Jane\nuser.email \n"), user("Jane", None));
}

#[test]
fn reads_every_short_listing_as_the_pattern_does() {
    let pattern = settings_pattern();
    let pieces = ["user.name", "user.email", " ", "\n", "x", "\t", "\r", "user."];
    for length in 0..6 {
        let mut count: usize = 1;
        for _ in 0..length {
            count *= pieces.len();
        }
        for code in 0..count {
            let mut text = String::new();
            let mut rest = code;
            for _ in 0..length {
                text.push_str(pieces[rest % pieces.len()]);
                rest /= pieces.len();
            }
            assert_eq!(listed(&text), by_settings(&pattern, &text), "{:?}", text);
        }
    }
}

#[test]
fn lists_each_character_as_the_pattern_does() {
    let pattern = settings_pattern();
    let mut code: u32 = 0;
    while code <= 0x10ffff {
        if let Some(c) = char::from_u32(code) {
            let mut text = String::from("user.name");
            text.push(c);
            text.push('x');
            text.push(c);
            text.push_str("user.email y");
            text.push(c);
            text.push(c);
            assert_eq!(listed(&text), by_settings(&pattern, &text), "{:x}", code);
        }
        code += if code < 0x3100 { 1 } else { 89 };
    }
}
