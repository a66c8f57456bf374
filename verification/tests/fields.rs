use jwt_lib::fields::{find_header, is_whitespace, names_match, second_word};

fn pair(name: &str, value: &str) -> (String, String) {
    (name.to_string(), value.to_string())
}

#[test]
fn second_word_of_a_bearer_line() {
    assert_eq!(second_word("Bearer abc.def.ghi"), Some("abc.def.ghi"));
    assert_eq!(second_word("Bearer abc def"), Some("abc"));
    assert_eq!(second_word("x y"), Some("y"));
}

#[test]
fn second_word_is_missing() {
    assert_eq!(second_word("Bearer"), None);
    assert_eq!(second_word(""), None);
    assert_eq!(second_word(" "), None);
    assert_eq!(second_word("Bearer "), None);
    assert_eq!(second_word("  Bearer   "), None);
    assert_eq!(second_word("\t\n"), None);
}

#[test]
fn second_word_skips_runs_of_white_space() {
    assert_eq!(second_word("Bearer  abc"), Some("abc"));
    assert_eq!(second_word("  Bearer abc  "), Some("abc"));
    assert_eq!(second_word("Bearer\tabc"), Some("abc"));
    assert_eq!(second_word("Bearer\u{3000}abc\u{2003}def"), Some("abc"));
    assert_eq!(second_word("\u{a0}é \u{1F600}ß\n"), Some("\u{1F600}ß"));
}

#[test]
fn second_word_agrees_with_std() {
    let lines = [
        "", "a", "a b", " a b", "a  b ", "a\tb\tc", "Bearer tok", "Bearer", "Bearer ", "  ",
        "a\u{85}b", "a\u{1680}b c", "a\u{200a}b", "a\u{200b}b", "a\u{2028}b\u{2029}c",
        "a\u{202f}b", "a\u{205f}b", "a\u{feff}b c", "a\u{b}b\u{c}c\rd", "é ü ñ", "a\u{180e}b c",
        "a\u{1f}b c", "a\u{e}b c", "a\u{8}b c", "a\u{2000}b", "a\u{1fff}b c", "a\u{200b} c",
    ];
    for line in lines {
        assert_eq!(second_word(line), line.split_whitespace().nth(1), "{:?}", line);
    }
}

#[test]
fn whitespace_agrees_with_std() {
    let mut code: u32 = 0;
    while code < 0x3100 {
        if let Some(c) = char::from_u32(code) {
            assert_eq!(is_whitespace(c), c.is_whitespace(), "{:x}", code);
        }
        code += 1;
    }
    assert!(is_whitespace(' '));
    assert!(is_whitespace('\u{3000}'));
    assert!(!is_whitespace('a'));
    assert!(!is_whitespace('\u{10FFFF}'));
}

#[test]
fn names_match_but_for_ascii_case() {
    assert!(names_match("Authorization", "authorization"));
    assert!(names_match("AUTHORIZATION", "authorization"));
    assert!(names_match("authorization", "AuThOrIzAtIoN"));
    assert!(names_match("", ""));
    assert!(names_match("x-é", "X-é"));
}

#[test]
fn names_differ() {
    assert!(!names_match("Authorization", "authorizatio"));
    assert!(!names_match("Authorization", "authorizations"));
    assert!(!names_match("Authorization", "authorisation"));
    assert!(!names_match("k", "\u{212a}"));
    assert!(!names_match("é", "É"));
    assert!(!names_match("@", "`"));
    assert!(!names_match("[", "{"));
    assert!(!names_match("a", ""));
}

#[test]
fn find_header_ignores_case() {
    let headers = vec![pair("Host", "example"), pair("AUTHORIZATION", "Bearer t")];
    assert_eq!(find_header(&headers, "authorization"), Some("Bearer t"));
    assert_eq!(find_header(&headers, "host"), Some("example"));
    assert_eq!(find_header(&headers, "HOST"), Some("example"));
}

#[test]
fn find_header_takes_the_first() {
    let headers = vec![pair("a", "1"), pair("A", "2"), pair("a", "3")];
    assert_eq!(find_header(&headers, "A"), Some("1"));
}

#[test]
fn find_header_finds_nothing() {
    let headers = vec![pair("Host", "example")];
    assert_eq!(find_header(&headers, "authorization"), None);
    assert_eq!(find_header(&Vec::new(), "authorization"), None);
}
