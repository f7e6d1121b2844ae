use runrust::text::{chars_of, decimal_string, replace_chars, string_of, trimmed, is_whitespace_char};

fn replaced(s: &str, pat: &str, to: &str) -> String {
    string_of(&replace_chars(&chars_of(s), &chars_of(pat), &chars_of(to)))
}

#[test]
fn chars_round_trip() {
    let s = "héllo, wörld ✓";
    assert_eq!(string_of(&chars_of(s)), s);
    assert_eq!(chars_of(s).len(), s.chars().count());
}

#[test]
fn replace_matches_the_standard_replace() {
    let cases = [
        ("ls {{.root}}/data", "{{.root}}", "/srv"),
        ("aaaa", "aa", "b"),
        ("aaa", "aa", "b"),
        ("abcabc", "bc", ""),
        ("abc", "abcd", "x"),
        ("", "a", "b"),
        ("xyz", "z", "zz"),
        ("ababab", "aba", "-"),
    ];
    for (s, pat, to) in cases {
        assert_eq!(replaced(s, pat, to), s.replace(pat, to));
    }
}

#[test]
fn replace_with_an_empty_pattern_changes_nothing() {
    assert_eq!(replaced("abc", "", "x"), "abc");
}

#[test]
fn trim_removes_white_space_at_both_ends() {
    assert_eq!(trimmed("  ok \n"), "ok");
    assert_eq!(trimmed("ok\n"), "ok");
    assert_eq!(trimmed("\t a b \r\n"), "a b");
    assert_eq!(trimmed(" \n\t"), "");
    assert_eq!(trimmed(""), "");
    assert_eq!(trimmed("\u{3000}x\u{a0}"), "x");
}

#[test]
fn white_space_is_what_the_standard_library_calls_white_space() {
    let mut code: u32 = 0;
    while code <= 0x10FFFF {
        if let Some(c) = char::from_u32(code) {
            assert_eq!(is_whitespace_char(c), c.is_whitespace());
        }
        code += 1;
    }
}

#[test]
fn decimal_matches_to_string() {
    for n in [0, 1, -1, 2, 9, 10, 11, 99, 100, 127, -128, 255, 12345, -2147483648, 2147483647] {
        assert_eq!(decimal_string(n), n.to_string());
    }
}

#[test]
fn trim_matches_the_standard_trim() {
    let cases = [
        "",
        " ",
        "a",
        " a",
        "a ",
        "  a  b  ",
        "\n\r\t x \u{2003}\u{85}",
        "\u{feff}x",
        "\u{200b} y \u{200b}",
        "\u{1680}\u{2028}\u{2029}\u{202f}\u{205f}z\u{3000}",
        "line one\nline two\n",
    ];
    for case in cases {
        assert_eq!(trimmed(case), case.trim(), "{:?}", case);
    }
}

#[test]
fn natural_numbers_in_decimal() {
    for n in [0u128, 7, 10, 99, 100, 4096, 18446744073709551615, u128::MAX] {
        assert_eq!(runrust::text::natural_string(n), n.to_string());
    }
}

#[test]
fn extend_appends_all_characters() {
    let mut out = chars_of("ab");
    runrust::text::extend_chars(&mut out, &chars_of("cd"));
    assert_eq!(string_of(&out), "abcd");
    let mut text = String::from("n=");
    runrust::text::push_decimal(&mut text, 42);
    assert_eq!(text, "n=42");
}

#[test]
fn trailing_suffixes_are_counted_off() {
    let name = chars_of("Name");
    assert_eq!(runrust::text::stripped_len(&chars_of("FooName"), &name), 3);
    assert_eq!(runrust::text::stripped_len(&chars_of("FooNameName"), &name), 3);
    assert_eq!(runrust::text::stripped_len(&chars_of("Name"), &name), 0);
    assert_eq!(runrust::text::stripped_len(&chars_of("FooNamed"), &name), 8);
    assert_eq!(runrust::text::stripped_len(&chars_of("Foo"), &chars_of("")), 3);
    for key in ["FooName", "NameNameName", "aNameb", "", "Nam", "xNameNameName"] {
        assert_eq!(
            runrust::text::stripped_len(&chars_of(key), &name),
            key.trim_end_matches("Name").chars().count()
        );
    }
}
