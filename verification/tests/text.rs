use lazyprop::text::{bool_word, push_decimal, push_text, trim};

#[test]
fn trim_takes_white_space_from_both_ends() {
    assert_eq!(trim("  abc  "), "abc");
    assert_eq!(trim("\t\n abc def \r\n"), "abc def");
    assert_eq!(trim("abc"), "abc");
    assert_eq!(trim(""), "");
    assert_eq!(trim("   "), "");
    assert_eq!(trim(" a"), "a");
    assert_eq!(trim("a "), "a");
}

#[test]
fn trim_knows_white_space_beyond_ascii() {
    assert_eq!(trim("\u{a0}\u{3000}k\u{e9}y\u{2003}"), "k\u{e9}y");
    assert_eq!(trim("\u{200b}x"), "\u{200b}x");
}

#[test]
fn trim_agrees_with_the_standard_library() {
    for text in ["", " ", "a", " a b ", "\n\nx\t", "\u{2028}y z\u{85}", "  \u{feff} "] {
        assert_eq!(trim(text), text.trim());
    }
}

#[test]
fn decimal_numerals() {
    for (n, expected) in [
        (0usize, "0"),
        (9, "9"),
        (10, "10"),
        (99, "99"),
        (100, "100"),
        (1_000_000, "1000000"),
    ] {
        let mut out = String::new();
        push_decimal(&mut out, n);
        assert_eq!(out, expected);
    }
    let mut out = String::from("n=");
    push_decimal(&mut out, usize::MAX);
    assert_eq!(out, format!("n={}", usize::MAX));
}

#[test]
fn text_is_appended() {
    let mut out = String::from("ab");
    push_text(&mut out, "cd");
    push_text(&mut out, "");
    assert_eq!(out, "abcd");
}

#[test]
fn truth_values_as_words() {
    assert_eq!(bool_word(true), "true");
    assert_eq!(bool_word(false), "false");
}
