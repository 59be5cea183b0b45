use guessing_game::input::parse_guess;

#[test]
fn normalization_yields_the_same_guess() {
    assert_eq!(parse_guess("42\n"), Some(42));
    assert_eq!(parse_guess(" 42"), Some(42));
    assert_eq!(parse_guess("42"), Some(42));
}

#[test]
fn normalization_handles_tabs_and_crlf() {
    assert_eq!(parse_guess("\t42\r\n"), Some(42));
    assert_eq!(parse_guess("  7  "), Some(7));
}

#[test]
fn normalization_strips_unicode_whitespace() {
    assert_eq!(parse_guess("\u{a0}42"), Some(42));
    assert_eq!(parse_guess("\u{3000}42\u{2028}"), Some(42));
    assert_eq!(parse_guess("42\u{85}"), Some(42));
    assert_eq!(parse_guess("\u{2009}\u{202f}9\u{1680}"), Some(9));
    assert_eq!(parse_guess("\u{a0}\u{2000}"), None);
}

#[test]
fn plus_sign_is_accepted() {
    assert_eq!(parse_guess("+42"), Some(42));
    assert_eq!(parse_guess("+0"), Some(0));
    assert_eq!(parse_guess("+"), None);
    assert_eq!(parse_guess("++1"), None);
}

#[test]
fn empty_and_blank_lines_are_rejected() {
    assert_eq!(parse_guess(""), None);
    assert_eq!(parse_guess("   "), None);
    assert_eq!(parse_guess("\n"), None);
}

#[test]
fn non_numeric_text_is_rejected() {
    assert_eq!(parse_guess("abc"), None);
    assert_eq!(parse_guess("4 2"), None);
    assert_eq!(parse_guess("-1"), None);
    assert_eq!(parse_guess("4.2"), None);
    assert_eq!(parse_guess("42x"), None);
}

#[test]
fn leading_zeros_are_accepted() {
    assert_eq!(parse_guess("042"), Some(42));
    assert_eq!(parse_guess("000"), Some(0));
}

#[test]
fn values_outside_u32_are_rejected() {
    assert_eq!(parse_guess("4294967295"), Some(u32::MAX));
    assert_eq!(parse_guess("4294967296"), None);
    assert_eq!(parse_guess("99999999999999999999"), None);
}

#[test]
fn parse_agrees_with_std() {
    for line in [
        "42\n",
        " 42",
        "+42",
        "abc",
        "",
        "4294967295",
        "4294967296",
        "042",
        "  9  ",
        "4 2",
        "\u{a0}42\u{3000}",
        "\u{85}7\u{2028}",
    ] {
        assert_eq!(parse_guess(line), line.trim().parse::<u32>().ok(), "line {:?}", line);
    }
}
