use archive_api::pages::parse_page_or_one;

#[test]
fn plain_numbers_parse() {
    assert_eq!(parse_page_or_one("1"), 1);
    assert_eq!(parse_page_or_one("42"), 42);
    assert_eq!(parse_page_or_one("007"), 7);
    assert_eq!(parse_page_or_one("0"), 0);
}

#[test]
fn a_leading_plus_sign_is_accepted() {
    assert_eq!(parse_page_or_one("+7"), 7);
    assert_eq!(parse_page_or_one("+0"), 0);
}

#[test]
fn empty_and_sign_only_fall_back_to_one() {
    assert_eq!(parse_page_or_one(""), 1);
    assert_eq!(parse_page_or_one("+"), 1);
    assert_eq!(parse_page_or_one("++1"), 1);
}

#[test]
fn stray_characters_fall_back_to_one() {
    assert_eq!(parse_page_or_one("abc"), 1);
    assert_eq!(parse_page_or_one("12x"), 1);
    assert_eq!(parse_page_or_one(" 3"), 1);
    assert_eq!(parse_page_or_one("3 "), 1);
    assert_eq!(parse_page_or_one("-3"), 1);
    assert_eq!(parse_page_or_one("4.5"), 1);
}

#[test]
fn non_ascii_digits_fall_back_to_one() {
    assert_eq!(parse_page_or_one("\u{ff11}\u{ff12}"), 1);
}

#[test]
fn the_largest_page_number_parses() {
    assert_eq!(parse_page_or_one("18446744073709551615"), usize::MAX);
}

#[test]
fn overflow_falls_back_to_one() {
    assert_eq!(parse_page_or_one("18446744073709551616"), 1);
    assert_eq!(parse_page_or_one("99999999999999999999999999"), 1);
}

#[test]
fn parse_agrees_with_std() {
    let cases = ["", "+", "0", "42", "+42", "007", " 7", "7 ", "-1", "12x", "18446744073709551615", "18446744073709551616"];
    for s in cases {
        assert_eq!(parse_page_or_one(s), s.parse::<usize>().unwrap_or(1), "case {s:?}");
    }
}
