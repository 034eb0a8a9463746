use ygege::text::{
    contains_str, i64_to_decimal, parse_usize, same_text, split_nth, trim_end_char,
    trim_start_char, trim_start_str, trim_whitespace, u64_to_decimal, IntParseError,
};

#[test]
fn decimal_rendering_matches_display() {
    assert_eq!(u64_to_decimal(0), "0");
    assert_eq!(u64_to_decimal(7), "7");
    assert_eq!(u64_to_decimal(1234567890), "1234567890");
    assert_eq!(u64_to_decimal(u64::MAX), u64::MAX.to_string());
    assert_eq!(i64_to_decimal(-1), "-1");
    assert_eq!(i64_to_decimal(i64::MIN), i64::MIN.to_string());
    assert_eq!(i64_to_decimal(42), "42");
}

#[test]
fn parse_usize_agrees_with_from_str() {
    assert_eq!(parse_usize("123"), Ok(123));
    assert_eq!(parse_usize("+7"), Ok(7));
    assert_eq!(parse_usize("007"), Ok(7));
    assert_eq!(parse_usize(""), Err(IntParseError::Empty));
    assert_eq!(parse_usize("+"), Err(IntParseError::InvalidDigit));
    assert_eq!(parse_usize("-1"), Err(IntParseError::InvalidDigit));
    assert_eq!(parse_usize("12a"), Err(IntParseError::InvalidDigit));
    assert_eq!(parse_usize("99999999999999999999999"), Err(IntParseError::PosOverflow));
    for s in ["", "+", "-1", "12a", "99999999999999999999999", "18446744073709551615", "18446744073709551616"] {
        let ours = parse_usize(s).map_err(|e| e.message());
        let std = s.parse::<usize>().map_err(|e| e.to_string());
        assert_eq!(ours, std, "input {:?}", s);
    }
}

#[test]
fn decimal_round_trip_on_values() {
    for n in [0usize, 9, 10, 99, 100, 65535, usize::MAX] {
        assert_eq!(parse_usize(&u64_to_decimal(n as u64)), Ok(n));
    }
}

#[test]
fn trim_matches_str_trim() {
    for s in ["  1.2.3.4\n", "\t\u{a0}x y\u{3000}", "", "   ", "abc"] {
        assert_eq!(trim_whitespace(s), s.trim());
    }
}

#[test]
fn contains_matches_str_contains() {
    assert!(contains_str("Error: Session expired, log in", "Session expired"));
    assert!(!contains_str("Session expire", "Session expired"));
    assert!(contains_str("abc", ""));
    assert!(!contains_str("", "a"));
}

#[test]
fn split_nth_matches_split() {
    let url = "https://www.yggtorrent.top/engine/home";
    assert_eq!(split_nth(url, '/', 2), url.split('/').nth(2).map(|s| s.to_string()));
    assert_eq!(split_nth(url, '/', 2).as_deref(), Some("www.yggtorrent.top"));
    assert_eq!(split_nth("nohost", '/', 2), None);
    assert_eq!(split_nth("a/", '/', 1).as_deref(), Some(""));
}

#[test]
fn trims_of_patterns() {
    assert_eq!(trim_end_char("http://fs:8191///", '/'), "http://fs:8191");
    assert_eq!(trim_start_char("..example.org", '.'), "example.org");
    assert_eq!(trim_start_str("https://https://a/b", "https://"), "a/b");
    assert_eq!(trim_start_str("abc", ""), "abc");
    assert!(same_text("ok", "ok"));
    assert!(!same_text("ok", "okay"));
}

#[test]
fn trimming_twice_changes_nothing() {
    for s in [" \u{2028} a b \t", "x", "\u{85}"] {
        let once = trim_whitespace(s);
        assert_eq!(trim_whitespace(&once), once);
        assert!(!once.starts_with(char::is_whitespace) && !once.ends_with(char::is_whitespace));
    }
}
