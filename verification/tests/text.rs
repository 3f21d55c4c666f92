use usage_mcp_server::text::{chars_of, contains, decimal_text, is_blank, joined, parse_unsigned, same_text};

#[test]
fn characters_are_compared_and_joined() {
    assert_eq!(chars_of("a\u{e9}b"), vec!['a', '\u{e9}', 'b']);
    assert!(same_text("week", "week"));
    assert!(!same_text("week", "weeks"));
    assert!(!same_text("week", "weak"));
    assert!(same_text("", ""));
    assert_eq!(joined("a.", "b"), "a.b");
}

#[test]
fn substrings_are_found_as_by_the_standard_library() {
    for (hay, needle) in [
        ("tokensused", "used"),
        ("tokensused", "token"),
        ("tokensused", "week"),
        ("aab", "ab"),
        ("", ""),
        ("", "a"),
        ("a", ""),
        ("ab", "abc"),
    ] {
        assert_eq!(contains(hay, needle), hay.contains(needle), "{hay} {needle}");
    }
}

#[test]
fn numerals_are_written_and_read_back() {
    for n in [0, 7, 10, 42, 99, 100, 65535, 604800, u64::MAX] {
        assert_eq!(decimal_text(n), n.to_string());
        assert_eq!(parse_unsigned(&decimal_text(n), u64::MAX), Some(n));
    }
}

#[test]
fn unsigned_numbers_are_read_as_by_the_standard_library() {
    for text in [
        "0",
        "007",
        "+5",
        "+",
        "",
        "-0",
        "-1",
        " 1",
        "1 ",
        "1_000",
        "12a",
        "++1",
        "18446744073709551615",
        "18446744073709551616",
        "99999999999999999999999",
        "\u{0663}",
    ] {
        assert_eq!(parse_unsigned(text, u64::MAX), text.parse::<u64>().ok(), "{text}");
    }
    for text in ["65535", "65536", "0000065535", "70000"] {
        let expected = text.parse::<u16>().ok().map(u64::from);
        assert_eq!(parse_unsigned(text, 65535), expected, "{text}");
    }
}

#[test]
fn white_space_is_what_the_standard_library_trims() {
    for c in '\0'..=char::MAX {
        assert_eq!(is_blank(&c.to_string()), c.is_whitespace(), "{:x}", c as u32);
    }
    assert!(is_blank(""));
    assert!(is_blank(" \t\r\n\u{3000}"));
    assert!(!is_blank("  {}  "));
}
