use rmbtd::number::{dec_text, hex, push_dec_int, read_signed, read_unsigned};
use rmbtd::text::{
    chars_of, appended, cut_once, has_prefix, is_whitespace, last_position, lower_contains,
    lower_has_prefix, same_text, split_lines, stripped_last, to_lower, trimmed, trimmed_end,
    trimmed_end_char, trimmed_start, without_prefix,
};
use rmbtd::version::resolve_version;

#[test]
fn white_space_is_that_of_unicode() {
    for n in 0..=0x10ffffu32 {
        if let Some(c) = char::from_u32(n) {
            assert_eq!(is_whitespace(c), c.is_whitespace(), "{n:x}");
            assert_eq!(to_lower(c), c.to_ascii_lowercase());
        }
    }
}

#[test]
fn trimming_is_that_of_str() {
    for s in ["", " ", "a", " a b ", "\u{3000}x\u{a0}", "\r\n\tx\n", "\u{200b}x"] {
        assert_eq!(trimmed(s), s.trim());
        assert_eq!(trimmed_start(s), s.trim_start());
        assert_eq!(trimmed_end(s), s.trim_end());
        assert_eq!(trimmed_end_char(s, '\n'), s.trim_end_matches('\n'));
        assert_eq!(stripped_last(s, '\n'), s.strip_suffix('\n').unwrap_or(s));
    }
    assert_eq!(trimmed_end_char("a\n\n", '\n'), "a");
    assert_eq!(stripped_last("a\n\n", '\n'), "a\n");
}

#[test]
fn searching_is_that_of_str() {
    for s in ["", "a", "abcabc", "xxab", "äöabü", "aab"] {
        for p in ["", "a", "ab", "abc", "ö", "b"] {
            assert_eq!(cut_once(s, p), s.split_once(p), "{s} {p}");
            assert_eq!(has_prefix(s, p), s.starts_with(p));
            assert_eq!(without_prefix(s, p), s.strip_prefix(p));
            assert_eq!(lower_contains(s, p), s.to_ascii_lowercase().contains(p));
            assert_eq!(lower_has_prefix(s, p), s.to_ascii_lowercase().starts_with(p));
        }
    }
    assert!(lower_contains("Upgrade: WebSocket", "upgrade: websocket"));
    assert!(lower_has_prefix("Sec-WebSocket-KEY: x", "sec-websocket-key:"));
    assert_eq!(last_position(&chars_of("a.b.c"), '.'), Some(3));
    assert_eq!(last_position(&chars_of("abc"), '.'), None);
}

#[test]
fn lines_are_those_of_str() {
    for s in ["", "\n", "a", "a\n", "a\r\nb", "a\r\rb\n\n", "\r\n\r\n", "a\rb\nc\r"] {
        let ours = split_lines(s);
        let theirs: Vec<&str> = s.lines().collect();
        assert_eq!(ours, theirs, "{s:?}");
    }
}

#[test]
fn texts_are_compared_and_joined() {
    assert!(same_text("aé", "aé"));
    assert!(!same_text("a", "ab"));
    assert!(!same_text("a", "b"));
    assert_eq!(appended("ab", "cd"), "abcd");
}

#[test]
fn unsigned_numbers_are_read_as_by_parse() {
    for s in [
        "", "0", "7", "+7", "-7", "007", "4294967295", "4294967296", "18446744073709551615",
        "18446744073709551616", "1a", " 1", "+", "99999999999999999999999",
    ] {
        assert_eq!(read_unsigned(s, u32::MAX as u64), s.parse::<u32>().ok().map(u64::from), "{s}");
        assert_eq!(read_unsigned(s, u64::MAX), s.parse::<u64>().ok(), "{s}");
        assert_eq!(read_unsigned(s, u16::MAX as u64), s.parse::<u16>().ok().map(u64::from), "{s}");
    }
}

#[test]
fn signed_numbers_are_read_as_by_parse() {
    for s in [
        "", "-", "+", "0", "-0", "+5", "-5", "9223372036854775807", "9223372036854775808",
        "-9223372036854775808", "-9223372036854775809", "--1", "1700000000", "12x",
    ] {
        assert_eq!(read_signed(s), s.parse::<i64>().ok(), "{s}");
    }
}

#[test]
fn numbers_are_written_as_by_display() {
    for n in [0, 9, 10, 123, u64::MAX as u128, u128::MAX] {
        assert_eq!(dec_text(n), n.to_string());
        assert_eq!(read_unsigned(&dec_text(n), u64::MAX), u64::try_from(n).ok());
    }
    for i in [0, -1, 5, i128::MIN, i128::MAX] {
        let mut s = String::from("=");
        push_dec_int(&mut s, i);
        assert_eq!(s, format!("={i}"));
    }
    assert_eq!(hex(&[0x00, 0x0f, 0xa5, 0xff]), "000fa5ff");
    assert_eq!(hex(&[]), "");
}

#[test]
fn version_is_resolved_in_order() {
    assert_eq!(resolve_version(Some(" v1.7.0\n"), Some("v1.6.0"), "0.0.0-dev"), "1.7.0");
    assert_eq!(resolve_version(Some("  "), Some("v1.6.0-3-gabc"), "0.0.0-dev"), "1.6.0-3-gabc");
    assert_eq!(resolve_version(None, None, "0.0.0-dev"), "0.0.0-dev");
    assert_eq!(resolve_version(Some("vv1"), None, "x"), "v1");
}
