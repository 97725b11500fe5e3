use admin_http::text::{trim, strip_bearer, text_eq, byte_len_at_least, append_signed_decimal};

#[test]
fn trim_removes_unicode_white_space_on_both_ends() {
    assert_eq!(trim("  alice \t\n"), "alice");
    assert_eq!(trim("\u{3000}bob\u{00A0}"), "bob");
    assert_eq!(trim("a b"), "a b");
    assert_eq!(trim("   "), "");
    assert_eq!(trim(""), "");
}

#[test]
fn trim_twice_is_trim_once() {
    for s in ["  x  ", "\u{2028}y\u{205F}", "", " \t ", "z"] {
        let once = trim(s);
        assert_eq!(trim(&once), once);
        assert_eq!(once, s.trim());
    }
}

#[test]
fn bearer_prefix_is_removed_once() {
    assert_eq!(strip_bearer("Bearer abc.def"), "abc.def");
    assert_eq!(strip_bearer("Bearer Bearer x"), "Bearer x");
    assert_eq!(strip_bearer("bearer abc"), "bearer abc");
    assert_eq!(strip_bearer("abc"), "abc");
    assert_eq!(strip_bearer("Bearer "), "");
}

#[test]
fn texts_compare_by_content() {
    assert!(text_eq("admin", "admin"));
    assert!(!text_eq("admin", "Admin"));
    assert!(!text_eq("", "a"));
}

#[test]
fn byte_lengths_count_utf8_bytes() {
    assert!(byte_len_at_least("abc", 3));
    assert!(!byte_len_at_least("ab", 3));
    // one character of three bytes
    assert!(byte_len_at_least("中", 3));
    assert!(!byte_len_at_least("é", 3));
    assert!(byte_len_at_least("", 0));
}

#[test]
fn decimal_notation_matches_display() {
    for x in [0i64, 7, 10, 42, -1, -305, i64::MAX, i64::MIN] {
        let mut s = String::from("Group-");
        append_signed_decimal(&mut s, x);
        assert_eq!(s, format!("Group-{x}"));
    }
}
