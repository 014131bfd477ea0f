use pihole_api::address::{is_absolute, is_ipv4_text};
use pihole_api::text::{same_text, split_chars, trim_trailing_newlines};

#[test]
fn split_pieces() {
    assert_eq!(split_chars("a-b-c", '-'), vec!["a", "b", "c"]);
    assert_eq!(split_chars("", '-'), vec![""]);
    assert_eq!(split_chars("-", '-'), vec!["", ""]);
    assert_eq!(split_chars("abc", '-'), vec!["abc"]);
    assert_eq!(split_chars("a--b-", '-'), vec!["a", "", "b", ""]);
    assert_eq!(split_chars("\u{e9}t\u{e9} x", ' '), vec!["\u{e9}t\u{e9}", "x"]);
}

#[test]
fn split_matches_std() {
    for s in ["v3.3.1-219-g6689e00", " development d2037fd", "x  y ", "\u{1f600}.\u{1f600}"] {
        for sep in ['-', ' ', '.'] {
            let expected: Vec<&str> = s.split(sep).collect();
            assert_eq!(split_chars(s, sep), expected);
        }
    }
}

#[test]
fn same_text_cases() {
    assert!(same_text("", ""));
    assert!(same_text("debug", "debug"));
    assert!(!same_text("debug", "debugs"));
    assert!(!same_text("Debug", "debug"));
}

#[test]
fn trim_newlines_cases() {
    assert_eq!(trim_trailing_newlines("abc\n\n"), "abc");
    assert_eq!(trim_trailing_newlines("a\nb"), "a\nb");
    assert_eq!(trim_trailing_newlines("\n"), "");
    assert_eq!(trim_trailing_newlines("abc\r\n"), "abc\r");
}

#[test]
fn ipv4_texts() {
    assert!(is_ipv4_text("0.0.0.0"));
    assert!(is_ipv4_text("192.168.1.254"));
    assert!(!is_ipv4_text("192.168.1.256"));
    assert!(!is_ipv4_text("192.168.01.1"));
    assert!(!is_ipv4_text("192.168.1"));
    assert!(!is_ipv4_text("::1"));
    for s in ["256.1.1.1", "00.1.1.1", "1.2.3.4.", "+1.2.3.4", "1.2.3.04", " 1.2.3.4"] {
        assert!(!is_ipv4_text(s), "{}", s);
    }
}

#[test]
fn absolute_paths() {
    assert!(is_absolute("/etc/pihole/setupVars.conf"));
    assert!(is_absolute("/"));
    assert!(!is_absolute("etc/pihole"));
    assert!(!is_absolute(""));
    assert!(!is_absolute("!asd?f"));
}
