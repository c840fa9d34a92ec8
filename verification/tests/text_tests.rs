use vpn_desktop::ipc::{unix_time_ms_now, HelloRequest, LogEntry, LogStream, ProxyAuthMethod, SessionSnapshot, VpnPhase};
use vpn_desktop::paths::path_join;
use vpn_desktop::text::{
    contains_lowercased, decimal_string, first_line_of, join_strings, octal_string, str_contains, str_eq, str_is_blank,
    zero_padded,
};

#[test]
fn blank_texts() {
    assert!(str_is_blank(""));
    assert!(str_is_blank(" \t\n\u{a0}\u{2003}"));
    assert!(!str_is_blank(" x "));
}

#[test]
fn numbers_render_like_display() {
    assert_eq!(decimal_string(0), "0");
    assert_eq!(decimal_string(1234567890), "1234567890");
    assert_eq!(decimal_string(u64::MAX), u64::MAX.to_string());
    assert_eq!(octal_string(0o660), "660");
    assert_eq!(zero_padded(octal_string(0o660), 4), "0660");
    assert_eq!(zero_padded("12345".to_string(), 4), "12345");
}

#[test]
fn searching() {
    assert!(contains_lowercased("ABC Def", "c de"));
    assert!(contains_lowercased("x", ""));
    assert!(!contains_lowercased("abc", "B"));
    assert!(str_contains("hello", "ll"));
    assert!(!str_contains("hello", "L"));
    assert!(str_eq("é", "é"));
    assert!(!str_eq("a", "ab"));
}

#[test]
fn joining_and_lines() {
    assert_eq!(join_strings(&vec!["a".into(), "b".into(), "c".into()], "; "), "a; b; c");
    assert_eq!(join_strings(&vec![], "; "), "");
    assert_eq!(first_line_of("a\r\nb"), Some("a".to_string()));
    assert_eq!(first_line_of("\nb"), Some(String::new()));
    assert_eq!(first_line_of("abc"), Some("abc".to_string()));
    assert_eq!(first_line_of(""), None);
}

#[test]
fn path_joining() {
    assert_eq!(path_join("/a", "b"), "/a/b");
    assert_eq!(path_join("/a/", "b"), "/a/b");
    assert_eq!(path_join("", "b"), "b");
    assert_eq!(path_join("/a", "/b"), "/b");
    for (base, comp) in [("/a", "b"), ("/a/", "b"), ("", "b"), ("/a", "/b"), ("a", "")] {
        assert_eq!(path_join(base, comp), std::path::Path::new(base).join(comp).display().to_string());
    }
}

#[test]
fn protocol_basics() {
    assert_eq!(ProxyAuthMethod::Basic.as_openvpn_arg(), Some("basic"));
    assert_eq!(ProxyAuthMethod::NoAuth.as_openvpn_arg(), None);
    let s = SessionSnapshot::idle();
    assert_eq!(s.phase, VpnPhase::Idle);
    let h = HelloRequest::new("x".into(), Some(3), 10);
    assert_eq!(h.protocol_version, 1);
    let before = unix_time_ms_now();
    let e = LogEntry::new(7, LogStream::Internal, "l".into());
    assert_eq!(e.seq, 7);
    assert!(e.ts_unix_ms >= before && before > 1_600_000_000_000);
}
