use tauri_plugin_localhost::headers::HeaderSet;
use tauri_plugin_localhost::wire::{is_sendable, sendable_headers};

fn set(pairs: &[(&str, &str)]) -> HeaderSet {
    let mut headers = HeaderSet::new();
    for (name, value) in pairs {
        headers.insert(name.to_string(), value.to_string());
    }
    headers
}

#[test]
fn new_header_set_is_empty() {
    let headers = HeaderSet::new();
    assert_eq!(headers.len(), 0);
    assert!(!headers.contains("Content-Type"));
    assert_eq!(headers.get("Content-Type"), None);
}

#[test]
fn insert_then_get_returns_the_value() {
    let headers = set(&[("Content-Type", "text/html"), ("X-One", "1")]);
    assert_eq!(headers.len(), 2);
    assert_eq!(headers.get("Content-Type"), Some(&"text/html".to_string()));
    assert_eq!(headers.get("X-One"), Some(&"1".to_string()));
    assert_eq!(headers.get("X-Two"), None);
}

#[test]
fn insert_of_same_name_replaces_in_place() {
    let headers = set(&[("A", "1"), ("B", "2"), ("A", "3")]);
    assert_eq!(headers.len(), 2);
    assert_eq!(headers.get("A"), Some(&"3".to_string()));
    let expected = vec![("A".to_string(), "3".to_string()), ("B".to_string(), "2".to_string())];
    assert_eq!(headers.entries(), &expected);
}

#[test]
fn names_are_kept_exactly_as_given() {
    let headers = set(&[("Content-Type", "a"), ("content-type", "b")]);
    assert_eq!(headers.len(), 2);
    assert_eq!(headers.get("Content-Type"), Some(&"a".to_string()));
    assert_eq!(headers.get("content-type"), Some(&"b".to_string()));
    assert!(!headers.contains("CONTENT-TYPE"));
}

#[test]
fn clone_keeps_pairs_and_order() {
    let headers = set(&[("B", "2"), ("A", "1")]);
    let copy = headers.clone();
    assert_eq!(copy.entries(), headers.entries());
    assert_eq!(copy.get("A"), Some(&"1".to_string()));
}

#[test]
fn header_names_follow_the_token_grammar() {
    assert!(is_sendable("Content-Type", "text/html"));
    assert!(is_sendable("x-custom_header.1", "v"));
    assert!(is_sendable("!#$%&'*+-.^_`|~", "v"));
    assert!(!is_sendable("", "v"));
    assert!(!is_sendable("bad name", "v"));
    assert!(!is_sendable("bad:name", "v"));
    assert!(!is_sendable("bad\"name", "v"));
    assert!(!is_sendable("bad(name)", "v"));
    assert!(!is_sendable("n\u{e9}", "v"));
}

#[test]
fn header_name_length_limit_is_65535() {
    let longest = "a".repeat(65535);
    let too_long = "a".repeat(65536);
    assert!(is_sendable(&longest, "v"));
    assert!(!is_sendable(&too_long, "v"));
    assert!(is_sendable(&"a".repeat(64), "v"));
    assert!(is_sendable(&"a".repeat(65), "v"));
    assert!(!is_sendable(&format!("{} ", "a".repeat(64)), "v"));
}

#[test]
fn header_values_refuse_control_characters() {
    assert!(is_sendable("X", ""));
    assert!(is_sendable("X", "default-src 'none'"));
    assert!(is_sendable("X", "tab\tinside"));
    assert!(is_sendable("X", "caf\u{e9}"));
    assert!(is_sendable("X", "~"));
    assert!(!is_sendable("X", "line\nbreak"));
    assert!(!is_sendable("X", "carriage\rreturn"));
    assert!(!is_sendable("X", "nul\0"));
    assert!(!is_sendable("X", "del\u{7f}"));
    assert!(!is_sendable("X", "\u{1f}"));
}

#[test]
fn sendable_headers_drops_what_is_unfit_and_keeps_order() {
    let headers = set(&[
        ("X-Good", "1"),
        ("bad name", "2"),
        ("X-Bad-Value", "a\nb"),
        ("X-Also-Good", "3"),
    ]);
    let kept = sendable_headers(&headers);
    let expected = vec![
        ("X-Good".to_string(), "1".to_string()),
        ("X-Also-Good".to_string(), "3".to_string()),
    ];
    assert_eq!(kept.entries(), &expected);
    assert_eq!(headers.len(), 4);
}

#[test]
fn sendable_headers_of_empty_is_empty() {
    let kept = sendable_headers(&HeaderSet::new());
    assert_eq!(kept.len(), 0);
}
