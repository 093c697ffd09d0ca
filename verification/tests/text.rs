use rx_supervisor::ids::fresh_id;
use rx_supervisor::text::{decimal_string, has_prefix, is_blank, is_bounded, join, join3, same_text};

#[test]
fn fresh_ids_are_distinct_hyphenated_uuids() {
    let a = fresh_id();
    let b = fresh_id();
    assert_eq!(a.len(), 36);
    assert_eq!(a.matches('-').count(), 4);
    assert_ne!(a, b);
}

#[test]
fn text_helpers_compute_what_they_name() {
    assert_eq!(decimal_string(0), "0");
    assert_eq!(decimal_string(18446744073709551615), "18446744073709551615");
    assert!(has_prefix("rx/service/host", "rx/service/"));
    assert!(!has_prefix("rx/serv", "rx/service/"));
    assert!(is_blank(" \t\n"));
    assert!(!is_blank(" x "));
    assert!(is_bounded(&"abc".to_string(), 3));
    assert!(!is_bounded(&"abcd".to_string(), 3));
    assert!(!is_bounded(&"é".to_string(), 1));
    assert!(same_text("a", "a"));
    assert_eq!(join("a/", "b"), "a/b");
    assert_eq!(join3("a/", "b", "c"), "a/b/c");
}
