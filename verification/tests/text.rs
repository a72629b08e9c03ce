use androidoscopy::text::{chars_of, decimal, has_prefix, same_text};

#[test]
fn decimal_writes_numbers_without_leading_zeros() {
    assert_eq!(decimal(0), "0");
    assert_eq!(decimal(7), "7");
    assert_eq!(decimal(10), "10");
    assert_eq!(decimal(101), "101");
    assert_eq!(decimal(9999), "9999");
    assert_eq!(decimal(65535), "65535");
}

#[test]
fn decimal_agrees_with_the_standard_rendering() {
    for value in 0..=u16::MAX {
        assert_eq!(decimal(value), value.to_string());
    }
}

#[test]
fn has_prefix_compares_the_leading_characters() {
    assert!(has_prefix("fe80::1", "fe80"));
    assert!(has_prefix("fe80", "fe80"));
    assert!(has_prefix("anything", ""));
    assert!(has_prefix("", ""));
    assert!(!has_prefix("fe8", "fe80"));
    assert!(!has_prefix("fe90::1", "fe80"));
    assert!(!has_prefix("", "fe80"));
    assert!(!has_prefix("xfe80", "fe80"));
    assert!(has_prefix("héllo", "hé"));
    assert!(!has_prefix("héllo", "he"));
}

#[test]
fn chars_of_lists_the_characters_in_order() {
    assert_eq!(chars_of(""), Vec::<char>::new());
    assert_eq!(chars_of("héllo"), vec!['h', 'é', 'l', 'l', 'o']);
    assert_eq!(chars_of("a\nb"), vec!['a', '\n', 'b']);
}

#[test]
fn same_text_compares_the_characters() {
    assert!(same_text("", ""));
    assert!(same_text("session-1", "session-1"));
    assert!(same_text("héllo", "héllo"));
    assert!(!same_text("session-1", "session-2"));
    assert!(!same_text("session", "session-1"));
    assert!(!same_text("Session", "session"));
    assert!(!same_text("", "x"));
}
