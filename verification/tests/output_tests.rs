use ddog::output::{column_key, truncate};

#[test]
fn test_truncate_short() {
    assert_eq!(truncate("short", 80), "short");
}

#[test]
fn test_truncate_long() {
    let long = "a".repeat(100);
    let result = truncate(&long, 80);
    assert_eq!(result.chars().count(), 80);
    assert!(result.ends_with("..."));
}

#[test]
fn test_truncate_utf8_safe() {
    let s = "é".repeat(100);
    let result = truncate(&s, 20);
    assert_eq!(result.chars().count(), 20);
    assert!(result.ends_with("..."));
}

#[test]
fn test_column_key_uses_last_segment() {
    let cols = &["attributes.service", "attributes.custom.duration"];
    assert_eq!(column_key(cols, "attributes.service"), "service");
    assert_eq!(column_key(cols, "attributes.custom.duration"), "duration");
}

#[test]
fn test_column_key_falls_back_to_full_path_on_collision() {
    let cols = &["attributes.status", "attributes.attributes.status", "id"];
    assert_eq!(column_key(cols, "attributes.status"), "attributes.status");
    assert_eq!(column_key(cols, "attributes.attributes.status"), "attributes.attributes.status");
    assert_eq!(column_key(cols, "id"), "id");
}

#[test]
fn truncate_keeps_text_at_the_limit() {
    let s = "b".repeat(80);
    assert_eq!(truncate(&s, 80), s);
    assert_eq!(truncate(&"c".repeat(81), 80), format!("{}...", "c".repeat(77)));
}
