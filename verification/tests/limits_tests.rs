use ddog::limits::{clamp_limit, require_min, resolve_limit};

#[test]
fn test_clamp_limit_within() {
    assert_eq!(clamp_limit(25, 1000), 25);
}

#[test]
fn test_clamp_limit_exceeds() {
    assert_eq!(clamp_limit(5000, 1000), 1000);
}

#[test]
fn test_clamp_limit_at_boundary() {
    assert_eq!(clamp_limit(1000, 1000), 1000);
}

#[test]
fn test_resolve_limit_rejects_zero() {
    assert_eq!(resolve_limit(0, 1000).unwrap_err(), "Limit must be at least 1.");
}

#[test]
fn test_resolve_limit_clamps_large_values() {
    assert_eq!(resolve_limit(5000, 1000).unwrap(), 1000);
}

#[test]
fn test_require_min_rejects_small_values() {
    assert_eq!(require_min("Page", 0, 1).unwrap_err(), "Page must be at least 1.");
}

#[test]
fn require_min_accepts_the_minimum() {
    assert_eq!(require_min("Count", 1, 1).unwrap(), 1);
}

#[test]
fn resolve_limit_keeps_small_values() {
    assert_eq!(resolve_limit(1, 1000).unwrap(), 1);
    assert_eq!(resolve_limit(999, 1000).unwrap(), 999);
}
