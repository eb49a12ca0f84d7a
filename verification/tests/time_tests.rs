use ddog::time::{format_duration, parse_relative, parse_time, parse_time_epoch, resolve_range};
use std::time::{SystemTime, UNIX_EPOCH};

fn now_secs() -> i64 {
    SystemTime::now().duration_since(UNIX_EPOCH).unwrap().as_secs() as i64
}

#[test]
fn test_format_duration_prefers_human_units() {
    assert_eq!(format_duration(300), "5m");
    assert_eq!(format_duration(1800), "30m");
    assert_eq!(format_duration(3600), "1h");
    assert_eq!(format_duration(172800), "2d");
    assert_eq!(format_duration(45), "45s");
}

#[test]
fn test_parse_relative_minutes() {
    let result = parse_relative("15m");
    assert!(result.is_some());
    assert_eq!(result.unwrap(), 900);
}

#[test]
fn test_parse_relative_hours() {
    assert_eq!(parse_relative("2h").unwrap(), 7200);
}

#[test]
fn test_parse_relative_days() {
    assert_eq!(parse_relative("3d").unwrap(), 259200);
}

#[test]
fn test_parse_relative_weeks() {
    assert_eq!(parse_relative("1w").unwrap(), 604800);
}

#[test]
fn test_parse_relative_seconds() {
    assert_eq!(parse_relative("30s").unwrap(), 30);
}

#[test]
fn test_parse_relative_invalid() {
    assert!(parse_relative("abc").is_none());
    assert!(parse_relative("").is_none());
    assert!(parse_relative("5").is_none());
    assert!(parse_relative("0m").is_none());
    assert!(parse_relative("-5m").is_none());
}

#[test]
fn test_parse_relative_overflow_protection() {
    assert!(parse_relative("9999d").is_none());
    assert!(parse_relative("366d").is_none());
    assert!(parse_relative("53w").is_none());
    assert!(parse_relative("9999w").is_none());
    assert!(parse_relative("99999999999s").is_none());
    assert!(parse_relative("365d").is_some());
    assert!(parse_relative("52w").is_some());
}

#[test]
fn test_parse_time_relative() {
    let result = parse_time("1h");
    assert!(result.is_ok());
    let ts = result.unwrap();
    let dt: chrono::DateTime<chrono::Utc> = ts.parse().unwrap();
    let diff = now_secs() - dt.timestamp();
    assert!((3590..=3610).contains(&diff));
}

#[test]
fn test_parse_time_iso8601() {
    let result = parse_time("2024-01-15T10:00:00Z");
    assert!(result.is_ok());
    assert!(result.unwrap().contains("2024-01-15"));
}

#[test]
fn test_parse_time_epoch() {
    let result = parse_time("1700000000");
    assert!(result.is_ok());
}

#[test]
fn test_parse_time_invalid() {
    let result = parse_time("not-a-time");
    assert!(result.is_err());
    assert!(result.unwrap_err().contains("Invalid time format"));
}

#[test]
fn test_parse_time_epoch_fn_relative() {
    let result = parse_time_epoch("30m");
    assert!(result.is_ok());
    let epoch = result.unwrap();
    let diff = now_secs() - epoch;
    assert!((1790..=1810).contains(&diff));
}

#[test]
fn test_resolve_range_within_limit() {
    let result = resolve_range("1h", &None, 24);
    assert!(result.is_ok());
    let range = result.unwrap();
    assert!(range.duration_secs <= 3610);
}

#[test]
fn test_resolve_range_exceeds_limit() {
    let result = resolve_range("48h", &None, 24);
    assert!(result.is_err());
    assert!(result.unwrap_err().contains("Time range too large"));
}

#[test]
fn test_resolve_range_reports_precise_requested_duration() {
    let result = resolve_range("2025-01-15T00:00:00Z", &Some("2025-01-16T00:01:00Z".into()), 24);
    let err = result.expect_err("expected range to exceed max");
    assert!(err.contains("1441m requested"));
    assert!(err.contains("max 24h allowed"));
}

#[test]
fn test_resolve_range_from_after_to() {
    let result = resolve_range("2025-01-15T10:00:00Z", &Some("2025-01-15T09:00:00Z".into()), 24);
    assert!(result.is_err());
    assert!(result.unwrap_err().contains("'from' must be before 'to'"));
}

#[test]
fn epoch_flags_read_as_seconds() {
    assert_eq!(parse_time_epoch("1700000000").unwrap(), 1_700_000_000);
    assert_eq!(parse_time_epoch("2024-01-15T10:00:00Z").unwrap(), 1_705_312_800);
}
