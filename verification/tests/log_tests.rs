use ddog::log::{error, info, result_count, warn};

#[test]
fn test_result_count_does_not_panic() {
    result_count(0, "logs");
    result_count(5, "hosts");
}

#[test]
fn result_count_reports_none_and_some() {
    assert_eq!(result_count(0, "logs"), "No logs found.");
    assert_eq!(result_count(5, "hosts"), "Returned 5 hosts.");
}

#[test]
fn log_lines_carry_colored_tags() {
    assert_eq!(info("hi"), "\x1b[36minfo:\x1b[0m hi");
    assert_eq!(warn("careful"), "\x1b[33mwarn:\x1b[0m careful");
    assert_eq!(error("bad"), "\x1b[31merror:\x1b[0m bad");
}

#[test]
fn test_info_does_not_panic() {
    info("test message");
}

#[test]
fn test_warn_does_not_panic() {
    warn("test warning");
}

#[test]
fn test_error_does_not_panic() {
    error("test error");
}
