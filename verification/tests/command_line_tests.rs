use ddog::commands::apm::ApmCmd;
use ddog::commands::dashboards::DashboardsSearch;
use ddog::commands::downtimes::DowntimesCmd;
use ddog::commands::events::EventsSearch;
use ddog::commands::hosts::HostsSearch;
use ddog::commands::incidents::IncidentsCmd;
use ddog::commands::logs::LogsCmd;
use ddog::commands::metrics::MetricsCmd;
use ddog::commands::monitors::MonitorsSearch;
use ddog::commands::notebooks::NotebooksCmd;
use ddog::commands::services::ServicesCmd;
use ddog::commands::slos::SlosCmd;
use ddog::commands::spans::SpansSearch;
use ddog::commands::synthetics::SyntheticsCmd;
use ddog::commands::traces::TracesGet;

// ddog apm

#[test]
fn test_parse_spans() {
    let cmd = ApmCmd::try_parse_from(&["test", "spans", "--query", "service:api"]).unwrap();
    match cmd {
        ApmCmd::Spans { query, limit, .. } => {
            assert_eq!(query, "service:api");
            assert_eq!(limit, 25);
        }
        _ => panic!("expected Spans"),
    }
}

#[test]
fn test_parse_trace() {
    let cmd = ApmCmd::try_parse_from(&["test", "trace", "--trace-id", "abc123"]).unwrap();
    match cmd {
        ApmCmd::Trace { trace_id, from, .. } => {
            assert_eq!(trace_id, "abc123");
            assert_eq!(from, "6h");
        }
        _ => panic!("expected Trace"),
    }
}

#[test]
fn test_parse_trace_rejects_empty_trace_id() {
    let err = ApmCmd::try_parse_from(&["test", "trace", "--trace-id", ""])
        .err()
        .expect("expected clap validation error");
    assert!(err.message().contains("--trace-id"));
}

#[test]
fn test_parse_summary() {
    let cmd = ApmCmd::try_parse_from(&["test", "summary", "--trace-id", "def456"]).unwrap();
    match cmd {
        ApmCmd::Summary { trace_id, .. } => assert_eq!(trace_id, "def456"),
        _ => panic!("expected Summary"),
    }
}

#[test]
fn test_parse_compare() {
    let cmd = ApmCmd::try_parse_from(&["test", "compare", "--trace-a", "aaa", "--trace-b", "bbb"]).unwrap();
    match cmd {
        ApmCmd::Compare { trace_a, trace_b, .. } => {
            assert_eq!(trace_a, "aaa");
            assert_eq!(trace_b, "bbb");
        }
        _ => panic!("expected Compare"),
    }
}

#[test]
fn test_parse_compare_rejects_empty_trace_id() {
    let err = ApmCmd::try_parse_from(&["test", "compare", "--trace-a", "", "--trace-b", "bbb"])
        .err()
        .expect("expected clap validation error");
    assert!(err.message().contains("--trace-a"));
}

#[test]
fn test_parse_metrics() {
    let cmd = ApmCmd::try_parse_from(&[
        "test", "metrics", "--compute", "pc99", "--metric", "duration", "--group-by", "service",
    ])
    .unwrap();
    match cmd {
        ApmCmd::Metrics { compute, metric, group_by, .. } => {
            assert_eq!(compute, "pc99");
            assert_eq!(metric, "duration");
            assert_eq!(group_by, vec!["service"]);
        }
        _ => panic!("expected Metrics"),
    }
}

#[test]
fn test_parse_tags() {
    let cmd = ApmCmd::try_parse_from(&["test", "tags", "--facet", "http.status_code"]).unwrap();
    match cmd {
        ApmCmd::Tags { facet, .. } => assert_eq!(facet, "http.status_code"),
        _ => panic!("expected Tags"),
    }
}

#[test]
fn test_parse_watchdog() {
    let cmd = ApmCmd::try_parse_from(&["test", "watchdog", "--from", "12h"]).unwrap();
    match cmd {
        ApmCmd::Watchdog { id, from, .. } => {
            assert!(id.is_none());
            assert_eq!(from, "12h");
        }
        _ => panic!("expected Watchdog"),
    }
}

#[test]
fn test_parse_bottlenecks() {
    let cmd = ApmCmd::try_parse_from(&["test", "bottlenecks", "--group-by", "service"]).unwrap();
    match cmd {
        ApmCmd::Bottlenecks { group_by, .. } => assert_eq!(group_by, "service"),
        _ => panic!("expected Bottlenecks"),
    }
}

#[test]
fn test_parse_latency_tags() {
    let cmd = ApmCmd::try_parse_from(&["test", "latency-tags", "--tag", "region"]).unwrap();
    match cmd {
        ApmCmd::LatencyTags { tag, .. } => assert_eq!(tag, "region"),
        _ => panic!("expected LatencyTags"),
    }
}

#[test]
fn test_parse_changes() {
    let cmd = ApmCmd::try_parse_from(&["test", "changes", "--from", "12h"]).unwrap();
    match cmd {
        ApmCmd::Changes { from, .. } => assert_eq!(from, "12h"),
        _ => panic!("expected Changes"),
    }
}

// ddog dashboards

#[test]
fn dashboards_test_parse_defaults() {
    let args = DashboardsSearch::try_parse_from(&["test"]).unwrap();
    assert!(args.filter.is_none());
    assert_eq!(args.count, 100);
}

#[test]
fn test_parse_count() {
    let args = DashboardsSearch::try_parse_from(&["test", "--count", "50"]).unwrap();
    assert_eq!(args.count, 50);
}

#[test]
fn dashboards_test_parse_with_filter() {
    let args = DashboardsSearch::try_parse_from(&["test", "--filter", "prod"]).unwrap();
    assert_eq!(args.filter.unwrap(), "prod");
}

#[test]
fn dashboards_test_parse_rejects_zero_count() {
    let err = DashboardsSearch::try_parse_from(&["test", "--count", "0"])
        .err()
        .expect("expected clap validation error");
    assert!(err.message().contains("0"));
}

// ddog downtimes

#[test]
fn downtimes_test_parse_list_defaults() {
    let cmd = DowntimesCmd::try_parse_from(&["test", "list"]).unwrap();
    match cmd {
        DowntimesCmd::List { current_only, limit, offset, .. } => {
            assert!(current_only);
            assert_eq!(limit, 25);
            assert_eq!(offset, 0);
        }
        _ => panic!("expected List"),
    }
}

#[test]
fn downtimes_test_parse_get() {
    let cmd = DowntimesCmd::try_parse_from(&["test", "get", "--id", "abc123"]).unwrap();
    match cmd {
        DowntimesCmd::Get { id, include_related, .. } => {
            assert_eq!(id, "abc123");
            assert!(include_related.is_none());
        }
        _ => panic!("expected Get"),
    }
}

#[test]
fn test_parse_list_all() {
    let cmd = DowntimesCmd::try_parse_from(&["test", "list", "--current-only", "false", "--limit", "50"]).unwrap();
    match cmd {
        DowntimesCmd::List { current_only, limit, .. } => {
            assert!(!current_only);
            assert_eq!(limit, 50);
        }
        _ => panic!("expected List"),
    }
}

#[test]
fn test_parse_get_with_include() {
    let cmd = DowntimesCmd::try_parse_from(&["test", "get", "--id", "dt-789", "--include", "created_by,monitor"]).unwrap();
    match cmd {
        DowntimesCmd::Get { id, include_related, .. } => {
            assert_eq!(id, "dt-789");
            assert_eq!(include_related.unwrap(), "created_by,monitor");
        }
        _ => panic!("expected Get"),
    }
}

// ddog events

#[test]
fn events_test_parse_defaults() {
    let args = EventsSearch::try_parse_from(&["test"]).unwrap();
    assert_eq!(args.query, "*");
    assert_eq!(args.from, "1h");
    assert_eq!(args.limit, 25);
}

#[test]
fn events_test_parse_custom() {
    let args = EventsSearch::try_parse_from(&["test", "--query", "source:deploy", "--from", "6h", "--limit", "50"]).unwrap();
    assert_eq!(args.query, "source:deploy");
    assert_eq!(args.limit, 50);
}

// ddog hosts

#[test]
fn hosts_test_parse_defaults() {
    let args = HostsSearch::try_parse_from(&["test"]).unwrap();
    assert_eq!(args.filter, "");
    assert_eq!(args.count, 100);
    assert!(!args.include_muted);
}

#[test]
fn hosts_test_parse_with_filter() {
    let args = HostsSearch::try_parse_from(&["test", "--filter", "web", "--count", "50"]).unwrap();
    assert_eq!(args.filter, "web");
    assert_eq!(args.count, 50);
}

#[test]
fn test_parse_sort() {
    let args = HostsSearch::try_parse_from(&["test", "--sort-field", "cpu", "--sort-dir", "desc"]).unwrap();
    assert_eq!(args.sort_field.unwrap(), "cpu");
    assert_eq!(args.sort_dir.unwrap(), "desc");
}

#[test]
fn hosts_test_parse_rejects_zero_count() {
    let err = HostsSearch::try_parse_from(&["test", "--count", "0"])
        .err()
        .expect("expected clap validation error");
    assert!(err.message().contains("0"));
}

#[test]
fn test_parse_rejects_invalid_sort_field() {
    let err = HostsSearch::try_parse_from(&["test", "--sort-field", "name"])
        .err()
        .expect("expected clap validation error");
    assert!(err.message().contains("name"));
}

// ddog incidents

#[test]
fn incidents_test_parse_get() {
    let cmd = IncidentsCmd::try_parse_from(&["test", "get", "--id", "abc123"]).unwrap();
    match cmd {
        IncidentsCmd::Get { id, .. } => assert_eq!(id, "abc123"),
        _ => panic!("expected Get"),
    }
}

#[test]
fn incidents_test_parse_search() {
    let cmd = IncidentsCmd::try_parse_from(&["test", "search", "--query", "state:active"]).unwrap();
    match cmd {
        IncidentsCmd::Search { query, limit, .. } => {
            assert_eq!(query, "state:active");
            assert_eq!(limit, 25);
        }
        _ => panic!("expected Search"),
    }
}

// ddog logs

#[test]
fn logs_test_parse_search_defaults() {
    let cmd = LogsCmd::try_parse_from(&["test", "search"]).unwrap();
    match cmd {
        LogsCmd::Search { query, from, limit, sort, .. } => {
            assert_eq!(query, "*");
            assert_eq!(from, "1h");
            assert_eq!(limit, 25);
            assert_eq!(sort, "-timestamp");
        }
        _ => panic!("expected Search"),
    }
}

#[test]
fn test_parse_search_rejects_invalid_sort() {
    let err = match LogsCmd::try_parse_from(&["test", "search", "--sort", "garbage-value"]) {
        Ok(_) => panic!("expected invalid sort to fail"),
        Err(err) => err,
    };
    assert!(err.message().contains("possible values"));
}

#[test]
fn logs_test_parse_search_rejects_zero_limit() {
    let err = match LogsCmd::try_parse_from(&["test", "search", "--limit", "0"]) {
        Ok(_) => panic!("expected zero limit to fail"),
        Err(err) => err,
    };
    let msg = err.message();
    assert!(msg.contains("--limit"));
    assert!(msg.contains('0'));
}

#[test]
fn test_parse_search_custom() {
    let cmd = LogsCmd::try_parse_from(&["test", "search", "-q", "service:web", "--from", "30m", "--limit", "50"]).unwrap();
    match cmd {
        LogsCmd::Search { query, limit, .. } => {
            assert_eq!(query, "service:web");
            assert_eq!(limit, 50);
        }
        _ => panic!("expected Search"),
    }
}

#[test]
fn test_parse_analyze_defaults() {
    let cmd = LogsCmd::try_parse_from(&["test", "analyze"]).unwrap();
    match cmd {
        LogsCmd::Analyze { compute, metric, .. } => {
            assert_eq!(compute, "count");
            assert!(metric.is_none());
        }
        _ => panic!("expected Analyze"),
    }
}

#[test]
fn test_parse_analyze_with_metric() {
    let cmd = LogsCmd::try_parse_from(&[
        "test", "analyze", "--compute", "avg", "--metric", "response_time", "--group-by", "service",
    ])
    .unwrap();
    match cmd {
        LogsCmd::Analyze { compute, metric, group_by, .. } => {
            assert_eq!(compute, "avg");
            assert_eq!(metric.unwrap(), "response_time");
            assert_eq!(group_by, vec!["service"]);
        }
        _ => panic!("expected Analyze"),
    }
}

// ddog metrics

#[test]
fn test_parse_query() {
    let cmd = MetricsCmd::try_parse_from(&["test", "query", "--query", "avg:system.cpu.user{*}", "--from", "2h"]).unwrap();
    match cmd {
        MetricsCmd::Query { query, from, .. } => {
            assert_eq!(query, "avg:system.cpu.user{*}");
            assert_eq!(from, "2h");
        }
        _ => panic!("expected Query"),
    }
}

#[test]
fn test_parse_context() {
    let cmd = MetricsCmd::try_parse_from(&["test", "context", "--name", "system.cpu.user"]).unwrap();
    match cmd {
        MetricsCmd::Context { name, .. } => assert_eq!(name, "system.cpu.user"),
        _ => panic!("expected Context"),
    }
}

#[test]
fn test_parse_search_with_tags() {
    let cmd = MetricsCmd::try_parse_from(&["test", "search", "--tag", "env:prod", "--tag", "region:us"]).unwrap();
    match cmd {
        MetricsCmd::Search { tag, .. } => assert_eq!(tag, vec!["env:prod", "region:us"]),
        _ => panic!("expected Search"),
    }
}

#[test]
fn test_parse_search_with_space_separated_tags() {
    let cmd = MetricsCmd::try_parse_from(&["test", "search", "--tag", "env:staging", "service:bpg"]).unwrap();
    match cmd {
        MetricsCmd::Search { tag, .. } => assert_eq!(tag, vec!["env:staging", "service:bpg"]),
        _ => panic!("expected Search"),
    }
}

#[test]
fn metrics_test_parse_search_defaults() {
    let cmd = MetricsCmd::try_parse_from(&["test", "search"]).unwrap();
    match cmd {
        MetricsCmd::Search { tag, .. } => assert!(tag.is_empty()),
        _ => panic!("expected Search"),
    }
}

// ddog monitors

#[test]
fn monitors_test_parse_defaults() {
    let args = MonitorsSearch::try_parse_from(&["test"]).unwrap();
    assert_eq!(args.query, "");
    assert_eq!(args.page, 0);
    assert_eq!(args.per_page, 25);
}

#[test]
fn test_parse_alert_query() {
    let args = MonitorsSearch::try_parse_from(&["test", "--query", "status:alert"]).unwrap();
    assert_eq!(args.query, "status:alert");
}

#[test]
fn test_parse_rejects_zero_per_page() {
    let err = MonitorsSearch::try_parse_from(&["test", "--per-page", "0"])
        .err()
        .expect("expected clap validation error");
    assert!(err.message().contains("0"));
}

// ddog notebooks

#[test]
fn notebooks_test_parse_get() {
    let cmd = NotebooksCmd::try_parse_from(&["test", "get", "--id", "12345"]).unwrap();
    match cmd {
        NotebooksCmd::Get { id, .. } => assert_eq!(id, 12345),
        _ => panic!("expected Get"),
    }
}

#[test]
fn notebooks_test_parse_search() {
    let cmd = NotebooksCmd::try_parse_from(&["test", "search", "--query", "postmortem", "--author", "user@co.com"]).unwrap();
    match cmd {
        NotebooksCmd::Search { query, author, .. } => {
            assert_eq!(query, "postmortem");
            assert_eq!(author.unwrap(), "user@co.com");
        }
        _ => panic!("expected Search"),
    }
}

// ddog services

#[test]
fn services_test_parse_search() {
    let cmd = ServicesCmd::try_parse_from(&["test", "search"]).unwrap();
    match cmd {
        ServicesCmd::Search { limit, page, .. } => {
            assert_eq!(limit, 20);
            assert_eq!(page, 1);
        }
        _ => panic!("expected Search"),
    }
}

#[test]
fn services_test_parse_search_rejects_zero_limit() {
    let err = ServicesCmd::try_parse_from(&["test", "search", "--limit", "0"])
        .err()
        .expect("expected clap validation error");
    assert!(err.message().contains("0"));
}

#[test]
fn test_parse_search_rejects_zero_page() {
    let err = ServicesCmd::try_parse_from(&["test", "search", "--page", "0"])
        .err()
        .expect("expected clap validation error");
    assert!(err.message().contains("0"));
}

#[test]
fn test_parse_deps() {
    let cmd = ServicesCmd::try_parse_from(&["test", "deps", "--env", "production"]).unwrap();
    match cmd {
        ServicesCmd::Deps { env, .. } => assert_eq!(env, "production"),
        _ => panic!("expected Deps"),
    }
}

// ddog slos

#[test]
fn slos_test_parse_search_defaults() {
    let cmd = SlosCmd::try_parse_from(&["test", "search"]).unwrap();
    match cmd {
        SlosCmd::Search { query, limit, offset, ids, .. } => {
            assert_eq!(query, "");
            assert_eq!(limit, 25);
            assert_eq!(offset, 0);
            assert!(ids.is_none());
        }
        _ => panic!("expected Search"),
    }
}

#[test]
fn test_parse_search_with_args() {
    let cmd = SlosCmd::try_parse_from(&[
        "test", "search", "--query", "service:web", "--limit", "50", "--ids", "a,b,c",
    ])
    .unwrap();
    match cmd {
        SlosCmd::Search { query, limit, ids, .. } => {
            assert_eq!(query, "service:web");
            assert_eq!(limit, 50);
            assert_eq!(ids.as_deref(), Some("a,b,c"));
        }
        _ => panic!("expected Search"),
    }
}

#[test]
fn slos_test_parse_get() {
    let cmd = SlosCmd::try_parse_from(&["test", "get", "--id", "abc123def456"]).unwrap();
    match cmd {
        SlosCmd::Get { id, .. } => assert_eq!(id, "abc123def456"),
        _ => panic!("expected Get"),
    }
}

#[test]
fn test_parse_history() {
    let cmd = SlosCmd::try_parse_from(&["test", "history", "--id", "abc123", "--from", "30d"]).unwrap();
    match cmd {
        SlosCmd::History { id, from, to, .. } => {
            assert_eq!(id, "abc123");
            assert_eq!(from, "30d");
            assert!(to.is_none());
        }
        _ => panic!("expected History"),
    }
}

#[test]
fn test_parse_history_with_to() {
    let cmd = SlosCmd::try_parse_from(&[
        "test", "history", "--id", "abc123", "--from", "7d", "--to", "2026-03-01T00:00:00Z",
    ])
    .unwrap();
    match cmd {
        SlosCmd::History { id, from, to, .. } => {
            assert_eq!(id, "abc123");
            assert_eq!(from, "7d");
            assert_eq!(to.as_deref(), Some("2026-03-01T00:00:00Z"));
        }
        _ => panic!("expected History"),
    }
}

// ddog spans

#[test]
fn spans_test_parse_defaults() {
    let args = SpansSearch::try_parse_from(&["test"]).unwrap();
    assert_eq!(args.query, "*");
    assert_eq!(args.from, "1h");
    assert_eq!(args.limit, 25);
    assert_eq!(args.sort, "-timestamp");
}

#[test]
fn spans_test_parse_custom() {
    let args = SpansSearch::try_parse_from(&["test", "--query", "service:web", "--from", "30m", "--limit", "100"]).unwrap();
    assert_eq!(args.query, "service:web");
    assert_eq!(args.limit, 100);
}

#[test]
fn test_parse_rejects_invalid_sort() {
    let err = match SpansSearch::try_parse_from(&["test", "--sort", "garbage-value"]) {
        Ok(_) => panic!("expected invalid sort to fail"),
        Err(err) => err,
    };
    assert!(err.message().contains("possible values"));
}

#[test]
fn test_parse_rejects_zero_limit() {
    let err = match SpansSearch::try_parse_from(&["test", "--limit", "0"]) {
        Ok(_) => panic!("expected zero limit to fail"),
        Err(err) => err,
    };
    let msg = err.message();
    assert!(msg.contains("--limit"));
    assert!(msg.contains('0'));
}

// ddog synthetics

#[test]
fn synthetics_test_parse_list_defaults() {
    let cmd = SyntheticsCmd::try_parse_from(&["test", "list"]).unwrap();
    match cmd {
        SyntheticsCmd::List { page_size, page_number, .. } => {
            assert_eq!(page_size, 25);
            assert_eq!(page_number, 0);
        }
        _ => panic!("expected List"),
    }
}

#[test]
fn test_parse_list_custom() {
    let cmd = SyntheticsCmd::try_parse_from(&["test", "list", "--page-size", "50", "--page-number", "3"]).unwrap();
    match cmd {
        SyntheticsCmd::List { page_size, page_number, .. } => {
            assert_eq!(page_size, 50);
            assert_eq!(page_number, 3);
        }
        _ => panic!("expected List"),
    }
}

#[test]
fn test_parse_results() {
    let cmd = SyntheticsCmd::try_parse_from(&["test", "results", "--id", "abc-xyz-123", "--from", "6h"]).unwrap();
    match cmd {
        SyntheticsCmd::Results { id, from, to, .. } => {
            assert_eq!(id, "abc-xyz-123");
            assert_eq!(from, "6h");
            assert!(to.is_none());
        }
        _ => panic!("expected Results"),
    }
}

#[test]
fn test_parse_results_with_to() {
    let cmd = SyntheticsCmd::try_parse_from(&["test", "results", "--id", "test-123", "--from", "2h", "--to", "1h"]).unwrap();
    match cmd {
        SyntheticsCmd::Results { id, from, to, .. } => {
            assert_eq!(id, "test-123");
            assert_eq!(from, "2h");
            assert_eq!(to.unwrap(), "1h");
        }
        _ => panic!("expected Results"),
    }
}

// ddog traces

#[test]
fn test_parse_trace_id() {
    let args = TracesGet::try_parse_from(&["test", "--trace-id", "abc123"]).unwrap();
    assert_eq!(args.trace_id, "abc123");
    assert_eq!(args.from, "6h");
    assert_eq!(args.limit, 100);
}

#[test]
fn test_parse_rejects_empty_trace_id() {
    let err = TracesGet::try_parse_from(&["test", "--trace-id", ""])
        .err()
        .expect("expected clap validation error");
    assert!(err.message().contains("--trace-id"));
}
