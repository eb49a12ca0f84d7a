use ddog::commands::apm::{self, ApmCmd};
use ddog::commands::dashboards::{self, DashboardsSearch, Pager, Search};
use ddog::commands::metrics::bin_bounds;
use ddog::commands::monitors::{self, MonitorsSearch};
use ddog::commands::spans::{self, SpansSearch};
use ddog::commands::traces::{self, TracesGet};
use ddog::commands::{Method, Note};
use ddog::error::DdError;
use ddog::json::Json;
use ddog::output::Format;
use ddog::time::Instant;

fn now() -> Instant {
    Instant { secs: 1_700_000_000, nanos: 0 }
}

fn body_text(plan: &ddog::commands::Plan, k: usize) -> String {
    plan.requests[k].body.as_ref().expect("a POST body").to_text()
}

fn note_text(n: &Note) -> &str {
    match n {
        Note::Info(t) | Note::Warn(t) => t.as_str(),
    }
}

#[test]
fn spans_search_sends_search_request_envelope() {
    let args = SpansSearch {
        query: "service:web".into(),
        from: "1h".into(),
        to: None,
        limit: 25,
        sort: "-timestamp".into(),
        cursor: None,
        format: Format::Json,
    };
    let plan = spans::plan_at(&args, now(), now()).unwrap();
    assert_eq!(plan.requests.len(), 1);
    assert!(matches!(plan.requests[0].method, Method::Post));
    assert_eq!(plan.requests[0].path, "/api/v2/spans/events/search");
    let body = body_text(&plan, 0);
    assert!(body.starts_with("{\"data\":{\"attributes\":{\"filter\":{\"from\":\""));
    assert!(body.contains("\"query\":\"service:web\""));
    assert!(body.ends_with("\"page\":{\"limit\":25},\"sort\":\"-timestamp\"},\"type\":\"search_request\"}}"));
    assert_eq!(note_text(&plan.notes[0]), "\x1b[36minfo:\x1b[0m Searching spans: query=\"service:web\" range=1h limit=25");
}

#[test]
fn traces_get_quotes_the_trace_id() {
    let args = TracesGet { trace_id: "abc123".into(), from: "1h".into(), to: None, limit: 100, format: Format::Json };
    let plan = traces::plan_at(&args, now(), now()).unwrap();
    let body = body_text(&plan, 0);
    assert!(body.contains("\"query\":\"@trace_id:\\\"abc123\\\"\""));
    assert!(body.contains("\"page\":{\"limit\":100},\"sort\":\"timestamp\""));
}

#[test]
fn spans_search_rejects_zero_limit_before_network() {
    let args = SpansSearch {
        query: "*".into(),
        from: "1h".into(),
        to: None,
        limit: 0,
        sort: "-timestamp".into(),
        cursor: None,
        format: Format::Json,
    };
    let err = spans::plan_at(&args, now(), now()).err().expect("expected limit=0 to fail validation");
    assert!(err.message().contains("Limit must be at least 1"));
}

#[test]
fn spans_window_over_the_cap_is_refused() {
    let args = SpansSearch {
        query: "*".into(),
        from: "2d".into(),
        to: None,
        limit: 25,
        sort: "-timestamp".into(),
        cursor: None,
        format: Format::Json,
    };
    let err = spans::plan_at(&args, now(), now()).err().expect("a 2-day window is over the 24h cap");
    assert_eq!(
        err.message(),
        "Time range too large: 2d requested, max 24h allowed. Use a shorter --from or add --to to narrow the window."
    );
}

#[test]
fn apm_metrics_sends_aggregate_envelope() {
    let cmd = ApmCmd::Metrics {
        query: "service:web".into(),
        from: "1h".into(),
        to: None,
        compute: "avg".into(),
        metric: "duration".into(),
        group_by: vec!["service".into()],
        format: Format::Json,
    };
    let plan = apm::plan_at(&cmd, now(), now()).unwrap();
    assert_eq!(plan.requests[0].path, "/api/v2/spans/analytics/aggregate");
    let body = body_text(&plan, 0);
    assert!(body.contains("\"compute\":[{\"aggregation\":\"avg\",\"metric\":\"@duration\"}]"));
    assert!(body.contains(
        "\"group_by\":[{\"facet\":\"@service\",\"limit\":25,\"sort\":{\"aggregation\":\"avg\",\"metric\":\"@duration\",\"order\":\"desc\",\"type\":\"measure\"}}]"
    ));
    assert!(body.ends_with("\"type\":\"aggregate_request\"}}"));
}

#[test]
fn apm_count_metrics_drop_the_measure() {
    let cmd = ApmCmd::Metrics {
        query: "*".into(),
        from: "1h".into(),
        to: None,
        compute: "count".into(),
        metric: "duration".into(),
        group_by: vec![],
        format: Format::Json,
    };
    let plan = apm::plan_at(&cmd, now(), now()).unwrap();
    assert!(body_text(&plan, 0).contains("\"compute\":[{\"aggregation\":\"count\"}]"));
}

#[test]
fn apm_compare_sends_two_searches() {
    let cmd = ApmCmd::Compare {
        trace_a: "aaa".into(),
        trace_b: "bbb".into(),
        from: "1h".into(),
        to: None,
        format: Format::Json,
    };
    let plan = apm::plan_at(&cmd, now(), now()).unwrap();
    assert_eq!(plan.requests.len(), 2);
    assert!(body_text(&plan, 0).contains("@trace_id:\\\"aaa\\\""));
    assert!(body_text(&plan, 1).contains("@trace_id:\\\"bbb\\\""));
    assert!(body_text(&plan, 0).contains("\"page\":{\"limit\":1000}}"));
}

#[test]
fn apm_trace_rejects_blank_trace_id() {
    let cmd = ApmCmd::Trace { trace_id: "  ".into(), from: "1h".into(), to: None, limit: 10, format: Format::Json };
    let err = apm::plan_at(&cmd, now(), now()).err().expect("blank trace id");
    assert_eq!(err.message(), "Trace ID must not be empty.");
}

#[test]
fn monitors_search_clamps_per_page_and_includes_sort() {
    let args = MonitorsSearch {
        query: "status:alert".into(),
        page: 2,
        per_page: 500,
        sort: Some("name".into()),
        format: Format::Json,
    };
    let plan = monitors::plan(&args).unwrap();
    let r = &plan.requests[0];
    assert!(matches!(r.method, Method::Get));
    assert_eq!(r.path, "/api/v1/monitor/search");
    assert!(r.params.contains(&("query".to_string(), "status:alert".to_string())));
    assert!(r.params.contains(&("page".to_string(), "2".to_string())));
    assert!(r.params.contains(&("per_page".to_string(), "100".to_string())));
    assert!(r.params.contains(&("sort".to_string(), "name".to_string())));
}

#[test]
fn monitors_search_rejects_zero_per_page_before_network() {
    let args = MonitorsSearch { query: "".into(), page: 0, per_page: 0, sort: None, format: Format::Json };
    let err = monitors::plan(&args).err().expect("expected per_page=0 to fail validation");
    assert!(err.message().contains("Per page must be at least 1."));
}

#[test]
fn dashboards_without_filter_fetch_one_page() {
    let args = DashboardsSearch { filter: None, count: 900, format: Format::Json };
    match dashboards::plan(&args).unwrap() {
        Search::Single(plan) => {
            assert_eq!(plan.requests[0].params, vec![("count".to_string(), "500".to_string())]);
            assert_eq!(note_text(&plan.notes[0]), "\x1b[36minfo:\x1b[0m Searching dashboards: filter=(all) max=500");
        }
        Search::Paged { .. } => panic!("expected a single request"),
    }
}

#[test]
fn dashboards_rejects_zero_count_before_network() {
    let args = DashboardsSearch { filter: None, count: 0, format: Format::Json };
    let err = dashboards::plan(&args).err().expect("count 0");
    assert_eq!(err.message(), "Count must be at least 1.");
}

fn dashboard(title: &str) -> Json {
    Json::Object(vec![("title".to_string(), Json::Str(title.to_string()))])
}

fn page(titles: &[&str]) -> Json {
    Json::Object(vec![("dashboards".to_string(), Json::Array(titles.iter().map(|t| dashboard(t)).collect()))])
}

#[test]
fn dashboards_filter_pages_through_results() {
    let mut first: Vec<&str> = vec!["Other"; 100];
    first[3] = "Production API";
    first[40] = "staging";
    let mut pager = Pager::new("PROD", 500);
    let req = pager.request();
    assert_eq!(req.params, vec![("start".to_string(), "0".to_string()), ("count".to_string(), "100".to_string())]);
    pager = pager.after_page(&page(&first));
    assert!(!pager.is_done());
    assert_eq!(pager.offset(), 100);
    assert_eq!(pager.request().params[0], ("start".to_string(), "100".to_string()));
    pager = pager.after_page(&page(&["prod db", "web"]));
    assert!(pager.is_done());
    assert_eq!(
        pager.result().to_text(),
        "{\"dashboards\":[{\"title\":\"Production API\"},{\"title\":\"prod db\"}]}"
    );
}

#[test]
fn dashboards_filter_stops_at_the_maximum() {
    let mut pager = Pager::new("a", 2);
    pager = pager.after_page(&page(&vec!["a1", "b", "a2", "a3"]));
    assert!(pager.is_done());
    assert_eq!(pager.result().to_text(), "{\"dashboards\":[{\"title\":\"a1\"},{\"title\":\"a2\"}]}");
}

#[test]
fn metric_buckets_split_points_evenly() {
    let b = bin_bounds(40, 20);
    assert_eq!(b.len(), 20);
    assert_eq!(b[0], (0, 2));
    assert_eq!(b[19], (38, 40));
    assert_eq!(bin_bounds(2, 20), vec![(0, 1), (1, 2)]);
    assert!(bin_bounds(0, 20).is_empty());
    assert_eq!(bin_bounds(45, 20).len(), 15);
    assert_eq!(bin_bounds(45, 20)[14], (42, 45));
}

#[test]
fn api_errors_carry_status_hints() {
    let e = DdError::Api { status: 403, body: "forbidden".into() };
    assert_eq!(
        e.message(),
        "Datadog API error (HTTP 403): forbidden\nPermission denied. Check DD_APP_KEY has the required scopes."
    );
    let e = DdError::Api { status: 401, body: "{}".into() };
    assert!(e.message().contains("Your API key is invalid or expired."));
}
