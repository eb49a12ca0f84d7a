use ddog::cli::take_max_tokens;
use ddog::client::{check_credentials, url_of};
use ddog::config::Config;
use ddog::error::DdError;
use ddog::time::{format_duration, parse_relative, resolve_range_at, Instant};
use ddog::commands::traces::{self, TracesGet};
use ddog::commands::command_line::{parse_command, Command};
use ddog::commands::logs::LogsCmd;
use ddog::commands::show::{finish, insert_sorted_vec, needed_responses};
use ddog::commands::{
    aggregate_compute, facet_group, measure_sort, normalize_facet, normalize_metric, require_non_empty,
    trace_id_query, Note, Show,
};
use ddog::json::{insert_member, Json};
use ddog::output::{
    estimate_tokens, last_segment, max_tokens, render_object, set_max_tokens, split_path, table_lines, Format,
    Printed, TokenBudget,
};
use ddog::text::{contains_text, parse_i64, parse_u64};
use serde_json::Value;

fn to_json(v: &Value) -> Json {
    match v {
        Value::Null => Json::Null,
        Value::Bool(b) => Json::Bool(*b),
        Value::Number(n) => Json::Number(n.to_string()),
        Value::String(s) => Json::Str(s.clone()),
        Value::Array(items) => Json::Array(items.iter().map(to_json).collect()),
        Value::Object(map) => Json::Object(map.iter().map(|(k, v)| (k.clone(), to_json(v))).collect()),
    }
}

/// A value from JSON text.
fn j(text: &str) -> Json {
    to_json(&serde_json::from_str::<Value>(text).expect("valid JSON"))
}

fn note_parts(n: &Note) -> (bool, &str) {
    match n {
        Note::Info(t) => (false, t.as_str()),
        Note::Warn(t) => (true, t.as_str()),
    }
}

fn printed_text(p: &Option<Printed>) -> &str {
    match p {
        Some(Printed::Text(t)) => t.as_str(),
        _ => panic!("expected text output"),
    }
}

fn chars(s: &str) -> Vec<char> {
    s.chars().collect()
}

#[test]
fn max_tokens_defaults_to_ten_thousand() {
    let (budget, rest) = take_max_tokens(&["ddog", "logs", "search"]).unwrap();
    assert_eq!(budget, 10000);
    assert_eq!(rest, vec!["ddog", "logs", "search"]);
}

#[test]
fn max_tokens_is_taken_out_of_the_line() {
    let (budget, rest) = take_max_tokens(&["ddog", "--max-tokens", "500", "logs", "search"]).unwrap();
    assert_eq!(budget, 500);
    assert_eq!(rest, vec!["ddog", "logs", "search"]);
}

#[test]
fn max_tokens_inline_value_and_zero() {
    let (budget, rest) = take_max_tokens(&["ddog", "monitors", "--max-tokens=0"]).unwrap();
    assert_eq!(budget, 0);
    assert_eq!(rest, vec!["ddog", "monitors"]);
}

#[test]
fn max_tokens_rejects_missing_or_bad_value() {
    assert!(take_max_tokens(&["ddog", "logs", "--max-tokens"]).is_err());
    assert!(take_max_tokens(&["ddog", "--max-tokens", "lots", "logs"]).is_err());
}

#[test]
fn parse_command_reads_logs_search_with_defaults() {
    match parse_command(&["ddog", "logs", "search", "--query", "service:web"]).unwrap() {
        Command::Logs(LogsCmd::Search { query, from, to, limit, sort, cursor, indexes, format }) => {
            assert_eq!(query, "service:web");
            assert_eq!(from, "1h");
            assert!(to.is_none());
            assert_eq!(limit, 25);
            assert_eq!(sort, "-timestamp");
            assert!(cursor.is_none());
            assert!(indexes.is_empty());
            assert!(matches!(format, Format::Json));
        }
        _ => panic!("expected logs search"),
    }
}

#[test]
fn parse_command_rejects_unknown_command() {
    assert!(parse_command(&["ddog", "frobnicate"]).is_err());
    assert!(parse_command(&["ddog"]).is_err());
}

#[test]
fn log_page_reports_count_and_next_cursor() {
    let show = Show::LogPage { columns: vec!["id"] };
    let response = j(r#"{"data":[{"id":"a"},{"id":"b"}],"meta":{"page":{"after":"next-1"}}}"#);
    let done = finish(&show, Format::Json, &vec![response], 0);
    assert_eq!(printed_text(&done.printed), r#"{"data":[{"id":"a"},{"id":"b"}],"meta":{"page":{"after":"next-1"}}}"#);
    assert_eq!(done.notes.len(), 2);
    assert_eq!(note_parts(&done.notes[0]), (false, "\x1b[36minfo:\x1b[0m Returned 2 logs."));
    assert_eq!(
        note_parts(&done.notes[1]),
        (false, "\x1b[36minfo:\x1b[0m More results available. Use --cursor \"next-1\"")
    );
}

#[test]
fn trace_summary_counts_sorted_distinct_services_and_errors() {
    let show = Show::TraceSummary { trace_id: "t1".to_string() };
    let response = j(r#"{"data":[
        {"attributes":{"service":"web","status":"ok"}},
        {"attributes":{"service":"api","status":"error"}},
        {"attributes":{"service":"web","status":"error"}},
        {"attributes":{"status":"ok"}}
    ]}"#);
    let done = finish(&show, Format::Full, &vec![response], 0);
    assert_eq!(
        printed_text(&done.printed),
        r#"{"error_count":2,"service_count":2,"services":["api","web"],"span_count":4,"trace_id":"t1"}"#
    );
    assert!(done.notes.is_empty());
}

#[test]
fn trace_compare_reports_both_span_counts() {
    let show = Show::TraceCompare { trace_a: "a".to_string(), trace_b: "b".to_string() };
    let first = j(r#"{"data":[{"id":1},{"id":2}]}"#);
    let second = j(r#"{}"#);
    let done = finish(&show, Format::Full, &vec![first, second], 0);
    assert_eq!(note_parts(&done.notes[0]), (false, "\x1b[36minfo:\x1b[0m Trace A: 2 spans, Trace B: 0 spans"));
    assert_eq!(
        printed_text(&done.printed),
        r#"{"trace_a":{"data":[{"id":1},{"id":2}],"span_count":2,"trace_id":"a"},"trace_b":{"data":null,"span_count":0,"trace_id":"b"}}"#
    );
}

#[test]
fn member_list_without_the_member_shows_an_empty_list() {
    let show = Show::Member { key: "tests", columns: vec!["name"], count_label: "synthetic tests" };
    let done = finish(&show, Format::Full, &vec![j(r#"{"other":1}"#)], 0);
    assert_eq!(printed_text(&done.printed), "[]");
    assert_eq!(note_parts(&done.notes[0]), (false, "\x1b[36minfo:\x1b[0m No synthetic tests found."));
}

#[test]
fn object_members_read_back_what_was_written() {
    let mut members: Vec<(String, Json)> = Vec::new();
    insert_member(&mut members, "b".to_string(), Json::uint(2));
    insert_member(&mut members, "a".to_string(), Json::text("x"));
    insert_member(&mut members, "b".to_string(), Json::uint(3));
    assert_eq!(members.len(), 2);
    let obj = Json::Object(members);
    assert_eq!(obj.get(&"b".to_string()).unwrap().to_text(), "3");
    assert_eq!(obj.get(&"a".to_string()).unwrap().to_text(), "\"x\"");
    assert!(obj.get(&"c".to_string()).is_none());
    assert_eq!(obj.to_text(), r#"{"a":"x","b":3}"#);
}

#[test]
fn url_joins_base_and_path() {
    assert_eq!(url_of("https://api.datadoghq.com", "/api/v1/monitor"), "https://api.datadoghq.com/api/v1/monitor");
}

#[test]
fn facets_and_metrics_get_one_at_prefix() {
    assert_eq!(normalize_facet("service"), "@service");
    assert_eq!(normalize_facet("@service"), "@service");
    assert_eq!(normalize_metric("duration"), "@duration");
    assert_eq!(normalize_metric("@duration"), "@duration");
}

#[test]
fn aggregation_pieces_have_their_json_shape() {
    assert_eq!(
        measure_sort("avg", Some("@duration")).to_text(),
        r#"{"aggregation":"avg","metric":"@duration","order":"desc","type":"measure"}"#
    );
    assert_eq!(aggregate_compute("count", None).to_text(), r#"{"aggregation":"count"}"#);
    assert_eq!(
        facet_group("service", 10, measure_sort("count", None)).to_text(),
        r#"{"facet":"@service","limit":10,"sort":{"aggregation":"count","order":"desc","type":"measure"}}"#
    );
}

#[test]
fn trace_query_escapes_quotes() {
    assert_eq!(trace_id_query("abc"), "@trace_id:\"abc\"");
    assert_eq!(trace_id_query("a\"b"), "@trace_id:\"a\\\"b\"");
}

#[test]
fn blank_values_are_refused() {
    assert_eq!(require_non_empty("Query", "  \t"), Err("Query must not be empty.".to_string()));
    assert_eq!(require_non_empty("Query", " x "), Ok(()));
}

#[test]
fn table_has_header_then_cells() {
    let rows = vec![j(r#"{"a":1,"b":"x","c":null,"d":[1,2]}"#)];
    let lines = table_lines(&rows, &["a", "b", "c", "d"]);
    assert_eq!(lines, vec![vec!["a", "b", "c", "d"], vec!["1", "x", "-", "2 items"]]);
}

#[test]
fn single_object_output_forms() {
    let v = j(r#"{"data":{"id":"7","attributes":{"title":"Outage"}}}"#);
    match render_object(&v, Format::Json, &["data.id", "data.attributes.title"]) {
        Printed::Text(t) => assert_eq!(t, r#"{"id":"7","title":"Outage"}"#),
        _ => panic!("expected text"),
    }
    match render_object(&v, Format::Full, &["data.id"]) {
        Printed::Text(t) => assert_eq!(t, r#"{"data":{"attributes":{"title":"Outage"},"id":"7"}}"#),
        _ => panic!("expected text"),
    }
    match render_object(&v, Format::Table, &["data.id"]) {
        Printed::Table(t) => assert_eq!(t, vec![vec!["data.id"], vec!["7"]]),
        _ => panic!("expected table"),
    }
}

#[test]
fn paths_split_on_dots() {
    assert_eq!(split_path("a.b.c"), vec!["a", "b", "c"]);
    assert_eq!(split_path("name"), vec!["name"]);
    assert_eq!(last_segment("data.attributes.title"), "title");
    assert_eq!(last_segment("title"), "title");
}

#[test]
fn tokens_are_three_bytes_each_rounded_up() {
    // {"a":1} is 7 bytes
    assert_eq!(estimate_tokens(&j(r#"{"a":1}"#)), 3);
    // "ab" is 4 bytes
    assert_eq!(estimate_tokens(&Json::text("ab")), 2);
    assert_eq!(estimate_tokens(&Json::Null), 2);
}

#[test]
fn only_the_first_budget_setting_counts() {
    let mut budget = TokenBudget::new();
    assert_eq!(max_tokens(&budget), 0);
    set_max_tokens(&mut budget, 500);
    set_max_tokens(&mut budget, 42);
    assert_eq!(max_tokens(&budget), 500);
}

#[test]
fn sorted_insert_keeps_order_and_drops_repeats() {
    let mut v = vec!["a".to_string(), "c".to_string()];
    insert_sorted_vec(&mut v, "b".to_string());
    assert_eq!(v, vec!["a", "b", "c"]);
    insert_sorted_vec(&mut v, "a".to_string());
    assert_eq!(v, vec!["a", "b", "c"]);
    insert_sorted_vec(&mut v, "d".to_string());
    assert_eq!(v, vec!["a", "b", "c", "d"]);
}

#[test]
fn decimal_numbers_parse() {
    assert_eq!(parse_u64(&chars("42")), Some(42));
    assert_eq!(parse_u64(&chars("-1")), None);
    assert_eq!(parse_u64(&chars("")), None);
    assert_eq!(parse_i64(&chars("-7")), Some(-7));
    assert_eq!(parse_i64(&chars("x")), None);
}

#[test]
fn substring_search() {
    assert!(contains_text(&chars("Time range too large"), &chars("range")));
    assert!(!contains_text(&chars("abc"), &chars("abd")));
    assert!(contains_text(&chars("abc"), &chars("")));
}

fn config(api: &str, app: &str) -> Config {
    Config { api_key: api.to_string(), app_key: app.to_string(), site: "datadoghq.com".to_string() }
}

fn refusal(r: Result<(), DdError>) -> (u16, String) {
    match r {
        Err(DdError::Api { status, body }) => (status, body),
        Ok(()) => panic!("expected the keys to be refused"),
        Err(other) => panic!("unexpected error: {}", other.message()),
    }
}

#[test]
fn credentials_that_are_header_values_pass() {
    assert!(check_credentials(&config("abc123", "def456")).is_ok());
    assert!(check_credentials(&config("tab\there", "ünïcödé")).is_ok());
}

#[test]
fn api_key_is_checked_before_app_key() {
    assert_eq!(
        refusal(check_credentials(&config("bad\nkey", "also\u{7f}bad"))),
        (0, "Invalid API key header value: failed to parse header value".to_string())
    );
    assert_eq!(
        refusal(check_credentials(&config("good", "bad\u{1}key"))),
        (0, "Invalid APP key header value: failed to parse header value".to_string())
    );
}

#[test]
fn short_options_take_attached_values() {
    for line in [
        vec!["ddog", "logs", "search", "-l50"],
        vec!["ddog", "logs", "search", "-l=50"],
        vec!["ddog", "logs", "search", "-l", "50"],
    ] {
        match parse_command(&line).unwrap() {
            Command::Logs(LogsCmd::Search { limit, .. }) => assert_eq!(limit, 50),
            _ => panic!("expected logs search"),
        }
    }
    match parse_command(&["ddog", "logs", "search", "-qservice:web"]).unwrap() {
        Command::Logs(LogsCmd::Search { query, .. }) => assert_eq!(query, "service:web"),
        _ => panic!("expected logs search"),
    }
}

#[test]
fn only_a_comparison_needs_two_responses() {
    assert_eq!(needed_responses(&Show::TraceCompare { trace_a: "a".into(), trace_b: "b".into() }), 2);
    assert_eq!(needed_responses(&Show::Series), 1);
    assert_eq!(needed_responses(&Show::List { columns: vec!["id"], label: None }), 1);
}

#[test]
fn blank_trace_id_is_refused_before_time_flags_are_read() {
    let args = TracesGet { trace_id: "  ".into(), from: "1é".into(), to: None, limit: 100, format: Format::Json };
    assert!(traces::readable(&args));
    let now = Instant { secs: 1_700_000_000, nanos: 0 };
    match traces::plan_at(&args, now, now) {
        Err(DdError::Validation(m)) => assert_eq!(m, "Trace ID must not be empty."),
        _ => panic!("expected the blank ID to be refused"),
    }
    let named = TracesGet { trace_id: "abc".into(), from: "1é".into(), to: None, limit: 100, format: Format::Json };
    assert!(!traces::readable(&named));
}

#[test]
fn rendered_durations_read_back() {
    for d in [1i64, 59, 60, 90, 3600, 5400, 86_400, 90_000, 31_536_000] {
        assert_eq!(parse_relative(&format_duration(d)), Some(d));
    }
}

#[test]
fn an_hour_back_from_now_resolves() {
    let now = Instant { secs: 1_700_000_000, nanos: 0 };
    let w = resolve_range_at("1h", &None, 24, now, now).unwrap();
    assert_eq!(w.duration_secs, 3600);
    assert_eq!(w.from, "2023-11-14T21:13:20+00:00");
    assert_eq!(w.to, "2023-11-14T22:13:20+00:00");
}
