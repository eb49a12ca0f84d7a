use ddog::json::Json;
use ddog::output::{
    apply_budget, count_rows, extract_rows, format_cell, project, project_row, render_output, resolve_cells,
    resolve_path, Format,
};
use serde_json::Value;

fn to_json(v: &Value) -> Json {
    match v {
        Value::Null => Json::Null,
        Value::Bool(b) => Json::Bool(*b),
        Value::Number(n) => Json::Number(n.to_string()),
        Value::String(s) => Json::Str(s.clone()),
        Value::Array(items) => Json::Array(items.iter().map(to_json).collect()),
        Value::Object(map) => Json::Object(map.iter().map(|(k, v)| (k.clone(), to_json(v))).collect()),
    }
}

/// A value from JSON text.
fn j(text: &str) -> Json {
    to_json(&serde_json::from_str::<Value>(text).expect("valid JSON"))
}

/// The compact JSON text of JSON text, as serde_json writes it.
fn canon(text: &str) -> String {
    serde_json::to_string(&serde_json::from_str::<Value>(text).expect("valid JSON")).unwrap()
}

#[test]
fn test_resolve_path_simple() {
    let val = j(r#"{"name": "test"}"#);
    assert_eq!(resolve_path(&val, "name").to_text(), canon(r#""test""#));
}

#[test]
fn test_resolve_path_nested() {
    let val = j(r#"{"a": {"b": {"c": 42}}}"#);
    assert_eq!(resolve_path(&val, "a.b.c").to_text(), "42");
}

#[test]
fn test_resolve_path_missing() {
    let val = j(r#"{"name": "test"}"#);
    assert_eq!(resolve_path(&val, "missing").to_text(), "null");
}

#[test]
fn test_resolve_path_array_index() {
    let val = j(r#"{"thresholds": [{"target": 99.9}, {"target": 95.0}]}"#);
    assert_eq!(resolve_path(&val, "thresholds.1.target").to_text(), canon("95.0"));
}

#[test]
fn test_resolve_path_array_index_out_of_range() {
    let val = j(r#"{"thresholds": [{"target": 99.9}]}"#);
    assert_eq!(resolve_path(&val, "thresholds.5.target").to_text(), "null");
}

#[test]
fn test_resolve_path_array_nested_object() {
    let val = j(r#"{"a": [{"b": "hit"}]}"#);
    assert_eq!(resolve_path(&val, "a.0.b").to_text(), canon(r#""hit""#));
}

#[test]
fn test_resolve_path_numeric_object_key() {
    let val = j(r#"{"a": {"0": "by-key"}}"#);
    assert_eq!(resolve_path(&val, "a.0").to_text(), canon(r#""by-key""#));
}

#[test]
fn test_resolve_path_non_numeric_segment_on_array() {
    let val = j(r#"{"a": [{"b": 1}]}"#);
    assert_eq!(resolve_path(&val, "a.state").to_text(), "null");
    assert_eq!(resolve_path(&val, "a.-1").to_text(), "null");
}

#[test]
fn test_resolve_cells_marks_unresolved_columns() {
    let rows = vec![j(r#"{"id": 1, "status": "Alert"}"#)];
    assert_eq!(resolve_cells(&rows, &["id", "status", "missing"]), vec![vec!["1", "Alert", "-"]]);
}

#[test]
fn test_format_cell_null() {
    assert_eq!(format_cell(&Json::Null), "-");
}

#[test]
fn test_format_cell_string() {
    assert_eq!(format_cell(&j(r#""hello""#)), "hello");
}

#[test]
fn test_format_cell_number() {
    assert_eq!(format_cell(&j("42")), "42");
}

#[test]
fn test_format_cell_bool() {
    assert_eq!(format_cell(&j("true")), "true");
}

#[test]
fn test_format_cell_array() {
    assert_eq!(format_cell(&j("[1, 2, 3]")), "3 items");
}

#[test]
fn test_extract_rows_data_array() {
    let val = j(r#"{"data": [{"id": 1}, {"id": 2}]}"#);
    assert_eq!(extract_rows(&val).len(), 2);
}

#[test]
fn test_extract_rows_host_list() {
    let val = j(r#"{"host_list": [{"name": "a"}, {"name": "b"}]}"#);
    assert_eq!(extract_rows(&val).len(), 2);
}

#[test]
fn test_extract_rows_single_object() {
    let val = j(r#"{"type": "metric", "description": "cpu"}"#);
    assert_eq!(extract_rows(&val).len(), 1);
}

#[test]
fn test_count_rows_empty() {
    let val = j(r#"{"data": []}"#);
    assert_eq!(count_rows(&val), 0);
}

#[test]
fn test_extract_rows_spans_response() {
    let response = j(r#"{
        "data": [
            {"type": "spans", "id": "span1", "attributes": {"service": "web", "resource_name": "GET /api/users",
                "duration": 1234567, "status": "ok", "trace_id": "abc123"}},
            {"type": "spans", "id": "span2", "attributes": {"service": "db", "resource_name": "SELECT users",
                "duration": 567890, "status": "ok", "trace_id": "abc123"}}
        ],
        "meta": {"page": {"after": "cursor123"}}
    }"#);
    let rows = extract_rows(&response);
    assert_eq!(rows.len(), 2);
    assert_eq!(resolve_path(&rows[0], "attributes.service").to_text(), canon(r#""web""#));
    assert_eq!(resolve_path(&rows[0], "attributes.resource_name").to_text(), canon(r#""GET /api/users""#));
    assert_eq!(resolve_path(&rows[1], "attributes.duration").to_text(), "567890");
}

#[test]
fn test_extract_rows_events_response() {
    let response = j(r#"{
        "data": [
            {"type": "event", "id": "evt1", "attributes": {"timestamp": "2026-03-17T10:00:00Z",
                "message": "Deploy v1.2.3 started", "attributes": {"evt": {"name": "deploy.start"}, "status": "info"}}}
        ],
        "meta": {}
    }"#);
    let rows = extract_rows(&response);
    assert_eq!(rows.len(), 1);
    assert_eq!(resolve_path(&rows[0], "attributes.attributes.evt.name").to_text(), canon(r#""deploy.start""#));
    assert_eq!(resolve_path(&rows[0], "attributes.timestamp").to_text(), canon(r#""2026-03-17T10:00:00Z""#));
    assert_eq!(resolve_path(&rows[0], "attributes.message").to_text(), canon(r#""Deploy v1.2.3 started""#));
}

#[test]
fn test_single_object_data_not_unwrapped() {
    let response = j(r#"{"data": {"id": "trace.http.request.duration", "type": "metrics",
        "attributes": {"tags": ["env", "service"]}}}"#);
    let rows = extract_rows(&response);
    assert_eq!(rows.len(), 1);
    assert_eq!(resolve_path(&rows[0], "data.id").to_text(), canon(r#""trace.http.request.duration""#));
}

#[test]
fn test_dashboards_response() {
    let response = j(r#"{"dashboards": [
        {"id": "abc-123", "title": "Production Overview", "layout_type": "ordered"},
        {"id": "def-456", "title": "API Metrics", "layout_type": "free"}
    ]}"#);
    let rows = extract_rows(&response);
    assert_eq!(rows.len(), 2);
    assert_eq!(resolve_path(&rows[0], "title").to_text(), canon(r#""Production Overview""#));
    assert_eq!(resolve_path(&rows[1], "id").to_text(), canon(r#""def-456""#));
}

#[test]
fn test_host_list_response() {
    let response = j(r#"{"host_list": [
        {"name": "web-1", "up": true, "meta": {"platform": "linux"}},
        {"name": "web-2", "up": false, "meta": {"platform": "linux"}}
    ], "total_matching": 2}"#);
    let rows = extract_rows(&response);
    assert_eq!(rows.len(), 2);
    assert_eq!(resolve_path(&rows[0], "name").to_text(), canon(r#""web-1""#));
    assert_eq!(resolve_path(&rows[0], "meta.platform").to_text(), canon(r#""linux""#));
}

#[test]
fn test_metrics_series_response() {
    let response = j(r#"{"series": [
        {"metric": "system.cpu.user", "scope": "host:web-1", "pointlist": [[1710000000, 45.2]]}
    ]}"#);
    let rows = extract_rows(&response);
    assert_eq!(rows.len(), 1);
    assert_eq!(resolve_path(&rows[0], "metric").to_text(), canon(r#""system.cpu.user""#));
}

#[test]
fn test_format_cell_long_utf8_string() {
    let s = "日本語のテスト".repeat(20);
    let result = format_cell(&Json::Str(s));
    assert!(result.chars().count() <= 80);
    assert!(result.ends_with("..."));
}

#[test]
fn test_print_output_returns_correct_count() {
    let response = j(r#"{"data": [{"id": "1"}, {"id": "2"}, {"id": "3"}]}"#);
    let rendered = render_output(&response, Format::Json, &["id"], 0);
    assert_eq!(rendered.count, 3);
}

#[test]
fn test_project_row_keeps_unresolved_as_null() {
    let row = j(r#"{"id": 1, "attributes": {"service": "web"}}"#);
    assert_eq!(
        project_row(&row, &["id", "attributes.service", "attributes.host"]).to_text(),
        canon(r#"{"id": 1, "service": "web", "host": null}"#)
    );
}

#[test]
fn test_project_keeps_wrapper_and_meta_drops_the_rest() {
    let response = j(r#"{
        "monitors": [
            {"id": 1, "name": "a", "tags": ["x"], "message": "long"},
            {"id": 2, "name": "b", "tags": ["y"], "message": "long"}
        ],
        "counts": {"status": [{"count": 2, "name": "Alert"}]},
        "metadata": {"page": 0, "total_count": 2}
    }"#);
    let (body, shown, total) = project(&response, &["id", "name"], 0);
    assert_eq!(
        body.to_text(),
        canon(r#"{"monitors": [{"id": 1, "name": "a"}, {"id": 2, "name": "b"}], "metadata": {"page": 0, "total_count": 2}}"#)
    );
    assert_eq!((shown, total), (2, 2));
}

#[test]
fn test_project_keeps_paging_cursor_in_meta() {
    let response = j(r#"{
        "data": [{"id": "1", "attributes": {"service": "web", "tags": ["a", "b"]}}],
        "meta": {"page": {"after": "cursor"}}
    }"#);
    let (body, _, _) = project(&response, &["attributes.service"], 0);
    assert_eq!(resolve_path(&body, "data").to_text(), canon(r#"[{"service": "web"}]"#));
    assert_eq!(resolve_path(&body, "meta.page.after").to_text(), canon(r#""cursor""#));
}

#[test]
fn test_project_bare_array() {
    let response = j(r#"[{"id": "1", "extra": true}, {"id": "2", "extra": false}]"#);
    let (body, _, total) = project(&response, &["id"], 0);
    assert_eq!(body.to_text(), canon(r#"[{"id": "1"}, {"id": "2"}]"#));
    assert_eq!(total, 2);
}

#[test]
fn test_project_object_without_rows_is_a_single_object() {
    let response = j(r#"{"data": {"buckets": [1, 2]}, "meta": {"elapsed": 1}}"#);
    let (body, shown, total) = project(&response, &["data.buckets"], 0);
    assert_eq!(body.to_text(), canon(r#"{"buckets": [1, 2]}"#));
    assert_eq!((shown, total), (1, 1));
}

fn numbered_rows(n: usize) -> Vec<Json> {
    (0..n).map(|i| j(&format!(r#"{{"i": {i}}}"#))).collect()
}

#[test]
fn test_apply_budget_zero_is_unlimited() {
    let (kept, total) = apply_budget(numbered_rows(100), 0);
    assert_eq!((kept.len(), total), (100, 100));
}

#[test]
fn test_apply_budget_cuts_rows_past_the_budget() {
    let (kept, total) = apply_budget(numbered_rows(10), 7);
    assert_eq!(total, 10);
    assert_eq!(kept.len(), 2);
}

#[test]
fn test_apply_budget_always_keeps_first_row() {
    let rows = vec![j(&format!(r#"{{"message": "{}"}}"#, "x".repeat(1000))), j(r#"{"message": "y"}"#)];
    let (kept, total) = apply_budget(rows, 1);
    assert_eq!((kept.len(), total), (1, 2));
}

#[test]
fn test_project_reports_truncation() {
    let items: Vec<String> = (0..50).map(|i| format!(r#"{{"id": {i}}}"#)).collect();
    let response = j(&format!(r#"{{"data": [{}]}}"#, items.join(",")));
    let (body, shown, total) = project(&response, &["id"], 10);
    assert!(shown < total);
    match resolve_path(&body, "data") {
        Json::Array(rows) => assert_eq!(rows.len(), shown),
        _ => panic!("expected the kept rows under data"),
    }
}

#[test]
fn truncated_output_warns_with_the_counts() {
    let items: Vec<String> = (0..50).map(|i| format!(r#"{{"id": {i}}}"#)).collect();
    let response = j(&format!(r#"{{"data": [{}]}}"#, items.join(",")));
    let rendered = render_output(&response, Format::Json, &["id"], 10);
    let warning = rendered.warning.expect("a warning when rows are dropped");
    assert!(warning.starts_with("Output truncated to "));
    assert!(warning.ends_with(" of 50 rows by --max-tokens 10. Raise it or pass --max-tokens 0 to disable."));
    assert_eq!(rendered.count, 50);
}

#[test]
fn full_and_table_ignore_the_budget() {
    let items: Vec<String> = (0..50).map(|i| format!(r#"{{"id": {i}}}"#)).collect();
    let response = j(&format!(r#"{{"data": [{}]}}"#, items.join(",")));
    let a = render_output(&response, Format::Full, &["id"], 10);
    let b = render_output(&response, Format::Full, &["id"], 0);
    assert!(a.warning.is_none());
    match (a.printed, b.printed) {
        (ddog::output::Printed::Text(x), ddog::output::Printed::Text(y)) => assert_eq!(x, y),
        _ => panic!("full output is text"),
    }
    let t = render_output(&response, Format::Table, &["id"], 10);
    match t.printed {
        ddog::output::Printed::Table(lines) => assert_eq!(lines.len(), 51),
        _ => panic!("table output is a table"),
    }
}
