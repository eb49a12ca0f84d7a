//! `ddog apm`: spans, traces, trace metrics, tags, Watchdog stories, change
//! events and latency analyses.

use vstd::prelude::*;
use crate::cli::{
    count_at, count_opt, count_opt_v, count_val, format_at, format_opt, format_opt_v, format_val, id_opt, id_opt_v,
    list_at, list_val, lits, many_opt, many_opt_v, opt_text_at, opt_text_val, opts_view, parse_after_subcommand,
    parse_opts, pick_subcommand, strings_view, subcommand_of, text_at, text_opt, text_opt_v, text_val, CliError,
    Opt, OptV, ValV,
};
use crate::commands::{
    aggregate_body_v, aggregate_compute, aggregate_request_body, at_prefixed, columns_view, compute_v, empty_message,
    facet_group, facet_group_v, get_request, get_v, info_note, info_v, measure_sort, measure_sort_v, normalize_metric,
    notes_view, one_request, opt_as_str, opt_str, plan_result, plan_view, post_request, post_v, range_at, request_view,
    require_non_empty, requests_view, search_body_v, search_request_body, single, trace_id_query, trace_query, Note,
    Plan, PlanV, Request, Show, ShowV,
};
use crate::commands::events::{event_search_plan, search_plan_at};
use crate::error::DdError;
use crate::json::{jv_items, lemma_jv_items_push, Json, JsonV};
use crate::limits::{below_min_message, min_u32, resolve_limit, MAX_SEARCH_LIMIT, MAX_SPAN_HOURS};
use crate::log::info_text;
use crate::output::Format;
use crate::text::{append_text, decimal, decimal_text, text_of, trim};
use crate::time::{duration_text, flags_readable, format_duration, now_ok, opt_text, range_of, utc_now, Instant, TimeRange};

verus! {

/// APM: spans, traces and service analyses.
#[allow(inconsistent_fields)]
pub enum ApmCmd {
    /// Search APM spans with query
    Spans { query: String, from: String, to: Option<String>, limit: u32, cursor: Option<String>, format: Format },
    /// Explore a trace — retrieve all spans for a trace ID
    Trace { trace_id: String, from: String, to: Option<String>, limit: u32, format: Format },
    /// Generate a summary of a trace (span count, services, errors)
    Summary { trace_id: String, from: String, to: Option<String>, format: Format },
    /// Compare two traces side-by-side
    Compare { trace_a: String, trace_b: String, from: String, to: Option<String>, format: Format },
    /// Analyze trace metrics with aggregation (avg, p95, p99 by service/resource)
    Metrics {
        query: String,
        from: String,
        to: Option<String>,
        compute: String,
        metric: String,
        group_by: Vec<String>,
        format: Format,
    },
    /// Discover available span tag keys and their top values
    Tags { query: String, from: String, to: Option<String>, facet: String, format: Format },
    /// Get primary tag keys for a trace metric
    PrimaryTags { metric: String, format: Format },
    /// Search Watchdog anomaly detection stories
    Watchdog { id: Option<String>, from: String, to: Option<String>, limit: u32, format: Format },
    /// Search for deployment/infrastructure change events
    Changes { query: String, from: String, to: Option<String>, limit: u32, format: Format },
    /// Identify latency bottleneck spans by p99 self-time
    Bottlenecks { query: String, from: String, to: Option<String>, group_by: String, format: Format },
    /// Compare tag distributions to find latency correlation
    LatencyTags { query: String, from: String, to: Option<String>, tag: String, format: Format },
}

/// The columns shown for aggregations.
pub open spec fn aggregate_columns() -> Seq<Seq<char>> {
    seq!["attributes.by"@, "attributes.compute"@]
}

/// The columns shown for searched spans.
pub open spec fn apm_span_columns() -> Seq<Seq<char>> {
    seq!["attributes.service"@, "attributes.resource_name"@, "attributes.custom.duration"@, "attributes.status"@]
}

/// The columns shown for the spans of one trace.
pub open spec fn trace_columns() -> Seq<Seq<char>> {
    seq!["attributes.service"@, "attributes.resource_name"@, "attributes.custom.duration"@, "attributes.span_id"@,
        "attributes.parent_id"@]
}

/// The columns shown for a metric's primary tags.
pub open spec fn primary_tag_columns() -> Seq<Seq<char>> {
    seq!["data.id"@, "data.type"@, "data.attributes.tags"@]
}

/// The span search endpoint.
pub open spec fn span_search_path() -> Seq<char> {
    "/api/v2/spans/events/search"@
}

/// A span aggregation after the info line `msg`, shown on the aggregation columns.
pub open spec fn span_aggregate(
    msg: Seq<char>,
    query: Seq<char>,
    w: (Seq<char>, Seq<char>, int),
    computes: Seq<JsonV>,
    groups: Seq<JsonV>,
    format: Format,
) -> PlanV {
    single(
        seq![info_v(info_text(msg))],
        post_v("/api/v2/spans/analytics/aggregate"@, aggregate_body_v(query, w.0, w.1, computes, groups)),
        format,
        ShowV::List { columns: aggregate_columns(), label: None },
    )
}

/// The measure a trace-metrics aggregation is computed on: none for `count`.
pub open spec fn computed_metric(compute: Seq<char>, metric: Seq<char>) -> Option<Seq<char>> {
    if compute != "count"@ { Some(at_prefixed(metric)) } else { None }
}

/// The group-bys of a trace-metrics aggregation: 25 groups per field.
pub open spec fn metric_groups_v(group_by: Seq<String>, compute: Seq<char>, metric: Option<Seq<char>>) -> Seq<JsonV> {
    Seq::new(group_by.len(), |i: int| facet_group_v(group_by[i]@, 25, measure_sort_v(compute, metric)))
}

/// The query of a Watchdog story search.
pub open spec fn watchdog_query(id: Option<String>) -> Seq<char> {
    match id {
        Some(s) => "source:watchdog "@ + s@,
        None => "source:watchdog"@,
    }
}

/// Whether the time flags of the command can be read.
pub open spec fn apm_readable(c: ApmCmd) -> bool {
    match c {
        ApmCmd::Spans { from, to, .. } => flags_readable(from@, to),
        ApmCmd::Trace { trace_id, from, to, .. } => trim(trace_id@).len() > 0 ==> flags_readable(from@, to),
        ApmCmd::Summary { trace_id, from, to, .. } => trim(trace_id@).len() > 0 ==> flags_readable(from@, to),
        ApmCmd::Compare { trace_a, trace_b, from, to, .. } =>
            (trim(trace_a@).len() > 0 && trim(trace_b@).len() > 0) ==> flags_readable(from@, to),
        ApmCmd::Metrics { from, to, .. } => flags_readable(from@, to),
        ApmCmd::Tags { from, to, .. } => flags_readable(from@, to),
        ApmCmd::PrimaryTags { .. } => true,
        ApmCmd::Watchdog { from, to, .. } => flags_readable(from@, to),
        ApmCmd::Changes { from, to, .. } => flags_readable(from@, to),
        ApmCmd::Bottlenecks { from, to, .. } => flags_readable(from@, to),
        ApmCmd::LatencyTags { from, to, .. } => flags_readable(from@, to),
    }
}

/// Whether the time flags of the command can be read.
pub fn readable(cmd: &ApmCmd) -> (r: bool)
    ensures
        r == apm_readable(*cmd),
{
    match cmd {
        ApmCmd::Spans { from, to, .. } => crate::time::time_flags_ok(from.as_str(), to),
        ApmCmd::Trace { trace_id, from, to, .. } =>
            require_non_empty("Trace ID", trace_id.as_str()).is_err() || crate::time::time_flags_ok(from.as_str(), to),
        ApmCmd::Summary { trace_id, from, to, .. } =>
            require_non_empty("Trace ID", trace_id.as_str()).is_err() || crate::time::time_flags_ok(from.as_str(), to),
        ApmCmd::Compare { trace_a, trace_b, from, to, .. } =>
            require_non_empty("Trace A", trace_a.as_str()).is_err() || require_non_empty("Trace B", trace_b.as_str()).is_err()
                || crate::time::time_flags_ok(from.as_str(), to),
        ApmCmd::Metrics { from, to, .. } => crate::time::time_flags_ok(from.as_str(), to),
        ApmCmd::Tags { from, to, .. } => crate::time::time_flags_ok(from.as_str(), to),
        ApmCmd::PrimaryTags { .. } => true,
        ApmCmd::Watchdog { from, to, .. } => crate::time::time_flags_ok(from.as_str(), to),
        ApmCmd::Changes { from, to, .. } => crate::time::time_flags_ok(from.as_str(), to),
        ApmCmd::Bottlenecks { from, to, .. } => crate::time::time_flags_ok(from.as_str(), to),
        ApmCmd::LatencyTags { from, to, .. } => crate::time::time_flags_ok(from.as_str(), to),
    }
}

/// A span aggregation over a window of at most 24 hours, after the info line `msg`.
pub open spec fn windowed_aggregate(
    msg: Seq<char>,
    query: Seq<char>,
    from: Seq<char>,
    to: Option<String>,
    computes: Seq<JsonV>,
    groups: Seq<JsonV>,
    format: Format,
    now_from: Instant,
    now_to: Instant,
) -> Result<PlanV, Seq<char>> {
    match range_of(from, opt_text(to), 24, now_from, now_to) {
        Err(e) => Err(e),
        Ok(w) => Ok(span_aggregate(msg, query, w, computes, groups, format)),
    }
}

/// `ddog apm spans`: a span search, newest first.
pub open spec fn apm_spans_plan(
    query: Seq<char>, from: Seq<char>, to: Option<String>, limit: u32, cursor: Option<Seq<char>>, format: Format,
    now_from: Instant, now_to: Instant,
) -> Result<PlanV, Seq<char>> {
    match range_of(from, opt_text(to), 24, now_from, now_to) {
        Err(e) => Err(e),
        Ok(w) => if limit < 1 {
            Err(below_min_message("Limit"@, 1))
        } else {
            let limit = min_u32(limit, 1000);
            Ok(single(
                seq![info_v(info_text("Searching spans: query=\""@ + query + "\" range="@ + duration_text(w.2)
                    + " limit="@ + decimal(limit as nat)))],
                post_v(span_search_path(), search_body_v(query, w.0, w.1, limit, Some("-timestamp"@), cursor)),
                format,
                ShowV::List { columns: apm_span_columns(), label: Some("spans"@) },
            ))
        },
    }
}

/// `ddog apm trace`: the spans of one trace, oldest first.
pub open spec fn apm_trace_plan(
    trace_id: Seq<char>, from: Seq<char>, to: Option<String>, limit: u32, format: Format, now_from: Instant, now_to: Instant,
) -> Result<PlanV, Seq<char>> {
    if trim(trace_id).len() == 0 {
        Err(empty_message("Trace ID"@))
    } else {
        match range_of(from, opt_text(to), 24, now_from, now_to) {
            Err(e) => Err(e),
            Ok(w) => if limit < 1 {
                Err(below_min_message("Limit"@, 1))
            } else {
                let limit = min_u32(limit, 1000);
                Ok(single(
                    seq![info_v(info_text("Exploring trace: "@ + trace_id))],
                    post_v(span_search_path(),
                        search_body_v(trace_query(trace_id), w.0, w.1, limit, Some("timestamp"@), None)),
                    format,
                    ShowV::List { columns: trace_columns(), label: Some("spans in trace"@) },
                ))
            },
        }
    }
}

/// `ddog apm summary`: up to 1000 spans of one trace, summarized.
pub open spec fn apm_summary_plan(
    trace_id: Seq<char>, from: Seq<char>, to: Option<String>, format: Format, now_from: Instant, now_to: Instant,
) -> Result<PlanV, Seq<char>> {
    if trim(trace_id).len() == 0 {
        Err(empty_message("Trace ID"@))
    } else {
        match range_of(from, opt_text(to), 24, now_from, now_to) {
            Err(e) => Err(e),
            Ok(w) => Ok(single(
                seq![info_v(info_text("Generating summary for trace: "@ + trace_id))],
                post_v(span_search_path(),
                    search_body_v(trace_query(trace_id), w.0, w.1, 1000, Some("timestamp"@), None)),
                format,
                ShowV::TraceSummary { trace_id },
            )),
        }
    }
}

/// `ddog apm compare`: up to 1000 spans of each of two traces, side by side.
pub open spec fn apm_compare_plan(
    trace_a: Seq<char>, trace_b: Seq<char>, from: Seq<char>, to: Option<String>, format: Format,
    now_from: Instant, now_to: Instant,
) -> Result<PlanV, Seq<char>> {
    if trim(trace_a).len() == 0 {
        Err(empty_message("Trace A"@))
    } else if trim(trace_b).len() == 0 {
        Err(empty_message("Trace B"@))
    } else {
        match range_of(from, opt_text(to), 24, now_from, now_to) {
            Err(e) => Err(e),
            Ok(w) => Ok(PlanV {
                notes: seq![info_v(info_text("Comparing traces: "@ + trace_a + " vs "@ + trace_b))],
                requests: seq![
                    post_v(span_search_path(), search_body_v(trace_query(trace_a), w.0, w.1, 1000, None, None)),
                    post_v(span_search_path(), search_body_v(trace_query(trace_b), w.0, w.1, 1000, None, None)),
                ],
                format,
                show: ShowV::TraceCompare { trace_a, trace_b },
            }),
        }
    }
}

/// `ddog apm primary-tags`: a GET of a metric's tags.
pub open spec fn apm_primary_tags_plan(metric: Seq<char>, format: Format) -> PlanV {
    single(
        seq![info_v(info_text("Fetching primary tags for metric: "@ + metric))],
        get_v("/api/v2/metrics/"@ + metric + "/all-tags"@, seq![]),
        format,
        ShowV::Object { columns: primary_tag_columns() },
    )
}

/// What `ddog apm` does, with the time flags read at the given clock readings.
///
/// Every window is at most 24 hours, except the Watchdog and change-event
/// searches, which are event searches of at most 48 hours. Trace IDs must not be
/// blank, and limits are validated and capped at 1000.
pub open spec fn apm_plan(c: ApmCmd, now_from: Instant, now_to: Instant) -> Result<PlanV, Seq<char>> {
    match c {
        ApmCmd::Spans { query, from, to, limit, cursor, format } =>
            apm_spans_plan(query@, from@, to, limit, opt_text(cursor), format, now_from, now_to),
        ApmCmd::Trace { trace_id, from, to, limit, format } =>
            apm_trace_plan(trace_id@, from@, to, limit, format, now_from, now_to),
        ApmCmd::Summary { trace_id, from, to, format } =>
            apm_summary_plan(trace_id@, from@, to, format, now_from, now_to),
        ApmCmd::Compare { trace_a, trace_b, from, to, format } =>
            apm_compare_plan(trace_a@, trace_b@, from@, to, format, now_from, now_to),
        ApmCmd::Metrics { query, from, to, compute, metric, group_by, format } => windowed_aggregate(
            "Analyzing trace metrics: compute="@ + compute@ + " metric="@ + metric@,
            query@, from@, to,
            seq![compute_v(compute@, computed_metric(compute@, metric@))],
            metric_groups_v(group_by@, compute@, computed_metric(compute@, metric@)),
            format, now_from, now_to,
        ),
        ApmCmd::Tags { query, from, to, facet, format } => windowed_aggregate(
            "Discovering tag values for: "@ + facet@,
            query@, from@, to,
            seq![compute_v("count"@, None)],
            seq![facet_group_v(facet@, 100, measure_sort_v("count"@, None))],
            format, now_from, now_to,
        ),
        ApmCmd::PrimaryTags { metric, format } => Ok(apm_primary_tags_plan(metric@, format)),
        ApmCmd::Watchdog { id, from, to, limit, format } =>
            event_search_plan(watchdog_query(id), from@, to, limit, None, format, "watchdog stories"@, now_from, now_to),
        ApmCmd::Changes { query, from, to, limit, format } =>
            event_search_plan(query@, from@, to, limit, None, format, "change events"@, now_from, now_to),
        ApmCmd::Bottlenecks { query, from, to, group_by, format } => windowed_aggregate(
            "Finding latency bottlenecks: group_by="@ + group_by@,
            query@, from@, to,
            seq![compute_v("pc99"@, Some("@duration"@)), compute_v("count"@, None)],
            seq![facet_group_v(group_by@, 25, measure_sort_v("pc99"@, Some("@duration"@)))],
            format, now_from, now_to,
        ),
        ApmCmd::LatencyTags { query, from, to, tag, format } => windowed_aggregate(
            "Analyzing latency by tag: "@ + tag@,
            query@, from@, to,
            seq![compute_v("avg"@, Some("@duration"@)), compute_v("pc95"@, Some("@duration"@)), compute_v("count"@, None)],
            seq![facet_group_v(tag@, 50, measure_sort_v("avg"@, Some("@duration"@)))],
            format, now_from, now_to,
        ),
    }
}

/// The view of a resolved window.
pub open spec fn window_of(tr: TimeRange) -> (Seq<char>, Seq<char>, int) {
    (tr.from@, tr.to@, tr.duration_secs as int)
}

/// A span window of at most 24 hours, or its validation error.
fn span_window(from: &String, to: &Option<String>, now_from: Instant, now_to: Instant) -> (r: Result<TimeRange, DdError>)
    requires
        flags_readable(from@, *to),
        now_ok(now_from),
        now_ok(now_to),
    ensures
        match r {
            Ok(tr) => range_of(from@, opt_text(*to), 24, now_from, now_to)
                == Ok::<(Seq<char>, Seq<char>, int), Seq<char>>(window_of(tr)),
            Err(e) => e is Validation && range_of(from@, opt_text(*to), 24, now_from, now_to)
                == Err::<(Seq<char>, Seq<char>, int), Seq<char>>(crate::error::error_text(e)),
        },
{
    range_at(from.as_str(), to, MAX_SPAN_HOURS, now_from, now_to)
}

/// A span aggregation after the info line `msg`.
fn aggregate_plan(msg: &str, query: &str, w: &TimeRange, computes: Vec<Json>, groups: Vec<Json>, format: Format) -> (r: Plan)
    ensures
        plan_view(r) == span_aggregate(msg@, query@, window_of(*w), jv_items(computes@), jv_items(groups@), format),
{
    let notes = info_note(msg);
    let body = aggregate_request_body(query, w.from.as_str(), w.to.as_str(), computes, groups);
    let request = post_request("/api/v2/spans/analytics/aggregate", body);
    let columns: Vec<&'static str> = vec!["attributes.by", "attributes.compute"];
    assert(columns_view(columns@) =~= aggregate_columns());
    let r = one_request(notes, request, format, Show::List { columns, label: None });
    assert(plan_view(r) =~~= span_aggregate(msg@, query@, window_of(*w), jv_items(computes@), jv_items(groups@), format));
    r
}

/// One value, as a vector.
fn one_json(j: Json) -> (r: Vec<Json>)
    ensures
        jv_items(r@) == seq![j@],
{
    let ghost v = j@;
    let mut out: Vec<Json> = Vec::new();
    out.push(j);
    proof { lemma_jv_items_push(Seq::empty(), out@[0]); }
    assert(jv_items(out@) =~= seq![v]);
    out
}

/// Values appended one after another.
fn push_json(v: &mut Vec<Json>, j: Json)
    ensures
        jv_items(final(v)@) == jv_items(old(v)@).push(j@),
{
    proof { lemma_jv_items_push(v@, j); }
    v.push(j);
}

fn plan_spans(
    query: &String, from: &String, to: &Option<String>, limit: u32, cursor: &Option<String>, format: Format,
    now_from: Instant, now_to: Instant,
) -> (r: Result<Plan, DdError>)
    requires
        flags_readable(from@, *to),
        now_ok(now_from),
        now_ok(now_to),
    ensures
        plan_result(r) == apm_spans_plan(query@, from@, *to, limit, opt_text(*cursor), format, now_from, now_to),
        r matches Err(e) ==> e is Validation,
{
    let w = match span_window(from, to, now_from, now_to) {
        Ok(v) => v,
        Err(e) => return Err(e),
    };
    let limit = match resolve_limit(limit, MAX_SEARCH_LIMIT) {
        Ok(v) => v,
        Err(e) => return Err(DdError::Validation(e)),
    };
    let mut msg = text_of("Searching spans: query=\"");
    append_text(&mut msg, query.as_str());
    append_text(&mut msg, "\" range=");
    let d = format_duration(w.duration_secs);
    append_text(&mut msg, d.as_str());
    append_text(&mut msg, " limit=");
    let limit_str = decimal_text(limit as u64);
    append_text(&mut msg, limit_str.as_str());
    let notes = info_note(msg.as_str());
    let body = search_request_body(
        query.as_str(), w.from.as_str(), w.to.as_str(), limit, Some("-timestamp"), opt_as_str(cursor),
    );
    let request = post_request("/api/v2/spans/events/search", body);
    let columns: Vec<&'static str> = vec![
        "attributes.service", "attributes.resource_name", "attributes.custom.duration", "attributes.status",
    ];
    assert(columns_view(columns@) =~= apm_span_columns());
    let ghost nv = notes_view(notes@);
    let ghost rv = request_view(request);
    let r = one_request(notes, request, format, Show::List { columns, label: Some("spans") });
    let ghost spec_r = apm_spans_plan(query@, from@, *to, limit, opt_text(*cursor), format, now_from, now_to);
    assert(nv =~~= spec_r->Ok_0.notes);
    assert(rv =~~= spec_r->Ok_0.requests[0]);
    assert(plan_result(Ok::<Plan, DdError>(r)) =~~= spec_r);
    Ok(r)
}

fn plan_trace(
    trace_id: &String, from: &String, to: &Option<String>, limit: u32, format: Format,
    now_from: Instant, now_to: Instant,
) -> (r: Result<Plan, DdError>)
    requires
        trim(trace_id@).len() > 0 ==> flags_readable(from@, *to),
        now_ok(now_from),
        now_ok(now_to),
    ensures
        plan_result(r) == apm_trace_plan(trace_id@, from@, *to, limit, format, now_from, now_to),
        r matches Err(e) ==> e is Validation,
{
    match require_non_empty("Trace ID", trace_id.as_str()) {
        Ok(()) => {},
        Err(e) => return Err(DdError::Validation(e)),
    }
    let w = match span_window(from, to, now_from, now_to) {
        Ok(v) => v,
        Err(e) => return Err(e),
    };
    let limit = match resolve_limit(limit, MAX_SEARCH_LIMIT) {
        Ok(v) => v,
        Err(e) => return Err(DdError::Validation(e)),
    };
    let mut msg = text_of("Exploring trace: ");
    append_text(&mut msg, trace_id.as_str());
    let notes = info_note(msg.as_str());
    let query = trace_id_query(trace_id.as_str());
    let body = search_request_body(query.as_str(), w.from.as_str(), w.to.as_str(), limit, Some("timestamp"), None);
    let request = post_request("/api/v2/spans/events/search", body);
    let columns: Vec<&'static str> = vec![
        "attributes.service", "attributes.resource_name", "attributes.custom.duration", "attributes.span_id",
        "attributes.parent_id",
    ];
    assert(columns_view(columns@) =~= trace_columns());
    let ghost nv = notes_view(notes@);
    let ghost rv = request_view(request);
    let r = one_request(notes, request, format, Show::List { columns, label: Some("spans in trace") });
    let ghost spec_r = apm_trace_plan(trace_id@, from@, *to, limit, format, now_from, now_to);
    assert(nv =~~= spec_r->Ok_0.notes);
    assert(rv =~~= spec_r->Ok_0.requests[0]);
    assert(plan_result(Ok::<Plan, DdError>(r)) =~~= spec_r);
    Ok(r)
}

fn plan_summary(
    trace_id: &String, from: &String, to: &Option<String>, format: Format, now_from: Instant, now_to: Instant,
) -> (r: Result<Plan, DdError>)
    requires
        trim(trace_id@).len() > 0 ==> flags_readable(from@, *to),
        now_ok(now_from),
        now_ok(now_to),
    ensures
        plan_result(r) == apm_summary_plan(trace_id@, from@, *to, format, now_from, now_to),
        r matches Err(e) ==> e is Validation,
{
    match require_non_empty("Trace ID", trace_id.as_str()) {
        Ok(()) => {},
        Err(e) => return Err(DdError::Validation(e)),
    }
    let w = match span_window(from, to, now_from, now_to) {
        Ok(v) => v,
        Err(e) => return Err(e),
    };
    let mut msg = text_of("Generating summary for trace: ");
    append_text(&mut msg, trace_id.as_str());
    let notes = info_note(msg.as_str());
    let query = trace_id_query(trace_id.as_str());
    let body = search_request_body(query.as_str(), w.from.as_str(), w.to.as_str(), 1000, Some("timestamp"), None);
    let request = post_request("/api/v2/spans/events/search", body);
    let ghost nv = notes_view(notes@);
    let ghost rv = request_view(request);
    let r = one_request(notes, request, format, Show::TraceSummary { trace_id: text_of(trace_id.as_str()) });
    let ghost spec_r = apm_summary_plan(trace_id@, from@, *to, format, now_from, now_to);
    assert(nv =~~= spec_r->Ok_0.notes);
    assert(rv =~~= spec_r->Ok_0.requests[0]);
    assert(plan_result(Ok::<Plan, DdError>(r)) =~~= spec_r);
    Ok(r)
}

fn plan_compare(
    trace_a: &String, trace_b: &String, from: &String, to: &Option<String>, format: Format,
    now_from: Instant, now_to: Instant,
) -> (r: Result<Plan, DdError>)
    requires
        (trim(trace_a@).len() > 0 && trim(trace_b@).len() > 0) ==> flags_readable(from@, *to),
        now_ok(now_from),
        now_ok(now_to),
    ensures
        plan_result(r) == apm_compare_plan(trace_a@, trace_b@, from@, *to, format, now_from, now_to),
        r matches Err(e) ==> e is Validation,
{
    match require_non_empty("Trace A", trace_a.as_str()) {
        Ok(()) => {},
        Err(e) => return Err(DdError::Validation(e)),
    }
    match require_non_empty("Trace B", trace_b.as_str()) {
        Ok(()) => {},
        Err(e) => return Err(DdError::Validation(e)),
    }
    let w = match span_window(from, to, now_from, now_to) {
        Ok(v) => v,
        Err(e) => return Err(e),
    };
    let mut msg = text_of("Comparing traces: ");
    append_text(&mut msg, trace_a.as_str());
    append_text(&mut msg, " vs ");
    append_text(&mut msg, trace_b.as_str());
    let notes = info_note(msg.as_str());
    let query_a = trace_id_query(trace_a.as_str());
    let query_b = trace_id_query(trace_b.as_str());
    let body_a = search_request_body(query_a.as_str(), w.from.as_str(), w.to.as_str(), 1000, None, None);
    let body_b = search_request_body(query_b.as_str(), w.from.as_str(), w.to.as_str(), 1000, None, None);
    let request_a = post_request("/api/v2/spans/events/search", body_a);
    let request_b = post_request("/api/v2/spans/events/search", body_b);
    let ghost nv = notes_view(notes@);
    let ghost rva = request_view(request_a);
    let ghost rvb = request_view(request_b);
    let mut requests: Vec<Request> = Vec::new();
    requests.push(request_a);
    requests.push(request_b);
    assert(requests_view(requests@) =~= seq![rva, rvb]);
    let r = Plan {
        notes,
        requests,
        format,
        show: Show::TraceCompare { trace_a: text_of(trace_a.as_str()), trace_b: text_of(trace_b.as_str()) },
    };
    let ghost spec_r = apm_compare_plan(trace_a@, trace_b@, from@, *to, format, now_from, now_to);
    assert(nv =~~= spec_r->Ok_0.notes);
    assert(rva =~~= spec_r->Ok_0.requests[0]);
    assert(rvb =~~= spec_r->Ok_0.requests[1]);
    assert(plan_view(r).requests =~~= spec_r->Ok_0.requests);
    assert(plan_result(Ok::<Plan, DdError>(r)) =~~= spec_r);
    Ok(r)
}

fn metric_groups(group_by: &Vec<String>, compute: &str, metric: Option<&str>) -> (r: Vec<Json>)
    ensures
        jv_items(r@) == metric_groups_v(group_by@, compute@, opt_str(metric)),
{
    let mut out: Vec<Json> = Vec::new();
    let mut i: usize = 0;
    while i < group_by.len()
        invariant
            i <= group_by@.len(),
            jv_items(out@) == metric_groups_v(group_by@.take(i as int), compute@, opt_str(metric)),
        decreases group_by@.len() - i,
    {
        let g = facet_group(group_by[i].as_str(), 25, measure_sort(compute, metric));
        push_json(&mut out, g);
        i = i + 1;
        assert(jv_items(out@) =~= metric_groups_v(group_by@.take(i as int), compute@, opt_str(metric)));
    }
    assert(group_by@.take(i as int) =~= group_by@);
    out
}

fn plan_metrics(
    query: &String, from: &String, to: &Option<String>, compute: &String, metric: &String, group_by: &Vec<String>,
    format: Format, now_from: Instant, now_to: Instant,
) -> (r: Result<Plan, DdError>)
    requires
        flags_readable(from@, *to),
        now_ok(now_from),
        now_ok(now_to),
    ensures
        plan_result(r) == windowed_aggregate(
            "Analyzing trace metrics: compute="@ + compute@ + " metric="@ + metric@,
            query@, from@, *to,
            seq![compute_v(compute@, computed_metric(compute@, metric@))],
            metric_groups_v(group_by@, compute@, computed_metric(compute@, metric@)),
            format, now_from, now_to,
        ),
        r matches Err(e) ==> e is Validation,
{
    let w = match span_window(from, to, now_from, now_to) {
        Ok(v) => v,
        Err(e) => return Err(e),
    };
    let mut msg = text_of("Analyzing trace metrics: compute=");
    append_text(&mut msg, compute.as_str());
    append_text(&mut msg, " metric=");
    append_text(&mut msg, metric.as_str());
    let metric_ref = normalize_metric(metric.as_str());
    let count = text_of("count");
    let compute_metric: Option<&str> = if !(*compute == count) { Some(metric_ref.as_str()) } else { None };
    assert(opt_str(compute_metric) == computed_metric(compute@, metric@));
    let groups = metric_groups(group_by, compute.as_str(), compute_metric);
    let computes = one_json(aggregate_compute(compute.as_str(), compute_metric));
    let r = aggregate_plan(msg.as_str(), query.as_str(), &w, computes, groups, format);
    Ok(r)
}

fn plan_tags(
    query: &String, from: &String, to: &Option<String>, facet: &String, format: Format, now_from: Instant, now_to: Instant,
) -> (r: Result<Plan, DdError>)
    requires
        flags_readable(from@, *to),
        now_ok(now_from),
        now_ok(now_to),
    ensures
        plan_result(r) == windowed_aggregate(
            "Discovering tag values for: "@ + facet@,
            query@, from@, *to,
            seq![compute_v("count"@, None)],
            seq![facet_group_v(facet@, 100, measure_sort_v("count"@, None))],
            format, now_from, now_to,
        ),
        r matches Err(e) ==> e is Validation,
{
    let w = match span_window(from, to, now_from, now_to) {
        Ok(v) => v,
        Err(e) => return Err(e),
    };
    let mut msg = text_of("Discovering tag values for: ");
    append_text(&mut msg, facet.as_str());
    let computes = one_json(aggregate_compute("count", None));
    let groups = one_json(facet_group(facet.as_str(), 100, measure_sort("count", None)));
    let r = aggregate_plan(msg.as_str(), query.as_str(), &w, computes, groups, format);
    Ok(r)
}

fn plan_primary_tags(metric: &String, format: Format) -> (r: Plan)
    ensures
        plan_view(r) == apm_primary_tags_plan(metric@, format),
{
    let mut msg = text_of("Fetching primary tags for metric: ");
    append_text(&mut msg, metric.as_str());
    let notes = info_note(msg.as_str());
    let mut path = text_of("/api/v2/metrics/");
    append_text(&mut path, metric.as_str());
    append_text(&mut path, "/all-tags");
    let params: Vec<(String, String)> = Vec::new();
    let request = get_request(path, params);
    let columns: Vec<&'static str> = vec!["data.id", "data.type", "data.attributes.tags"];
    assert(columns_view(columns@) =~= primary_tag_columns());
    let ghost nv = notes_view(notes@);
    let ghost rv = request_view(request);
    let r = one_request(notes, request, format, Show::Object { columns });
    let ghost spec_r = apm_primary_tags_plan(metric@, format);
    assert(nv =~~= spec_r.notes);
    assert(rv.1 =~= spec_r.requests[0].1);
    assert(rv =~~= spec_r.requests[0]);
    assert(plan_view(r) =~~= spec_r);
    r
}

fn plan_bottlenecks(
    query: &String, from: &String, to: &Option<String>, group_by: &String, format: Format, now_from: Instant, now_to: Instant,
) -> (r: Result<Plan, DdError>)
    requires
        flags_readable(from@, *to),
        now_ok(now_from),
        now_ok(now_to),
    ensures
        plan_result(r) == windowed_aggregate(
            "Finding latency bottlenecks: group_by="@ + group_by@,
            query@, from@, *to,
            seq![compute_v("pc99"@, Some("@duration"@)), compute_v("count"@, None)],
            seq![facet_group_v(group_by@, 25, measure_sort_v("pc99"@, Some("@duration"@)))],
            format, now_from, now_to,
        ),
        r matches Err(e) ==> e is Validation,
{
    let w = match span_window(from, to, now_from, now_to) {
        Ok(v) => v,
        Err(e) => return Err(e),
    };
    let mut msg = text_of("Finding latency bottlenecks: group_by=");
    append_text(&mut msg, group_by.as_str());
    let mut computes = one_json(aggregate_compute("pc99", Some("@duration")));
    push_json(&mut computes, aggregate_compute("count", None));
    assert(jv_items(computes@) =~= seq![compute_v("pc99"@, Some("@duration"@)), compute_v("count"@, None)]);
    let groups = one_json(facet_group(group_by.as_str(), 25, measure_sort("pc99", Some("@duration"))));
    let r = aggregate_plan(msg.as_str(), query.as_str(), &w, computes, groups, format);
    Ok(r)
}

fn plan_latency_tags(
    query: &String, from: &String, to: &Option<String>, tag: &String, format: Format, now_from: Instant, now_to: Instant,
) -> (r: Result<Plan, DdError>)
    requires
        flags_readable(from@, *to),
        now_ok(now_from),
        now_ok(now_to),
    ensures
        plan_result(r) == windowed_aggregate(
            "Analyzing latency by tag: "@ + tag@,
            query@, from@, *to,
            seq![compute_v("avg"@, Some("@duration"@)), compute_v("pc95"@, Some("@duration"@)), compute_v("count"@, None)],
            seq![facet_group_v(tag@, 50, measure_sort_v("avg"@, Some("@duration"@)))],
            format, now_from, now_to,
        ),
        r matches Err(e) ==> e is Validation,
{
    let w = match span_window(from, to, now_from, now_to) {
        Ok(v) => v,
        Err(e) => return Err(e),
    };
    let mut msg = text_of("Analyzing latency by tag: ");
    append_text(&mut msg, tag.as_str());
    let mut computes = one_json(aggregate_compute("avg", Some("@duration")));
    push_json(&mut computes, aggregate_compute("pc95", Some("@duration")));
    push_json(&mut computes, aggregate_compute("count", None));
    assert(jv_items(computes@) =~= seq![
        compute_v("avg"@, Some("@duration"@)), compute_v("pc95"@, Some("@duration"@)), compute_v("count"@, None),
    ]);
    let groups = one_json(facet_group(tag.as_str(), 50, measure_sort("avg", Some("@duration"))));
    let r = aggregate_plan(msg.as_str(), query.as_str(), &w, computes, groups, format);
    Ok(r)
}

/// The query of a Watchdog story search.
fn watchdog_search_query(id: &Option<String>) -> (r: String)
    ensures
        r@ == watchdog_query(*id),
{
    match id {
        Some(story_id) => {
            let mut q = text_of("source:watchdog ");
            append_text(&mut q, story_id.as_str());
            q
        },
        None => text_of("source:watchdog"),
    }
}

/// Plans `ddog apm` with the time flags read at the given clock readings.
pub fn plan_at(cmd: &ApmCmd, now_from: Instant, now_to: Instant) -> (r: Result<Plan, DdError>)
    requires
        apm_readable(*cmd),
        now_ok(now_from),
        now_ok(now_to),
    ensures
        plan_result(r) == apm_plan(*cmd, now_from, now_to),
        r matches Err(e) ==> e is Validation,
{
    match cmd {
        ApmCmd::Spans { query, from, to, limit, cursor, format } =>
            plan_spans(query, from, to, *limit, cursor, *format, now_from, now_to),
        ApmCmd::Trace { trace_id, from, to, limit, format } =>
            plan_trace(trace_id, from, to, *limit, *format, now_from, now_to),
        ApmCmd::Summary { trace_id, from, to, format } =>
            plan_summary(trace_id, from, to, *format, now_from, now_to),
        ApmCmd::Compare { trace_a, trace_b, from, to, format } =>
            plan_compare(trace_a, trace_b, from, to, *format, now_from, now_to),
        ApmCmd::Metrics { query, from, to, compute, metric, group_by, format } =>
            plan_metrics(query, from, to, compute, metric, group_by, *format, now_from, now_to),
        ApmCmd::Tags { query, from, to, facet, format } =>
            plan_tags(query, from, to, facet, *format, now_from, now_to),
        ApmCmd::PrimaryTags { metric, format } => Ok(plan_primary_tags(metric, *format)),
        ApmCmd::Watchdog { id, from, to, limit, format } => {
            let query = watchdog_search_query(id);
            search_plan_at(query.as_str(), from.as_str(), to, *limit, None, *format, "watchdog stories", now_from, now_to)
        },
        ApmCmd::Changes { query, from, to, limit, format } =>
            search_plan_at(query.as_str(), from.as_str(), to, *limit, None, *format, "change events", now_from, now_to),
        ApmCmd::Bottlenecks { query, from, to, group_by, format } =>
            plan_bottlenecks(query, from, to, group_by, *format, now_from, now_to),
        ApmCmd::LatencyTags { query, from, to, tag, format } =>
            plan_latency_tags(query, from, to, tag, *format, now_from, now_to),
    }
}

/// Plans `ddog apm`, reading relative time flags against the current clock.
pub fn plan(cmd: &ApmCmd) -> (r: Result<Plan, DdError>)
    requires
        apm_readable(*cmd),
    ensures
        exists|now_from: Instant, now_to: Instant|
            now_ok(now_from) && now_ok(now_to) && plan_result(r) == #[trigger] apm_plan(*cmd, now_from, now_to),
{
    let now_from = utc_now();
    let now_to = utc_now();
    let r = plan_at(cmd, now_from, now_to);
    assert(now_ok(now_from) && now_ok(now_to) && plan_result(r) == apm_plan(*cmd, now_from, now_to));
    r
}

/// The options of `ddog apm spans`, in field order.
pub open spec fn apm_spans_options_v() -> Seq<OptV> {
    seq![
        text_opt_v("query"@, "QUERY"@, Some('q'), Some("*"@), false),
        text_opt_v("from"@, "FROM"@, None, Some("1h"@), false),
        text_opt_v("to"@, "TO"@, None, None, false),
        count_opt_v("limit"@, "LIMIT"@, Some('l'), "25"@, 1),
        text_opt_v("cursor"@, "CURSOR"@, None, None, false),
        format_opt_v(),
    ]
}

fn apm_spans_options() -> (r: Vec<Opt>)
    ensures
        opts_view(r@) == apm_spans_options_v(),
{
    let mut v: Vec<Opt> = Vec::new();
    v.push(text_opt("query", "QUERY", Some('q'), Some("*"), false));
    v.push(text_opt("from", "FROM", None, Some("1h"), false));
    v.push(text_opt("to", "TO", None, None, false));
    v.push(count_opt("limit", "LIMIT", Some('l'), "25", 1));
    v.push(text_opt("cursor", "CURSOR", None, None, false));
    v.push(format_opt());
    assert(opts_view(v@) =~= apm_spans_options_v());
    v
}

/// The options of `ddog apm trace`, in field order.
pub open spec fn apm_trace_options_v() -> Seq<OptV> {
    seq![
        id_opt_v("trace-id"@, "TRACE_ID"@, Some('t')),
        text_opt_v("from"@, "FROM"@, None, Some("6h"@), false),
        text_opt_v("to"@, "TO"@, None, None, false),
        count_opt_v("limit"@, "LIMIT"@, Some('l'), "200"@, 1),
        format_opt_v(),
    ]
}

fn apm_trace_options() -> (r: Vec<Opt>)
    ensures
        opts_view(r@) == apm_trace_options_v(),
{
    let mut v: Vec<Opt> = Vec::new();
    v.push(id_opt("trace-id", "TRACE_ID", Some('t')));
    v.push(text_opt("from", "FROM", None, Some("6h"), false));
    v.push(text_opt("to", "TO", None, None, false));
    v.push(count_opt("limit", "LIMIT", Some('l'), "200", 1));
    v.push(format_opt());
    assert(opts_view(v@) =~= apm_trace_options_v());
    v
}

/// The options of `ddog apm summary`, in field order.
pub open spec fn apm_summary_options_v() -> Seq<OptV> {
    seq![
        id_opt_v("trace-id"@, "TRACE_ID"@, Some('t')),
        text_opt_v("from"@, "FROM"@, None, Some("6h"@), false),
        text_opt_v("to"@, "TO"@, None, None, false),
        format_opt_v(),
    ]
}

fn apm_summary_options() -> (r: Vec<Opt>)
    ensures
        opts_view(r@) == apm_summary_options_v(),
{
    let mut v: Vec<Opt> = Vec::new();
    v.push(id_opt("trace-id", "TRACE_ID", Some('t')));
    v.push(text_opt("from", "FROM", None, Some("6h"), false));
    v.push(text_opt("to", "TO", None, None, false));
    v.push(format_opt());
    assert(opts_view(v@) =~= apm_summary_options_v());
    v
}

/// The options of `ddog apm compare`, in field order.
pub open spec fn apm_compare_options_v() -> Seq<OptV> {
    seq![
        id_opt_v("trace-a"@, "TRACE_A"@, None),
        id_opt_v("trace-b"@, "TRACE_B"@, None),
        text_opt_v("from"@, "FROM"@, None, Some("6h"@), false),
        text_opt_v("to"@, "TO"@, None, None, false),
        format_opt_v(),
    ]
}

fn apm_compare_options() -> (r: Vec<Opt>)
    ensures
        opts_view(r@) == apm_compare_options_v(),
{
    let mut v: Vec<Opt> = Vec::new();
    v.push(id_opt("trace-a", "TRACE_A", None));
    v.push(id_opt("trace-b", "TRACE_B", None));
    v.push(text_opt("from", "FROM", None, Some("6h"), false));
    v.push(text_opt("to", "TO", None, None, false));
    v.push(format_opt());
    assert(opts_view(v@) =~= apm_compare_options_v());
    v
}

/// The options of `ddog apm metrics`, in field order.
pub open spec fn apm_metrics_options_v() -> Seq<OptV> {
    seq![
        text_opt_v("query"@, "QUERY"@, Some('q'), Some("*"@), false),
        text_opt_v("from"@, "FROM"@, None, Some("1h"@), false),
        text_opt_v("to"@, "TO"@, None, None, false),
        text_opt_v("compute"@, "COMPUTE"@, None, Some("avg"@), false),
        text_opt_v("metric"@, "METRIC"@, None, Some("duration"@), false),
        many_opt_v("group-by"@, "GROUP_BY"@, false),
        format_opt_v(),
    ]
}

fn apm_metrics_options() -> (r: Vec<Opt>)
    ensures
        opts_view(r@) == apm_metrics_options_v(),
{
    let mut v: Vec<Opt> = Vec::new();
    v.push(text_opt("query", "QUERY", Some('q'), Some("*"), false));
    v.push(text_opt("from", "FROM", None, Some("1h"), false));
    v.push(text_opt("to", "TO", None, None, false));
    v.push(text_opt("compute", "COMPUTE", None, Some("avg"), false));
    v.push(text_opt("metric", "METRIC", None, Some("duration"), false));
    v.push(many_opt("group-by", "GROUP_BY", false));
    v.push(format_opt());
    assert(opts_view(v@) =~= apm_metrics_options_v());
    v
}

/// The options of `ddog apm tags`, in field order.
pub open spec fn apm_tags_options_v() -> Seq<OptV> {
    seq![
        text_opt_v("query"@, "QUERY"@, Some('q'), Some("*"@), false),
        text_opt_v("from"@, "FROM"@, None, Some("1h"@), false),
        text_opt_v("to"@, "TO"@, None, None, false),
        text_opt_v("facet"@, "FACET"@, None, Some("service"@), false),
        format_opt_v(),
    ]
}

fn apm_tags_options() -> (r: Vec<Opt>)
    ensures
        opts_view(r@) == apm_tags_options_v(),
{
    let mut v: Vec<Opt> = Vec::new();
    v.push(text_opt("query", "QUERY", Some('q'), Some("*"), false));
    v.push(text_opt("from", "FROM", None, Some("1h"), false));
    v.push(text_opt("to", "TO", None, None, false));
    v.push(text_opt("facet", "FACET", None, Some("service"), false));
    v.push(format_opt());
    assert(opts_view(v@) =~= apm_tags_options_v());
    v
}

/// The options of `ddog apm primary-tags`, in field order.
pub open spec fn apm_primary_tags_options_v() -> Seq<OptV> {
    seq![
        text_opt_v("metric"@, "METRIC"@, Some('m'), Some("trace.http.request.duration"@), false),
        format_opt_v(),
    ]
}

fn apm_primary_tags_options() -> (r: Vec<Opt>)
    ensures
        opts_view(r@) == apm_primary_tags_options_v(),
{
    let mut v: Vec<Opt> = Vec::new();
    v.push(text_opt("metric", "METRIC", Some('m'), Some("trace.http.request.duration"), false));
    v.push(format_opt());
    assert(opts_view(v@) =~= apm_primary_tags_options_v());
    v
}

/// The options of `ddog apm watchdog`, in field order.
pub open spec fn apm_watchdog_options_v() -> Seq<OptV> {
    seq![
        text_opt_v("id"@, "ID"@, None, None, false),
        text_opt_v("from"@, "FROM"@, None, Some("24h"@), false),
        text_opt_v("to"@, "TO"@, None, None, false),
        count_opt_v("limit"@, "LIMIT"@, Some('l'), "25"@, 1),
        format_opt_v(),
    ]
}

fn apm_watchdog_options() -> (r: Vec<Opt>)
    ensures
        opts_view(r@) == apm_watchdog_options_v(),
{
    let mut v: Vec<Opt> = Vec::new();
    v.push(text_opt("id", "ID", None, None, false));
    v.push(text_opt("from", "FROM", None, Some("24h"), false));
    v.push(text_opt("to", "TO", None, None, false));
    v.push(count_opt("limit", "LIMIT", Some('l'), "25", 1));
    v.push(format_opt());
    assert(opts_view(v@) =~= apm_watchdog_options_v());
    v
}

/// The options of `ddog apm changes`, in field order.
pub open spec fn apm_changes_options_v() -> Seq<OptV> {
    seq![
        text_opt_v("query"@, "QUERY"@, Some('q'), Some("source:(deploy OR deployment OR github)"@), false),
        text_opt_v("from"@, "FROM"@, None, Some("24h"@), false),
        text_opt_v("to"@, "TO"@, None, None, false),
        count_opt_v("limit"@, "LIMIT"@, Some('l'), "25"@, 1),
        format_opt_v(),
    ]
}

fn apm_changes_options() -> (r: Vec<Opt>)
    ensures
        opts_view(r@) == apm_changes_options_v(),
{
    let mut v: Vec<Opt> = Vec::new();
    v.push(text_opt("query", "QUERY", Some('q'), Some("source:(deploy OR deployment OR github)"), false));
    v.push(text_opt("from", "FROM", None, Some("24h"), false));
    v.push(text_opt("to", "TO", None, None, false));
    v.push(count_opt("limit", "LIMIT", Some('l'), "25", 1));
    v.push(format_opt());
    assert(opts_view(v@) =~= apm_changes_options_v());
    v
}

/// The options of `ddog apm bottlenecks`, in field order.
pub open spec fn apm_bottlenecks_options_v() -> Seq<OptV> {
    seq![
        text_opt_v("query"@, "QUERY"@, Some('q'), Some("*"@), false),
        text_opt_v("from"@, "FROM"@, None, Some("1h"@), false),
        text_opt_v("to"@, "TO"@, None, None, false),
        text_opt_v("group-by"@, "GROUP_BY"@, None, Some("resource_name"@), false),
        format_opt_v(),
    ]
}

fn apm_bottlenecks_options() -> (r: Vec<Opt>)
    ensures
        opts_view(r@) == apm_bottlenecks_options_v(),
{
    let mut v: Vec<Opt> = Vec::new();
    v.push(text_opt("query", "QUERY", Some('q'), Some("*"), false));
    v.push(text_opt("from", "FROM", None, Some("1h"), false));
    v.push(text_opt("to", "TO", None, None, false));
    v.push(text_opt("group-by", "GROUP_BY", None, Some("resource_name"), false));
    v.push(format_opt());
    assert(opts_view(v@) =~= apm_bottlenecks_options_v());
    v
}

/// The options of `ddog apm latency-tags`, in field order.
pub open spec fn apm_latency_tags_options_v() -> Seq<OptV> {
    seq![
        text_opt_v("query"@, "QUERY"@, Some('q'), Some("*"@), false),
        text_opt_v("from"@, "FROM"@, None, Some("1h"@), false),
        text_opt_v("to"@, "TO"@, None, None, false),
        text_opt_v("tag"@, "TAG"@, None, None, true),
        format_opt_v(),
    ]
}

fn apm_latency_tags_options() -> (r: Vec<Opt>)
    ensures
        opts_view(r@) == apm_latency_tags_options_v(),
{
    let mut v: Vec<Opt> = Vec::new();
    v.push(text_opt("query", "QUERY", Some('q'), Some("*"), false));
    v.push(text_opt("from", "FROM", None, Some("1h"), false));
    v.push(text_opt("to", "TO", None, None, false));
    v.push(text_opt("tag", "TAG", None, None, true));
    v.push(format_opt());
    assert(opts_view(v@) =~= apm_latency_tags_options_v());
    v
}

/// The subcommands of `ddog apm`.
pub open spec fn apm_subcommands() -> Seq<Seq<char>> {
    seq!["spans"@, "trace"@, "summary"@, "compare"@, "metrics"@, "tags"@, "primary-tags"@, "watchdog"@, "changes"@, "bottlenecks"@, "latency-tags"@]
}

/// The options of each subcommand of `ddog apm`.
pub open spec fn apm_grammar(sub: int) -> Seq<OptV> {
    if sub == 0 {
        apm_spans_options_v()
    } else if sub == 1 {
        apm_trace_options_v()
    } else if sub == 2 {
        apm_summary_options_v()
    } else if sub == 3 {
        apm_compare_options_v()
    } else if sub == 4 {
        apm_metrics_options_v()
    } else if sub == 5 {
        apm_tags_options_v()
    } else if sub == 6 {
        apm_primary_tags_options_v()
    } else if sub == 7 {
        apm_watchdog_options_v()
    } else if sub == 8 {
        apm_changes_options_v()
    } else if sub == 9 {
        apm_bottlenecks_options_v()
    } else {
        apm_latency_tags_options_v()
    }
}

/// What a `ddog apm` command line (the first token the program name) gives:
/// the subcommand and the value of each of its options, or the message refusing it.
pub open spec fn apm_command_line(args: Seq<Seq<char>>) -> Result<(int, Seq<ValV>), Seq<char>> {
    match subcommand_of(args, apm_subcommands()) {
        Err(e) => Err(e),
        Ok(sub) => match parse_opts(apm_grammar(sub), args, 2) {
            Err(e) => Err(e),
            Ok(v) => Ok((sub, v)),
        },
    }
}

/// Whether a command holds the values read for subcommand `sub`.
pub open spec fn apm_from_values(c: ApmCmd, sub: int, v: Seq<ValV>) -> bool {
    match c {
        ApmCmd::Spans { query, from, to, limit, cursor, format } => {
            &&& sub == 0
            &&& query@ == text_val(v[0])
            &&& from@ == text_val(v[1])
            &&& crate::time::opt_text(to) == opt_text_val(v[2])
            &&& limit == count_val(v[3])
            &&& crate::time::opt_text(cursor) == opt_text_val(v[4])
            &&& format == format_val(v[5])
        },
        ApmCmd::Trace { trace_id, from, to, limit, format } => {
            &&& sub == 1
            &&& trace_id@ == text_val(v[0])
            &&& from@ == text_val(v[1])
            &&& crate::time::opt_text(to) == opt_text_val(v[2])
            &&& limit == count_val(v[3])
            &&& format == format_val(v[4])
        },
        ApmCmd::Summary { trace_id, from, to, format } => {
            &&& sub == 2
            &&& trace_id@ == text_val(v[0])
            &&& from@ == text_val(v[1])
            &&& crate::time::opt_text(to) == opt_text_val(v[2])
            &&& format == format_val(v[3])
        },
        ApmCmd::Compare { trace_a, trace_b, from, to, format } => {
            &&& sub == 3
            &&& trace_a@ == text_val(v[0])
            &&& trace_b@ == text_val(v[1])
            &&& from@ == text_val(v[2])
            &&& crate::time::opt_text(to) == opt_text_val(v[3])
            &&& format == format_val(v[4])
        },
        ApmCmd::Metrics { query, from, to, compute, metric, group_by, format } => {
            &&& sub == 4
            &&& query@ == text_val(v[0])
            &&& from@ == text_val(v[1])
            &&& crate::time::opt_text(to) == opt_text_val(v[2])
            &&& compute@ == text_val(v[3])
            &&& metric@ == text_val(v[4])
            &&& strings_view(group_by@) == list_val(v[5])
            &&& format == format_val(v[6])
        },
        ApmCmd::Tags { query, from, to, facet, format } => {
            &&& sub == 5
            &&& query@ == text_val(v[0])
            &&& from@ == text_val(v[1])
            &&& crate::time::opt_text(to) == opt_text_val(v[2])
            &&& facet@ == text_val(v[3])
            &&& format == format_val(v[4])
        },
        ApmCmd::PrimaryTags { metric, format } => {
            &&& sub == 6
            &&& metric@ == text_val(v[0])
            &&& format == format_val(v[1])
        },
        ApmCmd::Watchdog { id, from, to, limit, format } => {
            &&& sub == 7
            &&& crate::time::opt_text(id) == opt_text_val(v[0])
            &&& from@ == text_val(v[1])
            &&& crate::time::opt_text(to) == opt_text_val(v[2])
            &&& limit == count_val(v[3])
            &&& format == format_val(v[4])
        },
        ApmCmd::Changes { query, from, to, limit, format } => {
            &&& sub == 8
            &&& query@ == text_val(v[0])
            &&& from@ == text_val(v[1])
            &&& crate::time::opt_text(to) == opt_text_val(v[2])
            &&& limit == count_val(v[3])
            &&& format == format_val(v[4])
        },
        ApmCmd::Bottlenecks { query, from, to, group_by, format } => {
            &&& sub == 9
            &&& query@ == text_val(v[0])
            &&& from@ == text_val(v[1])
            &&& crate::time::opt_text(to) == opt_text_val(v[2])
            &&& group_by@ == text_val(v[3])
            &&& format == format_val(v[4])
        },
        ApmCmd::LatencyTags { query, from, to, tag, format } => {
            &&& sub == 10
            &&& query@ == text_val(v[0])
            &&& from@ == text_val(v[1])
            &&& crate::time::opt_text(to) == opt_text_val(v[2])
            &&& tag@ == text_val(v[3])
            &&& format == format_val(v[4])
        },
    }
}

impl ApmCmd {
    /// Reads `ddog apm` from its command line, the first token being the program name.
    pub fn try_parse_from(args: &[&str]) -> (r: Result<ApmCmd, CliError>)
        ensures
            match r {
                Ok(c) => apm_command_line(lits(args@)) matches Ok((sub, v)) && apm_from_values(c, sub, v),
                Err(e) => apm_command_line(lits(args@)) == Err::<(int, Seq<ValV>), Seq<char>>(e.message@),
            },
    {
        let names: Vec<&'static str> = vec!["spans", "trace", "summary", "compare", "metrics", "tags", "primary-tags", "watchdog", "changes", "bottlenecks", "latency-tags"];
        assert(lits(names@) =~= apm_subcommands());
        let sub = match pick_subcommand(args, &names) {
            Ok(k) => k,
            Err(e) => return Err(e),
        };
        if sub == 0 {
            let opts = apm_spans_options();
            let v = match parse_after_subcommand(&opts, args) {
                Ok(v) => v,
                Err(e) => return Err(e),
            };
            Ok(ApmCmd::Spans {
                query: text_at(&v, 0),
                from: text_at(&v, 1),
                to: opt_text_at(&v, 2),
                limit: count_at(&v, 3),
                cursor: opt_text_at(&v, 4),
                format: format_at(&v, 5),
            })
        } else if sub == 1 {
            let opts = apm_trace_options();
            let v = match parse_after_subcommand(&opts, args) {
                Ok(v) => v,
                Err(e) => return Err(e),
            };
            Ok(ApmCmd::Trace {
                trace_id: text_at(&v, 0),
                from: text_at(&v, 1),
                to: opt_text_at(&v, 2),
                limit: count_at(&v, 3),
                format: format_at(&v, 4),
            })
        } else if sub == 2 {
            let opts = apm_summary_options();
            let v = match parse_after_subcommand(&opts, args) {
                Ok(v) => v,
                Err(e) => return Err(e),
            };
            Ok(ApmCmd::Summary {
                trace_id: text_at(&v, 0),
                from: text_at(&v, 1),
                to: opt_text_at(&v, 2),
                format: format_at(&v, 3),
            })
        } else if sub == 3 {
            let opts = apm_compare_options();
            let v = match parse_after_subcommand(&opts, args) {
                Ok(v) => v,
                Err(e) => return Err(e),
            };
            Ok(ApmCmd::Compare {
                trace_a: text_at(&v, 0),
                trace_b: text_at(&v, 1),
                from: text_at(&v, 2),
                to: opt_text_at(&v, 3),
                format: format_at(&v, 4),
            })
        } else if sub == 4 {
            let opts = apm_metrics_options();
            let v = match parse_after_subcommand(&opts, args) {
                Ok(v) => v,
                Err(e) => return Err(e),
            };
            Ok(ApmCmd::Metrics {
                query: text_at(&v, 0),
                from: text_at(&v, 1),
                to: opt_text_at(&v, 2),
                compute: text_at(&v, 3),
                metric: text_at(&v, 4),
                group_by: list_at(&v, 5),
                format: format_at(&v, 6),
            })
        } else if sub == 5 {
            let opts = apm_tags_options();
            let v = match parse_after_subcommand(&opts, args) {
                Ok(v) => v,
                Err(e) => return Err(e),
            };
            Ok(ApmCmd::Tags {
                query: text_at(&v, 0),
                from: text_at(&v, 1),
                to: opt_text_at(&v, 2),
                facet: text_at(&v, 3),
                format: format_at(&v, 4),
            })
        } else if sub == 6 {
            let opts = apm_primary_tags_options();
            let v = match parse_after_subcommand(&opts, args) {
                Ok(v) => v,
                Err(e) => return Err(e),
            };
            Ok(ApmCmd::PrimaryTags {
                metric: text_at(&v, 0),
                format: format_at(&v, 1),
            })
        } else if sub == 7 {
            let opts = apm_watchdog_options();
            let v = match parse_after_subcommand(&opts, args) {
                Ok(v) => v,
                Err(e) => return Err(e),
            };
            Ok(ApmCmd::Watchdog {
                id: opt_text_at(&v, 0),
                from: text_at(&v, 1),
                to: opt_text_at(&v, 2),
                limit: count_at(&v, 3),
                format: format_at(&v, 4),
            })
        } else if sub == 8 {
            let opts = apm_changes_options();
            let v = match parse_after_subcommand(&opts, args) {
                Ok(v) => v,
                Err(e) => return Err(e),
            };
            Ok(ApmCmd::Changes {
                query: text_at(&v, 0),
                from: text_at(&v, 1),
                to: opt_text_at(&v, 2),
                limit: count_at(&v, 3),
                format: format_at(&v, 4),
            })
        } else if sub == 9 {
            let opts = apm_bottlenecks_options();
            let v = match parse_after_subcommand(&opts, args) {
                Ok(v) => v,
                Err(e) => return Err(e),
            };
            Ok(ApmCmd::Bottlenecks {
                query: text_at(&v, 0),
                from: text_at(&v, 1),
                to: opt_text_at(&v, 2),
                group_by: text_at(&v, 3),
                format: format_at(&v, 4),
            })
        } else {
            let opts = apm_latency_tags_options();
            let v = match parse_after_subcommand(&opts, args) {
                Ok(v) => v,
                Err(e) => return Err(e),
            };
            Ok(ApmCmd::LatencyTags {
                query: text_at(&v, 0),
                from: text_at(&v, 1),
                to: opt_text_at(&v, 2),
                tag: text_at(&v, 3),
                format: format_at(&v, 4),
            })
        }
    }
}

} // verus!
