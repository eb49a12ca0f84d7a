//! `ddog logs`: search logs and aggregate them.

use vstd::prelude::*;
use crate::cli::{
    choice_opt, choice_opt_v, count_at, count_opt, count_opt_v, count_val, format_at, format_opt, format_opt_v,
    format_val, list_at, list_val, lits, many_opt, many_opt_v, opt_text_at, opt_text_val, opts_view,
    parse_after_subcommand, parse_opts, pick_subcommand, strings_view, subcommand_of, text_at, text_opt,
    text_opt_v, text_val, CliError, Opt, OptV, ValV,
};
use crate::commands::{
    aggregate_compute, columns_view, facet_group, facet_group_v, filter_object, filter_v, info_v, lemma_members,
    measure_sort, measure_sort_v, normalize_metric, note_view, notes_view, object_in_order, one_request, opt_as_str,
    opt_member, opt_str, page_object, page_v, plan_result, post_request, post_v, range_at, request_view, single,
    num_v, str_v, strs_v, text_array, warn_note, warn_v, at_prefixed, Note, Plan, PlanV, Show, ShowV,
};
use crate::error::DdError;
use crate::json::{entry, json_get, jv_items, member, lemma_jv_items_push, Json, JsonV};
use crate::limits::{below_min_message, min_u32, resolve_limit, MAX_ANALYTICS_HOURS, MAX_LOG_HOURS, MAX_SEARCH_LIMIT};
use crate::log::{info, info_text, warn_text};
use crate::output::Format;
use crate::text::{append_text, decimal, decimal_text, text_of};
use crate::time::{duration_text, flags_readable, format_duration, now_ok, opt_text, range_of, utc_now, Instant};

verus! {

/// Search and aggregate logs.
pub enum LogsCmd {
    /// Search logs with filter query
    Search {
        query: String,
        from: String,
        to: Option<String>,
        limit: u32,
        sort: String,
        cursor: Option<String>,
        indexes: Vec<String>,
        format: Format,
    },
    /// Aggregate and analyze logs (count, avg, percentiles, grouped by facet)
    Analyze {
        query: String,
        from: String,
        to: Option<String>,
        compute: String,
        metric: Option<String>,
        group_by: Vec<String>,
        interval: Option<String>,
        format: Format,
    },
}

/// The columns shown for logs.
pub open spec fn log_columns() -> Seq<Seq<char>> {
    seq!["id"@, "attributes.timestamp"@, "attributes.status"@, "attributes.service"@, "attributes.message"@]
}

/// The columns shown for a log aggregation.
pub open spec fn analyze_columns() -> Seq<Seq<char>> {
    seq!["buckets"@, "compute"@, "group_by"@]
}

/// The filter of a log search: the window and query, and the indexes when any are given.
pub open spec fn log_filter_v(query: Seq<char>, from: Seq<char>, to: Seq<char>, indexes: Seq<String>) -> JsonV {
    JsonV::Object(seq![("from"@, str_v(from))]
        + (if indexes.len() > 0 { seq![("indexes"@, JsonV::Array(strs_v(indexes)))] } else { seq![] })
        + seq![("query"@, str_v(query)), ("to"@, str_v(to))])
}

/// The body of a log search.
pub open spec fn log_search_body_v(
    query: Seq<char>,
    from: Seq<char>,
    to: Seq<char>,
    indexes: Seq<String>,
    limit: u32,
    sort: Seq<char>,
    cursor: Option<Seq<char>>,
) -> JsonV {
    JsonV::Object(seq![
        ("filter"@, log_filter_v(query, from, to, indexes)),
        ("page"@, page_v(limit, cursor)),
        ("sort"@, str_v(sort)),
    ])
}

/// A log search body pages with the given limit and, exactly when a cursor
/// is given, with that cursor: `page.cursor` is the cursor text.
pub proof fn lemma_log_search_paging(
    query: Seq<char>,
    from: Seq<char>,
    to: Seq<char>,
    indexes: Seq<String>,
    limit: u32,
    sort: Seq<char>,
    cursor: Option<Seq<char>>,
)
    ensures
        json_get(log_search_body_v(query, from, to, indexes, limit, sort, cursor), "page"@) matches Some(page)
            && json_get(page, "cursor"@) == (match cursor {
                Some(c) => Some(JsonV::Str(c)),
                None => None::<JsonV>,
            })
            && json_get(page, "limit"@) == Some(JsonV::Number(decimal(limit as nat))),
        json_get(log_search_body_v(query, from, to, indexes, limit, sort, cursor), "sort"@) == Some(JsonV::Str(sort)),
        json_get(log_search_body_v(query, from, to, indexes, limit, sort, cursor), "filter"@) matches Some(filter)
            && json_get(filter, "query"@) == Some(JsonV::Str(query))
            && json_get(filter, "from"@) == Some(JsonV::Str(from))
            && json_get(filter, "to"@) == Some(JsonV::Str(to))
            && (indexes.len() == 0 ==> json_get(filter, "indexes"@) is None)
            && (indexes.len() > 0 ==> (json_get(filter, "indexes"@) matches Some(JsonV::Array(items))
                && items.len() == indexes.len()
                && forall|i: int| 0 <= i < items.len() ==> #[trigger] items[i] == JsonV::Str(indexes[i]@))),
{
    reveal_strlit("query");
    reveal_strlit("from");
    reveal_strlit("to");
    reveal_strlit("indexes");
    assert("from"@ != "query"@) by { assert("from"@[0] != "query"@[0]); }
    assert("from"@ != "to"@) by { assert("from"@[0] != "to"@[0]); }
    assert("from"@ != "indexes"@) by { assert("from"@[0] != "indexes"@[0]); }
    assert("indexes"@ != "query"@) by { assert("indexes"@[0] != "query"@[0]); }
    assert("indexes"@ != "to"@) by { assert("indexes"@[0] != "to"@[0]); }
    assert("query"@ != "to"@) by { assert("query"@[0] != "to"@[0]); }
    let fe = log_filter_v(query, from, to, indexes)->Object_0;
    let f1 = fe.drop_first();
    let f2 = f1.drop_first();
    let f3 = f2.drop_first();
    assert(member(fe, "from"@) == Some(str_v(from)));
    if indexes.len() > 0 {
        assert(f1[0] == fe[1] && f2[0] == fe[2] && f3[0] == fe[3]);
        assert(member(fe, "indexes"@) == member(f1, "indexes"@));
        assert(member(f1, "indexes"@) == Some(JsonV::Array(strs_v(indexes))));
        assert(member(fe, "query"@) == member(f1, "query"@));
        assert(member(f1, "query"@) == member(f2, "query"@));
        assert(member(f2, "query"@) == Some(str_v(query)));
        assert(member(fe, "to"@) == member(f1, "to"@));
        assert(member(f1, "to"@) == member(f2, "to"@));
        assert(member(f2, "to"@) == member(f3, "to"@));
        assert(member(f3, "to"@) == Some(str_v(to)));
    } else {
        assert(f1[0] == fe[1] && f2[0] == fe[2] && f2.len() == 1);
        assert(f3.len() == 0);
        assert(member(fe, "indexes"@) == member(f1, "indexes"@));
        assert(member(f1, "indexes"@) == member(f2, "indexes"@));
        assert(member(f2, "indexes"@) == member(f3, "indexes"@));
        assert(member(fe, "query"@) == member(f1, "query"@));
        assert(member(f1, "query"@) == Some(str_v(query)));
        assert(member(fe, "to"@) == member(f1, "to"@));
        assert(member(f1, "to"@) == member(f2, "to"@));
        assert(member(f2, "to"@) == Some(str_v(to)));
    }
    reveal_strlit("filter");
    reveal_strlit("page");
    reveal_strlit("sort");
    reveal_strlit("cursor");
    reveal_strlit("limit");
    let es = log_search_body_v(query, from, to, indexes, limit, sort, cursor)->Object_0;
    assert("filter"@ != "page"@) by { assert("filter"@[0] != "page"@[0]); }
    assert("filter"@ != "sort"@) by { assert("filter"@[0] != "sort"@[0]); }
    assert("page"@ != "sort"@) by { assert("page"@[0] != "sort"@[0]); }
    assert("cursor"@ != "limit"@) by { assert("cursor"@[0] != "limit"@[0]); }
    let e1 = es.drop_first();
    let e2 = e1.drop_first();
    assert(e1[0] == es[1]);
    assert(e2[0] == es[2]);
    assert(member(es, "page"@) == member(e1, "page"@));
    assert(member(e1, "page"@) == Some(page_v(limit, cursor)));
    assert(member(es, "sort"@) == member(e1, "sort"@));
    assert(member(e1, "sort"@) == member(e2, "sort"@));
    assert(member(e2, "sort"@) == Some(str_v(sort)));
    let pe = page_v(limit, cursor)->Object_0;
    match cursor {
        Some(c) => {
            let p1 = pe.drop_first();
            assert(pe[0] == ("cursor"@, str_v(c)));
            assert(p1[0] == pe[1]);
            assert(member(pe, "cursor"@) == Some(str_v(c)));
            assert(member(pe, "limit"@) == member(p1, "limit"@));
            assert(member(p1, "limit"@) == Some(num_v(limit as nat)));
        },
        None => {
            let p1 = pe.drop_first();
            assert(pe.len() == 1);
            assert(pe[0] == ("limit"@, num_v(limit as nat)));
            assert(p1.len() == 0);
            assert(member(pe, "cursor"@) == member(p1, "cursor"@));
            assert(member(pe, "limit"@) == Some(num_v(limit as nat)));
        },
    }
}

/// The computed aggregate of a log aggregation; a timeseries when an interval is given.
pub open spec fn log_compute_v(compute: Seq<char>, metric: Option<Seq<char>>, interval: Option<Seq<char>>) -> JsonV {
    JsonV::Object(seq![("aggregation"@, str_v(compute))] + opt_member("interval"@, interval)
        + opt_member("metric"@, metric)
        + match interval { Some(_) => seq![("type"@, str_v("timeseries"@))], None => seq![] })
}

/// The group-bys of a log aggregation: ten groups per facet, by the computed measure.
pub open spec fn log_groups_v(group_by: Seq<String>, compute: Seq<char>, metric: Option<Seq<char>>) -> Seq<JsonV> {
    Seq::new(group_by.len(), |i: int| facet_group_v(group_by[i]@, 10, measure_sort_v(compute, metric)))
}

/// The body of a log aggregation.
pub open spec fn log_analyze_body_v(
    query: Seq<char>,
    from: Seq<char>,
    to: Seq<char>,
    compute: JsonV,
    groups: Seq<JsonV>,
) -> JsonV {
    JsonV::Object(seq![
        ("compute"@, JsonV::Array(seq![compute])),
        ("filter"@, filter_v(query, from, to)),
        ("group_by"@, JsonV::Array(groups)),
    ])
}

/// The message for an aggregation that needs a metric and has none.
pub open spec fn metric_required_message(compute: Seq<char>) -> Seq<char> {
    "Aggregation '"@ + compute + "' requires --metric (e.g., --metric response_time)."@
}

/// The optional metric, as a measure name.
pub open spec fn metric_name(metric: Option<String>) -> Option<Seq<char>> {
    match metric {
        Some(m) => Some(at_prefixed(m@)),
        None => None,
    }
}

/// Whether the time flags of the command can be read.
pub open spec fn logs_readable(c: LogsCmd) -> bool {
    match c {
        LogsCmd::Search { from, to, .. } => flags_readable(from@, to),
        LogsCmd::Analyze { from, to, .. } => flags_readable(from@, to),
    }
}

/// Whether the time flags of the command can be read.
pub fn readable(cmd: &LogsCmd) -> (r: bool)
    ensures
        r == logs_readable(*cmd),
{
    match cmd {
        LogsCmd::Search { from, to, .. } => crate::time::time_flags_ok(from.as_str(), to),
        LogsCmd::Analyze { from, to, .. } => crate::time::time_flags_ok(from.as_str(), to),
    }
}

/// What `ddog logs` does, with the time flags read at the given clock readings.
///
/// A search takes a window of at most 24 hours and a limit validated and capped
/// at 1000, warns above 100 results, and POSTs a log search whose page is shown
/// with the cursor to the next one. An aggregation takes a window of at most
/// 7 days, refuses an aggregation other than `count` without a metric, and POSTs
/// an aggregation grouped by each facet.
pub open spec fn logs_plan(c: LogsCmd, now_from: Instant, now_to: Instant) -> Result<PlanV, Seq<char>> {
    match c {
        LogsCmd::Search { query, from, to, limit, sort, cursor, indexes, format } => {
            match range_of(from@, opt_text(to), 24, now_from, now_to) {
                Err(e) => Err(e),
                Ok(w) => if limit < 1 {
                    Err(below_min_message("Limit"@, 1))
                } else {
                    let limit = min_u32(limit, 1000);
                    let warning = if limit > 100 {
                        seq![warn_v(warn_text("Requesting "@ + decimal(limit as nat) + " logs — large responses may be slow."@))]
                    } else {
                        seq![]
                    };
                    Ok(single(
                        warning + seq![info_v(info_text("Searching logs: query=\""@ + query@ + "\" range="@
                            + duration_text(w.2) + " limit="@ + decimal(limit as nat)))],
                        post_v("/api/v2/logs/events/search"@,
                            log_search_body_v(query@, w.0, w.1, indexes@, limit, sort@, opt_text(cursor))),
                        format,
                        ShowV::LogPage { columns: log_columns() },
                    ))
                },
            }
        },
        LogsCmd::Analyze { query, from, to, compute, metric, group_by, interval, format } => {
            match range_of(from@, opt_text(to), 168, now_from, now_to) {
                Err(e) => Err(e),
                Ok(w) => if compute@ != "count"@ && metric is None {
                    Err(metric_required_message(compute@))
                } else {
                    Ok(single(
                        seq![info_v(info_text("Analyzing logs: query=\""@ + query@ + "\" compute="@ + compute@
                            + " range="@ + duration_text(w.2)))],
                        post_v("/api/v2/logs/analytics/aggregate"@, log_analyze_body_v(
                            query@, w.0, w.1,
                            log_compute_v(compute@, metric_name(metric), opt_text(interval)),
                            log_groups_v(group_by@, compute@, metric_name(metric)),
                        )),
                        format,
                        ShowV::List { columns: analyze_columns(), label: None },
                    ))
                },
            }
        },
    }
}

fn log_filter(query: &str, from: &str, to: &str, indexes: &Vec<String>) -> (r: Json)
    ensures
        r@ == log_filter_v(query@, from@, to@, indexes@),
{
    let mut m: Vec<(String, Json)> = Vec::new();
    m.push(entry("from", Json::text(from)));
    if indexes.len() > 0 {
        m.push(entry("indexes", text_array(indexes)));
    }
    m.push(entry("query", Json::text(query)));
    m.push(entry("to", Json::text(to)));
    proof { lemma_members(m@, log_filter_v(query@, from@, to@, indexes@)->Object_0); }
    object_in_order(m)
}

/// The body of a log search.
pub fn log_search_body(
    query: &str,
    from: &str,
    to: &str,
    indexes: &Vec<String>,
    limit: u32,
    sort: &str,
    cursor: Option<&str>,
) -> (r: Json)
    ensures
        r@ == log_search_body_v(query@, from@, to@, indexes@, limit, sort@, opt_str(cursor)),
{
    let mut m: Vec<(String, Json)> = Vec::new();
    m.push(entry("filter", log_filter(query, from, to, indexes)));
    m.push(entry("page", page_object(limit, cursor)));
    m.push(entry("sort", Json::text(sort)));
    proof { lemma_members(m@, log_search_body_v(query@, from@, to@, indexes@, limit, sort@, opt_str(cursor))->Object_0); }
    object_in_order(m)
}

fn log_compute(compute: &str, metric: Option<&str>, interval: Option<&str>) -> (r: Json)
    ensures
        r@ == log_compute_v(compute@, opt_str(metric), opt_str(interval)),
{
    let mut m: Vec<(String, Json)> = Vec::new();
    m.push(entry("aggregation", Json::text(compute)));
    if let Some(iv) = interval {
        m.push(entry("interval", Json::text(iv)));
    }
    if let Some(mt) = metric {
        m.push(entry("metric", Json::text(mt)));
    }
    if interval.is_some() {
        m.push(entry("type", Json::text("timeseries")));
    }
    proof { lemma_members(m@, log_compute_v(compute@, opt_str(metric), opt_str(interval))->Object_0); }
    object_in_order(m)
}

fn log_groups(group_by: &Vec<String>, compute: &str, metric: Option<&str>) -> (r: Vec<Json>)
    ensures
        jv_items(r@) == log_groups_v(group_by@, compute@, opt_str(metric)),
{
    let mut out: Vec<Json> = Vec::new();
    let mut i: usize = 0;
    while i < group_by.len()
        invariant
            i <= group_by@.len(),
            jv_items(out@) == log_groups_v(group_by@.take(i as int), compute@, opt_str(metric)),
        decreases group_by@.len() - i,
    {
        let g = facet_group(group_by[i].as_str(), 10, measure_sort(compute, metric));
        proof { lemma_jv_items_push(out@, g); }
        out.push(g);
        i = i + 1;
        assert(jv_items(out@) =~= log_groups_v(group_by@.take(i as int), compute@, opt_str(metric)));
    }
    assert(group_by@.take(i as int) =~= group_by@);
    out
}

/// The body of a log aggregation.
pub fn log_analyze_body(query: &str, from: &str, to: &str, compute: Json, groups: Vec<Json>) -> (r: Json)
    ensures
        r@ == log_analyze_body_v(query@, from@, to@, compute@, jv_items(groups@)),
{
    let mut computes: Vec<Json> = Vec::new();
    let ghost cv = compute@;
    computes.push(compute);
    assert(jv_items(computes@) =~= seq![cv]) by { lemma_jv_items_push(Seq::empty(), computes@[0]); }
    let mut m: Vec<(String, Json)> = Vec::new();
    m.push(entry("compute", Json::array(computes)));
    m.push(entry("filter", filter_object(query, from, to)));
    m.push(entry("group_by", Json::array(groups)));
    proof { lemma_members(m@, log_analyze_body_v(query@, from@, to@, cv, jv_items(groups@))->Object_0); }
    object_in_order(m)
}

/// Plans `ddog logs` with the time flags read at the given clock readings.
pub fn plan_at(cmd: &LogsCmd, now_from: Instant, now_to: Instant) -> (r: Result<Plan, DdError>)
    requires
        logs_readable(*cmd),
        now_ok(now_from),
        now_ok(now_to),
    ensures
        plan_result(r) == logs_plan(*cmd, now_from, now_to),
        r matches Err(e) ==> e is Validation,
{
    match cmd {
        LogsCmd::Search { query, from, to, limit, sort, cursor, indexes, format } => {
            let range = match range_at(from.as_str(), to, MAX_LOG_HOURS, now_from, now_to) {
                Ok(v) => v,
                Err(e) => return Err(e),
            };
            let limit = match resolve_limit(*limit, MAX_SEARCH_LIMIT) {
                Ok(v) => v,
                Err(e) => return Err(DdError::Validation(e)),
            };
            let limit_str = decimal_text(limit as u64);
            let mut notes: Vec<Note> = Vec::new();
            if limit > 100 {
                let mut w = text_of("Requesting ");
                append_text(&mut w, limit_str.as_str());
                append_text(&mut w, " logs — large responses may be slow.");
                notes.push(warn_note(w.as_str()));
            }
            let mut msg = text_of("Searching logs: query=\"");
            append_text(&mut msg, query.as_str());
            append_text(&mut msg, "\" range=");
            let d = format_duration(range.duration_secs);
            append_text(&mut msg, d.as_str());
            append_text(&mut msg, " limit=");
            append_text(&mut msg, limit_str.as_str());
            notes.push(Note::Info(info(msg.as_str())));
            let body = log_search_body(
                query.as_str(), range.from.as_str(), range.to.as_str(), indexes, limit, sort.as_str(), opt_as_str(cursor),
            );
            let request = post_request("/api/v2/logs/events/search", body);
            let columns: Vec<&'static str> = vec![
                "id", "attributes.timestamp", "attributes.status", "attributes.service", "attributes.message",
            ];
            assert(columns_view(columns@) =~= log_columns());
            let ghost nv = notes_view(notes@);
            let ghost rv = request_view(request);
            let r = one_request(notes, request, *format, Show::LogPage { columns });
            let ghost target = logs_plan(*cmd, now_from, now_to)->Ok_0;
            assert(nv =~~= target.notes);
            assert(rv =~~= target.requests[0]);
            assert(plan_result(Ok::<Plan, DdError>(r)) =~~= logs_plan(*cmd, now_from, now_to));
            Ok(r)
        },
        LogsCmd::Analyze { query, from, to, compute, metric, group_by, interval, format } => {
            let range = match range_at(from.as_str(), to, MAX_ANALYTICS_HOURS, now_from, now_to) {
                Ok(v) => v,
                Err(e) => return Err(e),
            };
            let count = text_of("count");
            if !(*compute == count) && metric.is_none() {
                let mut msg = text_of("Aggregation '");
                append_text(&mut msg, compute.as_str());
                append_text(&mut msg, "' requires --metric (e.g., --metric response_time).");
                return Err(DdError::Validation(msg));
            }
            let mut msg = text_of("Analyzing logs: query=\"");
            append_text(&mut msg, query.as_str());
            append_text(&mut msg, "\" compute=");
            append_text(&mut msg, compute.as_str());
            append_text(&mut msg, " range=");
            let d = format_duration(range.duration_secs);
            append_text(&mut msg, d.as_str());
            let mut notes: Vec<Note> = Vec::new();
            notes.push(Note::Info(info(msg.as_str())));
            let metric_norm: Option<String> = match metric {
                Some(m) => Some(normalize_metric(m.as_str())),
                None => None,
            };
            let metric_ref = opt_as_str(&metric_norm);
            assert(opt_str(metric_ref) == metric_name(*metric));
            let compute_obj = log_compute(compute.as_str(), metric_ref, opt_as_str(interval));
            let groups = log_groups(group_by, compute.as_str(), metric_ref);
            let body = log_analyze_body(query.as_str(), range.from.as_str(), range.to.as_str(), compute_obj, groups);
            let request = post_request("/api/v2/logs/analytics/aggregate", body);
            let columns: Vec<&'static str> = vec!["buckets", "compute", "group_by"];
            assert(columns_view(columns@) =~= analyze_columns());
            let ghost nv = notes_view(notes@);
            let ghost rv = request_view(request);
            let r = one_request(notes, request, *format, Show::List { columns, label: None });
            let ghost target = logs_plan(*cmd, now_from, now_to)->Ok_0;
            assert(nv =~~= target.notes);
            assert(rv =~~= target.requests[0]);
            assert(plan_result(Ok::<Plan, DdError>(r)) =~~= logs_plan(*cmd, now_from, now_to));
            Ok(r)
        },
    }
}

/// Plans `ddog logs`, reading relative time flags against the current clock.
pub fn plan(cmd: &LogsCmd) -> (r: Result<Plan, DdError>)
    requires
        logs_readable(*cmd),
    ensures
        exists|now_from: Instant, now_to: Instant|
            now_ok(now_from) && now_ok(now_to) && plan_result(r) == #[trigger] logs_plan(*cmd, now_from, now_to),
{
    let now_from = utc_now();
    let now_to = utc_now();
    let r = plan_at(cmd, now_from, now_to);
    assert(now_ok(now_from) && now_ok(now_to) && plan_result(r) == logs_plan(*cmd, now_from, now_to));
    r
}

/// The options of `ddog logs search`, in field order.
pub open spec fn logs_search_options_v() -> Seq<OptV> {
    seq![
        text_opt_v("query"@, "QUERY"@, Some('q'), Some("*"@), false),
        text_opt_v("from"@, "FROM"@, None, Some("1h"@), false),
        text_opt_v("to"@, "TO"@, None, None, false),
        count_opt_v("limit"@, "LIMIT"@, Some('l'), "25"@, 1),
        choice_opt_v("sort"@, "SORT"@, None, Some("-timestamp"@), seq!["timestamp"@, "-timestamp"@]),
        text_opt_v("cursor"@, "CURSOR"@, None, None, false),
        many_opt_v("indexes"@, "INDEXES"@, false),
        format_opt_v(),
    ]
}

fn logs_search_options() -> (r: Vec<Opt>)
    ensures
        opts_view(r@) == logs_search_options_v(),
{
    let mut v: Vec<Opt> = Vec::new();
    v.push(text_opt("query", "QUERY", Some('q'), Some("*"), false));
    v.push(text_opt("from", "FROM", None, Some("1h"), false));
    v.push(text_opt("to", "TO", None, None, false));
    v.push(count_opt("limit", "LIMIT", Some('l'), "25", 1));
    let choices1: Vec<&'static str> = vec!["timestamp", "-timestamp"];
    assert(lits(choices1@) =~= seq!["timestamp"@, "-timestamp"@]);
    v.push(choice_opt("sort", "SORT", None, Some("-timestamp"), choices1));
    v.push(text_opt("cursor", "CURSOR", None, None, false));
    v.push(many_opt("indexes", "INDEXES", false));
    v.push(format_opt());
    assert(opts_view(v@) =~= logs_search_options_v());
    v
}

/// The options of `ddog logs analyze`, in field order.
pub open spec fn logs_analyze_options_v() -> Seq<OptV> {
    seq![
        text_opt_v("query"@, "QUERY"@, Some('q'), Some("*"@), false),
        text_opt_v("from"@, "FROM"@, None, Some("1h"@), false),
        text_opt_v("to"@, "TO"@, None, None, false),
        text_opt_v("compute"@, "COMPUTE"@, None, Some("count"@), false),
        text_opt_v("metric"@, "METRIC"@, None, None, false),
        many_opt_v("group-by"@, "GROUP_BY"@, false),
        text_opt_v("interval"@, "INTERVAL"@, None, None, false),
        format_opt_v(),
    ]
}

fn logs_analyze_options() -> (r: Vec<Opt>)
    ensures
        opts_view(r@) == logs_analyze_options_v(),
{
    let mut v: Vec<Opt> = Vec::new();
    v.push(text_opt("query", "QUERY", Some('q'), Some("*"), false));
    v.push(text_opt("from", "FROM", None, Some("1h"), false));
    v.push(text_opt("to", "TO", None, None, false));
    v.push(text_opt("compute", "COMPUTE", None, Some("count"), false));
    v.push(text_opt("metric", "METRIC", None, None, false));
    v.push(many_opt("group-by", "GROUP_BY", false));
    v.push(text_opt("interval", "INTERVAL", None, None, false));
    v.push(format_opt());
    assert(opts_view(v@) =~= logs_analyze_options_v());
    v
}

/// The subcommands of `ddog logs`.
pub open spec fn logs_subcommands() -> Seq<Seq<char>> {
    seq!["search"@, "analyze"@]
}

/// The options of each subcommand of `ddog logs`.
pub open spec fn logs_grammar(sub: int) -> Seq<OptV> {
    if sub == 0 {
        logs_search_options_v()
    } else {
        logs_analyze_options_v()
    }
}

/// What a `ddog logs` command line (the first token the program name) gives:
/// the subcommand and the value of each of its options, or the message refusing it.
pub open spec fn logs_command_line(args: Seq<Seq<char>>) -> Result<(int, Seq<ValV>), Seq<char>> {
    match subcommand_of(args, logs_subcommands()) {
        Err(e) => Err(e),
        Ok(sub) => match parse_opts(logs_grammar(sub), args, 2) {
            Err(e) => Err(e),
            Ok(v) => Ok((sub, v)),
        },
    }
}

/// Whether a command holds the values read for subcommand `sub`.
pub open spec fn logs_from_values(c: LogsCmd, sub: int, v: Seq<ValV>) -> bool {
    match c {
        LogsCmd::Search { query, from, to, limit, sort, cursor, indexes, format } => {
            &&& sub == 0
            &&& query@ == text_val(v[0])
            &&& from@ == text_val(v[1])
            &&& crate::time::opt_text(to) == opt_text_val(v[2])
            &&& limit == count_val(v[3])
            &&& sort@ == text_val(v[4])
            &&& crate::time::opt_text(cursor) == opt_text_val(v[5])
            &&& strings_view(indexes@) == list_val(v[6])
            &&& format == format_val(v[7])
        },
        LogsCmd::Analyze { query, from, to, compute, metric, group_by, interval, format } => {
            &&& sub == 1
            &&& query@ == text_val(v[0])
            &&& from@ == text_val(v[1])
            &&& crate::time::opt_text(to) == opt_text_val(v[2])
            &&& compute@ == text_val(v[3])
            &&& crate::time::opt_text(metric) == opt_text_val(v[4])
            &&& strings_view(group_by@) == list_val(v[5])
            &&& crate::time::opt_text(interval) == opt_text_val(v[6])
            &&& format == format_val(v[7])
        },
    }
}

impl LogsCmd {
    /// Reads `ddog logs` from its command line, the first token being the program name.
    pub fn try_parse_from(args: &[&str]) -> (r: Result<LogsCmd, CliError>)
        ensures
            match r {
                Ok(c) => logs_command_line(lits(args@)) matches Ok((sub, v)) && logs_from_values(c, sub, v),
                Err(e) => logs_command_line(lits(args@)) == Err::<(int, Seq<ValV>), Seq<char>>(e.message@),
            },
    {
        let names: Vec<&'static str> = vec!["search", "analyze"];
        assert(lits(names@) =~= logs_subcommands());
        let sub = match pick_subcommand(args, &names) {
            Ok(k) => k,
            Err(e) => return Err(e),
        };
        if sub == 0 {
            let opts = logs_search_options();
            let v = match parse_after_subcommand(&opts, args) {
                Ok(v) => v,
                Err(e) => return Err(e),
            };
            Ok(LogsCmd::Search {
                query: text_at(&v, 0),
                from: text_at(&v, 1),
                to: opt_text_at(&v, 2),
                limit: count_at(&v, 3),
                sort: text_at(&v, 4),
                cursor: opt_text_at(&v, 5),
                indexes: list_at(&v, 6),
                format: format_at(&v, 7),
            })
        } else {
            let opts = logs_analyze_options();
            let v = match parse_after_subcommand(&opts, args) {
                Ok(v) => v,
                Err(e) => return Err(e),
            };
            Ok(LogsCmd::Analyze {
                query: text_at(&v, 0),
                from: text_at(&v, 1),
                to: opt_text_at(&v, 2),
                compute: text_at(&v, 3),
                metric: opt_text_at(&v, 4),
                group_by: list_at(&v, 5),
                interval: opt_text_at(&v, 6),
                format: format_at(&v, 7),
            })
        }
    }
}

} // verus!
