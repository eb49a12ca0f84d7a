//! `ddog traces`: all spans of one trace.

use vstd::prelude::*;
use crate::cli::{
    count_at, count_opt, count_opt_v, count_val, format_at, format_opt, format_opt_v, format_val, id_opt, id_opt_v,
    lits, opt_text_at, opt_text_val, opts_view, parse_flat, parse_opts, text_at, text_opt, text_opt_v, text_val,
    CliError, Opt, OptV, ValV,
};
use crate::commands::{
    columns_view, empty_message, info_note, info_v, notes_view, one_request, plan_result, post_request, post_v,
    range_at, request_view, require_non_empty, search_body_v, search_request_body, single, trace_id_query,
    trace_query, Plan, PlanV, Show, ShowV,
};
use crate::error::DdError;
use crate::limits::{below_min_message, min_u32, resolve_limit, MAX_SEARCH_LIMIT, MAX_SPAN_HOURS};
use crate::log::info_text;
use crate::output::Format;
use crate::text::{append_text, decimal, decimal_text, text_of, trim};
use crate::time::{duration_text, flags_readable, format_duration, now_ok, opt_text, range_of, utc_now, Instant};

verus! {

/// Get all spans for a trace by trace ID.
pub struct TracesGet {
    /// Trace ID to retrieve
    pub trace_id: String,
    /// Start time to search within. Max range: 24h
    pub from: String,
    /// End time — defaults to now
    pub to: Option<String>,
    /// Max spans to return (1-1000)
    pub limit: u32,
    /// Output format
    pub format: Format,
}

/// The columns shown for the spans of a trace.
pub open spec fn trace_columns() -> Seq<Seq<char>> {
    seq!["attributes.service"@, "attributes.resource_name"@, "attributes.custom.duration"@, "attributes.status"@,
        "attributes.span_id"@]
}

/// What `ddog traces` does: a non-blank trace ID, a window of at most 24 hours,
/// a limit validated and capped at 1000, then one POST of a span search for the
/// trace, oldest first.
pub open spec fn traces_plan(a: TracesGet, now_from: Instant, now_to: Instant) -> Result<PlanV, Seq<char>> {
    if trim(a.trace_id@).len() == 0 {
        Err(empty_message("Trace ID"@))
    } else {
        match range_of(a.from@, opt_text(a.to), 24, now_from, now_to) {
            Err(e) => Err(e),
            Ok(w) => if a.limit < 1 {
                Err(below_min_message("Limit"@, 1))
            } else {
                let limit = min_u32(a.limit, 1000);
                Ok(single(
                    seq![info_v(info_text("Fetching trace: "@ + a.trace_id@ + " (range="@ + duration_text(w.2)
                        + ", limit="@ + decimal(limit as nat) + ")"@))],
                    post_v("/api/v2/spans/events/search"@,
                        search_body_v(trace_query(a.trace_id@), w.0, w.1, limit, Some("timestamp"@), None)),
                    a.format,
                    ShowV::List { columns: trace_columns(), label: Some("spans"@) },
                ))
            },
        }
    }
}

/// Whether `ddog traces` can be planned: its time flags are readable, or the
/// trace ID is blank (refused before the flags are read).
pub open spec fn traces_readable(args: TracesGet) -> bool {
    trim(args.trace_id@).len() > 0 ==> flags_readable(args.from@, args.to)
}

/// Whether `ddog traces` can be planned with these arguments.
pub fn readable(args: &TracesGet) -> (r: bool)
    ensures
        r == traces_readable(*args),
{
    require_non_empty("Trace ID", args.trace_id.as_str()).is_err() || crate::time::time_flags_ok(args.from.as_str(), &args.to)
}

/// Plans `ddog traces` with the time flags read at the given clock readings.
pub fn plan_at(args: &TracesGet, now_from: Instant, now_to: Instant) -> (r: Result<Plan, DdError>)
    requires
        traces_readable(*args),
        now_ok(now_from),
        now_ok(now_to),
    ensures
        plan_result(r) == traces_plan(*args, now_from, now_to),
        r matches Err(e) ==> e is Validation,
{
    match require_non_empty("Trace ID", args.trace_id.as_str()) {
        Ok(()) => {},
        Err(e) => return Err(DdError::Validation(e)),
    }
    let range = match range_at(args.from.as_str(), &args.to, MAX_SPAN_HOURS, now_from, now_to) {
        Ok(v) => v,
        Err(e) => return Err(e),
    };
    let limit = match resolve_limit(args.limit, MAX_SEARCH_LIMIT) {
        Ok(v) => v,
        Err(e) => return Err(DdError::Validation(e)),
    };
    let mut msg = text_of("Fetching trace: ");
    append_text(&mut msg, args.trace_id.as_str());
    append_text(&mut msg, " (range=");
    let d = format_duration(range.duration_secs);
    append_text(&mut msg, d.as_str());
    append_text(&mut msg, ", limit=");
    let limit_str = decimal_text(limit as u64);
    append_text(&mut msg, limit_str.as_str());
    append_text(&mut msg, ")");
    let notes = info_note(msg.as_str());
    let query = trace_id_query(args.trace_id.as_str());
    let body = search_request_body(query.as_str(), range.from.as_str(), range.to.as_str(), limit, Some("timestamp"), None);
    let request = post_request("/api/v2/spans/events/search", body);
    let columns: Vec<&'static str> = vec![
        "attributes.service", "attributes.resource_name", "attributes.custom.duration", "attributes.status",
        "attributes.span_id",
    ];
    assert(columns_view(columns@) =~= trace_columns());
    let ghost nv = notes_view(notes@);
    let ghost rv = request_view(request);
    let r = one_request(notes, request, args.format, Show::List { columns, label: Some("spans") });
    let ghost target = traces_plan(*args, now_from, now_to)->Ok_0;
    assert(nv =~~= target.notes);
    assert(rv =~~= target.requests[0]);
    assert(plan_result(Ok::<Plan, DdError>(r)) =~~= traces_plan(*args, now_from, now_to));
    Ok(r)
}

/// Plans `ddog traces`, reading relative time flags against the current clock.
pub fn get(args: &TracesGet) -> (r: Result<Plan, DdError>)
    requires
        traces_readable(*args),
    ensures
        exists|now_from: Instant, now_to: Instant|
            now_ok(now_from) && now_ok(now_to) && plan_result(r) == #[trigger] traces_plan(*args, now_from, now_to),
{
    let now_from = utc_now();
    let now_to = utc_now();
    let r = plan_at(args, now_from, now_to);
    assert(now_ok(now_from) && now_ok(now_to) && plan_result(r) == traces_plan(*args, now_from, now_to));
    r
}

/// The options of `ddog traces`, in field order.
pub open spec fn traces_options_v() -> Seq<OptV> {
    seq![
        id_opt_v("trace-id"@, "TRACE_ID"@, Some('t')),
        text_opt_v("from"@, "FROM"@, None, Some("6h"@), false),
        text_opt_v("to"@, "TO"@, None, None, false),
        count_opt_v("limit"@, "LIMIT"@, Some('l'), "100"@, 1),
        format_opt_v(),
    ]
}

fn traces_options() -> (r: Vec<Opt>)
    ensures
        opts_view(r@) == traces_options_v(),
{
    let mut v: Vec<Opt> = Vec::new();
    v.push(id_opt("trace-id", "TRACE_ID", Some('t')));
    v.push(text_opt("from", "FROM", None, Some("6h"), false));
    v.push(text_opt("to", "TO", None, None, false));
    v.push(count_opt("limit", "LIMIT", Some('l'), "100", 1));
    v.push(format_opt());
    assert(opts_view(v@) =~= traces_options_v());
    v
}

/// What a `ddog traces` command line (the first token the program name) gives:
/// the value of each option, or the message refusing it.
pub open spec fn traces_command_line(args: Seq<Seq<char>>) -> Result<Seq<ValV>, Seq<char>> {
    parse_opts(traces_options_v(), args, 1)
}

/// Whether the arguments hold the values read.
pub open spec fn traces_from_values(a: TracesGet, v: Seq<ValV>) -> bool {
    &&& a.trace_id@ == text_val(v[0])
    &&& a.from@ == text_val(v[1])
    &&& crate::time::opt_text(a.to) == opt_text_val(v[2])
    &&& a.limit == count_val(v[3])
    &&& a.format == format_val(v[4])
}

impl TracesGet {
    /// Reads `ddog traces` from its command line, the first token being the program name.
    pub fn try_parse_from(args: &[&str]) -> (r: Result<TracesGet, CliError>)
        ensures
            match r {
                Ok(a) => traces_command_line(lits(args@)) matches Ok(v) && traces_from_values(a, v),
                Err(e) => traces_command_line(lits(args@)) == Err::<Seq<ValV>, Seq<char>>(e.message@),
            },
    {
        let opts = traces_options();
        let v = match parse_flat(&opts, args) {
            Ok(v) => v,
            Err(e) => return Err(e),
        };
        Ok(TracesGet {
            trace_id: text_at(&v, 0),
            from: text_at(&v, 1),
            to: opt_text_at(&v, 2),
            limit: count_at(&v, 3),
            format: format_at(&v, 4),
        })
    }
}

} // verus!
