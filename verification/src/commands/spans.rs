//! `ddog spans`: search APM spans.

use vstd::prelude::*;
use crate::cli::{
    choice_opt, choice_opt_v, count_at, count_opt, count_opt_v, count_val, format_at, format_opt, format_opt_v,
    format_val, lits, opt_text_at, opt_text_val, opts_view, parse_flat, parse_opts, text_at, text_opt, text_opt_v,
    text_val, CliError, Opt, OptV, ValV,
};
use crate::commands::{
    columns_view, info_note, info_v, notes_view, one_request, opt_as_str, plan_result, post_request, post_v,
    range_at, request_view, search_body_v, search_request_body, single, Plan, PlanV, Show, ShowV,
};
use crate::error::DdError;
use crate::limits::{below_min_message, min_u32, resolve_limit, MAX_SEARCH_LIMIT, MAX_SPAN_HOURS};
use crate::log::info_text;
use crate::output::Format;
use crate::text::{append_text, decimal, decimal_text, text_of};
use crate::time::{duration_text, flags_readable, format_duration, now_ok, opt_text, range_of, utc_now, Instant};

verus! {

/// Search APM spans.
pub struct SpansSearch {
    /// Span query using Datadog syntax (e.g., "service:web @http.status_code:500")
    pub query: String,
    /// Start time. Max range: 24h
    pub from: String,
    /// End time — defaults to now
    pub to: Option<String>,
    /// Max results (1-1000)
    pub limit: u32,
    /// Sort: "timestamp" or "-timestamp"
    pub sort: String,
    /// Pagination cursor
    pub cursor: Option<String>,
    /// Output format
    pub format: Format,
}

/// The columns shown for spans.
pub open spec fn span_columns() -> Seq<Seq<char>> {
    seq!["attributes.service"@, "attributes.resource_name"@, "attributes.custom.duration"@, "attributes.status"@,
        "attributes.trace_id"@]
}

/// What `ddog spans` does: a window of at most 24 hours, a limit validated and
/// capped at 1000, then one POST of a span search.
pub open spec fn spans_plan(a: SpansSearch, now_from: Instant, now_to: Instant) -> Result<PlanV, Seq<char>> {
    match range_of(a.from@, opt_text(a.to), 24, now_from, now_to) {
        Err(e) => Err(e),
        Ok(w) => if a.limit < 1 {
            Err(below_min_message("Limit"@, 1))
        } else {
            let limit = min_u32(a.limit, 1000);
            Ok(single(
                seq![info_v(info_text("Searching spans: query=\""@ + a.query@ + "\" range="@ + duration_text(w.2)
                    + " limit="@ + decimal(limit as nat)))],
                post_v("/api/v2/spans/events/search"@,
                    search_body_v(a.query@, w.0, w.1, limit, Some(a.sort@), opt_text(a.cursor))),
                a.format,
                ShowV::List { columns: span_columns(), label: Some("spans"@) },
            ))
        },
    }
}

/// Plans `ddog spans` with the time flags read at the given clock readings.
pub fn plan_at(args: &SpansSearch, now_from: Instant, now_to: Instant) -> (r: Result<Plan, DdError>)
    requires
        flags_readable(args.from@, args.to),
        now_ok(now_from),
        now_ok(now_to),
    ensures
        plan_result(r) == spans_plan(*args, now_from, now_to),
        r matches Err(e) ==> e is Validation,
{
    let range = match range_at(args.from.as_str(), &args.to, MAX_SPAN_HOURS, now_from, now_to) {
        Ok(v) => v,
        Err(e) => return Err(e),
    };
    let limit = match resolve_limit(args.limit, MAX_SEARCH_LIMIT) {
        Ok(v) => v,
        Err(e) => return Err(DdError::Validation(e)),
    };
    let mut msg = text_of("Searching spans: query=\"");
    append_text(&mut msg, args.query.as_str());
    append_text(&mut msg, "\" range=");
    let d = format_duration(range.duration_secs);
    append_text(&mut msg, d.as_str());
    append_text(&mut msg, " limit=");
    let limit_str = decimal_text(limit as u64);
    append_text(&mut msg, limit_str.as_str());
    let notes = info_note(msg.as_str());
    let body = search_request_body(
        args.query.as_str(), range.from.as_str(), range.to.as_str(), limit, Some(args.sort.as_str()),
        opt_as_str(&args.cursor),
    );
    let request = post_request("/api/v2/spans/events/search", body);
    let columns: Vec<&'static str> = vec![
        "attributes.service", "attributes.resource_name", "attributes.custom.duration", "attributes.status",
        "attributes.trace_id",
    ];
    assert(columns_view(columns@) =~= span_columns());
    let ghost nv = notes_view(notes@);
    let ghost rv = request_view(request);
    let r = one_request(notes, request, args.format, Show::List { columns, label: Some("spans") });
    let ghost target = spans_plan(*args, now_from, now_to)->Ok_0;
    assert(nv =~~= target.notes);
    assert(rv =~~= target.requests[0]);
    assert(plan_result(Ok::<Plan, DdError>(r)) =~~= spans_plan(*args, now_from, now_to));
    Ok(r)
}

/// Plans `ddog spans`, reading relative time flags against the current clock.
pub fn search(args: &SpansSearch) -> (r: Result<Plan, DdError>)
    requires
        flags_readable(args.from@, args.to),
    ensures
        exists|now_from: Instant, now_to: Instant|
            now_ok(now_from) && now_ok(now_to) && plan_result(r) == #[trigger] spans_plan(*args, now_from, now_to),
{
    let now_from = utc_now();
    let now_to = utc_now();
    let r = plan_at(args, now_from, now_to);
    assert(now_ok(now_from) && now_ok(now_to) && plan_result(r) == spans_plan(*args, now_from, now_to));
    r
}

/// The options of `ddog spans`, in field order.
pub open spec fn spans_options_v() -> Seq<OptV> {
    seq![
        text_opt_v("query"@, "QUERY"@, Some('q'), Some("*"@), false),
        text_opt_v("from"@, "FROM"@, None, Some("1h"@), false),
        text_opt_v("to"@, "TO"@, None, None, false),
        count_opt_v("limit"@, "LIMIT"@, Some('l'), "25"@, 1),
        choice_opt_v("sort"@, "SORT"@, None, Some("-timestamp"@), seq!["timestamp"@, "-timestamp"@]),
        text_opt_v("cursor"@, "CURSOR"@, None, None, false),
        format_opt_v(),
    ]
}

fn spans_options() -> (r: Vec<Opt>)
    ensures
        opts_view(r@) == spans_options_v(),
{
    let mut v: Vec<Opt> = Vec::new();
    v.push(text_opt("query", "QUERY", Some('q'), Some("*"), false));
    v.push(text_opt("from", "FROM", None, Some("1h"), false));
    v.push(text_opt("to", "TO", None, None, false));
    v.push(count_opt("limit", "LIMIT", Some('l'), "25", 1));
    let choices1: Vec<&'static str> = vec!["timestamp", "-timestamp"];
    assert(lits(choices1@) =~= seq!["timestamp"@, "-timestamp"@]);
    v.push(choice_opt("sort", "SORT", None, Some("-timestamp"), choices1));
    v.push(text_opt("cursor", "CURSOR", None, None, false));
    v.push(format_opt());
    assert(opts_view(v@) =~= spans_options_v());
    v
}

/// What a `ddog spans` command line (the first token the program name) gives:
/// the value of each option, or the message refusing it.
pub open spec fn spans_command_line(args: Seq<Seq<char>>) -> Result<Seq<ValV>, Seq<char>> {
    parse_opts(spans_options_v(), args, 1)
}

/// Whether the arguments hold the values read.
pub open spec fn spans_from_values(a: SpansSearch, v: Seq<ValV>) -> bool {
    &&& a.query@ == text_val(v[0])
    &&& a.from@ == text_val(v[1])
    &&& crate::time::opt_text(a.to) == opt_text_val(v[2])
    &&& a.limit == count_val(v[3])
    &&& a.sort@ == text_val(v[4])
    &&& crate::time::opt_text(a.cursor) == opt_text_val(v[5])
    &&& a.format == format_val(v[6])
}

impl SpansSearch {
    /// Reads `ddog spans` from its command line, the first token being the program name.
    pub fn try_parse_from(args: &[&str]) -> (r: Result<SpansSearch, CliError>)
        ensures
            match r {
                Ok(a) => spans_command_line(lits(args@)) matches Ok(v) && spans_from_values(a, v),
                Err(e) => spans_command_line(lits(args@)) == Err::<Seq<ValV>, Seq<char>>(e.message@),
            },
    {
        let opts = spans_options();
        let v = match parse_flat(&opts, args) {
            Ok(v) => v,
            Err(e) => return Err(e),
        };
        Ok(SpansSearch {
            query: text_at(&v, 0),
            from: text_at(&v, 1),
            to: opt_text_at(&v, 2),
            limit: count_at(&v, 3),
            sort: text_at(&v, 4),
            cursor: opt_text_at(&v, 5),
            format: format_at(&v, 6),
        })
    }
}

} // verus!
