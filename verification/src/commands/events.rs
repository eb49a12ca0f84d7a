//! `ddog events`: search events (monitor alerts, deploys, infrastructure changes).

use vstd::prelude::*;
use crate::cli::{
    count_at, count_opt, count_opt_v, count_val, format_at, format_opt, format_opt_v, format_val, lits,
    opt_text_at, opt_text_val, opts_view, parse_flat, parse_opts, text_at, text_opt, text_opt_v, text_val,
    CliError, Opt, OptV, ValV,
};
use crate::commands::{
    columns_view, event_body_v, event_search_body, info_note, info_v, notes_view, one_request, opt_as_str,
    opt_str, plan_result, post_request, post_v, range_at, request_view, single, Plan, PlanV, Show, ShowV,
};
use crate::error::DdError;
use crate::limits::{below_min_message, min_u32, resolve_limit, MAX_EVENT_HOURS, MAX_SEARCH_LIMIT};
use crate::log::info_text;
use crate::output::Format;
use crate::text::{append_text, decimal, decimal_text, text_of};
use crate::time::{duration_text, flags_readable, format_duration, now_ok, opt_text, range_of, utc_now, Instant};

verus! {

/// Search events (monitor alerts, deploys, infrastructure changes).
pub struct EventsSearch {
    /// Event query (e.g., "source:deploy", "priority:normal", "status:alert")
    pub query: String,
    /// Start time. Max range: 48h
    pub from: String,
    /// End time — defaults to now
    pub to: Option<String>,
    /// Max results (1-1000)
    pub limit: u32,
    /// Pagination cursor from previous response
    pub cursor: Option<String>,
    /// Output format
    pub format: Format,
}

/// The columns shown for events.
pub open spec fn event_columns() -> Seq<Seq<char>> {
    seq!["id"@, "attributes.timestamp"@, "attributes.message"@, "attributes.attributes.evt.name"@,
        "attributes.attributes.status"@]
}

/// The column paths shown for events.
pub fn event_column_list() -> (r: Vec<&'static str>)
    ensures
        columns_view(r@) == event_columns(),
{
    let r: Vec<&'static str> = vec![
        "id", "attributes.timestamp", "attributes.message", "attributes.attributes.evt.name",
        "attributes.attributes.status",
    ];
    assert(columns_view(r@) =~= event_columns());
    r
}

/// What an event search does, its results reported as `label`: a window of at
/// most 48 hours, a limit validated and capped at 1000, then one POST.
pub open spec fn event_search_plan(
    query: Seq<char>,
    from: Seq<char>,
    to: Option<String>,
    limit: u32,
    cursor: Option<Seq<char>>,
    format: Format,
    label: Seq<char>,
    now_from: Instant,
    now_to: Instant,
) -> Result<PlanV, Seq<char>> {
    match range_of(from, opt_text(to), 48, now_from, now_to) {
        Err(e) => Err(e),
        Ok(w) => if limit < 1 {
            Err(below_min_message("Limit"@, 1))
        } else {
            let limit = min_u32(limit, 1000);
            Ok(single(
                seq![info_v(info_text("Searching "@ + label + ": query=\""@ + query + "\" range="@ + duration_text(w.2)
                    + " limit="@ + decimal(limit as nat)))],
                post_v("/api/v2/events/search"@, event_body_v(query, w.0, w.1, limit, cursor)),
                format,
                ShowV::List { columns: event_columns(), label: Some(label) },
            ))
        },
    }
}

/// What `ddog events` does with `a`, its results reported as `label`.
pub open spec fn events_plan(a: EventsSearch, label: Seq<char>, now_from: Instant, now_to: Instant) -> Result<PlanV, Seq<char>> {
    event_search_plan(a.query@, a.from@, a.to, a.limit, opt_text(a.cursor), a.format, label, now_from, now_to)
}

/// Plans an event search whose results are reported as `label`.
pub fn search_plan_at(
    query: &str,
    from: &str,
    to: &Option<String>,
    limit: u32,
    cursor: Option<&str>,
    format: Format,
    label: &'static str,
    now_from: Instant,
    now_to: Instant,
) -> (r: Result<Plan, DdError>)
    requires
        flags_readable(from@, *to),
        now_ok(now_from),
        now_ok(now_to),
    ensures
        plan_result(r) == event_search_plan(query@, from@, *to, limit, opt_str(cursor), format, label@, now_from, now_to),
        r matches Err(e) ==> e is Validation,
{
    let range = match range_at(from, to, MAX_EVENT_HOURS, now_from, now_to) {
        Ok(v) => v,
        Err(e) => return Err(e),
    };
    let limit = match resolve_limit(limit, MAX_SEARCH_LIMIT) {
        Ok(v) => v,
        Err(e) => return Err(DdError::Validation(e)),
    };
    let mut msg = text_of("Searching ");
    append_text(&mut msg, label);
    append_text(&mut msg, ": query=\"");
    append_text(&mut msg, query);
    append_text(&mut msg, "\" range=");
    let d = format_duration(range.duration_secs);
    append_text(&mut msg, d.as_str());
    append_text(&mut msg, " limit=");
    let limit_str = decimal_text(limit as u64);
    append_text(&mut msg, limit_str.as_str());
    let notes = info_note(msg.as_str());
    let body = event_search_body(query, range.from.as_str(), range.to.as_str(), limit, cursor);
    let request = post_request("/api/v2/events/search", body);
    let columns = event_column_list();
    let ghost nv = notes_view(notes@);
    let ghost rv = request_view(request);
    let r = one_request(notes, request, format, Show::List { columns, label: Some(label) });
    let ghost spec_r = event_search_plan(query@, from@, *to, limit, opt_str(cursor), format, label@, now_from, now_to);
    assert(nv =~~= spec_r->Ok_0.notes);
    assert(rv =~~= spec_r->Ok_0.requests[0]);
    assert(plan_result(Ok::<Plan, DdError>(r)) =~~= spec_r);
    Ok(r)
}

/// Plans an event search whose results are reported as `label`.
pub fn plan_labeled_at(args: &EventsSearch, label: &'static str, now_from: Instant, now_to: Instant) -> (r: Result<Plan, DdError>)
    requires
        flags_readable(args.from@, args.to),
        now_ok(now_from),
        now_ok(now_to),
    ensures
        plan_result(r) == events_plan(*args, label@, now_from, now_to),
        r matches Err(e) ==> e is Validation,
{
    search_plan_at(
        args.query.as_str(), args.from.as_str(), &args.to, args.limit, opt_as_str(&args.cursor), args.format, label,
        now_from, now_to,
    )
}

/// Plans `ddog events` with the time flags read at the given clock readings.
pub fn plan_at(args: &EventsSearch, now_from: Instant, now_to: Instant) -> (r: Result<Plan, DdError>)
    requires
        flags_readable(args.from@, args.to),
        now_ok(now_from),
        now_ok(now_to),
    ensures
        plan_result(r) == events_plan(*args, "events"@, now_from, now_to),
{
    plan_labeled_at(args, "events", now_from, now_to)
}

/// Plans `ddog events`, reading relative time flags against the current clock.
pub fn search(args: &EventsSearch) -> (r: Result<Plan, DdError>)
    requires
        flags_readable(args.from@, args.to),
    ensures
        exists|now_from: Instant, now_to: Instant|
            now_ok(now_from) && now_ok(now_to) && plan_result(r) == #[trigger] events_plan(*args, "events"@, now_from, now_to),
{
    let now_from = utc_now();
    let now_to = utc_now();
    let r = plan_at(args, now_from, now_to);
    assert(now_ok(now_from) && now_ok(now_to) && plan_result(r) == events_plan(*args, "events"@, now_from, now_to));
    r
}

/// The options of `ddog events`, in field order.
pub open spec fn events_options_v() -> Seq<OptV> {
    seq![
        text_opt_v("query"@, "QUERY"@, Some('q'), Some("*"@), false),
        text_opt_v("from"@, "FROM"@, None, Some("1h"@), false),
        text_opt_v("to"@, "TO"@, None, None, false),
        count_opt_v("limit"@, "LIMIT"@, Some('l'), "25"@, 1),
        text_opt_v("cursor"@, "CURSOR"@, None, None, false),
        format_opt_v(),
    ]
}

fn events_options() -> (r: Vec<Opt>)
    ensures
        opts_view(r@) == events_options_v(),
{
    let mut v: Vec<Opt> = Vec::new();
    v.push(text_opt("query", "QUERY", Some('q'), Some("*"), false));
    v.push(text_opt("from", "FROM", None, Some("1h"), false));
    v.push(text_opt("to", "TO", None, None, false));
    v.push(count_opt("limit", "LIMIT", Some('l'), "25", 1));
    v.push(text_opt("cursor", "CURSOR", None, None, false));
    v.push(format_opt());
    assert(opts_view(v@) =~= events_options_v());
    v
}

/// What a `ddog events` command line (the first token the program name) gives:
/// the value of each option, or the message refusing it.
pub open spec fn events_command_line(args: Seq<Seq<char>>) -> Result<Seq<ValV>, Seq<char>> {
    parse_opts(events_options_v(), args, 1)
}

/// Whether the arguments hold the values read.
pub open spec fn events_from_values(a: EventsSearch, v: Seq<ValV>) -> bool {
    &&& a.query@ == text_val(v[0])
    &&& a.from@ == text_val(v[1])
    &&& crate::time::opt_text(a.to) == opt_text_val(v[2])
    &&& a.limit == count_val(v[3])
    &&& crate::time::opt_text(a.cursor) == opt_text_val(v[4])
    &&& a.format == format_val(v[5])
}

impl EventsSearch {
    /// Reads `ddog events` from its command line, the first token being the program name.
    pub fn try_parse_from(args: &[&str]) -> (r: Result<EventsSearch, CliError>)
        ensures
            match r {
                Ok(a) => events_command_line(lits(args@)) matches Ok(v) && events_from_values(a, v),
                Err(e) => events_command_line(lits(args@)) == Err::<Seq<ValV>, Seq<char>>(e.message@),
            },
    {
        let opts = events_options();
        let v = match parse_flat(&opts, args) {
            Ok(v) => v,
            Err(e) => return Err(e),
        };
        Ok(EventsSearch {
            query: text_at(&v, 0),
            from: text_at(&v, 1),
            to: opt_text_at(&v, 2),
            limit: count_at(&v, 3),
            cursor: opt_text_at(&v, 4),
            format: format_at(&v, 5),
        })
    }
}

} // verus!
