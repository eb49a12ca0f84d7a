//! `ddog slos`: search SLOs, inspect one, and read its history.

use vstd::prelude::*;
use crate::cli::{
    count_at, count_opt, count_opt_v, count_val, format_at, format_opt, format_opt_v, format_val, lits,
    opt_text_at, opt_text_val, opts_view, parse_after_subcommand, parse_opts, pick_subcommand, subcommand_of,
    text_at, text_opt, text_opt_v, text_val, CliError, Opt, OptV, ValV,
};
use crate::commands::{
    columns_view, epoch_range_at, get_request, get_v, info_note, info_v, notes_view, one_request, plan_result,
    push_param, request_view, single, Plan, PlanV, Show, ShowV,
};
use crate::error::DdError;
use crate::limits::{below_min_message, min_u32, resolve_limit, MAX_SEARCH_LIMIT, MAX_SLO_HOURS};
use crate::log::info_text;
use crate::output::Format;
use crate::text::{append_text, decimal, decimal_text, signed_decimal, signed_decimal_text, text_of};
use crate::time::{duration_text, flags_readable, format_duration, now_ok, opt_text, range_epochs, range_of, utc_now, Instant};

verus! {

/// Search and inspect SLOs.
pub enum SlosCmd {
    /// Search SLOs by query
    Search { ids: Option<String>, query: String, limit: u32, offset: u32, format: Format },
    /// Get SLO details by ID
    Get { id: String, format: Format },
    /// Get SLO history (status over time)
    History { id: String, from: String, to: Option<String>, format: Format },
}

/// The columns shown for SLO search results.
pub open spec fn slo_search_columns() -> Seq<Seq<char>> {
    seq!["id"@, "name"@, "type"@, "overall_status.0.state"@, "thresholds.0.target"@]
}

/// The columns shown for one SLO.
pub open spec fn slo_columns() -> Seq<Seq<char>> {
    seq!["data.id"@, "data.name"@, "data.type"@, "data.thresholds"@]
}

/// The columns shown for an SLO history.
pub open spec fn slo_history_columns() -> Seq<Seq<char>> {
    seq!["data.overall.sli_value"@, "data.overall.span_precision"@, "data.overall.name"@]
}

/// Whether the time flags of the command can be read.
pub open spec fn slos_readable(c: SlosCmd) -> bool {
    match c {
        SlosCmd::History { from, to, .. } => flags_readable(from@, to),
        _ => true,
    }
}

/// Whether the time flags of the command can be read.
pub fn readable(cmd: &SlosCmd) -> (r: bool)
    ensures
        r == slos_readable(*cmd),
{
    match cmd {
        SlosCmd::History { from, to, .. } => crate::time::time_flags_ok(from.as_str(), to),
        _ => true,
    }
}

/// What `ddog slos` does, with the time flags read at the given clock readings:
/// a search GET with the limit validated and capped at 1000; a GET of one SLO;
/// or a GET of the history over a window of at most 90 days in epoch seconds.
pub open spec fn slos_plan(c: SlosCmd, now_from: Instant, now_to: Instant) -> Result<PlanV, Seq<char>> {
    match c {
        SlosCmd::Search { ids, query, limit, offset, format } => {
            if limit < 1 {
                Err(below_min_message("Limit"@, 1))
            } else {
                let limit = min_u32(limit, 1000);
                Ok(single(
                    seq![info_v(info_text("Searching SLOs: query=\""@ + query@ + "\" limit="@ + decimal(limit as nat)
                        + " offset="@ + decimal(offset as nat)))],
                    get_v("/api/v1/slo"@, seq![
                        ("query"@, query@),
                        ("limit"@, decimal(limit as nat)),
                        ("offset"@, decimal(offset as nat)),
                    ] + match ids { Some(i) => seq![("ids"@, i@)], None => seq![] }),
                    format,
                    ShowV::List { columns: slo_search_columns(), label: Some("SLOs"@) },
                ))
            }
        },
        SlosCmd::Get { id, format } => Ok(single(
            seq![info_v(info_text("Fetching SLO: "@ + id@))],
            get_v("/api/v1/slo/"@ + id@, seq![]),
            format,
            ShowV::Object { columns: slo_columns() },
        )),
        SlosCmd::History { id, from, to, format } => {
            match range_epochs(range_of(from@, opt_text(to), 2160, now_from, now_to)) {
                Err(e) => Err(e),
                Ok(w) => Ok(single(
                    seq![info_v(info_text("Fetching SLO history: id=\""@ + id@ + "\" range="@ + duration_text(w.1 - w.0)))],
                    get_v("/api/v1/slo/"@ + id@ + "/history"@, seq![
                        ("from_ts"@, signed_decimal(w.0 as int)),
                        ("to_ts"@, signed_decimal(w.1 as int)),
                    ]),
                    format,
                    ShowV::Object { columns: slo_history_columns() },
                )),
            }
        },
    }
}

/// Plans `ddog slos` with the time flags read at the given clock readings.
pub fn plan_at(cmd: &SlosCmd, now_from: Instant, now_to: Instant) -> (r: Result<Plan, DdError>)
    requires
        slos_readable(*cmd),
        now_ok(now_from),
        now_ok(now_to),
    ensures
        plan_result(r) == slos_plan(*cmd, now_from, now_to),
        r matches Err(e) ==> e is Validation,
{
    match cmd {
        SlosCmd::Search { ids, query, limit, offset, format } => {
            let limit = match resolve_limit(*limit, MAX_SEARCH_LIMIT) {
                Ok(v) => v,
                Err(e) => return Err(DdError::Validation(e)),
            };
            let mut msg = text_of("Searching SLOs: query=\"");
            append_text(&mut msg, query.as_str());
            append_text(&mut msg, "\" limit=");
            let limit_str = decimal_text(limit as u64);
            append_text(&mut msg, limit_str.as_str());
            append_text(&mut msg, " offset=");
            let offset_str = decimal_text(*offset as u64);
            append_text(&mut msg, offset_str.as_str());
            let notes = info_note(msg.as_str());
            let mut params: Vec<(String, String)> = Vec::new();
            push_param(&mut params, "query", query.as_str());
            push_param(&mut params, "limit", limit_str.as_str());
            push_param(&mut params, "offset", offset_str.as_str());
            if let Some(i) = ids {
                push_param(&mut params, "ids", i.as_str());
            }
            let request = get_request(text_of("/api/v1/slo"), params);
            let columns: Vec<&'static str> = vec!["id", "name", "type", "overall_status.0.state", "thresholds.0.target"];
            assert(columns_view(columns@) =~= slo_search_columns());
            let ghost nv = notes_view(notes@);
            let ghost rv = request_view(request);
            let r = one_request(notes, request, *format, Show::List { columns, label: Some("SLOs") });
            let ghost target = slos_plan(*cmd, now_from, now_to)->Ok_0;
            assert(nv =~~= target.notes);
            assert(rv.2 =~~= target.requests[0].2);
            assert(rv =~~= target.requests[0]);
            assert(plan_result(Ok::<Plan, DdError>(r)) =~~= slos_plan(*cmd, now_from, now_to));
            Ok(r)
        },
        SlosCmd::Get { id, format } => {
            let mut msg = text_of("Fetching SLO: ");
            append_text(&mut msg, id.as_str());
            let notes = info_note(msg.as_str());
            let params: Vec<(String, String)> = Vec::new();
            let mut path = text_of("/api/v1/slo/");
            append_text(&mut path, id.as_str());
            let request = get_request(path, params);
            let columns: Vec<&'static str> = vec!["data.id", "data.name", "data.type", "data.thresholds"];
            assert(columns_view(columns@) =~= slo_columns());
            let ghost nv = notes_view(notes@);
            let ghost rv = request_view(request);
            let r = one_request(notes, request, *format, Show::Object { columns });
            let ghost target = slos_plan(*cmd, now_from, now_to)->Ok_0;
            assert(nv =~~= target.notes);
            assert(rv.2 =~~= target.requests[0].2);
            assert(rv =~~= target.requests[0]);
            assert(plan_result(Ok::<Plan, DdError>(r)) =~~= slos_plan(*cmd, now_from, now_to));
            Ok(r)
        },
        SlosCmd::History { id, from, to, format } => {
            let (from_epoch, to_epoch) = match epoch_range_at(from.as_str(), to, MAX_SLO_HOURS, now_from, now_to) {
                Ok(v) => v,
                Err(e) => return Err(e),
            };
            let mut msg = text_of("Fetching SLO history: id=\"");
            append_text(&mut msg, id.as_str());
            append_text(&mut msg, "\" range=");
            let d = format_duration(to_epoch - from_epoch);
            append_text(&mut msg, d.as_str());
            let notes = info_note(msg.as_str());
            let mut params: Vec<(String, String)> = Vec::new();
            let from_str = signed_decimal_text(from_epoch);
            let to_str = signed_decimal_text(to_epoch);
            push_param(&mut params, "from_ts", from_str.as_str());
            push_param(&mut params, "to_ts", to_str.as_str());
            let mut path = text_of("/api/v1/slo/");
            append_text(&mut path, id.as_str());
            append_text(&mut path, "/history");
            let request = get_request(path, params);
            let columns: Vec<&'static str> = vec![
                "data.overall.sli_value", "data.overall.span_precision", "data.overall.name",
            ];
            assert(columns_view(columns@) =~= slo_history_columns());
            let ghost nv = notes_view(notes@);
            let ghost rv = request_view(request);
            let r = one_request(notes, request, *format, Show::Object { columns });
            let ghost target = slos_plan(*cmd, now_from, now_to)->Ok_0;
            assert(nv =~~= target.notes);
            assert(rv.1 =~= target.requests[0].1);
            assert(rv.2 =~~= target.requests[0].2);
            assert(rv =~~= target.requests[0]);
            assert(plan_result(Ok::<Plan, DdError>(r)) =~~= slos_plan(*cmd, now_from, now_to));
            Ok(r)
        },
    }
}

/// Plans `ddog slos`, reading relative time flags against the current clock.
pub fn plan(cmd: &SlosCmd) -> (r: Result<Plan, DdError>)
    requires
        slos_readable(*cmd),
    ensures
        exists|now_from: Instant, now_to: Instant|
            now_ok(now_from) && now_ok(now_to) && plan_result(r) == #[trigger] slos_plan(*cmd, now_from, now_to),
{
    let now_from = utc_now();
    let now_to = utc_now();
    let r = plan_at(cmd, now_from, now_to);
    assert(now_ok(now_from) && now_ok(now_to) && plan_result(r) == slos_plan(*cmd, now_from, now_to));
    r
}

/// The options of `ddog slos search`, in field order.
pub open spec fn slos_search_options_v() -> Seq<OptV> {
    seq![
        text_opt_v("ids"@, "IDS"@, None, None, false),
        text_opt_v("query"@, "QUERY"@, Some('q'), Some(""@), false),
        count_opt_v("limit"@, "LIMIT"@, Some('l'), "25"@, 1),
        count_opt_v("offset"@, "OFFSET"@, None, "0"@, 0),
        format_opt_v(),
    ]
}

fn slos_search_options() -> (r: Vec<Opt>)
    ensures
        opts_view(r@) == slos_search_options_v(),
{
    let mut v: Vec<Opt> = Vec::new();
    v.push(text_opt("ids", "IDS", None, None, false));
    v.push(text_opt("query", "QUERY", Some('q'), Some(""), false));
    v.push(count_opt("limit", "LIMIT", Some('l'), "25", 1));
    v.push(count_opt("offset", "OFFSET", None, "0", 0));
    v.push(format_opt());
    assert(opts_view(v@) =~= slos_search_options_v());
    v
}

/// The options of `ddog slos get`, in field order.
pub open spec fn slos_get_options_v() -> Seq<OptV> {
    seq![
        text_opt_v("id"@, "ID"@, Some('i'), None, true),
        format_opt_v(),
    ]
}

fn slos_get_options() -> (r: Vec<Opt>)
    ensures
        opts_view(r@) == slos_get_options_v(),
{
    let mut v: Vec<Opt> = Vec::new();
    v.push(text_opt("id", "ID", Some('i'), None, true));
    v.push(format_opt());
    assert(opts_view(v@) =~= slos_get_options_v());
    v
}

/// The options of `ddog slos history`, in field order.
pub open spec fn slos_history_options_v() -> Seq<OptV> {
    seq![
        text_opt_v("id"@, "ID"@, Some('i'), None, true),
        text_opt_v("from"@, "FROM"@, None, Some("7d"@), false),
        text_opt_v("to"@, "TO"@, None, None, false),
        format_opt_v(),
    ]
}

fn slos_history_options() -> (r: Vec<Opt>)
    ensures
        opts_view(r@) == slos_history_options_v(),
{
    let mut v: Vec<Opt> = Vec::new();
    v.push(text_opt("id", "ID", Some('i'), None, true));
    v.push(text_opt("from", "FROM", None, Some("7d"), false));
    v.push(text_opt("to", "TO", None, None, false));
    v.push(format_opt());
    assert(opts_view(v@) =~= slos_history_options_v());
    v
}

/// The subcommands of `ddog slos`.
pub open spec fn slos_subcommands() -> Seq<Seq<char>> {
    seq!["search"@, "get"@, "history"@]
}

/// The options of each subcommand of `ddog slos`.
pub open spec fn slos_grammar(sub: int) -> Seq<OptV> {
    if sub == 0 {
        slos_search_options_v()
    } else if sub == 1 {
        slos_get_options_v()
    } else {
        slos_history_options_v()
    }
}

/// What a `ddog slos` command line (the first token the program name) gives:
/// the subcommand and the value of each of its options, or the message refusing it.
pub open spec fn slos_command_line(args: Seq<Seq<char>>) -> Result<(int, Seq<ValV>), Seq<char>> {
    match subcommand_of(args, slos_subcommands()) {
        Err(e) => Err(e),
        Ok(sub) => match parse_opts(slos_grammar(sub), args, 2) {
            Err(e) => Err(e),
            Ok(v) => Ok((sub, v)),
        },
    }
}

/// Whether a command holds the values read for subcommand `sub`.
pub open spec fn slos_from_values(c: SlosCmd, sub: int, v: Seq<ValV>) -> bool {
    match c {
        SlosCmd::Search { ids, query, limit, offset, format } => {
            &&& sub == 0
            &&& crate::time::opt_text(ids) == opt_text_val(v[0])
            &&& query@ == text_val(v[1])
            &&& limit == count_val(v[2])
            &&& offset == count_val(v[3])
            &&& format == format_val(v[4])
        },
        SlosCmd::Get { id, format } => {
            &&& sub == 1
            &&& id@ == text_val(v[0])
            &&& format == format_val(v[1])
        },
        SlosCmd::History { id, from, to, format } => {
            &&& sub == 2
            &&& id@ == text_val(v[0])
            &&& from@ == text_val(v[1])
            &&& crate::time::opt_text(to) == opt_text_val(v[2])
            &&& format == format_val(v[3])
        },
    }
}

impl SlosCmd {
    /// Reads `ddog slos` from its command line, the first token being the program name.
    pub fn try_parse_from(args: &[&str]) -> (r: Result<SlosCmd, CliError>)
        ensures
            match r {
                Ok(c) => slos_command_line(lits(args@)) matches Ok((sub, v)) && slos_from_values(c, sub, v),
                Err(e) => slos_command_line(lits(args@)) == Err::<(int, Seq<ValV>), Seq<char>>(e.message@),
            },
    {
        let names: Vec<&'static str> = vec!["search", "get", "history"];
        assert(lits(names@) =~= slos_subcommands());
        let sub = match pick_subcommand(args, &names) {
            Ok(k) => k,
            Err(e) => return Err(e),
        };
        if sub == 0 {
            let opts = slos_search_options();
            let v = match parse_after_subcommand(&opts, args) {
                Ok(v) => v,
                Err(e) => return Err(e),
            };
            Ok(SlosCmd::Search {
                ids: opt_text_at(&v, 0),
                query: text_at(&v, 1),
                limit: count_at(&v, 2),
                offset: count_at(&v, 3),
                format: format_at(&v, 4),
            })
        } else if sub == 1 {
            let opts = slos_get_options();
            let v = match parse_after_subcommand(&opts, args) {
                Ok(v) => v,
                Err(e) => return Err(e),
            };
            Ok(SlosCmd::Get {
                id: text_at(&v, 0),
                format: format_at(&v, 1),
            })
        } else {
            let opts = slos_history_options();
            let v = match parse_after_subcommand(&opts, args) {
                Ok(v) => v,
                Err(e) => return Err(e),
            };
            Ok(SlosCmd::History {
                id: text_at(&v, 0),
                from: text_at(&v, 1),
                to: opt_text_at(&v, 2),
                format: format_at(&v, 3),
            })
        }
    }
}

} // verus!
