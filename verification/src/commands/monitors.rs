//! `ddog monitors`: search monitors by status, type, or tags.

use vstd::prelude::*;
use crate::cli::{
    count_at, count_opt, count_opt_v, count_val, format_at, format_opt, format_opt_v, format_val, lits,
    opt_text_at, opt_text_val, opts_view, parse_flat, parse_opts, text_at, text_opt, text_opt_v, text_val,
    CliError, Opt, OptV, ValV,
};
use crate::commands::{
    get_v, info_note, info_v, one_request, param, params_view, plan_result, push_param, get_request, single,
    Plan, PlanV, Show, ShowV,
};
use crate::error::DdError;
use crate::limits::{below_min_message, min_u32, require_min};
use crate::log::info_text;
use crate::output::Format;
use crate::text::{append_text, decimal, decimal_text, text_of};

verus! {

/// Search monitors by status, type, or tags.
pub struct MonitorsSearch {
    /// Monitor search query (e.g., "status:alert", "type:metric tag:env:prod")
    pub query: String,
    /// Page number (0-indexed)
    pub page: u32,
    /// Results per page (max 100)
    pub per_page: u32,
    /// Sort field (e.g., "name", "status", "type")
    pub sort: Option<String>,
    /// Output format
    pub format: Format,
}

/// The columns shown for monitors.
pub open spec fn monitor_columns() -> Seq<Seq<char>> {
    seq!["id"@, "name"@, "type"@, "overall_state"@, "query"@]
}

/// What `ddog monitors` does: at least one result per page is required, at
/// most 100 are asked for; then one GET of the monitor search.
pub open spec fn monitors_plan(a: MonitorsSearch) -> Result<PlanV, Seq<char>> {
    if a.per_page < 1 {
        Err(below_min_message("Per page"@, 1))
    } else {
        let per_page = min_u32(a.per_page, 100);
        let params = seq![("query"@, a.query@), ("page"@, decimal(a.page as nat)), ("per_page"@, decimal(per_page as nat))]
            + match a.sort { Some(s) => seq![("sort"@, s@)], None => seq![] };
        Ok(single(
            seq![info_v(info_text("Searching monitors: query=\""@ + a.query@ + "\" page="@ + decimal(a.page as nat)
                + " per_page="@ + decimal(per_page as nat)))],
            get_v("/api/v1/monitor/search"@, params),
            a.format,
            ShowV::List { columns: monitor_columns(), label: Some("monitors"@) },
        ))
    }
}

/// Plans `ddog monitors`.
pub fn plan(args: &MonitorsSearch) -> (r: Result<Plan, DdError>)
    ensures
        plan_result(r) == monitors_plan(*args),
        r matches Err(e) ==> e is Validation,
{
    let requested = match require_min("Per page", args.per_page, 1) {
        Ok(v) => v,
        Err(e) => return Err(DdError::Validation(e)),
    };
    let per_page = if requested < 100 { requested } else { 100 };
    let mut msg = text_of("Searching monitors: query=\"");
    append_text(&mut msg, args.query.as_str());
    append_text(&mut msg, "\" page=");
    let page_str = decimal_text(args.page as u64);
    append_text(&mut msg, page_str.as_str());
    append_text(&mut msg, " per_page=");
    let per_page_str = decimal_text(per_page as u64);
    append_text(&mut msg, per_page_str.as_str());
    let notes = info_note(msg.as_str());
    let mut params: Vec<(String, String)> = Vec::new();
    push_param(&mut params, "query", args.query.as_str());
    push_param(&mut params, "page", page_str.as_str());
    push_param(&mut params, "per_page", per_page_str.as_str());
    if let Some(s) = &args.sort {
        push_param(&mut params, "sort", s.as_str());
    }
    let request = get_request(text_of("/api/v1/monitor/search"), params);
    let columns: Vec<&'static str> = vec!["id", "name", "type", "overall_state", "query"];
    assert(crate::commands::columns_view(columns@) =~= monitor_columns());
    let ghost nv = crate::commands::notes_view(notes@);
    let ghost rv = crate::commands::request_view(request);
    let r = one_request(notes, request, args.format, Show::List { columns, label: Some("monitors") });
    let ghost target = monitors_plan(*args)->Ok_0;
    assert(nv =~~= target.notes);
    assert(rv.1 == target.requests[0].1);
    assert(rv.2 =~~= target.requests[0].2);
    assert(rv =~~= target.requests[0]);
    assert(plan_result(Ok::<Plan, DdError>(r)) =~~= monitors_plan(*args));
    Ok(r)
}

/// The options of `ddog monitors`, in field order.
pub open spec fn monitors_options_v() -> Seq<OptV> {
    seq![
        text_opt_v("query"@, "QUERY"@, Some('q'), Some(""@), false),
        count_opt_v("page"@, "PAGE"@, None, "0"@, 0),
        count_opt_v("per-page"@, "PER_PAGE"@, None, "25"@, 1),
        text_opt_v("sort"@, "SORT"@, None, None, false),
        format_opt_v(),
    ]
}

fn monitors_options() -> (r: Vec<Opt>)
    ensures
        opts_view(r@) == monitors_options_v(),
{
    let mut v: Vec<Opt> = Vec::new();
    v.push(text_opt("query", "QUERY", Some('q'), Some(""), false));
    v.push(count_opt("page", "PAGE", None, "0", 0));
    v.push(count_opt("per-page", "PER_PAGE", None, "25", 1));
    v.push(text_opt("sort", "SORT", None, None, false));
    v.push(format_opt());
    assert(opts_view(v@) =~= monitors_options_v());
    v
}

/// What a `ddog monitors` command line (the first token the program name) gives:
/// the value of each option, or the message refusing it.
pub open spec fn monitors_command_line(args: Seq<Seq<char>>) -> Result<Seq<ValV>, Seq<char>> {
    parse_opts(monitors_options_v(), args, 1)
}

/// Whether the arguments hold the values read.
pub open spec fn monitors_from_values(a: MonitorsSearch, v: Seq<ValV>) -> bool {
    &&& a.query@ == text_val(v[0])
    &&& a.page == count_val(v[1])
    &&& a.per_page == count_val(v[2])
    &&& crate::time::opt_text(a.sort) == opt_text_val(v[3])
    &&& a.format == format_val(v[4])
}

impl MonitorsSearch {
    /// Reads `ddog monitors` from its command line, the first token being the program name.
    pub fn try_parse_from(args: &[&str]) -> (r: Result<MonitorsSearch, CliError>)
        ensures
            match r {
                Ok(a) => monitors_command_line(lits(args@)) matches Ok(v) && monitors_from_values(a, v),
                Err(e) => monitors_command_line(lits(args@)) == Err::<Seq<ValV>, Seq<char>>(e.message@),
            },
    {
        let opts = monitors_options();
        let v = match parse_flat(&opts, args) {
            Ok(v) => v,
            Err(e) => return Err(e),
        };
        Ok(MonitorsSearch {
            query: text_at(&v, 0),
            page: count_at(&v, 1),
            per_page: count_at(&v, 2),
            sort: opt_text_at(&v, 3),
            format: format_at(&v, 4),
        })
    }
}

} // verus!
