//! `ddog hosts`: search monitored hosts.

use vstd::prelude::*;
use crate::cli::{
    bool_at, bool_val, choice_opt, choice_opt_v, count_at, count_opt, count_opt_v, count_val, format_at,
    format_opt, format_opt_v, format_val, lits, opt_text_at, opt_text_val, opts_view, parse_flat, parse_opts,
    switch_opt, switch_opt_v, text_at, text_opt, text_opt_v, text_val, CliError, Opt, OptV, ValV,
};
use crate::commands::{
    columns_view, get_request, get_v, info_note, info_v, notes_view, one_request, plan_result, push_param,
    request_view, single, Plan, PlanV, Show, ShowV,
};
use crate::error::DdError;
use crate::limits::{below_min_message, min_u32, require_min, MAX_HOSTS};
use crate::log::info_text;
use crate::output::Format;
use crate::text::{append_text, decimal, decimal_text, text_of};

verus! {

/// Search monitored hosts.
pub struct HostsSearch {
    /// Filter by host name, alias, or tag
    pub filter: String,
    /// Sort field: "apps", "cpu", "iowait", "load"
    pub sort_field: Option<String>,
    /// Sort direction: "asc" or "desc"
    pub sort_dir: Option<String>,
    /// Offset for pagination
    pub start: u32,
    /// Max hosts to return (max 1000)
    pub count: u32,
    /// Include muted hosts data
    pub include_muted: bool,
    /// Output format
    pub format: Format,
}

/// The columns shown for hosts.
pub open spec fn host_columns() -> Seq<Seq<char>> {
    seq!["name"@, "aliases"@, "apps"@, "up"@, "meta.platform"@]
}

/// "true" or "false".
pub open spec fn bool_text(b: bool) -> Seq<char> {
    if b { "true"@ } else { "false"@ }
}

/// What `ddog hosts` does: at least one host must be asked for, at most 1000
/// are; then one GET of the host list.
pub open spec fn hosts_plan(a: HostsSearch) -> Result<PlanV, Seq<char>> {
    if a.count < 1 {
        Err(below_min_message("Count"@, 1))
    } else {
        let count = min_u32(a.count, 1000);
        let shown = if a.filter@.len() == 0 { "(all)"@ } else { "\""@ + a.filter@ + "\""@ };
        let params = seq![
            ("filter"@, a.filter@),
            ("start"@, decimal(a.start as nat)),
            ("count"@, decimal(count as nat)),
            ("include_muted_hosts_data"@, bool_text(a.include_muted)),
        ] + match a.sort_field { Some(s) => seq![("sort_field"@, s@)], None => seq![] }
          + match a.sort_dir { Some(s) => seq![("sort_dir"@, s@)], None => seq![] };
        Ok(single(
            seq![info_v(info_text("Searching hosts: filter="@ + shown + " count="@ + decimal(count as nat)))],
            get_v("/api/v1/hosts"@, params),
            a.format,
            ShowV::List { columns: host_columns(), label: Some("hosts"@) },
        ))
    }
}

/// "true" or "false" for `b`.
pub fn bool_string(b: bool) -> (r: String)
    ensures
        r@ == bool_text(b),
{
    if b { text_of("true") } else { text_of("false") }
}

/// Plans `ddog hosts`.
pub fn plan(args: &HostsSearch) -> (r: Result<Plan, DdError>)
    ensures
        plan_result(r) == hosts_plan(*args),
        r matches Err(e) ==> e is Validation,
{
    let requested = match require_min("Count", args.count, 1) {
        Ok(v) => v,
        Err(e) => return Err(DdError::Validation(e)),
    };
    let count = if requested < MAX_HOSTS { requested } else { MAX_HOSTS };
    let mut msg = text_of("Searching hosts: filter=");
    if args.filter.as_str().is_empty() {
        append_text(&mut msg, "(all)");
    } else {
        append_text(&mut msg, "\"");
        append_text(&mut msg, args.filter.as_str());
        append_text(&mut msg, "\"");
    }
    append_text(&mut msg, " count=");
    let count_str = decimal_text(count as u64);
    append_text(&mut msg, count_str.as_str());
    let notes = info_note(msg.as_str());
    let mut params: Vec<(String, String)> = Vec::new();
    push_param(&mut params, "filter", args.filter.as_str());
    let start_str = decimal_text(args.start as u64);
    push_param(&mut params, "start", start_str.as_str());
    push_param(&mut params, "count", count_str.as_str());
    let muted = bool_string(args.include_muted);
    push_param(&mut params, "include_muted_hosts_data", muted.as_str());
    if let Some(s) = &args.sort_field {
        push_param(&mut params, "sort_field", s.as_str());
    }
    if let Some(s) = &args.sort_dir {
        push_param(&mut params, "sort_dir", s.as_str());
    }
    let request = get_request(text_of("/api/v1/hosts"), params);
    let columns: Vec<&'static str> = vec!["name", "aliases", "apps", "up", "meta.platform"];
    assert(columns_view(columns@) =~= host_columns());
    let ghost nv = notes_view(notes@);
    let ghost rv = request_view(request);
    let r = one_request(notes, request, args.format, Show::List { columns, label: Some("hosts") });
    let ghost target = hosts_plan(*args)->Ok_0;
    assert(nv =~~= target.notes);
    assert(rv.2 =~~= target.requests[0].2);
    assert(rv =~~= target.requests[0]);
    assert(plan_result(Ok::<Plan, DdError>(r)) =~~= hosts_plan(*args));
    Ok(r)
}

/// The options of `ddog hosts`, in field order.
pub open spec fn hosts_options_v() -> Seq<OptV> {
    seq![
        text_opt_v("filter"@, "FILTER"@, None, Some(""@), false),
        choice_opt_v("sort-field"@, "SORT_FIELD"@, None, None, seq!["apps"@, "cpu"@, "iowait"@, "load"@]),
        choice_opt_v("sort-dir"@, "SORT_DIR"@, None, None, seq!["asc"@, "desc"@]),
        count_opt_v("start"@, "START"@, None, "0"@, 0),
        count_opt_v("count"@, "COUNT"@, Some('c'), "100"@, 1),
        switch_opt_v("include-muted"@),
        format_opt_v(),
    ]
}

fn hosts_options() -> (r: Vec<Opt>)
    ensures
        opts_view(r@) == hosts_options_v(),
{
    let mut v: Vec<Opt> = Vec::new();
    v.push(text_opt("filter", "FILTER", None, Some(""), false));
    let choices1: Vec<&'static str> = vec!["apps", "cpu", "iowait", "load"];
    assert(lits(choices1@) =~= seq!["apps"@, "cpu"@, "iowait"@, "load"@]);
    v.push(choice_opt("sort-field", "SORT_FIELD", None, None, choices1));
    let choices2: Vec<&'static str> = vec!["asc", "desc"];
    assert(lits(choices2@) =~= seq!["asc"@, "desc"@]);
    v.push(choice_opt("sort-dir", "SORT_DIR", None, None, choices2));
    v.push(count_opt("start", "START", None, "0", 0));
    v.push(count_opt("count", "COUNT", Some('c'), "100", 1));
    v.push(switch_opt("include-muted"));
    v.push(format_opt());
    assert(opts_view(v@) =~= hosts_options_v());
    v
}

/// What a `ddog hosts` command line (the first token the program name) gives:
/// the value of each option, or the message refusing it.
pub open spec fn hosts_command_line(args: Seq<Seq<char>>) -> Result<Seq<ValV>, Seq<char>> {
    parse_opts(hosts_options_v(), args, 1)
}

/// Whether the arguments hold the values read.
pub open spec fn hosts_from_values(a: HostsSearch, v: Seq<ValV>) -> bool {
    &&& a.filter@ == text_val(v[0])
    &&& crate::time::opt_text(a.sort_field) == opt_text_val(v[1])
    &&& crate::time::opt_text(a.sort_dir) == opt_text_val(v[2])
    &&& a.start == count_val(v[3])
    &&& a.count == count_val(v[4])
    &&& a.include_muted == bool_val(v[5])
    &&& a.format == format_val(v[6])
}

impl HostsSearch {
    /// Reads `ddog hosts` from its command line, the first token being the program name.
    pub fn try_parse_from(args: &[&str]) -> (r: Result<HostsSearch, CliError>)
        ensures
            match r {
                Ok(a) => hosts_command_line(lits(args@)) matches Ok(v) && hosts_from_values(a, v),
                Err(e) => hosts_command_line(lits(args@)) == Err::<Seq<ValV>, Seq<char>>(e.message@),
            },
    {
        let opts = hosts_options();
        let v = match parse_flat(&opts, args) {
            Ok(v) => v,
            Err(e) => return Err(e),
        };
        Ok(HostsSearch {
            filter: text_at(&v, 0),
            sort_field: opt_text_at(&v, 1),
            sort_dir: opt_text_at(&v, 2),
            start: count_at(&v, 3),
            count: count_at(&v, 4),
            include_muted: bool_at(&v, 5),
            format: format_at(&v, 6),
        })
    }
}

} // verus!
