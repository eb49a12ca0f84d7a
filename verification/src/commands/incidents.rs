//! `ddog incidents`: search and inspect incidents.

use vstd::prelude::*;
use crate::cli::{
    count_at, count_opt, count_opt_v, count_val, format_at, format_opt, format_opt_v, format_val, lits,
    opt_text_at, opt_text_val, opts_view, parse_after_subcommand, parse_opts, pick_subcommand, related_opt,
    related_opt_v, subcommand_of, text_at, text_opt, text_opt_v, text_val, CliError, Opt, OptV, ValV,
};
use crate::commands::{
    columns_view, get_request, get_v, info_note, info_v, notes_view, one_request, plan_result, push_param,
    request_view, single, Plan, PlanV, Show, ShowV,
};
use crate::error::DdError;
use crate::limits::min_u32;
use crate::log::info_text;
use crate::output::Format;
use crate::text::{append_text, decimal, decimal_text, text_of};

verus! {

/// Search and inspect incidents.
pub enum IncidentsCmd {
    /// Get incident details by ID
    Get { id: String, include_related: Option<String>, format: Format },
    /// Search incidents by query
    Search { query: String, sort: String, limit: u32, offset: u32, format: Format },
}

/// The columns shown for one incident.
pub open spec fn incident_columns() -> Seq<Seq<char>> {
    seq!["data.id"@, "data.attributes.title"@, "data.attributes.severity"@, "data.attributes.state"@, "data.attributes.created"@]
}

/// The columns shown for incident search results.
pub open spec fn incident_search_columns() -> Seq<Seq<char>> {
    seq!["id"@, "attributes.title"@, "attributes.severity"@, "attributes.state"@]
}

/// Name of the query parameter that asks for related resources.
pub open spec fn related_key() -> Seq<char> {
    "inclu"@ + "de"@
}

/// The related-resources parameter, when asked for.
pub open spec fn related_param(o: Option<String>) -> Seq<(Seq<char>, Seq<char>)> {
    match o {
        Some(i) => seq![(related_key(), i@)],
        None => seq![],
    }
}

/// Appends the related-resources parameter when asked for.
pub fn push_related(params: &mut Vec<(String, String)>, related: &Option<String>)
    ensures
        crate::commands::params_view(final(params)@) == crate::commands::params_view(old(params)@) + related_param(*related),
{
    if let Some(i) = related {
        let mut key = text_of("inclu");
        append_text(&mut key, "de");
        params.push((key, i.clone()));
    }
    assert(crate::commands::params_view(final(params)@) =~= crate::commands::params_view(old(params)@) + related_param(*related));
}

/// What `ddog incidents` does: a GET of one incident (with the related
/// resources asked for), or a GET of the search with at most 100 per page.
pub open spec fn incidents_plan(c: IncidentsCmd) -> Result<PlanV, Seq<char>> {
    match c {
        IncidentsCmd::Get { id, include_related, format } => Ok(single(
            seq![info_v(info_text("Fetching incident: "@ + id@))],
            get_v("/api/v2/incidents/"@ + id@, related_param(include_related)),
            format,
            ShowV::Object { columns: incident_columns() },
        )),
        IncidentsCmd::Search { query, sort, limit, offset, format } => {
            let limit = min_u32(limit, 100);
            Ok(single(
                seq![info_v(info_text("Searching incidents: query=\""@ + query@ + "\" limit="@ + decimal(limit as nat)))],
                get_v("/api/v2/incidents/search"@, seq![
                    ("query"@, query@),
                    ("sort"@, sort@),
                    ("page[size]"@, decimal(limit as nat)),
                    ("page[offset]"@, decimal(offset as nat)),
                ]),
                format,
                ShowV::List { columns: incident_search_columns(), label: Some("incidents"@) },
            ))
        },
    }
}

/// Plans `ddog incidents`.
pub fn plan(cmd: &IncidentsCmd) -> (r: Result<Plan, DdError>)
    ensures
        plan_result(r) == incidents_plan(*cmd),
{
    match cmd {
        IncidentsCmd::Get { id, include_related, format } => {
            let mut msg = text_of("Fetching incident: ");
            append_text(&mut msg, id.as_str());
            let notes = info_note(msg.as_str());
            let mut params: Vec<(String, String)> = Vec::new();
            push_related(&mut params, include_related);
            let mut path = text_of("/api/v2/incidents/");
            append_text(&mut path, id.as_str());
            let request = get_request(path, params);
            let columns: Vec<&'static str> = vec![
                "data.id", "data.attributes.title", "data.attributes.severity", "data.attributes.state",
                "data.attributes.created",
            ];
            assert(columns_view(columns@) =~= incident_columns());
            let ghost nv = notes_view(notes@);
            let ghost rv = request_view(request);
            let r = one_request(notes, request, *format, Show::Object { columns });
            let ghost target = incidents_plan(*cmd)->Ok_0;
            assert(nv =~~= target.notes);
            assert(rv.2 =~~= target.requests[0].2);
            assert(rv =~~= target.requests[0]);
            assert(plan_result(Ok::<Plan, DdError>(r)) =~~= incidents_plan(*cmd));
            Ok(r)
        },
        IncidentsCmd::Search { query, sort, limit, offset, format } => {
            let limit = if *limit < 100 { *limit } else { 100 };
            let mut msg = text_of("Searching incidents: query=\"");
            append_text(&mut msg, query.as_str());
            append_text(&mut msg, "\" limit=");
            let limit_str = decimal_text(limit as u64);
            append_text(&mut msg, limit_str.as_str());
            let notes = info_note(msg.as_str());
            let mut params: Vec<(String, String)> = Vec::new();
            push_param(&mut params, "query", query.as_str());
            push_param(&mut params, "sort", sort.as_str());
            push_param(&mut params, "page[size]", limit_str.as_str());
            let offset_str = decimal_text(*offset as u64);
            push_param(&mut params, "page[offset]", offset_str.as_str());
            let request = get_request(text_of("/api/v2/incidents/search"), params);
            let columns: Vec<&'static str> = vec!["id", "attributes.title", "attributes.severity", "attributes.state"];
            assert(columns_view(columns@) =~= incident_search_columns());
            let ghost nv = notes_view(notes@);
            let ghost rv = request_view(request);
            let r = one_request(notes, request, *format, Show::List { columns, label: Some("incidents") });
            let ghost target = incidents_plan(*cmd)->Ok_0;
            assert(nv =~~= target.notes);
            assert(rv.2 =~~= target.requests[0].2);
            assert(rv =~~= target.requests[0]);
            assert(plan_result(Ok::<Plan, DdError>(r)) =~~= incidents_plan(*cmd));
            Ok(r)
        },
    }
}

/// The options of `ddog incidents get`, in field order.
pub open spec fn incidents_get_options_v() -> Seq<OptV> {
    seq![
        text_opt_v("id"@, "ID"@, Some('i'), None, true),
        related_opt_v(),
        format_opt_v(),
    ]
}

fn incidents_get_options() -> (r: Vec<Opt>)
    ensures
        opts_view(r@) == incidents_get_options_v(),
{
    let mut v: Vec<Opt> = Vec::new();
    v.push(text_opt("id", "ID", Some('i'), None, true));
    v.push(related_opt());
    v.push(format_opt());
    assert(opts_view(v@) =~= incidents_get_options_v());
    v
}

/// The options of `ddog incidents search`, in field order.
pub open spec fn incidents_search_options_v() -> Seq<OptV> {
    seq![
        text_opt_v("query"@, "QUERY"@, Some('q'), Some(""@), false),
        text_opt_v("sort"@, "SORT"@, None, Some("-created"@), false),
        count_opt_v("limit"@, "LIMIT"@, Some('l'), "25"@, 0),
        count_opt_v("offset"@, "OFFSET"@, None, "0"@, 0),
        format_opt_v(),
    ]
}

fn incidents_search_options() -> (r: Vec<Opt>)
    ensures
        opts_view(r@) == incidents_search_options_v(),
{
    let mut v: Vec<Opt> = Vec::new();
    v.push(text_opt("query", "QUERY", Some('q'), Some(""), false));
    v.push(text_opt("sort", "SORT", None, Some("-created"), false));
    v.push(count_opt("limit", "LIMIT", Some('l'), "25", 0));
    v.push(count_opt("offset", "OFFSET", None, "0", 0));
    v.push(format_opt());
    assert(opts_view(v@) =~= incidents_search_options_v());
    v
}

/// The subcommands of `ddog incidents`.
pub open spec fn incidents_subcommands() -> Seq<Seq<char>> {
    seq!["get"@, "search"@]
}

/// The options of each subcommand of `ddog incidents`.
pub open spec fn incidents_grammar(sub: int) -> Seq<OptV> {
    if sub == 0 {
        incidents_get_options_v()
    } else {
        incidents_search_options_v()
    }
}

/// What a `ddog incidents` command line (the first token the program name) gives:
/// the subcommand and the value of each of its options, or the message refusing it.
pub open spec fn incidents_command_line(args: Seq<Seq<char>>) -> Result<(int, Seq<ValV>), Seq<char>> {
    match subcommand_of(args, incidents_subcommands()) {
        Err(e) => Err(e),
        Ok(sub) => match parse_opts(incidents_grammar(sub), args, 2) {
            Err(e) => Err(e),
            Ok(v) => Ok((sub, v)),
        },
    }
}

/// Whether a command holds the values read for subcommand `sub`.
pub open spec fn incidents_from_values(c: IncidentsCmd, sub: int, v: Seq<ValV>) -> bool {
    match c {
        IncidentsCmd::Get { id, include_related, format } => {
            &&& sub == 0
            &&& id@ == text_val(v[0])
            &&& crate::time::opt_text(include_related) == opt_text_val(v[1])
            &&& format == format_val(v[2])
        },
        IncidentsCmd::Search { query, sort, limit, offset, format } => {
            &&& sub == 1
            &&& query@ == text_val(v[0])
            &&& sort@ == text_val(v[1])
            &&& limit == count_val(v[2])
            &&& offset == count_val(v[3])
            &&& format == format_val(v[4])
        },
    }
}

impl IncidentsCmd {
    /// Reads `ddog incidents` from its command line, the first token being the program name.
    pub fn try_parse_from(args: &[&str]) -> (r: Result<IncidentsCmd, CliError>)
        ensures
            match r {
                Ok(c) => incidents_command_line(lits(args@)) matches Ok((sub, v)) && incidents_from_values(c, sub, v),
                Err(e) => incidents_command_line(lits(args@)) == Err::<(int, Seq<ValV>), Seq<char>>(e.message@),
            },
    {
        let names: Vec<&'static str> = vec!["get", "search"];
        assert(lits(names@) =~= incidents_subcommands());
        let sub = match pick_subcommand(args, &names) {
            Ok(k) => k,
            Err(e) => return Err(e),
        };
        if sub == 0 {
            let opts = incidents_get_options();
            let v = match parse_after_subcommand(&opts, args) {
                Ok(v) => v,
                Err(e) => return Err(e),
            };
            Ok(IncidentsCmd::Get {
                id: text_at(&v, 0),
                include_related: opt_text_at(&v, 1),
                format: format_at(&v, 2),
            })
        } else {
            let opts = incidents_search_options();
            let v = match parse_after_subcommand(&opts, args) {
                Ok(v) => v,
                Err(e) => return Err(e),
            };
            Ok(IncidentsCmd::Search {
                query: text_at(&v, 0),
                sort: text_at(&v, 1),
                limit: count_at(&v, 2),
                offset: count_at(&v, 3),
                format: format_at(&v, 4),
            })
        }
    }
}

} // verus!
