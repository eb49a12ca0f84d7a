//! `ddog downtimes`: list and inspect scheduled downtimes.

use vstd::prelude::*;
use crate::cli::{
    bool_at, bool_val, count_at, count_opt, count_opt_v, count_val, format_at, format_opt, format_opt_v,
    format_val, lits, opt_text_at, opt_text_val, opts_view, parse_after_subcommand, parse_opts, pick_subcommand,
    related_opt, related_opt_v, subcommand_of, text_at, text_opt, text_opt_v, text_val, toggle_opt, toggle_opt_v,
    CliError, Opt, OptV, ValV,
};
use crate::commands::{
    columns_view, get_request, get_v, info_note, info_v, notes_view, one_request, plan_result, push_param,
    request_view, single, Plan, PlanV, Show, ShowV,
};
use crate::commands::hosts::{bool_string, bool_text};
use crate::commands::incidents::{push_related, related_param};
use crate::error::DdError;
use crate::log::info_text;
use crate::output::Format;
use crate::text::{append_text, decimal, decimal_text, text_of};

verus! {

/// List and inspect scheduled downtimes.
pub enum DowntimesCmd {
    /// List scheduled downtimes
    List { current_only: bool, limit: u32, offset: u32, format: Format },
    /// Get downtime details by ID
    Get { id: String, include_related: Option<String>, format: Format },
}

/// The columns shown for downtimes.
pub open spec fn downtime_list_columns() -> Seq<Seq<char>> {
    seq!["id"@, "attributes.display_name"@, "attributes.status"@, "attributes.scope"@, "attributes.schedule.start"@]
}

/// The columns shown for one downtime.
pub open spec fn downtime_columns() -> Seq<Seq<char>> {
    seq!["data.id"@, "data.attributes.display_name"@, "data.attributes.status"@, "data.attributes.scope"@,
        "data.attributes.schedule"@]
}

/// What `ddog downtimes` does: one GET of the list, or of one downtime.
pub open spec fn downtimes_plan(c: DowntimesCmd) -> Result<PlanV, Seq<char>> {
    match c {
        DowntimesCmd::List { current_only, limit, offset, format } => Ok(single(
            seq![info_v(info_text("Listing downtimes: current_only="@ + bool_text(current_only) + " limit="@
                + decimal(limit as nat)))],
            get_v("/api/v2/downtime"@, seq![
                ("current_only"@, bool_text(current_only)),
                ("page[limit]"@, decimal(limit as nat)),
                ("page[offset]"@, decimal(offset as nat)),
            ]),
            format,
            ShowV::List { columns: downtime_list_columns(), label: Some("downtimes"@) },
        )),
        DowntimesCmd::Get { id, include_related, format } => Ok(single(
            seq![info_v(info_text("Fetching downtime: "@ + id@))],
            get_v("/api/v2/downtime/"@ + id@, related_param(include_related)),
            format,
            ShowV::Object { columns: downtime_columns() },
        )),
    }
}

/// Plans `ddog downtimes`.
pub fn plan(cmd: &DowntimesCmd) -> (r: Result<Plan, DdError>)
    ensures
        plan_result(r) == downtimes_plan(*cmd),
{
    match cmd {
        DowntimesCmd::List { current_only, limit, offset, format } => {
            let mut msg = text_of("Listing downtimes: current_only=");
            let co = bool_string(*current_only);
            append_text(&mut msg, co.as_str());
            append_text(&mut msg, " limit=");
            let limit_str = decimal_text(*limit as u64);
            append_text(&mut msg, limit_str.as_str());
            let notes = info_note(msg.as_str());
            let mut params: Vec<(String, String)> = Vec::new();
            push_param(&mut params, "current_only", co.as_str());
            push_param(&mut params, "page[limit]", limit_str.as_str());
            let offset_str = decimal_text(*offset as u64);
            push_param(&mut params, "page[offset]", offset_str.as_str());
            let request = get_request(text_of("/api/v2/downtime"), params);
            let columns: Vec<&'static str> = vec![
                "id", "attributes.display_name", "attributes.status", "attributes.scope", "attributes.schedule.start",
            ];
            assert(columns_view(columns@) =~= downtime_list_columns());
            let ghost nv = notes_view(notes@);
            let ghost rv = request_view(request);
            let r = one_request(notes, request, *format, Show::List { columns, label: Some("downtimes") });
            let ghost target = downtimes_plan(*cmd)->Ok_0;
            assert(nv =~~= target.notes);
            assert(rv.2 =~~= target.requests[0].2);
            assert(rv =~~= target.requests[0]);
            assert(plan_result(Ok::<Plan, DdError>(r)) =~~= downtimes_plan(*cmd));
            Ok(r)
        },
        DowntimesCmd::Get { id, include_related, format } => {
            let mut msg = text_of("Fetching downtime: ");
            append_text(&mut msg, id.as_str());
            let notes = info_note(msg.as_str());
            let mut params: Vec<(String, String)> = Vec::new();
            push_related(&mut params, include_related);
            let mut path = text_of("/api/v2/downtime/");
            append_text(&mut path, id.as_str());
            let request = get_request(path, params);
            let columns: Vec<&'static str> = vec![
                "data.id", "data.attributes.display_name", "data.attributes.status", "data.attributes.scope",
                "data.attributes.schedule",
            ];
            assert(columns_view(columns@) =~= downtime_columns());
            let ghost nv = notes_view(notes@);
            let ghost rv = request_view(request);
            let r = one_request(notes, request, *format, Show::Object { columns });
            let ghost target = downtimes_plan(*cmd)->Ok_0;
            assert(nv =~~= target.notes);
            assert(rv.2 =~~= target.requests[0].2);
            assert(rv =~~= target.requests[0]);
            assert(plan_result(Ok::<Plan, DdError>(r)) =~~= downtimes_plan(*cmd));
            Ok(r)
        },
    }
}

/// The options of `ddog downtimes list`, in field order.
pub open spec fn downtimes_list_options_v() -> Seq<OptV> {
    seq![
        toggle_opt_v("current-only"@, "CURRENT_ONLY"@, "true"@),
        count_opt_v("limit"@, "LIMIT"@, Some('l'), "25"@, 0),
        count_opt_v("offset"@, "OFFSET"@, None, "0"@, 0),
        format_opt_v(),
    ]
}

fn downtimes_list_options() -> (r: Vec<Opt>)
    ensures
        opts_view(r@) == downtimes_list_options_v(),
{
    let mut v: Vec<Opt> = Vec::new();
    v.push(toggle_opt("current-only", "CURRENT_ONLY", "true"));
    v.push(count_opt("limit", "LIMIT", Some('l'), "25", 0));
    v.push(count_opt("offset", "OFFSET", None, "0", 0));
    v.push(format_opt());
    assert(opts_view(v@) =~= downtimes_list_options_v());
    v
}

/// The options of `ddog downtimes get`, in field order.
pub open spec fn downtimes_get_options_v() -> Seq<OptV> {
    seq![
        text_opt_v("id"@, "ID"@, Some('i'), None, true),
        related_opt_v(),
        format_opt_v(),
    ]
}

fn downtimes_get_options() -> (r: Vec<Opt>)
    ensures
        opts_view(r@) == downtimes_get_options_v(),
{
    let mut v: Vec<Opt> = Vec::new();
    v.push(text_opt("id", "ID", Some('i'), None, true));
    v.push(related_opt());
    v.push(format_opt());
    assert(opts_view(v@) =~= downtimes_get_options_v());
    v
}

/// The subcommands of `ddog downtimes`.
pub open spec fn downtimes_subcommands() -> Seq<Seq<char>> {
    seq!["list"@, "get"@]
}

/// The options of each subcommand of `ddog downtimes`.
pub open spec fn downtimes_grammar(sub: int) -> Seq<OptV> {
    if sub == 0 {
        downtimes_list_options_v()
    } else {
        downtimes_get_options_v()
    }
}

/// What a `ddog downtimes` command line (the first token the program name) gives:
/// the subcommand and the value of each of its options, or the message refusing it.
pub open spec fn downtimes_command_line(args: Seq<Seq<char>>) -> Result<(int, Seq<ValV>), Seq<char>> {
    match subcommand_of(args, downtimes_subcommands()) {
        Err(e) => Err(e),
        Ok(sub) => match parse_opts(downtimes_grammar(sub), args, 2) {
            Err(e) => Err(e),
            Ok(v) => Ok((sub, v)),
        },
    }
}

/// Whether a command holds the values read for subcommand `sub`.
pub open spec fn downtimes_from_values(c: DowntimesCmd, sub: int, v: Seq<ValV>) -> bool {
    match c {
        DowntimesCmd::List { current_only, limit, offset, format } => {
            &&& sub == 0
            &&& current_only == bool_val(v[0])
            &&& limit == count_val(v[1])
            &&& offset == count_val(v[2])
            &&& format == format_val(v[3])
        },
        DowntimesCmd::Get { id, include_related, format } => {
            &&& sub == 1
            &&& id@ == text_val(v[0])
            &&& crate::time::opt_text(include_related) == opt_text_val(v[1])
            &&& format == format_val(v[2])
        },
    }
}

impl DowntimesCmd {
    /// Reads `ddog downtimes` from its command line, the first token being the program name.
    pub fn try_parse_from(args: &[&str]) -> (r: Result<DowntimesCmd, CliError>)
        ensures
            match r {
                Ok(c) => downtimes_command_line(lits(args@)) matches Ok((sub, v)) && downtimes_from_values(c, sub, v),
                Err(e) => downtimes_command_line(lits(args@)) == Err::<(int, Seq<ValV>), Seq<char>>(e.message@),
            },
    {
        let names: Vec<&'static str> = vec!["list", "get"];
        assert(lits(names@) =~= downtimes_subcommands());
        let sub = match pick_subcommand(args, &names) {
            Ok(k) => k,
            Err(e) => return Err(e),
        };
        if sub == 0 {
            let opts = downtimes_list_options();
            let v = match parse_after_subcommand(&opts, args) {
                Ok(v) => v,
                Err(e) => return Err(e),
            };
            Ok(DowntimesCmd::List {
                current_only: bool_at(&v, 0),
                limit: count_at(&v, 1),
                offset: count_at(&v, 2),
                format: format_at(&v, 3),
            })
        } else {
            let opts = downtimes_get_options();
            let v = match parse_after_subcommand(&opts, args) {
                Ok(v) => v,
                Err(e) => return Err(e),
            };
            Ok(DowntimesCmd::Get {
                id: text_at(&v, 0),
                include_related: opt_text_at(&v, 1),
                format: format_at(&v, 2),
            })
        }
    }
}

} // verus!
