//! `ddog services`: service catalog and dependencies.

use vstd::prelude::*;
use crate::cli::{
    count_at, count_opt, count_opt_v, count_val, format_at, format_opt, format_opt_v, format_val, lits,
    opt_text_at, opt_text_val, opts_view, parse_after_subcommand, parse_opts, pick_subcommand, subcommand_of,
    text_at, text_opt, text_opt_v, text_val, CliError, Opt, OptV, ValV,
};
use crate::commands::{
    columns_view, get_request, get_v, info_note, info_v, notes_view, one_request, plan_result, push_param,
    request_view, single, Plan, PlanV, Show, ShowV,
};
use crate::error::DdError;
use crate::limits::{below_min_message, require_min};
use crate::log::info_text;
use crate::output::Format;
use crate::text::{append_text, decimal, decimal_text, text_of};

verus! {

/// Search the service catalog and dependencies.
pub enum ServicesCmd {
    /// Search service catalog definitions
    Search { limit: u32, page: u32, schema: String, format: Format },
    /// Get upstream/downstream service dependencies
    Deps { env: String, primary_tag: Option<String>, format: Format },
}

/// The columns shown for service definitions.
pub open spec fn service_columns() -> Seq<Seq<char>> {
    seq!["attributes.schema.dd-service"@, "attributes.schema.team"@, "attributes.schema.description"@]
}

/// The columns shown for service dependencies.
pub open spec fn deps_columns() -> Seq<Seq<char>> {
    seq!["service_name"@, "dependencies"@]
}

/// What `ddog services` does: the page size and the page number must be at
/// least 1 (checked in that order); then one GET of the definitions; or one GET
/// of the dependencies.
pub open spec fn services_plan(c: ServicesCmd) -> Result<PlanV, Seq<char>> {
    match c {
        ServicesCmd::Search { limit, page, schema, format } => {
            if limit < 1 {
                Err(below_min_message("Limit"@, 1))
            } else if page < 1 {
                Err(below_min_message("Page"@, 1))
            } else {
                Ok(single(
                    seq![info_v(info_text("Searching service catalog: page="@ + decimal(page as nat) + " limit="@
                        + decimal(limit as nat)))],
                    get_v("/api/v2/services/definitions"@, seq![
                        ("page[size]"@, decimal(limit as nat)),
                        ("page[number]"@, decimal(page as nat)),
                        ("schema_version"@, schema@),
                    ]),
                    format,
                    ShowV::List { columns: service_columns(), label: Some("services"@) },
                ))
            }
        },
        ServicesCmd::Deps { env, primary_tag, format } => Ok(single(
            seq![info_v(info_text("Fetching service dependencies: env="@ + env@))],
            get_v("/api/v1/service_dependencies"@, seq![("env"@, env@)]
                + match primary_tag { Some(t) => seq![("primary_tag"@, t@)], None => seq![] }),
            format,
            ShowV::List { columns: deps_columns(), label: None },
        )),
    }
}

/// Plans `ddog services`.
pub fn plan(cmd: &ServicesCmd) -> (r: Result<Plan, DdError>)
    ensures
        plan_result(r) == services_plan(*cmd),
        r matches Err(e) ==> e is Validation,
{
    match cmd {
        ServicesCmd::Search { limit, page, schema, format } => {
            let limit = match require_min("Limit", *limit, 1) {
                Ok(v) => v,
                Err(e) => return Err(DdError::Validation(e)),
            };
            let page = match require_min("Page", *page, 1) {
                Ok(v) => v,
                Err(e) => return Err(DdError::Validation(e)),
            };
            let mut msg = text_of("Searching service catalog: page=");
            let page_str = decimal_text(page as u64);
            append_text(&mut msg, page_str.as_str());
            append_text(&mut msg, " limit=");
            let limit_str = decimal_text(limit as u64);
            append_text(&mut msg, limit_str.as_str());
            let notes = info_note(msg.as_str());
            let mut params: Vec<(String, String)> = Vec::new();
            push_param(&mut params, "page[size]", limit_str.as_str());
            push_param(&mut params, "page[number]", page_str.as_str());
            push_param(&mut params, "schema_version", schema.as_str());
            let request = get_request(text_of("/api/v2/services/definitions"), params);
            let columns: Vec<&'static str> = vec![
                "attributes.schema.dd-service", "attributes.schema.team", "attributes.schema.description",
            ];
            assert(columns_view(columns@) =~= service_columns());
            let ghost nv = notes_view(notes@);
            let ghost rv = request_view(request);
            let r = one_request(notes, request, *format, Show::List { columns, label: Some("services") });
            let ghost target = services_plan(*cmd)->Ok_0;
            assert(nv =~~= target.notes);
            assert(rv.2 =~~= target.requests[0].2);
            assert(rv =~~= target.requests[0]);
            assert(plan_result(Ok::<Plan, DdError>(r)) =~~= services_plan(*cmd));
            Ok(r)
        },
        ServicesCmd::Deps { env, primary_tag, format } => {
            let mut msg = text_of("Fetching service dependencies: env=");
            append_text(&mut msg, env.as_str());
            let notes = info_note(msg.as_str());
            let mut params: Vec<(String, String)> = Vec::new();
            push_param(&mut params, "env", env.as_str());
            if let Some(t) = primary_tag {
                push_param(&mut params, "primary_tag", t.as_str());
            }
            let request = get_request(text_of("/api/v1/service_dependencies"), params);
            let columns: Vec<&'static str> = vec!["service_name", "dependencies"];
            assert(columns_view(columns@) =~= deps_columns());
            let ghost nv = notes_view(notes@);
            let ghost rv = request_view(request);
            let r = one_request(notes, request, *format, Show::List { columns, label: None });
            let ghost target = services_plan(*cmd)->Ok_0;
            assert(nv =~~= target.notes);
            assert(rv.2 =~~= target.requests[0].2);
            assert(rv =~~= target.requests[0]);
            assert(plan_result(Ok::<Plan, DdError>(r)) =~~= services_plan(*cmd));
            Ok(r)
        },
    }
}

/// The options of `ddog services search`, in field order.
pub open spec fn services_search_options_v() -> Seq<OptV> {
    seq![
        count_opt_v("limit"@, "LIMIT"@, Some('l'), "20"@, 1),
        count_opt_v("page"@, "PAGE"@, None, "1"@, 1),
        text_opt_v("schema"@, "SCHEMA"@, None, Some("v2.1"@), false),
        format_opt_v(),
    ]
}

fn services_search_options() -> (r: Vec<Opt>)
    ensures
        opts_view(r@) == services_search_options_v(),
{
    let mut v: Vec<Opt> = Vec::new();
    v.push(count_opt("limit", "LIMIT", Some('l'), "20", 1));
    v.push(count_opt("page", "PAGE", None, "1", 1));
    v.push(text_opt("schema", "SCHEMA", None, Some("v2.1"), false));
    v.push(format_opt());
    assert(opts_view(v@) =~= services_search_options_v());
    v
}

/// The options of `ddog services deps`, in field order.
pub open spec fn services_deps_options_v() -> Seq<OptV> {
    seq![
        text_opt_v("env"@, "ENV"@, Some('e'), None, true),
        text_opt_v("primary-tag"@, "PRIMARY_TAG"@, None, None, false),
        format_opt_v(),
    ]
}

fn services_deps_options() -> (r: Vec<Opt>)
    ensures
        opts_view(r@) == services_deps_options_v(),
{
    let mut v: Vec<Opt> = Vec::new();
    v.push(text_opt("env", "ENV", Some('e'), None, true));
    v.push(text_opt("primary-tag", "PRIMARY_TAG", None, None, false));
    v.push(format_opt());
    assert(opts_view(v@) =~= services_deps_options_v());
    v
}

/// The subcommands of `ddog services`.
pub open spec fn services_subcommands() -> Seq<Seq<char>> {
    seq!["search"@, "deps"@]
}

/// The options of each subcommand of `ddog services`.
pub open spec fn services_grammar(sub: int) -> Seq<OptV> {
    if sub == 0 {
        services_search_options_v()
    } else {
        services_deps_options_v()
    }
}

/// What a `ddog services` command line (the first token the program name) gives:
/// the subcommand and the value of each of its options, or the message refusing it.
pub open spec fn services_command_line(args: Seq<Seq<char>>) -> Result<(int, Seq<ValV>), Seq<char>> {
    match subcommand_of(args, services_subcommands()) {
        Err(e) => Err(e),
        Ok(sub) => match parse_opts(services_grammar(sub), args, 2) {
            Err(e) => Err(e),
            Ok(v) => Ok((sub, v)),
        },
    }
}

/// Whether a command holds the values read for subcommand `sub`.
pub open spec fn services_from_values(c: ServicesCmd, sub: int, v: Seq<ValV>) -> bool {
    match c {
        ServicesCmd::Search { limit, page, schema, format } => {
            &&& sub == 0
            &&& limit == count_val(v[0])
            &&& page == count_val(v[1])
            &&& schema@ == text_val(v[2])
            &&& format == format_val(v[3])
        },
        ServicesCmd::Deps { env, primary_tag, format } => {
            &&& sub == 1
            &&& env@ == text_val(v[0])
            &&& crate::time::opt_text(primary_tag) == opt_text_val(v[1])
            &&& format == format_val(v[2])
        },
    }
}

impl ServicesCmd {
    /// Reads `ddog services` from its command line, the first token being the program name.
    pub fn try_parse_from(args: &[&str]) -> (r: Result<ServicesCmd, CliError>)
        ensures
            match r {
                Ok(c) => services_command_line(lits(args@)) matches Ok((sub, v)) && services_from_values(c, sub, v),
                Err(e) => services_command_line(lits(args@)) == Err::<(int, Seq<ValV>), Seq<char>>(e.message@),
            },
    {
        let names: Vec<&'static str> = vec!["search", "deps"];
        assert(lits(names@) =~= services_subcommands());
        let sub = match pick_subcommand(args, &names) {
            Ok(k) => k,
            Err(e) => return Err(e),
        };
        if sub == 0 {
            let opts = services_search_options();
            let v = match parse_after_subcommand(&opts, args) {
                Ok(v) => v,
                Err(e) => return Err(e),
            };
            Ok(ServicesCmd::Search {
                limit: count_at(&v, 0),
                page: count_at(&v, 1),
                schema: text_at(&v, 2),
                format: format_at(&v, 3),
            })
        } else {
            let opts = services_deps_options();
            let v = match parse_after_subcommand(&opts, args) {
                Ok(v) => v,
                Err(e) => return Err(e),
            };
            Ok(ServicesCmd::Deps {
                env: text_at(&v, 0),
                primary_tag: opt_text_at(&v, 1),
                format: format_at(&v, 2),
            })
        }
    }
}

} // verus!
