//! `ddog notebooks`: search and inspect notebooks.

use vstd::prelude::*;
use crate::cli::{
    big_at, big_opt, big_opt_v, count_at, count_opt, count_opt_v, count_val, format_at, format_opt, format_opt_v,
    format_val, lits, opt_text_at, opt_text_val, opts_view, parse_after_subcommand, parse_opts, pick_subcommand,
    subcommand_of, text_at, text_opt, text_opt_v, text_val, big_val, CliError, Opt, OptV, ValV,
};
use crate::commands::{
    columns_view, get_request, get_v, info_note, info_v, notes_view, one_request, plan_result, push_param,
    request_view, single, Plan, PlanV, Show, ShowV,
};
use crate::error::DdError;
use crate::log::info_text;
use crate::output::Format;
use crate::text::{append_text, decimal, decimal_text, push_decimal, text_of};

verus! {

/// Search and inspect notebooks.
pub enum NotebooksCmd {
    /// Get notebook by ID
    Get { id: u64, format: Format },
    /// Search notebooks by title, author, or content
    Search {
        query: String,
        author: Option<String>,
        sort_field: String,
        sort_dir: String,
        start: u32,
        count: u32,
        format: Format,
    },
}

/// The columns shown for one notebook.
pub open spec fn notebook_columns() -> Seq<Seq<char>> {
    seq!["data.id"@, "data.attributes.name"@, "data.attributes.author.handle"@, "data.attributes.modified"@]
}

/// The columns shown for notebook search results.
pub open spec fn notebook_search_columns() -> Seq<Seq<char>> {
    seq!["id"@, "attributes.name"@, "attributes.author.handle"@, "attributes.modified"@]
}

/// What `ddog notebooks` does: one GET of a notebook, or of the search.
pub open spec fn notebooks_plan(c: NotebooksCmd) -> Result<PlanV, Seq<char>> {
    match c {
        NotebooksCmd::Get { id, format } => Ok(single(
            seq![info_v(info_text("Fetching notebook: "@ + decimal(id as nat)))],
            get_v("/api/v1/notebooks/"@ + decimal(id as nat), seq![]),
            format,
            ShowV::Object { columns: notebook_columns() },
        )),
        NotebooksCmd::Search { query, author, sort_field, sort_dir, start, count, format } => Ok(single(
            seq![info_v(info_text("Searching notebooks: query=\""@ + query@ + "\""@))],
            get_v("/api/v1/notebooks"@, seq![
                ("query"@, query@),
                ("sort_field"@, sort_field@),
                ("sort_dir"@, sort_dir@),
                ("start"@, decimal(start as nat)),
                ("count"@, decimal(count as nat)),
            ] + match author { Some(a) => seq![("author_handle"@, a@)], None => seq![] }),
            format,
            ShowV::List { columns: notebook_search_columns(), label: Some("notebooks"@) },
        )),
    }
}

/// Plans `ddog notebooks`.
pub fn plan(cmd: &NotebooksCmd) -> (r: Result<Plan, DdError>)
    ensures
        plan_result(r) == notebooks_plan(*cmd),
{
    match cmd {
        NotebooksCmd::Get { id, format } => {
            let mut msg = text_of("Fetching notebook: ");
            push_decimal(&mut msg, *id);
            let notes = info_note(msg.as_str());
            let params: Vec<(String, String)> = Vec::new();
            let mut path = text_of("/api/v1/notebooks/");
            push_decimal(&mut path, *id);
            let request = get_request(path, params);
            let columns: Vec<&'static str> = vec![
                "data.id", "data.attributes.name", "data.attributes.author.handle", "data.attributes.modified",
            ];
            assert(columns_view(columns@) =~= notebook_columns());
            let ghost nv = notes_view(notes@);
            let ghost rv = request_view(request);
            let r = one_request(notes, request, *format, Show::Object { columns });
            let ghost target = notebooks_plan(*cmd)->Ok_0;
            assert(nv =~~= target.notes);
            assert(rv.2 =~~= target.requests[0].2);
            assert(rv =~~= target.requests[0]);
            assert(plan_result(Ok::<Plan, DdError>(r)) =~~= notebooks_plan(*cmd));
            Ok(r)
        },
        NotebooksCmd::Search { query, author, sort_field, sort_dir, start, count, format } => {
            let mut msg = text_of("Searching notebooks: query=\"");
            append_text(&mut msg, query.as_str());
            append_text(&mut msg, "\"");
            let notes = info_note(msg.as_str());
            let mut params: Vec<(String, String)> = Vec::new();
            push_param(&mut params, "query", query.as_str());
            push_param(&mut params, "sort_field", sort_field.as_str());
            push_param(&mut params, "sort_dir", sort_dir.as_str());
            let start_str = decimal_text(*start as u64);
            push_param(&mut params, "start", start_str.as_str());
            let count_str = decimal_text(*count as u64);
            push_param(&mut params, "count", count_str.as_str());
            if let Some(a) = author {
                push_param(&mut params, "author_handle", a.as_str());
            }
            let request = get_request(text_of("/api/v1/notebooks"), params);
            let columns: Vec<&'static str> = vec!["id", "attributes.name", "attributes.author.handle", "attributes.modified"];
            assert(columns_view(columns@) =~= notebook_search_columns());
            let ghost nv = notes_view(notes@);
            let ghost rv = request_view(request);
            let r = one_request(notes, request, *format, Show::List { columns, label: Some("notebooks") });
            let ghost target = notebooks_plan(*cmd)->Ok_0;
            assert(nv =~~= target.notes);
            assert(rv.2 =~~= target.requests[0].2);
            assert(rv =~~= target.requests[0]);
            assert(plan_result(Ok::<Plan, DdError>(r)) =~~= notebooks_plan(*cmd));
            Ok(r)
        },
    }
}

/// The options of `ddog notebooks get`, in field order.
pub open spec fn notebooks_get_options_v() -> Seq<OptV> {
    seq![
        big_opt_v("id"@, "ID"@, Some('i')),
        format_opt_v(),
    ]
}

fn notebooks_get_options() -> (r: Vec<Opt>)
    ensures
        opts_view(r@) == notebooks_get_options_v(),
{
    let mut v: Vec<Opt> = Vec::new();
    v.push(big_opt("id", "ID", Some('i')));
    v.push(format_opt());
    assert(opts_view(v@) =~= notebooks_get_options_v());
    v
}

/// The options of `ddog notebooks search`, in field order.
pub open spec fn notebooks_search_options_v() -> Seq<OptV> {
    seq![
        text_opt_v("query"@, "QUERY"@, Some('q'), Some(""@), false),
        text_opt_v("author"@, "AUTHOR"@, None, None, false),
        text_opt_v("sort-field"@, "SORT_FIELD"@, None, Some("modified"@), false),
        text_opt_v("sort-dir"@, "SORT_DIR"@, None, Some("desc"@), false),
        count_opt_v("start"@, "START"@, None, "0"@, 0),
        count_opt_v("count"@, "COUNT"@, Some('c'), "25"@, 0),
        format_opt_v(),
    ]
}

fn notebooks_search_options() -> (r: Vec<Opt>)
    ensures
        opts_view(r@) == notebooks_search_options_v(),
{
    let mut v: Vec<Opt> = Vec::new();
    v.push(text_opt("query", "QUERY", Some('q'), Some(""), false));
    v.push(text_opt("author", "AUTHOR", None, None, false));
    v.push(text_opt("sort-field", "SORT_FIELD", None, Some("modified"), false));
    v.push(text_opt("sort-dir", "SORT_DIR", None, Some("desc"), false));
    v.push(count_opt("start", "START", None, "0", 0));
    v.push(count_opt("count", "COUNT", Some('c'), "25", 0));
    v.push(format_opt());
    assert(opts_view(v@) =~= notebooks_search_options_v());
    v
}

/// The subcommands of `ddog notebooks`.
pub open spec fn notebooks_subcommands() -> Seq<Seq<char>> {
    seq!["get"@, "search"@]
}

/// The options of each subcommand of `ddog notebooks`.
pub open spec fn notebooks_grammar(sub: int) -> Seq<OptV> {
    if sub == 0 {
        notebooks_get_options_v()
    } else {
        notebooks_search_options_v()
    }
}

/// What a `ddog notebooks` command line (the first token the program name) gives:
/// the subcommand and the value of each of its options, or the message refusing it.
pub open spec fn notebooks_command_line(args: Seq<Seq<char>>) -> Result<(int, Seq<ValV>), Seq<char>> {
    match subcommand_of(args, notebooks_subcommands()) {
        Err(e) => Err(e),
        Ok(sub) => match parse_opts(notebooks_grammar(sub), args, 2) {
            Err(e) => Err(e),
            Ok(v) => Ok((sub, v)),
        },
    }
}

/// Whether a command holds the values read for subcommand `sub`.
pub open spec fn notebooks_from_values(c: NotebooksCmd, sub: int, v: Seq<ValV>) -> bool {
    match c {
        NotebooksCmd::Get { id, format } => {
            &&& sub == 0
            &&& id == big_val(v[0])
            &&& format == format_val(v[1])
        },
        NotebooksCmd::Search { query, author, sort_field, sort_dir, start, count, format } => {
            &&& sub == 1
            &&& query@ == text_val(v[0])
            &&& crate::time::opt_text(author) == opt_text_val(v[1])
            &&& sort_field@ == text_val(v[2])
            &&& sort_dir@ == text_val(v[3])
            &&& start == count_val(v[4])
            &&& count == count_val(v[5])
            &&& format == format_val(v[6])
        },
    }
}

impl NotebooksCmd {
    /// Reads `ddog notebooks` from its command line, the first token being the program name.
    pub fn try_parse_from(args: &[&str]) -> (r: Result<NotebooksCmd, CliError>)
        ensures
            match r {
                Ok(c) => notebooks_command_line(lits(args@)) matches Ok((sub, v)) && notebooks_from_values(c, sub, v),
                Err(e) => notebooks_command_line(lits(args@)) == Err::<(int, Seq<ValV>), Seq<char>>(e.message@),
            },
    {
        let names: Vec<&'static str> = vec!["get", "search"];
        assert(lits(names@) =~= notebooks_subcommands());
        let sub = match pick_subcommand(args, &names) {
            Ok(k) => k,
            Err(e) => return Err(e),
        };
        if sub == 0 {
            let opts = notebooks_get_options();
            let v = match parse_after_subcommand(&opts, args) {
                Ok(v) => v,
                Err(e) => return Err(e),
            };
            Ok(NotebooksCmd::Get {
                id: big_at(&v, 0),
                format: format_at(&v, 1),
            })
        } else {
            let opts = notebooks_search_options();
            let v = match parse_after_subcommand(&opts, args) {
                Ok(v) => v,
                Err(e) => return Err(e),
            };
            Ok(NotebooksCmd::Search {
                query: text_at(&v, 0),
                author: opt_text_at(&v, 1),
                sort_field: text_at(&v, 2),
                sort_dir: text_at(&v, 3),
                start: count_at(&v, 4),
                count: count_at(&v, 5),
                format: format_at(&v, 6),
            })
        }
    }
}

} // verus!
