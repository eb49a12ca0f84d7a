//! `ddog synthetics`: list synthetic tests and read their results.

use vstd::prelude::*;
use crate::cli::{
    count_at, count_opt, count_opt_v, count_val, format_at, format_opt, format_opt_v, format_val, lits,
    opt_text_at, opt_text_val, opts_view, parse_after_subcommand, parse_opts, pick_subcommand, subcommand_of,
    text_at, text_opt, text_opt_v, text_val, CliError, Opt, OptV, ValV,
};
use crate::commands::{
    columns_view, epoch_range_at, get_request, get_v, info_note, info_v, notes_view, one_request, plan_result,
    push_param, request_view, single, Plan, PlanV, Show, ShowV,
};
use crate::error::DdError;
use crate::limits::MAX_SYNTHETICS_HOURS;
use crate::log::info_text;
use crate::output::Format;
use crate::text::{append_text, decimal, decimal_text, signed_decimal, signed_decimal_text, text_of};
use crate::time::{flags_readable, now_ok, opt_text, range_epochs, range_of, utc_now, Instant};

verus! {

/// List and inspect synthetic tests.
pub enum SyntheticsCmd {
    /// List synthetic tests
    List { page_size: u32, page_number: u32, format: Format },
    /// Get results for a synthetic test
    Results { id: String, from: String, to: Option<String>, format: Format },
}

/// The columns shown for synthetic tests.
pub open spec fn test_columns() -> Seq<Seq<char>> {
    seq!["public_id"@, "name"@, "type"@, "status"@, "locations"@]
}

/// The columns shown for test results.
pub open spec fn result_columns() -> Seq<Seq<char>> {
    seq!["result_id"@, "status"@, "check_time"@, "dc_id"@]
}

/// Whether the time flags of the command can be read.
pub open spec fn synthetics_readable(c: SyntheticsCmd) -> bool {
    match c {
        SyntheticsCmd::Results { from, to, .. } => flags_readable(from@, to),
        _ => true,
    }
}

/// Whether the time flags of the command can be read.
pub fn readable(cmd: &SyntheticsCmd) -> (r: bool)
    ensures
        r == synthetics_readable(*cmd),
{
    match cmd {
        SyntheticsCmd::Results { from, to, .. } => crate::time::time_flags_ok(from.as_str(), to),
        _ => true,
    }
}

/// What `ddog synthetics` does: a GET of one page of tests, shown from the
/// response's `tests`; or a GET of a test's results over a window of at most
/// 48 hours in epoch seconds, shown from the response's `results`.
pub open spec fn synthetics_plan(c: SyntheticsCmd, now_from: Instant, now_to: Instant) -> Result<PlanV, Seq<char>> {
    match c {
        SyntheticsCmd::List { page_size, page_number, format } => Ok(single(
            seq![info_v(info_text("Listing synthetic tests: page="@ + decimal(page_number as nat) + " size="@
                + decimal(page_size as nat)))],
            get_v("/api/v1/synthetics/tests"@, seq![
                ("page_size"@, decimal(page_size as nat)),
                ("page_number"@, decimal(page_number as nat)),
            ]),
            format,
            ShowV::Member { key: "tests"@, columns: test_columns(), count_label: "synthetic tests"@ },
        )),
        SyntheticsCmd::Results { id, from, to, format } => {
            match range_epochs(range_of(from@, opt_text(to), 48, now_from, now_to)) {
                Err(e) => Err(e),
                Ok(w) => Ok(single(
                    seq![info_v(info_text("Fetching results for test: "@ + id@))],
                    get_v("/api/v1/synthetics/tests/"@ + id@ + "/results"@, seq![
                        ("from_ts"@, signed_decimal(w.0 as int)),
                        ("to_ts"@, signed_decimal(w.1 as int)),
                    ]),
                    format,
                    ShowV::Member { key: "results"@, columns: result_columns(), count_label: "results"@ },
                )),
            }
        },
    }
}

/// Plans `ddog synthetics` with the time flags read at the given clock readings.
pub fn plan_at(cmd: &SyntheticsCmd, now_from: Instant, now_to: Instant) -> (r: Result<Plan, DdError>)
    requires
        synthetics_readable(*cmd),
        now_ok(now_from),
        now_ok(now_to),
    ensures
        plan_result(r) == synthetics_plan(*cmd, now_from, now_to),
        r matches Err(e) ==> e is Validation,
{
    match cmd {
        SyntheticsCmd::List { page_size, page_number, format } => {
            let mut msg = text_of("Listing synthetic tests: page=");
            let number_str = decimal_text(*page_number as u64);
            append_text(&mut msg, number_str.as_str());
            append_text(&mut msg, " size=");
            let size_str = decimal_text(*page_size as u64);
            append_text(&mut msg, size_str.as_str());
            let notes = info_note(msg.as_str());
            let mut params: Vec<(String, String)> = Vec::new();
            push_param(&mut params, "page_size", size_str.as_str());
            push_param(&mut params, "page_number", number_str.as_str());
            let request = get_request(text_of("/api/v1/synthetics/tests"), params);
            let columns: Vec<&'static str> = vec!["public_id", "name", "type", "status", "locations"];
            assert(columns_view(columns@) =~= test_columns());
            let ghost nv = notes_view(notes@);
            let ghost rv = request_view(request);
            let r = one_request(notes, request, *format, Show::Member { key: "tests", columns, count_label: "synthetic tests" });
            let ghost target = synthetics_plan(*cmd, now_from, now_to)->Ok_0;
            assert(nv =~~= target.notes);
            assert(rv.2 =~~= target.requests[0].2);
            assert(rv =~~= target.requests[0]);
            assert(plan_result(Ok::<Plan, DdError>(r)) =~~= synthetics_plan(*cmd, now_from, now_to));
            Ok(r)
        },
        SyntheticsCmd::Results { id, from, to, format } => {
            let (from_epoch, to_epoch) = match epoch_range_at(from.as_str(), to, MAX_SYNTHETICS_HOURS, now_from, now_to) {
                Ok(v) => v,
                Err(e) => return Err(e),
            };
            let mut msg = text_of("Fetching results for test: ");
            append_text(&mut msg, id.as_str());
            let notes = info_note(msg.as_str());
            let mut params: Vec<(String, String)> = Vec::new();
            let from_str = signed_decimal_text(from_epoch);
            let to_str = signed_decimal_text(to_epoch);
            push_param(&mut params, "from_ts", from_str.as_str());
            push_param(&mut params, "to_ts", to_str.as_str());
            let mut path = text_of("/api/v1/synthetics/tests/");
            append_text(&mut path, id.as_str());
            append_text(&mut path, "/results");
            let request = get_request(path, params);
            let columns: Vec<&'static str> = vec!["result_id", "status", "check_time", "dc_id"];
            assert(columns_view(columns@) =~= result_columns());
            let ghost nv = notes_view(notes@);
            let ghost rv = request_view(request);
            let r = one_request(notes, request, *format, Show::Member { key: "results", columns, count_label: "results" });
            let ghost target = synthetics_plan(*cmd, now_from, now_to)->Ok_0;
            assert(nv =~~= target.notes);
            assert(rv.1 =~= target.requests[0].1);
            assert(rv.2 =~~= target.requests[0].2);
            assert(rv =~~= target.requests[0]);
            assert(plan_result(Ok::<Plan, DdError>(r)) =~~= synthetics_plan(*cmd, now_from, now_to));
            Ok(r)
        },
    }
}

/// Plans `ddog synthetics`, reading relative time flags against the current clock.
pub fn plan(cmd: &SyntheticsCmd) -> (r: Result<Plan, DdError>)
    requires
        synthetics_readable(*cmd),
    ensures
        exists|now_from: Instant, now_to: Instant|
            now_ok(now_from) && now_ok(now_to) && plan_result(r) == #[trigger] synthetics_plan(*cmd, now_from, now_to),
{
    let now_from = utc_now();
    let now_to = utc_now();
    let r = plan_at(cmd, now_from, now_to);
    assert(now_ok(now_from) && now_ok(now_to) && plan_result(r) == synthetics_plan(*cmd, now_from, now_to));
    r
}

/// The options of `ddog synthetics list`, in field order.
pub open spec fn synthetics_list_options_v() -> Seq<OptV> {
    seq![
        count_opt_v("page-size"@, "PAGE_SIZE"@, None, "25"@, 0),
        count_opt_v("page-number"@, "PAGE_NUMBER"@, None, "0"@, 0),
        format_opt_v(),
    ]
}

fn synthetics_list_options() -> (r: Vec<Opt>)
    ensures
        opts_view(r@) == synthetics_list_options_v(),
{
    let mut v: Vec<Opt> = Vec::new();
    v.push(count_opt("page-size", "PAGE_SIZE", None, "25", 0));
    v.push(count_opt("page-number", "PAGE_NUMBER", None, "0", 0));
    v.push(format_opt());
    assert(opts_view(v@) =~= synthetics_list_options_v());
    v
}

/// The options of `ddog synthetics results`, in field order.
pub open spec fn synthetics_results_options_v() -> Seq<OptV> {
    seq![
        text_opt_v("id"@, "ID"@, Some('i'), None, true),
        text_opt_v("from"@, "FROM"@, None, Some("1h"@), false),
        text_opt_v("to"@, "TO"@, None, None, false),
        format_opt_v(),
    ]
}

fn synthetics_results_options() -> (r: Vec<Opt>)
    ensures
        opts_view(r@) == synthetics_results_options_v(),
{
    let mut v: Vec<Opt> = Vec::new();
    v.push(text_opt("id", "ID", Some('i'), None, true));
    v.push(text_opt("from", "FROM", None, Some("1h"), false));
    v.push(text_opt("to", "TO", None, None, false));
    v.push(format_opt());
    assert(opts_view(v@) =~= synthetics_results_options_v());
    v
}

/// The subcommands of `ddog synthetics`.
pub open spec fn synthetics_subcommands() -> Seq<Seq<char>> {
    seq!["list"@, "results"@]
}

/// The options of each subcommand of `ddog synthetics`.
pub open spec fn synthetics_grammar(sub: int) -> Seq<OptV> {
    if sub == 0 {
        synthetics_list_options_v()
    } else {
        synthetics_results_options_v()
    }
}

/// What a `ddog synthetics` command line (the first token the program name) gives:
/// the subcommand and the value of each of its options, or the message refusing it.
pub open spec fn synthetics_command_line(args: Seq<Seq<char>>) -> Result<(int, Seq<ValV>), Seq<char>> {
    match subcommand_of(args, synthetics_subcommands()) {
        Err(e) => Err(e),
        Ok(sub) => match parse_opts(synthetics_grammar(sub), args, 2) {
            Err(e) => Err(e),
            Ok(v) => Ok((sub, v)),
        },
    }
}

/// Whether a command holds the values read for subcommand `sub`.
pub open spec fn synthetics_from_values(c: SyntheticsCmd, sub: int, v: Seq<ValV>) -> bool {
    match c {
        SyntheticsCmd::List { page_size, page_number, format } => {
            &&& sub == 0
            &&& page_size == count_val(v[0])
            &&& page_number == count_val(v[1])
            &&& format == format_val(v[2])
        },
        SyntheticsCmd::Results { id, from, to, format } => {
            &&& sub == 1
            &&& id@ == text_val(v[0])
            &&& from@ == text_val(v[1])
            &&& crate::time::opt_text(to) == opt_text_val(v[2])
            &&& format == format_val(v[3])
        },
    }
}

impl SyntheticsCmd {
    /// Reads `ddog synthetics` from its command line, the first token being the program name.
    pub fn try_parse_from(args: &[&str]) -> (r: Result<SyntheticsCmd, CliError>)
        ensures
            match r {
                Ok(c) => synthetics_command_line(lits(args@)) matches Ok((sub, v)) && synthetics_from_values(c, sub, v),
                Err(e) => synthetics_command_line(lits(args@)) == Err::<(int, Seq<ValV>), Seq<char>>(e.message@),
            },
    {
        let names: Vec<&'static str> = vec!["list", "results"];
        assert(lits(names@) =~= synthetics_subcommands());
        let sub = match pick_subcommand(args, &names) {
            Ok(k) => k,
            Err(e) => return Err(e),
        };
        if sub == 0 {
            let opts = synthetics_list_options();
            let v = match parse_after_subcommand(&opts, args) {
                Ok(v) => v,
                Err(e) => return Err(e),
            };
            Ok(SyntheticsCmd::List {
                page_size: count_at(&v, 0),
                page_number: count_at(&v, 1),
                format: format_at(&v, 2),
            })
        } else {
            let opts = synthetics_results_options();
            let v = match parse_after_subcommand(&opts, args) {
                Ok(v) => v,
                Err(e) => return Err(e),
            };
            Ok(SyntheticsCmd::Results {
                id: text_at(&v, 0),
                from: text_at(&v, 1),
                to: opt_text_at(&v, 2),
                format: format_at(&v, 3),
            })
        }
    }
}

} // verus!
