//! `ddog metrics`: query timeseries, read a metric's metadata, list metrics,
//! and cut a series' points into time buckets.

use vstd::prelude::*;
use crate::cli::{
    format_at, format_opt, format_opt_v, format_val, list_at, list_val, lits, many_opt, many_opt_v, opt_text_at,
    opt_text_val, opts_view, parse_after_subcommand, parse_opts, pick_subcommand, strings_view, subcommand_of,
    text_at, text_opt, text_opt_v, text_val, CliError, Opt, OptV, ValV,
};
use crate::commands::{
    columns_view, epoch_range_at, get_request, get_v, info_note, info_v, notes_view, one_request, plan_result,
    push_param, request_view, single, Plan, PlanV, Show, ShowV,
};
use crate::error::DdError;
use crate::limits::MAX_METRIC_HOURS;
use crate::log::info_text;
use crate::output::Format;
use crate::text::{append_text, signed_decimal, signed_decimal_text, text_of};
use crate::time::{duration_text, flags_readable, format_duration, now_ok, opt_text, range_epochs, range_of, utc_now, Instant};

verus! {

/// Time buckets kept per series in the default JSON output.
pub const BINS: usize = 20;

/// Query, describe and list metrics.
pub enum MetricsCmd {
    /// Query metric timeseries data
    Query { query: String, from: String, to: Option<String>, format: Format },
    /// Get metric metadata (type, description, unit, tags)
    Context { name: String, format: Format },
    /// List configured metrics, optionally filtered by tag
    Search { tag: Vec<String>, format: Format },
}

/// The columns shown for a metric's metadata.
pub open spec fn context_columns() -> Seq<Seq<char>> {
    seq!["type"@, "description"@, "short_name"@, "unit"@, "integration"@]
}

/// The columns shown for listed metrics.
pub open spec fn metric_list_columns() -> Seq<Seq<char>> {
    seq!["id"@, "type"@, "attributes.metric_type"@]
}

/// The texts joined with commas between them.
pub open spec fn comma_joined(s: Seq<String>) -> Seq<char>
    decreases s.len(),
{
    if s.len() == 0 {
        seq![]
    } else if s.len() == 1 {
        s[0]@
    } else {
        comma_joined(s.drop_last()) + ","@ + s.last()@
    }
}

/// The texts joined with commas between them.
pub fn join_commas(items: &Vec<String>) -> (r: String)
    ensures
        r@ == comma_joined(items@),
{
    let mut out = String::new();
    let mut i: usize = 0;
    while i < items.len()
        invariant
            i <= items@.len(),
            out@ == comma_joined(items@.take(i as int)),
        decreases items@.len() - i,
    {
        if i > 0 {
            append_text(&mut out, ",");
        }
        append_text(&mut out, items[i].as_str());
        proof {
            let t = items@.take(i + 1);
            assert(t.drop_last() =~= items@.take(i as int));
        }
        i = i + 1;
    }
    assert(items@.take(i as int) =~= items@);
    out
}

/// Whether the time flags of the command can be read.
pub open spec fn metrics_readable(c: MetricsCmd) -> bool {
    match c {
        MetricsCmd::Query { from, to, .. } => flags_readable(from@, to),
        _ => true,
    }
}

/// Whether the time flags of the command can be read.
pub fn readable(cmd: &MetricsCmd) -> (r: bool)
    ensures
        r == metrics_readable(*cmd),
{
    match cmd {
        MetricsCmd::Query { from, to, .. } => crate::time::time_flags_ok(from.as_str(), to),
        _ => true,
    }
}

/// What `ddog metrics` does, with the time flags read at the given clock readings:
/// a query GET over a window of at most 30 days in epoch seconds, its series shown
/// as such; a GET of one metric's metadata; or a GET of the configured metrics,
/// filtered by the tags joined with commas when any are given.
pub open spec fn metrics_plan(c: MetricsCmd, now_from: Instant, now_to: Instant) -> Result<PlanV, Seq<char>> {
    match c {
        MetricsCmd::Query { query, from, to, format } => {
            match range_epochs(range_of(from@, opt_text(to), 720, now_from, now_to)) {
                Err(e) => Err(e),
                Ok(w) => Ok(single(
                    seq![info_v(info_text("Querying metric: \""@ + query@ + "\" range="@ + duration_text(w.1 - w.0)))],
                    get_v("/api/v1/query"@, seq![
                        ("from"@, signed_decimal(w.0 as int)),
                        ("to"@, signed_decimal(w.1 as int)),
                        ("query"@, query@),
                    ]),
                    format,
                    ShowV::Series,
                )),
            }
        },
        MetricsCmd::Context { name, format } => Ok(single(
            seq![info_v(info_text("Fetching metadata for metric: "@ + name@))],
            get_v("/api/v1/metrics/"@ + name@, seq![]),
            format,
            ShowV::Object { columns: context_columns() },
        )),
        MetricsCmd::Search { tag, format } => Ok(single(
            seq![info_v(info_text("Listing configured metrics..."@))],
            get_v("/api/v2/metrics"@, seq![("filter[configured]"@, "true"@)]
                + if tag.len() > 0 { seq![("filter[tags]"@, comma_joined(tag@))] } else { seq![] }),
            format,
            ShowV::List { columns: metric_list_columns(), label: Some("metrics"@) },
        )),
    }
}

/// Plans `ddog metrics` with the time flags read at the given clock readings.
pub fn plan_at(cmd: &MetricsCmd, now_from: Instant, now_to: Instant) -> (r: Result<Plan, DdError>)
    requires
        metrics_readable(*cmd),
        now_ok(now_from),
        now_ok(now_to),
    ensures
        plan_result(r) == metrics_plan(*cmd, now_from, now_to),
        r matches Err(e) ==> e is Validation,
{
    match cmd {
        MetricsCmd::Query { query, from, to, format } => {
            let (from_epoch, to_epoch) = match epoch_range_at(from.as_str(), to, MAX_METRIC_HOURS, now_from, now_to) {
                Ok(v) => v,
                Err(e) => return Err(e),
            };
            let mut msg = text_of("Querying metric: \"");
            append_text(&mut msg, query.as_str());
            append_text(&mut msg, "\" range=");
            let d = format_duration(to_epoch - from_epoch);
            append_text(&mut msg, d.as_str());
            let notes = info_note(msg.as_str());
            let mut params: Vec<(String, String)> = Vec::new();
            let from_str = signed_decimal_text(from_epoch);
            let to_str = signed_decimal_text(to_epoch);
            push_param(&mut params, "from", from_str.as_str());
            push_param(&mut params, "to", to_str.as_str());
            push_param(&mut params, "query", query.as_str());
            let request = get_request(text_of("/api/v1/query"), params);
            let ghost nv = notes_view(notes@);
            let ghost rv = request_view(request);
            let r = one_request(notes, request, *format, Show::Series);
            let ghost target = metrics_plan(*cmd, now_from, now_to)->Ok_0;
            assert(nv =~~= target.notes);
            assert(rv.2 =~~= target.requests[0].2);
            assert(rv =~~= target.requests[0]);
            assert(plan_result(Ok::<Plan, DdError>(r)) =~~= metrics_plan(*cmd, now_from, now_to));
            Ok(r)
        },
        MetricsCmd::Context { name, format } => {
            let mut msg = text_of("Fetching metadata for metric: ");
            append_text(&mut msg, name.as_str());
            let notes = info_note(msg.as_str());
            let params: Vec<(String, String)> = Vec::new();
            let mut path = text_of("/api/v1/metrics/");
            append_text(&mut path, name.as_str());
            let request = get_request(path, params);
            let columns: Vec<&'static str> = vec!["type", "description", "short_name", "unit", "integration"];
            assert(columns_view(columns@) =~= context_columns());
            let ghost nv = notes_view(notes@);
            let ghost rv = request_view(request);
            let r = one_request(notes, request, *format, Show::Object { columns });
            let ghost target = metrics_plan(*cmd, now_from, now_to)->Ok_0;
            assert(nv =~~= target.notes);
            assert(rv.2 =~~= target.requests[0].2);
            assert(rv =~~= target.requests[0]);
            assert(plan_result(Ok::<Plan, DdError>(r)) =~~= metrics_plan(*cmd, now_from, now_to));
            Ok(r)
        },
        MetricsCmd::Search { tag, format } => {
            let notes = info_note("Listing configured metrics...");
            let mut params: Vec<(String, String)> = Vec::new();
            push_param(&mut params, "filter[configured]", "true");
            if tag.len() > 0 {
                let tags = join_commas(tag);
                push_param(&mut params, "filter[tags]", tags.as_str());
            }
            let request = get_request(text_of("/api/v2/metrics"), params);
            let columns: Vec<&'static str> = vec!["id", "type", "attributes.metric_type"];
            assert(columns_view(columns@) =~= metric_list_columns());
            let ghost nv = notes_view(notes@);
            let ghost rv = request_view(request);
            let r = one_request(notes, request, *format, Show::List { columns, label: Some("metrics") });
            let ghost target = metrics_plan(*cmd, now_from, now_to)->Ok_0;
            assert(nv =~~= target.notes);
            assert(rv.2 =~~= target.requests[0].2);
            assert(rv =~~= target.requests[0]);
            assert(plan_result(Ok::<Plan, DdError>(r)) =~~= metrics_plan(*cmd, now_from, now_to));
            Ok(r)
        },
    }
}

/// Plans `ddog metrics`, reading relative time flags against the current clock.
pub fn plan(cmd: &MetricsCmd) -> (r: Result<Plan, DdError>)
    requires
        metrics_readable(*cmd),
    ensures
        exists|now_from: Instant, now_to: Instant|
            now_ok(now_from) && now_ok(now_to) && plan_result(r) == #[trigger] metrics_plan(*cmd, now_from, now_to),
{
    let now_from = utc_now();
    let now_to = utc_now();
    let r = plan_at(cmd, now_from, now_to);
    assert(now_ok(now_from) && now_ok(now_to) && plan_result(r) == metrics_plan(*cmd, now_from, now_to));
    r
}

/// The number of points per bucket when `n` points go into `bins` buckets:
/// `n / bins` rounded up, and at least one.
pub open spec fn points_per_bin(n: nat, bins: nat) -> nat
    recommends
        bins > 0,
{
    let q = (n + bins - 1) / bins as int;
    if q < 1 { 1 } else { q as nat }
}

/// The buckets of `n` points taken `per` at a time: `[k * per, min((k+1) * per, n))`
/// for each k, the last one possibly shorter.
pub open spec fn bucket_bounds(n: nat, per: nat) -> Seq<(int, int)>
    recommends
        per > 0,
{
    Seq::new(
        ((n + per - 1) / per as int) as nat,
        |k: int| (k * per, if (k + 1) * per < n { (k + 1) * per } else { n as int }),
    )
}

/// The buckets that `n` points go into for at most `bins` buckets: consecutive
/// index ranges of `points_per_bin(n, bins)` points each, the last one possibly
/// shorter.
pub fn bin_bounds(n: usize, bins: usize) -> (r: Vec<(usize, usize)>)
    requires
        bins > 0,
    ensures
        r@.len() == bucket_bounds(n as nat, points_per_bin(n as nat, bins as nat)).len(),
        forall|k: int| 0 <= k < r@.len() ==>
            (#[trigger] r@[k]).0 as int == bucket_bounds(n as nat, points_per_bin(n as nat, bins as nat))[k].0
            && r@[k].1 as int == bucket_bounds(n as nat, points_per_bin(n as nat, bins as nat))[k].1,
{
    let q: usize = if n % bins == 0 {
        n / bins
    } else {
        assert(n / bins < usize::MAX) by (nonlinear_arith)
            requires
                bins > 0,
                n % bins != 0,
        ;
        n / bins + 1
    };
    let per: usize = if q < 1 { 1 } else { q };
    proof {
        assert(q as int == (n + bins - 1) / bins as int) by (nonlinear_arith)
            requires
                bins > 0,
                q as int == n as int / bins as int + if n as int % bins as int == 0 { 0int } else { 1int },
        ;
        assert(per as nat == points_per_bin(n as nat, bins as nat));
    }
    let ghost bounds = bucket_bounds(n as nat, per as nat);
    let mut out: Vec<(usize, usize)> = Vec::new();
    let mut start: usize = 0;
    let mut k: usize = 0;
    proof {
        if n > 0 {
            lemma_more_buckets(n as nat, per as nat, 0);
        }
    }
    while start < n
        invariant
            bins > 0,
            per >= 1,
            per as nat == points_per_bin(n as nat, bins as nat),
            bounds == bucket_bounds(n as nat, per as nat),
            start as int == if k * per < n { k * per } else { n as int },
            start <= n,
            out@.len() == k,
            k <= bounds.len(),
            start < n ==> k < bounds.len(),
            start >= n ==> k == bounds.len(),
            forall|j: int| 0 <= j < k ==> (#[trigger] out@[j]).0 as int == bounds[j].0 && out@[j].1 as int == bounds[j].1,
        decreases n - start,
    {
        assert(k * per >= k) by (nonlinear_arith)
            requires
                per >= 1,
        ;
        assert((k + 1) * per == k * per + per) by (nonlinear_arith);
        let end: usize = if n - start > per { start + per } else { n };
        out.push((start, end));
        start = end;
        k = k + 1;
        proof {
            assert(bounds[k - 1] == ((k - 1) * per, if k * per < n { k * per } else { n as int }));
            if start < n {
                lemma_more_buckets(n as nat, per as nat, k as nat);
            } else {
                lemma_last_bucket(n as nat, per as nat, k as nat);
            }
        }
    }
    proof {
        if n == 0 {
            assert(bounds.len() == 0) by (nonlinear_arith)
                requires
                    per >= 1,
                    bounds.len() == ((n + per - 1) / per as int) as nat,
                    n == 0,
            ;
        }
    }
    out
}

proof fn lemma_more_buckets(n: nat, per: nat, k: nat)
    requires
        per >= 1,
        k * per < n,
    ensures
        k < (n + per - 1) / per as int,
{
    assert(k < (n + per - 1) / per as int) by (nonlinear_arith)
        requires
            per >= 1,
            k * per < n,
    ;
}

proof fn lemma_last_bucket(n: nat, per: nat, k: nat)
    requires
        per >= 1,
        k >= 1,
        (k - 1) * per < n,
        n <= k * per,
    ensures
        k == (n + per - 1) / per as int,
{
    assert(k == (n + per - 1) / per as int) by (nonlinear_arith)
        requires
            per >= 1,
            k >= 1,
            (k - 1) * per < n,
            n <= k * per,
    ;
}

/// A series is collapsed into at most `bins` buckets: the buckets start at
/// point 0, each begins where the one before it ends, the last ends at the last
/// point, and none is empty.
pub proof fn lemma_buckets_cover_points(n: nat, bins: nat)
    requires
        bins > 0,
    ensures
        bucket_bounds(n, points_per_bin(n, bins)).len() <= bins,
        n > 0 ==> bucket_bounds(n, points_per_bin(n, bins))[0].0 == 0,
        n > 0 ==> bucket_bounds(n, points_per_bin(n, bins)).last().1 == n,
        n == 0 ==> bucket_bounds(n, points_per_bin(n, bins)).len() == 0,
        forall|k: int| 0 <= k < bucket_bounds(n, points_per_bin(n, bins)).len() ==>
            (#[trigger] bucket_bounds(n, points_per_bin(n, bins))[k]).0 < bucket_bounds(n, points_per_bin(n, bins))[k].1,
        forall|k: int| 0 < k < bucket_bounds(n, points_per_bin(n, bins)).len() ==>
            (#[trigger] bucket_bounds(n, points_per_bin(n, bins))[k]).0 == bucket_bounds(n, points_per_bin(n, bins))[k - 1].1,
{
    let per = points_per_bin(n, bins);
    let b = bucket_bounds(n, per);
    let q = (n + bins - 1) / bins as int;
    assert(q * bins >= n) by (nonlinear_arith)
        requires
            bins > 0,
            q == (n + bins - 1) / bins as int,
    ;
    assert(per * bins >= n) by (nonlinear_arith)
        requires
            per >= q,
            q * bins >= n,
            bins > 0,
    ;
    assert(b.len() <= bins) by (nonlinear_arith)
        requires
            per >= 1,
            per * bins >= n,
            b.len() == ((n + per - 1) / per as int) as nat,
    ;
    if n == 0 {
        assert(b.len() == 0) by (nonlinear_arith)
            requires
                per >= 1,
                b.len() == ((n + per - 1) / per as int) as nat,
                n == 0,
        ;
    } else {
        lemma_more_buckets(n, per, 0);
        let last = (b.len() - 1) as nat;
        assert(last * per < n && n <= (last + 1) * per) by (nonlinear_arith)
            requires
                per >= 1,
                n > 0,
                b.len() == ((n + per - 1) / per as int) as nat,
                last == b.len() - 1,
        ;
    }
    assert forall|k: int| 0 <= k < b.len() implies (#[trigger] b[k]).0 < b[k].1 by {
        assert(k * per < n) by (nonlinear_arith)
            requires
                per >= 1,
                0 <= k < b.len(),
                b.len() == ((n + per - 1) / per as int) as nat,
        ;
        assert(k * per < (k + 1) * per) by (nonlinear_arith)
            requires
                per >= 1,
        ;
    }
    assert forall|k: int| 0 < k < b.len() implies (#[trigger] b[k]).0 == b[k - 1].1 by {
        assert(k * per < n) by (nonlinear_arith)
            requires
                per >= 1,
                0 <= k < b.len(),
                b.len() == ((n + per - 1) / per as int) as nat,
        ;
        assert((k - 1 + 1) * per == k * per);
    }
}

/// The options of `ddog metrics query`, in field order.
pub open spec fn metrics_query_options_v() -> Seq<OptV> {
    seq![
        text_opt_v("query"@, "QUERY"@, Some('q'), None, true),
        text_opt_v("from"@, "FROM"@, None, Some("1h"@), false),
        text_opt_v("to"@, "TO"@, None, None, false),
        format_opt_v(),
    ]
}

fn metrics_query_options() -> (r: Vec<Opt>)
    ensures
        opts_view(r@) == metrics_query_options_v(),
{
    let mut v: Vec<Opt> = Vec::new();
    v.push(text_opt("query", "QUERY", Some('q'), None, true));
    v.push(text_opt("from", "FROM", None, Some("1h"), false));
    v.push(text_opt("to", "TO", None, None, false));
    v.push(format_opt());
    assert(opts_view(v@) =~= metrics_query_options_v());
    v
}

/// The options of `ddog metrics context`, in field order.
pub open spec fn metrics_context_options_v() -> Seq<OptV> {
    seq![
        text_opt_v("name"@, "NAME"@, Some('n'), None, true),
        format_opt_v(),
    ]
}

fn metrics_context_options() -> (r: Vec<Opt>)
    ensures
        opts_view(r@) == metrics_context_options_v(),
{
    let mut v: Vec<Opt> = Vec::new();
    v.push(text_opt("name", "NAME", Some('n'), None, true));
    v.push(format_opt());
    assert(opts_view(v@) =~= metrics_context_options_v());
    v
}

/// The options of `ddog metrics search`, in field order.
pub open spec fn metrics_search_options_v() -> Seq<OptV> {
    seq![
        many_opt_v("tag"@, "TAG"@, true),
        format_opt_v(),
    ]
}

fn metrics_search_options() -> (r: Vec<Opt>)
    ensures
        opts_view(r@) == metrics_search_options_v(),
{
    let mut v: Vec<Opt> = Vec::new();
    v.push(many_opt("tag", "TAG", true));
    v.push(format_opt());
    assert(opts_view(v@) =~= metrics_search_options_v());
    v
}

/// The subcommands of `ddog metrics`.
pub open spec fn metrics_subcommands() -> Seq<Seq<char>> {
    seq!["query"@, "context"@, "search"@]
}

/// The options of each subcommand of `ddog metrics`.
pub open spec fn metrics_grammar(sub: int) -> Seq<OptV> {
    if sub == 0 {
        metrics_query_options_v()
    } else if sub == 1 {
        metrics_context_options_v()
    } else {
        metrics_search_options_v()
    }
}

/// What a `ddog metrics` command line (the first token the program name) gives:
/// the subcommand and the value of each of its options, or the message refusing it.
pub open spec fn metrics_command_line(args: Seq<Seq<char>>) -> Result<(int, Seq<ValV>), Seq<char>> {
    match subcommand_of(args, metrics_subcommands()) {
        Err(e) => Err(e),
        Ok(sub) => match parse_opts(metrics_grammar(sub), args, 2) {
            Err(e) => Err(e),
            Ok(v) => Ok((sub, v)),
        },
    }
}

/// Whether a command holds the values read for subcommand `sub`.
pub open spec fn metrics_from_values(c: MetricsCmd, sub: int, v: Seq<ValV>) -> bool {
    match c {
        MetricsCmd::Query { query, from, to, format } => {
            &&& sub == 0
            &&& query@ == text_val(v[0])
            &&& from@ == text_val(v[1])
            &&& crate::time::opt_text(to) == opt_text_val(v[2])
            &&& format == format_val(v[3])
        },
        MetricsCmd::Context { name, format } => {
            &&& sub == 1
            &&& name@ == text_val(v[0])
            &&& format == format_val(v[1])
        },
        MetricsCmd::Search { tag, format } => {
            &&& sub == 2
            &&& strings_view(tag@) == list_val(v[0])
            &&& format == format_val(v[1])
        },
    }
}

impl MetricsCmd {
    /// Reads `ddog metrics` from its command line, the first token being the program name.
    pub fn try_parse_from(args: &[&str]) -> (r: Result<MetricsCmd, CliError>)
        ensures
            match r {
                Ok(c) => metrics_command_line(lits(args@)) matches Ok((sub, v)) && metrics_from_values(c, sub, v),
                Err(e) => metrics_command_line(lits(args@)) == Err::<(int, Seq<ValV>), Seq<char>>(e.message@),
            },
    {
        let names: Vec<&'static str> = vec!["query", "context", "search"];
        assert(lits(names@) =~= metrics_subcommands());
        let sub = match pick_subcommand(args, &names) {
            Ok(k) => k,
            Err(e) => return Err(e),
        };
        if sub == 0 {
            let opts = metrics_query_options();
            let v = match parse_after_subcommand(&opts, args) {
                Ok(v) => v,
                Err(e) => return Err(e),
            };
            Ok(MetricsCmd::Query {
                query: text_at(&v, 0),
                from: text_at(&v, 1),
                to: opt_text_at(&v, 2),
                format: format_at(&v, 3),
            })
        } else if sub == 1 {
            let opts = metrics_context_options();
            let v = match parse_after_subcommand(&opts, args) {
                Ok(v) => v,
                Err(e) => return Err(e),
            };
            Ok(MetricsCmd::Context {
                name: text_at(&v, 0),
                format: format_at(&v, 1),
            })
        } else {
            let opts = metrics_search_options();
            let v = match parse_after_subcommand(&opts, args) {
                Ok(v) => v,
                Err(e) => return Err(e),
            };
            Ok(MetricsCmd::Search {
                tag: list_at(&v, 0),
                format: format_at(&v, 1),
            })
        }
    }
}

} // verus!
