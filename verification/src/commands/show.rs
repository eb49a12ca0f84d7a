//! What a command shows once its responses are in: the output for standard
//! output and the lines for standard error, per kind of answer.

use vstd::prelude::*;
use crate::commands::{
    columns_view, info_v, lemma_members, note_view, notes_view, num_v, object_in_order, str_v, strs_v, text_array,
    warn_note, warn_v, Note, Show, ShowV,
};
use crate::json::{
    entry, json_get, jv_items, lemma_jv_items, lemma_text_lt_irreflexive, lemma_text_lt_total,
    lemma_text_lt_transitive, member, text_less, text_lt, Json, JsonV,
};
use crate::log::{count_message, info, info_text, result_count, warn_text};
use crate::output::{output_of, printed_view, render_output, strs, texts, views, Format, Printed, PrintedV};
use crate::text::{append_text, decimal, push_decimal, text_of};
use crate::time::opt_text;

verus! {

/// What a command shows: the output for standard output, when it has one
/// here, and the lines for standard error.
pub struct Finished {
    pub printed: Option<Printed>,
    pub notes: Vec<Note>,
}

/// The mathematical value of a `Finished`.
pub struct FinishedV {
    pub printed: Option<PrintedV>,
    pub notes: Seq<(bool, Seq<char>)>,
}

/// The view of what a command shows.
pub open spec fn finished_view(f: Finished) -> FinishedV {
    FinishedV {
        printed: match f.printed { Some(p) => Some(printed_view(p)), None => None },
        notes: notes_view(f.notes@),
    }
}

/// The warning line for a truncated output, if any.
pub open spec fn warning_notes(w: Option<Seq<char>>) -> Seq<(bool, Seq<char>)> {
    match w {
        Some(t) => seq![warn_v(warn_text(t))],
        None => seq![],
    }
}

/// A list response printed on `columns`, then the truncation warning, then
/// the row count reported as `label` when there is one.
#[verifier::opaque]
pub open spec fn listed(v: JsonV, format: Format, columns: Seq<Seq<char>>, label: Option<Seq<char>>, budget: nat) -> FinishedV {
    let o = output_of(v, format, columns, budget);
    FinishedV {
        printed: Some(o.0),
        notes: warning_notes(o.2) + match label {
            Some(l) => seq![info_v(info_text(count_message(o.1, l)))],
            None => seq![],
        },
    }
}

/// The cursor of the next page of a log search (`meta.page.after`), if any.
pub open spec fn next_cursor(v: JsonV) -> Option<Seq<char>> {
    match json_get(v, "meta"@) {
        Some(m) => match json_get(m, "page"@) {
            Some(p) => match json_get(p, "after"@) {
                Some(JsonV::Str(c)) => Some(c),
                _ => None,
            },
            None => None,
        },
        None => None,
    }
}

/// The member `key` of a response, or an empty array when it has none.
pub open spec fn member_or_empty(v: JsonV, key: Seq<char>) -> JsonV {
    match json_get(v, key) {
        Some(x) => x,
        None => JsonV::Array(seq![]),
    }
}

/// The spans of a span search response: its `data` array, or none.
pub open spec fn spans_of(v: JsonV) -> Seq<JsonV> {
    match json_get(v, "data"@) {
        Some(JsonV::Array(items)) => items,
        _ => seq![],
    }
}

/// The service of a span (`attributes.service`), when it is a text.
pub open spec fn span_service(s: JsonV) -> Option<Seq<char>> {
    match json_get(s, "attributes"@) {
        Some(a) => match json_get(a, "service"@) {
            Some(JsonV::Str(t)) => Some(t),
            _ => None,
        },
        None => None,
    }
}

/// Whether a span's status (`attributes.status`) is `error`.
pub open spec fn is_error_span(s: JsonV) -> bool {
    match json_get(s, "attributes"@) {
        Some(a) => json_get(a, "status"@) == Some(JsonV::Str("error"@)),
        None => false,
    }
}

/// The services of the spans that have one, in span order.
pub open spec fn services_of(spans: Seq<JsonV>) -> Seq<Seq<char>>
    decreases spans.len(),
{
    if spans.len() == 0 {
        seq![]
    } else {
        services_of(spans.drop_last()) + match span_service(spans.last()) {
            Some(t) => seq![t],
            None => seq![],
        }
    }
}

/// The number of spans whose status is `error`.
pub open spec fn error_count(spans: Seq<JsonV>) -> nat
    decreases spans.len(),
{
    if spans.len() == 0 {
        0
    } else {
        error_count(spans.drop_last()) + if is_error_span(spans.last()) { 1nat } else { 0nat }
    }
}

/// `x` put into texts kept in increasing order: left out when already there,
/// otherwise placed before the first text that orders after it.
pub open spec fn insert_sorted(s: Seq<Seq<char>>, x: Seq<char>) -> Seq<Seq<char>>
    decreases s.len(),
{
    if s.len() == 0 {
        seq![x]
    } else if s[0] == x {
        s
    } else if text_lt(x, s[0]) {
        seq![x] + s
    } else {
        seq![s[0]] + insert_sorted(s.drop_first(), x)
    }
}

/// The distinct texts of `s` in increasing order (a sort, then a dedup).
pub open spec fn sorted_unique(s: Seq<Seq<char>>) -> Seq<Seq<char>>
    decreases s.len(),
{
    if s.len() == 0 {
        seq![]
    } else {
        insert_sorted(sorted_unique(s.drop_last()), s.last())
    }
}

/// JSON strings of the given texts.
pub open spec fn str_items(s: Seq<Seq<char>>) -> Seq<JsonV> {
    Seq::new(s.len(), |i: int| str_v(s[i]))
}

/// The summary of a trace: its error count, its distinct services and their
/// number, its span count and its ID.
pub open spec fn summary_v(trace_id: Seq<char>, spans: Seq<JsonV>) -> JsonV {
    let services = sorted_unique(services_of(spans));
    JsonV::Object(seq![
        ("error_count"@, num_v(error_count(spans))),
        ("service_count"@, num_v(services.len())),
        ("services"@, JsonV::Array(str_items(services))),
        ("span_count"@, num_v(spans.len())),
        ("trace_id"@, str_v(trace_id)),
    ])
}

/// The columns shown for a trace summary.
pub open spec fn summary_columns() -> Seq<Seq<char>> {
    seq!["trace_id"@, "span_count"@, "service_count"@, "error_count"@, "services"@]
}

/// The number of spans of a response: the length of its `data` array, or 0.
pub open spec fn span_count_of(v: JsonV) -> nat {
    match json_get(v, "data"@) {
        Some(JsonV::Array(items)) => items.len(),
        _ => 0,
    }
}

/// One side of a trace comparison: the response's `data` (null when absent),
/// its span count and the trace ID.
pub open spec fn trace_side(trace_id: Seq<char>, v: JsonV) -> JsonV {
    JsonV::Object(seq![
        ("data"@, match json_get(v, "data"@) { Some(d) => d, None => JsonV::Null }),
        ("span_count"@, num_v(span_count_of(v))),
        ("trace_id"@, str_v(trace_id)),
    ])
}

/// The line reporting the span counts of two traces.
pub open spec fn compare_message(a: JsonV, b: JsonV) -> Seq<char> {
    "Trace A: "@ + decimal(span_count_of(a)) + " spans, Trace B: "@ + decimal(span_count_of(b)) + " spans"@
}

/// What a command shows for its responses under a token budget.
///
/// Lists print their rows, warn when the budget cut rows, and report the row
/// count under their label. A member list does so with the array under its
/// key, an empty one when the response has none. A log page adds a line with
/// the cursor to the next page. A trace summary counts spans, distinct
/// services and errors; a comparison reports both span counts and puts both
/// traces side by side. Metric series are shown here only in full; their JSON
/// and table forms hold floating-point statistics and are printed elsewhere.
pub open spec fn shown(show: ShowV, format: Format, responses: Seq<JsonV>, budget: nat) -> FinishedV {
    match show {
        ShowV::List { columns, label } => listed(responses[0], format, columns, label, budget),
        ShowV::Object { columns } => FinishedV {
            printed: Some(crate::output::object_output_of(responses[0], format, columns)),
            notes: seq![],
        },
        ShowV::Member { key, columns, count_label } =>
            listed(member_or_empty(responses[0], key), format, columns, Some(count_label), budget),
        ShowV::LogPage { columns } => {
            let l = listed(responses[0], format, columns, Some("logs"@), budget);
            FinishedV {
                printed: l.printed,
                notes: l.notes + match next_cursor(responses[0]) {
                    Some(c) => seq![info_v(info_text("More results available. Use --cursor \""@ + c + "\""@))],
                    None => seq![],
                },
            }
        },
        ShowV::TraceSummary { trace_id } =>
            listed(summary_v(trace_id, spans_of(responses[0])), format, summary_columns(), None, budget),
        ShowV::TraceCompare { trace_a, trace_b } => {
            let l = listed(
                JsonV::Object(seq![("trace_a"@, trace_side(trace_a, responses[0])), ("trace_b"@, trace_side(trace_b, responses[1]))]),
                format,
                seq!["trace_a"@, "trace_b"@],
                None,
                budget,
            );
            FinishedV {
                printed: l.printed,
                notes: seq![info_v(info_text(compare_message(responses[0], responses[1])))] + l.notes,
            }
        },
        ShowV::Series => match format {
            Format::Full => listed(responses[0], format, seq![], Some("series"@), budget),
            _ => FinishedV { printed: None, notes: seq![] },
        },
    }
}

/// The number of responses a command's answer is shown from.
pub open spec fn responses_needed(show: ShowV) -> nat {
    match show {
        ShowV::TraceCompare { .. } => 2,
        _ => 1,
    }
}

/// How many responses `finish` shows a command's answer from.
pub fn needed_responses(show: &Show) -> (r: usize)
    ensures
        r == responses_needed(crate::commands::show_view(*show)),
{
    match show {
        Show::TraceCompare { .. } => 2,
        _ => 1,
    }
}

fn listed_exec(value: &Json, format: Format, columns: &[&str], label: Option<&str>, budget: usize) -> (r: Finished)
    ensures
        finished_view(r) == listed(value@, format, strs(columns@), crate::commands::opt_str(label), budget as nat),
{
    reveal(listed);
    let rendered = render_output(value, format, columns, budget);
    let mut notes: Vec<Note> = Vec::new();
    match &rendered.warning {
        Some(w) => notes.push(warn_note(w.as_str())),
        None => {},
    }
    if let Some(l) = label {
        let msg = result_count(rendered.count, l);
        notes.push(Note::Info(info(msg.as_str())));
    }
    let r = Finished { printed: Some(rendered.printed), notes };
    assert(finished_view(r).notes =~~= listed(value@, format, strs(columns@), crate::commands::opt_str(label), budget as nat).notes);
    r
}

fn text_field<'a>(v: &'a Json, key: &str) -> (r: Option<&'a Json>)
    ensures
        crate::json::opt_view(r) == json_get(v@, key@),
{
    let k = text_of(key);
    v.get(&k)
}

fn cursor_of(v: &Json) -> (r: Option<String>)
    ensures
        opt_text(r) == next_cursor(v@),
{
    match text_field(v, "meta") {
        Some(m) => match text_field(m, "page") {
            Some(p) => match text_field(p, "after") {
                Some(Json::Str(c)) => Some(c.clone()),
                _ => None,
            },
            None => None,
        },
        None => None,
    }
}

fn service_of(s: &Json) -> (r: Option<String>)
    ensures
        opt_text(r) == span_service(s@),
{
    match text_field(s, "attributes") {
        Some(a) => match text_field(a, "service") {
            Some(Json::Str(t)) => Some(t.clone()),
            _ => None,
        },
        None => None,
    }
}

fn error_span(s: &Json) -> (r: bool)
    ensures
        r == is_error_span(s@),
{
    match text_field(s, "attributes") {
        Some(a) => match text_field(a, "status") {
            Some(Json::Str(t)) => {
                let e = text_of("error");
                let r = *t == e;
                assert(r == (JsonV::Str(t@) == JsonV::Str("error"@)));
                r
            },
            Some(other) => {
                assert(other@ != JsonV::Str("error"@));
                false
            },
            None => false,
        },
        None => false,
    }
}

/// Puts `x` into texts kept in increasing order.
pub fn insert_sorted_vec(v: &mut Vec<String>, x: String)
    ensures
        texts(final(v)@) == insert_sorted(texts(old(v)@), x@),
{
    let ghost s = texts(v@);
    let mut i: usize = 0;
    assert(s.skip(0) =~= s);
    assert(s.take(0) + s.skip(0) =~= s);
    while i < v.len() && text_less(&v[i], &x)
        invariant
            s == texts(v@),
            v@ == old(v)@,
            i <= v@.len(),
            insert_sorted(s, x@) == s.take(i as int) + insert_sorted(s.skip(i as int), x@),
        decreases v@.len() - i,
    {
        proof {
            let t = s.skip(i as int);
            assert(t[0] == v@[i as int]@);
            lemma_text_lt_irreflexive(x@);
            lemma_text_lt_total(t[0], x@);
            assert(t.drop_first() =~= s.skip(i + 1));
            assert(insert_sorted(t, x@) == seq![t[0]] + insert_sorted(s.skip(i + 1), x@));
            assert(s.take(i + 1) =~= s.take(i as int) + seq![t[0]]);
        }
        i = i + 1;
    }
    if i < v.len() {
        if v[i] == x {
            proof {
                let t = s.skip(i as int);
                assert(t[0] == x@);
                assert(s.take(i as int) + t =~= s);
            }
            return;
        }
        proof {
            let t = s.skip(i as int);
            lemma_text_lt_total(t[0], x@);
            assert(text_lt(x@, t[0]));
        }
    } else {
        assert(s.skip(i as int) =~= seq![]);
    }
    v.insert(i, x);
    assert(texts(v@) =~= insert_sorted(s, x@));
}

fn summary_of(trace_id: &String, response: &Json) -> (r: Json)
    ensures
        r@ == summary_v(trace_id@, crate::commands::show::spans_of(response@)),
{
    let key = text_of("data");
    let empty: Vec<Json> = Vec::new();
    let spans: &Vec<Json> = match response.get(&key) {
        Some(Json::Array(items)) => items,
        _ => &empty,
    };
    assert(jv_items(empty@) =~= seq![]);
    let ghost sv = jv_items(spans@);
    proof { lemma_jv_items(spans@); }
    assert(sv == spans_of(response@));
    let mut services: Vec<String> = Vec::new();
    let mut errors: usize = 0;
    let mut j: usize = 0;
    while j < spans.len()
        invariant
            j <= spans@.len(),
            sv == jv_items(spans@),
            sv.len() == spans@.len(),
            forall|m: int| 0 <= m < spans@.len() ==> #[trigger] sv[m] == spans@[m]@,
            texts(services@) == sorted_unique(services_of(sv.take(j as int))),
            errors as nat == error_count(sv.take(j as int)),
            errors <= j,
        decreases spans@.len() - j,
    {
        proof {
            assert(sv.take(j + 1).drop_last() =~= sv.take(j as int));
            assert(sv[j as int] == spans@[j as int]@);
        }
        match service_of(&spans[j]) {
            Some(t) => {
                insert_sorted_vec(&mut services, t);
                proof {
                    let a = services_of(sv.take(j as int));
                    assert((a + seq![t@]).drop_last() =~= a);
                }
            },
            None => {},
        }
        if error_span(&spans[j]) {
            errors = errors + 1;
        }
        j = j + 1;
    }
    assert(sv.take(j as int) =~= sv);
    let ghost names = sorted_unique(services_of(sv));
    let services_json = text_array(&services);
    assert(strs_v(services@) =~= str_items(names));
    let service_count = services.len();
    proof { assert(service_count == names.len()); }
    let mut m: Vec<(String, Json)> = Vec::new();
    m.push(entry("error_count", Json::uint(errors as u64)));
    m.push(entry("service_count", Json::uint(service_count as u64)));
    m.push(entry("services", services_json));
    m.push(entry("span_count", Json::uint(spans.len() as u64)));
    m.push(entry("trace_id", Json::text(trace_id.as_str())));
    proof { lemma_members(m@, summary_v(trace_id@, sv)->Object_0); }
    object_in_order(m)
}

fn span_count(response: &Json) -> (r: usize)
    ensures
        r as nat == span_count_of(response@),
{
    let key = text_of("data");
    match response.get(&key) {
        Some(Json::Array(items)) => {
            proof { lemma_jv_items(items@); }
            items.len()
        },
        _ => 0,
    }
}

fn side_of(trace_id: &String, response: &Json) -> (r: Json)
    ensures
        r@ == trace_side(trace_id@, response@),
{
    let key = text_of("data");
    let data = match response.get(&key) {
        Some(d) => d.deep_copy(),
        None => Json::Null,
    };
    let n = span_count(response);
    let mut m: Vec<(String, Json)> = Vec::new();
    m.push(entry("data", data));
    m.push(entry("span_count", Json::uint(n as u64)));
    m.push(entry("trace_id", Json::text(trace_id.as_str())));
    proof { lemma_members(m@, trace_side(trace_id@, response@)->Object_0); }
    object_in_order(m)
}

fn log_page(response: &Json, format: Format, columns: &Vec<&'static str>, budget: usize) -> (r: Finished)
    ensures
        finished_view(r) == shown(ShowV::LogPage { columns: columns_view(columns@) }, format, seq![response@], budget as nat),
{
    assert(strs(columns@) =~= columns_view(columns@));
    let l = listed_exec(response, format, columns.as_slice(), Some("logs"), budget);
    let Finished { printed, notes } = l;
    let mut notes = notes;
    match cursor_of(response) {
        Some(c) => {
            let mut msg = text_of("More results available. Use --cursor \"");
            append_text(&mut msg, c.as_str());
            append_text(&mut msg, "\"");
            notes.push(Note::Info(info(msg.as_str())));
        },
        None => {},
    }
    let r = Finished { printed, notes };
    assert(finished_view(r).notes =~~= shown(ShowV::LogPage { columns: columns_view(columns@) }, format, seq![response@], budget as nat).notes);
    r
}

fn compared(trace_a: &String, trace_b: &String, response_a: &Json, response_b: &Json, format: Format, budget: usize) -> (r: Finished)
    ensures
        finished_view(r) == shown(ShowV::TraceCompare { trace_a: trace_a@, trace_b: trace_b@ }, format,
            seq![response_a@, response_b@], budget as nat),
{
    let count_a = span_count(response_a);
    let count_b = span_count(response_b);
    let mut msg = text_of("Trace A: ");
    push_decimal(&mut msg, count_a as u64);
    append_text(&mut msg, " spans, Trace B: ");
    push_decimal(&mut msg, count_b as u64);
    append_text(&mut msg, " spans");
    let side_a = side_of(trace_a, response_a);
    let side_b = side_of(trace_b, response_b);
    let mut m: Vec<(String, Json)> = Vec::new();
    m.push(entry("trace_a", side_a));
    m.push(entry("trace_b", side_b));
    proof {
        lemma_members(m@, seq![("trace_a"@, trace_side(trace_a@, response_a@)), ("trace_b"@, trace_side(trace_b@, response_b@))]);
    }
    let comparison = object_in_order(m);
    let columns: Vec<&str> = vec!["trace_a", "trace_b"];
    assert(strs(columns@) =~= seq!["trace_a"@, "trace_b"@]);
    let l = listed_exec(&comparison, format, columns.as_slice(), None, budget);
    let Finished { printed, notes: rest } = l;
    let mut notes: Vec<Note> = Vec::new();
    notes.push(Note::Info(info(msg.as_str())));
    let mut rest = rest;
    notes.append(&mut rest);
    let r = Finished { printed, notes };
    assert(finished_view(r).notes =~~= shown(ShowV::TraceCompare { trace_a: trace_a@, trace_b: trace_b@ }, format,
        seq![response_a@, response_b@], budget as nat).notes);
    r
}

fn member_list(
    response: &Json,
    key: &'static str,
    columns: &Vec<&'static str>,
    count_label: &'static str,
    format: Format,
    budget: usize,
) -> (r: Finished)
    ensures
        finished_view(r) == shown(ShowV::Member { key: key@, columns: columns_view(columns@), count_label: count_label@ },
            format, seq![response@], budget as nat),
{
    assert(strs(columns@) =~= columns_view(columns@));
    let v = match text_field(response, key) {
        Some(x) => x.deep_copy(),
        None => {
            let items: Vec<Json> = Vec::new();
            assert(jv_items(items@) =~= seq![]);
            Json::Array(items)
        },
    };
    listed_exec(&v, format, columns.as_slice(), Some(count_label), budget)
}

fn summarized(trace_id: &String, response: &Json, format: Format, budget: usize) -> (r: Finished)
    ensures
        finished_view(r) == shown(ShowV::TraceSummary { trace_id: trace_id@ }, format, seq![response@], budget as nat),
{
    let summary = summary_of(trace_id, response);
    let columns: Vec<&str> = vec!["trace_id", "span_count", "service_count", "error_count", "services"];
    assert(strs(columns@) =~= summary_columns());
    listed_exec(&summary, format, columns.as_slice(), None, budget)
}

fn series(response: &Json, format: Format, budget: usize) -> (r: Finished)
    ensures
        finished_view(r) == shown(ShowV::Series, format, seq![response@], budget as nat),
{
    match format {
        Format::Full => {
            let columns: Vec<&str> = Vec::new();
            assert(strs(columns@) =~= seq![]);
            listed_exec(response, format, columns.as_slice(), Some("series"), budget)
        },
        _ => {
            let notes: Vec<Note> = Vec::new();
            let r = Finished { printed: None, notes };
            assert(finished_view(r).notes =~~= seq![]);
            r
        },
    }
}

/// What a command shows for its responses under a token budget.
pub fn finish(show: &Show, format: Format, responses: &Vec<Json>, budget: usize) -> (r: Finished)
    requires
        responses@.len() >= responses_needed(crate::commands::show_view(*show)),
    ensures
        finished_view(r) == shown(crate::commands::show_view(*show), format, views(responses@), budget as nat),
{
    let ghost rv = views(responses@);
    assert(rv[0] == responses@[0]@);
    assert(responses_needed(crate::commands::show_view(*show)) == 2 ==> rv[1] == responses@[1]@);
    assert(seq![rv[0]] =~= rv.take(1));
    match show {
        Show::List { columns, label } => {
            assert(strs(columns@) =~= columns_view(columns@));
            listed_exec(&responses[0], format, columns.as_slice(), *label, budget)
        },
        Show::Object { columns } => {
            assert(strs(columns@) =~= columns_view(columns@));
            let p = crate::output::render_object(&responses[0], format, columns.as_slice());
            let notes: Vec<Note> = Vec::new();
            let r = Finished { printed: Some(p), notes };
            assert(finished_view(r).notes =~~= seq![]);
            r
        },
        Show::Member { key, columns, count_label } => member_list(&responses[0], key, columns, count_label, format, budget),
        Show::LogPage { columns } => log_page(&responses[0], format, columns, budget),
        Show::TraceSummary { trace_id } => summarized(trace_id, &responses[0], format, budget),
        Show::TraceCompare { trace_a, trace_b } => compared(trace_a, trace_b, &responses[0], &responses[1], format, budget),
        Show::Series => series(&responses[0], format, budget),
    }
}

/// Whether each text of `s` orders before every later one.
pub open spec fn strictly_increasing(s: Seq<Seq<char>>) -> bool {
    forall|i: int, j: int| 0 <= i < j < s.len() ==> text_lt(#[trigger] s[i], #[trigger] s[j])
}

proof fn lemma_insert_sorted(s: Seq<Seq<char>>, x: Seq<char>)
    requires
        strictly_increasing(s),
    ensures
        strictly_increasing(insert_sorted(s, x)),
        forall|y: Seq<char>| #[trigger] insert_sorted(s, x).contains(y) <==> (s.contains(y) || y == x),
    decreases s.len(),
{
    if s.len() == 0 {
        assert forall|y: Seq<char>| #[trigger] insert_sorted(s, x).contains(y) <==> (s.contains(y) || y == x) by {
            if y == x {
                assert(insert_sorted(s, x)[0] == y);
            }
        }
    } else if s[0] == x {
        assert forall|y: Seq<char>| #[trigger] insert_sorted(s, x).contains(y) <==> (s.contains(y) || y == x) by {
            if y == x {
                assert(s[0] == y);
            }
        }
    } else if text_lt(x, s[0]) {
        let r = seq![x] + s;
        assert forall|i: int, j: int| 0 <= i < j < r.len() implies text_lt(#[trigger] r[i], #[trigger] r[j]) by {
            if i == 0 && j > 1 {
                lemma_text_lt_transitive(x, s[0], s[j - 1]);
            }
        }
        assert forall|y: Seq<char>| #[trigger] r.contains(y) <==> (s.contains(y) || y == x) by {
            if s.contains(y) {
                let k = choose|k: int| 0 <= k < s.len() && s[k] == y;
                assert(r[k + 1] == y);
            }
            if y == x {
                assert(r[0] == y);
            }
        }
    } else {
        let t = s.drop_first();
        assert(strictly_increasing(t));
        lemma_insert_sorted(t, x);
        let rest = insert_sorted(t, x);
        let r = seq![s[0]] + rest;
        lemma_text_lt_total(s[0], x);
        assert forall|i: int, j: int| 0 <= i < j < r.len() implies text_lt(#[trigger] r[i], #[trigger] r[j]) by {
            if i == 0 {
                assert(rest.contains(r[j]));
                if r[j] != x {
                    assert(t.contains(r[j]));
                    let k = choose|k: int| 0 <= k < t.len() && t[k] == r[j];
                    assert(s[k + 1] == r[j]);
                }
            } else {
                assert(r[i] == rest[i - 1] && r[j] == rest[j - 1]);
            }
        }
        assert forall|y: Seq<char>| #[trigger] r.contains(y) <==> (s.contains(y) || y == x) by {
            if s.contains(y) {
                let k = choose|k: int| 0 <= k < s.len() && s[k] == y;
                if k > 0 {
                    assert(t[k - 1] == y);
                    assert(rest.contains(y));
                    let m = choose|m: int| 0 <= m < rest.len() && rest[m] == y;
                    assert(r[m + 1] == y);
                } else {
                    assert(r[0] == y);
                }
            }
            if y == x {
                assert(rest.contains(y));
                let m = choose|m: int| 0 <= m < rest.len() && rest[m] == y;
                assert(r[m + 1] == y);
            }
            if r.contains(y) {
                let m = choose|m: int| 0 <= m < r.len() && r[m] == y;
                if m > 0 {
                    assert(rest[m - 1] == y);
                    assert(rest.contains(y));
                    if y != x {
                        let k = choose|k: int| 0 <= k < t.len() && t[k] == y;
                        assert(s[k + 1] == y);
                    }
                } else {
                    assert(s[0] == y);
                }
            }
        }
    }
}

proof fn lemma_services_of_members(spans: Seq<JsonV>)
    ensures
        forall|t: Seq<char>| #[trigger] services_of(spans).contains(t)
            <==> exists|i: int| 0 <= i < spans.len() && #[trigger] span_service(spans[i]) == Some(t),
    decreases spans.len(),
{
    if spans.len() > 0 {
        let init = spans.drop_last();
        lemma_services_of_members(init);
        let a = services_of(init);
        let tail: Seq<Seq<char>> = match span_service(spans.last()) {
            Some(t) => seq![t],
            None => seq![],
        };
        assert(services_of(spans) == a + tail);
        assert forall|t: Seq<char>| #[trigger] services_of(spans).contains(t)
            <==> exists|i: int| 0 <= i < spans.len() && #[trigger] span_service(spans[i]) == Some(t) by {
            if services_of(spans).contains(t) {
                let k = choose|k: int| 0 <= k < (a + tail).len() && (a + tail)[k] == t;
                if k < a.len() {
                    assert(a.contains(t));
                    let i = choose|i: int| 0 <= i < init.len() && #[trigger] span_service(init[i]) == Some(t);
                    assert(spans[i] == init[i]);
                } else {
                    assert(span_service(spans[spans.len() - 1]) == Some(t));
                }
            }
            if exists|i: int| 0 <= i < spans.len() && #[trigger] span_service(spans[i]) == Some(t) {
                let i = choose|i: int| 0 <= i < spans.len() && #[trigger] span_service(spans[i]) == Some(t);
                if i < spans.len() - 1 {
                    assert(init[i] == spans[i]);
                    assert(a.contains(t));
                    let k = choose|k: int| 0 <= k < a.len() && a[k] == t;
                    assert((a + tail)[k] == t);
                } else {
                    assert((a + tail)[a.len() as int] == t);
                }
            }
        }
    }
}

proof fn lemma_error_count_filter(spans: Seq<JsonV>)
    ensures
        error_count(spans) == spans.filter(|s: JsonV| is_error_span(s)).len(),
    decreases spans.len(),
{
    reveal(Seq::filter);
    if spans.len() > 0 {
        lemma_error_count_filter(spans.drop_last());
    }
}

/// A trace summary lists, once each, exactly the services of its spans,
/// whatever their status; its service count is their number and its span
/// count the number of spans.
pub proof fn lemma_summary_lists_all_services(trace_id: Seq<char>, spans: Seq<JsonV>)
    ensures
        json_get(summary_v(trace_id, spans), "services"@) matches Some(JsonV::Array(items))
            && (forall|i: int| 0 <= i < spans.len() && #[trigger] span_service(spans[i]) is Some
                ==> items.contains(JsonV::Str(span_service(spans[i])->0)))
            && (forall|k: int| 0 <= k < items.len() ==> (#[trigger] items[k] matches JsonV::Str(t)
                && exists|i: int| 0 <= i < spans.len() && #[trigger] span_service(spans[i]) == Some(t)))
            && (forall|k: int, l: int| 0 <= k < l < items.len() ==> #[trigger] items[k] != #[trigger] items[l]
                && text_lt(items[k]->Str_0, items[l]->Str_0))
            && json_get(summary_v(trace_id, spans), "service_count"@) == Some(JsonV::Number(decimal(items.len()))),
        json_get(summary_v(trace_id, spans), "span_count"@) == Some(JsonV::Number(decimal(spans.len()))),
        json_get(summary_v(trace_id, spans), "error_count"@)
            == Some(JsonV::Number(decimal(spans.filter(|s: JsonV| is_error_span(s)).len()))),
        json_get(summary_v(trace_id, spans), "trace_id"@) == Some(JsonV::Str(trace_id)),
{
    reveal_strlit("trace_id");
    lemma_error_count_filter(spans);
    reveal_strlit("error_count");
    reveal_strlit("service_count");
    reveal_strlit("services");
    reveal_strlit("span_count");
    let su = sorted_unique(services_of(spans));
    lemma_sorted_unique(services_of(spans));
    lemma_services_of_members(spans);
    let items = str_items(su);
    let es = summary_v(trace_id, spans)->Object_0;
    assert("error_count"@ != "services"@) by { assert("error_count"@[0] != "services"@[0]); }
    assert("error_count"@ != "service_count"@) by { assert("error_count"@[0] != "service_count"@[0]); }
    assert("error_count"@ != "span_count"@) by { assert("error_count"@[0] != "span_count"@[0]); }
    assert("service_count"@ != "services"@) by { assert("service_count"@[7] != "services"@[7]); }
    assert("service_count"@ != "span_count"@) by { assert("service_count"@[1] != "span_count"@[1]); }
    assert("services"@ != "span_count"@) by { assert("services"@[1] != "span_count"@[1]); }
    let e1 = es.drop_first();
    let e2 = e1.drop_first();
    let e3 = e2.drop_first();
    assert(e1[0] == es[1] && e2[0] == es[2] && e3[0] == es[3]);
    assert(member(es, "service_count"@) == member(e1, "service_count"@));
    assert(member(es, "services"@) == member(e1, "services"@));
    assert(member(e1, "services"@) == member(e2, "services"@));
    assert(member(e2, "services"@) == Some(JsonV::Array(items)));
    assert(member(es, "span_count"@) == member(e1, "span_count"@));
    assert(member(e1, "span_count"@) == member(e2, "span_count"@));
    assert(member(e2, "span_count"@) == member(e3, "span_count"@));
    assert("error_count"@ != "trace_id"@) by { assert("error_count"@[0] != "trace_id"@[0]); }
    assert("service_count"@ != "trace_id"@) by { assert("service_count"@[0] != "trace_id"@[0]); }
    assert("services"@ != "trace_id"@) by { assert("services"@[0] != "trace_id"@[0]); }
    assert("span_count"@ != "trace_id"@) by { assert("span_count"@[0] != "trace_id"@[0]); }
    let e4 = e3.drop_first();
    assert(e4[0] == es[4]);
    assert(member(es, "trace_id"@) == member(e1, "trace_id"@));
    assert(member(e1, "trace_id"@) == member(e2, "trace_id"@));
    assert(member(e2, "trace_id"@) == member(e3, "trace_id"@));
    assert(member(e3, "trace_id"@) == member(e4, "trace_id"@));
    assert forall|i: int| 0 <= i < spans.len() && #[trigger] span_service(spans[i]) is Some
        implies items.contains(JsonV::Str(span_service(spans[i])->0)) by {
        let t = span_service(spans[i])->0;
        assert(services_of(spans).contains(t));
        assert(su.contains(t));
        let k = choose|k: int| 0 <= k < su.len() && su[k] == t;
        assert(items[k] == JsonV::Str(t));
    }
    assert forall|k: int| 0 <= k < items.len() implies (#[trigger] items[k] matches JsonV::Str(t)
        && exists|i: int| 0 <= i < spans.len() && #[trigger] span_service(spans[i]) == Some(t)) by {
        assert(items[k] == JsonV::Str(su[k]));
        assert(su.contains(su[k]));
        assert(services_of(spans).contains(su[k]));
    }
}

/// The services listed in a trace summary are in increasing order, each
/// appears once, and they are exactly the services that occur.
pub proof fn lemma_sorted_unique(s: Seq<Seq<char>>)
    ensures
        strictly_increasing(sorted_unique(s)),
        forall|i: int, j: int| 0 <= i < j < sorted_unique(s).len() ==> sorted_unique(s)[i] != sorted_unique(s)[j],
        forall|y: Seq<char>| #[trigger] sorted_unique(s).contains(y) <==> s.contains(y),
    decreases s.len(),
{
    if s.len() > 0 {
        lemma_sorted_unique(s.drop_last());
        lemma_insert_sorted(sorted_unique(s.drop_last()), s.last());
        assert forall|y: Seq<char>| #[trigger] sorted_unique(s).contains(y) <==> s.contains(y) by {
            if s.drop_last().contains(y) {
                let k = choose|k: int| 0 <= k < s.drop_last().len() && s.drop_last()[k] == y;
                assert(s[k] == y);
            }
            if s.contains(y) && y != s.last() {
                let k = choose|k: int| 0 <= k < s.len() && s[k] == y;
                assert(s.drop_last()[k] == y);
            }
        }
    }
    let r = sorted_unique(s);
    assert forall|i: int, j: int| 0 <= i < j < r.len() implies r[i] != r[j] by {
        lemma_text_lt_irreflexive(r[i]);
    }
}

} // verus!
