//! The commands: their arguments, the requests they send, and how their
//! answers are shown. Shared request builders live here.

use vstd::prelude::*;
use crate::json::{entry, jv_entries, jv_items, lemma_jv_entries, Json, JsonV};
use crate::text::{append_text, chars_of, decimal, push_char, text_of, trim, trimmed};
use crate::output::{Format, Printed, PrintedV, printed_view};
use crate::error::{error_text, DdError};
use crate::time::{flags_readable, now_ok, opt_text, range_epochs, range_of, resolve_range_at, resolve_range_epoch_at, Instant, TimeRange};

verus! {

/// How a request is sent.
#[derive(Clone, Copy, Debug)]
pub enum Method {
    Get,
    Post,
}

/// One request to the Datadog API: method, path below the base URL, query
/// parameters (GET) and JSON body (POST).
pub struct Request {
    pub method: Method,
    pub path: String,
    pub params: Vec<(String, String)>,
    pub body: Option<Json>,
}

/// The mathematical value of a `Request`: (is POST, path, parameters, body).
pub type RequestV = (bool, Seq<char>, Seq<(Seq<char>, Seq<char>)>, Option<JsonV>);

/// The views of query parameters.
pub open spec fn params_view(p: Seq<(String, String)>) -> Seq<(Seq<char>, Seq<char>)> {
    Seq::new(p.len(), |i: int| (p[i].0@, p[i].1@))
}

/// The view of a request.
pub open spec fn request_view(r: Request) -> RequestV {
    (
        r.method is Post,
        r.path@,
        params_view(r.params@),
        match r.body { Some(b) => Some(b@), None => None },
    )
}

/// A GET request.
pub open spec fn get_v(path: Seq<char>, params: Seq<(Seq<char>, Seq<char>)>) -> RequestV {
    (false, path, params, None)
}

/// A POST request.
pub open spec fn post_v(path: Seq<char>, body: JsonV) -> RequestV {
    (true, path, seq![], Some(body))
}

/// A line for standard error: info or warning.
pub enum Note {
    Info(String),
    Warn(String),
}

/// The view of a note: (is a warning, text).
pub open spec fn note_view(n: Note) -> (bool, Seq<char>) {
    match n {
        Note::Info(t) => (false, t@),
        Note::Warn(t) => (true, t@),
    }
}

/// The views of notes.
pub open spec fn notes_view(n: Seq<Note>) -> Seq<(bool, Seq<char>)> {
    Seq::new(n.len(), |i: int| note_view(n[i]))
}

/// An info note.
pub open spec fn info_v(t: Seq<char>) -> (bool, Seq<char>) {
    (false, t)
}

/// A warning note.
pub open spec fn warn_v(t: Seq<char>) -> (bool, Seq<char>) {
    (true, t)
}

/// How the answer of a command is shown.
pub enum Show {
    /// Rows of a list response on `columns`; the row count is reported as `label`.
    List { columns: Vec<&'static str>, label: Option<&'static str> },
    /// A single object on `columns`.
    Object { columns: Vec<&'static str> },
    /// The array under `key` (an empty array when absent) as a list.
    Member { key: &'static str, columns: Vec<&'static str>, count_label: &'static str },
    /// A log page: a list, then the cursor to the next page when there is one.
    LogPage { columns: Vec<&'static str> },
    /// Span count, services and errors of one trace.
    TraceSummary { trace_id: String },
    /// Two traces side by side (two requests).
    TraceCompare { trace_a: String, trace_b: String },
    /// Metric series (the JSON and table forms hold floating-point statistics).
    Series,
}

/// The plan of a command: lines for standard error, the requests to send, and
/// how the answers are shown.
pub struct Plan {
    pub notes: Vec<Note>,
    pub requests: Vec<Request>,
    pub format: Format,
    pub show: Show,
}

/// The views of a plan's requests.
pub open spec fn requests_view(r: Seq<Request>) -> Seq<RequestV> {
    Seq::new(r.len(), |i: int| request_view(r[i]))
}

/// The views of column lists.
pub open spec fn columns_view(c: Seq<&'static str>) -> Seq<Seq<char>> {
    Seq::new(c.len(), |i: int| c[i]@)
}

/// The mathematical value of a `Show`.
pub enum ShowV {
    List { columns: Seq<Seq<char>>, label: Option<Seq<char>> },
    Object { columns: Seq<Seq<char>> },
    Member { key: Seq<char>, columns: Seq<Seq<char>>, count_label: Seq<char> },
    LogPage { columns: Seq<Seq<char>> },
    TraceSummary { trace_id: Seq<char> },
    TraceCompare { trace_a: Seq<char>, trace_b: Seq<char> },
    Series,
}

/// The view of a `Show`.
pub open spec fn show_view(s: Show) -> ShowV {
    match s {
        Show::List { columns, label } => ShowV::List {
            columns: columns_view(columns@),
            label: match label { Some(l) => Some(l@), None => None },
        },
        Show::Object { columns } => ShowV::Object { columns: columns_view(columns@) },
        Show::Member { key, columns, count_label } => ShowV::Member { key: key@, columns: columns_view(columns@), count_label: count_label@ },
        Show::LogPage { columns } => ShowV::LogPage { columns: columns_view(columns@) },
        Show::TraceSummary { trace_id } => ShowV::TraceSummary { trace_id: trace_id@ },
        Show::TraceCompare { trace_a, trace_b } => ShowV::TraceCompare { trace_a: trace_a@, trace_b: trace_b@ },
        Show::Series => ShowV::Series,
    }
}

/// The mathematical value of a `Plan`.
pub struct PlanV {
    pub notes: Seq<(bool, Seq<char>)>,
    pub requests: Seq<RequestV>,
    pub format: Format,
    pub show: ShowV,
}

/// The view of a plan.
pub open spec fn plan_view(p: Plan) -> PlanV {
    PlanV { notes: notes_view(p.notes@), requests: requests_view(p.requests@), format: p.format, show: show_view(p.show) }
}

/// A planned command by its view; an error by its text.
pub open spec fn plan_result(r: Result<Plan, DdError>) -> Result<PlanV, Seq<char>> {
    match r {
        Ok(p) => Ok(plan_view(p)),
        Err(e) => Err(error_text(e)),
    }
}

/// A plan of one request shown as `show`, after the notes `notes`.
pub open spec fn single(notes: Seq<(bool, Seq<char>)>, request: RequestV, format: Format, show: ShowV) -> PlanV {
    PlanV { notes, requests: seq![request], format, show }
}

/// Builds a plan of one request.
pub fn one_request(notes: Vec<Note>, request: Request, format: Format, show: Show) -> (r: Plan)
    ensures
        plan_view(r) == single(notes_view(notes@), request_view(request), format, show_view(show)),
{
    let ghost rv = request_view(request);
    let mut requests: Vec<Request> = Vec::new();
    requests.push(request);
    assert(requests_view(requests@) =~= seq![rv]);
    Plan { notes, requests, format, show }
}

/// A GET request with the given parameters.
pub fn get_request(path: String, params: Vec<(String, String)>) -> (r: Request)
    ensures
        request_view(r) == get_v(path@, params_view(params@)),
{
    Request { method: Method::Get, path, params, body: None }
}

/// A POST request with a JSON body.
pub fn post_request(path: &str, body: Json) -> (r: Request)
    ensures
        request_view(r) == post_v(path@, body@),
{
    let params: Vec<(String, String)> = Vec::new();
    assert(params_view(params@) =~= seq![]);
    Request { method: Method::Post, path: text_of(path), params, body: Some(body) }
}

/// A query parameter.
pub fn param(key: &str, value: &str) -> (r: (String, String))
    ensures
        r.0@ == key@,
        r.1@ == value@,
{
    (text_of(key), text_of(value))
}

/// Appends a query parameter, keeping the views of the earlier ones.
pub fn push_param(params: &mut Vec<(String, String)>, key: &str, value: &str)
    ensures
        params_view(final(params)@) == params_view(old(params)@).push((key@, value@)),
{
    params.push(param(key, value));
    assert(params_view(final(params)@) =~= params_view(old(params)@).push((key@, value@)));
}

/// A single info note.
pub fn info_note(msg: &str) -> (r: Vec<Note>)
    ensures
        notes_view(r@) == seq![info_v(crate::log::info_text(msg@))],
{
    let mut v: Vec<Note> = Vec::new();
    v.push(Note::Info(crate::log::info(msg)));
    assert(notes_view(v@) =~= seq![info_v(crate::log::info_text(msg@))]);
    v
}

/// The window of `--from`/`--to` under a cap, or its validation error.
pub fn range_at(from: &str, to: &Option<String>, cap: u32, now_from: Instant, now_to: Instant) -> (r: Result<TimeRange, DdError>)
    requires
        flags_readable(from@, *to),
        now_ok(now_from),
        now_ok(now_to),
    ensures
        match r {
            Ok(tr) => range_of(from@, opt_text(*to), cap, now_from, now_to)
                == Ok::<(Seq<char>, Seq<char>, int), Seq<char>>((tr.from@, tr.to@, tr.duration_secs as int)),
            Err(e) => e is Validation && range_of(from@, opt_text(*to), cap, now_from, now_to)
                == Err::<(Seq<char>, Seq<char>, int), Seq<char>>(error_text(e)),
        },
{
    match resolve_range_at(from, to, cap, now_from, now_to) {
        Ok(tr) => Ok(tr),
        Err(e) => Err(DdError::Validation(e)),
    }
}

/// The window of `--from`/`--to` under a cap in epoch seconds, or its validation error.
pub fn epoch_range_at(from: &str, to: &Option<String>, cap: u32, now_from: Instant, now_to: Instant) -> (r: Result<(i64, i64), DdError>)
    requires
        flags_readable(from@, *to),
        now_ok(now_from),
        now_ok(now_to),
    ensures
        match r {
            Ok(v) => range_epochs(range_of(from@, opt_text(*to), cap, now_from, now_to)) == Ok::<(i64, i64), Seq<char>>(v)
                && -10_000_000_000_000 <= v.0 <= v.1 <= 10_000_000_000_000,
            Err(e) => e is Validation && range_epochs(range_of(from@, opt_text(*to), cap, now_from, now_to))
                == Err::<(i64, i64), Seq<char>>(error_text(e)),
        },
{
    match resolve_range_epoch_at(from, to, cap, now_from, now_to) {
        Ok(v) => Ok(v),
        Err(e) => Err(DdError::Validation(e)),
    }
}

/// An optional owned string as an optional slice.
pub fn opt_as_str(o: &Option<String>) -> (r: Option<&str>)
    ensures
        opt_str(r) == opt_text(*o),
{
    match o {
        Some(s) => Some(s.as_str()),
        None => None,
    }
}

/// The validation error for a rejected input.
pub open spec fn invalid(msg: Seq<char>) -> Result<PlanV, Seq<char>> {
    Err(msg)
}

/// `s` with every double quote preceded by a backslash.
pub open spec fn escape_quotes(s: Seq<char>) -> Seq<char>
    decreases s.len(),
{
    if s.len() == 0 {
        seq![]
    } else {
        escape_quotes(s.drop_last()) + if s.last() == '"' { seq!['\\', '"'] } else { seq![s.last()] }
    }
}

/// The span query that selects one trace: `@trace_id:"<id>"`, quotes in the id escaped.
pub open spec fn trace_query(id: Seq<char>) -> Seq<char> {
    "@trace_id:\""@ + escape_quotes(id) + "\""@
}

/// The span query that selects the trace `trace_id`.
pub fn trace_id_query(trace_id: &str) -> (r: String)
    ensures
        r@ == trace_query(trace_id@),
{
    let cs = chars_of(trace_id);
    let mut out = text_of("@trace_id:\"");
    let ghost start = out@;
    let mut i: usize = 0;
    while i < cs.len()
        invariant
            cs@ == trace_id@,
            i <= cs@.len(),
            out@ == start + escape_quotes(cs@.take(i as int)),
        decreases cs@.len() - i,
    {
        assert(cs@.take(i + 1).drop_last() =~= cs@.take(i as int));
        if cs[i] == '"' {
            push_char(&mut out, '\\');
            push_char(&mut out, '"');
        } else {
            push_char(&mut out, cs[i]);
        }
        i = i + 1;
        assert(out@ =~= start + escape_quotes(cs@.take(i as int)));
    }
    assert(cs@.take(i as int) =~= trace_id@);
    append_text(&mut out, "\"");
    out
}

/// The message for a blank required value.
pub open spec fn empty_message(label: Seq<char>) -> Seq<char> {
    label + " must not be empty."@
}

/// Rejects a value that is empty once trimmed.
pub fn require_non_empty(label: &str, value: &str) -> (r: Result<(), String>)
    ensures
        r is Ok <==> trim(value@).len() > 0,
        r matches Err(e) ==> e@ == empty_message(label@),
{
    let cs = chars_of(value);
    let t = trimmed(&cs);
    if t.len() == 0 {
        let mut msg = text_of(label);
        append_text(&mut msg, " must not be empty.");
        return Err(msg);
    }
    Ok(())
}

/// A facet or measure name with the '@' prefix that attributes take.
pub open spec fn at_prefixed(s: Seq<char>) -> Seq<char> {
    if s.len() > 0 && s[0] == '@' { s } else { seq!['@'] + s }
}

fn at_prefix(s: &str) -> (r: String)
    ensures
        r@ == at_prefixed(s@),
{
    let cs = chars_of(s);
    if cs.len() > 0 && cs[0] == '@' {
        text_of(s)
    } else {
        let mut out = String::new();
        push_char(&mut out, '@');
        append_text(&mut out, s);
        assert(out@ =~= seq!['@'] + s@);
        out
    }
}

/// A facet name as the API expects it, with a leading '@'.
pub fn normalize_facet(field: &str) -> (r: String)
    ensures
        r@ == at_prefixed(field@),
{
    at_prefix(field)
}

/// A metric name as the API expects it, with a leading '@'.
pub fn normalize_metric(metric: &str) -> (r: String)
    ensures
        r@ == at_prefixed(metric@),
{
    at_prefix(metric)
}

/// A JSON string value.
pub open spec fn str_v(s: Seq<char>) -> JsonV {
    JsonV::Str(s)
}

/// A JSON number value.
pub open spec fn num_v(n: nat) -> JsonV {
    JsonV::Number(decimal(n))
}

/// The optional member `key: value`.
pub open spec fn opt_member(key: Seq<char>, value: Option<Seq<char>>) -> Seq<(Seq<char>, JsonV)> {
    match value {
        Some(v) => seq![(key, str_v(v))],
        None => seq![],
    }
}

/// The view of an optional string slice.
pub open spec fn opt_str(o: Option<&str>) -> Option<Seq<char>> {
    match o {
        Some(s) => Some(s@),
        None => None,
    }
}

/// JSON strings of the given texts, in order.
pub open spec fn strs_v(s: Seq<String>) -> Seq<JsonV> {
    Seq::new(s.len(), |i: int| str_v(s[i]@))
}

/// A JSON array of the given strings, in order.
pub fn text_array(items: &Vec<String>) -> (r: Json)
    ensures
        r@ == JsonV::Array(strs_v(items@)),
{
    let mut out: Vec<Json> = Vec::new();
    let mut i: usize = 0;
    while i < items.len()
        invariant
            i <= items@.len(),
            jv_items(out@) == strs_v(items@.take(i as int)),
        decreases items@.len() - i,
    {
        let j = Json::text(items[i].as_str());
        proof { crate::json::lemma_jv_items_push(out@, j); }
        out.push(j);
        i = i + 1;
        assert(jv_items(out@) =~= strs_v(items@.take(i as int)));
    }
    assert(items@.take(i as int) =~= items@);
    Json::array(out)
}

/// A warning note.
pub fn warn_note(msg: &str) -> (r: Note)
    ensures
        note_view(r) == warn_v(crate::log::warn_text(msg@)),
{
    Note::Warn(crate::log::warn(msg))
}

/// An object from members given in key order.
fn object_in_order(members: Vec<(String, Json)>) -> (r: Json)
    ensures
        r@ == JsonV::Object(jv_entries(members@)),
{
    Json::Object(members)
}

proof fn lemma_members(m: Seq<(String, Json)>, es: Seq<(Seq<char>, JsonV)>)
    requires
        m.len() == es.len(),
        forall|i: int| 0 <= i < m.len() ==> (m[i].0@, m[i].1@) == #[trigger] es[i],
    ensures
        jv_entries(m) == es,
{
    lemma_jv_entries(m);
    assert(jv_entries(m) =~= es);
}

/// Sort by a measure, descending.
pub open spec fn measure_sort_v(aggregation: Seq<char>, metric: Option<Seq<char>>) -> JsonV {
    JsonV::Object(seq![("aggregation"@, str_v(aggregation))] + opt_member("metric"@, metric)
        + seq![("order"@, str_v("desc"@)), ("type"@, str_v("measure"@))])
}

/// A group-by sort on a measure, descending.
pub fn measure_sort(aggregation: &str, metric: Option<&str>) -> (r: Json)
    ensures
        r@ == measure_sort_v(aggregation@, opt_str(metric)),
{
    let mut m: Vec<(String, Json)> = Vec::new();
    m.push(entry("aggregation", Json::text(aggregation)));
    if let Some(mt) = metric {
        m.push(entry("metric", Json::text(mt)));
    }
    m.push(entry("order", Json::text("desc")));
    m.push(entry("type", Json::text("measure")));
    proof { lemma_members(m@, measure_sort_v(aggregation@, opt_str(metric))->Object_0); }
    object_in_order(m)
}

/// One computed aggregate.
pub open spec fn compute_v(aggregation: Seq<char>, metric: Option<Seq<char>>) -> JsonV {
    JsonV::Object(seq![("aggregation"@, str_v(aggregation))] + opt_member("metric"@, metric))
}

/// One computed aggregate, on `metric` when given.
pub fn aggregate_compute(aggregation: &str, metric: Option<&str>) -> (r: Json)
    ensures
        r@ == compute_v(aggregation@, opt_str(metric)),
{
    let mut m: Vec<(String, Json)> = Vec::new();
    m.push(entry("aggregation", Json::text(aggregation)));
    if let Some(mt) = metric {
        m.push(entry("metric", Json::text(mt)));
    }
    proof { lemma_members(m@, compute_v(aggregation@, opt_str(metric))->Object_0); }
    object_in_order(m)
}

/// A group-by on a facet.
pub open spec fn facet_group_v(field: Seq<char>, limit: u32, sort: JsonV) -> JsonV {
    JsonV::Object(seq![
        ("facet"@, str_v(at_prefixed(field))),
        ("limit"@, num_v(limit as nat)),
        ("sort"@, sort),
    ])
}

/// A group-by on `field` keeping `limit` groups ordered by `sort`.
pub fn facet_group(field: &str, limit: u32, sort: Json) -> (r: Json)
    ensures
        r@ == facet_group_v(field@, limit, sort@),
{
    let mut m: Vec<(String, Json)> = Vec::new();
    let f = normalize_facet(field);
    m.push(entry("facet", Json::text(f.as_str())));
    m.push(entry("limit", Json::uint(limit as u64)));
    m.push(entry("sort", sort));
    proof { lemma_members(m@, facet_group_v(field@, limit, sort@)->Object_0); }
    object_in_order(m)
}

/// The time-and-query filter of a search.
pub open spec fn filter_v(query: Seq<char>, from: Seq<char>, to: Seq<char>) -> JsonV {
    JsonV::Object(seq![("from"@, str_v(from)), ("query"@, str_v(query)), ("to"@, str_v(to))])
}

fn filter_object(query: &str, from: &str, to: &str) -> (r: Json)
    ensures
        r@ == filter_v(query@, from@, to@),
{
    let mut m: Vec<(String, Json)> = Vec::new();
    m.push(entry("from", Json::text(from)));
    m.push(entry("query", Json::text(query)));
    m.push(entry("to", Json::text(to)));
    proof { lemma_members(m@, filter_v(query@, from@, to@)->Object_0); }
    object_in_order(m)
}

/// The paging of a search: the cursor when given, and the page size.
pub open spec fn page_v(limit: u32, cursor: Option<Seq<char>>) -> JsonV {
    JsonV::Object(opt_member("cursor"@, cursor) + seq![("limit"@, num_v(limit as nat))])
}

fn page_object(limit: u32, cursor: Option<&str>) -> (r: Json)
    ensures
        r@ == page_v(limit, opt_str(cursor)),
{
    let mut m: Vec<(String, Json)> = Vec::new();
    if let Some(c) = cursor {
        m.push(entry("cursor", Json::text(c)));
    }
    m.push(entry("limit", Json::uint(limit as u64)));
    proof { lemma_members(m@, page_v(limit, opt_str(cursor))->Object_0); }
    object_in_order(m)
}

/// The body of a span/RUM search: a `search_request` envelope.
pub open spec fn search_body_v(
    query: Seq<char>,
    from: Seq<char>,
    to: Seq<char>,
    limit: u32,
    sort: Option<Seq<char>>,
    cursor: Option<Seq<char>>,
) -> JsonV {
    JsonV::Object(seq![("data"@, JsonV::Object(seq![
        ("attributes"@, JsonV::Object(seq![
            ("filter"@, filter_v(query, from, to)),
            ("page"@, page_v(limit, cursor)),
        ] + opt_member("sort"@, sort))),
        ("type"@, str_v("search_request"@)),
    ]))])
}

/// The body of a span search.
pub fn search_request_body(
    query: &str,
    from: &str,
    to: &str,
    limit: u32,
    sort: Option<&str>,
    cursor: Option<&str>,
) -> (r: Json)
    ensures
        r@ == search_body_v(query@, from@, to@, limit, opt_str(sort), opt_str(cursor)),
{
    let mut attrs: Vec<(String, Json)> = Vec::new();
    attrs.push(entry("filter", filter_object(query, from, to)));
    attrs.push(entry("page", page_object(limit, cursor)));
    if let Some(s) = sort {
        attrs.push(entry("sort", Json::text(s)));
    }
    let ghost target = search_body_v(query@, from@, to@, limit, opt_str(sort), opt_str(cursor));
    let ghost data_v = target->Object_0[0].1;
    proof { lemma_members(attrs@, data_v->Object_0[0].1->Object_0); }
    let attributes = object_in_order(attrs);
    let mut data: Vec<(String, Json)> = Vec::new();
    data.push(entry("attributes", attributes));
    data.push(entry("type", Json::text("search_request")));
    proof { lemma_members(data@, data_v->Object_0); }
    let data_obj = object_in_order(data);
    let mut top: Vec<(String, Json)> = Vec::new();
    top.push(entry("data", data_obj));
    proof { lemma_members(top@, target->Object_0); }
    object_in_order(top)
}

/// The body of an event search.
pub open spec fn event_body_v(query: Seq<char>, from: Seq<char>, to: Seq<char>, limit: u32, cursor: Option<Seq<char>>) -> JsonV {
    JsonV::Object(seq![("filter"@, filter_v(query, from, to)), ("page"@, page_v(limit, cursor))])
}

/// The body of an event search.
pub fn event_search_body(query: &str, from: &str, to: &str, limit: u32, cursor: Option<&str>) -> (r: Json)
    ensures
        r@ == event_body_v(query@, from@, to@, limit, opt_str(cursor)),
{
    let mut m: Vec<(String, Json)> = Vec::new();
    m.push(entry("filter", filter_object(query, from, to)));
    m.push(entry("page", page_object(limit, cursor)));
    proof { lemma_members(m@, event_body_v(query@, from@, to@, limit, opt_str(cursor))->Object_0); }
    object_in_order(m)
}

/// The body of an analytics aggregation: an `aggregate_request` envelope.
pub open spec fn aggregate_body_v(
    query: Seq<char>,
    from: Seq<char>,
    to: Seq<char>,
    compute: Seq<JsonV>,
    group_by: Seq<JsonV>,
) -> JsonV {
    JsonV::Object(seq![("data"@, JsonV::Object(seq![
        ("attributes"@, JsonV::Object(seq![
            ("compute"@, JsonV::Array(compute)),
            ("filter"@, filter_v(query, from, to)),
            ("group_by"@, JsonV::Array(group_by)),
        ])),
        ("type"@, str_v("aggregate_request"@)),
    ]))])
}

/// The body of a span aggregation.
pub fn aggregate_request_body(
    query: &str,
    from: &str,
    to: &str,
    compute: Vec<Json>,
    group_by: Vec<Json>,
) -> (r: Json)
    ensures
        r@ == aggregate_body_v(query@, from@, to@, jv_items(compute@), jv_items(group_by@)),
{
    let ghost target = aggregate_body_v(query@, from@, to@, jv_items(compute@), jv_items(group_by@));
    let ghost data_v = target->Object_0[0].1;
    let mut attrs: Vec<(String, Json)> = Vec::new();
    attrs.push(entry("compute", Json::array(compute)));
    attrs.push(entry("filter", filter_object(query, from, to)));
    attrs.push(entry("group_by", Json::array(group_by)));
    proof { lemma_members(attrs@, data_v->Object_0[0].1->Object_0); }
    let attributes = object_in_order(attrs);
    let mut data: Vec<(String, Json)> = Vec::new();
    data.push(entry("attributes", attributes));
    data.push(entry("type", Json::text("aggregate_request")));
    proof { lemma_members(data@, data_v->Object_0); }
    let data_obj = object_in_order(data);
    let mut top: Vec<(String, Json)> = Vec::new();
    top.push(entry("data", data_obj));
    proof { lemma_members(top@, target->Object_0); }
    object_in_order(top)
}

} // verus!

pub mod apm;
pub mod command_line;
pub mod dashboards;
pub mod downtimes;
pub mod events;
pub mod hosts;
pub mod incidents;
pub mod logs;
pub mod metrics;
pub mod monitors;
pub mod notebooks;
pub mod services;
pub mod show;
pub mod slos;
pub mod spans;
pub mod synthetics;
pub mod traces;
