//! What the commands print: response rows located and projected onto curated
//! columns under a token budget, table cells, and the choice between them.

use vstd::prelude::*;
use crate::json::{
    insert_member, json_get, json_text, jv, jv_entries, jv_items, lemma_jv_items, member, with_member, Json, JsonV,
};
use crate::text::{append_text, chars_of, decimal, parse_u64, parse_u64_spec, push_decimal, string_of, text_of};
use vstd::string::StringSliceAdditionalSpecFns;

verus! {

/// Output format of a command.
#[derive(Clone, Copy, Debug)]
pub enum Format {
    /// Curated columns per row, compact JSON
    Json,
    /// Human-readable table
    Table,
    /// Raw API response, compact JSON
    Full,
}

impl Default for Format {
    fn default() -> (r: Format)
        ensures
            r == Format::Json,
    {
        Format::Json
    }
}

/// The token budget for projected JSON output: set once, later settings ignored.
pub struct TokenBudget {
    pub setting: Option<usize>,
}

impl TokenBudget {
    /// A budget that has not been set (and so is 0, unlimited).
    pub fn new() -> (r: TokenBudget)
        ensures
            r.setting is None,
    {
        TokenBudget { setting: None }
    }
}

/// The setting after asking for `budget`: the first setting stays.
pub open spec fn after_setting(setting: Option<usize>, budget: usize) -> Option<usize> {
    match setting {
        Some(b) => Some(b),
        None => Some(budget),
    }
}

/// Token budget for projected JSON output. 0 disables it. Effective only on the first call.
pub fn set_max_tokens(cell: &mut TokenBudget, budget: usize)
    ensures
        final(cell).setting == after_setting(old(cell).setting, budget),
{
    if cell.setting.is_none() {
        cell.setting = Some(budget);
    }
}

/// The budget in effect: the first setting, 0 when never set.
pub open spec fn budget_of(cell: TokenBudget) -> usize {
    match cell.setting {
        Some(b) => b,
        None => 0,
    }
}

/// The token budget in effect (0 = unlimited).
pub fn max_tokens(cell: &TokenBudget) -> (r: usize)
    ensures
        r == budget_of(*cell),
{
    match cell.setting {
        Some(b) => b,
        None => 0,
    }
}

/// The segments of a dotted path (`str::split('.')`): always at least one,
/// empty segments kept.
pub open spec fn split_dots(s: Seq<char>) -> Seq<Seq<char>>
    decreases s.len(),
{
    if s.len() == 0 {
        seq![seq![]]
    } else {
        let rest = split_dots(s.drop_last());
        if s.last() == '.' {
            rest.push(seq![])
        } else {
            rest.update(rest.len() - 1, rest.last().push(s.last()))
        }
    }
}

proof fn lemma_split_nonempty(s: Seq<char>)
    ensures
        split_dots(s).len() >= 1,
    decreases s.len(),
{
    if s.len() > 0 {
        lemma_split_nonempty(s.drop_last());
    }
}

/// The views of a vector of strings.
pub open spec fn texts(v: Seq<String>) -> Seq<Seq<char>> {
    Seq::new(v.len(), |i: int| v[i]@)
}

/// The segments of a dotted path.
pub fn split_path(path: &str) -> (r: Vec<String>)
    ensures
        texts(r@) == split_dots(path@),
        r@.len() >= 1,
{
    let cs = chars_of(path);
    let mut done: Vec<String> = Vec::new();
    let mut cur: Vec<char> = Vec::new();
    let mut i: usize = 0;
    while i < cs.len()
        invariant
            cs@ == path@,
            i <= cs@.len(),
            texts(done@).push(cur@) == split_dots(cs@.take(i as int)),
        decreases cs@.len() - i,
    {
        let ghost before = split_dots(cs@.take(i as int));
        proof { lemma_split_nonempty(cs@.take(i as int)); }
        assert(cs@.take(i + 1).drop_last() =~= cs@.take(i as int));
        assert(cs@.take(i + 1).last() == cs@[i as int]);
        if cs[i] == '.' {
            let seg = string_of(cur.as_slice());
            done.push(seg);
            cur = Vec::new();
            assert(texts(done@).push(cur@) =~= before.push(seq![]));
        } else {
            cur.push(cs[i]);
            assert(texts(done@).push(cur@) =~= before.update(before.len() - 1, before.last().push(cs@[i as int])));
        }
        i = i + 1;
    }
    assert(cs@.take(i as int) =~= path@);
    let seg = string_of(cur.as_slice());
    done.push(seg);
    assert(texts(done@) =~= split_dots(path@));
    done
}

/// The last segment of a dotted path.
pub open spec fn last_segment_of(path: Seq<char>) -> Seq<char> {
    split_dots(path).last()
}

/// The last segment of a dotted path (`rsplit('.').next()`).
pub fn last_segment(path: &str) -> (r: String)
    ensures
        r@ == last_segment_of(path@),
{
    let mut segs = split_path(path);
    let n = segs.len();
    let r = segs.remove(n - 1);
    assert(r@ == texts(segs@.push(r)).last());
    r
}

/// The value at `segs` below `v`: object members by name, array elements by
/// decimal index, null where a step is missing or `v` is neither.
pub open spec fn resolve_segments(v: JsonV, segs: Seq<Seq<char>>) -> JsonV
    decreases segs.len(),
{
    if segs.len() == 0 {
        v
    } else {
        match v {
            JsonV::Object(es) => resolve_segments(
                match member(es, segs[0]) { Some(x) => x, None => JsonV::Null },
                segs.drop_first(),
            ),
            JsonV::Array(items) => resolve_segments(
                match parse_u64_spec(segs[0]) {
                    Some(i) => if (i as int) < items.len() { items[i as int] } else { JsonV::Null },
                    None => JsonV::Null,
                },
                segs.drop_first(),
            ),
            _ => JsonV::Null,
        }
    }
}

/// The value at a dotted path below `v`.
pub open spec fn resolve(v: JsonV, path: Seq<char>) -> JsonV {
    resolve_segments(v, split_dots(path))
}

/// The value at the dotted `path` below `value` ("a.b.0.c"), null when absent.
pub fn resolve_path(value: &Json, path: &str) -> (r: Json)
    ensures
        r@ == resolve(value@, path@),
{
    let segs = split_path(path);
    let null = Json::Null;
    let mut cur: &Json = value;
    let mut k: usize = 0;
    let ghost all = split_dots(path@);
    assert(resolve(value@, path@) == resolve_segments(value@, all));
    assert(all.skip(0) =~= all);
    while k < segs.len()
        invariant
            texts(segs@) == all,
            all == split_dots(path@),
            k <= segs@.len(),
            null@ == JsonV::Null,
            resolve_segments(value@, all) == resolve_segments(cur@, all.skip(k as int)),
        decreases segs@.len() - k,
    {
        let ghost rest = all.skip(k as int);
        assert(rest[0] == segs@[k as int]@);
        assert(rest.drop_first() =~= all.skip(k + 1));
        match cur {
            Json::Object(_) => {
                match cur.get(&segs[k]) {
                    Some(x) => { cur = x; },
                    None => { cur = &null; },
                }
            },
            Json::Array(items) => {
                proof { lemma_jv_items(items@); }
                let key = chars_of(segs[k].as_str());
                match parse_u64(&key) {
                    Some(i) => {
                        if i < items.len() as u64 {
                            cur = &items[i as usize];
                        } else {
                            cur = &null;
                        }
                    },
                    None => { cur = &null; },
                }
            },
            _ => {
                assert(!(cur@ is Object) && !(cur@ is Array));
                assert(rest.len() > 0);
                assert(resolve_segments(cur@, rest) == JsonV::Null);
                let r = Json::Null;
                assert(r@ == JsonV::Null);
                return r;
            },
        }
        k = k + 1;
    }
    assert(all.skip(k as int) =~= Seq::<Seq<char>>::empty());
    cur.deep_copy()
}

/// The views of a list of column paths.
pub open spec fn strs(columns: Seq<&str>) -> Seq<Seq<char>> {
    Seq::new(columns.len(), |i: int| columns[i]@)
}

/// How many columns end in the segment `short`.
pub open spec fn count_last(columns: Seq<Seq<char>>, short: Seq<char>) -> nat
    decreases columns.len(),
{
    if columns.len() == 0 {
        0
    } else {
        count_last(columns.drop_last(), short) + if last_segment_of(columns.last()) == short { 1nat } else { 0nat }
    }
}

/// JSON key of a column: its last path segment, or the full path when another
/// column of the list ends in the same segment.
pub open spec fn key_of_column(columns: Seq<Seq<char>>, column: Seq<char>) -> Seq<char> {
    let short = last_segment_of(column);
    if count_last(columns, short) > 1 { column } else { short }
}

/// JSON key for a column of `columns`.
pub fn column_key(columns: &[&str], column: &str) -> (r: String)
    ensures
        r@ == key_of_column(strs(columns@), column@),
{
    let short = last_segment(column);
    let ghost cols = strs(columns@);
    let mut n: usize = 0;
    let mut i: usize = 0;
    while i < columns.len()
        invariant
            cols == strs(columns@),
            i <= columns@.len(),
            n <= i,
            n == count_last(cols.take(i as int), short@),
        decreases columns@.len() - i,
    {
        assert(cols.take(i + 1).drop_last() =~= cols.take(i as int));
        assert(cols.take(i + 1).last() == columns@[i as int]@);
        let seg = last_segment(columns[i]);
        if seg == short {
            n = n + 1;
        }
        i = i + 1;
    }
    assert(cols.take(i as int) =~= cols);
    if n > 1 {
        text_of(column)
    } else {
        short
    }
}

/// Members of a row projected onto the first `upto` columns, each stored under
/// its column key.
pub open spec fn projected_members(row: JsonV, columns: Seq<Seq<char>>, upto: int) -> Seq<(Seq<char>, JsonV)>
    decreases upto,
{
    if upto <= 0 {
        seq![]
    } else {
        with_member(
            projected_members(row, columns, upto - 1),
            key_of_column(columns, columns[upto - 1]),
            resolve(row, columns[upto - 1]),
        )
    }
}

/// An object holding only `columns` resolved against `row`; unresolved columns are null.
pub open spec fn row_projection(row: JsonV, columns: Seq<Seq<char>>) -> JsonV {
    JsonV::Object(projected_members(row, columns, columns.len() as int))
}

/// Build an object holding only `columns`, resolved against `row`. Unresolved columns are null.
pub fn project_row(row: &Json, columns: &[&str]) -> (r: Json)
    ensures
        r@ == row_projection(row@, strs(columns@)),
{
    let ghost cols = strs(columns@);
    let mut members: Vec<(String, Json)> = Vec::new();
    let mut i: usize = 0;
    while i < columns.len()
        invariant
            cols == strs(columns@),
            i <= columns@.len(),
            jv_entries(members@) == projected_members(row@, cols, i as int),
        decreases columns@.len() - i,
    {
        let key = column_key(columns, columns[i]);
        let val = resolve_path(row, columns[i]);
        insert_member(&mut members, key, val);
        i = i + 1;
    }
    Json::Object(members)
}

/// Estimated tokens of a value: its compact JSON in UTF-8 bytes, three bytes a token, rounded up.
pub open spec fn token_estimate(v: JsonV) -> nat {
    let n = (vstd::utf8::encode_utf8(json_text(v)).len() as usize) as nat;
    n / 3 + if n % 3 == 0 { 0nat } else { 1nat }
}

/// Compact JSON tokenizes at roughly three bytes per token.
pub fn estimate_tokens(value: &Json) -> (r: usize)
    ensures
        r == token_estimate(value@),
{
    let t = value.to_text();
    let ts = t.as_str();
    assert(ts@ == json_text(value@));
    let n = ts.len();
    assert(ts.spec_bytes() == vstd::utf8::encode_utf8(ts@));
    n / 3 + if n % 3 == 0 { 0 } else { 1 }
}

/// The values of a sequence of `Json`.
pub open spec fn views(s: Seq<Json>) -> Seq<JsonV> {
    Seq::new(s.len(), |i: int| s[i]@)
}

/// Estimated tokens of the first `k` rows.
pub open spec fn prefix_tokens(rows: Seq<JsonV>, k: int) -> nat
    decreases k,
{
    if k <= 0 {
        0
    } else {
        prefix_tokens(rows, k - 1) + token_estimate(rows[k - 1])
    }
}

/// Keeping the first `k` rows obeys a non-zero budget: the first row is always
/// kept, every further kept row still fits, and the next row would not.
pub open spec fn budget_keeps(rows: Seq<JsonV>, budget: nat, k: nat) -> bool {
    &&& k <= rows.len()
    &&& (rows.len() > 0 ==> k >= 1)
    &&& (k >= 2 ==> prefix_tokens(rows, k as int) <= budget)
    &&& (k < rows.len() ==> prefix_tokens(rows, k + 1int) > budget)
}

/// How many leading rows a budget keeps (0 = unlimited).
pub open spec fn kept_count(rows: Seq<JsonV>, budget: nat) -> nat {
    if budget == 0 {
        rows.len()
    } else {
        choose|k: nat| budget_keeps(rows, budget, k)
    }
}

proof fn lemma_prefix_monotone(rows: Seq<JsonV>, a: int, b: int)
    requires
        a <= b,
    ensures
        prefix_tokens(rows, a) <= prefix_tokens(rows, b),
    decreases b - a,
{
    if a < b {
        lemma_prefix_monotone(rows, a, b - 1);
        if b > 0 {
            assert(prefix_tokens(rows, b) == prefix_tokens(rows, b - 1) + token_estimate(rows[b - 1]));
        }
    }
}

/// At most one cut obeys a budget.
pub proof fn lemma_budget_unique(rows: Seq<JsonV>, budget: nat, a: nat, b: nat)
    requires
        budget_keeps(rows, budget, a),
        budget_keeps(rows, budget, b),
    ensures
        a == b,
{
    if a < b {
        lemma_prefix_monotone(rows, a + 1int, b as int);
    } else if b < a {
        lemma_prefix_monotone(rows, b + 1int, a as int);
    }
}

/// Keep leading rows while their estimated tokens fit `budget` (0 = unlimited).
/// The first row is always kept. Returns the kept rows and the count before the cut.
pub fn apply_budget(rows: Vec<Json>, budget: usize) -> (r: (Vec<Json>, usize))
    ensures
        r.1 == rows@.len(),
        views(r.0@) == views(rows@).take(kept_count(views(rows@), budget as nat) as int),
        budget > 0 ==> budget_keeps(views(rows@), budget as nat, r.0@.len()),
{
    let total = rows.len();
    let ghost vs = views(rows@);
    if budget == 0 {
        assert(vs.take(vs.len() as int) =~= vs);
        return (rows, total);
    }
    let mut used: usize = 0;
    let mut kept: Vec<Json> = Vec::new();
    let mut i: usize = 0;
    let mut stop = false;
    while i < rows.len() && !stop
        invariant
            vs == views(rows@),
            budget > 0,
            i <= rows@.len(),
            kept@.len() == i,
            views(kept@) == vs.take(i as int),
            !stop ==> used == prefix_tokens(vs, i as int),
            stop ==> i < rows@.len() && i >= 1 && prefix_tokens(vs, i + 1) > budget,
            i >= 2 ==> prefix_tokens(vs, i as int) <= budget,
            i >= 1 ==> prefix_tokens(vs, 1) <= usize::MAX,
        decreases rows@.len() - i, if stop { 0int } else { 1int },
    {
        let e = estimate_tokens(&rows[i]);
        assert(prefix_tokens(vs, i + 1) == prefix_tokens(vs, i as int) + token_estimate(vs[i as int]));
        match used.checked_add(e) {
            None => {
                proof { lemma_prefix_monotone(vs, 1, i as int); }
                stop = true;
            },
            Some(u) => {
                if u > budget && i > 0 {
                    stop = true;
                } else {
                    used = u;
                    let c = rows[i].deep_copy();
                    kept.push(c);
                    i = i + 1;
                    assert(views(kept@) =~= vs.take(i as int));
                }
            },
        }
    }
    proof {
        assert(budget_keeps(vs, budget as nat, kept@.len()));
        lemma_budget_unique(vs, budget as nat, kept@.len(), choose|k: nat| budget_keeps(vs, budget as nat, k));
    }
    (kept, total)
}

/// The wrapper keys under which Datadog responses hold their rows, in the order tried.
pub open spec fn row_key(i: int) -> Seq<char> {
    if i == 0 { "data"@ } else if i == 1 { "logs"@ } else if i == 2 { "events"@ }
    else if i == 3 { "monitors"@ } else if i == 4 { "host_list"@ } else if i == 5 { "dashboards"@ }
    else if i == 6 { "incidents"@ } else if i == 7 { "notebooks"@ } else if i == 8 { "series"@ }
    else if i == 9 { "tests"@ } else if i == 10 { "results"@ } else { "slos"@ }
}

/// Number of row wrapper keys.
pub const ROW_KEY_COUNT: usize = 12;

/// The row wrapper key at position `i`.
pub fn row_key_text(i: usize) -> (r: &'static str)
    requires
        i < 12,
    ensures
        r@ == row_key(i as int),
{
    if i == 0 { "data" } else if i == 1 { "logs" } else if i == 2 { "events" }
    else if i == 3 { "monitors" } else if i == 4 { "host_list" } else if i == 5 { "dashboards" }
    else if i == 6 { "incidents" } else if i == 7 { "notebooks" } else if i == 8 { "series" }
    else if i == 9 { "tests" } else if i == 10 { "results" } else { "slos" }
}

/// The rows of a response from wrapper key `i` on: the first key whose member is
/// an array, else the response itself when it is an array.
pub open spec fn rows_from(v: JsonV, i: int) -> Option<(Option<int>, Seq<JsonV>)>
    decreases 12 - i,
{
    if i >= 12 {
        match v {
            JsonV::Array(items) => Some((None, items)),
            _ => None,
        }
    } else {
        match json_get(v, row_key(i)) {
            Some(JsonV::Array(items)) => Some((Some(i), items)),
            _ => rows_from(v, i + 1),
        }
    }
}

/// The row array of a response and the position of the wrapper key it sits under
/// (`None` for a bare array); objects are not unwrapped.
pub open spec fn rows_of(v: JsonV) -> Option<(Option<int>, Seq<JsonV>)> {
    rows_from(v, 0)
}

/// Locate the row array of a Datadog response: the wrapper key position and the rows.
pub fn find_rows(value: &Json) -> (r: Option<(Option<usize>, &Vec<Json>)>)
    ensures
        match r {
            Some((k, rows)) => rows_of(value@) == Some((
                match k { Some(i) => Some(i as int), None => None::<int> },
                jv_items(rows@),
            )) && (k matches Some(i) ==> i < 12),
            None => rows_of(value@) is None,
        },
{
    let mut i: usize = 0;
    while i < ROW_KEY_COUNT
        invariant
            i <= 12,
            rows_of(value@) == rows_from(value@, i as int),
        decreases 12 - i,
    {
        let key = text_of(row_key_text(i));
        match value.get(&key) {
            Some(Json::Array(items)) => {
                return Some((Some(i), items));
            },
            _ => {},
        }
        i = i + 1;
    }
    match value {
        Json::Array(items) => Some((None, items)),
        _ => None,
    }
}

/// The rows of a response, or the whole response as its single row.
pub open spec fn rows_or_self(v: JsonV) -> Seq<JsonV> {
    match rows_of(v) {
        Some(found) => found.1,
        None => seq![v],
    }
}

fn copy_all(items: &Vec<Json>) -> (r: Vec<Json>)
    ensures
        views(r@) == jv_items(items@),
{
    proof { lemma_jv_items(items@); }
    let mut out: Vec<Json> = Vec::new();
    let mut i: usize = 0;
    while i < items.len()
        invariant
            i <= items@.len(),
            jv_items(items@).len() == items@.len(),
            forall|j: int| 0 <= j < items@.len() ==> #[trigger] jv_items(items@)[j] == jv(items@[j]),
            out@.len() == i,
            views(out@) == jv_items(items@).take(i as int),
        decreases items@.len() - i,
    {
        let c = items[i].deep_copy();
        let ghost before = out@;
        out.push(c);
        i = i + 1;
        assert forall|j: int| 0 <= j < i implies #[trigger] views(out@)[j] == jv_items(items@).take(i as int)[j] by {
            if j < i - 1 {
                assert(out@[j] == before[j]);
                assert(views(before)[j] == jv_items(items@).take(i - 1)[j]);
            }
        }
        assert(views(out@) =~= jv_items(items@).take(i as int));
    }
    assert(jv_items(items@).take(i as int) =~= jv_items(items@));
    out
}

/// The rows of a response; non-standard shapes give the whole response as one row.
pub fn extract_rows(value: &Json) -> (r: Vec<Json>)
    ensures
        views(r@) == rows_or_self(value@),
{
    match find_rows(value) {
        Some((_, rows)) => copy_all(rows),
        None => {
            let mut out: Vec<Json> = Vec::new();
            out.push(value.deep_copy());
            assert(views(out@) =~= seq![value@]);
            out
        },
    }
}

/// Count the number of result rows in a Datadog API response.
pub fn count_rows(value: &Json) -> (r: usize)
    ensures
        r == rows_or_self(value@).len(),
{
    match find_rows(value) {
        Some((_, rows)) => {
            proof { lemma_jv_items(rows@); }
            rows.len()
        },
        None => 1,
    }
}

/// Row projections of `rows`.
pub open spec fn projected_rows(rows: Seq<JsonV>, columns: Seq<Seq<char>>) -> Seq<JsonV> {
    Seq::new(rows.len(), |i: int| row_projection(rows[i], columns))
}

/// Members of the projected body: the rows under their wrapper key, plus the
/// response's `meta` and `metadata` when present.
pub open spec fn wrapped_members(v: JsonV, key: Seq<char>, rows: Seq<JsonV>) -> Seq<(Seq<char>, JsonV)> {
    let base = with_member(seq![], key, JsonV::Array(rows));
    let with_meta = match json_get(v, "meta"@) {
        Some(m) => with_member(base, "meta"@, m),
        None => base,
    };
    match json_get(v, "metadata"@) {
        Some(m) => with_member(with_meta, "metadata"@, m),
        None => with_meta,
    }
}

/// Projected view of a response: (body, rows shown, rows in the response).
pub open spec fn projection(v: JsonV, columns: Seq<Seq<char>>, budget: nat) -> (JsonV, nat, nat) {
    match rows_of(v) {
        None => (row_projection(v, columns), 1, 1),
        Some(found) => {
            let all = projected_rows(found.1, columns);
            let k = kept_count(all, budget);
            let kept = all.take(k as int);
            let body = match found.0 {
                None => JsonV::Array(kept),
                Some(i) => JsonV::Object(wrapped_members(v, row_key(i), kept)),
            };
            (body, k, found.1.len())
        },
    }
}

/// Projected view of a list response: rows reduced to `columns`, under the
/// wrapper key of the response, with paging metadata preserved. Responses without a
/// row array are projected as a single object.
pub fn project(value: &Json, columns: &[&str], budget: usize) -> (r: (Json, usize, usize))
    ensures
        (r.0@, r.1 as nat, r.2 as nat) == projection(value@, strs(columns@), budget as nat),
{
    let found = find_rows(value);
    match found {
        None => (project_row(value, columns), 1, 1),
        Some((wrapper, rows)) => {
            proof { lemma_jv_items(rows@); }
            let mut projected: Vec<Json> = Vec::new();
            let mut i: usize = 0;
            while i < rows.len()
                invariant
                    i <= rows@.len(),
                    jv_items(rows@).len() == rows@.len(),
                    forall|j: int| 0 <= j < rows@.len() ==> #[trigger] jv_items(rows@)[j] == jv(rows@[j]),
                    projected@.len() == i,
                    views(projected@) == projected_rows(jv_items(rows@), strs(columns@)).take(i as int),
                decreases rows@.len() - i,
            {
                let p = project_row(&rows[i], columns);
                let ghost before = projected@;
                projected.push(p);
                i = i + 1;
                assert forall|j: int| 0 <= j < i implies #[trigger] views(projected@)[j]
                    == projected_rows(jv_items(rows@), strs(columns@)).take(i as int)[j] by {
                    if j < i - 1 {
                        assert(projected@[j] == before[j]);
                        assert(views(before)[j] == projected_rows(jv_items(rows@), strs(columns@)).take(i - 1)[j]);
                    }
                }
                assert(views(projected@) =~= projected_rows(jv_items(rows@), strs(columns@)).take(i as int));
            }
            assert(projected_rows(jv_items(rows@), strs(columns@)).take(i as int)
                =~= projected_rows(jv_items(rows@), strs(columns@)));
            let (kept, total) = apply_budget(projected, budget);
            let shown = kept.len();
            proof { lemma_jv_items(kept@); }
            assert(jv_items(kept@) =~= views(kept@));
            let body = match wrapper {
                None => Json::Array(kept),
                Some(k) => {
                    let mut members: Vec<(String, Json)> = Vec::new();
                    insert_member(&mut members, text_of(row_key_text(k)), Json::Array(kept));
                    let meta = text_of("meta");
                    match value.get(&meta) {
                        Some(m) => {
                            let c = m.deep_copy();
                            insert_member(&mut members, meta, c);
                        },
                        None => {},
                    }
                    let metadata = text_of("metadata");
                    match value.get(&metadata) {
                        Some(m) => {
                            let c = m.deep_copy();
                            insert_member(&mut members, metadata, c);
                        },
                        None => {},
                    }
                    Json::Object(members)
                },
            };
            (body, shown, total)
        },
    }
}

/// At most `max` characters: a longer text keeps its first `max - 3` characters and ends in "...".
pub open spec fn truncated(s: Seq<char>, max: nat) -> Seq<char> {
    if s.len() <= max {
        s
    } else {
        s.take(max - 3) + "..."@
    }
}

/// Shortens `s` to at most `max` characters (not bytes), marking the cut with "...".
pub fn truncate(s: &str, max: usize) -> (r: String)
    requires
        s@.len() <= max || max >= 3,
    ensures
        r@ == truncated(s@, max as nat),
{
    let cs = chars_of(s);
    if cs.len() <= max {
        return text_of(s);
    }
    let mut out: Vec<char> = Vec::new();
    let mut i: usize = 0;
    while i < max - 3
        invariant
            cs@ == s@,
            max >= 3,
            cs@.len() > max,
            i <= max - 3,
            out@ == cs@.take(i as int),
        decreases max - 3 - i,
    {
        out.push(cs[i]);
        i = i + 1;
        assert(out@ =~= cs@.take(i as int));
    }
    let mut r = string_of(out.as_slice());
    append_text(&mut r, "...");
    r
}

/// The text of a table cell: "-" for null, strings and compact JSON cut to 80
/// characters, "N items" for arrays.
pub open spec fn cell_text(v: JsonV) -> Seq<char> {
    match v {
        JsonV::Null => "-"@,
        JsonV::Str(s) => truncated(s, 80),
        JsonV::Number(t) => t,
        JsonV::Bool(b) => if b { "true"@ } else { "false"@ },
        JsonV::Array(items) => truncated(decimal(items.len()) + " items"@, 80),
        JsonV::Object(_) => truncated(json_text(v), 80),
    }
}

/// The text of a table cell for `value`.
pub fn format_cell(value: &Json) -> (r: String)
    ensures
        r@ == cell_text(value@),
{
    match value {
        Json::Null => text_of("-"),
        Json::Str(s) => truncate(s.as_str(), 80),
        Json::Number(n) => n.clone(),
        Json::Bool(b) => if *b { text_of("true") } else { text_of("false") },
        Json::Array(a) => {
            proof { lemma_jv_items(a@); }
            let mut t = String::new();
            push_decimal(&mut t, a.len() as u64);
            append_text(&mut t, " items");
            assert(t@ =~= decimal(a@.len()) + " items"@);
            truncate(t.as_str(), 80)
        },
        Json::Object(_) => {
            let t = value.to_text();
            truncate(t.as_str(), 80)
        },
    }
}

/// The cells of one row, one per column.
pub open spec fn row_cells(row: JsonV, columns: Seq<Seq<char>>) -> Seq<Seq<char>> {
    Seq::new(columns.len(), |j: int| cell_text(resolve(row, columns[j])))
}

/// The views of a table of strings.
pub open spec fn table_view(t: Seq<Vec<String>>) -> Seq<Seq<Seq<char>>> {
    Seq::new(t.len(), |i: int| texts(t[i]@))
}

/// The cells of one row.
fn cells_of(row: &Json, columns: &[&str]) -> (r: Vec<String>)
    ensures
        texts(r@) == row_cells(row@, strs(columns@)),
{
    let mut out: Vec<String> = Vec::new();
    let mut j: usize = 0;
    while j < columns.len()
        invariant
            j <= columns@.len(),
            out@.len() == j,
            forall|k: int| 0 <= k < j ==> #[trigger] out@[k]@ == cell_text(resolve(row@, columns@[k]@)),
        decreases columns@.len() - j,
    {
        let v = resolve_path(row, columns[j]);
        let c = format_cell(&v);
        out.push(c);
        j = j + 1;
    }
    assert(texts(out@) =~= row_cells(row@, strs(columns@)));
    out
}

/// Resolve `columns` against each row, producing the formatted table cells.
pub fn resolve_cells(rows: &Vec<Json>, columns: &[&str]) -> (r: Vec<Vec<String>>)
    ensures
        r@.len() == rows@.len(),
        forall|i: int| 0 <= i < rows@.len() ==> texts(#[trigger] r@[i]@) == row_cells(rows@[i]@, strs(columns@)),
{
    let mut out: Vec<Vec<String>> = Vec::new();
    let mut i: usize = 0;
    while i < rows.len()
        invariant
            i <= rows@.len(),
            out@.len() == i,
            forall|k: int| 0 <= k < i ==> texts(#[trigger] out@[k]@) == row_cells(rows@[k]@, strs(columns@)),
        decreases rows@.len() - i,
    {
        let c = cells_of(&rows[i], columns);
        out.push(c);
        i = i + 1;
    }
    out
}

/// The lines of a printed table: the column names, then one line of cells per
/// row; nothing at all without rows.
pub open spec fn table_of(rows: Seq<JsonV>, columns: Seq<Seq<char>>) -> Seq<Seq<Seq<char>>> {
    if rows.len() == 0 {
        seq![]
    } else {
        seq![columns] + Seq::new(rows.len(), |i: int| row_cells(rows[i], columns))
    }
}

/// The lines of the table for `rows` (`print_table`).
pub fn table_lines(rows: &Vec<Json>, columns: &[&str]) -> (r: Vec<Vec<String>>)
    ensures
        table_view(r@) == table_of(views(rows@), strs(columns@)),
{
    if rows.len() == 0 {
        let r: Vec<Vec<String>> = Vec::new();
        assert(table_view(r@) =~= table_of(views(rows@), strs(columns@)));
        return r;
    }
    let mut header: Vec<String> = Vec::new();
    let mut j: usize = 0;
    while j < columns.len()
        invariant
            j <= columns@.len(),
            header@.len() == j,
            forall|k: int| 0 <= k < j ==> #[trigger] header@[k]@ == columns@[k]@,
        decreases columns@.len() - j,
    {
        header.push(text_of(columns[j]));
        j = j + 1;
    }
    assert(texts(header@) =~= strs(columns@));
    let mut out: Vec<Vec<String>> = Vec::new();
    out.push(header);
    let mut i: usize = 0;
    while i < rows.len()
        invariant
            i <= rows@.len(),
            out@.len() == i + 1,
            texts(out@[0]@) == strs(columns@),
            forall|k: int| 0 <= k < i ==> texts(#[trigger] out@[k + 1]@) == row_cells(rows@[k]@, strs(columns@)),
        decreases rows@.len() - i,
    {
        let line = cells_of(&rows[i], columns);
        out.push(line);
        i = i + 1;
    }
    assert forall|k: int| 0 <= k < out@.len() implies #[trigger] table_view(out@)[k] == table_of(views(rows@), strs(columns@))[k] by {
        if k > 0 {
            assert(texts(out@[(k - 1) + 1]@) == row_cells(rows@[k - 1]@, strs(columns@)));
        }
    }
    assert(table_view(out@) =~= table_of(views(rows@), strs(columns@)));
    out
}

/// What a command prints on standard output: one line of compact JSON, or a
/// table given as lines of cells (no lines: nothing is printed).
pub enum Printed {
    Text(String),
    Table(Vec<Vec<String>>),
}

/// The mathematical value of a `Printed`.
pub enum PrintedV {
    Text(Seq<char>),
    Table(Seq<Seq<Seq<char>>>),
}

/// The view of what is printed.
pub open spec fn printed_view(p: Printed) -> PrintedV {
    match p {
        Printed::Text(t) => PrintedV::Text(t@),
        Printed::Table(t) => PrintedV::Table(table_view(t@)),
    }
}

/// The output of a list command: what is printed, the row count it reports,
/// and the warning for standard error when the token budget cut rows.
pub struct Rendered {
    pub printed: Printed,
    pub count: usize,
    pub warning: Option<String>,
}

/// The warning printed when the token budget drops rows.
pub open spec fn truncation_warning(shown: nat, total: nat, budget: nat) -> Seq<char> {
    "Output truncated to "@ + decimal(shown) + " of "@ + decimal(total) + " rows by --max-tokens "@
        + decimal(budget) + ". Raise it or pass --max-tokens 0 to disable."@
}

/// The view of an optional message.
pub open spec fn opt_msg(o: Option<String>) -> Option<Seq<char>> {
    match o {
        Some(s) => Some(s@),
        None => None,
    }
}

/// What `print_output` prints and counts for `v`: projected JSON under a budget
/// when the format is JSON with columns, the raw response for full (or JSON
/// without columns), and a table of the rows otherwise.
pub open spec fn output_of(v: JsonV, format: Format, columns: Seq<Seq<char>>, budget: nat) -> (PrintedV, nat, Option<Seq<char>>) {
    match format {
        Format::Json if columns.len() > 0 => {
            let p = projection(v, columns, budget);
            (PrintedV::Text(json_text(p.0)), p.2, if p.1 < p.2 { Some(truncation_warning(p.1, p.2, budget)) } else { None })
        },
        Format::Table => {
            let rows = rows_or_self(v);
            (PrintedV::Table(table_of(rows, columns)), rows.len(), None)
        },
        _ => (PrintedV::Text(json_text(v)), rows_or_self(v).len(), None),
    }
}

/// Output of a list response (data[], logs[], events[], ...) and its row count.
/// `columns` are resolved relative to each row; an empty `columns` list prints
/// the response as-is.
pub fn render_output(value: &Json, format: Format, columns: &[&str], budget: usize) -> (r: Rendered)
    ensures
        (printed_view(r.printed), r.count as nat, opt_msg(r.warning)) == output_of(value@, format, strs(columns@), budget as nat),
{
    match format {
        Format::Json if columns.len() > 0 => {
            let (body, shown, total) = project(value, columns, budget);
            let warning = if shown < total {
                let mut w = text_of("Output truncated to ");
                push_decimal(&mut w, shown as u64);
                append_text(&mut w, " of ");
                push_decimal(&mut w, total as u64);
                append_text(&mut w, " rows by --max-tokens ");
                push_decimal(&mut w, budget as u64);
                append_text(&mut w, ". Raise it or pass --max-tokens 0 to disable.");
                Some(w)
            } else {
                None
            };
            Rendered { printed: Printed::Text(body.to_text()), count: total, warning }
        },
        Format::Table => {
            let rows = extract_rows(value);
            let count = rows.len();
            Rendered { printed: Printed::Table(table_lines(&rows, columns)), count, warning: None }
        },
        _ => {
            Rendered { printed: Printed::Text(value.to_text()), count: count_rows(value), warning: None }
        },
    }
}

/// What `print_object` prints for a single-object response: its projection onto
/// `columns` for JSON with columns, the response for full (or JSON without
/// columns), and a one-row table otherwise.
pub open spec fn object_output_of(v: JsonV, format: Format, columns: Seq<Seq<char>>) -> PrintedV {
    match format {
        Format::Json if columns.len() > 0 => PrintedV::Text(json_text(row_projection(v, columns))),
        Format::Table => PrintedV::Table(table_of(seq![v], columns)),
        _ => PrintedV::Text(json_text(v)),
    }
}

/// Output of a single-object response (incidents get, notebooks get, ...);
/// `columns` are resolved relative to the root of the response.
pub fn render_object(value: &Json, format: Format, columns: &[&str]) -> (r: Printed)
    ensures
        printed_view(r) == object_output_of(value@, format, strs(columns@)),
{
    match format {
        Format::Json if columns.len() > 0 => Printed::Text(project_row(value, columns).to_text()),
        Format::Table => {
            let mut rows: Vec<Json> = Vec::new();
            rows.push(value.deep_copy());
            assert(views(rows@) =~= seq![value@]);
            Printed::Table(table_lines(&rows, columns))
        },
        _ => Printed::Text(value.to_text()),
    }
}

/// Only the first setting of the token budget counts: after setting `first`
/// on an unset budget, any later setting leaves `first` in effect.
pub proof fn lemma_first_setting_wins(first: usize, later: Seq<usize>)
    ensures
        later.fold_left(after_setting(None, first), |s: Option<usize>, b: usize| after_setting(s, b)) == Some(first),
    decreases later.len(),
{
    if later.len() > 0 {
        lemma_first_setting_wins(first, later.drop_last());
    }
}

/// A budget cut exists: some number of leading rows obeys any non-zero budget.
proof fn lemma_cut_from(rows: Seq<JsonV>, budget: nat, k: nat) -> (r: nat)
    requires
        budget > 0,
        1 <= k <= rows.len(),
        k >= 2 ==> prefix_tokens(rows, k as int) <= budget,
    ensures
        budget_keeps(rows, budget, r),
    decreases rows.len() - k,
{
    if k == rows.len() || prefix_tokens(rows, k + 1int) > budget {
        k
    } else {
        lemma_cut_from(rows, budget, k + 1)
    }
}

/// What the token budget keeps of a list: the leading rows only, all of them
/// when the budget is 0, at least the first one when there are rows, and never
/// more estimated tokens than the budget unless only the first row is kept;
/// the row after the kept ones would have gone over.
pub proof fn lemma_budget_cut(rows: Seq<JsonV>, budget: nat)
    ensures
        kept_count(rows, budget) <= rows.len(),
        budget == 0 ==> kept_count(rows, budget) == rows.len(),
        rows.len() > 0 ==> kept_count(rows, budget) >= 1,
        budget > 0 && kept_count(rows, budget) >= 2 ==> prefix_tokens(rows, kept_count(rows, budget) as int) <= budget,
        budget > 0 && kept_count(rows, budget) < rows.len() ==> prefix_tokens(rows, kept_count(rows, budget) + 1int) > budget,
{
    if budget > 0 {
        let k: nat = if rows.len() == 0 { 0 } else { lemma_cut_from(rows, budget, 1) };
        assert(budget_keeps(rows, budget, k));
        let c = choose|c: nat| budget_keeps(rows, budget, c);
        lemma_budget_unique(rows, budget, k, c);
    }
}

/// The token budget applies to projected JSON only: the full and table outputs
/// are the same under any two budgets, and so is JSON without columns.
pub proof fn lemma_budget_only_projects(v: JsonV, format: Format, columns: Seq<Seq<char>>, a: nat, b: nat)
    requires
        format is Full || format is Table || columns.len() == 0,
    ensures
        output_of(v, format, columns, a) == output_of(v, format, columns, b),
{
}

/// With a budget of 0 every row of a list is shown, and no warning is given.
pub proof fn lemma_zero_budget_shows_all(v: JsonV, columns: Seq<Seq<char>>)
    ensures
        projection(v, columns, 0).1 == projection(v, columns, 0).2,
        output_of(v, Format::Json, columns, 0).2 is None,
{
}

/// No projection shows more rows than the response holds.
pub proof fn lemma_shown_at_most_total(v: JsonV, columns: Seq<Seq<char>>, budget: nat)
    ensures
        projection(v, columns, budget).1 <= projection(v, columns, budget).2,
{
    match rows_of(v) {
        None => {},
        Some(found) => {
            lemma_budget_cut(projected_rows(found.1, columns), budget);
        },
    }
}

/// A truncated text is never longer than the limit, and a text within the
/// limit is kept as it is.
pub proof fn lemma_truncated_fits(s: Seq<char>, max: nat)
    requires
        s.len() <= max || max >= 3,
    ensures
        truncated(s, max).len() <= max,
        s.len() <= max ==> truncated(s, max) == s,
        s.len() > max ==> truncated(s, max).len() == max,
{
    reveal_strlit("...");
}

/// A cut text keeps the first `max - 3` characters of the text, in order,
/// followed by "...".
pub proof fn lemma_truncated_keeps_start(s: Seq<char>, max: nat)
    requires
        s.len() > max,
        max >= 3,
    ensures
        truncated(s, max).len() == max,
        forall|i: int| 0 <= i < max - 3 ==> #[trigger] truncated(s, max)[i] == s[i],
        truncated(s, max)[max - 3] == '.' && truncated(s, max)[max - 2] == '.' && truncated(s, max)[max - 1] == '.',
{
    reveal_strlit("...");
}

proof fn lemma_last_segment_has_no_dot(s: Seq<char>)
    ensures
        !last_segment_of(s).contains('.'),
    decreases s.len(),
{
    lemma_split_nonempty(s);
    if s.len() > 0 {
        lemma_last_segment_has_no_dot(s.drop_last());
        lemma_split_nonempty(s.drop_last());
        let rest = split_dots(s.drop_last());
        if s.last() != '.' {
            let l = rest.last().push(s.last());
            assert(last_segment_of(s) == l);
            assert forall|i: int| 0 <= i < l.len() implies l[i] != '.' by {
                if i < l.len() - 1 {
                    assert(l[i] == rest.last()[i]);
                }
            }
        }
    }
}

proof fn lemma_dotless_is_own_segment(s: Seq<char>)
    requires
        !s.contains('.'),
    ensures
        split_dots(s) == seq![s],
    decreases s.len(),
{
    if s.len() > 0 {
        assert(!s.drop_last().contains('.')) by {
            if s.drop_last().contains('.') {
                let i = choose|i: int| 0 <= i < s.drop_last().len() && s.drop_last()[i] == '.';
                assert(s[i] == '.');
            }
        }
        lemma_dotless_is_own_segment(s.drop_last());
        assert(s.last() != '.') by {
            assert(s[s.len() - 1] == s.last());
        }
        assert(s.drop_last().push(s.last()) =~= s);
        let rest = split_dots(s.drop_last());
        assert(rest.last() == s.drop_last());
        assert(split_dots(s) =~= seq![s]);
    } else {
        assert(s =~= seq![]);
    }
}

proof fn lemma_count_two(columns: Seq<Seq<char>>, i: int, j: int, short: Seq<char>)
    requires
        0 <= i < columns.len(),
        0 <= j < columns.len(),
        i != j,
        last_segment_of(columns[i]) == short,
        last_segment_of(columns[j]) == short,
    ensures
        count_last(columns, short) >= 2,
    decreases columns.len(),
{
    let n = columns.len() - 1;
    if i != n && j != n {
        lemma_count_two(columns.drop_last(), i, j, short);
    } else {
        let other = if i == n { j } else { i };
        lemma_count_one(columns.drop_last(), other, short);
    }
}

proof fn lemma_count_one(columns: Seq<Seq<char>>, i: int, short: Seq<char>)
    requires
        0 <= i < columns.len(),
        last_segment_of(columns[i]) == short,
    ensures
        count_last(columns, short) >= 1,
    decreases columns.len(),
{
    if i < columns.len() - 1 {
        lemma_count_one(columns.drop_last(), i, short);
    }
}

/// Two different columns of a list never get the same JSON key, so a
/// projected row holds every column.
pub proof fn lemma_column_keys_distinct(columns: Seq<Seq<char>>, i: int, j: int)
    requires
        0 <= i < columns.len(),
        0 <= j < columns.len(),
        columns[i] != columns[j],
    ensures
        key_of_column(columns, columns[i]) != key_of_column(columns, columns[j]),
{
    let a = columns[i];
    let b = columns[j];
    let sa = last_segment_of(a);
    let sb = last_segment_of(b);
    lemma_last_segment_has_no_dot(a);
    lemma_last_segment_has_no_dot(b);
    lemma_dotless_is_own_segment(sa);
    lemma_dotless_is_own_segment(sb);
    if sa == sb {
        lemma_count_two(columns, i, j, sa);
    }
}

} // verus!
