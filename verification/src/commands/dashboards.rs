//! `ddog dashboards`: list dashboards, or page through all of them keeping
//! those whose title contains a filter, ignoring case.

use vstd::prelude::*;
use crate::cli::{
    count_at, count_opt, count_opt_v, count_val, format_at, format_opt, format_opt_v, format_val, lits,
    opt_text_at, opt_text_val, opts_view, parse_flat, parse_opts, text_opt, text_opt_v, CliError, Opt, OptV, ValV,
};
use crate::commands::{
    columns_view, get_request, get_v, info_note, info_v, lemma_members, notes_view, object_in_order, one_request,
    plan_view, push_param, request_view, single, Note, Plan, PlanV, Request, Show, ShowV, show_view,
};
use crate::error::DdError;
use crate::json::{entry, json_get, jv_items, lemma_jv_items, lemma_jv_items_push, Json, JsonV};
use crate::limits::{below_min_message, min_u32, require_min, MAX_DASHBOARDS};
use crate::log::info_text;
use crate::output::Format;
use crate::text::{append_text, chars_of, contains_text, decimal, decimal_text, has_substring, lowercase, lowercase_of, text_of};

verus! {

/// Dashboards fetched per page while filtering.
pub const PAGE_SIZE: u32 = 100;

/// Search dashboards.
pub struct DashboardsSearch {
    /// Filter dashboards by title (client-side substring match, pages through all results)
    pub filter: Option<String>,
    /// Max dashboards to return (max 500)
    pub count: u32,
    /// Output format
    pub format: Format,
}

/// The columns shown for dashboards.
pub open spec fn dashboard_columns() -> Seq<Seq<char>> {
    seq!["id"@, "title"@, "description"@, "layout_type"@, "url"@]
}

/// The dashboards of one page of the dashboard list; none when the page has none.
pub open spec fn page_items(page: JsonV) -> Seq<JsonV> {
    match json_get(page, "dashboards"@) {
        Some(JsonV::Array(items)) => items,
        _ => seq![],
    }
}

/// Whether a dashboard's title, lowercased, contains `needle`. A dashboard
/// without a text title never matches.
pub open spec fn title_matches(d: JsonV, needle: Seq<char>) -> bool {
    match json_get(d, "title"@) {
        Some(JsonV::Str(t)) => has_substring(lowercase_of(t), needle),
        _ => false,
    }
}

/// The dashboards among `items` whose title matches, in order.
pub open spec fn matching(items: Seq<JsonV>, needle: Seq<char>) -> Seq<JsonV>
    decreases items.len(),
{
    if items.len() == 0 {
        seq![]
    } else {
        matching(items.drop_last(), needle) + if title_matches(items.last(), needle) { seq![items.last()] } else { seq![] }
    }
}

/// The state of a filtered search: the lowercased filter, the most dashboards
/// to keep, the offset of the next page, the dashboards kept so far, and
/// whether the search is over.
pub struct PagerV {
    pub needle: Seq<char>,
    pub max: nat,
    pub offset: nat,
    pub matched: Seq<JsonV>,
    pub done: bool,
}

/// What a filtered search keeps of a page: the matching dashboards appended to
/// those kept so far, up to `max` of them. The search is over once `max` are
/// kept or the page was short; otherwise the next page starts after this one.
pub open spec fn after_page(p: PagerV, page: JsonV) -> PagerV {
    let all = p.matched + matching(page_items(page), p.needle);
    let kept = if all.len() > p.max { all.take(p.max as int) } else { all };
    let n = page_items(page).len();
    let done = kept.len() >= p.max || n < 100;
    PagerV { needle: p.needle, max: p.max, offset: if done { p.offset } else { p.offset + n }, matched: kept, done }
}

/// A filtered search through all dashboards, one page at a time.
pub struct Pager {
    needle: Vec<char>,
    max: u32,
    offset: u32,
    matched: Vec<Json>,
    done: bool,
}

impl View for Pager {
    type V = PagerV;

    closed spec fn view(&self) -> PagerV {
        PagerV {
            needle: self.needle@,
            max: self.max as nat,
            offset: self.offset as nat,
            matched: jv_items(self.matched@),
            done: self.done,
        }
    }
}

/// Whether a search state is one a filtered search can be in: at least one
/// dashboard is wanted, no more than `max` are kept, and a search that goes on
/// has room for more.
pub open spec fn pager_ok(p: PagerV) -> bool {
    &&& p.max >= 1
    &&& p.matched.len() <= p.max
    &&& !p.done ==> p.matched.len() < p.max
}

impl Pager {
    #[verifier::type_invariant]
    spec fn inv(self) -> bool {
        pager_ok(self@)
    }

    /// A search for dashboards whose lowercased title contains the lowercased
    /// `filter`, keeping at most `max`.
    pub fn new(filter: &str, max: u32) -> (r: Pager)
        requires
            max >= 1,
        ensures
            r@ == (PagerV { needle: lowercase_of(filter@), max: max as nat, offset: 0, matched: seq![], done: false }),
            pager_ok(r@),
    {
        let lower = lowercase(filter);
        let needle = chars_of(lower.as_str());
        let matched: Vec<Json> = Vec::new();
        assert(jv_items(matched@) =~= seq![]);
        Pager { needle, max, offset: 0, matched, done: false }
    }

    /// Whether the search is over.
    pub fn is_done(&self) -> (r: bool)
        ensures
            r == self@.done,
            pager_ok(self@),
    {
        proof { use_type_invariant(self); }
        self.done
    }

    /// The offset of the next page.
    pub fn offset(&self) -> (r: u32)
        ensures
            r as nat == self@.offset,
    {
        self.offset
    }

    /// The request for the next page: `PAGE_SIZE` dashboards from the offset.
    pub fn request(&self) -> (r: Request)
        ensures
            request_view(r) == get_v("/api/v1/dashboard"@, seq![
                ("start"@, decimal(self@.offset)),
                ("count"@, decimal(100)),
            ]),
    {
        let mut params: Vec<(String, String)> = Vec::new();
        let start = decimal_text(self.offset as u64);
        let count = decimal_text(PAGE_SIZE as u64);
        push_param(&mut params, "start", start.as_str());
        push_param(&mut params, "count", count.as_str());
        let r = get_request(text_of("/api/v1/dashboard"), params);
        assert(request_view(r).2 =~= seq![("start"@, decimal(self@.offset)), ("count"@, decimal(100))]);
        r
    }

    /// Whether a dashboard's title matches the filter.
    fn title_ok(&self, d: &Json) -> (r: bool)
        ensures
            r == title_matches(d@, self@.needle),
    {
        let key = text_of("title");
        match d.get(&key) {
            Some(Json::Str(t)) => {
                let lower = lowercase(t.as_str());
                let cs = chars_of(lower.as_str());
                contains_text(&cs, &self.needle)
            },
            _ => false,
        }
    }

    /// Takes one page of the dashboard list into the search.
    pub fn after_page(self, page: &Json) -> (r: Pager)
        requires
            !self@.done,
            self@.offset + page_items(page@).len() <= u32::MAX,
        ensures
            r@ == after_page(self@, page@),
            pager_ok(self@),
            pager_ok(r@),
    {
        proof { use_type_invariant(&self); }
        let key = text_of("dashboards");
        let empty: Vec<Json> = Vec::new();
        let items: &Vec<Json> = match page.get(&key) {
            Some(Json::Array(items)) => items,
            _ => &empty,
        };
        assert(jv_items(empty@) =~= seq![]);
        let ghost iv = jv_items(items@);
        assert(iv == page_items(page@));
        proof { lemma_jv_items(items@); }
        let ghost start = jv_items(self.matched@);
        let ghost max = self.max as nat;
        let mut matched: Vec<Json> = Vec::new();
        let mut i: usize = 0;
        while i < self.matched.len()
            invariant
                i <= self.matched@.len(),
                jv_items(matched@) == jv_items(self.matched@.take(i as int)),
            decreases self.matched@.len() - i,
        {
            let c = self.matched[i].deep_copy();
            proof {
                lemma_jv_items_push(matched@, c);
                lemma_jv_items_push(self.matched@.take(i as int), self.matched@[i as int]);
                assert(self.matched@.take(i as int).push(self.matched@[i as int]) =~= self.matched@.take(i + 1));
            }
            matched.push(c);
            i = i + 1;
        }
        assert(self.matched@.take(i as int) =~= self.matched@);
        let mut j: usize = 0;
        let mut full = false;
        while j < items.len()
            invariant_except_break
                !full,
                jv_items(matched@) == start + matching(iv.take(j as int), self@.needle),
                jv_items(matched@).len() < max,
            invariant
                j <= items@.len(),
                iv == jv_items(items@),
                iv.len() == items@.len(),
                forall|m: int| 0 <= m < items@.len() ==> #[trigger] iv[m] == items@[m]@,
                start.len() < max,
                max == self.max as nat,
            ensures
                full ==> jv_items(matched@) == (start + matching(iv, self@.needle)).take(max as int),
                full ==> (start + matching(iv, self@.needle)).len() >= max,
                !full ==> jv_items(matched@) == start + matching(iv.take(j as int), self@.needle),
                !full ==> j == items@.len(),
                !full ==> jv_items(matched@).len() < max,
            decreases items@.len() - j,
        {
            let ok = self.title_ok(&items[j]);
            proof {
                lemma_matching_prefix(iv, self@.needle, j + 1);
                lemma_jv_items(matched@);
                assert(iv[j as int] == items@[j as int]@);
                assert(ok == title_matches(iv[j as int], self@.needle));
            }
            if ok {
                let c = items[j].deep_copy();
                proof { lemma_jv_items_push(matched@, c); }
                matched.push(c);
                proof {
                    lemma_jv_items(matched@);
                    assert(jv_items(matched@) =~= start + matching(iv.take(j + 1), self@.needle));
                }
                if matched.len() >= self.max as usize {
                    full = true;
                    proof {
                        let m = matching(iv, self@.needle);
                        let mj = matching(iv.take(j + 1), self@.needle);
                        lemma_matching_grows(iv, self@.needle, j + 1);
                        assert((start + mj).len() == max);
                        assert((start + m).take(max as int) =~= (start + mj).take(max as int));
                        assert((start + mj).take(max as int) =~= start + mj);
                    }
                    break;
                }
            } else {
                assert(jv_items(matched@) =~= start + matching(iv.take(j + 1), self@.needle));
            }
            j = j + 1;
        }
        proof {
            if !full {
                assert(iv.take(j as int) =~= iv);
            }
        }
        let n = items.len();
        let done = full || n < PAGE_SIZE as usize;
        let offset: u32 = if done { self.offset } else { self.offset + n as u32 };
        let ghost all = start + matching(iv, self@.needle);
        proof {
            lemma_jv_items(matched@);
            if !full {
                assert(!(all.len() > max));
            } else if all.len() == max {
                assert(all.take(max as int) =~= all);
            }
            let p = after_page(self@, page@);
            assert(p.matched == jv_items(matched@));
            assert(p.done == done);
        }
        Pager { needle: self.needle, max: self.max, offset, matched, done }
    }

    /// What the search found: `{"dashboards": [...]}`.
    pub fn result(&self) -> (r: Json)
        ensures
            r@ == JsonV::Object(seq![("dashboards"@, JsonV::Array(self@.matched))]),
    {
        let mut items: Vec<Json> = Vec::new();
        let mut i: usize = 0;
        while i < self.matched.len()
            invariant
                i <= self.matched@.len(),
                jv_items(items@) == jv_items(self.matched@.take(i as int)),
            decreases self.matched@.len() - i,
        {
            let c = self.matched[i].deep_copy();
            proof {
                lemma_jv_items_push(items@, c);
                lemma_jv_items_push(self.matched@.take(i as int), self.matched@[i as int]);
                assert(self.matched@.take(i as int).push(self.matched@[i as int]) =~= self.matched@.take(i + 1));
            }
            items.push(c);
            i = i + 1;
        }
        assert(self.matched@.take(i as int) =~= self.matched@);
        let mut m: Vec<(String, Json)> = Vec::new();
        m.push(entry("dashboards", Json::array(items)));
        proof { lemma_members(m@, seq![("dashboards"@, JsonV::Array(self@.matched))]); }
        object_in_order(m)
    }
}

/// What matches in a prefix of the items is a prefix of what matches in all of them.
proof fn lemma_matching_grows(items: Seq<JsonV>, needle: Seq<char>, k: int)
    requires
        0 <= k <= items.len(),
    ensures
        matching(items.take(k), needle).len() <= matching(items, needle).len(),
        matching(items, needle).take(matching(items.take(k), needle).len() as int) == matching(items.take(k), needle),
    decreases items.len(),
{
    if k == items.len() {
        assert(items.take(k) =~= items);
        assert(matching(items, needle).take(matching(items, needle).len() as int) =~= matching(items, needle));
    } else {
        lemma_matching_grows(items.drop_last(), needle, k);
        assert(items.drop_last().take(k) =~= items.take(k));
        let a = matching(items.drop_last(), needle);
        let b = matching(items.take(k), needle);
        assert(matching(items, needle).take(b.len() as int) =~= a.take(b.len() as int));
    }
}

/// Matching a prefix one longer adds the next item when it matches.
proof fn lemma_matching_prefix(items: Seq<JsonV>, needle: Seq<char>, k: int)
    requires
        1 <= k <= items.len(),
    ensures
        matching(items.take(k), needle) == matching(items.take(k - 1), needle)
            + if title_matches(items[k - 1], needle) { seq![items[k - 1]] } else { seq![] },
{
    assert(items.take(k).drop_last() =~= items.take(k - 1));
}

/// A planned dashboard search: one request, or a filtered search page by page.
pub enum Search {
    /// No filter: one page of up to `max` dashboards.
    Single(Plan),
    /// A filter: pages of `PAGE_SIZE` until enough match or the list ends.
    Paged { notes: Vec<Note>, pager: Pager, format: Format, show: Show },
}

/// The mathematical value of a `Search`.
pub enum SearchV {
    Single(PlanV),
    Paged { notes: Seq<(bool, Seq<char>)>, pager: PagerV, format: Format, show: ShowV },
}

/// The view of a planned search.
pub open spec fn search_view(s: Search) -> SearchV {
    match s {
        Search::Single(p) => SearchV::Single(plan_view(p)),
        Search::Paged { notes, pager, format, show } =>
            SearchV::Paged { notes: notes_view(notes@), pager: pager@, format, show: show_view(show) },
    }
}

/// A planned search by its view; an error by its text.
pub open spec fn search_result(r: Result<Search, DdError>) -> Result<SearchV, Seq<char>> {
    match r {
        Ok(s) => Ok(search_view(s)),
        Err(e) => Err(crate::error::error_text(e)),
    }
}

/// What `ddog dashboards` does: the count must be at least 1 and is capped at
/// 500. Without a filter, one GET of that many dashboards; with one, a search
/// from offset 0 through pages of 100 for titles containing the lowercased filter.
pub open spec fn dashboards_plan(a: DashboardsSearch) -> Result<SearchV, Seq<char>> {
    if a.count < 1 {
        Err(below_min_message("Count"@, 1))
    } else {
        let max = min_u32(a.count, 500);
        let notes = seq![info_v(info_text("Searching dashboards: filter="@
            + match a.filter { Some(f) => f@, None => "(all)"@ } + " max="@ + decimal(max as nat)))];
        let show = ShowV::List { columns: dashboard_columns(), label: Some("dashboards"@) };
        match a.filter {
            None => Ok(SearchV::Single(single(
                notes,
                get_v("/api/v1/dashboard"@, seq![("count"@, decimal(max as nat))]),
                a.format,
                show,
            ))),
            Some(f) => Ok(SearchV::Paged {
                notes,
                pager: PagerV { needle: lowercase_of(f@), max: max as nat, offset: 0, matched: seq![], done: false },
                format: a.format,
                show,
            }),
        }
    }
}

fn dashboard_show() -> (r: Show)
    ensures
        show_view(r) == (ShowV::List { columns: dashboard_columns(), label: Some("dashboards"@) }),
{
    let columns: Vec<&'static str> = vec!["id", "title", "description", "layout_type", "url"];
    assert(columns_view(columns@) =~= dashboard_columns());
    Show::List { columns, label: Some("dashboards") }
}

/// Plans `ddog dashboards`.
pub fn plan(args: &DashboardsSearch) -> (r: Result<Search, DdError>)
    ensures
        search_result(r) == dashboards_plan(*args),
        r matches Err(e) ==> e is Validation,
{
    let requested = match require_min("Count", args.count, 1) {
        Ok(v) => v,
        Err(e) => return Err(DdError::Validation(e)),
    };
    let max = if requested < MAX_DASHBOARDS { requested } else { MAX_DASHBOARDS };
    let mut msg = text_of("Searching dashboards: filter=");
    match &args.filter {
        Some(f) => append_text(&mut msg, f.as_str()),
        None => append_text(&mut msg, "(all)"),
    }
    append_text(&mut msg, " max=");
    let max_str = decimal_text(max as u64);
    append_text(&mut msg, max_str.as_str());
    let notes = info_note(msg.as_str());
    let show = dashboard_show();
    let ghost spec_r = dashboards_plan(*args);
    match &args.filter {
        None => {
            let mut params: Vec<(String, String)> = Vec::new();
            push_param(&mut params, "count", max_str.as_str());
            let request = get_request(text_of("/api/v1/dashboard"), params);
            let ghost nv = notes_view(notes@);
            let ghost rv = request_view(request);
            let p = one_request(notes, request, args.format, show);
            assert(nv =~~= spec_r->Ok_0->Single_0.notes);
            assert(rv.2 =~~= spec_r->Ok_0->Single_0.requests[0].2);
            assert(rv =~~= spec_r->Ok_0->Single_0.requests[0]);
            assert(search_result(Ok::<Search, DdError>(Search::Single(p))) =~~= spec_r);
            Ok(Search::Single(p))
        },
        Some(f) => {
            let pager = Pager::new(f.as_str(), max);
            let ghost nv = notes_view(notes@);
            let r = Search::Paged { notes, pager, format: args.format, show };
            assert(nv =~~= spec_r->Ok_0->Paged_notes);
            assert(search_result(Ok::<Search, DdError>(r)) =~~= spec_r);
            Ok(r)
        },
    }
}

/// Whether every dashboard of `s` has a title that matches `needle`.
pub open spec fn all_match(s: Seq<JsonV>, needle: Seq<char>) -> bool {
    forall|i: int| 0 <= i < s.len() ==> title_matches(#[trigger] s[i], needle)
}

proof fn lemma_matching_all_match(items: Seq<JsonV>, needle: Seq<char>)
    ensures
        all_match(matching(items, needle), needle),
        matching(items, needle).len() <= items.len(),
    decreases items.len(),
{
    if items.len() > 0 {
        lemma_matching_all_match(items.drop_last(), needle);
    }
}

/// A page taken into a filtered search keeps its state well formed, keeps
/// what was found before as the start of what is found, adds only dashboards
/// whose title matches, and, when the search goes on, moves the offset past a
/// full page.
pub proof fn lemma_after_page(p: PagerV, page: JsonV)
    requires
        pager_ok(p),
        !p.done,
        all_match(p.matched, p.needle),
    ensures
        pager_ok(after_page(p, page)),
        after_page(p, page).needle == p.needle,
        after_page(p, page).max == p.max,
        after_page(p, page).matched.take(p.matched.len() as int) == p.matched,
        all_match(after_page(p, page).matched, p.needle),
        after_page(p, page).matched.len() >= p.matched.len(),
        !after_page(p, page).done ==> page_items(page).len() >= 100
            && after_page(p, page).offset == p.offset + page_items(page).len(),
{
    let m = matching(page_items(page), p.needle);
    lemma_matching_all_match(page_items(page), p.needle);
    let all = p.matched + m;
    let q = after_page(p, page);
    assert(all.take(p.matched.len() as int) =~= p.matched);
    if all.len() > p.max {
        assert(q.matched.take(p.matched.len() as int) =~= p.matched);
    }
    assert forall|i: int| 0 <= i < q.matched.len() implies title_matches(#[trigger] q.matched[i], p.needle) by {
        if i < p.matched.len() {
            assert(q.matched[i] == p.matched[i]);
        } else {
            assert(q.matched[i] == m[i - p.matched.len()]);
        }
    }
}

/// A dashboard whose lowercased title holds `needle` at some position
/// matches, and one that matches has such a title.
pub proof fn lemma_title_match(d: JsonV, needle: Seq<char>, title: Seq<char>)
    requires
        json_get(d, "title"@) == Some(JsonV::Str(title)),
    ensures
        (exists|i: int| 0 <= i && i + needle.len() <= lowercase_of(title).len()
            && #[trigger] lowercase_of(title).subrange(i, i + needle.len()) == needle)
            <==> title_matches(d, needle),
{
}

proof fn lemma_matching_members(items: Seq<JsonV>, needle: Seq<char>)
    ensures
        forall|i: int| 0 <= i < items.len() && title_matches(items[i], needle)
            ==> #[trigger] matching(items, needle).contains(items[i]),
        forall|x: JsonV| #[trigger] matching(items, needle).contains(x) ==> items.contains(x) && title_matches(x, needle),
    decreases items.len(),
{
    if items.len() > 0 {
        let init = items.drop_last();
        lemma_matching_members(init, needle);
        let m = matching(items, needle);
        let mi = matching(init, needle);
        assert forall|i: int| 0 <= i < items.len() && title_matches(items[i], needle)
            implies #[trigger] m.contains(items[i]) by {
            if i < items.len() - 1 {
                assert(init[i] == items[i]);
                assert(mi.contains(init[i]));
                let k = choose|k: int| 0 <= k < mi.len() && mi[k] == init[i];
                assert(m[k] == mi[k]);
            } else {
                assert(m[m.len() - 1] == items.last());
            }
        }
        assert forall|x: JsonV| #[trigger] m.contains(x) implies items.contains(x) && title_matches(x, needle) by {
            let k = choose|k: int| 0 <= k < m.len() && m[k] == x;
            if k < mi.len() {
                assert(mi[k] == x);
                assert(mi.contains(x));
                let j = choose|j: int| 0 <= j < init.len() && init[j] == x;
                assert(items[j] == x);
            } else {
                assert(x == items.last());
                assert(items[items.len() - 1] == x);
            }
        }
    }
}

/// When a page fits in what is left to keep, every dashboard of the page whose
/// lowercased title holds the filter at any position is kept, and every
/// dashboard kept from the page is one of its dashboards with such a title.
pub proof fn lemma_page_keeps_matching_titles(p: PagerV, page: JsonV)
    requires
        p.matched.len() + page_items(page).len() <= p.max,
    ensures
        forall|i: int, t: Seq<char>, k: int|
            0 <= i < page_items(page).len() && json_get(page_items(page)[i], "title"@) == Some(JsonV::Str(t))
                && 0 <= k && k + p.needle.len() <= lowercase_of(t).len()
                && #[trigger] lowercase_of(t).subrange(k, k + p.needle.len()) == p.needle
                ==> #[trigger] after_page(p, page).matched.contains(page_items(page)[i]),
        forall|j: int| p.matched.len() <= j < after_page(p, page).matched.len()
            ==> page_items(page).contains(#[trigger] after_page(p, page).matched[j])
                && title_matches(after_page(p, page).matched[j], p.needle),
{
    let items = page_items(page);
    let m = matching(items, p.needle);
    lemma_matching_members(items, p.needle);
    lemma_matching_all_match(items, p.needle);
    let q = after_page(p, page);
    assert(q.matched == p.matched + m);
    assert forall|i: int, t: Seq<char>, k: int|
        0 <= i < items.len() && json_get(items[i], "title"@) == Some(JsonV::Str(t))
            && 0 <= k && k + p.needle.len() <= lowercase_of(t).len()
            && #[trigger] lowercase_of(t).subrange(k, k + p.needle.len()) == p.needle
        implies #[trigger] q.matched.contains(items[i]) by {
        assert(has_substring(lowercase_of(t), p.needle));
        assert(title_matches(items[i], p.needle));
        assert(m.contains(items[i]));
        let c = choose|c: int| 0 <= c < m.len() && m[c] == items[i];
        assert(q.matched[p.matched.len() + c] == items[i]);
    }
    assert forall|j: int| p.matched.len() <= j < q.matched.len()
        implies items.contains(#[trigger] q.matched[j]) && title_matches(q.matched[j], p.needle) by {
        assert(q.matched[j] == m[j - p.matched.len()]);
        assert(m.contains(m[j - p.matched.len()]));
    }
}

/// The options of `ddog dashboards`, in field order.
pub open spec fn dashboards_options_v() -> Seq<OptV> {
    seq![
        text_opt_v("filter"@, "FILTER"@, None, None, false),
        count_opt_v("count"@, "COUNT"@, Some('c'), "100"@, 1),
        format_opt_v(),
    ]
}

fn dashboards_options() -> (r: Vec<Opt>)
    ensures
        opts_view(r@) == dashboards_options_v(),
{
    let mut v: Vec<Opt> = Vec::new();
    v.push(text_opt("filter", "FILTER", None, None, false));
    v.push(count_opt("count", "COUNT", Some('c'), "100", 1));
    v.push(format_opt());
    assert(opts_view(v@) =~= dashboards_options_v());
    v
}

/// What a `ddog dashboards` command line (the first token the program name) gives:
/// the value of each option, or the message refusing it.
pub open spec fn dashboards_command_line(args: Seq<Seq<char>>) -> Result<Seq<ValV>, Seq<char>> {
    parse_opts(dashboards_options_v(), args, 1)
}

/// Whether the arguments hold the values read.
pub open spec fn dashboards_from_values(a: DashboardsSearch, v: Seq<ValV>) -> bool {
    &&& crate::time::opt_text(a.filter) == opt_text_val(v[0])
    &&& a.count == count_val(v[1])
    &&& a.format == format_val(v[2])
}

impl DashboardsSearch {
    /// Reads `ddog dashboards` from its command line, the first token being the program name.
    pub fn try_parse_from(args: &[&str]) -> (r: Result<DashboardsSearch, CliError>)
        ensures
            match r {
                Ok(a) => dashboards_command_line(lits(args@)) matches Ok(v) && dashboards_from_values(a, v),
                Err(e) => dashboards_command_line(lits(args@)) == Err::<Seq<ValV>, Seq<char>>(e.message@),
            },
    {
        let opts = dashboards_options();
        let v = match parse_flat(&opts, args) {
            Ok(v) => v,
            Err(e) => return Err(e),
        };
        Ok(DashboardsSearch {
            filter: opt_text_at(&v, 0),
            count: count_at(&v, 1),
            format: format_at(&v, 2),
        })
    }
}

} // verus!
