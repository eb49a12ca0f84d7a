//! The JSON values that the library reads and builds: API responses, request
//! bodies and projected output.

use vstd::prelude::*;
use crate::text::{append_text, chars_of, decimal, decimal_text, push_char, signed_decimal, signed_decimal_text, text_of};

verus! {

/// A JSON value. A number is held as its JSON text; an object keeps its members
/// in order, each key at most once.
pub enum Json {
    Null,
    Bool(bool),
    Number(String),
    Str(String),
    Array(Vec<Json>),
    Object(Vec<(String, Json)>),
}

/// The mathematical value of a `Json`.
pub enum JsonV {
    Null,
    Bool(bool),
    Number(Seq<char>),
    Str(Seq<char>),
    Array(Seq<JsonV>),
    Object(Seq<(Seq<char>, JsonV)>),
}

/// The value of a `Json`.
pub open spec fn jv(j: Json) -> JsonV
    decreases j, 0nat,
{
    match j {
        Json::Null => JsonV::Null,
        Json::Bool(b) => JsonV::Bool(b),
        Json::Number(n) => JsonV::Number(n@),
        Json::Str(s) => JsonV::Str(s@),
        Json::Array(items) => JsonV::Array(jv_items(items@)),
        Json::Object(entries) => JsonV::Object(jv_entries(entries@)),
    }
}

/// The values of a sequence of `Json`.
pub open spec fn jv_items(items: Seq<Json>) -> Seq<JsonV>
    decreases items, 1nat,
{
    if items.len() == 0 {
        seq![]
    } else {
        jv_items(items.drop_last()).push(jv(items.last()))
    }
}

/// The values of a sequence of object members.
pub open spec fn jv_entries(entries: Seq<(String, Json)>) -> Seq<(Seq<char>, JsonV)>
    decreases entries, 1nat,
{
    if entries.len() == 0 {
        seq![]
    } else {
        jv_entries(entries.drop_last()).push((entries.last().0@, jv(entries.last().1)))
    }
}

impl View for Json {
    type V = JsonV;

    open spec fn view(&self) -> JsonV {
        jv(*self)
    }
}

/// The values of a sequence of `Json`, element by element.
pub proof fn lemma_jv_items(s: Seq<Json>)
    ensures
        jv_items(s).len() == s.len(),
        forall|i: int| 0 <= i < s.len() ==> #[trigger] jv_items(s)[i] == jv(s[i]),
    decreases s.len(),
{
    if s.len() > 0 {
        lemma_jv_items(s.drop_last());
    }
}

/// The values of a sequence of members, member by member.
pub proof fn lemma_jv_entries(s: Seq<(String, Json)>)
    ensures
        jv_entries(s).len() == s.len(),
        forall|i: int| 0 <= i < s.len() ==> #[trigger] jv_entries(s)[i] == (s[i].0@, jv(s[i].1)),
    decreases s.len(),
{
    if s.len() > 0 {
        lemma_jv_entries(s.drop_last());
    }
}

/// Values of the sequence prefix ending one further.
pub proof fn lemma_jv_items_push(s: Seq<Json>, x: Json)
    ensures
        jv_items(s.push(x)) == jv_items(s).push(jv(x)),
{
    assert(s.push(x).drop_last() =~= s);
}

/// Values of the member-sequence prefix ending one further.
pub proof fn lemma_jv_entries_push(s: Seq<(String, Json)>, x: (String, Json))
    ensures
        jv_entries(s.push(x)) == jv_entries(s).push((x.0@, jv(x.1))),
{
    assert(s.push(x).drop_last() =~= s);
}

impl Json {
    /// A copy of the value (`Clone`).
    pub fn deep_copy(&self) -> (r: Json)
        ensures
            r@ == self@,
        decreases self,
    {
        match self {
            Json::Null => Json::Null,
            Json::Bool(b) => Json::Bool(*b),
            Json::Number(n) => Json::Number(n.clone()),
            Json::Str(t) => Json::Str(t.clone()),
            Json::Array(items) => {
                let mut out: Vec<Json> = Vec::new();
                let mut i: usize = 0;
                while i < items.len()
                    invariant
                        i <= items@.len(),
                        *self == Json::Array(*items),
                        jv_items(out@) == jv_items(items@.take(i as int)),
                    decreases items@.len() - i,
                {
                    proof {
                        assert(decreases_to!(*self => (*self)->Array_0));
                        assert(decreases_to!(items => items@));
                        assert(decreases_to!(items@ => items@[i as int]));
                        assert(decreases_to!(*self => items@[i as int]));
                    }
                    let c = items[i].deep_copy();
                    proof {
                        lemma_jv_items_push(out@, c);
                        lemma_jv_items_push(items@.take(i as int), items@[i as int]);
                        assert(items@.take(i as int).push(items@[i as int]) =~= items@.take(i + 1));
                    }
                    out.push(c);
                    i = i + 1;
                }
                assert(items@.take(i as int) =~= items@);
                Json::Array(out)
            },
            Json::Object(entries) => {
                let mut out: Vec<(String, Json)> = Vec::new();
                let mut i: usize = 0;
                while i < entries.len()
                    invariant
                        i <= entries@.len(),
                        *self == Json::Object(*entries),
                        jv_entries(out@) == jv_entries(entries@.take(i as int)),
                    decreases entries@.len() - i,
                {
                    let k = entries[i].0.clone();
                    proof {
                        assert(decreases_to!(*self => (*self)->Object_0));
                        assert(decreases_to!(entries => entries@));
                        assert(decreases_to!(entries@ => entries@[i as int]));
                        assert(decreases_to!(entries@[i as int] => entries@[i as int].1));
                        assert(decreases_to!(*self => entries@[i as int].1));
                    }
                    let c = entries[i].1.deep_copy();
                    proof {
                        lemma_jv_entries_push(out@, (k, c));
                        lemma_jv_entries_push(entries@.take(i as int), entries@[i as int]);
                        assert(entries@.take(i as int).push(entries@[i as int]) =~= entries@.take(i + 1));
                    }
                    out.push((k, c));
                    i = i + 1;
                }
                assert(entries@.take(i as int) =~= entries@);
                Json::Object(out)
            },
        }
    }
}

/// Code-point order of texts, shorter prefix first (the order of Rust `String`s).
pub open spec fn text_lt(a: Seq<char>, b: Seq<char>) -> bool
    decreases a.len(),
{
    if a.len() == 0 {
        b.len() > 0
    } else if b.len() == 0 {
        false
    } else if a[0] != b[0] {
        (a[0] as u32) < (b[0] as u32)
    } else {
        text_lt(a.drop_first(), b.drop_first())
    }
}

/// No text orders before itself.
pub proof fn lemma_text_lt_irreflexive(a: Seq<char>)
    ensures
        !text_lt(a, a),
    decreases a.len(),
{
    if a.len() > 0 {
        lemma_text_lt_irreflexive(a.drop_first());
    }
}

/// Of two different texts, exactly one orders before the other.
pub proof fn lemma_text_lt_total(a: Seq<char>, b: Seq<char>)
    ensures
        a != b ==> (text_lt(a, b) || text_lt(b, a)),
        !(text_lt(a, b) && text_lt(b, a)),
    decreases a.len(),
{
    if a.len() > 0 && b.len() > 0 {
        lemma_text_lt_total(a.drop_first(), b.drop_first());
        if a[0] == b[0] && a.drop_first() == b.drop_first() {
            assert(a =~= seq![a[0]] + a.drop_first());
            assert(b =~= seq![b[0]] + b.drop_first());
        }
        if a[0] != b[0] {
            let x: char = a[0];
            let y: char = b[0];
            vstd::utf8::char_u32_cast(x, x as u32);
            vstd::utf8::char_u32_cast(y, y as u32);
            assert((x as u32) != (y as u32));
        }
    } else if a.len() == 0 && b.len() == 0 {
        assert(a =~= b);
    }
}

/// The order of texts is transitive.
pub proof fn lemma_text_lt_transitive(a: Seq<char>, b: Seq<char>, c: Seq<char>)
    requires
        text_lt(a, b),
        text_lt(b, c),
    ensures
        text_lt(a, c),
    decreases a.len(),
{
    if a.len() > 0 && b.len() > 0 && c.len() > 0 {
        if a[0] == b[0] && b[0] == c[0] {
            lemma_text_lt_transitive(a.drop_first(), b.drop_first(), c.drop_first());
        }
    }
}

/// Whether `a` orders before `b`.
pub fn text_less(a: &String, b: &String) -> (r: bool)
    ensures
        r == text_lt(a@, b@),
{
    let x = chars_of(a.as_str());
    let y = chars_of(b.as_str());
    let mut i: usize = 0;
    assert(x@.skip(0) =~= x@);
    assert(y@.skip(0) =~= y@);
    while i < x.len() && i < y.len() && x[i] == y[i]
        invariant
            x@ == a@,
            y@ == b@,
            i <= x@.len(),
            i <= y@.len(),
            text_lt(a@, b@) == text_lt(x@.skip(i as int), y@.skip(i as int)),
        decreases x@.len() - i,
    {
        assert(x@.skip(i as int).drop_first() =~= x@.skip(i + 1));
        assert(y@.skip(i as int).drop_first() =~= y@.skip(i + 1));
        i = i + 1;
    }
    if i == x.len() {
        i < y.len()
    } else if i == y.len() {
        false
    } else {
        assert(x@.skip(i as int)[0] == x@[i as int]);
        assert(y@.skip(i as int)[0] == y@[i as int]);
        (x[i] as u32) < (y[i] as u32)
    }
}

/// The value of the first member named `key`.
pub open spec fn member(es: Seq<(Seq<char>, JsonV)>, key: Seq<char>) -> Option<JsonV>
    decreases es.len(),
{
    if es.len() == 0 {
        None
    } else if es[0].0 == key {
        Some(es[0].1)
    } else {
        member(es.drop_first(), key)
    }
}

/// `Value::get(key)`: the member of an object, or `None` for anything else.
pub open spec fn json_get(v: JsonV, key: Seq<char>) -> Option<JsonV> {
    match v {
        JsonV::Object(es) => member(es, key),
        _ => None,
    }
}

/// An optional borrowed value by its view.
pub open spec fn opt_view(o: Option<&Json>) -> Option<JsonV> {
    match o {
        Some(j) => Some(j@),
        None => None,
    }
}

/// Members after storing `key: val` into members kept in key order: an equal
/// key has its value replaced, otherwise the member goes where the order puts
/// it (`serde_json::Map::insert`).
pub open spec fn with_member(es: Seq<(Seq<char>, JsonV)>, key: Seq<char>, val: JsonV) -> Seq<(Seq<char>, JsonV)>
    decreases es.len(),
{
    if es.len() == 0 {
        seq![(key, val)]
    } else if es[0].0 == key {
        es.update(0, (key, val))
    } else if text_lt(key, es[0].0) {
        seq![(key, val)] + es
    } else {
        seq![es[0]] + with_member(es.drop_first(), key, val)
    }
}

/// The member named `key` among `entries`.
pub fn find_member<'a>(entries: &'a Vec<(String, Json)>, key: &String) -> (r: Option<&'a Json>)
    ensures
        opt_view(r) == member(jv_entries(entries@), key@),
{
    proof { lemma_jv_entries(entries@); }
    let ghost es = jv_entries(entries@);
    let mut i: usize = 0;
    assert(es.skip(0) =~= es);
    while i < entries.len()
        invariant
            es == jv_entries(entries@),
            es.len() == entries@.len(),
            i <= entries@.len(),
            member(es, key@) == member(es.skip(i as int), key@),
        decreases entries@.len() - i,
    {
        proof { lemma_jv_entries(entries@); }
        assert(es[i as int] == (entries@[i as int].0@, jv(entries@[i as int].1)));
        if entries[i].0 == *key {
            return Some(&entries[i].1);
        }
        assert(es.skip(i as int).drop_first() =~= es.skip(i + 1));
        i = i + 1;
    }
    None
}

impl Json {
    /// The member `key` of an object; `None` for other values (`Value::get`).
    pub fn get(&self, key: &String) -> (r: Option<&Json>)
        ensures
            opt_view(r) == json_get(self@, key@),
    {
        match self {
            Json::Object(entries) => find_member(entries, key),
            _ => None,
        }
    }
}

/// Stores `key: val` among members kept in key order.
pub fn insert_member(entries: &mut Vec<(String, Json)>, key: String, val: Json)
    ensures
        jv_entries(final(entries)@) == with_member(jv_entries(old(entries)@), key@, val@),
{
    let ghost es = jv_entries(entries@);
    proof { lemma_jv_entries(entries@); }
    let ghost kv = (key@, val@);
    let mut i: usize = 0;
    assert(es.take(0) + es.skip(0) =~= es);
    assert(with_member(es, key@, val@) =~= es.take(0) + with_member(es.skip(0), key@, val@));
    while i < entries.len() && entries[i].0 != key && !text_less(&key, &entries[i].0)
        invariant
            es == jv_entries(entries@),
            es.len() == entries@.len(),
            i <= entries@.len(),
            with_member(es, key@, val@) == es.take(i as int) + with_member(es.skip(i as int), key@, val@),
        decreases entries@.len() - i,
    {
        proof { lemma_jv_entries(entries@); }
        let ghost rest = es.skip(i as int);
        assert(rest[0] == es[i as int]);
        assert(es[i as int] == (entries@[i as int].0@, jv(entries@[i as int].1)));
        assert(rest.drop_first() =~= es.skip(i + 1));
        assert(es.take(i as int) + seq![es[i as int]] =~= es.take(i + 1));
        assert(es.take(i as int) + (seq![rest[0]] + with_member(rest.drop_first(), key@, val@))
            =~= es.take(i + 1) + with_member(es.skip(i + 1), key@, val@));
        i = i + 1;
    }
    let ghost old_entries = entries@;
    if i == entries.len() {
        assert(es.skip(i as int) =~= Seq::<(Seq<char>, JsonV)>::empty());
        assert(es.take(i as int) =~= es);
        entries.push((key, val));
        proof { lemma_jv_entries_push(old_entries, (key, val)); }
        assert(with_member(es, key@, val@) =~= es.push(kv));
    } else if entries[i].0 == key {
        proof { lemma_jv_entries(entries@); }
        assert(es[i as int] == (entries@[i as int].0@, jv(entries@[i as int].1)));
        entries.set(i, (key, val));
        proof { lemma_jv_entries(entries@); }
        assert(jv_entries(entries@) =~= with_member(es, key@, val@));
    } else {
        proof { lemma_jv_entries(entries@); }
        assert(es[i as int] == (entries@[i as int].0@, jv(entries@[i as int].1)));
        entries.insert(i, (key, val));
        proof { lemma_jv_entries(entries@); }
        assert(jv_entries(entries@) =~= with_member(es, key@, val@));
    }
}

/// Lower-case hexadecimal digit.
pub open spec fn hex_digit(d: nat) -> char {
    if d < 10 { crate::text::digit_char(d) } else if d == 10 { 'a' } else if d == 11 { 'b' }
    else if d == 12 { 'c' } else if d == 13 { 'd' } else if d == 14 { 'e' } else { 'f' }
}

/// How compact JSON writes one character inside a string: quote, backslash and
/// the control characters are escaped, everything else stands as is.
pub open spec fn escape_char(c: char) -> Seq<char> {
    if c == '"' {
        seq!['\\', '"']
    } else if c == '\\' {
        seq!['\\', '\\']
    } else if c == '\u{8}' {
        seq!['\\', 'b']
    } else if c == '\u{c}' {
        seq!['\\', 'f']
    } else if c == '\n' {
        seq!['\\', 'n']
    } else if c == '\r' {
        seq!['\\', 'r']
    } else if c == '\t' {
        seq!['\\', 't']
    } else if (c as u32) < 0x20 {
        seq!['\\', 'u', '0', '0', hex_digit((c as u32 / 16) as nat), hex_digit((c as u32 % 16) as nat)]
    } else {
        seq![c]
    }
}

/// The escaped characters of a string.
pub open spec fn escaped(s: Seq<char>) -> Seq<char>
    decreases s.len(),
{
    if s.len() == 0 {
        seq![]
    } else {
        escaped(s.drop_last()) + escape_char(s.last())
    }
}

/// A string as a JSON string literal.
pub open spec fn quoted(s: Seq<char>) -> Seq<char> {
    seq!['"'] + escaped(s) + seq!['"']
}

/// Compact JSON text of a value: no white space, members in stored order.
pub open spec fn json_text(v: JsonV) -> Seq<char>
    decreases v, 0nat,
{
    match v {
        JsonV::Null => "null"@,
        JsonV::Bool(b) => if b { "true"@ } else { "false"@ },
        JsonV::Number(t) => t,
        JsonV::Str(s) => quoted(s),
        JsonV::Array(items) => "["@ + items_text(items) + "]"@,
        JsonV::Object(es) => "{"@ + members_text(es) + "}"@,
    }
}

/// Comma-separated texts of array elements.
pub open spec fn items_text(items: Seq<JsonV>) -> Seq<char>
    decreases items, 1nat,
{
    if items.len() == 0 {
        seq![]
    } else if items.len() == 1 {
        json_text(items[0])
    } else {
        items_text(items.drop_last()) + ","@ + json_text(items.last())
    }
}

/// Comma-separated `"key":value` texts of object members.
pub open spec fn members_text(es: Seq<(Seq<char>, JsonV)>) -> Seq<char>
    decreases es, 1nat,
{
    if es.len() == 0 {
        seq![]
    } else if es.len() == 1 {
        quoted(es[0].0) + ":"@ + json_text(es[0].1)
    } else {
        members_text(es.drop_last()) + ","@ + quoted(es.last().0) + ":"@ + json_text(es.last().1)
    }
}

fn hex_char(d: u32) -> (c: char)
    requires
        d < 16,
    ensures
        c == hex_digit(d as nat),
{
    if d == 0 { '0' } else if d == 1 { '1' } else if d == 2 { '2' } else if d == 3 { '3' }
    else if d == 4 { '4' } else if d == 5 { '5' } else if d == 6 { '6' } else if d == 7 { '7' }
    else if d == 8 { '8' } else if d == 9 { '9' } else if d == 10 { 'a' } else if d == 11 { 'b' }
    else if d == 12 { 'c' } else if d == 13 { 'd' } else if d == 14 { 'e' } else { 'f' }
}

fn push_escaped_char(out: &mut String, c: char)
    ensures
        final(out)@ == old(out)@ + escape_char(c),
{
    if c == '"' {
        push_char(out, '\\');
        push_char(out, '"');
    } else if c == '\\' {
        push_char(out, '\\');
        push_char(out, '\\');
    } else if c == '\u{8}' {
        push_char(out, '\\');
        push_char(out, 'b');
    } else if c == '\u{c}' {
        push_char(out, '\\');
        push_char(out, 'f');
    } else if c == '\n' {
        push_char(out, '\\');
        push_char(out, 'n');
    } else if c == '\r' {
        push_char(out, '\\');
        push_char(out, 'r');
    } else if c == '\t' {
        push_char(out, '\\');
        push_char(out, 't');
    } else if (c as u32) < 0x20 {
        push_char(out, '\\');
        push_char(out, 'u');
        push_char(out, '0');
        push_char(out, '0');
        push_char(out, hex_char(c as u32 / 16));
        push_char(out, hex_char(c as u32 % 16));
    } else {
        push_char(out, c);
    }
    assert(final(out)@ =~= old(out)@ + escape_char(c));
}

/// Appends `s` as a JSON string literal.
pub fn push_quoted(out: &mut String, s: &String)
    ensures
        final(out)@ == old(out)@ + quoted(s@),
{
    let cs = chars_of(s.as_str());
    let ghost start = out@;
    push_char(out, '"');
    let mut i: usize = 0;
    while i < cs.len()
        invariant
            cs@ == s@,
            i <= cs@.len(),
            out@ == start + seq!['"'] + escaped(cs@.take(i as int)),
        decreases cs@.len() - i,
    {
        assert(cs@.take(i + 1).drop_last() =~= cs@.take(i as int));
        push_escaped_char(out, cs[i]);
        i = i + 1;
        assert(out@ =~= start + seq!['"'] + escaped(cs@.take(i as int)));
    }
    assert(cs@.take(i as int) =~= s@);
    push_char(out, '"');
    assert(out@ =~= start + quoted(s@));
}

impl Json {
    /// Appends the compact JSON text of the value.
    pub fn write_text(&self, out: &mut String)
        ensures
            final(out)@ == old(out)@ + json_text(self@),
        decreases self,
    {
        let ghost start = out@;
        match self {
            Json::Null => append_text(out, "null"),
            Json::Bool(b) => if *b { append_text(out, "true") } else { append_text(out, "false") },
            Json::Number(n) => append_text(out, n.as_str()),
            Json::Str(t) => push_quoted(out, t),
            Json::Array(items) => {
                append_text(out, "[");
                let mut i: usize = 0;
                while i < items.len()
                    invariant
                        i <= items@.len(),
                        *self == Json::Array(*items),
                        out@ == start + "["@ + items_text(jv_items(items@.take(i as int))),
                    decreases items@.len() - i,
                {
                    proof {
                        lemma_jv_items_push(items@.take(i as int), items@[i as int]);
                        assert(items@.take(i as int).push(items@[i as int]) =~= items@.take(i + 1));
                        lemma_jv_items(items@.take(i as int));
                    }
                    if i > 0 {
                        append_text(out, ",");
                    }
                    proof {
                        assert(decreases_to!(*self => (*self)->Array_0));
                        assert(decreases_to!(items => items@));
                        assert(decreases_to!(items@ => items@[i as int]));
                    }
                    items[i].write_text(out);
                    i = i + 1;
                    proof {
                        let t = jv_items(items@.take(i as int));
                        assert(t.drop_last() == jv_items(items@.take(i - 1)));
                        if i == 1 {
                            assert(t =~= seq![jv(items@[0])]);
                        }
                    }
                    assert(out@ =~= start + "["@ + items_text(jv_items(items@.take(i as int))));
                }
                append_text(out, "]");
                assert(items@.take(i as int) =~= items@);
            },
            Json::Object(entries) => {
                append_text(out, "{");
                let mut i: usize = 0;
                while i < entries.len()
                    invariant
                        i <= entries@.len(),
                        *self == Json::Object(*entries),
                        out@ == start + "{"@ + members_text(jv_entries(entries@.take(i as int))),
                    decreases entries@.len() - i,
                {
                    proof {
                        lemma_jv_entries_push(entries@.take(i as int), entries@[i as int]);
                        assert(entries@.take(i as int).push(entries@[i as int]) =~= entries@.take(i + 1));
                        lemma_jv_entries(entries@.take(i as int));
                    }
                    if i > 0 {
                        append_text(out, ",");
                    }
                    push_quoted(out, &entries[i].0);
                    append_text(out, ":");
                    proof {
                        assert(decreases_to!(*self => (*self)->Object_0));
                        assert(decreases_to!(entries => entries@));
                        assert(decreases_to!(entries@ => entries@[i as int]));
                        assert(decreases_to!(entries@[i as int] => entries@[i as int].1));
                    }
                    entries[i].1.write_text(out);
                    i = i + 1;
                    proof {
                        let t = jv_entries(entries@.take(i as int));
                        assert(t.drop_last() == jv_entries(entries@.take(i - 1)));
                        if i == 1 {
                            assert(t =~= seq![(entries@[0].0@, jv(entries@[0].1))]);
                        }
                    }
                    assert(out@ =~= start + "{"@ + members_text(jv_entries(entries@.take(i as int))));
                }
                append_text(out, "}");
                assert(entries@.take(i as int) =~= entries@);
            },
        }
    }

    /// Compact JSON text of the value (`serde_json::to_string`).
    pub fn to_text(&self) -> (r: String)
        ensures
            r@ == json_text(self@),
    {
        let mut out = String::new();
        self.write_text(&mut out);
        assert(out@ =~= json_text(self@));
        out
    }
}

impl Json {
    /// A JSON string.
    pub fn text(s: &str) -> (r: Json)
        ensures
            r@ == JsonV::Str(s@),
    {
        Json::Str(text_of(s))
    }

    /// A JSON number from an unsigned integer.
    pub fn uint(n: u64) -> (r: Json)
        ensures
            r@ == JsonV::Number(decimal(n as nat)),
    {
        Json::Number(decimal_text(n))
    }

    /// A JSON number from a signed integer.
    pub fn signed(n: i64) -> (r: Json)
        ensures
            r@ == JsonV::Number(signed_decimal(n as int)),
    {
        Json::Number(signed_decimal_text(n))
    }

    /// An array of the given values.
    pub fn array(items: Vec<Json>) -> (r: Json)
        ensures
            r@ == JsonV::Array(jv_items(items@)),
    {
        Json::Array(items)
    }
}

/// A member `key: value`.
pub fn entry(key: &str, value: Json) -> (r: (String, Json))
    ensures
        r.0@ == key@,
        r.1@ == value@,
{
    (text_of(key), value)
}

/// Whether the members' keys are in strictly increasing order (the order of a
/// `serde_json::Map`, each key once).
pub open spec fn keys_sorted(es: Seq<(Seq<char>, JsonV)>) -> bool {
    forall|i: int, j: int| 0 <= i < j < es.len() ==> text_lt(#[trigger] es[i].0, #[trigger] es[j].0)
}

/// Storing a member into an object keeps its keys in order, each once; reading
/// the stored key gives the stored value, and every other key reads as before.
/// Every key of the result is the stored key or a key that was there.
pub proof fn lemma_with_member(es: Seq<(Seq<char>, JsonV)>, key: Seq<char>, val: JsonV)
    requires
        keys_sorted(es),
    ensures
        keys_sorted(with_member(es, key, val)),
        member(with_member(es, key, val), key) == Some(val),
        forall|k: Seq<char>| k != key ==> #[trigger] member(with_member(es, key, val), k) == member(es, k),
        forall|i: int| 0 <= i < with_member(es, key, val).len() ==>
            (#[trigger] with_member(es, key, val)[i]).0 == key
            || exists|j: int| 0 <= j < es.len() && es[j].0 == with_member(es, key, val)[i].0,
    decreases es.len(),
{
    let r = with_member(es, key, val);
    if es.len() == 0 {
        assert(r.drop_first() =~= seq![]);
        assert forall|k: Seq<char>| k != key implies #[trigger] member(r, k) == member(es, k) by {
            assert(member(r, k) == member(r.drop_first(), k));
        }
    } else if es[0].0 == key {
        assert(r.drop_first() =~= es.drop_first());
        assert forall|k: Seq<char>| k != key implies #[trigger] member(r, k) == member(es, k) by {
            assert(member(r, k) == member(r.drop_first(), k));
        }
        assert forall|i: int, j: int| 0 <= i < j < r.len() implies text_lt(#[trigger] r[i].0, #[trigger] r[j].0) by {
            assert(r[i].0 == es[i].0 && r[j].0 == es[j].0);
        }
        assert forall|i: int| 0 <= i < r.len() implies
            (#[trigger] r[i]).0 == key || exists|j: int| 0 <= j < es.len() && es[j].0 == r[i].0 by {
            assert(es[i].0 == r[i].0);
        }
    } else if text_lt(key, es[0].0) {
        assert(r.drop_first() =~= es);
        assert forall|k: Seq<char>| k != key implies #[trigger] member(r, k) == member(es, k) by {
            assert(member(r, k) == member(r.drop_first(), k));
        }
        assert forall|i: int, j: int| 0 <= i < j < r.len() implies text_lt(#[trigger] r[i].0, #[trigger] r[j].0) by {
            if i == 0 {
                if j > 1 {
                    lemma_text_lt_transitive(key, es[0].0, es[j - 1].0);
                }
            } else {
                assert(r[i] == es[i - 1] && r[j] == es[j - 1]);
            }
        }
        assert forall|i: int| 0 <= i < r.len() implies
            (#[trigger] r[i]).0 == key || exists|j: int| 0 <= j < es.len() && es[j].0 == r[i].0 by {
            if i > 0 {
                assert(es[i - 1].0 == r[i].0);
            }
        }
    } else {
        let rest = es.drop_first();
        assert(keys_sorted(rest)) by {
            assert forall|i: int, j: int| 0 <= i < j < rest.len() implies text_lt(#[trigger] rest[i].0, #[trigger] rest[j].0) by {
                assert(rest[i] == es[i + 1] && rest[j] == es[j + 1]);
            }
        }
        lemma_with_member(rest, key, val);
        let w = with_member(rest, key, val);
        assert(r == seq![es[0]] + w);
        assert(r.drop_first() =~= w);
        lemma_text_lt_total(key, es[0].0);
        assert forall|k: Seq<char>| k != key implies #[trigger] member(r, k) == member(es, k) by {
            assert(member(w, k) == member(rest, k));
        }
        assert forall|i: int, j: int| 0 <= i < j < r.len() implies text_lt(#[trigger] r[i].0, #[trigger] r[j].0) by {
            if i == 0 {
                assert(r[j] == w[j - 1]);
                if w[j - 1].0 != key {
                    let m = choose|m: int| 0 <= m < rest.len() && rest[m].0 == w[j - 1].0;
                    assert(rest[m] == es[m + 1]);
                }
            } else {
                assert(r[i] == w[i - 1] && r[j] == w[j - 1]);
            }
        }
        assert forall|i: int| 0 <= i < r.len() implies
            (#[trigger] r[i]).0 == key || exists|j: int| 0 <= j < es.len() && es[j].0 == r[i].0 by {
            if i == 0 {
                assert(es[0].0 == r[0].0);
            } else {
                assert(r[i] == w[i - 1]);
                if w[i - 1].0 != key {
                    let m = choose|m: int| 0 <= m < rest.len() && rest[m].0 == w[i - 1].0;
                    assert(es[m + 1].0 == r[i].0);
                }
            }
        }
    }
}

} // verus!
