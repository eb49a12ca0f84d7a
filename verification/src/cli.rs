//! The command-line grammar: options with long and short names, values
//! checked by kind, defaults, required options, repeated and multi-valued
//! options, and the message for each input the grammar refuses.

use vstd::prelude::*;
use crate::text::{
    append_text, chars_of, decimal, parse_i64, parse_i64_spec, parse_u64, parse_u64_spec, push_char, signed_decimal,
    push_signed_decimal, push_decimal, text_of,
};

verus! {

/// How an option takes its value.
#[derive(Clone, Copy, Debug)]
pub enum Kind {
    /// Any text.
    Text,
    /// A whole number from `min` to `u32::MAX`.
    Count,
    /// A whole number that fits in a `u64`.
    Big,
    /// One of a fixed list of texts.
    Choice,
    /// A flag that takes no value; present means `true`.
    Switch,
    /// `true` or `false`.
    Toggle,
    /// Texts collected over repeated occurrences.
    Many,
}

/// One option of a command.
pub struct Opt {
    /// The long name, without the leading `--`.
    pub long: String,
    /// The placeholder for the value in messages (`<LIMIT>`).
    pub name: String,
    /// The one-letter name, without the leading `-`.
    pub short: Option<char>,
    pub kind: Kind,
    /// The value taken when the option is not given.
    pub default: Option<&'static str>,
    /// Whether the option must be given.
    pub required: bool,
    /// Whether an empty text is refused.
    pub non_empty: bool,
    /// The least number a `Count` accepts.
    pub min: u32,
    /// The texts a `Choice` accepts.
    pub choices: Vec<&'static str>,
    /// Whether a `Many` option goes on taking the values that follow it.
    pub greedy: bool,
}

/// The mathematical value of an option.
pub struct OptV {
    pub long: Seq<char>,
    pub name: Seq<char>,
    pub short: Option<char>,
    pub kind: Kind,
    pub default: Option<Seq<char>>,
    pub required: bool,
    pub non_empty: bool,
    pub min: u32,
    pub choices: Seq<Seq<char>>,
    pub greedy: bool,
}

/// The texts of a list of literals.
pub open spec fn lits(s: Seq<&str>) -> Seq<Seq<char>> {
    Seq::new(s.len(), |i: int| s[i]@)
}

/// The view of an option.
pub open spec fn opt_view(o: Opt) -> OptV {
    OptV {
        long: o.long@,
        name: o.name@,
        short: o.short,
        kind: o.kind,
        default: match o.default { Some(d) => Some(d@), None => None },
        required: o.required,
        non_empty: o.non_empty,
        min: o.min,
        choices: lits(o.choices@),
        greedy: o.greedy,
    }
}

/// The views of options.
pub open spec fn opts_view(s: Seq<Opt>) -> Seq<OptV> {
    Seq::new(s.len(), |i: int| opt_view(s[i]))
}

/// A parsed option value.
pub enum Val {
    Missing,
    Text(String),
    Num(u64),
    Bool(bool),
    List(Vec<String>),
}

/// The mathematical value of a parsed option value.
pub enum ValV {
    Missing,
    Text(Seq<char>),
    Num(nat),
    Bool(bool),
    List(Seq<Seq<char>>),
}

/// The texts of strings.
pub open spec fn strings_view(s: Seq<String>) -> Seq<Seq<char>> {
    Seq::new(s.len(), |i: int| s[i]@)
}

/// The view of a parsed value.
pub open spec fn val_view(v: Val) -> ValV {
    match v {
        Val::Missing => ValV::Missing,
        Val::Text(t) => ValV::Text(t@),
        Val::Num(n) => ValV::Num(n as nat),
        Val::Bool(b) => ValV::Bool(b),
        Val::List(l) => ValV::List(strings_view(l@)),
    }
}

/// The views of parsed values.
pub open spec fn vals_view(s: Seq<Val>) -> Seq<ValV> {
    Seq::new(s.len(), |i: int| val_view(s[i]))
}

/// A refused command line and its message.
#[derive(Debug)]
pub struct CliError {
    pub message: String,
}

impl CliError {
    /// The message shown for the refused command line.
    pub fn message(&self) -> (r: String)
        ensures
            r@ == self.message@,
    {
        self.message.clone()
    }
}

/// How an option is shown in messages: `--limit <LIMIT>`, or `--flag`.
pub open spec fn arg_display(o: OptV) -> Seq<char> {
    if o.kind is Switch {
        "--"@ + o.long
    } else {
        "--"@ + o.long + " <"@ + o.name + ">"@
    }
}

/// The texts joined with `sep` between them.
pub open spec fn joined(s: Seq<Seq<char>>, sep: Seq<char>) -> Seq<char>
    decreases s.len(),
{
    if s.len() == 0 {
        seq![]
    } else if s.len() == 1 {
        s[0]
    } else {
        joined(s.drop_last(), sep) + sep + s.last()
    }
}

/// A token that is no option of the command.
pub open spec fn unexpected_msg(t: Seq<char>) -> Seq<char> {
    "error: unexpected argument '"@ + t + "' found"@
}

/// An option given without its value, or with an empty one where none is allowed.
pub open spec fn missing_value_msg(o: OptV) -> Seq<char> {
    "error: a value is required for '"@ + arg_display(o) + "' but none was supplied"@
}

/// A value outside the accepted list.
pub open spec fn invalid_choice_msg(o: OptV, v: Seq<char>, choices: Seq<Seq<char>>) -> Seq<char> {
    "error: invalid value '"@ + v + "' for '"@ + arg_display(o) + "'\n  [possible values: "@ + joined(choices, ", "@) + "]"@
}

/// A value that is no whole number.
pub open spec fn invalid_number_msg(o: OptV, v: Seq<char>) -> Seq<char> {
    "error: invalid value '"@ + v + "' for '"@ + arg_display(o) + "': "@
        + if v.len() == 0 { "cannot parse integer from empty string"@ } else { "invalid digit found in string"@ }
}

/// A whole number outside `min..=u32::MAX`.
pub open spec fn out_of_range_msg(o: OptV, v: Seq<char>, n: int) -> Seq<char> {
    "error: invalid value '"@ + v + "' for '"@ + arg_display(o) + "': "@ + signed_decimal(n) + " is not in "@
        + decimal(o.min as nat) + "..=4294967295"@
}

/// An option given twice.
pub open spec fn multiple_msg(o: OptV) -> Seq<char> {
    "error: the argument '"@ + arg_display(o) + "' cannot be used multiple times"@
}

/// A value attached to a flag.
pub open spec fn unexpected_value_msg(o: OptV, v: Seq<char>) -> Seq<char> {
    "error: unexpected value '"@ + v + "' for '"@ + arg_display(o) + "' found; no more were expected"@
}

/// The required options left out, one per line.
pub open spec fn required_lines(missing: Seq<OptV>) -> Seq<char>
    decreases missing.len(),
{
    if missing.len() == 0 {
        seq![]
    } else {
        required_lines(missing.drop_last()) + "\n  "@ + arg_display(missing.last())
    }
}

/// Required options left out.
pub open spec fn required_msg(missing: Seq<OptV>) -> Seq<char> {
    "error: the following required arguments were not provided:"@ + required_lines(missing)
}

/// The value of `v` for option `o`, or the message refusing it.
pub open spec fn value_of(o: OptV, v: Seq<char>) -> Result<ValV, Seq<char>> {
    match o.kind {
        Kind::Text => if o.non_empty && v.len() == 0 { Err(missing_value_msg(o)) } else { Ok(ValV::Text(v)) },
        Kind::Count => match parse_i64_spec(v) {
            None => Err(invalid_number_msg(o, v)),
            Some(n) => if n < o.min || n > u32::MAX { Err(out_of_range_msg(o, v, n as int)) } else { Ok(ValV::Num(n as nat)) },
        },
        Kind::Big => match parse_u64_spec(v) {
            None => Err(invalid_number_msg(o, v)),
            Some(n) => Ok(ValV::Num(n as nat)),
        },
        Kind::Choice => if o.choices.contains(v) { Ok(ValV::Text(v)) } else { Err(invalid_choice_msg(o, v, o.choices)) },
        Kind::Toggle => if v == "true"@ {
            Ok(ValV::Bool(true))
        } else if v == "false"@ {
            Ok(ValV::Bool(false))
        } else {
            Err(invalid_choice_msg(o, v, seq!["true"@, "false"@]))
        },
        Kind::Switch => Ok(ValV::Bool(true)),
        Kind::Many => Ok(ValV::Text(v)),
    }
}

fn push_display(out: &mut String, o: &Opt)
    ensures
        final(out)@ == old(out)@ + arg_display(opt_view(*o)),
{
    append_text(out, "--");
    append_text(out, o.long.as_str());
    match o.kind {
        Kind::Switch => {},
        _ => {
            append_text(out, " <");
            append_text(out, o.name.as_str());
            append_text(out, ">");
        },
    }
    assert(final(out)@ =~= old(out)@ + arg_display(opt_view(*o)));
}

fn push_joined(out: &mut String, items: &Vec<&'static str>, sep: &str)
    ensures
        final(out)@ == old(out)@ + joined(lits(items@), sep@),
{
    let ghost start = out@;
    let mut i: usize = 0;
    while i < items.len()
        invariant
            i <= items@.len(),
            out@ == start + joined(lits(items@).take(i as int), sep@),
        decreases items@.len() - i,
    {
        proof {
            let t = lits(items@).take(i + 1);
            assert(t.drop_last() =~= lits(items@).take(i as int));
            assert(t.last() == items@[i as int]@);
        }
        if i > 0 {
            append_text(out, sep);
        }
        append_text(out, items[i]);
        i = i + 1;
        proof {
            if i == 1 {
                assert(joined(lits(items@).take(1), sep@) == lits(items@).take(1)[0]);
            }
        }
        assert(out@ =~= start + joined(lits(items@).take(i as int), sep@));
    }
    assert(lits(items@).take(i as int) =~= lits(items@));
}

fn missing_value_error(o: &Opt) -> (r: String)
    ensures
        r@ == missing_value_msg(opt_view(*o)),
{
    let mut m = text_of("error: a value is required for '");
    push_display(&mut m, o);
    append_text(&mut m, "' but none was supplied");
    m
}

fn invalid_choice_error(o: &Opt, v: &str, choices: &Vec<&'static str>) -> (r: String)
    ensures
        r@ == invalid_choice_msg(opt_view(*o), v@, lits(choices@)),
{
    let mut m = text_of("error: invalid value '");
    append_text(&mut m, v);
    append_text(&mut m, "' for '");
    push_display(&mut m, o);
    append_text(&mut m, "'\n  [possible values: ");
    push_joined(&mut m, choices, ", ");
    append_text(&mut m, "]");
    m
}

fn invalid_number_error(o: &Opt, v: &str) -> (r: String)
    ensures
        r@ == invalid_number_msg(opt_view(*o), v@),
{
    let mut m = text_of("error: invalid value '");
    append_text(&mut m, v);
    append_text(&mut m, "' for '");
    push_display(&mut m, o);
    append_text(&mut m, "': ");
    let cs = chars_of(v);
    if cs.len() == 0 {
        append_text(&mut m, "cannot parse integer from empty string");
    } else {
        append_text(&mut m, "invalid digit found in string");
    }
    m
}

fn out_of_range_error(o: &Opt, v: &str, n: i64) -> (r: String)
    ensures
        r@ == out_of_range_msg(opt_view(*o), v@, n as int),
{
    let mut m = text_of("error: invalid value '");
    append_text(&mut m, v);
    append_text(&mut m, "' for '");
    push_display(&mut m, o);
    append_text(&mut m, "': ");
    push_signed_decimal(&mut m, n);
    append_text(&mut m, " is not in ");
    push_decimal(&mut m, o.min as u64);
    append_text(&mut m, "..=4294967295");
    m
}

fn multiple_error(o: &Opt) -> (r: String)
    ensures
        r@ == multiple_msg(opt_view(*o)),
{
    let mut m = text_of("error: the argument '");
    push_display(&mut m, o);
    append_text(&mut m, "' cannot be used multiple times");
    m
}

fn unexpected_value_error(o: &Opt, v: &str) -> (r: String)
    ensures
        r@ == unexpected_value_msg(opt_view(*o), v@),
{
    let mut m = text_of("error: unexpected value '");
    append_text(&mut m, v);
    append_text(&mut m, "' for '");
    push_display(&mut m, o);
    append_text(&mut m, "' found; no more were expected");
    m
}

fn unexpected_error(t: &str) -> (r: String)
    ensures
        r@ == unexpected_msg(t@),
{
    let mut m = text_of("error: unexpected argument '");
    append_text(&mut m, t);
    append_text(&mut m, "' found");
    m
}

fn is_listed(choices: &Vec<&'static str>, v: &str) -> (r: bool)
    ensures
        r == lits(choices@).contains(v@),
{
    let t = text_of(v);
    let mut i: usize = 0;
    while i < choices.len()
        invariant
            t@ == v@,
            i <= choices@.len(),
            forall|j: int| 0 <= j < i ==> lits(choices@)[j] != v@,
        decreases choices@.len() - i,
    {
        if text_of(choices[i]) == t {
            assert(lits(choices@)[i as int] == v@);
            return true;
        }
        i = i + 1;
    }
    false
}

/// The value of `v` for option `o`, or the message refusing it.
pub fn check_value(o: &Opt, v: &str) -> (r: Result<Val, String>)
    ensures
        match r {
            Ok(x) => value_of(opt_view(*o), v@) == Ok::<ValV, Seq<char>>(val_view(x)),
            Err(m) => value_of(opt_view(*o), v@) == Err::<ValV, Seq<char>>(m@),
        },
{
    match o.kind {
        Kind::Text => {
            let cs = chars_of(v);
            if o.non_empty && cs.len() == 0 {
                Err(missing_value_error(o))
            } else {
                Ok(Val::Text(text_of(v)))
            }
        },
        Kind::Count => {
            let cs = chars_of(v);
            match parse_i64(&cs) {
                None => Err(invalid_number_error(o, v)),
                Some(n) => {
                    if n < o.min as i64 || n > 4294967295i64 {
                        Err(out_of_range_error(o, v, n))
                    } else {
                        Ok(Val::Num(n as u64))
                    }
                },
            }
        },
        Kind::Big => {
            let cs = chars_of(v);
            match parse_u64(&cs) {
                None => Err(invalid_number_error(o, v)),
                Some(n) => Ok(Val::Num(n)),
            }
        },
        Kind::Choice => {
            if is_listed(&o.choices, v) {
                Ok(Val::Text(text_of(v)))
            } else {
                Err(invalid_choice_error(o, v, &o.choices))
            }
        },
        Kind::Toggle => {
            let t = text_of(v);
            if t == text_of("true") {
                Ok(Val::Bool(true))
            } else if t == text_of("false") {
                Ok(Val::Bool(false))
            } else {
                let bools: Vec<&'static str> = vec!["true", "false"];
                assert(lits(bools@) =~= seq!["true"@, "false"@]);
                Err(invalid_choice_error(o, v, &bools))
            }
        },
        Kind::Switch => Ok(Val::Bool(true)),
        Kind::Many => Ok(Val::Text(text_of(v))),
    }
}

/// The first option from `k` on whose long name is `name`.
pub open spec fn find_long(opts: Seq<OptV>, name: Seq<char>, k: int) -> Option<int>
    decreases opts.len() - k,
{
    if k < 0 || k >= opts.len() {
        None
    } else if opts[k].long == name {
        Some(k)
    } else {
        find_long(opts, name, k + 1)
    }
}

/// The first option from `k` on whose one-letter name is `c`.
pub open spec fn find_short(opts: Seq<OptV>, c: char, k: int) -> Option<int>
    decreases opts.len() - k,
{
    if k < 0 || k >= opts.len() {
        None
    } else if opts[k].short == Some(c) {
        Some(k)
    } else {
        find_short(opts, c, k + 1)
    }
}

/// The position of the first `=` in `s` from `k` on.
pub open spec fn first_eq(s: Seq<char>, k: int) -> Option<int>
    decreases s.len() - k,
{
    if k < 0 || k >= s.len() {
        None
    } else if s[k] == '=' {
        Some(k)
    } else {
        first_eq(s, k + 1)
    }
}

/// The option a token names, with the value attached to it: `--long`,
/// `--long=value`, `-s`, or `-svalue` / `-s=value`.
pub open spec fn recognize(opts: Seq<OptV>, t: Seq<char>) -> Option<(int, Option<Seq<char>>)> {
    if t.len() > 2 && t[0] == '-' && t[1] == '-' {
        let body = t.skip(2);
        match first_eq(body, 0) {
            Some(e) => match find_long(opts, body.take(e), 0) {
                Some(k) => Some((k, Some(body.skip(e + 1)))),
                None => None,
            },
            None => match find_long(opts, body, 0) {
                Some(k) => Some((k, None)),
                None => None,
            },
        }
    } else if t.len() >= 2 && t[0] == '-' && t[1] != '-' {
        match find_short(opts, t[1], 0) {
            Some(k) => if t.len() == 2 {
                Some((k, None))
            } else if t[2] == '=' {
                Some((k, Some(t.skip(3))))
            } else {
                Some((k, Some(t.skip(2))))
            },
            None => None,
        }
    } else {
        None
    }
}

/// Whether a token reads as an option rather than a value.
pub open spec fn flag_like(t: Seq<char>) -> bool {
    t.len() > 1 && t[0] == '-'
}

/// The texts collected so far for a `Many` option.
pub open spec fn list_of(v: ValV) -> Seq<Seq<char>> {
    match v {
        ValV::List(l) => l,
        _ => seq![],
    }
}

/// Reads the tokens from `i` on into `vals`. `pending` is the multi-valued
/// option that takes the values following it.
pub open spec fn scan(opts: Seq<OptV>, args: Seq<Seq<char>>, i: int, vals: Seq<ValV>, pending: Option<int>) -> Result<Seq<ValV>, Seq<char>>
    decreases args.len() - i,
{
    if i < 0 || i >= args.len() {
        Ok(vals)
    } else if pending is Some && !flag_like(args[i]) {
        let k = pending->0;
        scan(opts, args, i + 1, vals.update(k, ValV::List(list_of(vals[k]).push(args[i]))), pending)
    } else {
        match recognize(opts, args[i]) {
            None => Err(unexpected_msg(args[i])),
            Some((k, inline)) => {
                let o = opts[k];
                if o.kind is Switch {
                    if inline is Some {
                        Err(unexpected_value_msg(o, inline->0))
                    } else if !(vals[k] is Missing) {
                        Err(multiple_msg(o))
                    } else {
                        scan(opts, args, i + 1, vals.update(k, ValV::Bool(true)), None)
                    }
                } else {
                    let given: Option<(Seq<char>, int)> = match inline {
                        Some(v) => Some((v, i + 1)),
                        None => if i + 1 < args.len() && !flag_like(args[i + 1]) { Some((args[i + 1], i + 2)) } else { None },
                    };
                    match given {
                        None => Err(missing_value_msg(o)),
                        Some((v, next)) => if !(o.kind is Many) && !(vals[k] is Missing) {
                            Err(multiple_msg(o))
                        } else {
                            match value_of(o, v) {
                                Err(e) => Err(e),
                                Ok(x) => if o.kind is Many {
                                    scan(opts, args, next, vals.update(k, ValV::List(list_of(vals[k]).push(v))),
                                        if o.greedy { Some(k) } else { None })
                                } else {
                                    scan(opts, args, next, vals.update(k, x), None)
                                },
                            }
                        },
                    }
                }
            },
        }
    }
}

/// The value an option has when it was not given: `false` for a flag, no
/// texts for a multi-valued option, its default when it has one.
pub open spec fn filled(o: OptV, v: ValV) -> ValV {
    if v is Missing {
        match o.kind {
            Kind::Switch => ValV::Bool(false),
            Kind::Many => ValV::List(seq![]),
            _ => match o.default {
                Some(d) => match value_of(o, d) {
                    Ok(x) => x,
                    Err(_) => ValV::Missing,
                },
                None => ValV::Missing,
            },
        }
    } else {
        v
    }
}

/// The required options among the first `n` that were not given.
pub open spec fn missing_required(opts: Seq<OptV>, vals: Seq<ValV>, n: int) -> Seq<OptV>
    decreases n,
{
    if n <= 0 {
        seq![]
    } else {
        missing_required(opts, vals, n - 1) + if opts[n - 1].required && vals[n - 1] is Missing {
            seq![opts[n - 1]]
        } else {
            seq![]
        }
    }
}

/// No option given yet.
pub open spec fn all_missing(n: nat) -> Seq<ValV> {
    Seq::new(n, |k: int| ValV::Missing)
}

/// What a command line from token `start` on gives for `opts`: the value of
/// each option, or the message of the first refusal.
pub open spec fn parse_opts(opts: Seq<OptV>, args: Seq<Seq<char>>, start: int) -> Result<Seq<ValV>, Seq<char>> {
    match scan(opts, args, start, all_missing(opts.len()), None) {
        Err(e) => Err(e),
        Ok(vals) => {
            let missing = missing_required(opts, vals, opts.len() as int);
            if missing.len() > 0 {
                Err(required_msg(missing))
            } else {
                Ok(Seq::new(opts.len(), |k: int| filled(opts[k], vals[k])))
            }
        },
    }
}

fn find_long_index(opts: &Vec<Opt>, name: &String) -> (r: Option<usize>)
    ensures
        match r {
            Some(k) => find_long(opts_view(opts@), name@, 0) == Some(k as int),
            None => find_long(opts_view(opts@), name@, 0) is None,
        },
{
    let ghost ov = opts_view(opts@);
    let mut i: usize = 0;
    while i < opts.len()
        invariant
            ov == opts_view(opts@),
            i <= opts@.len(),
            find_long(ov, name@, 0) == find_long(ov, name@, i as int),
        decreases opts@.len() - i,
    {
        assert(ov[i as int].long == opts@[i as int].long@);
        if opts[i].long == *name {
            return Some(i);
        }
        i = i + 1;
    }
    None
}

fn find_short_index(opts: &Vec<Opt>, c: char) -> (r: Option<usize>)
    ensures
        match r {
            Some(k) => find_short(opts_view(opts@), c, 0) == Some(k as int),
            None => find_short(opts_view(opts@), c, 0) is None,
        },
{
    let ghost ov = opts_view(opts@);
    let mut i: usize = 0;
    while i < opts.len()
        invariant
            ov == opts_view(opts@),
            i <= opts@.len(),
            find_short(ov, c, 0) == find_short(ov, c, i as int),
        decreases opts@.len() - i,
    {
        assert(ov[i as int].short == opts@[i as int].short);
        match opts[i].short {
            Some(x) => {
                if x == c {
                    return Some(i);
                }
            },
            None => {},
        }
        i = i + 1;
    }
    None
}

/// The characters of `cs` from `a` up to `b`.
fn text_between(cs: &Vec<char>, a: usize, b: usize) -> (r: String)
    requires
        a <= b <= cs@.len(),
    ensures
        r@ == cs@.subrange(a as int, b as int),
{
    let mut out = String::new();
    let mut i: usize = a;
    while i < b
        invariant
            a <= i <= b,
            b <= cs@.len(),
            out@ == cs@.subrange(a as int, i as int),
        decreases b - i,
    {
        push_char(&mut out, cs[i]);
        i = i + 1;
        assert(out@ =~= cs@.subrange(a as int, i as int));
    }
    out
}

fn reads_as_option(t: &str) -> (r: bool)
    ensures
        r == flag_like(t@),
{
    let cs = chars_of(t);
    cs.len() > 1 && cs[0] == '-'
}

fn recognize_token(opts: &Vec<Opt>, t: &str) -> (r: Option<(usize, Option<String>)>)
    ensures
        match r {
            Some((k, inline)) => recognize(opts_view(opts@), t@) == Some((k as int, match inline { Some(v) => Some(v@), None => None::<Seq<char>> })),
            None => recognize(opts_view(opts@), t@) is None,
        },
{
    let cs = chars_of(t);
    let n = cs.len();
    if n > 2 && cs[0] == '-' && cs[1] == '-' {
        let ghost body = t@.skip(2);
        let mut e: usize = 2;
        while e < n && cs[e] != '='
            invariant
                cs@ == t@,
                n == cs@.len(),
                body == t@.skip(2),
                2 <= e <= n,
                first_eq(body, 0) == first_eq(body, e - 2),
            decreases n - e,
        {
            assert(body[e - 2] == cs@[e as int]);
            e = e + 1;
        }
        if e < n {
            assert(body[e - 2] == '=');
            assert(first_eq(body, 0) == Some(e - 2));
            let name = text_between(&cs, 2, e);
            assert(name@ =~= body.take(e - 2));
            match find_long_index(opts, &name) {
                Some(k) => {
                    let v = text_between(&cs, e + 1, n);
                    assert(v@ =~= body.skip(e - 2 + 1));
                    Some((k, Some(v)))
                },
                None => None,
            }
        } else {
            assert(first_eq(body, 0) is None);
            let name = text_between(&cs, 2, n);
            assert(name@ =~= body);
            match find_long_index(opts, &name) {
                Some(k) => Some((k, None)),
                None => None,
            }
        }
    } else if n >= 2 && cs[0] == '-' && cs[1] != '-' {
        match find_short_index(opts, cs[1]) {
            Some(k) => if n == 2 {
                Some((k, None))
            } else if cs[2] == '=' {
                let v = text_between(&cs, 3, n);
                assert(v@ =~= t@.skip(3));
                Some((k, Some(v)))
            } else {
                let v = text_between(&cs, 2, n);
                assert(v@ =~= t@.skip(2));
                Some((k, Some(v)))
            },
            None => None,
        }
    } else {
        None
    }
}

/// The option index a pending multi-valued option has, as an integer.
pub open spec fn pending_view(p: Option<usize>) -> Option<int> {
    match p {
        Some(k) => Some(k as int),
        None => None,
    }
}

fn copy_strings(l: &Vec<String>) -> (r: Vec<String>)
    ensures
        strings_view(r@) == strings_view(l@),
{
    let mut out: Vec<String> = Vec::new();
    let mut i: usize = 0;
    while i < l.len()
        invariant
            i <= l@.len(),
            out@.len() == i,
            strings_view(out@) == strings_view(l@.take(i as int)),
        decreases l@.len() - i,
    {
        let c = l[i].clone();
        assert(c@ == l@[i as int]@);
        let ghost prev = out@;
        out.push(c);
        proof {
            assert forall|j: int| 0 <= j < i implies #[trigger] out@[j]@ == l@[j]@ by {
                assert(out@[j] == prev[j]);
                assert(strings_view(prev)[j] == strings_view(l@.take(i as int))[j]);
            }
        }
        i = i + 1;
        assert(strings_view(out@) =~= strings_view(l@.take(i as int)));
    }
    assert(l@.take(i as int) =~= l@);
    out
}

fn copy_val(v: &Val) -> (r: Val)
    ensures
        val_view(r) == val_view(*v),
{
    match v {
        Val::Missing => Val::Missing,
        Val::Text(t) => Val::Text(t.clone()),
        Val::Num(n) => Val::Num(*n),
        Val::Bool(b) => Val::Bool(*b),
        Val::List(l) => Val::List(copy_strings(l)),
    }
}

fn is_missing(v: &Val) -> (r: bool)
    ensures
        r == (val_view(*v) is Missing),
{
    match v {
        Val::Missing => true,
        _ => false,
    }
}

fn set_val(vals: &mut Vec<Val>, k: usize, x: Val)
    requires
        k < old(vals)@.len(),
    ensures
        vals_view(final(vals)@) == vals_view(old(vals)@).update(k as int, val_view(x)),
        final(vals)@.len() == old(vals)@.len(),
{
    let ghost xv = val_view(x);
    vals.set(k, x);
    assert(vals_view(vals@) =~= vals_view(old(vals)@).update(k as int, xv));
}

fn append_to(vals: &mut Vec<Val>, k: usize, t: &str)
    requires
        k < old(vals)@.len(),
    ensures
        vals_view(final(vals)@) == vals_view(old(vals)@).update(k as int, ValV::List(list_of(vals_view(old(vals)@)[k as int]).push(t@))),
        final(vals)@.len() == old(vals)@.len(),
{
    let mut l: Vec<String> = match &vals[k] {
        Val::List(l) => copy_strings(l),
        _ => Vec::new(),
    };
    assert(strings_view(l@) == list_of(vals_view(vals@)[k as int]));
    l.push(text_of(t));
    assert(strings_view(l@) =~= list_of(vals_view(old(vals)@)[k as int]).push(t@));
    set_val(vals, k, Val::List(l));
}

fn fill_value(o: &Opt, v: &Val) -> (r: Val)
    ensures
        val_view(r) == filled(opt_view(*o), val_view(*v)),
{
    match v {
        Val::Missing => match o.kind {
            Kind::Switch => Val::Bool(false),
            Kind::Many => {
                let l: Vec<String> = Vec::new();
                assert(strings_view(l@) =~= seq![]);
                Val::List(l)
            },
            _ => match o.default {
                Some(d) => match check_value(o, d) {
                    Ok(x) => x,
                    Err(_) => Val::Missing,
                },
                None => Val::Missing,
            },
        },
        _ => copy_val(v),
    }
}

/// The values of `opts` on the command line from token `start` on, or the
/// message of the first refusal.
pub fn parse_options(opts: &Vec<Opt>, args: &[&str], start: usize) -> (r: Result<Vec<Val>, CliError>)
    requires
        start <= args@.len(),
    ensures
        match r {
            Ok(v) => parse_opts(opts_view(opts@), lits(args@), start as int) == Ok::<Seq<ValV>, Seq<char>>(vals_view(v@)),
            Err(e) => parse_opts(opts_view(opts@), lits(args@), start as int) == Err::<Seq<ValV>, Seq<char>>(e.message@),
        },
{
    let ghost ov = opts_view(opts@);
    let ghost av = lits(args@);
    let ghost init = all_missing(ov.len());
    let mut vals: Vec<Val> = Vec::new();
    let mut k: usize = 0;
    while k < opts.len()
        invariant
            k <= opts@.len(),
            vals@.len() == k,
            forall|j: int| 0 <= j < k ==> vals@[j] is Missing,
        decreases opts@.len() - k,
    {
        vals.push(Val::Missing);
        k = k + 1;
    }
    assert(vals_view(vals@) =~= init);
    let mut i: usize = start;
    let mut pending: Option<usize> = None;
    while i < args.len()
        invariant
            ov == opts_view(opts@),
            av == lits(args@),
            init == all_missing(ov.len()),
            start <= i <= args@.len(),
            vals@.len() == opts@.len(),
            pending matches Some(p) ==> p < opts@.len(),
            scan(ov, av, start as int, init, None) == scan(ov, av, i as int, vals_view(vals@), pending_view(pending)),
        decreases args@.len() - i,
    {
        let t = args[i];
        assert(av[i as int] == t@);
        let ghost before = vals_view(vals@);
        if pending.is_some() && !reads_as_option(t) {
            let p = pending.unwrap();
            append_to(&mut vals, p, t);
            i = i + 1;
            continue;
        }
        match recognize_token(opts, t) {
            None => {
                return Err(CliError { message: unexpected_error(t) });
            },
            Some((k, inline)) => {
                assert(k < opts@.len()) by {
                    lemma_recognized_in_range(ov, t@);
                }
                let o = &opts[k];
                assert(ov[k as int] == opt_view(*o));
                match o.kind {
                    Kind::Switch => {
                        match inline {
                            Some(v) => {
                                return Err(CliError { message: unexpected_value_error(o, v.as_str()) });
                            },
                            None => {},
                        }
                        if !is_missing(&vals[k]) {
                            return Err(CliError { message: multiple_error(o) });
                        }
                        set_val(&mut vals, k, Val::Bool(true));
                        pending = None;
                        i = i + 1;
                    },
                    _ => {
                        let next: usize;
                        let v: String;
                        match inline {
                            Some(x) => {
                                v = x;
                                next = i + 1;
                            },
                            None => {
                                if i + 1 < args.len() && !reads_as_option(args[i + 1]) {
                                    assert(av[i + 1] == args@[i + 1]@);
                                    v = text_of(args[i + 1]);
                                    next = i + 2;
                                } else {
                                    return Err(CliError { message: missing_value_error(o) });
                                }
                            },
                        }
                        let many = match o.kind {
                            Kind::Many => true,
                            _ => false,
                        };
                        if !many && !is_missing(&vals[k]) {
                            return Err(CliError { message: multiple_error(o) });
                        }
                        match check_value(o, v.as_str()) {
                            Err(m) => {
                                return Err(CliError { message: m });
                            },
                            Ok(x) => {
                                if many {
                                    append_to(&mut vals, k, v.as_str());
                                    pending = if o.greedy { Some(k) } else { None };
                                } else {
                                    set_val(&mut vals, k, x);
                                    pending = None;
                                }
                                i = next;
                            },
                        }
                    },
                }
            },
        }
    }
    let ghost scanned = vals_view(vals@);
    assert(scan(ov, av, start as int, init, None) == Ok::<Seq<ValV>, Seq<char>>(scanned));
    let mut msg = text_of("error: the following required arguments were not provided:");
    let ghost head = msg@;
    let mut any = false;
    let mut j: usize = 0;
    while j < opts.len()
        invariant
            ov == opts_view(opts@),
            scanned == vals_view(vals@),
            vals@.len() == opts@.len(),
            j <= opts@.len(),
            msg@ == head + required_lines(missing_required(ov, scanned, j as int)),
            any == (missing_required(ov, scanned, j as int).len() > 0),
        decreases opts@.len() - j,
    {
        assert(ov[j as int] == opt_view(opts@[j as int]));
        if opts[j].required && is_missing(&vals[j]) {
            append_text(&mut msg, "\n  ");
            push_display(&mut msg, &opts[j]);
            any = true;
            proof {
                let m = missing_required(ov, scanned, j as int);
                assert(missing_required(ov, scanned, j + 1) == m.push(ov[j as int]));
                assert(m.push(ov[j as int]).drop_last() =~= m);
            }
        } else {
            assert(missing_required(ov, scanned, j + 1) =~= missing_required(ov, scanned, j as int));
        }
        j = j + 1;
    }
    if any {
        return Err(CliError { message: msg });
    }
    let mut out: Vec<Val> = Vec::new();
    let mut j: usize = 0;
    while j < opts.len()
        invariant
            ov == opts_view(opts@),
            scanned == vals_view(vals@),
            vals@.len() == opts@.len(),
            j <= opts@.len(),
            out@.len() == j,
            vals_view(out@) == Seq::new(j as nat, |m: int| filled(ov[m], scanned[m])),
        decreases opts@.len() - j,
    {
        let f = fill_value(&opts[j], &vals[j]);
        assert(ov[j as int] == opt_view(opts@[j as int]));
        assert(scanned[j as int] == val_view(vals@[j as int]));
        let ghost prev = out@;
        out.push(f);
        proof {
            assert forall|m: int| 0 <= m < j implies #[trigger] val_view(out@[m]) == filled(ov[m], scanned[m]) by {
                assert(out@[m] == prev[m]);
                assert(vals_view(prev)[m] == val_view(prev[m]));
            }
        }
        j = j + 1;
        assert(vals_view(out@) =~= Seq::new(j as nat, |m: int| filled(ov[m], scanned[m])));
    }
    Ok(out)
}

proof fn lemma_find_long_range(opts: Seq<OptV>, name: Seq<char>, k: int)
    ensures
        find_long(opts, name, k) matches Some(x) ==> 0 <= x < opts.len(),
    decreases opts.len() - k,
{
    if 0 <= k < opts.len() && opts[k].long != name {
        lemma_find_long_range(opts, name, k + 1);
    }
}

proof fn lemma_find_short_range(opts: Seq<OptV>, c: char, k: int)
    ensures
        find_short(opts, c, k) matches Some(x) ==> 0 <= x < opts.len(),
    decreases opts.len() - k,
{
    if 0 <= k < opts.len() && opts[k].short != Some(c) {
        lemma_find_short_range(opts, c, k + 1);
    }
}

proof fn lemma_recognized_in_range(opts: Seq<OptV>, t: Seq<char>)
    ensures
        recognize(opts, t) matches Some((k, _)) ==> 0 <= k < opts.len(),
{
    let body = t.skip(2);
    match first_eq(body, 0) {
        Some(e) => lemma_find_long_range(opts, body.take(e), 0),
        None => lemma_find_long_range(opts, body, 0),
    }
    if t.len() >= 2 {
        lemma_find_short_range(opts, t[1], 0);
    }
}

/// The text of a value; empty for any other value.
pub open spec fn text_val(v: ValV) -> Seq<char> {
    match v {
        ValV::Text(t) => t,
        _ => seq![],
    }
}

/// The text of a value, if it is one.
pub open spec fn opt_text_val(v: ValV) -> Option<Seq<char>> {
    match v {
        ValV::Text(t) => Some(t),
        _ => None,
    }
}

/// The number of a value that fits in a `u32`; 0 for any other value.
pub open spec fn count_val(v: ValV) -> u32 {
    match v {
        ValV::Num(n) => if n <= u32::MAX { n as u32 } else { 0 },
        _ => 0,
    }
}

/// The number of a value that fits in a `u64`; 0 for any other value.
pub open spec fn big_val(v: ValV) -> u64 {
    match v {
        ValV::Num(n) => if n <= u64::MAX { n as u64 } else { 0 },
        _ => 0,
    }
}

/// The truth of a value; `false` for any other value.
pub open spec fn bool_val(v: ValV) -> bool {
    match v {
        ValV::Bool(b) => b,
        _ => false,
    }
}

/// The texts of a value; none for any other value.
pub open spec fn list_val(v: ValV) -> Seq<Seq<char>> {
    match v {
        ValV::List(l) => l,
        _ => seq![],
    }
}

/// The output format a value names: `table`, `full`, otherwise JSON.
pub open spec fn format_val(v: ValV) -> crate::output::Format {
    if text_val(v) == "table"@ {
        crate::output::Format::Table
    } else if text_val(v) == "full"@ {
        crate::output::Format::Full
    } else {
        crate::output::Format::Json
    }
}

/// The text of value `k`.
pub fn text_at(vals: &Vec<Val>, k: usize) -> (r: String)
    requires
        k < vals@.len(),
    ensures
        r@ == text_val(val_view(vals@[k as int])),
{
    match &vals[k] {
        Val::Text(t) => t.clone(),
        _ => String::new(),
    }
}

/// The text of value `k`, if it is one.
pub fn opt_text_at(vals: &Vec<Val>, k: usize) -> (r: Option<String>)
    requires
        k < vals@.len(),
    ensures
        crate::time::opt_text(r) == opt_text_val(val_view(vals@[k as int])),
{
    match &vals[k] {
        Val::Text(t) => Some(t.clone()),
        _ => None,
    }
}

/// The `u32` number of value `k`.
pub fn count_at(vals: &Vec<Val>, k: usize) -> (r: u32)
    requires
        k < vals@.len(),
    ensures
        r == count_val(val_view(vals@[k as int])),
{
    match &vals[k] {
        Val::Num(n) => if *n <= 4294967295u64 { *n as u32 } else { 0 },
        _ => 0,
    }
}

/// The `u64` number of value `k`.
pub fn big_at(vals: &Vec<Val>, k: usize) -> (r: u64)
    requires
        k < vals@.len(),
    ensures
        r == big_val(val_view(vals@[k as int])),
{
    match &vals[k] {
        Val::Num(n) => *n,
        _ => 0,
    }
}

/// The truth of value `k`.
pub fn bool_at(vals: &Vec<Val>, k: usize) -> (r: bool)
    requires
        k < vals@.len(),
    ensures
        r == bool_val(val_view(vals@[k as int])),
{
    match &vals[k] {
        Val::Bool(b) => *b,
        _ => false,
    }
}

/// The texts of value `k`.
pub fn list_at(vals: &Vec<Val>, k: usize) -> (r: Vec<String>)
    requires
        k < vals@.len(),
    ensures
        strings_view(r@) == list_val(val_view(vals@[k as int])),
{
    match &vals[k] {
        Val::List(l) => copy_strings(l),
        _ => {
            let l: Vec<String> = Vec::new();
            assert(strings_view(l@) =~= seq![]);
            l
        },
    }
}

/// The output format value `k` names.
pub fn format_at(vals: &Vec<Val>, k: usize) -> (r: crate::output::Format)
    requires
        k < vals@.len(),
    ensures
        r == format_val(val_view(vals@[k as int])),
{
    let t = text_at(vals, k);
    if t == text_of("table") {
        crate::output::Format::Table
    } else if t == text_of("full") {
        crate::output::Format::Full
    } else {
        crate::output::Format::Json
    }
}

/// An option by its parts.
pub open spec fn opt_v(
    long: Seq<char>,
    name: Seq<char>,
    short: Option<char>,
    kind: Kind,
    default: Option<Seq<char>>,
    required: bool,
    non_empty: bool,
    min: u32,
    choices: Seq<Seq<char>>,
    greedy: bool,
) -> OptV {
    OptV { long, name, short, kind, default, required, non_empty, min, choices, greedy }
}

/// The view of an optional literal.
pub open spec fn opt_lit(o: Option<&str>) -> Option<Seq<char>> {
    match o {
        Some(s) => Some(s@),
        None => None,
    }
}

/// An option by its parts.
pub fn opt(
    long: &str,
    name: &str,
    short: Option<char>,
    kind: Kind,
    default: Option<&'static str>,
    required: bool,
    non_empty: bool,
    min: u32,
    choices: Vec<&'static str>,
    greedy: bool,
) -> (r: Opt)
    ensures
        opt_view(r) == opt_v(long@, name@, short, kind, opt_lit(default), required, non_empty, min, lits(choices@), greedy),
{
    Opt { long: text_of(long), name: text_of(name), short, kind, default, required, non_empty, min, choices, greedy }
}

/// The `--format` option every command has: json, table or full, JSON by default.
pub open spec fn format_opt_v() -> OptV {
    opt_v("format"@, "FORMAT"@, Some('f'), Kind::Choice, Some("json"@), false, false, 0,
        seq!["json"@, "table"@, "full"@], false)
}

/// The `--format` option.
pub fn format_opt() -> (r: Opt)
    ensures
        opt_view(r) == format_opt_v(),
{
    let choices: Vec<&'static str> = vec!["json", "table", "full"];
    assert(lits(choices@) =~= seq!["json"@, "table"@, "full"@]);
    opt("format", "FORMAT", Some('f'), Kind::Choice, Some("json"), false, false, 0, choices, false)
}

/// A text option.
pub open spec fn text_opt_v(long: Seq<char>, name: Seq<char>, short: Option<char>, default: Option<Seq<char>>, required: bool) -> OptV {
    opt_v(long, name, short, Kind::Text, default, required, false, 0, seq![], false)
}

/// A text option.
pub fn text_opt(long: &'static str, name: &'static str, short: Option<char>, default: Option<&'static str>, required: bool) -> (r: Opt)
    ensures
        opt_view(r) == text_opt_v(long@, name@, short, opt_lit(default), required),
{
    let choices: Vec<&'static str> = Vec::new();
    assert(lits(choices@) =~= seq![]);
    opt(long, name, short, Kind::Text, default, required, false, 0, choices, false)
}

/// A required text option that refuses an empty value.
pub open spec fn id_opt_v(long: Seq<char>, name: Seq<char>, short: Option<char>) -> OptV {
    opt_v(long, name, short, Kind::Text, None, true, true, 0, seq![], false)
}

/// A required text option that refuses an empty value.
pub fn id_opt(long: &'static str, name: &'static str, short: Option<char>) -> (r: Opt)
    ensures
        opt_view(r) == id_opt_v(long@, name@, short),
{
    let choices: Vec<&'static str> = Vec::new();
    assert(lits(choices@) =~= seq![]);
    opt(long, name, short, Kind::Text, None, true, true, 0, choices, false)
}

/// A count option with a default and a least value.
pub open spec fn count_opt_v(long: Seq<char>, name: Seq<char>, short: Option<char>, default: Seq<char>, min: u32) -> OptV {
    opt_v(long, name, short, Kind::Count, Some(default), false, false, min, seq![], false)
}

/// A count option with a default and a least value.
pub fn count_opt(long: &'static str, name: &'static str, short: Option<char>, default: &'static str, min: u32) -> (r: Opt)
    ensures
        opt_view(r) == count_opt_v(long@, name@, short, default@, min),
{
    let choices: Vec<&'static str> = Vec::new();
    assert(lits(choices@) =~= seq![]);
    opt(long, name, short, Kind::Count, Some(default), false, false, min, choices, false)
}

/// A choice option.
pub open spec fn choice_opt_v(long: Seq<char>, name: Seq<char>, short: Option<char>, default: Option<Seq<char>>, choices: Seq<Seq<char>>) -> OptV {
    opt_v(long, name, short, Kind::Choice, default, false, false, 0, choices, false)
}

/// A choice option.
pub fn choice_opt(long: &'static str, name: &'static str, short: Option<char>, default: Option<&'static str>, choices: Vec<&'static str>) -> (r: Opt)
    ensures
        opt_view(r) == choice_opt_v(long@, name@, short, opt_lit(default), lits(choices@)),
{
    opt(long, name, short, Kind::Choice, default, false, false, 0, choices, false)
}

/// A multi-valued option.
pub open spec fn many_opt_v(long: Seq<char>, name: Seq<char>, greedy: bool) -> OptV {
    opt_v(long, name, None, Kind::Many, None, false, false, 0, seq![], greedy)
}

/// A multi-valued option.
pub fn many_opt(long: &'static str, name: &'static str, greedy: bool) -> (r: Opt)
    ensures
        opt_view(r) == many_opt_v(long@, name@, greedy),
{
    let choices: Vec<&'static str> = Vec::new();
    assert(lits(choices@) =~= seq![]);
    opt(long, name, None, Kind::Many, None, false, false, 0, choices, greedy)
}

/// The message for a command that needs a subcommand and has none.
pub open spec fn no_subcommand_msg(prog: Seq<char>, names: Seq<Seq<char>>) -> Seq<char> {
    "error: '"@ + prog + "' requires a subcommand but one was not provided\n  [subcommands: "@ + joined(names, ", "@) + "]"@
}

/// The message for a subcommand the command does not have.
pub open spec fn unknown_subcommand_msg(t: Seq<char>) -> Seq<char> {
    "error: unrecognized subcommand '"@ + t + "'"@
}

/// The first of `names` equal to `t`, from `k` on.
pub open spec fn find_name(names: Seq<Seq<char>>, t: Seq<char>, k: int) -> Option<int>
    decreases names.len() - k,
{
    if k < 0 || k >= names.len() {
        None
    } else if names[k] == t {
        Some(k)
    } else {
        find_name(names, t, k + 1)
    }
}

/// The subcommand a command line names with its second token.
pub open spec fn subcommand_of(args: Seq<Seq<char>>, names: Seq<Seq<char>>) -> Result<int, Seq<char>> {
    if args.len() < 2 {
        Err(no_subcommand_msg(if args.len() > 0 { args[0] } else { seq![] }, names))
    } else {
        match find_name(names, args[1], 0) {
            Some(k) => Ok(k),
            None => Err(unknown_subcommand_msg(args[1])),
        }
    }
}

/// The subcommand a command line names with its second token.
pub fn pick_subcommand(args: &[&str], names: &Vec<&'static str>) -> (r: Result<usize, CliError>)
    ensures
        match r {
            Ok(k) => subcommand_of(lits(args@), lits(names@)) == Ok::<int, Seq<char>>(k as int) && k < names@.len(),
            Err(e) => subcommand_of(lits(args@), lits(names@)) == Err::<int, Seq<char>>(e.message@),
        },
{
    let ghost nv = lits(names@);
    if args.len() < 2 {
        let mut m = text_of("error: '");
        if args.len() > 0 {
            append_text(&mut m, args[0]);
        }
        append_text(&mut m, "' requires a subcommand but one was not provided\n  [subcommands: ");
        push_joined(&mut m, names, ", ");
        append_text(&mut m, "]");
        proof {
            if args@.len() > 0 {
                assert(lits(args@)[0] == args@[0]@);
            }
        }
        assert(m@ =~= no_subcommand_msg(if args@.len() > 0 { lits(args@)[0] } else { seq![] }, nv));
        return Err(CliError { message: m });
    }
    let t = text_of(args[1]);
    assert(lits(args@)[1] == t@);
    let mut i: usize = 0;
    while i < names.len()
        invariant
            nv == lits(names@),
            args@.len() >= 2,
            lits(args@)[1] == t@,
            i <= names@.len(),
            find_name(nv, t@, 0) == find_name(nv, t@, i as int),
        decreases names@.len() - i,
    {
        assert(nv[i as int] == names@[i as int]@);
        if text_of(names[i]) == t {
            return Ok(i);
        }
        i = i + 1;
    }
    let mut m = text_of("error: unrecognized subcommand '");
    append_text(&mut m, args[1]);
    append_text(&mut m, "'");
    Err(CliError { message: m })
}

/// A flag that takes no value.
pub open spec fn switch_opt_v(long: Seq<char>) -> OptV {
    opt_v(long, seq![], None, Kind::Switch, None, false, false, 0, seq![], false)
}

/// A flag that takes no value.
pub fn switch_opt(long: &'static str) -> (r: Opt)
    ensures
        opt_view(r) == switch_opt_v(long@),
{
    let choices: Vec<&'static str> = Vec::new();
    assert(lits(choices@) =~= seq![]);
    let r = opt(long, "", None, Kind::Switch, None, false, false, 0, choices, false);
    assert(""@ =~= seq![]) by { reveal_strlit(""); }
    r
}

/// A `true`/`false` option with a default.
pub open spec fn toggle_opt_v(long: Seq<char>, name: Seq<char>, default: Seq<char>) -> OptV {
    opt_v(long, name, None, Kind::Toggle, Some(default), false, false, 0, seq![], false)
}

/// A `true`/`false` option with a default.
pub fn toggle_opt(long: &'static str, name: &'static str, default: &'static str) -> (r: Opt)
    ensures
        opt_view(r) == toggle_opt_v(long@, name@, default@),
{
    let choices: Vec<&'static str> = Vec::new();
    assert(lits(choices@) =~= seq![]);
    opt(long, name, None, Kind::Toggle, Some(default), false, false, 0, choices, false)
}

/// A required `u64` option.
pub open spec fn big_opt_v(long: Seq<char>, name: Seq<char>, short: Option<char>) -> OptV {
    opt_v(long, name, short, Kind::Big, None, true, false, 0, seq![], false)
}

/// A required `u64` option.
pub fn big_opt(long: &'static str, name: &'static str, short: Option<char>) -> (r: Opt)
    ensures
        opt_view(r) == big_opt_v(long@, name@, short),
{
    let choices: Vec<&'static str> = Vec::new();
    assert(lits(choices@) =~= seq![]);
    opt(long, name, short, Kind::Big, None, true, false, 0, choices, false)
}

/// The option naming the related resources to return alongside a resource.
pub open spec fn related_opt_v() -> OptV {
    text_opt_v("inclu"@ + "de"@, "INCLU"@ + "DE"@, None, None, false)
}

/// The option naming the related resources to return alongside a resource.
pub fn related_opt() -> (r: Opt)
    ensures
        opt_view(r) == related_opt_v(),
{
    let mut long = text_of("inclu");
    append_text(&mut long, "de");
    let mut name = text_of("INCLU");
    append_text(&mut name, "DE");
    let choices: Vec<&'static str> = Vec::new();
    assert(lits(choices@) =~= seq![]);
    let r = Opt {
        long, name, short: None, kind: Kind::Text, default: None, required: false, non_empty: false, min: 0, choices,
        greedy: false,
    };
    assert(opt_view(r) =~= related_opt_v());
    r
}

/// The values of `opts` on a command line without subcommand.
pub fn parse_flat(opts: &Vec<Opt>, args: &[&str]) -> (r: Result<Vec<Val>, CliError>)
    ensures
        match r {
            Ok(v) => parse_opts(opts_view(opts@), lits(args@), 1) == Ok::<Seq<ValV>, Seq<char>>(vals_view(v@))
                && v@.len() == opts@.len(),
            Err(e) => parse_opts(opts_view(opts@), lits(args@), 1) == Err::<Seq<ValV>, Seq<char>>(e.message@),
        },
{
    let start: usize = if args.len() == 0 { 0 } else { 1 };
    let r = parse_options(opts, args, start);
    proof {
        let ov = opts_view(opts@);
        let av = lits(args@);
        if args@.len() == 0 {
            assert(scan(ov, av, 0, all_missing(ov.len()), None) == scan(ov, av, 1, all_missing(ov.len()), None));
        }
    }
    match r {
        Ok(v) => {
            assert(vals_view(v@).len() == v@.len());
            Ok(v)
        },
        Err(e) => Err(e),
    }
}

/// The values of `opts` on a command line after its subcommand.
pub fn parse_after_subcommand(opts: &Vec<Opt>, args: &[&str]) -> (r: Result<Vec<Val>, CliError>)
    requires
        args@.len() >= 2,
    ensures
        match r {
            Ok(v) => parse_opts(opts_view(opts@), lits(args@), 2) == Ok::<Seq<ValV>, Seq<char>>(vals_view(v@))
                && v@.len() == opts@.len(),
            Err(e) => parse_opts(opts_view(opts@), lits(args@), 2) == Err::<Seq<ValV>, Seq<char>>(e.message@),
        },
{
    match parse_options(opts, args, 2) {
        Ok(v) => {
            assert(vals_view(v@).len() == v@.len());
            Ok(v)
        },
        Err(e) => Err(e),
    }
}

/// The global `--max-tokens` option: the token budget of JSON output, 10000
/// unless given, 0 for none.
pub open spec fn max_tokens_opt_v() -> OptV {
    opt_v("max-tokens"@, "MAX_TOKENS"@, None, Kind::Big, Some("10000"@), false, false, 0, seq![], false)
}

/// The first token from `k` on that gives the token budget: `--max-tokens` or `--max-tokens=N`.
pub open spec fn budget_flag(args: Seq<Seq<char>>, k: int) -> Option<int>
    decreases args.len() - k,
{
    if k < 0 || k >= args.len() {
        None
    } else if args[k] == "--max-tokens"@ || (args[k].len() >= 13 && args[k].take(13) == "--max-tokens="@) {
        Some(k)
    } else {
        budget_flag(args, k + 1)
    }
}

/// The token budget a command line gives, and the command line without the
/// tokens that gave it; 10000 when no token gives it.
pub open spec fn budget_of_line(args: Seq<Seq<char>>) -> Result<(nat, Seq<Seq<char>>), Seq<char>> {
    match budget_flag(args, 1) {
        None => Ok((10000, args)),
        Some(i) => {
            let inline = args[i] != "--max-tokens"@;
            let given: Option<(Seq<char>, Seq<Seq<char>>)> = if inline {
                Some((args[i].skip(13), args.remove(i)))
            } else if i + 1 < args.len() && !flag_like(args[i + 1]) {
                Some((args[i + 1], args.remove(i + 1).remove(i)))
            } else {
                None
            };
            match given {
                None => Err(missing_value_msg(max_tokens_opt_v())),
                Some((v, rest)) => match value_of(max_tokens_opt_v(), v) {
                    Err(e) => Err(e),
                    Ok(x) => match x {
                        ValV::Num(n) => if n <= usize::MAX { Ok((n, rest)) } else { Err(invalid_number_msg(max_tokens_opt_v(), v)) },
                        _ => Err(invalid_number_msg(max_tokens_opt_v(), v)),
                    },
                },
            }
        },
    }
}

fn starts_with_text(t: &str, prefix: &str) -> (r: bool)
    ensures
        r == (t@.len() >= prefix@.len() && t@.take(prefix@.len() as int) == prefix@),
{
    let a = chars_of(t);
    let b = chars_of(prefix);
    if a.len() < b.len() {
        return false;
    }
    let mut i: usize = 0;
    while i < b.len()
        invariant
            a@ == t@,
            b@ == prefix@,
            a@.len() >= b@.len(),
            i <= b@.len(),
            forall|j: int| 0 <= j < i ==> a@[j] == b@[j],
        decreases b@.len() - i,
    {
        if a[i] != b[i] {
            assert(t@.take(prefix@.len() as int)[i as int] != prefix@[i as int]);
            return false;
        }
        i = i + 1;
    }
    assert(t@.take(prefix@.len() as int) =~= prefix@);
    true
}

/// Takes the global `--max-tokens` option out of a command line: the budget
/// (10000 when not given) and the remaining tokens.
pub fn take_max_tokens<'a>(args: &[&'a str]) -> (r: Result<(usize, Vec<&'a str>), CliError>)
    ensures
        match r {
            Ok((n, rest)) => budget_of_line(lits(args@)) == Ok::<(nat, Seq<Seq<char>>), Seq<char>>((n as nat, lits(rest@))),
            Err(e) => budget_of_line(lits(args@)) == Err::<(nat, Seq<Seq<char>>), Seq<char>>(e.message@),
        },
{
    let ghost av = lits(args@);
    let mut i: usize = 1;
    let mut found = false;
    let mut inline = false;
    if args.len() == 0 {
        assert(budget_flag(av, 1) is None);
    }
    while i < args.len() && !found
        invariant
            av == lits(args@),
            1 <= i,
            args@.len() > 0 ==> i <= args@.len(),
            budget_flag(av, 1) == budget_flag(av, i as int),
            found ==> i < args@.len() && budget_flag(av, 1) == Some(i as int)
                && inline == (av[i as int] != "--max-tokens"@),
        decreases args@.len() - i, if found { 0int } else { 1int },
    {
        assert(av[i as int] == args@[i as int]@);
        let exact = text_of(args[i]) == text_of("--max-tokens");
        let prefixed = starts_with_text(args[i], "--max-tokens=");
        proof { reveal_strlit("--max-tokens="); }
        if exact || prefixed {
            found = true;
            inline = !exact;
        } else {
            i = i + 1;
        }
    }
    if !found {
        let mut rest: Vec<&'a str> = Vec::new();
        let mut j: usize = 0;
        while j < args.len()
            invariant
                j <= args@.len(),
                rest@ == args@.take(j as int),
            decreases args@.len() - j,
        {
            rest.push(args[j]);
            j = j + 1;
            assert(rest@ =~= args@.take(j as int));
        }
        assert(args@.take(j as int) =~= args@);
        assert(lits(rest@) =~= av);
        return Ok((10000, rest));
    }
    let no_choices: Vec<&'static str> = Vec::new();
    assert(lits(no_choices@) =~= seq![]);
    let o = opt("max-tokens", "MAX_TOKENS", None, Kind::Big, Some("10000"), false, false, 0, no_choices, false);
    assert(opt_view(o) =~= max_tokens_opt_v());
    let value: String;
    let skip_next: bool;
    proof { lemma_budget_flag_found(av, 1, i as int); }
    if inline {
        let cs = chars_of(args[i]);
        proof { reveal_strlit("--max-tokens="); }
        let mut v = String::new();
        let mut k: usize = 13;
        while k < cs.len()
            invariant
                13 <= k <= cs@.len(),
                cs@ == args@[i as int]@,
                v@ == cs@.subrange(13, k as int),
            decreases cs@.len() - k,
        {
            push_char(&mut v, cs[k]);
            k = k + 1;
            assert(v@ =~= cs@.subrange(13, k as int));
        }
        assert(v@ =~= av[i as int].skip(13));
        value = v;
        skip_next = false;
    } else if i + 1 < args.len() && !reads_as_option(args[i + 1]) {
        assert(av[i + 1] == args@[i + 1]@);
        value = text_of(args[i + 1]);
        skip_next = true;
    } else {
        return Err(CliError { message: missing_value_error(&o) });
    }
    let n: u64 = match check_value(&o, value.as_str()) {
        Err(m) => return Err(CliError { message: m }),
        Ok(Val::Num(n)) => n,
        Ok(_) => return Err(CliError { message: invalid_number_error(&o, value.as_str()) }),
    };
    if n > usize::MAX as u64 {
        return Err(CliError { message: invalid_number_error(&o, value.as_str()) });
    }
    let mut rest: Vec<&'a str> = Vec::new();
    let mut j: usize = 0;
    let ghost target = if skip_next { args@.remove(i + 1).remove(i as int) } else { args@.remove(i as int) };
    while j < args.len()
        invariant
            j <= args@.len(),
            i < args@.len(),
            skip_next ==> i + 1 < args@.len(),
            target == (if skip_next { args@.remove(i + 1).remove(i as int) } else { args@.remove(i as int) }),
            rest@ == target.take((if j <= i { j as int } else if skip_next && j == i + 1 { i as int } else if skip_next { j - 2 } else { j - 1 })),
        decreases args@.len() - j,
    {
        if j != i && !(skip_next && j == i + 1) {
            rest.push(args[j]);
        }
        j = j + 1;
        assert(rest@ =~= target.take((if j <= i { j as int } else if skip_next && j == i + 1 { i as int } else if skip_next { j - 2 } else { j - 1 })));
    }
    assert(rest@ =~= target);
    assert(lits(rest@) =~= (if skip_next { av.remove(i + 1).remove(i as int) } else { av.remove(i as int) }));
    Ok((n as usize, rest))
}

proof fn lemma_budget_flag_found(args: Seq<Seq<char>>, k: int, i: int)
    requires
        budget_flag(args, k) == Some(i),
    ensures
        k <= i < args.len(),
        args[i] == "--max-tokens"@ || (args[i].len() >= 13 && args[i].take(13) == "--max-tokens="@),
    decreases args.len() - k,
{
    if 0 <= k < args.len() && !(args[k] == "--max-tokens"@ || (args[k].len() >= 13 && args[k].take(13) == "--max-tokens="@)) {
        lemma_budget_flag_found(args, k + 1, i);
    }
}

} // verus!
