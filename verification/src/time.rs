//! Time flags: relative durations, timestamps, and range resolution against the
//! per-resource safety caps.

use vstd::prelude::*;
use crate::text::{append_text, chars_of, decimal, integer_value, is_space, push_decimal, text_of, parse_i64, parse_i64_spec, push_signed_decimal, signed_decimal, trim, trim_end, trim_start, trimmed};

verus! {

/// Human-readable text of a duration in seconds: the largest of days, hours,
/// minutes that divides it exactly, else seconds.
pub open spec fn duration_text(n: int) -> Seq<char> {
    if n % 86400 == 0 {
        signed_decimal(n / 86400) + "d"@
    } else if n % 3600 == 0 {
        signed_decimal(n / 3600) + "h"@
    } else if n % 60 == 0 {
        signed_decimal(n / 60) + "m"@
    } else {
        signed_decimal(n) + "s"@
    }
}

/// Formats a duration in seconds with the coarsest exact unit ("5m", "1h", "2d", "45s").
#[verifier::spinoff_prover]
pub fn format_duration(duration_secs: i64) -> (r: String)
    ensures
        r@ == duration_text(duration_secs as int),
{
    let mut s = String::new();
    if duration_secs % 86_400 == 0 {
        push_signed_decimal(&mut s, duration_secs / 86_400);
        append_text(&mut s, "d");
    } else if duration_secs % 3_600 == 0 {
        push_signed_decimal(&mut s, duration_secs / 3_600);
        append_text(&mut s, "h");
    } else if duration_secs % 60 == 0 {
        push_signed_decimal(&mut s, duration_secs / 60);
        append_text(&mut s, "m");
    } else {
        push_signed_decimal(&mut s, duration_secs);
        append_text(&mut s, "s");
    }
    assert(s@ =~= duration_text(duration_secs as int));
    s
}

/// Number of UTF-8 bytes that encode `c`.
pub open spec fn utf8_width(c: char) -> nat {
    if (c as u32) < 0x80 { 1 } else if (c as u32) < 0x800 { 2 } else if (c as u32) < 0x10000 { 3 } else { 4 }
}

/// Inputs on which splitting off the unit byte would cut a multi-byte character:
/// the trimmed text ends in a non-ASCII character. `parse_relative` panics there.
pub open spec fn relative_split_panics(input: Seq<char>) -> bool {
    let t = trim(input);
    t.len() > 0 && utf8_width(t.last()) > 1
}

/// Largest accepted count in a relative duration (one year in seconds).
pub open spec fn max_relative_count() -> int {
    365int * 24 * 3600
}

/// Seconds denoted by a relative duration such as "15m", "2h", "3d", "1w", "30s":
/// a positive count no larger than one year in seconds and a unit; days at most
/// 365, weeks at most 52. Surrounding white space is ignored.
pub open spec fn relative_seconds(input: Seq<char>) -> Option<i64> {
    let t = trim(input);
    if t.len() < 2 {
        None
    } else {
        match parse_i64_spec(t.drop_last()) {
            None => None,
            Some(n) => {
                let unit = t.last();
                if n <= 0 || n > max_relative_count() {
                    None
                } else if unit == 's' {
                    Some(n)
                } else if unit == 'm' {
                    Some((n * 60) as i64)
                } else if unit == 'h' {
                    Some((n * 3600) as i64)
                } else if unit == 'd' && n <= 365 {
                    Some((n * 86400) as i64)
                } else if unit == 'w' && n <= 52 {
                    Some((n * 604800) as i64)
                } else {
                    None
                }
            },
        }
    }
}

/// Parses a relative duration ("15m", "1h", "2d", "1w", "30s") into seconds.
pub fn parse_relative(input: &str) -> (r: Option<i64>)
    requires
        !relative_split_panics(input@),
    ensures
        r == relative_seconds(input@),
{
    let all = chars_of(input);
    let t = trimmed(&all);
    let n = t.len();
    if n < 2 {
        return None;
    }
    let mut num_chars: Vec<char> = Vec::new();
    let mut k: usize = 0;
    while k < n - 1
        invariant
            n == t@.len(),
            n >= 2,
            k <= n - 1,
            num_chars@ == t@.subrange(0, k as int),
        decreases n - 1 - k,
    {
        num_chars.push(t[k]);
        k = k + 1;
        assert(num_chars@ =~= t@.subrange(0, k as int));
    }
    assert(num_chars@ =~= t@.drop_last());
    let unit = t[n - 1];
    let num = match parse_i64(&num_chars) {
        None => return None,
        Some(v) => v,
    };
    if num <= 0 || num > 365 * 24 * 3600 {
        return None;
    }
    if unit == 's' {
        Some(num)
    } else if unit == 'm' {
        Some(num * 60)
    } else if unit == 'h' {
        Some(num * 3600)
    } else if unit == 'd' && num <= 365 {
        Some(num * 86400)
    } else if unit == 'w' && num <= 52 {
        Some(num * 604800)
    } else {
        None
    }
}

/// A UTC date-time as chrono reports it: whole seconds since the Unix epoch and
/// the nanoseconds past that second (1e9 or more only inside a leap second).
#[derive(Clone, Copy)]
pub struct Instant {
    pub secs: i64,
    pub nanos: u32,
}

/// Whether chrono can represent the instant (`DateTime::from_timestamp` is `Some`).
pub uninterp spec fn chrono_in_range(secs: int, nanos: int) -> bool;

/// The text that chrono's `DateTime::<Utc>::to_rfc3339` gives for an instant.
pub uninterp spec fn chrono_rfc3339(secs: int, nanos: int) -> Seq<char>;

/// What chrono's `FromStr for DateTime<Utc>` gives for a text: the instant's
/// seconds and nanoseconds, or the error's display text.
pub uninterp spec fn chrono_parse(text: Seq<char>) -> Result<(i64, u32), Seq<char>>;

/// Whole seconds (`TimeDelta::num_seconds`) of `later - earlier` as chrono
/// computes it for instants given by timestamp and nanoseconds (1e9 and above
/// in a leap second): the timestamps' difference, one second more or less when
/// a leap second lies between the times of day, plus the borrow of the
/// nanoseconds; a negative result with a nanosecond part is rounded towards zero.
pub open spec fn chrono_seconds_between(later_secs: int, later_nanos: int, earlier_secs: int, earlier_nanos: int) -> int {
    let later_day = later_secs % 86400;
    let earlier_day = earlier_secs % 86400;
    let leap = if later_day > earlier_day && earlier_nanos >= 1_000_000_000 {
        1int
    } else if later_day < earlier_day && later_nanos >= 1_000_000_000 {
        -1int
    } else {
        0int
    };
    let frac = later_nanos - earlier_nanos;
    let secs = later_secs - earlier_secs + leap + frac / 1_000_000_000;
    if secs < 0 && frac % 1_000_000_000 > 0 { secs + 1 } else { secs }
}

/// `chrono::DateTime::<Utc>::from_timestamp`: the instant when chrono can
/// represent it. Seconds within a trillion of the epoch with nanoseconds below
/// one second are always representable (chrono covers years -262143..262142).
#[verifier::external_body]
fn timestamp_instant(secs: i64, nanos: u32) -> (r: Option<Instant>)
    ensures
        r is Some <==> chrono_in_range(secs as int, nanos as int),
        r matches Some(t) ==> t.secs == secs && t.nanos == nanos,
        (nanos < 1_000_000_000 && -1_000_000_000_000 <= secs <= 1_000_000_000_000) ==> r is Some,
{
    match chrono::DateTime::from_timestamp(secs, nanos) {
        Some(dt) => Some(Instant { secs: dt.timestamp(), nanos: dt.timestamp_subsec_nanos() }),
        None => None,
    }
}

/// An instant in years 0 to 9999, not in a leap second.
pub open spec fn rfc3339_reads_back(t: Instant) -> bool {
    -62_167_219_200 <= t.secs <= 253_402_300_799 && t.nanos < 1_000_000_000
}

/// The instant `d` seconds before `now`.
pub open spec fn back_from(now: Instant, d: i64) -> Instant {
    Instant { secs: (now.secs - d) as i64, nanos: now.nanos }
}

/// The instant as chrono's parser gives it back.
pub open spec fn rfc3339_instant(t: Instant) -> Result<(i64, u32), Seq<char>> {
    Ok((t.secs, t.nanos))
}

/// `DateTime::<Utc>::to_rfc3339` of a representable instant. For years 0 to
/// 9999 and no leap second the text is four-digit year, month, day, time,
/// fraction of 3, 6 or 9 digits (none when zero) and "+00:00", which chrono's
/// `FromStr for DateTime<Utc>` (relaxed RFC 3339) reads back to the instant.
#[verifier::external_body]
fn rfc3339_text(t: Instant) -> (r: String)
    requires
        chrono_in_range(t.secs as int, t.nanos as int),
    ensures
        r@ == chrono_rfc3339(t.secs as int, t.nanos as int),
        rfc3339_reads_back(t) ==> chrono_parse(r@) == rfc3339_instant(t),
{
    match chrono::DateTime::from_timestamp(t.secs, t.nanos) {
        Some(dt) => dt.to_rfc3339(),
        None => String::new(),
    }
}

/// `str::parse::<DateTime<Utc>>`, with the instant's timestamp and subsecond
/// nanoseconds, or the parse error's text. A parsed date-time is representable,
/// and so within ten trillion seconds of the epoch (years -262143..262142).
#[verifier::external_body]
fn parse_utc(s: &str) -> (r: Result<Instant, String>)
    ensures
        match r {
            Ok(t) => chrono_parse(s@) == Ok::<(i64, u32), Seq<char>>((t.secs, t.nanos))
                && chrono_in_range(t.secs as int, t.nanos as int)
                && -10_000_000_000_000 <= t.secs <= 10_000_000_000_000,
            Err(e) => chrono_parse(s@) == Err::<(i64, u32), Seq<char>>(e@),
        },
{
    match s.parse::<chrono::DateTime<chrono::Utc>>() {
        Ok(dt) => Ok(Instant { secs: dt.timestamp(), nanos: dt.timestamp_subsec_nanos() }),
        Err(e) => Err(e.to_string()),
    }
}

/// `chrono::Utc::now`, which panics on a clock before the Unix epoch: the
/// result is at or after the epoch, with nanoseconds below one second, and the
/// instants up to a trillion seconds earlier are representable too.
#[verifier::external_body]
pub(crate) fn utc_now() -> (r: Instant)
    ensures
        r.secs >= 0,
        r.nanos < 1_000_000_000,
        forall|d: int| 0 <= d <= 1_000_000_000_000 ==> #[trigger] chrono_in_range(r.secs - d, r.nanos as int),
{
    let now = chrono::Utc::now();
    Instant { secs: now.timestamp(), nanos: now.timestamp_subsec_nanos() }
}

/// `(later - earlier).num_seconds()` for representable instants: chrono's
/// `Sub` for `DateTime` takes the days between the dates and the
/// `signed_duration_since` of the times of day, which `chrono_seconds_between`
/// writes out.
#[verifier::external_body]
fn seconds_between(later: Instant, earlier: Instant) -> (r: i64)
    requires
        chrono_in_range(later.secs as int, later.nanos as int),
        chrono_in_range(earlier.secs as int, earlier.nanos as int),
    ensures
        r == chrono_seconds_between(later.secs as int, later.nanos as int, earlier.secs as int, earlier.nanos as int),
{
    match (chrono::DateTime::from_timestamp(later.secs, later.nanos), chrono::DateTime::from_timestamp(earlier.secs, earlier.nanos)) {
        (Some(a), Some(b)) => (a - b).num_seconds(),
        _ => 0,
    }
}

/// Outside leap seconds, and with `later` not before `earlier`, the seconds
/// between are the difference of the timestamps, less one when the nanoseconds
/// borrow.
proof fn lemma_seconds_between(later_secs: int, later_nanos: int, earlier_secs: int, earlier_nanos: int)
    requires
        0 <= later_nanos < 1_000_000_000,
        0 <= earlier_nanos < 1_000_000_000,
        earlier_secs < later_secs || (earlier_secs == later_secs && earlier_nanos <= later_nanos),
    ensures
        chrono_seconds_between(later_secs, later_nanos, earlier_secs, earlier_nanos)
            == later_secs - earlier_secs - (if later_nanos < earlier_nanos { 1int } else { 0int }),
{
    let frac = later_nanos - earlier_nanos;
    if later_nanos < earlier_nanos {
        assert(frac / 1_000_000_000 == -1);
        assert(frac % 1_000_000_000 == frac + 1_000_000_000);
    } else {
        assert(frac / 1_000_000_000 == 0);
        assert(frac % 1_000_000_000 == frac);
    }
}

/// Chronological order of instants given as (seconds, nanoseconds).
pub open spec fn instant_lt(a_secs: i64, a_nanos: u32, b_secs: i64, b_nanos: u32) -> bool {
    a_secs < b_secs || (a_secs == b_secs && a_nanos < b_nanos)
}

/// A clock reading as `utc_now` guarantees it.
pub open spec fn now_ok(now: Instant) -> bool {
    &&& now.secs >= 0
    &&& now.nanos < 1_000_000_000
    &&& forall|d: int| 0 <= d <= 1_000_000_000_000 ==> #[trigger] chrono_in_range(now.secs - d, now.nanos as int)
}

/// The error for a time flag that is neither relative, ISO 8601, nor epoch seconds.
pub open spec fn invalid_time_message(input: Seq<char>) -> Seq<char> {
    "Invalid time format: '"@ + input
        + "'. Expected relative (15m, 1h, 2d), ISO8601, or epoch seconds."@
}

/// A string result by its view.
pub open spec fn text_result(r: Result<String, String>) -> Result<Seq<char>, Seq<char>> {
    match r {
        Ok(s) => Ok(s@),
        Err(e) => Err(e@),
    }
}

/// RFC 3339 text of a time flag read at clock reading `now`: a relative duration
/// counts back from `now`; else an ISO 8601 date-time; else epoch seconds.
pub open spec fn time_flag_text(input: Seq<char>, now: Instant) -> Result<Seq<char>, Seq<char>> {
    match relative_seconds(input) {
        Some(d) => Ok(chrono_rfc3339(now.secs - d, now.nanos as int)),
        None => match chrono_parse(input) {
            Ok(t) => Ok(chrono_rfc3339(t.0 as int, t.1 as int)),
            Err(_) => match parse_i64_spec(input) {
                Some(e) => if chrono_in_range(e as int, 0) {
                    Ok(chrono_rfc3339(e as int, 0))
                } else {
                    Err(invalid_time_message(input))
                },
                None => Err(invalid_time_message(input)),
            },
        },
    }
}

/// The seconds since the epoch that a time flag gives when it is neither a
/// relative duration nor an ISO 8601 date-time but an integer.
pub open spec fn epoch_flag_seconds(input: Seq<char>) -> Option<i64> {
    if relative_seconds(input) is None && chrono_parse(input) is Err {
        parse_i64_spec(input)
    } else {
        None
    }
}

/// The instant that a time flag names when it is not a relative duration but
/// an ISO 8601 date-time chrono reads.
pub open spec fn iso_flag_instant(input: Seq<char>) -> Option<Instant> {
    if relative_seconds(input) is None && chrono_parse(input) is Ok {
        Some(Instant { secs: chrono_parse(input)->Ok_0.0, nanos: chrono_parse(input)->Ok_0.1 })
    } else {
        None
    }
}

/// The instant `secs` seconds after the epoch.
pub open spec fn epoch_instant(secs: i64) -> Instant {
    Instant { secs, nanos: 0 }
}

/// Epoch seconds of a time flag read at clock reading `now`.
pub open spec fn time_flag_epoch(input: Seq<char>, now: Instant) -> Result<i64, Seq<char>> {
    match relative_seconds(input) {
        Some(d) => Ok((now.secs - d) as i64),
        None => match chrono_parse(input) {
            Ok(t) => Ok(t.0),
            Err(_) => match parse_i64_spec(input) {
                Some(e) => Ok(e),
                None => Err(invalid_time_message(input)),
            },
        },
    }
}

fn invalid_time(input: &str) -> (r: String)
    ensures
        r@ == invalid_time_message(input@),
{
    let mut msg = text_of("Invalid time format: '");
    append_text(&mut msg, input);
    append_text(&mut msg, "'. Expected relative (15m, 1h, 2d), ISO8601, or epoch seconds.");
    msg
}

/// Reads a time flag against the clock reading `now`, giving RFC 3339 text.
pub fn parse_time_at(input: &str, now: Instant) -> (r: Result<String, String>)
    requires
        !relative_split_panics(input@),
        now_ok(now),
    ensures
        text_result(r) == time_flag_text(input@, now),
        (relative_seconds(input@) is Some && 0 <= now.secs - relative_seconds(input@)->0 && now.secs <= 253_402_300_799)
            ==> (r matches Ok(t) && chrono_parse(t@) == rfc3339_instant(back_from(now, relative_seconds(input@)->0))),
        (iso_flag_instant(input@) is Some && rfc3339_reads_back(iso_flag_instant(input@)->0))
            ==> (r matches Ok(t) && chrono_parse(t@) == rfc3339_instant(iso_flag_instant(input@)->0)),
        (epoch_flag_seconds(input@) is Some && rfc3339_reads_back(epoch_instant(epoch_flag_seconds(input@)->0)))
            ==> (r matches Ok(t) && chrono_parse(t@) == rfc3339_instant(epoch_instant(epoch_flag_seconds(input@)->0))),
{
    if let Some(d) = parse_relative(input) {
        assert(chrono_in_range(now.secs - d, now.nanos as int));
        return Ok(rfc3339_text(Instant { secs: now.secs - d, nanos: now.nanos }));
    }
    match parse_utc(input) {
        Ok(t) => {
            return Ok(rfc3339_text(t));
        },
        Err(_) => {},
    }
    let cs = chars_of(input);
    if let Some(epoch) = parse_i64(&cs) {
        if let Some(t) = timestamp_instant(epoch, 0) {
            return Ok(rfc3339_text(t));
        }
    }
    Err(invalid_time(input))
}

/// Reads a time flag ("15m", "1h", "2d", ISO 8601, or epoch seconds) into RFC 3339
/// text; a relative duration counts back from the current clock reading.
pub fn parse_time(input: &str) -> (r: Result<String, String>)
    requires
        !relative_split_panics(input@),
    ensures
        exists|now: Instant| now_ok(now) && text_result(r) == #[trigger] time_flag_text(input@, now),
{
    let now = utc_now();
    let r = parse_time_at(input, now);
    assert(now_ok(now) && text_result(r) == time_flag_text(input@, now));
    r
}

/// Reads a time flag against the clock reading `now`, giving epoch seconds.
pub fn parse_time_epoch_at(input: &str, now: Instant) -> (r: Result<i64, String>)
    requires
        !relative_split_panics(input@),
        now_ok(now),
    ensures
        match r {
            Ok(v) => time_flag_epoch(input@, now) == Ok::<i64, Seq<char>>(v),
            Err(e) => time_flag_epoch(input@, now) == Err::<i64, Seq<char>>(e@),
        },
{
    if let Some(d) = parse_relative(input) {
        return Ok(now.secs - d);
    }
    match parse_utc(input) {
        Ok(t) => {
            return Ok(t.secs);
        },
        Err(_) => {},
    }
    let cs = chars_of(input);
    if let Some(epoch) = parse_i64(&cs) {
        return Ok(epoch);
    }
    Err(invalid_time(input))
}

/// Reads a time flag into epoch seconds; a relative duration counts back from
/// the current clock reading.
pub fn parse_time_epoch(input: &str) -> (r: Result<i64, String>)
    requires
        !relative_split_panics(input@),
    ensures
        exists|now: Instant| now_ok(now) && match r {
            Ok(v) => #[trigger] time_flag_epoch(input@, now) == Ok::<i64, Seq<char>>(v),
            Err(e) => time_flag_epoch(input@, now) == Err::<i64, Seq<char>>(e@),
        },
{
    let now = utc_now();
    let r = parse_time_epoch_at(input, now);
    assert(now_ok(now) && match r {
        Ok(v) => time_flag_epoch(input@, now) == Ok::<i64, Seq<char>>(v),
        Err(e) => time_flag_epoch(input@, now) == Err::<i64, Seq<char>>(e@),
    });
    r
}

/// The current time as RFC 3339 text.
pub fn now_rfc3339() -> (r: String)
    ensures
        exists|now: Instant| now_ok(now) && r@ == #[trigger] chrono_rfc3339(now.secs as int, now.nanos as int),
{
    let now = utc_now();
    assert(chrono_in_range(now.secs - 0, now.nanos as int));
    let r = rfc3339_text(now);
    assert(now_ok(now) && r@ == chrono_rfc3339(now.secs as int, now.nanos as int));
    r
}

/// A resolved time window: RFC 3339 bounds and its length in whole seconds.
#[derive(Debug)]
pub struct TimeRange {
    pub from: String,
    pub to: String,
    pub duration_secs: i64,
}

/// The error for a window longer than the cap.
pub open spec fn too_large_message(duration: int, max_hours: u32) -> Seq<char> {
    "Time range too large: "@ + duration_text(duration) + " requested, max "@ + decimal(max_hours as nat)
        + "h allowed. Use a shorter --from or add --to to narrow the window."@
}

/// The window that `--from`/`--to` denote when `from` is read at clock reading
/// `now_from` and `to` (or, without `to`, the end "now") at `now_to`: both bounds
/// in RFC 3339 and the seconds between them, or the error. The bounds are read
/// back through chrono; `from` must be strictly before `to`, and the window no
/// longer than `max_hours`.
pub open spec fn range_of(
    from: Seq<char>,
    to: Option<Seq<char>>,
    max_hours: u32,
    now_from: Instant,
    now_to: Instant,
) -> Result<(Seq<char>, Seq<char>, int), Seq<char>> {
    match time_flag_text(from, now_from) {
        Err(e) => Err(e),
        Ok(from_ts) => {
            let to_r = match to {
                Some(t) => time_flag_text(t, now_to),
                None => Ok(chrono_rfc3339(now_to.secs as int, now_to.nanos as int)),
            };
            match to_r {
                Err(e) => Err(e),
                Ok(to_ts) => match chrono_parse(from_ts) {
                    Err(e) => Err("Failed to parse 'from' time: "@ + e),
                    Ok(f) => match chrono_parse(to_ts) {
                        Err(e) => Err("Failed to parse 'to' time: "@ + e),
                        Ok(t) => if !instant_lt(f.0, f.1, t.0, t.1) {
                            Err("'from' must be before 'to'."@)
                        } else {
                            let d = chrono_seconds_between(t.0 as int, t.1 as int, f.0 as int, f.1 as int);
                            if d > max_hours * 3600 {
                                Err(too_large_message(d, max_hours))
                            } else {
                                Ok((from_ts, to_ts, d))
                            }
                        },
                    },
                },
            }
        },
    }
}

/// A resolved window by its view.
pub open spec fn range_result(r: Result<TimeRange, String>) -> Result<(Seq<char>, Seq<char>, int), Seq<char>> {
    match r {
        Ok(tr) => Ok((tr.from@, tr.to@, tr.duration_secs as int)),
        Err(e) => Err(e@),
    }
}

/// Whether a time flag can be read without cutting a character (see `parse_relative`).
pub open spec fn flags_readable(from: Seq<char>, to: Option<String>) -> bool {
    &&& !relative_split_panics(from)
    &&& (to matches Some(t) ==> !relative_split_panics(t@))
}

/// The view of an optional flag.
pub open spec fn opt_text(o: Option<String>) -> Option<Seq<char>> {
    match o {
        Some(s) => Some(s@),
        None => None,
    }
}

/// Resolves `--from`/`--to` against the given clock readings, enforcing `max_hours`.
pub fn resolve_range_at(
    from: &str,
    to: &Option<String>,
    max_hours: u32,
    now_from: Instant,
    now_to: Instant,
) -> (r: Result<TimeRange, String>)
    requires
        flags_readable(from@, *to),
        now_ok(now_from),
        now_ok(now_to),
    ensures
        range_result(r) == range_of(from@, opt_text(*to), max_hours, now_from, now_to),
        // A relative `from` within the cap, up to now, resolves to a window of
        // exactly that many seconds.
        (relative_seconds(from@) is Some && to is None && now_from == now_to
            && 0 <= now_to.secs - relative_seconds(from@)->0 && now_to.secs <= 253_402_300_799
            && relative_seconds(from@)->0 <= max_hours * 3600)
            ==> (r matches Ok(w) && w.duration_secs == relative_seconds(from@)->0),
{
    let from_ts = match parse_time_at(from, now_from) {
        Ok(v) => v,
        Err(e) => return Err(e),
    };
    let to_ts = match to {
        Some(t) => match parse_time_at(t.as_str(), now_to) {
            Ok(v) => v,
            Err(e) => return Err(e),
        },
        None => {
            assert(chrono_in_range(now_to.secs - 0, now_to.nanos as int));
            rfc3339_text(now_to)
        },
    };
    let from_dt = match parse_utc(from_ts.as_str()) {
        Ok(t) => t,
        Err(e) => {
            let mut msg = text_of("Failed to parse 'from' time: ");
            append_text(&mut msg, e.as_str());
            return Err(msg);
        },
    };
    let to_dt = match parse_utc(to_ts.as_str()) {
        Ok(t) => t,
        Err(e) => {
            let mut msg = text_of("Failed to parse 'to' time: ");
            append_text(&mut msg, e.as_str());
            return Err(msg);
        },
    };
    if !(from_dt.secs < to_dt.secs || (from_dt.secs == to_dt.secs && from_dt.nanos < to_dt.nanos)) {
        return Err(text_of("'from' must be before 'to'."));
    }
    let duration_secs = seconds_between(to_dt, from_dt);
    proof {
        if to_dt.nanos < 1_000_000_000 && from_dt.nanos < 1_000_000_000 {
            lemma_seconds_between(to_dt.secs as int, to_dt.nanos as int, from_dt.secs as int, from_dt.nanos as int);
        }
    }
    let max_secs: i64 = max_hours as i64 * 3600;
    if duration_secs > max_secs {
        let mut msg = text_of("Time range too large: ");
        let d = format_duration(duration_secs);
        append_text(&mut msg, d.as_str());
        append_text(&mut msg, " requested, max ");
        push_decimal(&mut msg, max_hours as u64);
        append_text(&mut msg, "h allowed. Use a shorter --from or add --to to narrow the window.");
        return Err(msg);
    }
    Ok(TimeRange { from: from_ts, to: to_ts, duration_secs })
}

/// Resolves `--from`/`--to` into a window, enforcing a maximum duration of
/// `max_hours`; a missing `to` means now.
pub fn resolve_range(from: &str, to: &Option<String>, max_hours: u32) -> (r: Result<TimeRange, String>)
    requires
        flags_readable(from@, *to),
    ensures
        exists|now_from: Instant, now_to: Instant|
            now_ok(now_from) && now_ok(now_to) && range_result(r)
                == #[trigger] range_of(from@, opt_text(*to), max_hours, now_from, now_to),
{
    let now_from = utc_now();
    let now_to = utc_now();
    let r = resolve_range_at(from, to, max_hours, now_from, now_to);
    assert(now_ok(now_from) && now_ok(now_to) && range_result(r)
        == range_of(from@, opt_text(*to), max_hours, now_from, now_to));
    r
}

/// Whether the time flags can be read without cutting a character.
pub fn time_flags_ok(from: &str, to: &Option<String>) -> (r: bool)
    ensures
        r == flags_readable(from@, *to),
{
    if !relative_readable(from) {
        return false;
    }
    match to {
        Some(t) => relative_readable(t.as_str()),
        None => true,
    }
}

/// Whether a time flag can be read without cutting a character.
pub fn relative_readable(input: &str) -> (r: bool)
    ensures
        r == !relative_split_panics(input@),
{
    let cs = chars_of(input);
    let t = trimmed(&cs);
    let n = t.len();
    if n == 0 {
        return true;
    }
    (t[n - 1] as u32) < 0x80
}

/// Epoch seconds of both ends of a resolved window.
pub open spec fn range_epochs(w: Result<(Seq<char>, Seq<char>, int), Seq<char>>) -> Result<(i64, i64), Seq<char>> {
    match w {
        Ok(v) => match (chrono_parse(v.0), chrono_parse(v.1)) {
            (Ok(f), Ok(t)) => Ok((f.0, t.0)),
            _ => Err(seq![]),
        },
        Err(e) => Err(e),
    }
}

/// An epoch pair by its view.
pub open spec fn epoch_result(r: Result<(i64, i64), String>) -> Result<(i64, i64), Seq<char>> {
    match r {
        Ok(v) => Ok(v),
        Err(e) => Err(e@),
    }
}

/// `resolve_range_at`, giving the window's ends as epoch seconds.
pub fn resolve_range_epoch_at(
    from: &str,
    to: &Option<String>,
    max_hours: u32,
    now_from: Instant,
    now_to: Instant,
) -> (r: Result<(i64, i64), String>)
    requires
        flags_readable(from@, *to),
        now_ok(now_from),
        now_ok(now_to),
    ensures
        epoch_result(r) == range_epochs(range_of(from@, opt_text(*to), max_hours, now_from, now_to)),
        r matches Ok(v) ==> -10_000_000_000_000 <= v.0 <= v.1 <= 10_000_000_000_000,
{
    let range = match resolve_range_at(from, to, max_hours, now_from, now_to) {
        Ok(v) => v,
        Err(e) => return Err(e),
    };
    let from_dt = parse_utc(range.from.as_str());
    let to_dt = parse_utc(range.to.as_str());
    match (from_dt, to_dt) {
        (Ok(f), Ok(t)) => Ok((f.secs, t.secs)),
        _ => {
            proof { assert(false); }
            Err(String::new())
        },
    }
}

/// Same as `resolve_range` but gives epoch seconds (for v1 API endpoints).
pub fn resolve_range_epoch(from: &str, to: &Option<String>, max_hours: u32) -> (r: Result<(i64, i64), String>)
    requires
        flags_readable(from@, *to),
    ensures
        exists|now_from: Instant, now_to: Instant|
            now_ok(now_from) && now_ok(now_to) && epoch_result(r)
                == range_epochs(#[trigger] range_of(from@, opt_text(*to), max_hours, now_from, now_to)),
        r matches Ok(v) ==> -10_000_000_000_000 <= v.0 <= v.1 <= 10_000_000_000_000,
{
    let now_from = utc_now();
    let now_to = utc_now();
    let r = resolve_range_epoch_at(from, to, max_hours, now_from, now_to);
    assert(now_ok(now_from) && now_ok(now_to) && epoch_result(r)
        == range_epochs(range_of(from@, opt_text(*to), max_hours, now_from, now_to)));
    r
}

/// A window is accepted only when `from` is strictly before `to` and it is no
/// longer than the cap.
pub proof fn lemma_window_within_cap(from: Seq<char>, to: Option<Seq<char>>, max_hours: u32, now_from: Instant, now_to: Instant)
    ensures
        range_of(from, to, max_hours, now_from, now_to) matches Ok(w) ==> w.2 <= max_hours * 3600,
        range_of(from, to, max_hours, now_from, now_to) matches Ok(w) ==> (chrono_parse(w.0) matches Ok(f)
            && chrono_parse(w.1) matches Ok(t) && instant_lt(f.0, f.1, t.0, t.1)),
{
}

/// A duration of up to a year rendered by `format_duration` reads back
/// through `parse_relative` as the same number of seconds.
pub proof fn lemma_duration_reads_back(d: int)
    requires
        0 < d <= 31_536_000,
    ensures
        relative_seconds(duration_text(d)) == Some(d as i64),
{
    let (q, u): (int, char) = if d % 86400 == 0 {
        (d / 86400, 'd')
    } else if d % 3600 == 0 {
        (d / 3600, 'h')
    } else if d % 60 == 0 {
        (d / 60, 'm')
    } else {
        (d, 's')
    };
    assert(q > 0 && q <= d);
    let digits = decimal(q as nat);
    crate::text::lemma_decimal_value(q as nat);
    let t = duration_text(d);
    assert(t =~= digits.push(u)) by {
        reveal_strlit("d");
        reveal_strlit("h");
        reveal_strlit("m");
        reveal_strlit("s");
    }
    assert(!is_space(t[0])) by {
        assert(t[0] == digits[0]);
    }
    assert(trim_start(t) == t);
    assert(!is_space(t.last()));
    assert(trim_end(t) == t);
    assert(trim(t) == t);
    assert(t.drop_last() =~= digits);
    assert(integer_value(digits) == Some(q)) by {
        assert('0' <= digits[0] && digits[0] <= '9');
    }
    assert(parse_i64_spec(t.drop_last()) == Some(q as i64));
    assert(t.last() == u);
}

/// A time flag that is an integer `n` (neither relative nor ISO 8601) is `n`
/// seconds since the epoch, whatever the clock reads: as epoch seconds it is
/// `n`, and as RFC 3339 text it is chrono's text of that instant with no
/// fraction of a second.
pub proof fn lemma_epoch_flag(input: Seq<char>, now: Instant, later: Instant)
    requires
        epoch_flag_seconds(input) is Some,
    ensures
        time_flag_epoch(input, now) == Ok::<i64, Seq<char>>(epoch_flag_seconds(input)->0),
        chrono_in_range(epoch_flag_seconds(input)->0 as int, 0)
            ==> time_flag_text(input, now) == Ok::<Seq<char>, Seq<char>>(chrono_rfc3339(epoch_flag_seconds(input)->0 as int, 0)),
        time_flag_text(input, now) == time_flag_text(input, later),
{
}

/// A time flag that chrono reads as an ISO 8601 date-time (and that is not a
/// relative duration) names that instant, whatever the clock reads: its text is
/// chrono's RFC 3339 text of the instant, and its epoch seconds are the
/// instant's.
pub proof fn lemma_iso_flag(input: Seq<char>, now: Instant, later: Instant)
    requires
        iso_flag_instant(input) is Some,
    ensures
        time_flag_text(input, now) == Ok::<Seq<char>, Seq<char>>(
            chrono_rfc3339(iso_flag_instant(input)->0.secs as int, iso_flag_instant(input)->0.nanos as int)),
        time_flag_epoch(input, now) == Ok::<i64, Seq<char>>(iso_flag_instant(input)->0.secs),
        time_flag_text(input, now) == time_flag_text(input, later),
{
}

} // verus!
