//! The lines written to standard error: info, warnings, errors, result counts.

use vstd::prelude::*;
use crate::text::{append_text, decimal, push_decimal, text_of};

verus! {

/// An info line: a cyan "info:" tag, then the message.
pub open spec fn info_text(msg: Seq<char>) -> Seq<char> {
    "\x1b[36minfo:\x1b[0m "@ + msg
}

/// A warning line: a yellow "warn:" tag, then the message.
pub open spec fn warn_text(msg: Seq<char>) -> Seq<char> {
    "\x1b[33mwarn:\x1b[0m "@ + msg
}

/// An error line: a red "error:" tag, then the message.
pub open spec fn error_text_line(msg: Seq<char>) -> Seq<char> {
    "\x1b[31merror:\x1b[0m "@ + msg
}

/// The info line for `msg`.
pub fn info(msg: &str) -> (r: String)
    ensures
        r@ == info_text(msg@),
{
    let mut s = text_of("\x1b[36minfo:\x1b[0m ");
    append_text(&mut s, msg);
    s
}

/// The warning line for `msg`.
pub fn warn(msg: &str) -> (r: String)
    ensures
        r@ == warn_text(msg@),
{
    let mut s = text_of("\x1b[33mwarn:\x1b[0m ");
    append_text(&mut s, msg);
    s
}

/// The error line for `msg`.
pub fn error(msg: &str) -> (r: String)
    ensures
        r@ == error_text_line(msg@),
{
    let mut s = text_of("\x1b[31merror:\x1b[0m ");
    append_text(&mut s, msg);
    s
}

/// The summary after a successful query: "No {resource} found." or
/// "Returned {count} {resource}.".
pub open spec fn count_message(count: nat, resource: Seq<char>) -> Seq<char> {
    if count == 0 {
        "No "@ + resource + " found."@
    } else {
        "Returned "@ + decimal(count) + " "@ + resource + "."@
    }
}

/// The summary message after a successful query (e.g., "Returned 25 results.").
pub fn result_count(count: usize, resource: &str) -> (r: String)
    ensures
        r@ == count_message(count as nat, resource@),
{
    if count == 0 {
        let mut s = text_of("No ");
        append_text(&mut s, resource);
        append_text(&mut s, " found.");
        s
    } else {
        let mut s = text_of("Returned ");
        push_decimal(&mut s, count as u64);
        append_text(&mut s, " ");
        append_text(&mut s, resource);
        append_text(&mut s, ".");
        s
    }
}

} // verus!
