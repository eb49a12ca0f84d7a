//! Safety limits that stop accidental huge API requests.

use vstd::prelude::*;
use crate::text::{append_text, decimal, push_decimal, text_of};

verus! {

/// Max results per page for log/span/event search queries.
pub const MAX_SEARCH_LIMIT: u32 = 1000;

/// Max time range (hours) for log search.
pub const MAX_LOG_HOURS: u32 = 24;

/// Max time range (hours) for span/trace search.
pub const MAX_SPAN_HOURS: u32 = 24;

/// Max time range (hours) for event search.
pub const MAX_EVENT_HOURS: u32 = 48;

/// Max time range (hours) for RUM event search.
pub const MAX_RUM_HOURS: u32 = 24;

/// Max time range (hours) for metric queries (30 days).
pub const MAX_METRIC_HOURS: u32 = 720;

/// Max time range (hours) for log analytics (7 days).
pub const MAX_ANALYTICS_HOURS: u32 = 168;

/// Max hosts per request.
pub const MAX_HOSTS: u32 = 1000;

/// Max dashboards per request.
pub const MAX_DASHBOARDS: u32 = 500;

/// Max time range (hours) for SLO history queries (90 days).
pub const MAX_SLO_HOURS: u32 = 2160;

/// Max time range (hours) for synthetic test results.
pub const MAX_SYNTHETICS_HOURS: u32 = 48;

/// The smaller of two numbers.
pub open spec fn min_u32(a: u32, b: u32) -> u32 {
    if a <= b { a } else { b }
}

/// Clamp a user-provided limit to the safety maximum.
pub fn clamp_limit(requested: u32, max: u32) -> (r: u32)
    ensures
        r == min_u32(requested, max),
{
    if requested > max {
        max
    } else {
        requested
    }
}

/// The message that rejects a value below its minimum.
pub open spec fn below_min_message(label: Seq<char>, min: u32) -> Seq<char> {
    label + " must be at least "@ + decimal(min as nat) + "."@
}

/// Accept `requested` when it is at least `min`; otherwise the error names the
/// field by `label`.
pub fn require_min(label: &str, requested: u32, min: u32) -> (r: Result<u32, String>)
    ensures
        requested >= min ==> r == Ok::<u32, String>(requested),
        requested < min ==> r is Err && r->Err_0@ == below_min_message(label@, min),
{
    if requested < min {
        let mut msg = text_of(label);
        append_text(&mut msg, " must be at least ");
        push_decimal(&mut msg, min as u64);
        append_text(&mut msg, ".");
        return Err(msg);
    }
    Ok(requested)
}

/// Validate a user-provided limit (at least 1) and clamp it to the safety maximum.
pub fn resolve_limit(requested: u32, max: u32) -> (r: Result<u32, String>)
    ensures
        requested >= 1 ==> r == Ok::<u32, String>(min_u32(requested, max)),
        requested < 1 ==> r is Err && r->Err_0@ == below_min_message("Limit"@, 1),
{
    match require_min("Limit", requested, 1) {
        Err(e) => Err(e),
        Ok(_) => Ok(clamp_limit(requested, max)),
    }
}

/// A clamped limit never exceeds the cap, never exceeds the request, and is
/// the request itself when that is within the cap.
pub proof fn lemma_clamp_within_cap(requested: u32, max: u32)
    ensures
        min_u32(requested, max) <= max,
        min_u32(requested, max) <= requested,
        requested <= max ==> min_u32(requested, max) == requested,
{
}

/// Every limit a command accepts lies between 1 and its cap: the request when
/// it is within, the cap when it is above; 0 is refused.
pub proof fn lemma_accepted_limit(requested: u32, max: u32)
    requires
        max >= 1,
    ensures
        requested >= 1 ==> 1 <= min_u32(requested, max) <= max,
        requested >= 1 && requested <= max ==> min_u32(requested, max) == requested,
{
}

} // verus!
