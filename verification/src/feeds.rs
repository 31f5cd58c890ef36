//! Per-row tone decisions for the runs, blotter and incidents feeds, and order
//! cancellability. The engine's text is never rewritten.

use vstd::prelude::*;
use crate::strs;

verus! {

/// A row's tone, for the theme to colour at render time.
#[derive(Debug, Clone, Copy, PartialEq, Eq)]
pub enum FeedTone {
    /// No judgement / default muted.
    Neutral,
    /// On its way / informational.
    Info,
    /// All good (succeeded / filled).
    Positive,
    /// Worth attention (warnings, skipped).
    Caution,
    /// A problem (failed / rejected / error).
    Negative,
    /// Done-but-inert (cancelled order).
    Ignored,
}

/// Runs-dock tone of an event kind (already trimmed). Branch order matters: a
/// `*failed` wins over `order.`, and `order.*` wins over `*filled`.
pub open spec fn event_tone_of(kind: Seq<char>) -> FeedTone {
    if strs::has_suffix(kind, "failed"@) || kind == "log.error"@ {
        FeedTone::Negative
    } else if strs::has_prefix(kind, "order."@) {
        FeedTone::Info
    } else if kind == "log.warning"@ || strs::has_suffix(kind, "skipped"@) {
        FeedTone::Caution
    } else if strs::has_suffix(kind, "succeeded"@) || strs::has_suffix(kind, "filled"@) {
        FeedTone::Positive
    } else {
        FeedTone::Neutral
    }
}

/// Runs-dock event tone from the engine event `kind`: trimmed, case-sensitive.
pub fn event_tone(kind: &str) -> (t: FeedTone)
    ensures
        t == event_tone_of(strs::trim(kind@)),
{
    let k = strs::chars_of(strs::trim_str(kind));
    if strs::ends_with(&k, &strs::chars_of("failed")) || strs::eq_chars(&k, &strs::chars_of("log.error")) {
        FeedTone::Negative
    } else if strs::starts_with(&k, &strs::chars_of("order.")) {
        FeedTone::Info
    } else if strs::eq_chars(&k, &strs::chars_of("log.warning")) || strs::ends_with(&k, &strs::chars_of("skipped")) {
        FeedTone::Caution
    } else if strs::ends_with(&k, &strs::chars_of("succeeded")) || strs::ends_with(&k, &strs::chars_of("filled")) {
        FeedTone::Positive
    } else {
        FeedTone::Neutral
    }
}

/// The trimmed, ASCII-lowercased characters of `s`.
pub open spec fn folded(s: Seq<char>) -> Seq<char> {
    strs::ascii_lower_seq(strs::trim(s))
}

fn fold_exec(s: &str) -> (r: Vec<char>)
    ensures
        r@ == folded(s@),
{
    let t = strs::chars_of(strs::trim_str(s));
    strs::ascii_lowercase(&t)
}

/// Blotter tone of an order status (already folded).
pub open spec fn order_tone_of(s: Seq<char>) -> FeedTone {
    if s == "filled"@ || s == "executed"@ {
        FeedTone::Positive
    } else if s == "rejected"@ || s == "failed"@ || s == "error"@ {
        FeedTone::Negative
    } else if s == "cancelled"@ || s == "canceled"@ {
        FeedTone::Ignored
    } else {
        FeedTone::Info
    }
}

/// Blotter order tone from the engine order `status`, trimmed and
/// ASCII-lowercased first; anything unrecognised reads "on its way" (Info).
pub fn order_tone(status: &str) -> (t: FeedTone)
    ensures
        t == order_tone_of(folded(status@)),
{
    let s = fold_exec(status);
    if strs::eq_chars(&s, &strs::chars_of("filled")) || strs::eq_chars(&s, &strs::chars_of("executed")) {
        FeedTone::Positive
    } else if strs::eq_chars(&s, &strs::chars_of("rejected")) || strs::eq_chars(&s, &strs::chars_of("failed"))
        || strs::eq_chars(&s, &strs::chars_of("error")) {
        FeedTone::Negative
    } else if strs::eq_chars(&s, &strs::chars_of("cancelled")) || strs::eq_chars(&s, &strs::chars_of("canceled")) {
        FeedTone::Ignored
    } else {
        FeedTone::Info
    }
}

/// Incident severity tone: error → Negative, warning → Caution, anything else
/// (trimmed and ASCII-lowercased first) → Info.
pub fn severity_tone(severity: &str) -> (t: FeedTone)
    ensures
        t == (if folded(severity@) == "error"@ {
            FeedTone::Negative
        } else if folded(severity@) == "warning"@ {
            FeedTone::Caution
        } else {
            FeedTone::Info
        }),
{
    let s = fold_exec(severity);
    if strs::eq_chars(&s, &strs::chars_of("error")) {
        FeedTone::Negative
    } else if strs::eq_chars(&s, &strs::chars_of("warning")) {
        FeedTone::Caution
    } else {
        FeedTone::Info
    }
}

/// The closed allowlist of statuses still working at a broker.
pub open spec fn working_status(s: Seq<char>) -> bool {
    s == "pending"@ || s == "sent"@ || s == "partially_filled"@ || s == "working"@
        || s == "open"@ || s == "submitted"@ || s == "routed"@
}

/// Whether an order is still working at the broker and therefore cancellable.
pub fn is_cancellable(status: &str) -> (r: bool)
    ensures
        r == working_status(folded(status@)),
{
    let s = fold_exec(status);
    strs::eq_chars(&s, &strs::chars_of("pending")) || strs::eq_chars(&s, &strs::chars_of("sent"))
        || strs::eq_chars(&s, &strs::chars_of("partially_filled")) || strs::eq_chars(&s, &strs::chars_of("working"))
        || strs::eq_chars(&s, &strs::chars_of("open")) || strs::eq_chars(&s, &strs::chars_of("submitted"))
        || strs::eq_chars(&s, &strs::chars_of("routed"))
}

} // verus!
