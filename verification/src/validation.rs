//! Decision logic for the Validation rail: the engine's tier word maps to a
//! glance severity, and anything it did not send reads `NotChecked`, never a
//! guessed `Ok`. Engine text passes through verbatim.

use vstd::prelude::*;
use crate::strs;

verus! {

/// Glance severity of one overfit check.
#[derive(Debug, Clone, Copy, PartialEq, Eq)]
pub enum Severity {
    Okay,
    Caution,
    NeedsAttention,
    NotChecked,
}

/// One render-ready signal row.
#[derive(Debug, Clone, PartialEq, Eq)]
pub struct SignalRow {
    pub name: String,
    pub severity: Severity,
    /// Engine "what this means"; may be empty.
    pub plain: String,
    /// Engine "what usually fixes it"; may be empty.
    pub fix: String,
}

/// The verdict the rail shows for one strategy.
#[derive(Debug, Clone, PartialEq, Eq)]
pub struct Verdict {
    /// `None` when the engine summary was blank.
    pub summary: Option<String>,
    pub signals: Vec<SignalRow>,
}

/// The severity of a tier word already trimmed and lowercased.
pub open spec fn severity_of(t: Seq<char>) -> Severity {
    if t == "green"@ {
        Severity::Okay
    } else if t == "red"@ {
        Severity::NeedsAttention
    } else if t == "amber"@ || t == "warning"@ {
        Severity::Caution
    } else {
        Severity::NotChecked
    }
}

/// Map an engine tier string to a severity: trimmed and lowercased first, the
/// known words map, anything else is `NotChecked`.
pub fn signal_severity(tier: &str) -> (r: Severity)
    ensures
        r == severity_of(strs::lowercase_of(strs::trim(tier@))),
{
    let lowered = strs::str_to_lowercase(strs::trim_str(tier));
    let t = lowered.as_str();
    if strs::eq_str(t, "green") {
        Severity::Okay
    } else if strs::eq_str(t, "red") {
        Severity::NeedsAttention
    } else if strs::eq_str(t, "amber") || strs::eq_str(t, "warning") {
        Severity::Caution
    } else {
        Severity::NotChecked
    }
}

/// Build a row from raw engine fields; text passes through untrimmed.
pub fn signal_row(name: &str, tier: &str, plain: &str, fix: &str) -> (r: SignalRow)
    ensures
        r.name@ == name@,
        r.severity == severity_of(strs::lowercase_of(strs::trim(tier@))),
        r.plain@ == plain@,
        r.fix@ == fix@,
{
    SignalRow {
        name: strs::own(name),
        severity: signal_severity(tier),
        plain: strs::own(plain),
        fix: strs::own(fix),
    }
}

/// Normalise what the engine judged: a blank summary becomes `None`, otherwise it
/// passes through verbatim; the signals are kept as given.
pub fn verdict(summary: &str, signals: Vec<SignalRow>) -> (r: Verdict)
    ensures
        strs::opt_view(r.summary) == (if strs::trim(summary@).len() == 0 {
            None
        } else {
            Some(summary@)
        }),
        r.signals == signals,
{
    let s = if strs::is_blank(summary) { None } else { Some(strs::own(summary)) };
    Verdict { summary: s, signals }
}

/// A verdict is empty when it has no signals.
pub fn verdict_is_empty(verdict: &Verdict) -> (r: bool)
    ensures
        r == (verdict.signals@.len() == 0),
{
    verdict.signals.len() == 0
}

} // verus!
