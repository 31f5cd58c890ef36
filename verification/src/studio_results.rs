//! The decisions shared by the cockpit toolbar and the Studio results tab:
//! how a missing value reads, the plain-English robustness verdict, and how a
//! diagnostics fetch is classified. An absent value is never fabricated, and
//! the verdict never claims an edge holds unless both sharpes are present.

use vstd::prelude::*;
use crate::strs;

verus! {

/// The single em-dash both surfaces show for a missing value, so they match.
pub const MISSING: &'static str = "—";

/// A trade count, e.g. `142`; `—` when absent.
pub fn fmt_count(value: Option<u64>) -> (r: String)
    ensures
        r@ == match value {
            Some(v) => strs::decimal(v as nat),
            None => MISSING@,
        },
{
    match value {
        Some(v) => strs::decimal_string(v),
        None => strs::own(MISSING),
    }
}

/// An honest plain-English verdict on out-of-sample robustness.
#[derive(Debug, Clone, Copy, PartialEq, Eq)]
pub enum RobustnessVerdict {
    /// Out-of-sample sharpe is negative — the edge does not survive.
    DoesNotSurvive,
    /// Out-of-sample sharpe is non-negative but well below in-sample.
    WeakensSharply,
    /// Out-of-sample sharpe holds up against in-sample.
    Holds,
    /// In-sample present, but the engine reported no out-of-sample sharpe.
    NotEvaluated,
    /// Neither sharpe is present — nothing to judge.
    Unavailable,
}

/// The verdict for a run. `out_negative` says whether the out-of-sample
/// sharpe is below zero, `out_below_half` whether it is below half the
/// in-sample sharpe; both only count when both sharpes are present.
pub open spec fn verdict_of(has_in_sample: bool, has_out_of_sample: bool, out_negative: bool, out_below_half: bool) -> RobustnessVerdict {
    if has_in_sample && has_out_of_sample {
        if out_negative {
            RobustnessVerdict::DoesNotSurvive
        } else if out_below_half {
            RobustnessVerdict::WeakensSharply
        } else {
            RobustnessVerdict::Holds
        }
    } else if has_in_sample {
        RobustnessVerdict::NotEvaluated
    } else {
        RobustnessVerdict::Unavailable
    }
}

/// Classify the robustness of a run from which sharpes are present and how
/// the out-of-sample one compares. `Holds`, `WeakensSharply` and
/// `DoesNotSurvive` require both sharpes; with only an in-sample sharpe the
/// result is `NotEvaluated`, and without one it is `Unavailable`.
pub fn classify_robustness(has_in_sample: bool, has_out_of_sample: bool, out_negative: bool, out_below_half: bool) -> (r: RobustnessVerdict)
    ensures
        r == verdict_of(has_in_sample, has_out_of_sample, out_negative, out_below_half),
        (r == RobustnessVerdict::Holds || r == RobustnessVerdict::WeakensSharply || r == RobustnessVerdict::DoesNotSurvive)
            ==> has_in_sample && has_out_of_sample,
{
    if has_in_sample && has_out_of_sample {
        if out_negative {
            RobustnessVerdict::DoesNotSurvive
        } else if out_below_half {
            RobustnessVerdict::WeakensSharply
        } else {
            RobustnessVerdict::Holds
        }
    } else if has_in_sample {
        RobustnessVerdict::NotEvaluated
    } else {
        RobustnessVerdict::Unavailable
    }
}

/// The sentence a verdict renders as.
pub open spec fn verdict_sentence(verdict: RobustnessVerdict) -> Seq<char> {
    match verdict {
        RobustnessVerdict::DoesNotSurvive => "The edge does not survive out-of-sample — I would not deploy this."@,
        RobustnessVerdict::WeakensSharply => "The edge weakens sharply out-of-sample — treat it with caution."@,
        RobustnessVerdict::Holds => "The edge holds out-of-sample."@,
        RobustnessVerdict::NotEvaluated => "Out-of-sample not evaluated for this run."@,
        RobustnessVerdict::Unavailable => "Diagnostics unavailable."@,
    }
}

/// The exact sentence each verdict renders as.
pub fn verdict_text(verdict: RobustnessVerdict) -> (r: &'static str)
    ensures
        r@ == verdict_sentence(verdict),
{
    match verdict {
        RobustnessVerdict::DoesNotSurvive => "The edge does not survive out-of-sample — I would not deploy this.",
        RobustnessVerdict::WeakensSharply => "The edge weakens sharply out-of-sample — treat it with caution.",
        RobustnessVerdict::Holds => "The edge holds out-of-sample.",
        RobustnessVerdict::NotEvaluated => "Out-of-sample not evaluated for this run.",
        RobustnessVerdict::Unavailable => "Diagnostics unavailable.",
    }
}

/// The outcome of a diagnostics fetch, classified so the render layer can tell
/// a route-not-deployed-yet case (non-retryable) apart from a transient
/// failure (retryable).
#[derive(Debug, Clone, PartialEq, Eq)]
pub enum DiagFetchOutcome {
    /// A 2xx response — diagnostics are present.
    Ready,
    /// The route is absent (404 / "route not found") — non-retryable.
    Unavailable,
    /// A server or transport error — retryable.
    Failed { message: String },
}

/// Whether an error body names a missing route: `404` or `not found`, in any
/// ASCII case.
pub open spec fn names_missing_route(body: Seq<char>) -> bool {
    strs::has_infix(strs::ascii_lower_seq(body), "404"@) || strs::has_infix(strs::ascii_lower_seq(body), "not found"@)
}

/// A fetch outcome as plain values.
pub enum OutcomeModel {
    Ready,
    Unavailable,
    Failed(Seq<char>),
}

/// The plain-value form of an outcome.
pub open spec fn outcome_model(o: DiagFetchOutcome) -> OutcomeModel {
    match o {
        DiagFetchOutcome::Ready => OutcomeModel::Ready,
        DiagFetchOutcome::Unavailable => OutcomeModel::Unavailable,
        DiagFetchOutcome::Failed { message } => OutcomeModel::Failed(message@),
    }
}

/// The outcome a fetch with this status and error body is classified as:
/// 2xx is ready, 404 unavailable, any other status a failure carrying the
/// body (or the status); without a status, a body naming a missing route is
/// unavailable and anything else a failure.
pub open spec fn outcome_of(status: Option<u16>, error: Option<Seq<char>>) -> OutcomeModel {
    match status {
        Some(code) => if 200 <= code < 300 {
            OutcomeModel::Ready
        } else if code == 404 {
            OutcomeModel::Unavailable
        } else {
            OutcomeModel::Failed(
                match error {
                    Some(e) => e,
                    None => "Engine returned HTTP "@ + strs::decimal(code as nat) + "."@,
                },
            )
        },
        None => {
            let body = match error {
                Some(e) => e,
                None => Seq::<char>::empty(),
            };
            if names_missing_route(body) {
                OutcomeModel::Unavailable
            } else {
                OutcomeModel::Failed(if body.len() == 0 { "Couldn't reach the engine."@ } else { body })
            }
        },
    }
}

/// Whether an error body (status unknown) names a missing route.
/// Case-insensitive match on the documented markers.
fn body_names_missing_route(body: &str) -> (r: bool)
    ensures
        r == names_missing_route(body@),
{
    let lowered = strs::ascii_lowercase(&strs::chars_of(body));
    strs::contains_chars(&lowered, &strs::chars_of("404")) || strs::contains_chars(&lowered, &strs::chars_of("not found"))
}

/// Classify a diagnostics fetch from its HTTP status and/or error body. Only a
/// 404 (or, when the status is unavailable, an error body that names a
/// missing route) is `Unavailable`; everything else that is not 2xx is
/// `Failed` and therefore retryable.
pub fn classify_diag_fetch(status: Option<u16>, error: Option<&str>) -> (r: DiagFetchOutcome)
    ensures
        outcome_model(r) == outcome_of(status, strs::opt_str_view(error)),
{
    match status {
        Some(code) => {
            if 200 <= code && code < 300 {
                DiagFetchOutcome::Ready
            } else if code == 404 {
                DiagFetchOutcome::Unavailable
            } else {
                let message = match error {
                    Some(e) => strs::own(e),
                    None => {
                        let mut m = strs::own("Engine returned HTTP ");
                        strs::push_decimal(&mut m, code as u64);
                        strs::append_str(&mut m, ".");
                        m
                    },
                };
                DiagFetchOutcome::Failed { message }
            }
        },
        None => {
            let body = match error {
                Some(e) => e,
                None => "",
            };
            proof {
                reveal_strlit("");
                assert(body@ == match strs::opt_str_view(error) {
                    Some(e) => e,
                    None => Seq::<char>::empty(),
                });
            }
            if body_names_missing_route(body) {
                DiagFetchOutcome::Unavailable
            } else {
                let message = if strs::chars_of(body).len() == 0 {
                    strs::own("Couldn't reach the engine.")
                } else {
                    strs::own(body)
                };
                DiagFetchOutcome::Failed { message }
            }
        },
    }
}

} // verus!
