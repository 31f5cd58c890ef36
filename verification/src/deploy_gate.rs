//! The shared live-deploy safety gate: a live (real-money) deploy is never sent
//! on a first click — it must be armed and then confirmed, with `live_allowed`
//! re-checked fresh at click time.

use vstd::prelude::*;
use crate::json::{self, JsonValue};

verus! {

/// What a Deploy click should do, given whether a live deploy is already armed
/// and the fresh `live_allowed` re-checked at click time.
#[derive(Debug, Clone, Copy, PartialEq, Eq)]
pub enum DeployDecision {
    /// First click on a live-capable strategy: arm a confirmation.
    ArmConfirm,
    /// Confirming click while live is still permitted: send the live deploy.
    SubmitLive,
    /// Live not permitted (or revoked between arming and confirming): paper.
    SubmitPaper,
}

/// Decide what a Deploy click does.
pub fn decide_deploy(awaiting_confirm: bool, live_allowed: bool) -> (r: DeployDecision)
    ensures
        r == (if !live_allowed {
            DeployDecision::SubmitPaper
        } else if awaiting_confirm {
            DeployDecision::SubmitLive
        } else {
            DeployDecision::ArmConfirm
        }),
        // Live money moves only on a confirming click while live is allowed.
        r == DeployDecision::SubmitLive <==> (awaiting_confirm && live_allowed),
{
    match (awaiting_confirm, live_allowed) {
        (true, true) => DeployDecision::SubmitLive,
        (true, false) => DeployDecision::SubmitPaper,
        (false, true) => DeployDecision::ArmConfirm,
        (false, false) => DeployDecision::SubmitPaper,
    }
}

/// Whether the engine permits live after a capabilities fetch: only an explicit
/// `live_allowed: true` counts; a missing or malformed field, or a failed fetch
/// (`None`), fails closed to `false`.
pub fn live_allowed_after_fetch(fetched: Option<&JsonValue>) -> (r: bool)
    ensures
        r == match fetched {
            Some(v) => json::bool_of(json::field(*v, "live_allowed"@)) == Some(true),
            None => false,
        },
{
    match fetched {
        Some(v) => match v.get("live_allowed") {
            Some(b) => match b.as_bool() {
                Some(x) => x,
                None => false,
            },
            None => false,
        },
        None => false,
    }
}

} // verus!
