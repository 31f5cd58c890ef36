//! The verb layer: what a user can do and whether it is allowed, decided once
//! for every shell. A live (real-money) deploy is permitted only on the
//! engine's say-so, and an unverifiable permission blocks rather than silently
//! falling through to paper.

use vstd::prelude::*;
use crate::json::{self, JsonValue};
use crate::strs;

verus! {

/// The verbs a user can invoke.
#[derive(Debug, Clone, Copy, PartialEq, Eq)]
pub enum Verb {
    Connect,
    CreateStrategy,
    Backtest,
    Validate,
    Deploy,
    Monitor,
    Cancel,
}

/// Whether the engine permits a live deploy right now. A missing field,
/// malformed body, or transport error is `Unknown`, not `Denied`.
#[derive(Debug, Clone, Copy, PartialEq, Eq)]
pub enum LivePermission {
    Allowed,
    Denied,
    Unknown,
}

/// The permission a capabilities body states.
pub open spec fn permission_of(value: JsonValue) -> LivePermission {
    match json::bool_of(json::field(value, "live_allowed"@)) {
        Some(true) => LivePermission::Allowed,
        Some(false) => LivePermission::Denied,
        None => LivePermission::Unknown,
    }
}

/// Parse the engine `/ui/api/capabilities` body: only an explicit boolean
/// `live_allowed` yields Allowed/Denied; anything else is `Unknown`.
pub fn live_permission_from_capabilities(value: &JsonValue) -> (r: LivePermission)
    ensures
        r == permission_of(*value),
{
    let allowed = match value.get("live_allowed") {
        Some(v) => v.as_bool(),
        None => None,
    };
    match allowed {
        Some(true) => LivePermission::Allowed,
        Some(false) => LivePermission::Denied,
        None => LivePermission::Unknown,
    }
}

/// Decide the permission after a capabilities fetch: any transport error is
/// `Unknown` (never `Denied`).
pub fn permission_after_fetch(fetched: Option<&JsonValue>) -> (r: LivePermission)
    ensures
        r == match fetched {
            Some(v) => permission_of(*v),
            None => LivePermission::Unknown,
        },
{
    match fetched {
        Some(v) => live_permission_from_capabilities(v),
        None => LivePermission::Unknown,
    }
}

/// What a Deploy click should do.
#[derive(Debug, Clone, Copy, PartialEq, Eq)]
pub enum DeployDecision {
    /// First click on a live-capable strategy: arm a confirmation.
    ArmConfirm,
    /// Confirming click while live is still permitted: send the live deploy.
    SubmitLive,
    /// Live explicitly not permitted: a paper deploy is safe to send.
    SubmitPaper,
    /// Live permission could not be verified: block and ask to retry.
    BlockedUnverified,
}

/// The decision for a click.
pub open spec fn decision_of(awaiting_confirm: bool, permission: LivePermission) -> DeployDecision {
    match permission {
        LivePermission::Allowed => if awaiting_confirm {
            DeployDecision::SubmitLive
        } else {
            DeployDecision::ArmConfirm
        },
        LivePermission::Denied => DeployDecision::SubmitPaper,
        LivePermission::Unknown => DeployDecision::BlockedUnverified,
    }
}

/// Decide what a Deploy click does.
pub fn decide_deploy(awaiting_confirm: bool, permission: LivePermission) -> (r: DeployDecision)
    ensures
        r == decision_of(awaiting_confirm, permission),
{
    match (awaiting_confirm, permission) {
        (false, LivePermission::Allowed) => DeployDecision::ArmConfirm,
        (true, LivePermission::Allowed) => DeployDecision::SubmitLive,
        (_, LivePermission::Denied) => DeployDecision::SubmitPaper,
        (_, LivePermission::Unknown) => DeployDecision::BlockedUnverified,
    }
}

/// Whether a verb can be invoked right now, and if not, the honest reason.
#[derive(Debug, Clone, PartialEq, Eq)]
pub enum Affordance {
    /// Invocable now.
    Ready,
    /// Invocable but requires a confirming second action.
    NeedsConfirm,
    /// Not invocable; `reason` is shown to the user.
    Disabled { reason: String },
}

/// What an affordance shows: `Ready` is 0, `NeedsConfirm` 1, `Disabled` 2,
/// with the reason's characters for a disabled one.
pub open spec fn affordance_view(a: Affordance) -> (int, Seq<char>) {
    match a {
        Affordance::Ready => (0, Seq::<char>::empty()),
        Affordance::NeedsConfirm => (1, Seq::<char>::empty()),
        Affordance::Disabled { reason } => (2, reason@),
    }
}

impl Affordance {
    /// A disabled affordance carrying `reason`.
    pub fn disabled(reason: &str) -> (r: Self)
        ensures
            affordance_view(r) == (2int, reason@),
    {
        Affordance::Disabled { reason: strs::own(reason) }
    }

    /// Whether the verb is invocable now without confirmation.
    pub fn is_ready(&self) -> (r: bool)
        ensures
            r == (self is Ready),
    {
        match self {
            Affordance::Ready => true,
            _ => false,
        }
    }
}

/// `connect` is invocable whenever the engine is reachable.
pub fn connect_affordance(engine_reachable: bool) -> (r: Affordance)
    ensures
        affordance_view(r) == (if engine_reachable {
            (0int, Seq::<char>::empty())
        } else {
            (2int, "Engine unreachable — start it from the launcher, then retry."@)
        }),
{
    if engine_reachable {
        Affordance::Ready
    } else {
        Affordance::disabled("Engine unreachable — start it from the launcher, then retry.")
    }
}

/// `backtest` needs a selected strategy and nothing already running.
pub fn backtest_affordance(has_strategy: bool, in_flight: bool) -> (r: Affordance)
    ensures
        affordance_view(r) == (if !has_strategy {
            (2int, "Select or create a strategy to backtest."@)
        } else if in_flight {
            (2int, "A backtest is already running."@)
        } else {
            (0int, Seq::<char>::empty())
        }),
{
    if !has_strategy {
        Affordance::disabled("Select or create a strategy to backtest.")
    } else if in_flight {
        Affordance::disabled("A backtest is already running.")
    } else {
        Affordance::Ready
    }
}

/// `validate` needs a selected strategy.
pub fn validate_affordance(has_strategy: bool) -> (r: Affordance)
    ensures
        affordance_view(r) == (if has_strategy {
            (0int, Seq::<char>::empty())
        } else {
            (2int, "Select or create a strategy to validate."@)
        }),
{
    if has_strategy {
        Affordance::Ready
    } else {
        Affordance::disabled("Select or create a strategy to validate.")
    }
}

/// The Deploy affordance for a decision: arming or confirming live needs a
/// confirmation, paper is ready, an unverifiable permission is disabled.
pub open spec fn deploy_view(has_strategy: bool, d: DeployDecision) -> (int, Seq<char>) {
    if !has_strategy {
        (2int, "Backtest a strategy before deploying it."@)
    } else {
        match d {
            DeployDecision::ArmConfirm => (1int, Seq::<char>::empty()),
            DeployDecision::SubmitLive => (1int, Seq::<char>::empty()),
            DeployDecision::SubmitPaper => (0int, Seq::<char>::empty()),
            DeployDecision::BlockedUnverified => (
                2int,
                "Couldn't verify live permission — check the engine and retry."@,
            ),
        }
    }
}

/// The Deploy verb's affordance, derived from the same decision used to act,
/// so the button's appearance and behaviour never disagree.
pub fn deploy_affordance(has_strategy: bool, awaiting_confirm: bool, permission: LivePermission) -> (r: Affordance)
    ensures
        affordance_view(r) == deploy_view(has_strategy, decision_of(awaiting_confirm, permission)),
{
    if !has_strategy {
        return Affordance::disabled("Backtest a strategy before deploying it.");
    }
    match decide_deploy(awaiting_confirm, permission) {
        DeployDecision::ArmConfirm | DeployDecision::SubmitLive => Affordance::NeedsConfirm,
        DeployDecision::SubmitPaper => Affordance::Ready,
        DeployDecision::BlockedUnverified => {
            Affordance::disabled("Couldn't verify live permission — check the engine and retry.")
        },
    }
}

/// The real-money law: a live deploy is sent only on a confirming click while
/// the engine explicitly allows live, and an unverifiable permission never
/// yields any deploy at all.
pub proof fn lemma_live_needs_confirmed_permission(awaiting_confirm: bool, permission: LivePermission)
    ensures
        (decision_of(awaiting_confirm, permission) == DeployDecision::SubmitLive) <==> (awaiting_confirm
            && permission == LivePermission::Allowed),
        permission == LivePermission::Unknown ==> decision_of(awaiting_confirm, permission)
            == DeployDecision::BlockedUnverified,
        decision_of(awaiting_confirm, permission) == DeployDecision::SubmitPaper <==> permission
            == LivePermission::Denied,
{
}

/// The Deploy button reads ready (a send with no confirmation step) exactly
/// when the action would be a paper deploy for a selected strategy.
pub proof fn lemma_deploy_appearance_matches_action(
    has_strategy: bool,
    awaiting_confirm: bool,
    permission: LivePermission,
)
    ensures
        (deploy_view(has_strategy, decision_of(awaiting_confirm, permission)).0 == 0) <==> (has_strategy
            && decision_of(awaiting_confirm, permission) == DeployDecision::SubmitPaper),
        (deploy_view(has_strategy, decision_of(awaiting_confirm, permission)).0 == 1) <==> (has_strategy
            && permission == LivePermission::Allowed),
{
}

} // verus!
