//! The rules of the Live Deploy wizard and the Live Algorithms view: a live
//! deployment cannot deploy without a positive AUM (the keystone), and the
//! lifecycle verbs offered on a running algorithm match the engine's state
//! machine.

use vstd::prelude::*;
use crate::strs;

verus! {

/// Paper or live trading.
#[derive(Debug, Clone, Copy, PartialEq, Eq)]
pub enum Mode {
    Paper,
    Live,
}

/// Where the deployment runs.
#[derive(Debug, Clone, Copy, PartialEq, Eq)]
pub enum ComputeKind {
    Local,
    Oci,
    Aws,
}

/// Whether the wizard can deploy: the flag the Deploy button binds its
/// enabled state to, plus the human reasons it's blocked.
#[derive(Debug, Clone, PartialEq)]
pub struct DeployReadiness {
    pub ready: bool,
    pub reasons: Vec<String>,
}

/// The reasons a deployment is blocked, in display order.
pub open spec fn readiness_reasons(broker: Option<Seq<char>>, has_data_providers: bool, mode: Mode, aum_positive: bool) -> Seq<Seq<char>> {
    (if match broker { Some(b) => b.len() == 0, None => true } { seq!["Select a brokerage."@] } else { Seq::empty() })
        + (if !has_data_providers { seq!["Select at least one data source."@] } else { Seq::empty() })
        + (if mode == Mode::Live && !aum_positive {
        seq!["Enter the starting capital (AUM) — required for live."@]
    } else {
        Seq::empty()
    })
}

/// Decide whether the Deploy button is enabled, mirroring the engine
/// preflight. `aum_positive` says whether a starting capital above zero was
/// entered. The keystone: a live deployment without one never deploys.
pub fn readiness(broker: Option<&str>, has_data_providers: bool, mode: Mode, aum_positive: bool) -> (r: DeployReadiness)
    ensures
        strs::views_of_strings(r.reasons@) == readiness_reasons(strs::opt_str_view(broker), has_data_providers, mode, aum_positive),
        r.ready == (r.reasons@.len() == 0),
        mode == Mode::Live && !aum_positive ==> !r.ready,
{
    let mut reasons: Vec<String> = Vec::new();
    let no_broker = match broker {
        Some(b) => strs::chars_of(b).len() == 0,
        None => true,
    };
    if no_broker {
        reasons.push(strs::own("Select a brokerage."));
    }
    let ghost r1 = strs::views_of_strings(reasons@);
    if !has_data_providers {
        reasons.push(strs::own("Select at least one data source."));
    }
    let ghost r2 = strs::views_of_strings(reasons@);
    let live = match mode {
        Mode::Live => true,
        Mode::Paper => false,
    };
    if live && !aum_positive {
        reasons.push(strs::own("Enter the starting capital (AUM) — required for live."));
    }
    proof {
        let b = strs::opt_str_view(broker);
        assert(r1 =~= (if match b { Some(x) => x.len() == 0, None => true } { seq!["Select a brokerage."@] } else { Seq::empty() }));
        assert(r2 =~= r1 + (if !has_data_providers { seq!["Select at least one data source."@] } else { Seq::empty() }));
        assert(strs::views_of_strings(reasons@) =~= readiness_reasons(b, has_data_providers, mode, aum_positive));
    }
    let ready = reasons.len() == 0;
    DeployReadiness { ready, reasons }
}

/// A lifecycle action offered on a live algorithm, one per engine verb.
#[derive(Debug, Clone, Copy, PartialEq, Eq)]
pub enum Action {
    Stop,
    Liquidate,
    Restart,
}

/// The actions the detail view enables for a state: stop only while
/// running; restart only from a halted state; liquidate from any of those;
/// nothing in flight or once liquidating/archived.
pub open spec fn actions_for(state: Seq<char>) -> Seq<Action> {
    if state == "running"@ {
        seq![Action::Stop, Action::Liquidate]
    } else if state == "stopped"@ || state == "errored"@ {
        seq![Action::Restart, Action::Liquidate]
    } else {
        Seq::empty()
    }
}

/// Which actions the detail view should enable for a deployment in `state`.
pub fn available_actions(state: &str) -> (r: Vec<Action>)
    ensures
        r@ == actions_for(state@),
{
    if strs::eq_str(state, "running") {
        let r = vec![Action::Stop, Action::Liquidate];
        assert(r@ =~= seq![Action::Stop, Action::Liquidate]);
        r
    } else if strs::eq_str(state, "stopped") || strs::eq_str(state, "errored") {
        let r = vec![Action::Restart, Action::Liquidate];
        assert(r@ =~= seq![Action::Restart, Action::Liquidate]);
        r
    } else {
        let r: Vec<Action> = Vec::new();
        assert(r@ =~= Seq::<Action>::empty());
        r
    }
}

/// The status dot label of a state.
pub open spec fn status_label_of(state: Seq<char>) -> Seq<char> {
    if state == "running"@ {
        "Running"@
    } else if state == "stopped"@ {
        "Stopped"@
    } else if state == "errored"@ {
        "Error"@
    } else if state == "liquidating"@ {
        "Liquidating"@
    } else if state == "archived"@ {
        "Archived"@
    } else if state == "preflight"@ || state == "provisioning"@ || state == "starting"@ || state == "restarting"@ {
        "Starting"@
    } else {
        "Unknown"@
    }
}

/// A short status dot label the view colors.
pub fn status_label(state: &str) -> (r: &'static str)
    ensures
        r@ == status_label_of(state@),
{
    if strs::eq_str(state, "running") {
        "Running"
    } else if strs::eq_str(state, "stopped") {
        "Stopped"
    } else if strs::eq_str(state, "errored") {
        "Error"
    } else if strs::eq_str(state, "liquidating") {
        "Liquidating"
    } else if strs::eq_str(state, "archived") {
        "Archived"
    } else if strs::eq_str(state, "preflight") || strs::eq_str(state, "provisioning") || strs::eq_str(state, "starting")
        || strs::eq_str(state, "restarting") {
        "Starting"
    } else {
        "Unknown"
    }
}

} // verus!
