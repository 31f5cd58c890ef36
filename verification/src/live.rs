//! The rules behind the Live Deploy wizard and the Live Algorithms dashboard:
//! the AUM-required gate, which lifecycle actions a state allows, the
//! control-plane path of a verb, and how a state reads.

use vstd::prelude::*;
use crate::panel_common::PanelStatus;
use crate::strs;

verus! {

/// Paper or live trading.
#[derive(Debug, Clone, Copy, PartialEq, Eq)]
pub enum Mode {
    Paper,
    Live,
}

impl Mode {
    /// The engine's name for the mode.
    pub fn wire(self) -> (r: &'static str)
        ensures
            r@ == match self {
                Mode::Paper => "paper"@,
                Mode::Live => "live"@,
            },
    {
        match self {
            Mode::Paper => "paper",
            Mode::Live => "live",
        }
    }
}

/// Where the deployment runs.
#[derive(Debug, Clone, Copy, PartialEq, Eq)]
pub enum Compute {
    Local,
    Oci,
    Aws,
}

impl Compute {
    /// The engine's name for the compute target.
    pub fn wire(self) -> (r: &'static str)
        ensures
            r@ == match self {
                Compute::Local => "local"@,
                Compute::Oci => "oci"@,
                Compute::Aws => "aws"@,
            },
    {
        match self {
            Compute::Local => "local",
            Compute::Oci => "oci",
            Compute::Aws => "aws",
        }
    }

    /// How the compute target reads in the wizard.
    pub fn label(self) -> (r: &'static str)
        ensures
            r@ == match self {
                Compute::Local => "This machine"@,
                Compute::Oci => "Oracle Cloud"@,
                Compute::Aws => "AWS"@,
            },
    {
        match self {
            Compute::Local => "This machine",
            Compute::Oci => "Oracle Cloud",
            Compute::Aws => "AWS",
        }
    }
}

/// Whether an optional brokerage is unset or empty.
pub open spec fn broker_missing(broker: Option<Seq<char>>) -> bool {
    match broker {
        Some(b) => b.len() == 0,
        None => true,
    }
}

/// `line` when `cond` holds, nothing otherwise.
pub open spec fn reason_if(cond: bool, line: Seq<char>) -> Seq<Seq<char>> {
    if cond { seq![line] } else { Seq::empty() }
}

/// Every reason the deployment can't go out yet, in display order, as the
/// engine's preflight would state them.
pub open spec fn wizard_blockers(
    name: Seq<char>,
    strategy_path: Seq<char>,
    strategy_cls: Seq<char>,
    broker: Option<Seq<char>>,
    mode: Mode,
    aum_positive: bool,
    compute: Compute,
    has_data_providers: bool,
) -> Seq<Seq<char>> {
    reason_if(strs::trim(name).len() == 0, "Give the deployment a name."@)
        + reason_if(
        strs::trim(strategy_path).len() == 0 || strs::trim(strategy_cls).len() == 0,
        "Pick a strategy to deploy."@,
    )
        + reason_if(broker_missing(broker), "Choose a brokerage."@)
        + reason_if(
        mode == Mode::Live && !aum_positive,
        "Starting capital (AUM) is required for live deployment and must be > 0."@,
    )
        + reason_if(compute != Compute::Local && !has_data_providers, "A cloud deployment needs at least one data source."@)
}

/// A deployment is ready (no blocker) exactly when it has a non-blank name, a
/// non-blank strategy path and class, a non-empty brokerage, a positive
/// starting capital if it goes live, and a data source if it runs in the
/// cloud. Without a brokerage (none chosen, or an empty one) the blockers
/// always include "Choose a brokerage."; a live deployment without capital
/// always includes the capital blocker.
pub proof fn lemma_blockers_ready(
    name: Seq<char>,
    strategy_path: Seq<char>,
    strategy_cls: Seq<char>,
    broker: Option<Seq<char>>,
    mode: Mode,
    aum_positive: bool,
    compute: Compute,
    has_data_providers: bool,
)
    ensures
        (wizard_blockers(name, strategy_path, strategy_cls, broker, mode, aum_positive, compute, has_data_providers).len() == 0)
            <==> {
            &&& strs::trim(name).len() > 0
            &&& strs::trim(strategy_path).len() > 0
            &&& strs::trim(strategy_cls).len() > 0
            &&& match broker {
                Some(b) => b.len() > 0,
                None => false,
            }
            &&& (mode == Mode::Live ==> aum_positive)
            &&& (compute != Compute::Local ==> has_data_providers)
        },
        (broker is None || broker == Some(Seq::<char>::empty())) ==> wizard_blockers(
            name, strategy_path, strategy_cls, broker, mode, aum_positive, compute, has_data_providers,
        ).contains("Choose a brokerage."@),
        (mode == Mode::Live && !aum_positive) ==> wizard_blockers(
            name, strategy_path, strategy_cls, broker, mode, aum_positive, compute, has_data_providers,
        ).contains("Starting capital (AUM) is required for live deployment and must be > 0."@),
{
    let r1 = reason_if(strs::trim(name).len() == 0, "Give the deployment a name."@);
    let r2 = reason_if(
        strs::trim(strategy_path).len() == 0 || strs::trim(strategy_cls).len() == 0,
        "Pick a strategy to deploy."@,
    );
    let r3 = reason_if(broker_missing(broker), "Choose a brokerage."@);
    let r4 = reason_if(
        mode == Mode::Live && !aum_positive,
        "Starting capital (AUM) is required for live deployment and must be > 0."@,
    );
    let r5 = reason_if(compute != Compute::Local && !has_data_providers, "A cloud deployment needs at least one data source."@);
    let all = wizard_blockers(name, strategy_path, strategy_cls, broker, mode, aum_positive, compute, has_data_providers);
    assert(all == r1 + r2 + r3 + r4 + r5);
    assert(all.len() == r1.len() + r2.len() + r3.len() + r4.len() + r5.len());
    if broker is None || broker == Some(Seq::<char>::empty()) {
        let k = r1.len() + r2.len();
        assert(r3.len() == 1 && r3[0] == "Choose a brokerage."@);
        assert(all[k as int] == "Choose a brokerage."@);
    }
    if mode == Mode::Live && !aum_positive {
        let k = r1.len() + r2.len() + r3.len();
        assert(all[k as int] == r4[0]);
    }
}

proof fn lemma_concat_contains(a: Seq<Seq<char>>, b: Seq<Seq<char>>, x: Seq<char>)
    ensures
        (a + b).contains(x) <==> (a.contains(x) || b.contains(x)),
{
    if (a + b).contains(x) {
        let i = choose|i: int| 0 <= i < (a + b).len() && (a + b)[i] == x;
        if i < a.len() {
            assert(a[i] == x);
        } else {
            assert(b[i - a.len()] == x);
        }
    }
    if a.contains(x) {
        let i = choose|i: int| 0 <= i < a.len() && a[i] == x;
        assert((a + b)[i] == x);
    }
    if b.contains(x) {
        let i = choose|i: int| 0 <= i < b.len() && b[i] == x;
        assert((a + b)[a.len() + i] == x);
    }
}

proof fn lemma_reason_contains(c: bool, m: Seq<char>, x: Seq<char>)
    ensures
        reason_if(c, m).contains(x) <==> (c && x == m),
{
    if c && x == m {
        assert(reason_if(c, m)[0] == x);
    }
}

/// Each blocker is listed exactly when its own condition fails: a blank name,
/// a blank strategy path or class, no (or an empty) brokerage, a live
/// deployment without capital, a cloud deployment without a data source.
pub proof fn lemma_blocker_reasons(
    name: Seq<char>,
    strategy_path: Seq<char>,
    strategy_cls: Seq<char>,
    broker: Option<Seq<char>>,
    mode: Mode,
    aum_positive: bool,
    compute: Compute,
    has_data_providers: bool,
)
    ensures
        ({
            let r = wizard_blockers(name, strategy_path, strategy_cls, broker, mode, aum_positive, compute, has_data_providers);
            &&& r.contains("Give the deployment a name."@) <==> strs::trim(name).len() == 0
            &&& r.contains("Pick a strategy to deploy."@) <==> (strs::trim(strategy_path).len() == 0 || strs::trim(strategy_cls).len() == 0)
            &&& r.contains("Choose a brokerage."@) <==> (broker is None || broker == Some(Seq::<char>::empty()))
            &&& r.contains("Starting capital (AUM) is required for live deployment and must be > 0."@) <==> (mode == Mode::Live && !aum_positive)
            &&& r.contains("A cloud deployment needs at least one data source."@) <==> (compute != Compute::Local && !has_data_providers)
        }),
{
    let m1 = "Give the deployment a name."@;
    let m2 = "Pick a strategy to deploy."@;
    let m3 = "Choose a brokerage."@;
    let m4 = "Starting capital (AUM) is required for live deployment and must be > 0."@;
    let m5 = "A cloud deployment needs at least one data source."@;
    reveal_strlit("Give the deployment a name.");
    reveal_strlit("Pick a strategy to deploy.");
    reveal_strlit("Choose a brokerage.");
    reveal_strlit("Starting capital (AUM) is required for live deployment and must be > 0.");
    reveal_strlit("A cloud deployment needs at least one data source.");
    assert(m1[0] == 'G' && m2[0] == 'P' && m3[0] == 'C' && m4[0] == 'S' && m5[0] == 'A');
    let c1 = strs::trim(name).len() == 0;
    let c2 = strs::trim(strategy_path).len() == 0 || strs::trim(strategy_cls).len() == 0;
    let c3 = broker_missing(broker);
    let c4 = mode == Mode::Live && !aum_positive;
    let c5 = compute != Compute::Local && !has_data_providers;
    let (r1, r2, r3, r4, r5) = (reason_if(c1, m1), reason_if(c2, m2), reason_if(c3, m3), reason_if(c4, m4), reason_if(c5, m5));
    let r = wizard_blockers(name, strategy_path, strategy_cls, broker, mode, aum_positive, compute, has_data_providers);
    assert(r == r1 + r2 + r3 + r4 + r5);
    assert(broker_missing(broker) <==> (broker is None || broker == Some(Seq::<char>::empty()))) by {
        if let Some(b) = broker {
            if b.len() == 0 {
                assert(b =~= Seq::<char>::empty());
            }
        }
    }
    let ms = seq![m1, m2, m3, m4, m5];
    assert forall|k: int| 0 <= k < 5 implies (r.contains(ms[k]) <==> ((c1 && ms[k] == m1) || (c2 && ms[k] == m2)
        || (c3 && ms[k] == m3) || (c4 && ms[k] == m4) || (c5 && ms[k] == m5))) by {
        lemma_concat_contains(r1 + r2 + r3 + r4, r5, ms[k]);
        lemma_concat_contains(r1 + r2 + r3, r4, ms[k]);
        lemma_concat_contains(r1 + r2, r3, ms[k]);
        lemma_concat_contains(r1, r2, ms[k]);
        lemma_reason_contains(c1, m1, ms[k]);
        lemma_reason_contains(c2, m2, ms[k]);
        lemma_reason_contains(c3, m3, ms[k]);
        lemma_reason_contains(c4, m4, ms[k]);
        lemma_reason_contains(c5, m5, ms[k]);
    }
    assert(ms[0] == m1 && ms[1] == m2 && ms[2] == m3 && ms[3] == m4 && ms[4] == m5);
    assert(m1 != m2 && m1 != m3 && m1 != m4 && m1 != m5 && m2 != m3 && m2 != m4 && m2 != m5 && m3 != m4
        && m3 != m5 && m4 != m5);
    assert(r.contains(m1) <==> c1);
    assert(r.contains(m2) <==> c2);
    assert(r.contains(m3) <==> c3);
    assert(r.contains(m4) <==> c4);
    assert(r.contains(m5) <==> c5);
}

fn push_reason(out: &mut Vec<String>, cond: bool, line: &str, Ghost(prev): Ghost<Seq<Seq<char>>>)
    requires
        strs::views_of_strings(old(out)@) == prev,
    ensures
        strs::views_of_strings(final(out)@) == prev + reason_if(cond, line@),
{
    let ghost before = out@;
    if cond {
        out.push(strs::own(line));
        assert(strs::views_of_strings(out@) =~= prev + seq![line@]);
    } else {
        assert(prev + reason_if(cond, line@) =~= prev);
    }
}

/// Every reason a deployment described by these facts can't go out yet, in
/// display order; empty means ready. `aum_positive` says whether a starting
/// capital above zero was entered. A live deployment without one is never
/// ready.
pub fn deploy_blockers(
    name: &str,
    strategy_path: &str,
    strategy_cls: &str,
    broker: Option<&str>,
    mode: Mode,
    aum_positive: bool,
    compute: Compute,
    has_data_providers: bool,
) -> (r: Vec<String>)
    ensures
        strs::views_of_strings(r@) == wizard_blockers(
            name@,
            strategy_path@,
            strategy_cls@,
            strs::opt_str_view(broker),
            mode,
            aum_positive,
            compute,
            has_data_providers,
        ),
        mode == Mode::Live && !aum_positive ==> r@.len() > 0,
{
    let mut errs: Vec<String> = Vec::new();
    let ghost mut done: Seq<Seq<char>> = Seq::empty();
    assert(strs::views_of_strings(errs@) =~= done);
    let c = strs::is_blank(name);
    push_reason(&mut errs, c, "Give the deployment a name.", Ghost(done));
    proof { done = done + reason_if(c, "Give the deployment a name."@); }
    let c = strs::is_blank(strategy_path) || strs::is_blank(strategy_cls);
    push_reason(&mut errs, c, "Pick a strategy to deploy.", Ghost(done));
    proof { done = done + reason_if(c, "Pick a strategy to deploy."@); }
    let c = match broker {
        Some(b) => strs::chars_of(b).len() == 0,
        None => true,
    };
    push_reason(&mut errs, c, "Choose a brokerage.", Ghost(done));
    proof { done = done + reason_if(c, "Choose a brokerage."@); }
    let live = match mode {
        Mode::Live => true,
        Mode::Paper => false,
    };
    let c = live && !aum_positive;
    push_reason(&mut errs, c, "Starting capital (AUM) is required for live deployment and must be > 0.", Ghost(done));
    proof {
        done = done + reason_if(c, "Starting capital (AUM) is required for live deployment and must be > 0."@);
    }
    let local = match compute {
        Compute::Local => true,
        _ => false,
    };
    let c = !local && !has_data_providers;
    push_reason(&mut errs, c, "A cloud deployment needs at least one data source.", Ghost(done));
    proof { done = done + reason_if(c, "A cloud deployment needs at least one data source."@); }
    proof {
        assert(done =~= wizard_blockers(
            name@,
            strategy_path@,
            strategy_cls@,
            strs::opt_str_view(broker),
            mode,
            aum_positive,
            compute,
            has_data_providers,
        ));
        if mode == Mode::Live && !aum_positive {
            assert(strs::views_of_strings(errs@).len() == errs@.len());
        }
    }
    errs
}

/// `text` without the characters `$` and `,`.
pub open spec fn strip_money_marks(text: Seq<char>) -> Seq<char>
    decreases text.len(),
{
    if text.len() == 0 {
        text
    } else {
        let rest = strip_money_marks(text.drop_last());
        if text.last() == '$' || text.last() == ',' {
            rest
        } else {
            rest.push(text.last())
        }
    }
}

/// The starting-capital box as a number to read: trimmed, with currency
/// signs and thousands separators dropped (`" $100,000 "` → `"100000"`).
pub fn capital_text(text: &str) -> (r: String)
    ensures
        r@ == strip_money_marks(strs::trim(text@)),
{
    let t = strs::chars_of(strs::trim_str(text));
    let mut out: Vec<char> = Vec::new();
    let mut i: usize = 0;
    while i < t.len()
        invariant
            i <= t@.len(),
            out@ == strip_money_marks(t@.take(i as int)),
        decreases t@.len() - i,
    {
        assert(t@.take(i + 1).drop_last() =~= t@.take(i as int));
        let c = t[i];
        if c != '$' && c != ',' {
            out.push(c);
        }
        i = i + 1;
    }
    assert(t@.take(i as int) =~= t@);
    strs::string_of_chars(&out)
}

/// The brokerages the Deploy wizard offers, as `(id, label)`.
pub fn wizard_brokers() -> (r: Vec<(&'static str, &'static str)>)
    ensures
        r@.len() == 3,
        r@[0].0@ == "clearstreet"@ && r@[0].1@ == "ClearStreet"@,
        r@[1].0@ == "alpaca"@ && r@[1].1@ == "Alpaca"@,
        r@[2].0@ == "ibkr"@ && r@[2].1@ == "Interactive Brokers"@,
{
    vec![("clearstreet", "ClearStreet"), ("alpaca", "Alpaca"), ("ibkr", "Interactive Brokers")]
}

/// The Deploy wizard's status line once its deploy request answered.
pub fn wizard_deploy_status(result: Result<(), &str>) -> (r: String)
    ensures
        r@ == match result {
            Ok(_) => "Deployed. Open Live Algorithms to watch it."@,
            Err(e) => "Deploy failed: "@ + e@,
        },
{
    match result {
        Ok(_) => strs::own("Deployed. Open Live Algorithms to watch it."),
        Err(e) => {
            let mut m = strs::own("Deploy failed: ");
            strs::append_str(&mut m, e);
            m
        },
    }
}

// ── Live Algorithms dashboard ──────────────────────────────────────────

/// A lifecycle action a user can take on a running or halted deployment.
#[derive(Debug, Clone, Copy, PartialEq, Eq)]
pub enum Action {
    Stop,
    Liquidate,
    Restart,
}

/// The engine verb of an action.
pub open spec fn verb_of(a: Action) -> Seq<char> {
    match a {
        Action::Stop => "stop"@,
        Action::Liquidate => "liquidate"@,
        Action::Restart => "restart"@,
    }
}

impl Action {
    /// The engine verb.
    pub fn verb(self) -> (r: &'static str)
        ensures
            r@ == verb_of(self),
    {
        match self {
            Action::Stop => "stop",
            Action::Liquidate => "liquidate",
            Action::Restart => "restart",
        }
    }

    /// The button label.
    pub fn label(self) -> (r: &'static str)
        ensures
            r@ == match self {
                Action::Stop => "Stop"@,
                Action::Liquidate => "Liquidate"@,
                Action::Restart => "Restart"@,
            },
    {
        match self {
            Action::Stop => "Stop",
            Action::Liquidate => "Liquidate",
            Action::Restart => "Restart",
        }
    }

    /// True for actions that flatten or permanently change the book — the view
    /// confirms before dispatching.
    pub fn is_destructive(self) -> (r: bool)
        ensures
            r == (self == Action::Liquidate),
    {
        match self {
            Action::Liquidate => true,
            _ => false,
        }
    }
}

/// The actions the engine lifecycle allows from a state; anything else the API
/// would refuse.
pub open spec fn actions_for(state: Seq<char>) -> Seq<Action> {
    if state == "running"@ || state == "starting"@ || state == "restarting"@ {
        seq![Action::Stop, Action::Liquidate]
    } else if state == "stopped"@ || state == "errored"@ {
        seq![Action::Restart, Action::Liquidate]
    } else {
        Seq::empty()
    }
}

/// What a state allows: a deployment in flight (running, starting or
/// restarting) can be stopped and never restarted; a stopped or errored one
/// can be restarted and never stopped; any of these five can be liquidated;
/// every other state offers nothing. In flight the offer is exactly Stop then
/// Liquidate; when stopped or errored, exactly Restart then Liquidate.
pub proof fn lemma_actions_by_state(state: Seq<char>)
    ensures
        actions_for(state).contains(Action::Stop) <==> (state == "running"@ || state == "starting"@ || state == "restarting"@),
        actions_for(state).contains(Action::Restart) <==> (state == "stopped"@ || state == "errored"@),
        actions_for(state).contains(Action::Liquidate) <==> (state == "running"@ || state == "starting"@
            || state == "restarting"@ || state == "stopped"@ || state == "errored"@),
        (state == "running"@ || state == "starting"@ || state == "restarting"@) ==> actions_for(state) == seq![
            Action::Stop,
            Action::Liquidate,
        ],
        (state == "stopped"@ || state == "errored"@) ==> actions_for(state) == seq![Action::Restart, Action::Liquidate],
{
    reveal_strlit("running");
    reveal_strlit("starting");
    reveal_strlit("restarting");
    reveal_strlit("stopped");
    reveal_strlit("errored");
    assert("stopped"@[1] != "running"@[1] && "stopped"@[1] != "errored"@[1] && "running"@[0] != "errored"@[0]);
    assert("stopped"@ != "running"@ && "errored"@ != "running"@);
    assert("stopped"@.len() != "starting"@.len() && "stopped"@.len() != "restarting"@.len());
    let a = actions_for(state);
    if a.len() == 2 {
        assert(a[0] == Action::Stop ==> a.contains(Action::Stop));
        assert(a[0] == Action::Restart ==> a.contains(Action::Restart));
        assert(a.contains(Action::Liquidate)) by {
            assert(a[1] == Action::Liquidate);
        }
    }
}

/// Actions the engine lifecycle allows from `state`.
pub fn available_actions(state: &str) -> (r: Vec<Action>)
    ensures
        r@ == actions_for(state@),
{
    if strs::eq_str(state, "running") || strs::eq_str(state, "starting") || strs::eq_str(state, "restarting") {
        let r = vec![Action::Stop, Action::Liquidate];
        assert(r@ =~= seq![Action::Stop, Action::Liquidate]);
        r
    } else if strs::eq_str(state, "stopped") || strs::eq_str(state, "errored") {
        let r = vec![Action::Restart, Action::Liquidate];
        assert(r@ =~= seq![Action::Restart, Action::Liquidate]);
        r
    } else {
        let r: Vec<Action> = Vec::new();
        assert(r@ =~= Seq::<Action>::empty());
        r
    }
}

/// The control-plane path for `action` on `deployment_id`.
pub fn verb_endpoint(deployment_id: i64, action: Action) -> (r: String)
    ensures
        r@ == "/ui/api/deployments/"@ + strs::signed_decimal(deployment_id as int) + "/"@ + verb_of(action),
{
    let mut r = strs::own("/ui/api/deployments/");
    strs::push_signed_decimal(&mut r, deployment_id);
    strs::append_str(&mut r, "/");
    strs::append_str(&mut r, action.verb());
    r
}

/// How a state reads in the dashboard.
pub open spec fn state_label_of(state: Seq<char>) -> Seq<char> {
    if state == "running"@ {
        "Live"@
    } else if state == "starting"@ {
        "Starting"@
    } else if state == "restarting"@ {
        "Restarting"@
    } else if state == "preflight"@ || state == "provisioning"@ {
        "Preparing"@
    } else if state == "stopped"@ {
        "Stopped"@
    } else if state == "liquidating"@ {
        "Liquidating"@
    } else if state == "errored"@ {
        "Errored"@
    } else if state == "archived"@ {
        "Archived"@
    } else if state == "draft"@ {
        "Draft"@
    } else {
        "Unknown"@
    }
}

/// Whether `state` is one of the lifecycle states the engine reports.
pub open spec fn known_state(state: Seq<char>) -> bool {
    state == "running"@ || state == "starting"@ || state == "restarting"@ || state == "preflight"@
        || state == "provisioning"@ || state == "stopped"@ || state == "liquidating"@ || state == "errored"@
        || state == "archived"@ || state == "draft"@
}

/// Every known state reads as something other than "Unknown", and two known
/// states read the same only when they are the same state or both are
/// preparation states (preflight, provisioning): an errored deployment never
/// reads as stopped, a starting one never as live.
pub proof fn lemma_state_labels_distinct(a: Seq<char>, b: Seq<char>)
    requires
        known_state(a),
        known_state(b),
    ensures
        state_label_of(a) != "Unknown"@,
        (state_label_of(a) == state_label_of(b)) <==> (a == b || ((a == "preflight"@ || a == "provisioning"@) && (
        b == "preflight"@ || b == "provisioning"@))),
{
    reveal_strlit("running");
    reveal_strlit("starting");
    reveal_strlit("restarting");
    reveal_strlit("preflight");
    reveal_strlit("provisioning");
    reveal_strlit("stopped");
    reveal_strlit("liquidating");
    reveal_strlit("errored");
    reveal_strlit("archived");
    reveal_strlit("draft");
    reveal_strlit("Live");
    reveal_strlit("Starting");
    reveal_strlit("Restarting");
    reveal_strlit("Preparing");
    reveal_strlit("Stopped");
    reveal_strlit("Liquidating");
    reveal_strlit("Errored");
    reveal_strlit("Archived");
    reveal_strlit("Draft");
    reveal_strlit("Unknown");
    let states = seq!["running"@, "starting"@, "restarting"@, "preflight"@, "provisioning"@, "stopped"@, "liquidating"@, "errored"@, "archived"@, "draft"@];
    let labels = seq!["Live"@, "Starting"@, "Restarting"@, "Preparing"@, "Preparing"@, "Stopped"@, "Liquidating"@, "Errored"@, "Archived"@, "Draft"@];
    assert(forall|i: int, j: int| 0 <= i < 10 && 0 <= j < 10 && i != j && !(3 <= i <= 4 && 3 <= j <= 4) ==> #[trigger] states[i] != #[trigger] states[j] && labels[i] != labels[j]) by {
        assert(forall|i: int, j: int| 0 <= i < 10 && 0 <= j < 10 && i != j ==> (states[i].len() != states[j].len() || states[i][0] != states[j][0] || states[i][2] != states[j][2]));
        assert(forall|i: int, j: int| 0 <= i < 10 && 0 <= j < 10 && i != j && !(3 <= i <= 4 && 3 <= j <= 4) ==> (labels[i].len() != labels[j].len() || labels[i][0] != labels[j][0]));
    }
    assert(forall|i: int| 0 <= i < 10 ==> #[trigger] labels[i] != "Unknown"@ && state_label_of(states[i]) == labels[i]) by {
        assert(forall|i: int| 0 <= i < 10 ==> (labels[i].len() != "Unknown"@.len() || labels[i][0] != "Unknown"@[0]));
    }
    let i = choose|i: int| 0 <= i < 10 && states[i] == a;
    let j = choose|j: int| 0 <= j < 10 && states[j] == b;
    assert(states[i] == a && states[j] == b);
}

/// How a state's label, actions and liveness agree: a deployment that can be
/// stopped counts as live and one that can be restarted does not; a live
/// deployment never reads as stopped, errored or unknown; exactly the errored
/// state reads "Errored", exactly the stopped state reads "Stopped", and
/// "Unknown" is read exactly for the states the engine does not report.
pub proof fn lemma_state_views_agree(state: Seq<char>)
    ensures
        actions_for(state).contains(Action::Stop) ==> active_state(state),
        actions_for(state).contains(Action::Restart) ==> !active_state(state),
        active_state(state) ==> state_label_of(state) != "Stopped"@ && state_label_of(state) != "Errored"@
            && state_label_of(state) != "Unknown"@,
        (state_label_of(state) == "Errored"@) <==> state == "errored"@,
        (state_label_of(state) == "Stopped"@) <==> state == "stopped"@,
        (state_label_of(state) == "Unknown"@) <==> !known_state(state),
{
    lemma_actions_by_state(state);
    if known_state(state) {
        lemma_state_labels_distinct(state, state);
        lemma_state_labels_distinct(state, "errored"@);
        lemma_state_labels_distinct(state, "stopped"@);
    }
    reveal_strlit("running");
    reveal_strlit("starting");
    reveal_strlit("restarting");
    reveal_strlit("preflight");
    reveal_strlit("provisioning");
    reveal_strlit("stopped");
    reveal_strlit("errored");
    reveal_strlit("Stopped");
    reveal_strlit("Errored");
    reveal_strlit("Unknown");
    assert("Stopped"@[0] != "Unknown"@[0] && "Errored"@[0] != "Unknown"@[0] && "Stopped"@[0] != "Errored"@[0]);
    assert("stopped"@.len() != "starting"@.len() && "stopped"@.len() != "restarting"@.len()
        && "stopped"@.len() != "preflight"@.len() && "stopped"@.len() != "provisioning"@.len());
    assert("stopped"@[0] != "running"@[0] && "errored"@[0] != "running"@[0]);
    assert("errored"@.len() != "starting"@.len() && "errored"@.len() != "restarting"@.len()
        && "errored"@.len() != "preflight"@.len() && "errored"@.len() != "provisioning"@.len());
    reveal_strlit("liquidating");
    assert("errored"@[0] != "stopped"@[0] && "errored"@.len() != "liquidating"@.len());
    assert(state_label_of("stopped"@) == "Stopped"@);
    assert(state_label_of("errored"@) == "Errored"@);
}

/// How a state should read + badge in the dashboard.
pub fn state_label(state: &str) -> (r: &'static str)
    ensures
        r@ == state_label_of(state@),
{
    if strs::eq_str(state, "running") {
        "Live"
    } else if strs::eq_str(state, "starting") {
        "Starting"
    } else if strs::eq_str(state, "restarting") {
        "Restarting"
    } else if strs::eq_str(state, "preflight") || strs::eq_str(state, "provisioning") {
        "Preparing"
    } else if strs::eq_str(state, "stopped") {
        "Stopped"
    } else if strs::eq_str(state, "liquidating") {
        "Liquidating"
    } else if strs::eq_str(state, "errored") {
        "Errored"
    } else if strs::eq_str(state, "archived") {
        "Archived"
    } else if strs::eq_str(state, "draft") {
        "Draft"
    } else {
        "Unknown"
    }
}

/// The states in which a deployment counts as live.
pub open spec fn active_state(state: Seq<char>) -> bool {
    state == "preflight"@ || state == "provisioning"@ || state == "starting"@ || state == "running"@
        || state == "restarting"@
}

/// True while the deployment counts as live (drives the dot color and the
/// "is it trading" affordance).
pub fn is_active(state: &str) -> (r: bool)
    ensures
        r == active_state(state@),
{
    strs::eq_str(state, "preflight") || strs::eq_str(state, "provisioning") || strs::eq_str(state, "starting")
        || strs::eq_str(state, "running") || strs::eq_str(state, "restarting")
}

/// Whether some row carries `id`.
pub open spec fn has_id(ids: Seq<i64>, id: i64) -> bool {
    exists|i: int| 0 <= i < ids.len() && ids[i] == id
}

/// The selection kept when the dashboard's rows are replaced by rows with
/// `row_ids`: a selection whose deployment is gone is dropped.
pub fn selection_after(selected: Option<i64>, row_ids: &[i64]) -> (r: Option<i64>)
    ensures
        r == match selected {
            Some(sel) => if has_id(row_ids@, sel) { Some(sel) } else { None },
            None => None,
        },
{
    match selected {
        Some(sel) => match index_of_id(row_ids, sel) {
            Some(_) => Some(sel),
            None => None,
        },
        None => None,
    }
}

/// Position of the first row with `id`.
pub fn index_of_id(row_ids: &[i64], id: i64) -> (r: Option<usize>)
    ensures
        match r {
            Some(i) => i < row_ids@.len() && row_ids@[i as int] == id && forall|j: int| 0 <= j < i ==> row_ids@[j] != id,
            None => !has_id(row_ids@, id),
        },
{
    let mut i: usize = 0;
    while i < row_ids.len()
        invariant
            i <= row_ids@.len(),
            forall|j: int| 0 <= j < i ==> row_ids@[j] != id,
        decreases row_ids@.len() - i,
    {
        if row_ids[i] == id {
            return Some(i);
        }
        i = i + 1;
    }
    None
}

/// How many of `states` count as live.
pub open spec fn active_count_of(states: Seq<Seq<char>>) -> nat
    decreases states.len(),
{
    if states.len() == 0 {
        0
    } else {
        active_count_of(states.drop_last()) + if active_state(states.last()) { 1nat } else { 0nat }
    }
}

/// The number of rows whose state counts as live.
pub fn active_count(states: &[String]) -> (r: usize)
    ensures
        r == active_count_of(strs::views_of_strings(states@)),
{
    let ghost sv = strs::views_of_strings(states@);
    let mut n: usize = 0;
    let mut i: usize = 0;
    while i < states.len()
        invariant
            i <= states@.len() == sv.len(),
            sv == strs::views_of_strings(states@),
            n == active_count_of(sv.take(i as int)),
            n <= i,
        decreases states@.len() - i,
    {
        let ghost before = sv.take(i as int);
        assert(sv.take(i + 1).drop_last() =~= before);
        assert(sv.take(i + 1).last() == states@[i as int]@);
        if is_active(states[i].as_str()) {
            n = n + 1;
        }
        i = i + 1;
    }
    assert(sv.take(i as int) =~= sv);
    n
}

/// A dashboard row's title: the deployment's name, or "Deployment <id>"
/// when it has none.
pub fn deployment_title(name: &str, id: i64) -> (r: String)
    ensures
        r@ == if name@.len() == 0 { "Deployment "@ + strs::signed_decimal(id as int) } else { name@ },
{
    if name.unicode_len() == 0 {
        let mut t = strs::own("Deployment ");
        strs::push_signed_decimal(&mut t, id);
        t
    } else {
        strs::own(name)
    }
}

/// The tint of a row's state dot.
#[derive(Debug, Clone, Copy, PartialEq, Eq)]
pub enum DotTone {
    /// Running.
    Success,
    /// Errored.
    Error,
    /// Stopped, archived or liquidating.
    Ignored,
    /// Anything on its way (preparing, starting, restarting) or unknown.
    Info,
}

/// The tint of a row's state dot.
pub fn state_dot(state: &str) -> (r: DotTone)
    ensures
        r == if state@ == "running"@ {
            DotTone::Success
        } else if state@ == "errored"@ {
            DotTone::Error
        } else if state@ == "stopped"@ || state@ == "archived"@ || state@ == "liquidating"@ {
            DotTone::Ignored
        } else {
            DotTone::Info
        },
{
    if strs::eq_str(state, "running") {
        DotTone::Success
    } else if strs::eq_str(state, "errored") {
        DotTone::Error
    } else if strs::eq_str(state, "stopped") || strs::eq_str(state, "archived") || strs::eq_str(state, "liquidating") {
        DotTone::Ignored
    } else {
        DotTone::Info
    }
}

/// What a poll of the deployments list found; each row with its
/// deployment id.
#[derive(Debug, Clone, PartialEq, Eq)]
pub enum LiveFetch<R> {
    NotConnected,
    Unreachable,
    Fetched(Vec<(i64, R)>),
}

/// The ids of id-tagged rows, in order.
pub open spec fn ids_of<R>(rows: Seq<(i64, R)>) -> Seq<i64> {
    rows.map_values(|r: (i64, R)| r.0)
}

/// The Live Algorithms panel's state: the deployments (each with its id),
/// the selected one and its ledger `L`, and how the engine answered.
#[derive(Debug, Clone, PartialEq, Eq)]
pub struct LivePanel<R, L> {
    pub rows: Vec<(i64, R)>,
    pub selected: Option<i64>,
    /// The selected deployment's ledger, once its fetch landed.
    pub ledger: Option<L>,
    pub status: PanelStatus,
    /// Why the last lifecycle action failed, cleared by the next fetch.
    pub last_error: Option<String>,
}

/// `rows`' ids as a vector.
fn row_ids<R>(rows: &Vec<(i64, R)>) -> (r: Vec<i64>)
    ensures
        r@ == ids_of(rows@),
{
    let mut r: Vec<i64> = Vec::new();
    let mut i: usize = 0;
    while i < rows.len()
        invariant
            i <= rows@.len(),
            r@ == ids_of(rows@.take(i as int)),
        decreases rows@.len() - i,
    {
        r.push(rows[i].0);
        assert(ids_of(rows@.take(i + 1)) =~= ids_of(rows@.take(i as int)).push(rows@[i as int].0));
        i = i + 1;
    }
    assert(rows@.take(i as int) =~= rows@);
    r
}

impl<R, L> LivePanel<R, L> {
    /// A panel opening: loading when a key is saved, else not connected.
    pub fn new(has_saved_key: bool) -> (p: Self)
        ensures
            p.rows@.len() == 0,
            p.selected is None,
            p.ledger is None,
            p.status == (if has_saved_key { PanelStatus::Loading } else { PanelStatus::NotConnected }),
            p.last_error is None,
    {
        LivePanel {
            rows: Vec::new(),
            selected: None,
            ledger: None,
            status: PanelStatus::initial(has_saved_key),
            last_error: None,
        }
    }

    /// Replace the rows; a selection whose deployment is gone is dropped.
    pub fn set_rows(&mut self, rows: Vec<(i64, R)>)
        ensures
            final(self).rows == rows,
            final(self).selected == match old(self).selected {
                Some(sel) => if has_id(ids_of(rows@), sel) { Some(sel) } else { None },
                None => None,
            },
            final(self).ledger == old(self).ledger,
            final(self).status == old(self).status,
            final(self).last_error == old(self).last_error,
    {
        let ids = row_ids(&rows);
        self.selected = selection_after(self.selected, ids.as_slice());
        self.rows = rows;
    }

    /// A new connection was saved: loading again, with no stale rows,
    /// selection or ledger.
    pub fn reconnect(&mut self)
        ensures
            final(self).status == PanelStatus::Loading,
            final(self).rows@.len() == 0,
            final(self).selected is None,
            final(self).ledger is None,
            final(self).last_error == old(self).last_error,
    {
        self.status = PanelStatus::Loading;
        self.set_rows(Vec::new());
        self.ledger = None;
    }

    /// A poll answered. Not connected clears everything; unreachable keeps
    /// the last rows; fetched rows replace them, clear the error, and
    /// return the selected deployment whose ledger to refresh.
    pub fn apply_poll(&mut self, fetched: LiveFetch<R>) -> (refresh: Option<i64>)
        ensures
            match fetched {
                LiveFetch::NotConnected => refresh is None
                    && final(self).status == PanelStatus::NotConnected
                    && final(self).rows@.len() == 0
                    && final(self).selected is None
                    && final(self).ledger is None
                    && final(self).last_error == old(self).last_error,
                LiveFetch::Unreachable => refresh is None
                    && *final(self) == (LivePanel { status: PanelStatus::Unreachable, ..*old(self) }),
                LiveFetch::Fetched(items) => {
                    &&& final(self).status == PanelStatus::Connected
                    &&& final(self).rows == items
                    &&& final(self).selected == match old(self).selected {
                        Some(sel) => if has_id(ids_of(items@), sel) { Some(sel) } else { None },
                        None => None,
                    }
                    &&& final(self).ledger == old(self).ledger
                    &&& final(self).last_error is None
                    &&& refresh == final(self).selected
                },
            },
    {
        match fetched {
            LiveFetch::NotConnected => {
                self.status = PanelStatus::NotConnected;
                self.set_rows(Vec::new());
                self.ledger = None;
                None
            },
            LiveFetch::Unreachable => {
                self.status = PanelStatus::Unreachable;
                None
            },
            LiveFetch::Fetched(items) => {
                self.status = PanelStatus::Connected;
                self.set_rows(items);
                self.last_error = None;
                self.selected
            },
        }
    }

    /// A row was selected: its ledger is dropped until the fetch for it,
    /// whose deployment id is returned, lands.
    pub fn select(&mut self, id: i64) -> (fetch: i64)
        ensures
            fetch == id,
            final(self).selected == Some(id),
            final(self).ledger is None,
            final(self).rows == old(self).rows,
            final(self).status == old(self).status,
            final(self).last_error == old(self).last_error,
    {
        self.selected = Some(id);
        self.ledger = None;
        id
    }

    /// A ledger fetch for deployment `for_id` landed (`None` when it
    /// failed). Applied only while that deployment is still selected, so a
    /// slow reply never shows another deployment's book.
    pub fn ledger_fetched(&mut self, for_id: i64, ledger: Option<L>)
        ensures
            old(self).selected == Some(for_id) ==> *final(self) == (LivePanel { ledger: ledger, ..*old(self) }),
            old(self).selected != Some(for_id) ==> *final(self) == *old(self),
    {
        if self.selected == Some(for_id) {
            self.ledger = ledger;
        }
    }

    /// A lifecycle action's request failed: say which and why.
    pub fn action_failed(&mut self, action: Action, error: &str)
        ensures
            final(self).last_error matches Some(m) && m@ == "Couldn't "@ + verb_of(action) + ": "@ + error@ + "."@,
            final(self).rows == old(self).rows,
            final(self).selected == old(self).selected,
            final(self).ledger == old(self).ledger,
            final(self).status == old(self).status,
    {
        let mut m = strs::own("Couldn't ");
        strs::append_str(&mut m, action.verb());
        strs::append_str(&mut m, ": ");
        strs::append_str(&mut m, error);
        strs::append_str(&mut m, ".");
        self.last_error = Some(m);
    }

    /// The refetch after a lifecycle action: only fetched rows are applied,
    /// so the rows reflect the new state either way; any other outcome
    /// leaves the panel as it was.
    pub fn after_action(&mut self, fetched: LiveFetch<R>)
        ensures
            match fetched {
                LiveFetch::Fetched(items) => final(self).status == PanelStatus::Connected
                    && final(self).rows == items
                    && final(self).selected == match old(self).selected {
                        Some(sel) => if has_id(ids_of(items@), sel) { Some(sel) } else { None },
                        None => None,
                    }
                    && final(self).ledger == old(self).ledger
                    && final(self).last_error is None,
                _ => *final(self) == *old(self),
            },
    {
        if let LiveFetch::Fetched(items) = fetched {
            self.status = PanelStatus::Connected;
            self.set_rows(items);
            self.last_error = None;
        }
    }

    /// The selected deployment's row.
    pub fn selected_row(&self) -> (r: Option<&R>)
        ensures
            match self.selected {
                None => r is None,
                Some(sel) => match r {
                    Some(row) => exists|i: int| 0 <= i < self.rows@.len() && self.rows@[i].0 == sel
                        && *row == self.rows@[i].1 && forall|j: int| 0 <= j < i ==> self.rows@[j].0 != sel,
                    None => !has_id(ids_of(self.rows@), sel),
                },
            },
    {
        let sel = match self.selected {
            Some(s) => s,
            None => return None,
        };
        let ids = row_ids(&self.rows);
        match index_of_id(ids.as_slice(), sel) {
            Some(i) => {
                assert(ids@[i as int] == self.rows@[i as int].0);
                assert forall|j: int| 0 <= j < i implies self.rows@[j].0 != sel by {
                    assert(ids@[j] == self.rows@[j].0);
                }
                Some(&self.rows[i].1)
            },
            None => None,
        }
    }
}

} // verus!
