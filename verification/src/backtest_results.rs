//! The backtest results tab: its title, its out-of-sample diagnostics, and
//! the deploy sent from it (paper in one click, live only after a confirming
//! second click).

use vstd::prelude::*;
use crate::actions::{self, DeployDecision, LivePermission};
use crate::strs;
use crate::studio_results::{self, DiagFetchOutcome, OutcomeModel};

verus! {

/// Where a deploy sent from the results tab stands.
#[derive(Clone, Debug, PartialEq, Eq)]
pub enum DeployState {
    Idle,
    Running,
    Done(String),
    Failed(String),
}

impl Default for DeployState {
    fn default() -> (s: Self)
        ensures
            s == DeployState::Idle,
    {
        DeployState::Idle
    }
}

/// The state a finished deploy leaves: done with its target, or failed with
/// the error's text.
pub fn deploy_state_from(result: Result<(), &str>, paper: bool) -> (r: DeployState)
    ensures
        match result {
            Ok(_) => r matches DeployState::Done(m) && m@ == "Deployed to "@ + (if paper { "paper"@ } else { "live"@ }) + "."@,
            Err(e) => r matches DeployState::Failed(m) && m@ == "Deploy failed: "@ + e@ + "."@,
        },
{
    match result {
        Ok(_) => {
            let mut m = strs::own("Deployed to ");
            strs::append_str(&mut m, if paper { "paper" } else { "live" });
            strs::append_str(&mut m, ".");
            DeployState::Done(m)
        },
        Err(error) => {
            let mut m = strs::own("Deploy failed: ");
            strs::append_str(&mut m, error);
            strs::append_str(&mut m, ".");
            DeployState::Failed(m)
        },
    }
}

/// The tab title: the strategy, or a generic one when it is unknown.
pub fn results_title(strategy: &str) -> (r: String)
    ensures
        r@ == if strategy@.len() == 0 { "Backtest results"@ } else { strategy@ },
{
    if strs::chars_of(strategy).len() == 0 {
        strs::own("Backtest results")
    } else {
        strs::own(strategy)
    }
}

/// The dotted strategy path the results belong to, if known.
pub fn strategy_path(strategy: &str) -> (r: Option<String>)
    ensures
        strs::opt_view(r) == if strategy@.len() == 0 { None } else { Some(strategy@) },
{
    if strs::chars_of(strategy).len() == 0 {
        None
    } else {
        Some(strs::own(strategy))
    }
}

// ── The tab's state ────────────────────────────────────────────────────

/// Where the out-of-sample diagnostics stand; `D` is the diagnostics.
#[derive(Clone, Debug, PartialEq, Eq)]
pub enum DiagState<D> {
    Loading,
    Ready(D),
    /// The diagnostics route isn't deployed — retrying cannot help.
    Unavailable,
    /// A transient server or transport error — retryable.
    Failed(String),
}

/// The results tab's state for the run of `strategy` (empty when unknown).
#[derive(Clone, Debug, PartialEq, Eq)]
pub struct BacktestResultsView<D> {
    pub strategy: String,
    pub diagnostics: DiagState<D>,
    pub deploy: DeployState,
    /// A live deploy armed by a first click, awaiting its confirming click.
    pub awaiting_live_confirm: bool,
}

/// What the deploy bar shows.
#[derive(Clone, Debug, PartialEq, Eq)]
pub struct DeployBar {
    /// Whether the Paper-trade and live buttons show (only for a known
    /// strategy).
    pub verbs_shown: bool,
    /// Whether they can be clicked (not while a deploy runs).
    pub verbs_enabled: bool,
    /// The live button's label.
    pub live_label: String,
    /// Danger styling and the real-money warning, once live is armed.
    pub live_armed: bool,
    /// The status line beside the buttons.
    pub status: Option<String>,
}

/// The message a live deploy shows when the permission could not be read.
pub open spec fn unverified_text() -> Seq<char> {
    "Couldn't verify live permission — check the engine and retry."@
}

impl<D> BacktestResultsView<D> {
    /// A freshly opened tab for the run of `strategy`: diagnostics loading,
    /// no deploy, nothing armed.
    pub fn new(strategy: &str) -> (v: Self)
        ensures
            v.strategy@ == strategy@,
            v.diagnostics == DiagState::<D>::Loading,
            v.deploy == DeployState::Idle,
            !v.awaiting_live_confirm,
    {
        BacktestResultsView {
            strategy: strs::own(strategy),
            diagnostics: DiagState::Loading,
            deploy: DeployState::Idle,
            awaiting_live_confirm: false,
        }
    }

    /// The tab title.
    pub fn title(&self) -> (r: String)
        ensures
            r@ == if self.strategy@.len() == 0 { "Backtest results"@ } else { self.strategy@ },
    {
        results_title(self.strategy.as_str())
    }

    /// Start (or retry) the diagnostics fetch: the strategy path to post, with
    /// the diagnostics loading; without a known strategy they are
    /// unavailable and nothing is fetched.
    pub fn begin_diagnostics(&mut self) -> (r: Option<String>)
        ensures
            final(self).strategy == old(self).strategy,
            final(self).deploy == old(self).deploy,
            final(self).awaiting_live_confirm == old(self).awaiting_live_confirm,
            if old(self).strategy@.len() == 0 {
                r is None && final(self).diagnostics == DiagState::<D>::Unavailable
            } else {
                r matches Some(p) && p@ == old(self).strategy@ && final(self).diagnostics == DiagState::<D>::Loading
            },
    {
        match strategy_path(self.strategy.as_str()) {
            None => {
                self.diagnostics = DiagState::Unavailable;
                None
            },
            Some(p) => {
                self.diagnostics = DiagState::Loading;
                Some(p)
            },
        }
    }

    /// The diagnostics fetch finished: the diagnostics, or the transport's
    /// error text. With no HTTP status to go on, only an error naming a
    /// missing route reads as unavailable; every other error is retryable.
    pub fn diagnostics_fetched(&mut self, result: Result<D, &str>)
        ensures
            final(self).strategy == old(self).strategy,
            final(self).deploy == old(self).deploy,
            final(self).awaiting_live_confirm == old(self).awaiting_live_confirm,
            match result {
                Ok(d) => final(self).diagnostics == DiagState::Ready(d),
                Err(e) => match studio_results::outcome_of(None, Some(e@)) {
                    OutcomeModel::Unavailable => final(self).diagnostics == DiagState::<D>::Unavailable,
                    OutcomeModel::Failed(m) => final(self).diagnostics matches DiagState::Failed(f) && f@ == m,
                    OutcomeModel::Ready => final(self).diagnostics matches DiagState::Failed(f) && f@ == e@,
                },
            },
    {
        self.diagnostics = match result {
            Ok(d) => DiagState::Ready(d),
            Err(e) => match studio_results::classify_diag_fetch(None, Some(e)) {
                DiagFetchOutcome::Unavailable => DiagState::Unavailable,
                DiagFetchOutcome::Failed { message } => DiagState::Failed(message),
                DiagFetchOutcome::Ready => DiagState::Failed(strs::own(e)),
            },
        };
    }

    /// Paper-trade clicked: the strategy path to deploy as paper, with the
    /// deploy running; `None`, changing nothing, without a known strategy.
    pub fn begin_paper_trade(&mut self) -> (r: Option<String>)
        ensures
            if old(self).strategy@.len() == 0 {
                r is None && *final(self) == *old(self)
            } else {
                r matches Some(p) && p@ == old(self).strategy@
                    && final(self).deploy == DeployState::Running
                    && final(self).strategy == old(self).strategy
                    && final(self).diagnostics == old(self).diagnostics
                    && final(self).awaiting_live_confirm == old(self).awaiting_live_confirm
            },
    {
        match strategy_path(self.strategy.as_str()) {
            None => None,
            Some(p) => {
                self.deploy = DeployState::Running;
                Some(p)
            },
        }
    }

    /// A paper deploy finished.
    pub fn paper_trade_finished(&mut self, result: Result<(), &str>)
        ensures
            final(self).strategy == old(self).strategy,
            final(self).diagnostics == old(self).diagnostics,
            final(self).awaiting_live_confirm == old(self).awaiting_live_confirm,
            match result {
                Ok(_) => final(self).deploy matches DeployState::Done(m) && m@ == "Deployed to "@ + "paper"@ + "."@,
                Err(e) => final(self).deploy matches DeployState::Failed(m) && m@ == "Deploy failed: "@ + e@ + "."@,
            },
    {
        self.deploy = deploy_state_from(result, true);
    }

    /// Deploy live clicked: the strategy path and whether a live deploy was
    /// armed when clicked, with the deploy running; `None`, changing nothing,
    /// without a known strategy. The permission is then re-checked fresh and
    /// handed to [`Self::live_permission`].
    pub fn begin_deploy_live(&mut self) -> (r: Option<(String, bool)>)
        ensures
            if old(self).strategy@.len() == 0 {
                r is None && *final(self) == *old(self)
            } else {
                r matches Some((p, armed)) && p@ == old(self).strategy@ && armed == old(self).awaiting_live_confirm
                    && final(self).deploy == DeployState::Running
                    && final(self).strategy == old(self).strategy
                    && final(self).diagnostics == old(self).diagnostics
                    && final(self).awaiting_live_confirm == old(self).awaiting_live_confirm
            },
    {
        match strategy_path(self.strategy.as_str()) {
            None => None,
            Some(p) => {
                self.deploy = DeployState::Running;
                Some((p, self.awaiting_live_confirm))
            },
        }
    }

    /// The fresh live permission arrived for a live click that found a
    /// deploy `armed` or not. Returns whether the deploy goes out as paper,
    /// or `None` when nothing is sent: a first click while live is allowed
    /// only arms the confirmation, and a permission that could not be read
    /// blocks with a message rather than falling back to a paper deploy
    /// nobody asked for. Live is sent only on a confirming click while live
    /// is allowed.
    pub fn live_permission(&mut self, armed: bool, permission: LivePermission) -> (r: Option<bool>)
        ensures
            r == match actions::decision_of(armed, permission) {
                DeployDecision::ArmConfirm => None,
                DeployDecision::BlockedUnverified => None,
                DeployDecision::SubmitPaper => Some(true),
                DeployDecision::SubmitLive => Some(false),
            },
            r == Some(false) <==> (armed && permission == LivePermission::Allowed),
            final(self).strategy == old(self).strategy,
            final(self).diagnostics == old(self).diagnostics,
            match actions::decision_of(armed, permission) {
                DeployDecision::ArmConfirm => final(self).awaiting_live_confirm && final(self).deploy == DeployState::Idle,
                DeployDecision::BlockedUnverified => !final(self).awaiting_live_confirm
                    && (final(self).deploy matches DeployState::Failed(m) && m@ == unverified_text()),
                _ => final(self).deploy == old(self).deploy && final(self).awaiting_live_confirm == old(self).awaiting_live_confirm,
            },
    {
        match actions::decide_deploy(armed, permission) {
            DeployDecision::ArmConfirm => {
                self.awaiting_live_confirm = true;
                self.deploy = DeployState::Idle;
                None
            },
            DeployDecision::BlockedUnverified => {
                self.awaiting_live_confirm = false;
                self.deploy = DeployState::Failed(strs::own("Couldn't verify live permission — check the engine and retry."));
                None
            },
            DeployDecision::SubmitPaper => Some(true),
            DeployDecision::SubmitLive => Some(false),
        }
    }

    /// A deploy sent from the live button finished: the confirmation is
    /// spent either way.
    pub fn live_deploy_finished(&mut self, result: Result<(), &str>, paper: bool)
        ensures
            final(self).strategy == old(self).strategy,
            final(self).diagnostics == old(self).diagnostics,
            !final(self).awaiting_live_confirm,
            match result {
                Ok(_) => final(self).deploy matches DeployState::Done(m)
                    && m@ == "Deployed to "@ + (if paper { "paper"@ } else { "live"@ }) + "."@,
                Err(e) => final(self).deploy matches DeployState::Failed(m) && m@ == "Deploy failed: "@ + e@ + "."@,
            },
    {
        self.awaiting_live_confirm = false;
        self.deploy = deploy_state_from(result, paper);
    }

    /// What the deploy bar shows: the verbs only for a known strategy and
    /// not clickable while a deploy runs; the live button reads "Confirm
    /// live deploy" (with danger styling and the real-money warning) once
    /// armed; the status line shows progress or the last outcome.
    pub fn deploy_bar(&self) -> (r: DeployBar)
        ensures
            r.verbs_shown == (self.strategy@.len() > 0),
            r.verbs_enabled == !(self.deploy is Running),
            r.live_label@ == if self.awaiting_live_confirm { "Confirm live deploy"@ } else { "Deploy live"@ },
            r.live_armed == self.awaiting_live_confirm,
            strs::opt_view(r.status) == match self.deploy {
                DeployState::Idle => None,
                DeployState::Running => Some("Deploying…"@),
                DeployState::Done(m) => Some(m@),
                DeployState::Failed(m) => Some(m@),
            },
    {
        let status = match &self.deploy {
            DeployState::Idle => None,
            DeployState::Running => Some(strs::own("Deploying…")),
            DeployState::Done(m) => Some(strs::own(m.as_str())),
            DeployState::Failed(m) => Some(strs::own(m.as_str())),
        };
        let running = match &self.deploy {
            DeployState::Running => true,
            _ => false,
        };
        DeployBar {
            verbs_shown: strs::chars_of(self.strategy.as_str()).len() > 0,
            verbs_enabled: !running,
            live_label: strs::own(if self.awaiting_live_confirm { "Confirm live deploy" } else { "Deploy live" }),
            live_armed: self.awaiting_live_confirm,
            status,
        }
    }
}

} // verus!
