//! The shared session aggregate for the "one core, three shells" layout.
//!
//! The same working session is presented through three co-equal shells —
//! Desk, Copilot and Flow. The session owns the state they share, so switching
//! shells changes presentation, never context: [`Session::switch_shell`]
//! leaves the artifact registry untouched.

use vstd::prelude::*;
use crate::strs;
use crate::artifact::ArtifactStore;

verus! {

/// One of the three co-equal presentations of a session.
#[derive(Clone, Copy, PartialEq, Eq, Structural, Debug)]
pub enum Shell {
    Desk,
    Copilot,
    Flow,
}

/// Whether a shell ships. All three do; the predicate stays so a future shell
/// can be staged behind it.
pub open spec fn shell_available(s: Shell) -> bool {
    match s {
        Shell::Desk | Shell::Copilot | Shell::Flow => true,
    }
}

/// The name a shell is shown under (its variant name).
pub open spec fn shell_name(s: Shell) -> Seq<char> {
    match s {
        Shell::Desk => "Desk"@,
        Shell::Copilot => "Copilot"@,
        Shell::Flow => "Flow"@,
    }
}

impl Shell {
    /// Whether this shell is shippable.
    pub fn available(self) -> (r: bool)
        ensures
            r == shell_available(self),
    {
        match self {
            Shell::Desk | Shell::Copilot | Shell::Flow => true,
        }
    }

    /// The shells a switcher should currently offer, in display order: every
    /// available shell of Desk, Copilot, Flow.
    pub fn selectable() -> (r: Vec<Shell>)
        ensures
            r@ == seq![Shell::Desk, Shell::Copilot, Shell::Flow],
            forall|i: int| 0 <= i < r@.len() ==> shell_available(#[trigger] r@[i]),
    {
        let mut r: Vec<Shell> = Vec::new();
        if Shell::Desk.available() {
            r.push(Shell::Desk);
        }
        if Shell::Copilot.available() {
            r.push(Shell::Copilot);
        }
        if Shell::Flow.available() {
            r.push(Shell::Flow);
        }
        assert(r@ =~= seq![Shell::Desk, Shell::Copilot, Shell::Flow]);
        r
    }

    fn name(self) -> (r: &'static str)
        ensures
            r@ == shell_name(self),
    {
        match self {
            Shell::Desk => "Desk",
            Shell::Copilot => "Copilot",
            Shell::Flow => "Flow",
        }
    }
}

/// Outcome of a [`Session::switch_shell`] request, so the switcher chrome can
/// react honestly instead of silently no-opping.
#[derive(Clone, PartialEq, Eq, Debug)]
pub enum SwitchOutcome {
    /// The active shell changed to the requested one.
    Switched,
    /// The requested shell was already active; nothing changed.
    AlreadyActive,
    /// The shell can't be entered yet; the active shell is unchanged.
    Blocked { reason: String },
}

/// The reason a blocked switch gives.
pub open spec fn blocked_reason(s: Shell) -> Seq<char> {
    shell_name(s) + " isn't available yet — it ships in a later version."@
}

/// The shared session: which shell is active, plus the working context every
/// shell reads from.
pub struct Session {
    active_shell: Shell,
    artifacts: ArtifactStore,
}

impl Session {
    /// The active shell.
    pub closed spec fn shell(self) -> Shell {
        self.active_shell
    }

    /// The shared artifact registry.
    pub closed spec fn store(self) -> ArtifactStore {
        self.artifacts
    }

    /// Open a session on Desk, the continuity entry point.
    pub fn new() -> (s: Self)
        ensures
            s.shell() == Shell::Desk,
            s.store().wf(),
            s.store().has_room(),
            s.store().models().len() == 0,
            s.store().id_counter() == 0,
            s.store().fresh_seq() == 0,
    {
        Session { active_shell: Shell::Desk, artifacts: ArtifactStore::new() }
    }

    pub fn active_shell(&self) -> (r: Shell)
        ensures
            r == self.shell(),
    {
        self.active_shell
    }

    /// Switch the active shell. Switching to an unavailable shell is rejected
    /// and leaves the session unchanged; switching to the already-active shell
    /// is a no-op. The shared working context is never touched.
    pub fn switch_shell(&mut self, to: Shell) -> (r: SwitchOutcome)
        ensures
            final(self).store() == old(self).store(),
            to == old(self).shell() ==> r == SwitchOutcome::AlreadyActive && final(self).shell() == old(self).shell(),
            to != old(self).shell() && shell_available(to) ==> r == SwitchOutcome::Switched && final(self).shell() == to,
            to != old(self).shell() && !shell_available(to) ==> final(self).shell() == old(self).shell() && match r {
                SwitchOutcome::Blocked { reason } => reason@ == blocked_reason(to),
                _ => false,
            },
    {
        if to == self.active_shell {
            return SwitchOutcome::AlreadyActive;
        }
        if !to.available() {
            let mut reason = strs::own(to.name());
            strs::append_str(&mut reason, " isn't available yet — it ships in a later version.");
            return SwitchOutcome::Blocked { reason };
        }
        self.active_shell = to;
        SwitchOutcome::Switched
    }

    /// The shared artifact registry — read by whichever shell is active.
    pub fn artifacts(&self) -> (r: &ArtifactStore)
        ensures
            *r == self.store(),
    {
        &self.artifacts
    }

    /// Mutable access for the verbs that produce artifacts.
    pub fn artifacts_mut(&mut self) -> (r: &mut ArtifactStore)
        ensures
            *r == old(self).store(),
            final(self).store() == *final(r),
            final(self).shell() == old(self).shell(),
    {
        &mut self.artifacts
    }
}

impl Default for Session {
    fn default() -> (s: Self)
        ensures
            s.shell() == Shell::Desk,
            s.store().wf(),
            s.store().has_room(),
            s.store().models().len() == 0,
            s.store().id_counter() == 0,
            s.store().fresh_seq() == 0,
    {
        Session::new()
    }
}

} // verus!
