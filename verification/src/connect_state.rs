//! What the Connect surface shows: it never reads "connected" unless the engine
//! truly answered and accepted the key, an in-flight test is never green, and
//! nothing missing is fabricated.

use vstd::prelude::*;
use crate::strs;

verus! {

/// How a verdict reads at a glance.
#[derive(Debug, Clone, Copy, PartialEq, Eq)]
pub enum VerdictTone {
    /// No judgement — e.g. a test in flight.
    Neutral,
    /// Engine answered, key accepted, agent reachable.
    Positive,
    /// Engine and key fine but the AI agent leg unreachable.
    Caution,
    /// Unreachable engine, rejected key, or an engine error.
    Negative,
}

/// The classified result of the connect-check probe, engine I/O already done.
#[derive(Debug, Clone, PartialEq, Eq)]
pub enum ConnectProbe {
    /// Transport failed; `detail` is a short plain phrase.
    Unreachable { detail: String },
    /// The engine answered but rejected the key (HTTP 401/302).
    KeyRejected,
    /// The engine answered with a non-success, non-auth status.
    EngineError { status: u16 },
    /// The engine answered 2xx.
    Answered {
        /// `None` reads "unknown".
        engine_version: Option<String>,
        /// `None` reads "none yet".
        active_broker: Option<String>,
        /// Whether the engine could reach the AI agent (MCP) leg.
        agent_reachable: bool,
        /// `None`/empty reads a generic phrase.
        agent_detail: Option<String>,
    },
}

/// The exact text + tone + retry affordance for a finished verdict.
#[derive(Debug, Clone, PartialEq, Eq)]
pub struct Verdict {
    pub message: String,
    pub tone: VerdictTone,
    pub retryable: bool,
}

/// What the verdict slot renders right now.
#[derive(Debug, Clone, PartialEq, Eq)]
pub enum ConnectView {
    /// No test run yet.
    Idle,
    /// A test is in flight — neutral, never green.
    Testing,
    /// A finished verdict.
    Done(Verdict),
}

/// The default engine address.
pub const DEFAULT_ENGINE_URL: &'static str = "http://127.0.0.1:1969";

/// The probe a status classifies as: `None` for a 2xx, key rejected for 401
/// or 302, otherwise an engine error carrying the status.
pub open spec fn classified(status: u16) -> Option<ConnectProbe> {
    if 200 <= status < 300 {
        None
    } else if status == 401 || status == 302 {
        Some(ConnectProbe::KeyRejected)
    } else {
        Some(ConnectProbe::EngineError { status })
    }
}

/// Classify a non-success HTTP status; `None` for a success status.
pub fn classify_status(status: u16) -> (r: Option<ConnectProbe>)
    ensures
        r == classified(status),
{
    if 200 <= status && status < 300 {
        return None;
    }
    if status == 401 || status == 302 {
        return Some(ConnectProbe::KeyRejected);
    }
    Some(ConnectProbe::EngineError { status })
}

/// The text of an optional string, or `fallback` when absent.
pub open spec fn or_text(o: Option<String>, fallback: Seq<char>) -> Seq<char> {
    match o {
        Some(s) => s@,
        None => fallback,
    }
}

/// The agent detail: the engine's phrase when present and non-empty,
/// otherwise the generic phrase.
pub open spec fn agent_text(o: Option<String>) -> Seq<char> {
    match o {
        Some(s) => if s@.len() > 0 { s@ } else { "the engine couldn't reach the MCP agent server"@ },
        None => "the engine couldn't reach the MCP agent server"@,
    }
}

/// The message, tone and retry flag of a probe's verdict.
pub open spec fn verdict_view(probe: ConnectProbe) -> (Seq<char>, VerdictTone, bool) {
    match probe {
        ConnectProbe::Unreachable { detail } => (
            "Couldn't reach the engine ("@ + detail@ + "). Check the address and that your engine is running."@,
            VerdictTone::Negative,
            true,
        ),
        ConnectProbe::KeyRejected => (
            "The engine answered, but your key wasn't accepted. Check the key and test again."@,
            VerdictTone::Negative,
            true,
        ),
        ConnectProbe::EngineError { status } => (
            "The engine answered with an error (status "@ + strs::decimal(status as nat) + "). Try again in a moment."@,
            VerdictTone::Negative,
            true,
        ),
        ConnectProbe::Answered { engine_version, active_broker, agent_reachable, agent_detail } => {
            let head = "Connected — engine v"@ + or_text(engine_version, "unknown"@)
                + " is up and your key works (active broker: "@ + or_text(active_broker, "none yet"@) + ")."@;
            if agent_reachable {
                (head + " Your AI agent is reachable."@, VerdictTone::Positive, false)
            } else {
                (
                    head + " Note: the AI agent isn't reachable yet ("@ + agent_text(agent_detail) + ")."@,
                    VerdictTone::Caution,
                    false,
                )
            }
        },
    }
}

fn push_or(s: &mut String, o: &Option<String>, fallback: &str)
    ensures
        final(s)@ == old(s)@ + or_text(*o, fallback@),
{
    match o {
        Some(v) => strs::append_str(s, v.as_str()),
        None => strs::append_str(s, fallback),
    }
}

/// Map a classified probe to the honest verdict — text, tone, and whether
/// Retry applies.
pub fn verdict_for(probe: &ConnectProbe) -> (r: Verdict)
    ensures
        (r.message@, r.tone, r.retryable) == verdict_view(*probe),
{
    match probe {
        ConnectProbe::Unreachable { detail } => {
            let mut m = strs::own("Couldn't reach the engine (");
            strs::append_str(&mut m, detail.as_str());
            strs::append_str(&mut m, "). Check the address and that your engine is running.");
            Verdict { message: m, tone: VerdictTone::Negative, retryable: true }
        },
        ConnectProbe::KeyRejected => Verdict {
            message: strs::own("The engine answered, but your key wasn't accepted. Check the key and test again."),
            tone: VerdictTone::Negative,
            retryable: true,
        },
        ConnectProbe::EngineError { status } => {
            let mut m = strs::own("The engine answered with an error (status ");
            strs::push_decimal(&mut m, *status as u64);
            strs::append_str(&mut m, "). Try again in a moment.");
            Verdict { message: m, tone: VerdictTone::Negative, retryable: true }
        },
        ConnectProbe::Answered { engine_version, active_broker, agent_reachable, agent_detail } => {
            let mut m = strs::own("Connected — engine v");
            push_or(&mut m, engine_version, "unknown");
            strs::append_str(&mut m, " is up and your key works (active broker: ");
            push_or(&mut m, active_broker, "none yet");
            strs::append_str(&mut m, ").");
            if *agent_reachable {
                strs::append_str(&mut m, " Your AI agent is reachable.");
                Verdict { message: m, tone: VerdictTone::Positive, retryable: false }
            } else {
                strs::append_str(&mut m, " Note: the AI agent isn't reachable yet (");
                match agent_detail {
                    Some(d) => if d.as_str().unicode_len() > 0 {
                        strs::append_str(&mut m, d.as_str());
                    } else {
                        strs::append_str(&mut m, "the engine couldn't reach the MCP agent server");
                    },
                    None => strs::append_str(&mut m, "the engine couldn't reach the MCP agent server"),
                }
                strs::append_str(&mut m, ").");
                Verdict { message: m, tone: VerdictTone::Caution, retryable: false }
            }
        },
    }
}

/// The render decision: `Testing` whenever a test is in flight (even with a
/// stale probe present), otherwise `Idle` with no probe or the probe's verdict.
pub fn connect_view(testing: bool, probe: Option<&ConnectProbe>) -> (r: ConnectView)
    ensures
        testing ==> r == ConnectView::Testing,
        !testing && probe is None ==> r == ConnectView::Idle,
        !testing && probe is Some ==> (match r {
            ConnectView::Done(v) => (v.message@, v.tone, v.retryable) == verdict_view(*probe.unwrap()),
            _ => false,
        }),
{
    if testing {
        return ConnectView::Testing;
    }
    match probe {
        None => ConnectView::Idle,
        Some(p) => ConnectView::Done(verdict_for(p)),
    }
}

/// Green is reachable only from an answered engine, an accepted key, and a
/// reachable agent; every failure is retryable and every success is not.
pub proof fn lemma_positive_only_when_fully_connected(probe: ConnectProbe)
    ensures
        verdict_view(probe).1 == VerdictTone::Positive <==> (match probe {
            ConnectProbe::Answered { agent_reachable, .. } => agent_reachable,
            _ => false,
        }),
        verdict_view(probe).2 <==> !(probe is Answered),
        verdict_view(probe).1 == VerdictTone::Negative <==> !(probe is Answered),
{
}

} // verus!
