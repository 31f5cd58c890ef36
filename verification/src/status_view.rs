//! The engine status chip and the QuantConnect chip: `Good` only when actually
//! connected, no fabricated broker, and "live ok" only when the license allows.

use vstd::prelude::*;
use crate::strs;

verus! {

/// Glance tone for a status chip.
#[derive(Debug, Clone, Copy, PartialEq, Eq)]
pub enum ChipTone {
    Muted,
    Checking,
    Good,
    Bad,
}

/// The parsed engine facts the chip decides over.
#[derive(Debug, Clone, PartialEq, Eq)]
pub enum EngineFacts {
    /// No api key.
    NotConnected,
    /// Key present, first poll in flight.
    Checking,
    /// Fetch failed.
    Unreachable,
    Connected {
        /// `None` ⇒ no broker active yet.
        broker: Option<String>,
        live_allowed: bool,
        /// Engine's plain sentence ("" if none).
        capability_plain: String,
    },
}

/// Exactly what the chip renders.
#[derive(Debug, Clone, PartialEq, Eq)]
pub struct ChipView {
    pub label: String,
    pub tone: ChipTone,
    pub tooltip: String,
}

/// The characters of a chip.
pub open spec fn chip_text(c: ChipView) -> (Seq<char>, ChipTone, Seq<char>) {
    (c.label@, c.tone, c.tooltip@)
}

/// The license-note tooltip suffix.
pub open spec fn note_text(live_allowed: bool) -> Seq<char> {
    if live_allowed {
        "Real-money trading is allowed by your license — paper stays the default."@
    } else {
        "Real-money trading is not yet enabled on your license; paper trading works."@
    }
}

fn license_note(live_allowed: bool) -> (r: &'static str)
    ensures
        r@ == note_text(live_allowed),
{
    if live_allowed {
        "Real-money trading is allowed by your license — paper stays the default."
    } else {
        "Real-money trading is not yet enabled on your license; paper trading works."
    }
}

/// The chip for engine facts.
pub open spec fn engine_chip(facts: EngineFacts) -> (Seq<char>, ChipTone, Seq<char>) {
    match facts {
        EngineFacts::NotConnected => (
            "engine: not connected"@,
            ChipTone::Muted,
            "Your Auracle engine isn't connected yet. Click to connect."@,
        ),
        EngineFacts::Checking => (
            "engine: checking…"@,
            ChipTone::Checking,
            "Asking your engine how it's doing — usually a moment."@,
        ),
        EngineFacts::Unreachable => (
            "engine: unreachable"@,
            ChipTone::Bad,
            "Your engine didn't answer. It may be stopped — start it, or click to check the connection details."@,
        ),
        EngineFacts::Connected { broker, live_allowed, capability_plain } => {
            let note = note_text(live_allowed);
            let tooltip = if capability_plain@.len() == 0 { note } else { capability_plain@ + " "@ + note };
            let label = match broker {
                None => "engine: on · no broker yet"@,
                Some(b) => "engine: on · broker: "@ + b@ + " · "@ + (if live_allowed { "live ok"@ } else { "paper only"@ }),
            };
            (label, ChipTone::Good, tooltip)
        },
    }
}

/// Map parsed engine facts to the chip text, tone and tooltip. `Good` only
/// when connected; a missing broker reads "no broker yet".
pub fn chip_view(facts: EngineFacts) -> (r: ChipView)
    ensures
        chip_text(r) == engine_chip(facts),
        r.tone == ChipTone::Good <==> facts is Connected,
{
    match facts {
        EngineFacts::NotConnected => ChipView {
            label: strs::own("engine: not connected"),
            tone: ChipTone::Muted,
            tooltip: strs::own("Your Auracle engine isn't connected yet. Click to connect."),
        },
        EngineFacts::Checking => ChipView {
            label: strs::own("engine: checking…"),
            tone: ChipTone::Checking,
            tooltip: strs::own("Asking your engine how it's doing — usually a moment."),
        },
        EngineFacts::Unreachable => ChipView {
            label: strs::own("engine: unreachable"),
            tone: ChipTone::Bad,
            tooltip: strs::own(
                "Your engine didn't answer. It may be stopped — start it, or click to check the connection details.",
            ),
        },
        EngineFacts::Connected { broker, live_allowed, capability_plain } => {
            let note = license_note(live_allowed);
            let tooltip = if capability_plain.as_str().unicode_len() == 0 {
                strs::own(note)
            } else {
                let mut t = strs::own(capability_plain.as_str());
                strs::append_str(&mut t, " ");
                strs::append_str(&mut t, note);
                t
            };
            let label = match broker {
                None => strs::own("engine: on · no broker yet"),
                Some(b) => {
                    let mode = if live_allowed { "live ok" } else { "paper only" };
                    let mut l = strs::own("engine: on · broker: ");
                    strs::append_str(&mut l, b.as_str());
                    strs::append_str(&mut l, " · ");
                    strs::append_str(&mut l, mode);
                    l
                },
            };
            ChipView { label, tone: ChipTone::Good, tooltip }
        },
    }
}

/// Parsed QuantConnect connection facts.
#[derive(Debug, Clone, PartialEq, Eq)]
pub enum QcFacts {
    /// No QC credentials configured, or the endpoint isn't deployed.
    NotConnected,
    /// Credentials present, probe in flight.
    Checking,
    /// Authenticated: the user id and how many projects are visible.
    Connected { user_id: String, projects: u32 },
}

/// The chip for QuantConnect facts.
pub open spec fn qc_chip(facts: QcFacts) -> (Seq<char>, ChipTone, Seq<char>) {
    match facts {
        QcFacts::NotConnected => (
            "QuantConnect: off"@,
            ChipTone::Muted,
            "QuantConnect isn't connected. Add a user ID + API token in Settings to import your LEAN strategies."@,
        ),
        QcFacts::Checking => (
            "QuantConnect: checking…"@,
            ChipTone::Checking,
            "Checking your QuantConnect connection — usually a moment."@,
        ),
        QcFacts::Connected { user_id, projects } => (
            "QuantConnect: connected"@,
            ChipTone::Good,
            "Connected to QuantConnect as user "@ + user_id@ + " · "@ + strs::decimal(projects as nat) + " "@
                + (if projects == 1 { "project"@ } else { "projects"@ }) + " available to import."@,
        ),
    }
}

/// Map QuantConnect facts to the chip; `Good` only when connected, and the
/// project count is pluralised honestly.
pub fn qc_chip_view(facts: QcFacts) -> (r: ChipView)
    ensures
        chip_text(r) == qc_chip(facts),
        r.tone == ChipTone::Good <==> facts is Connected,
{
    match facts {
        QcFacts::NotConnected => ChipView {
            label: strs::own("QuantConnect: off"),
            tone: ChipTone::Muted,
            tooltip: strs::own(
                "QuantConnect isn't connected. Add a user ID + API token in Settings to import your LEAN strategies.",
            ),
        },
        QcFacts::Checking => ChipView {
            label: strs::own("QuantConnect: checking…"),
            tone: ChipTone::Checking,
            tooltip: strs::own("Checking your QuantConnect connection — usually a moment."),
        },
        QcFacts::Connected { user_id, projects } => {
            let plural = if projects == 1 { "project" } else { "projects" };
            let mut t = strs::own("Connected to QuantConnect as user ");
            strs::append_str(&mut t, user_id.as_str());
            strs::append_str(&mut t, " · ");
            strs::push_decimal(&mut t, projects as u64);
            strs::append_str(&mut t, " ");
            strs::append_str(&mut t, plural);
            strs::append_str(&mut t, " available to import.");
            ChipView { label: strs::own("QuantConnect: connected"), tone: ChipTone::Good, tooltip: t }
        },
    }
}

} // verus!
