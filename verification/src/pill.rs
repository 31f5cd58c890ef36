//! Timeline pills: the Studio agent timeline's fixed pastel pills, and the
//! Runway pipeline's progress tones (theme tones, never a pastel).

use vstd::prelude::*;

verus! {

/// A plain 8-bit RGB triple.
#[derive(Debug, Clone, Copy, PartialEq, Eq)]
pub struct Rgb {
    pub r: u8,
    pub g: u8,
    pub b: u8,
}

impl Rgb {
    fn new(r: u8, g: u8, b: u8) -> (c: Self)
        ensures
            c == (Rgb { r, g, b }),
    {
        Rgb { r, g, b }
    }
}

/// An action the Studio agent is performing, in timeline order.
#[derive(Debug, Clone, Copy, PartialEq, Eq)]
pub enum AgentAction {
    Thinking,
    Reading,
    Editing,
    Running,
    Done,
}

/// A painted agent pill: an uppercase caption, a pastel fill, and the ink
/// colour that stays legible on that fill.
#[derive(Debug, Clone, Copy, PartialEq, Eq)]
pub struct AgentPill {
    pub label: &'static str,
    pub fill: Rgb,
    pub ink: Rgb,
}

/// Peach fill (thinking).
pub open spec fn peach() -> Rgb { Rgb { r: 0xDF, g: 0xA8, b: 0x8F } }
/// Blue fill (reading).
pub open spec fn blue() -> Rgb { Rgb { r: 0x9F, g: 0xBB, b: 0xE0 } }
/// Lavender fill (editing).
pub open spec fn lavender() -> Rgb { Rgb { r: 0xC0, g: 0xA8, b: 0xDD } }
/// Mint fill (running).
pub open spec fn mint() -> Rgb { Rgb { r: 0x9F, g: 0xC9, b: 0xA2 } }
/// Gold fill (done).
pub open spec fn gold() -> Rgb { Rgb { r: 0xC0, g: 0x85, b: 0x32 } }
/// Dark ink, legible on the four light pastels.
pub open spec fn dark_ink() -> Rgb { Rgb { r: 0x14, g: 0x16, b: 0x1B } }
/// Light ink, legible on the gold pill.
pub open spec fn light_ink() -> Rgb { Rgb { r: 0xEC, g: 0xEC, b: 0xE6 } }

/// The pill an agent action maps to: caption, fill, ink.
pub open spec fn pill_view(action: AgentAction) -> (Seq<char>, Rgb, Rgb) {
    match action {
        AgentAction::Thinking => ("THINKING"@, peach(), dark_ink()),
        AgentAction::Reading => ("READING"@, blue(), dark_ink()),
        AgentAction::Editing => ("EDITING"@, lavender(), dark_ink()),
        AgentAction::Running => ("RUNNING"@, mint(), dark_ink()),
        AgentAction::Done => ("DONE"@, gold(), light_ink()),
    }
}

/// Map an agent action to its pill.
pub fn agent_pill(action: AgentAction) -> (p: AgentPill)
    ensures
        (p.label@, p.fill, p.ink) == pill_view(action),
{
    match action {
        AgentAction::Thinking => AgentPill {
            label: "THINKING",
            fill: Rgb::new(0xDF, 0xA8, 0x8F),
            ink: Rgb::new(0x14, 0x16, 0x1B),
        },
        AgentAction::Reading => AgentPill {
            label: "READING",
            fill: Rgb::new(0x9F, 0xBB, 0xE0),
            ink: Rgb::new(0x14, 0x16, 0x1B),
        },
        AgentAction::Editing => AgentPill {
            label: "EDITING",
            fill: Rgb::new(0xC0, 0xA8, 0xDD),
            ink: Rgb::new(0x14, 0x16, 0x1B),
        },
        AgentAction::Running => AgentPill {
            label: "RUNNING",
            fill: Rgb::new(0x9F, 0xC9, 0xA2),
            ink: Rgb::new(0x14, 0x16, 0x1B),
        },
        AgentAction::Done => AgentPill {
            label: "DONE",
            fill: Rgb::new(0xC0, 0x85, 0x32),
            ink: Rgb::new(0xEC, 0xEC, 0xE6),
        },
    }
}

/// Only the gold pill flips to light ink, and the five pastels are distinct.
pub proof fn lemma_pill_palette(a: AgentAction, b: AgentAction)
    ensures
        (pill_view(a).2 == light_ink()) <==> a == AgentAction::Done,
        a != b ==> pill_view(a).1 != pill_view(b).1,
{
}

/// Every caption is non-empty and written in the capital letters `A` to `Z`
/// alone.
pub proof fn lemma_pill_captions(a: AgentAction)
    ensures
        pill_view(a).0.len() > 0,
        forall|i: int| 0 <= i < pill_view(a).0.len() ==> 'A' <= #[trigger] pill_view(a).0[i] <= 'Z',
{
    reveal_strlit("THINKING");
    reveal_strlit("READING");
    reveal_strlit("EDITING");
    reveal_strlit("RUNNING");
    reveal_strlit("DONE");
}

/// Progress state of a Runway stage.
#[derive(Debug, Clone, Copy, PartialEq, Eq)]
pub enum RunwayState {
    Current,
    Done,
    Upcoming,
}

/// Theme tone a Runway pill is coloured with — never a pastel.
#[derive(Debug, Clone, Copy, PartialEq, Eq)]
pub enum RunwayTone {
    /// The active stage.
    Accent,
    /// A reached stage.
    Positive,
    /// A stage not yet reached.
    Muted,
}

/// Map a Runway stage's progress state to its pill tone.
pub fn runway_tone(state: RunwayState) -> (t: RunwayTone)
    ensures
        t == (match state {
            RunwayState::Current => RunwayTone::Accent,
            RunwayState::Done => RunwayTone::Positive,
            RunwayState::Upcoming => RunwayTone::Muted,
        }),
{
    match state {
        RunwayState::Current => RunwayTone::Accent,
        RunwayState::Done => RunwayTone::Positive,
        RunwayState::Upcoming => RunwayTone::Muted,
    }
}

} // verus!
