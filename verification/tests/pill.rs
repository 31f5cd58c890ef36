use auracle::pill::{agent_pill, runway_tone, AgentAction, Rgb, RunwayState, RunwayTone};

// The pill palette, spelled out as the pills paint it.
const PEACH: Rgb = Rgb { r: 0xDF, g: 0xA8, b: 0x8F };
const BLUE: Rgb = Rgb { r: 0x9F, g: 0xBB, b: 0xE0 };
const LAVENDER: Rgb = Rgb { r: 0xC0, g: 0xA8, b: 0xDD };
const MINT: Rgb = Rgb { r: 0x9F, g: 0xC9, b: 0xA2 };
const GOLD: Rgb = Rgb { r: 0xC0, g: 0x85, b: 0x32 };
const DARK_INK: Rgb = Rgb { r: 0x14, g: 0x16, b: 0x1B };
const LIGHT_INK: Rgb = Rgb { r: 0xEC, g: 0xEC, b: 0xE6 };

#[test]
fn agent_actions_map_to_their_pastels() {
    assert_eq!(agent_pill(AgentAction::Thinking).fill, PEACH);
    assert_eq!(agent_pill(AgentAction::Reading).fill, BLUE);
    assert_eq!(agent_pill(AgentAction::Editing).fill, LAVENDER);
    assert_eq!(agent_pill(AgentAction::Running).fill, MINT);
    assert_eq!(agent_pill(AgentAction::Done).fill, GOLD);
}

#[test]
fn agent_labels_are_uppercase_captions() {
    for action in [
        AgentAction::Thinking,
        AgentAction::Reading,
        AgentAction::Editing,
        AgentAction::Running,
        AgentAction::Done,
    ] {
        let pill = agent_pill(action);
        assert!(!pill.label.is_empty());
        assert_eq!(pill.label, pill.label.to_uppercase());
    }
}

#[test]
fn only_the_gold_pill_uses_light_ink() {
    // The four light pastels carry dark ink; gold is dark enough to flip.
    assert_eq!(agent_pill(AgentAction::Thinking).ink, DARK_INK);
    assert_eq!(agent_pill(AgentAction::Reading).ink, DARK_INK);
    assert_eq!(agent_pill(AgentAction::Editing).ink, DARK_INK);
    assert_eq!(agent_pill(AgentAction::Running).ink, DARK_INK);
    assert_eq!(agent_pill(AgentAction::Done).ink, LIGHT_INK);
}

#[test]
fn the_five_pastels_are_distinct() {
    let fills = [PEACH, BLUE, LAVENDER, MINT, GOLD];
    for (i, a) in fills.iter().enumerate() {
        for b in &fills[i + 1..] {
            assert_ne!(a, b);
        }
    }
}

#[test]
fn runway_state_maps_to_progress_tone() {
    assert_eq!(runway_tone(RunwayState::Current), RunwayTone::Accent);
    assert_eq!(runway_tone(RunwayState::Done), RunwayTone::Positive);
    assert_eq!(runway_tone(RunwayState::Upcoming), RunwayTone::Muted);
}

#[test]
fn runway_never_borrows_an_agent_pastel() {
    // Different vocabularies: the Runway tone enum has no pastel at all, so a
    // stage can never accidentally render as a Cursor agent colour. This test
    // documents that boundary — RunwayTone and AgentPill share no colour API.
    let tones = [RunwayTone::Accent, RunwayTone::Positive, RunwayTone::Muted];
    assert_eq!(tones.len(), 3);
}

#[test]
fn every_caption_is_capital_letters_only() {
    for action in [AgentAction::Thinking, AgentAction::Reading, AgentAction::Editing, AgentAction::Running, AgentAction::Done] {
        let label = agent_pill(action).label;
        assert!(!label.is_empty());
        assert!(label.chars().all(|c| c.is_ascii_uppercase()));
        assert_eq!(label, label.to_uppercase());
    }
}
