use auracle::status_view::{ChipTone, EngineFacts, ChipView, chip_view, QcFacts, qc_chip_view};

#[test]
fn not_connected_is_muted_with_connect_hint() {
    let view = chip_view(EngineFacts::NotConnected);
    assert_eq!(view.label, "engine: not connected");
    assert_eq!(view.tone, ChipTone::Muted);
    assert!(view.tooltip.contains("Click to connect"));
}

#[test]
fn checking_is_checking_tone_not_good() {
    let view = chip_view(EngineFacts::Checking);
    assert_eq!(view.tone, ChipTone::Checking);
    assert_ne!(view.tone, ChipTone::Good);
}

#[test]
fn unreachable_is_bad() {
    let view = chip_view(EngineFacts::Unreachable);
    assert_eq!(view.label, "engine: unreachable");
    assert_eq!(view.tone, ChipTone::Bad);
}

#[test]
fn connected_no_broker_says_no_broker_yet_not_a_named_broker() {
    let view = chip_view(EngineFacts::Connected {
        broker: None,
        live_allowed: false,
        capability_plain: String::new(),
    });
    assert!(view.label.contains("no broker yet"));
    assert!(!view.label.contains("broker: none yet"));
    assert_eq!(view.tone, ChipTone::Good);
}

#[test]
fn connected_live_allowed_reads_live_ok() {
    let view = chip_view(EngineFacts::Connected {
        broker: Some("ibkr".to_string()),
        live_allowed: true,
        capability_plain: String::new(),
    });
    assert!(view.label.contains("live ok"));
    assert!(!view.label.contains("paper only"));
}

#[test]
fn connected_not_allowed_reads_paper_only() {
    let view = chip_view(EngineFacts::Connected {
        broker: Some("ibkr".to_string()),
        live_allowed: false,
        capability_plain: String::new(),
    });
    assert!(view.label.contains("paper only"));
    assert!(!view.label.contains("live ok"));
}

#[test]
fn tooltip_prefixes_plain_sentence_when_present() {
    let view = chip_view(EngineFacts::Connected {
        broker: Some("ibkr".to_string()),
        live_allowed: false,
        capability_plain: "You can paper trade US equities.".to_string(),
    });
    assert!(view.tooltip.starts_with("You can paper trade US equities."));
    assert!(
        view.tooltip
            .contains("Real-money trading is not yet enabled")
    );
}

#[test]
fn tooltip_is_license_note_only_when_plain_empty() {
    let view = chip_view(EngineFacts::Connected {
        broker: Some("ibkr".to_string()),
        live_allowed: false,
        capability_plain: String::new(),
    });
    assert_eq!(
        view.tooltip,
        "Real-money trading is not yet enabled on your \
         license; paper trading works."
    );
}

#[test]
fn live_ok_tooltip_says_paper_stays_default() {
    // Carries the existing nuance: even when live is licensed, paper is still
    // the default — the tooltip must keep saying so.
    let view = chip_view(EngineFacts::Connected {
        broker: Some("ibkr".to_string()),
        live_allowed: true,
        capability_plain: String::new(),
    });
    assert!(view.tooltip.contains("paper stays the default"));
}

#[test]
fn qc_not_connected_is_muted_with_settings_hint() {
    let view = qc_chip_view(QcFacts::NotConnected);
    assert_eq!(view.label, "QuantConnect: off");
    assert_eq!(view.tone, ChipTone::Muted);
    assert!(view.tooltip.contains("Settings"));
}

#[test]
fn qc_checking_is_checking_not_good() {
    assert_eq!(qc_chip_view(QcFacts::Checking).tone, ChipTone::Checking);
    assert_ne!(qc_chip_view(QcFacts::Checking).tone, ChipTone::Good);
}

#[test]
fn qc_connected_is_good_with_user_and_count() {
    let view = qc_chip_view(QcFacts::Connected {
        user_id: "123456".to_string(),
        projects: 7,
    });
    assert_eq!(view.tone, ChipTone::Good);
    assert!(view.tooltip.contains("123456"));
    assert!(view.tooltip.contains("7 projects"));
}

#[test]
fn qc_single_project_reads_singular() {
    let view = qc_chip_view(QcFacts::Connected {
        user_id: "1".to_string(),
        projects: 1,
    });
    assert!(view.tooltip.contains("1 project "));
    assert!(!view.tooltip.contains("1 projects"));
}
