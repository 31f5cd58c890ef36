use auracle::validation::{Severity, SignalRow, Verdict, signal_severity, signal_row, verdict, verdict_is_empty};

#[test]
fn known_tiers_map_to_their_severities() {
    assert_eq!(signal_severity("green"), Severity::Okay);
    assert_eq!(signal_severity("red"), Severity::NeedsAttention);
    assert_eq!(signal_severity("amber"), Severity::Caution);
    assert_eq!(signal_severity("warning"), Severity::Caution);
}

#[test]
fn tier_match_is_case_insensitive() {
    assert_eq!(signal_severity("GREEN"), Severity::Okay);
    assert_eq!(signal_severity("Red"), Severity::NeedsAttention);
    assert_eq!(signal_severity("  Amber  "), Severity::Caution);
}

#[test]
fn unknown_or_blank_tier_is_not_checked_never_ok() {
    assert_eq!(signal_severity(""), Severity::NotChecked);
    assert_eq!(signal_severity("unknown"), Severity::NotChecked);
    assert_eq!(signal_severity("tier_42"), Severity::NotChecked);
}

#[test]
fn blank_summary_with_no_signals_is_empty() {
    let v = verdict("  ", vec![]);
    assert_eq!(v.summary, None);
    assert!(verdict_is_empty(&v));
}

#[test]
fn summary_with_signals_is_not_empty() {
    let v = verdict(
        "looks healthy",
        vec![signal_row("Sharpe", "green", "It is fine.", "")],
    );
    assert_eq!(v.summary, Some("looks healthy".to_string()));
    assert!(!verdict_is_empty(&v));
}

#[test]
fn signal_row_preserves_text_verbatim_and_never_trims() {
    let row = signal_row(
        "Walk-forward",
        "amber",
        "  whitespace kept  ",
        "  fix kept  ",
    );
    assert_eq!(row.name, "Walk-forward");
    assert_eq!(row.severity, Severity::Caution);
    // plain / fix are not trimmed — the engine's exact wording reaches the view.
    assert_eq!(row.plain, "  whitespace kept  ");
    assert_eq!(row.fix, "  fix kept  ");
}

#[test]
fn empty_fix_is_allowed() {
    let row = signal_row("Stability", "green", "Stable.", "");
    assert_eq!(row.fix, "");
}
