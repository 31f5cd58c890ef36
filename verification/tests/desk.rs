use auracle::desk::{
    build_desk, empty_desk, money_row, pnl_row, positions_row, unknown_row, DeskFetch, DeskPanel, Sign, StrategyFacts, Tone,
};
use auracle::panel_common::PanelStatus;

#[test]
fn all_missing_reads_unknown_never_zero_rule() {
    let view = build_desk(None, None, None, None, None, Vec::new());
    assert_eq!(view.metrics.len(), 5);
    for row in &view.metrics {
        assert_eq!(row.tone, Tone::Unknown, "{} should be Unknown", row.label);
        assert_eq!(row.value, "Unknown");
    }
    assert!(view.strategies.is_empty());
    let labels: Vec<_> = view.metrics.iter().map(|r| r.label).collect();
    assert_eq!(labels, vec!["Equity", "Day P&L", "Open P&L", "Buying Power", "Positions"]);
}

#[test]
fn reported_values_pass_through_with_their_tone() {
    let view = build_desk(
        Some("$0.00".to_string()),
        Some(("+$0.00".to_string(), Sign::Zero)),
        Some(("-$42.00".to_string(), Sign::Negative)),
        None,
        Some(0),
        vec![
            StrategyFacts { name: "mean_reversion".into(), status: "live".into(), pnl: Some(("+$88.00".into(), Sign::Positive)) },
            StrategyFacts { name: "carry".into(), status: "paper".into(), pnl: None },
        ],
    );
    assert_eq!(view.metrics[0].value, "$0.00");
    assert_eq!(view.metrics[0].tone, Tone::Neutral);
    assert_eq!(view.metrics[1].tone, Tone::Neutral);
    assert_eq!(view.metrics[2].tone, Tone::Negative);
    assert_eq!(view.metrics[3].tone, Tone::Unknown);
    assert_eq!(view.metrics[4].value, "0");
    assert_eq!(view.strategies.len(), 2);
    assert_eq!(view.strategies[0].pnl.tone, Tone::Positive);
    assert_eq!(view.strategies[0].status, "live");
    assert_eq!(view.strategies[1].pnl.tone, Tone::Unknown);
    assert_eq!(view.strategies[1].pnl.value, "Unknown");
}

#[test]
fn single_rows() {
    assert_eq!(unknown_row("X").value, "Unknown");
    assert_eq!(money_row("Equity", Some("$1.00".into())).tone, Tone::Neutral);
    assert_eq!(pnl_row("P&L", Some(("+$1.00".into(), Sign::Positive))).tone, Tone::Positive);
    assert_eq!(positions_row(Some(12)).value, "12");
    assert_eq!(positions_row(None).tone, Tone::Unknown);
}

#[test]
fn the_desk_panel_keeps_its_rows_until_a_snapshot_arrives() {
    let mut p = DeskPanel::new(false);
    assert_eq!(p.status, PanelStatus::NotConnected);
    assert_eq!(p.view, empty_desk());
    assert!(p.view.metrics.iter().all(|m| m.tone == Tone::Unknown && m.value == "Unknown"));
    let snapshot = build_desk(Some("$10.00".into()), None, None, None, Some(2), Vec::new());
    p.apply_fetch(DeskFetch::Fetched(snapshot.clone()));
    assert_eq!(p.status, PanelStatus::Connected);
    assert_eq!(p.view, snapshot);
    p.apply_fetch(DeskFetch::Unreachable);
    assert_eq!(p.status, PanelStatus::Unreachable);
    assert_eq!(p.view, snapshot);
    p.begin_refetch();
    assert_eq!(p.status, PanelStatus::Loading);
    p.apply_fetch(DeskFetch::NotConnected);
    assert_eq!(p.status, PanelStatus::NotConnected);
    assert_eq!(p.view, snapshot);
}
