use auracle::live::{
    active_count, available_actions, capital_text, deploy_blockers, deployment_title, index_of_id, is_active, selection_after, state_dot,
    state_label, verb_endpoint, wizard_brokers, wizard_deploy_status, Action, Compute, DotTone, LiveFetch, LivePanel, Mode,
};
use auracle::panel_common::PanelStatus;

#[test]
fn actions_follow_lifecycle() {
    assert_eq!(available_actions("running"), vec![Action::Stop, Action::Liquidate]);
    assert_eq!(available_actions("stopped"), vec![Action::Restart, Action::Liquidate]);
    assert_eq!(available_actions("errored"), vec![Action::Restart, Action::Liquidate]);
    assert!(available_actions("archived").is_empty());
    assert!(available_actions("preflight").is_empty());
}

#[test]
fn verb_endpoint_and_destructive() {
    assert_eq!(verb_endpoint(7, Action::Liquidate), "/ui/api/deployments/7/liquidate");
    assert!(Action::Liquidate.is_destructive());
    assert!(!Action::Stop.is_destructive());
}

/// The facts of a ready live wizard: name, strategy, broker, positive AUM.
fn blockers_for(
    name: &str,
    cls: &str,
    broker: Option<&str>,
    mode: Mode,
    aum: Option<f64>,
    compute: Compute,
    providers: &[&str],
) -> Vec<String> {
    deploy_blockers(
        name,
        "strategies.momentum",
        cls,
        broker,
        mode,
        aum.map_or(false, |a| a > 0.0),
        compute,
        !providers.is_empty(),
    )
}

#[test]
fn live_requires_positive_aum_rule() {
    let ready = blockers_for("Momentum", "Momentum", Some("clearstreet"), Mode::Live, Some(100_000.0), Compute::Local, &[]);
    assert!(ready.is_empty());
    let missing = blockers_for("Momentum", "Momentum", Some("clearstreet"), Mode::Live, None, Compute::Local, &[]);
    assert!(missing.iter().any(|e| e.contains("Starting capital")));
    let zero = blockers_for("Momentum", "Momentum", Some("clearstreet"), Mode::Live, Some(0.0), Compute::Local, &[]);
    assert!(!zero.is_empty());
    let paper = blockers_for("Momentum", "Momentum", Some("clearstreet"), Mode::Paper, None, Compute::Local, &[]);
    assert!(paper.is_empty());
}

#[test]
fn blockers_come_in_display_order() {
    let all = blockers_for(" ", "", Some(""), Mode::Live, None, Compute::Oci, &[]);
    assert_eq!(
        all,
        vec![
            "Give the deployment a name.".to_string(),
            "Pick a strategy to deploy.".to_string(),
            "Choose a brokerage.".to_string(),
            "Starting capital (AUM) is required for live deployment and must be > 0.".to_string(),
            "A cloud deployment needs at least one data source.".to_string(),
        ]
    );
    let cloud = blockers_for("M", "M", Some("b"), Mode::Paper, None, Compute::Aws, &["alpaca"]);
    assert!(cloud.is_empty());
}

#[test]
fn labels_and_wire_names() {
    assert_eq!(state_label("running"), "Live");
    assert_eq!(state_label("provisioning"), "Preparing");
    assert_eq!(state_label("draft"), "Draft");
    assert_eq!(state_label("nope"), "Unknown");
    assert_eq!(Mode::Live.wire(), "live");
    assert_eq!(Mode::Paper.wire(), "paper");
    assert_eq!(Compute::Oci.wire(), "oci");
    assert_eq!(Compute::Local.label(), "This machine");
    assert_eq!(Action::Restart.verb(), "restart");
    assert_eq!(Action::Liquidate.label(), "Liquidate");
    assert_eq!(verb_endpoint(-3, Action::Stop), "/ui/api/deployments/-3/stop");
}

#[test]
fn activity_and_selection() {
    assert!(is_active("restarting"));
    assert!(!is_active("stopped"));
    let states = vec!["running".to_string(), "stopped".to_string(), "preflight".to_string()];
    assert_eq!(active_count(&states), 2);
    assert_eq!(selection_after(Some(1), &[1, 2]), Some(1));
    assert_eq!(selection_after(Some(3), &[1, 2]), None);
    assert_eq!(selection_after(None, &[1]), None);
    assert_eq!(index_of_id(&[4, 5, 5], 5), Some(1));
    assert_eq!(index_of_id(&[], 5), None);
}

fn rows(ids: &[i64]) -> Vec<(i64, String)> {
    ids.iter().map(|i| (*i, format!("deployment {}", i))).collect()
}

#[test]
fn state_dots_follow_the_lifecycle() {
    assert_eq!(state_dot("running"), DotTone::Success);
    assert_eq!(state_dot("errored"), DotTone::Error);
    assert_eq!(state_dot("stopped"), DotTone::Ignored);
    assert_eq!(state_dot("archived"), DotTone::Ignored);
    assert_eq!(state_dot("liquidating"), DotTone::Ignored);
    assert_eq!(state_dot("starting"), DotTone::Info);
    assert_eq!(state_dot("mystery"), DotTone::Info);
}

#[test]
fn polls_move_the_panel_between_states() {
    let mut p: LivePanel<String, u32> = LivePanel::new(true);
    assert_eq!(p.status, PanelStatus::Loading);
    assert_eq!(p.apply_poll(LiveFetch::Fetched(rows(&[1, 2]))), None);
    assert_eq!(p.status, PanelStatus::Connected);
    assert_eq!(p.select(2), 2);
    assert_eq!(p.apply_poll(LiveFetch::Fetched(rows(&[2, 3]))), Some(2));
    assert_eq!(p.selected_row().map(|r| r.as_str()), Some("deployment 2"));
    // Unreachable keeps the last rows.
    assert_eq!(p.apply_poll(LiveFetch::Unreachable), None);
    assert_eq!(p.status, PanelStatus::Unreachable);
    assert_eq!(p.rows.len(), 2);
    // A vanished deployment drops the selection.
    p.apply_poll(LiveFetch::Fetched(rows(&[3])));
    assert_eq!(p.selected, None);
    assert_eq!(p.selected_row(), None);
    // Not connected clears everything.
    p.select(3);
    p.ledger_fetched(3, Some(9));
    p.apply_poll(LiveFetch::NotConnected);
    assert_eq!(p.status, PanelStatus::NotConnected);
    assert!(p.rows.is_empty());
    assert_eq!(p.selected, None);
    assert_eq!(p.ledger, None);
}

#[test]
fn a_stale_ledger_never_shows_for_another_deployment() {
    let mut p: LivePanel<String, u32> = LivePanel::new(true);
    p.apply_poll(LiveFetch::Fetched(rows(&[1, 2])));
    p.select(1);
    p.select(2);
    p.ledger_fetched(1, Some(10));
    assert_eq!(p.ledger, None);
    p.ledger_fetched(2, Some(20));
    assert_eq!(p.ledger, Some(20));
}

#[test]
fn failed_actions_say_why_until_the_next_fetch() {
    let mut p: LivePanel<String, u32> = LivePanel::new(true);
    p.apply_poll(LiveFetch::Fetched(rows(&[1])));
    p.action_failed(Action::Liquidate, "broker offline");
    assert_eq!(p.last_error.as_deref(), Some("Couldn't liquidate: broker offline."));
    let before = p.clone();
    p.after_action(LiveFetch::Unreachable);
    assert_eq!(p, before);
    p.after_action(LiveFetch::Fetched(rows(&[1])));
    assert_eq!(p.last_error, None);
    p.reconnect();
    assert_eq!(p.status, PanelStatus::Loading);
    assert!(p.rows.is_empty());
}

#[test]
fn the_capital_box_reads_plain_digits() {
    assert_eq!(capital_text(" $100,000 "), "100000");
    assert_eq!(capital_text("2500.50"), "2500.50");
    assert_eq!(capital_text("   "), "");
}

#[test]
fn the_wizard_offers_three_brokerages_and_reports_its_deploy() {
    assert_eq!(
        wizard_brokers(),
        vec![("clearstreet", "ClearStreet"), ("alpaca", "Alpaca"), ("ibkr", "Interactive Brokers")]
    );
    assert_eq!(wizard_deploy_status(Ok(())), "Deployed. Open Live Algorithms to watch it.");
    assert_eq!(wizard_deploy_status(Err("400 Bad Request")), "Deploy failed: 400 Bad Request");
}

#[test]
fn an_unnamed_deployment_reads_by_its_id() {
    assert_eq!(deployment_title("", 42), "Deployment 42");
    assert_eq!(deployment_title("Momentum", 42), "Momentum");
}

#[test]
fn selection_drops_when_row_disappears() {
    let mut algos: LivePanel<String, ()> = LivePanel::new(true);
    algos.set_rows(vec![(1, "running".to_string())]);
    algos.select(1);
    assert!(algos.selected_row().is_some());
    let states: Vec<String> = algos.rows.iter().map(|r| r.1.clone()).collect();
    assert_eq!(active_count(&states), 1);

    algos.set_rows(vec![(2, "stopped".to_string())]);
    assert!(algos.selected_row().is_none());
    let states: Vec<String> = algos.rows.iter().map(|r| r.1.clone()).collect();
    assert_eq!(active_count(&states), 0);
}
