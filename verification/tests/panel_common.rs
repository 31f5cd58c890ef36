use auracle::backtest_results::{deploy_state_from, results_title, strategy_path, DeployState};
use auracle::panel_common::{placeholder_body, PanelStatus, Placeholder, PlaceholderLabels};

#[test]
fn panels_start_honestly_and_show_the_right_placeholder() {
    assert_eq!(PanelStatus::initial(true), PanelStatus::Loading);
    assert_eq!(PanelStatus::initial(false), PanelStatus::NotConnected);
    let labels = PlaceholderLabels::new("blotter-connect", "Checking…", "No orders yet.");
    assert_eq!(
        placeholder_body(&PanelStatus::NotConnected, false, &labels),
        Some(Placeholder { text: "Not connected to your Auracle engine yet.".into(), connect_button: true })
    );
    assert_eq!(placeholder_body(&PanelStatus::Loading, true, &labels).unwrap().text, "Checking…");
    assert_eq!(
        placeholder_body(&PanelStatus::Unreachable, false, &labels).unwrap().text,
        "Your engine didn't answer. It may be stopped."
    );
    assert_eq!(placeholder_body(&PanelStatus::Connected, true, &labels).unwrap().text, "No orders yet.");
    assert_eq!(placeholder_body(&PanelStatus::Connected, false, &labels), None);
}

#[test]
fn deploy_states_and_titles() {
    assert_eq!(deploy_state_from(Ok(()), true), DeployState::Done("Deployed to paper.".into()));
    assert_eq!(deploy_state_from(Err("timeout"), false), DeployState::Failed("Deploy failed: timeout.".into()));
    assert_eq!(DeployState::default(), DeployState::Idle);
    assert_eq!(results_title(""), "Backtest results");
    assert_eq!(results_title("a.b.C"), "a.b.C");
    assert_eq!(strategy_path(""), None);
    assert_eq!(strategy_path("a.b.C"), Some("a.b.C".to_string()));
}
