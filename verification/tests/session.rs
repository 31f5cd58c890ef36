use auracle::artifact::ArtifactKind;
use auracle::session::{Session, Shell, SwitchOutcome};

#[test]
fn session_opens_on_desk() {
    let session = Session::new();
    assert_eq!(session.active_shell(), Shell::Desk);
}

#[test]
fn switching_between_available_shells_works() {
    let mut session = Session::new();
    assert_eq!(session.switch_shell(Shell::Copilot), SwitchOutcome::Switched);
    assert_eq!(session.active_shell(), Shell::Copilot);
    assert_eq!(session.switch_shell(Shell::Desk), SwitchOutcome::Switched);
    assert_eq!(session.active_shell(), Shell::Desk);
}

#[test]
fn switching_to_the_active_shell_is_a_no_op() {
    let mut session = Session::new();
    assert_eq!(session.switch_shell(Shell::Desk), SwitchOutcome::AlreadyActive);
    assert_eq!(session.active_shell(), Shell::Desk);
}

#[test]
fn switching_to_flow_now_works() {
    let mut session = Session::new();
    assert_eq!(session.switch_shell(Shell::Flow), SwitchOutcome::Switched);
    assert_eq!(session.active_shell(), Shell::Flow);
}

#[test]
fn selectable_includes_all_three_shells() {
    assert_eq!(Shell::selectable(), vec![Shell::Desk, Shell::Copilot, Shell::Flow]);
    assert!(Shell::Desk.available());
    assert!(Shell::Copilot.available());
    assert!(Shell::Flow.available());
}

#[test]
fn the_working_context_survives_a_shell_switch() {
    let mut session = Session::new();
    let id = session
        .artifacts_mut()
        .begin("backtest:momentum", ArtifactKind::BacktestResult, "Momentum");
    session.artifacts_mut().succeed(id);

    // Switch shells — the artifact opened in one shell is the same instance
    // the next shell sees.
    session.switch_shell(Shell::Copilot);

    let artifact = session
        .artifacts()
        .get(id)
        .expect("the artifact must survive the shell switch");
    assert_eq!(artifact.title, "Momentum");
    assert_eq!(session.artifacts().len(), 1);
}

#[test]
fn default_session_is_a_new_session() {
    let session = Session::default();
    assert_eq!(session.active_shell(), Shell::Desk);
    assert!(session.artifacts().is_empty());
}
