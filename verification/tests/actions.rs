use auracle::actions::{
    backtest_affordance, connect_affordance, decide_deploy, deploy_affordance, live_permission_from_capabilities,
    permission_after_fetch, validate_affordance, Affordance, DeployDecision, LivePermission,
};
use auracle::json::JsonValue;

fn caps(entries: Vec<(&str, JsonValue)>) -> JsonValue {
    JsonValue::Object(entries.into_iter().map(|(k, v)| (k.to_string(), v)).collect())
}

#[test]
fn unknown_permission_parses_from_absent_or_malformed() {
    assert_eq!(
        live_permission_from_capabilities(&caps(vec![("live_allowed", JsonValue::Bool(true))])),
        LivePermission::Allowed
    );
    assert_eq!(
        live_permission_from_capabilities(&caps(vec![("live_allowed", JsonValue::Bool(false))])),
        LivePermission::Denied
    );
    // Absent, null, or non-bool → Unknown, never a confident verdict.
    assert_eq!(live_permission_from_capabilities(&caps(vec![])), LivePermission::Unknown);
    assert_eq!(
        live_permission_from_capabilities(&caps(vec![("live_allowed", JsonValue::Str("yes".into()))])),
        LivePermission::Unknown
    );
}

#[test]
fn deploy_never_auto_sends_live() {
    assert_eq!(decide_deploy(false, LivePermission::Allowed), DeployDecision::ArmConfirm);
    assert_eq!(decide_deploy(true, LivePermission::Allowed), DeployDecision::SubmitLive);
    assert_eq!(decide_deploy(false, LivePermission::Denied), DeployDecision::SubmitPaper);
    assert_eq!(decide_deploy(true, LivePermission::Denied), DeployDecision::SubmitPaper);
}

#[test]
fn unverified_permission_blocks_instead_of_silent_paper() {
    assert_eq!(decide_deploy(false, LivePermission::Unknown), DeployDecision::BlockedUnverified);
    assert_eq!(decide_deploy(true, LivePermission::Unknown), DeployDecision::BlockedUnverified);
}

#[test]
fn deploy_affordance_tracks_the_decision() {
    assert!(matches!(deploy_affordance(true, false, LivePermission::Allowed), Affordance::NeedsConfirm));
    assert!(matches!(deploy_affordance(true, true, LivePermission::Allowed), Affordance::NeedsConfirm));
    assert!(deploy_affordance(true, false, LivePermission::Denied).is_ready());
    assert!(matches!(deploy_affordance(true, false, LivePermission::Unknown), Affordance::Disabled { .. }));
}

#[test]
fn no_strategy_disables_money_and_run_verbs() {
    assert!(matches!(backtest_affordance(false, false), Affordance::Disabled { .. }));
    assert!(matches!(validate_affordance(false), Affordance::Disabled { .. }));
    assert!(matches!(deploy_affordance(false, false, LivePermission::Denied), Affordance::Disabled { .. }));
    assert!(backtest_affordance(true, false).is_ready());
    assert!(!backtest_affordance(true, true).is_ready());
}

#[test]
fn connect_points_at_the_engine_when_down() {
    assert!(connect_affordance(true).is_ready());
    assert!(matches!(connect_affordance(false), Affordance::Disabled { .. }));
}

#[test]
fn a_failed_capabilities_fetch_is_unknown() {
    assert_eq!(permission_after_fetch(None), LivePermission::Unknown);
    let allowed = caps(vec![("live_allowed", JsonValue::Bool(true))]);
    assert_eq!(permission_after_fetch(Some(&allowed)), LivePermission::Allowed);
    let dup = caps(vec![("live_allowed", JsonValue::Bool(true)), ("live_allowed", JsonValue::Null)]);
    assert_eq!(live_permission_from_capabilities(&dup), LivePermission::Unknown);
    assert_eq!(Affordance::disabled("why"), Affordance::Disabled { reason: "why".into() });
}
