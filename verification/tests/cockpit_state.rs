use auracle::cockpit_state::{FeedState, feed_from_preflight, ResolveState, strategy_module_from_path, match_strategy, ActionAffordance, unresolved_message, backtest_affordance, validate_affordance, deploy_affordance, show_unreachable_banner};

use auracle::json::JsonValue;

fn obj(entries: Vec<(&str, JsonValue)>) -> JsonValue {
    JsonValue::Object(entries.into_iter().map(|(k, v)| (k.to_string(), v)).collect())
}

#[test]
fn match_strategy_distinguishes_match_from_no_match() {
    let listing = obj(vec![(
        "strategies",
        JsonValue::Array(vec![obj(vec![(
            "path",
            JsonValue::Str("strategies.gap.OvernightGapReversion".into()),
        )])]),
    )]);
    assert_eq!(
        match_strategy(&listing, "strategies.gap"),
        ResolveState::Strategy("strategies.gap.OvernightGapReversion".to_string())
    );
    assert_eq!(
        match_strategy(&listing, "strategies.other"),
        ResolveState::NotAStrategy
    );
    // A reachable engine with an unexpected shape is "not a strategy",
    // never confused with unreachable (which is the transport-error path).
    assert_eq!(
        match_strategy(&obj(vec![]), "strategies.gap"),
        ResolveState::NotAStrategy
    );
}

#[test]
fn derives_module_from_strategies_path() {
    assert_eq!(
        strategy_module_from_path("/opt/auracle/strategies/example_ma.py"),
        Some("strategies.example_ma".to_string())
    );
    assert_eq!(
        strategy_module_from_path("/home/me/proj/strategies/sub/momentum.py"),
        Some("strategies.sub.momentum".to_string())
    );
}

#[test]
fn rejects_non_strategy_paths() {
    assert_eq!(
        strategy_module_from_path("/home/me/notes/scratch.py"),
        None
    );
    assert_eq!(
        strategy_module_from_path("/opt/auracle/strategies/readme.txt"),
        None
    );
}

#[test]
fn feed_from_preflight_reads_presence() {
    assert_eq!(
        feed_from_preflight(&obj(vec![("data", obj(vec![("missing", JsonValue::Array(vec![]))]))])),
        FeedState::Okay
    );
    assert_eq!(
        feed_from_preflight(&obj(vec![(
            "data",
            obj(vec![("missing", JsonValue::Array(vec![JsonValue::Str("AAPL".into())]))]),
        )])),
        FeedState::Missing
    );
    assert_eq!(
        feed_from_preflight(&obj(vec![])),
        FeedState::Unknown
    );
}

#[test]
fn deploy_affordance_labels_and_danger() {
    let strategy = ResolveState::Strategy("strategies.gap.Reversion".to_string());

    let paper = deploy_affordance(&strategy, false, false);
    assert_eq!(paper.label, "Deploy (paper)");
    assert!(paper.enabled);
    assert!(!paper.danger);

    let live_ready = deploy_affordance(&strategy, true, false);
    assert_eq!(live_ready.label, "Deploy");
    assert!(live_ready.enabled);
    assert!(!live_ready.danger);

    let confirm = deploy_affordance(&strategy, true, true);
    assert_eq!(confirm.label, "Confirm live deploy");
    assert!(confirm.enabled);
    assert!(confirm.danger);

    let unresolved = deploy_affordance(&ResolveState::NotAStrategy, true, false);
    assert!(!unresolved.enabled);
    assert!(unresolved.tooltip.is_some());
}

#[test]
fn backtest_and_validate_enabled_only_when_strategy() {
    let strategy = ResolveState::Strategy("strategies.gap.Reversion".to_string());
    assert!(backtest_affordance(&strategy).enabled);
    assert!(validate_affordance(&strategy).enabled);

    for unresolved in [
        ResolveState::Resolving,
        ResolveState::NotAStrategy,
        ResolveState::EngineUnreachable,
    ] {
        let backtest = backtest_affordance(&unresolved);
        assert!(!backtest.enabled);
        assert!(backtest.tooltip.is_some());
        let validate = validate_affordance(&unresolved);
        assert!(!validate.enabled);
        assert!(validate.tooltip.is_some());
    }

    // EngineUnreachable and NotAStrategy carry distinct copy.
    assert_ne!(
        backtest_affordance(&ResolveState::EngineUnreachable).tooltip,
        backtest_affordance(&ResolveState::NotAStrategy).tooltip
    );
}

#[test]
fn unresolved_message_is_distinct_per_state() {
    let resolving = unresolved_message(&ResolveState::Resolving);
    let unreachable = unresolved_message(&ResolveState::EngineUnreachable);
    let not_a_strategy = unresolved_message(&ResolveState::NotAStrategy);
    assert_ne!(resolving, unreachable);
    assert_ne!(resolving, not_a_strategy);
    assert_ne!(unreachable, not_a_strategy);
}

#[test]
fn unreachable_banner_only_for_engine_unreachable() {
    assert!(show_unreachable_banner(&ResolveState::EngineUnreachable));
    assert!(!show_unreachable_banner(&ResolveState::NotAStrategy));
    assert!(!show_unreachable_banner(&ResolveState::Resolving));
    assert!(!show_unreachable_banner(&ResolveState::Strategy(
        "strategies.gap.Reversion".to_string()
    )));
}
