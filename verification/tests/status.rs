use auracle::json::JsonValue;
use auracle::status::{chip, engine_state_from, initial_state, DotTone, EngineState};

fn obj(entries: Vec<(&str, JsonValue)>) -> JsonValue {
    JsonValue::Object(entries.into_iter().map(|(k, v)| (k.to_string(), v)).collect())
}

#[test]
fn a_poll_never_claims_an_unseen_connection() {
    let reply = obj(vec![("active_broker", JsonValue::Str("ibkr".into()))]);
    assert_eq!(engine_state_from(None, Some(&reply)), EngineState::NotConnected);
    assert_eq!(engine_state_from(Some("  "), Some(&reply)), EngineState::NotConnected);
    assert_eq!(engine_state_from(Some("key"), None), EngineState::Unreachable);
    assert_eq!(
        engine_state_from(Some("key"), Some(&obj(vec![]))),
        EngineState::Connected { broker: "none yet".into(), live_allowed: false, capability_plain: String::new() }
    );
    assert_eq!(initial_state(true), EngineState::Checking);
    assert_eq!(initial_state(false), EngineState::NotConnected);
}

#[test]
fn the_active_brokers_sentence_wins() {
    let reply = obj(vec![
        ("active_broker", JsonValue::Str("ibkr".into())),
        ("live_allowed", JsonValue::Bool(true)),
        ("plain", JsonValue::Str("top".into())),
        (
            "brokers",
            JsonValue::Array(vec![
                obj(vec![("active", JsonValue::Bool(false)), ("plain", JsonValue::Str("idle".into()))]),
                obj(vec![("active", JsonValue::Bool(true)), ("plain", JsonValue::Str("ibkr can trade".into()))]),
            ]),
        ),
    ]);
    let state = engine_state_from(Some("key"), Some(&reply));
    assert_eq!(
        state,
        EngineState::Connected { broker: "ibkr".into(), live_allowed: true, capability_plain: "ibkr can trade".into() }
    );
    let (tone, text, tip) = chip(&state);
    assert_eq!(tone, DotTone::Success);
    assert_eq!(text, "engine: on · broker: ibkr · live ok");
    assert_eq!(tip, "ibkr can trade Real-money trading is allowed by your license — paper stays the default.");
    let fallback = obj(vec![("plain", JsonValue::Str("no broker yet".into())), ("brokers", JsonValue::Array(vec![]))]);
    match engine_state_from(Some("key"), Some(&fallback)) {
        EngineState::Connected { capability_plain, .. } => assert_eq!(capability_plain, "no broker yet"),
        other => panic!("unexpected {other:?}"),
    }
}

#[test]
fn chip_reads_each_state() {
    assert_eq!(chip(&EngineState::NotConnected).1, "engine: not connected");
    assert_eq!(chip(&EngineState::Checking).0, DotTone::Warning);
    assert_eq!(chip(&EngineState::Unreachable).0, DotTone::Error);
    let paper = EngineState::Connected { broker: "b".into(), live_allowed: false, capability_plain: String::new() };
    assert_eq!(
        chip(&paper),
        (
            DotTone::Success,
            "engine: on · broker: b · paper only".to_string(),
            "Real-money trading is not yet enabled on your license; paper trading works.".to_string()
        )
    );
}
