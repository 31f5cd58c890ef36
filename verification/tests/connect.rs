use auracle::connect::{
    auto_connect_on_launch, base_url, connect_check_text, connect_verdict, effective_config, has_usable_key, key_refused,
    typed_config, AuracleConfig, LOCAL_ENGINE_URL,
};
use auracle::json::JsonValue;

fn obj(entries: Vec<(&str, JsonValue)>) -> JsonValue {
    JsonValue::Object(entries.into_iter().map(|(k, v)| (k.to_string(), v)).collect())
}

#[test]
fn environment_overrides_the_file_and_the_address_defaults() {
    let file = AuracleConfig { engine_url: Some("http://box:1".into()), api_key: Some("k1".into()) };
    let c = effective_config(Some(file.clone()), None, None);
    assert_eq!(c, file);
    let c = effective_config(Some(file), Some("http://env:2".into()), Some("k2".into()));
    assert_eq!(c.engine_url.as_deref(), Some("http://env:2"));
    assert_eq!(c.api_key.as_deref(), Some("k2"));
    let c = effective_config(None, None, None);
    assert_eq!(c.engine_url.as_deref(), Some(LOCAL_ENGINE_URL));
    assert_eq!(c.api_key, None);
    assert_eq!(base_url(&AuracleConfig::default()), "http://127.0.0.1:1969");
}

#[test]
fn only_a_non_blank_key_is_usable() {
    assert!(has_usable_key(&AuracleConfig { engine_url: None, api_key: Some("k".into()) }));
    assert!(!has_usable_key(&AuracleConfig { engine_url: None, api_key: Some("  ".into()) }));
    assert!(!has_usable_key(&AuracleConfig::default()));
    assert!(key_refused(401) && key_refused(302) && !key_refused(200));
}

#[test]
fn connect_check_reports_both_legs() {
    let up = obj(vec![
        ("engine", obj(vec![("version", JsonValue::Str("1.2".into()))])),
        ("active_broker", JsonValue::Str("ibkr".into())),
        ("agent", obj(vec![("reachable", JsonValue::Bool(true))])),
    ]);
    assert_eq!(
        connect_check_text(&up),
        "Connected — engine v1.2 is up and your key works (active broker: ibkr). Your AI agent is reachable."
    );
    assert_eq!(
        connect_check_text(&obj(vec![])),
        "Connected — engine vunknown is up and your key works (active broker: none yet). Note: the AI agent isn't reachable yet (the engine couldn't reach the MCP agent server)."
    );
    let detail = obj(vec![("agent", obj(vec![("detail", JsonValue::Str("port 7 closed".into()))]))]);
    assert!(connect_check_text(&detail).ends_with("(port 7 closed)."));
}

#[test]
fn launch_verifies_only_a_saved_key() {
    assert!(!auto_connect_on_launch(&AuracleConfig::default()));
    assert!(!auto_connect_on_launch(&typed_config("http://x", "")));
    assert!(auto_connect_on_launch(&typed_config("http://x", "k")));
}

#[test]
fn the_connect_dialog_reports_both_outcomes() {
    assert_eq!(connect_verdict(Ok("Connected — engine v1 is up.".into())), (true, "Connected — engine v1 is up.".to_string()));
    assert_eq!(
        connect_verdict(Err("connection refused")),
        (
            false,
            "Couldn't connect: connection refused. Check the address, the key, and that your engine is running.".to_string()
        )
    );
    let c = typed_config("http://127.0.0.1:1969", "secret");
    assert_eq!(c.engine_url.as_deref(), Some("http://127.0.0.1:1969"));
    assert_eq!(c.api_key.as_deref(), Some("secret"));
}
