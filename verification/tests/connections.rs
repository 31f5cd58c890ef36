use auracle::connections::{
    ai_key_from, brand_monogram, brand_rgb, broker_logo_path, connections_path, csrf_from_cookie, default_expanded,
    section_summary, test_result, ConnStatus, Connector, MAX_FIELDS,
};
use auracle::json::JsonValue;

fn conn(state: &str) -> Connector {
    Connector { status: ConnStatus { state: state.into(), detail: None }, ..Default::default() }
}

fn object(entries: &[(&str, JsonValue)]) -> JsonValue {
    JsonValue::Object(entries.iter().map(|(k, v)| (k.to_string(), clone_value(v))).collect())
}

fn clone_value(v: &JsonValue) -> JsonValue {
    match v {
        JsonValue::Null => JsonValue::Null,
        JsonValue::Bool(b) => JsonValue::Bool(*b),
        JsonValue::Number(n) => JsonValue::Number(n.clone()),
        JsonValue::Str(s) => JsonValue::Str(s.clone()),
        JsonValue::Array(items) => JsonValue::Array(items.iter().map(clone_value).collect()),
        JsonValue::Object(entries) => {
            JsonValue::Object(entries.iter().map(|(k, v)| (k.clone(), clone_value(v))).collect())
        }
    }
}

#[test]
fn is_connected_only_on_connected_state() {
    assert!(ConnStatus { state: "connected".into(), detail: None }.is_connected());
    for state in ["not_configured", "error", "disconnected", "degraded", ""] {
        assert!(
            !ConnStatus { state: state.into(), detail: None }.is_connected(),
            "state {state:?} must not read as connected"
        );
    }
}

#[test]
fn section_summary_is_honest_about_counts() {
    assert_eq!(section_summary(&[]), "None available");
    assert_eq!(section_summary(&[conn("not_configured"), conn("error")]), "None connected");
    assert_eq!(section_summary(&[conn("connected")]), "Connected");
    assert_eq!(section_summary(&[conn("connected"), conn("connected")]), "All 2 connected");
    assert_eq!(section_summary(&[conn("connected"), conn("not_configured")]), "1 of 2 connected");
}

#[test]
fn default_expanded_opens_only_when_nothing_connected() {
    assert!(!default_expanded(&[]));
    assert!(default_expanded(&[conn("not_configured")]));
    assert!(!default_expanded(&[conn("connected")]));
    assert!(!default_expanded(&[conn("connected"), conn("not_configured")]));
}

#[test]
fn paths_logos_and_marks() {
    assert_eq!(connections_path(""), "/ui/api/connections");
    assert_eq!(connections_path("broker"), "/ui/api/connections?kind=broker");
    assert_eq!(broker_logo_path("ibkr_cp"), Some("icons/brokers/interactive-brokers.svg"));
    assert_eq!(broker_logo_path("alpaca"), Some("icons/brokers/alpaca.svg"));
    assert_eq!(broker_logo_path("polygon"), None);
    assert_eq!(brand_rgb("polygon"), 0x5B3DF5);
    assert_eq!(brand_rgb("other"), 0x6B7280);
    assert_eq!(brand_monogram("clearstreet", "Clear Street"), "CS");
    assert_eq!(brand_monogram("tradier", "tr-adier"), "TR");
    assert_eq!(brand_monogram("x9", ""), "X9");
    assert_eq!(brand_monogram("--", "!!"), "?");
    assert_eq!(MAX_FIELDS, 10);
}

#[test]
fn test_replies_are_read_honestly() {
    let ok = object(&[("ok", JsonValue::Bool(true)), ("message", JsonValue::Str("fine".into()))]);
    assert_eq!(test_result(&ok), Ok("fine".to_string()));
    let bare_ok = object(&[("ok", JsonValue::Bool(true))]);
    assert_eq!(test_result(&bare_ok), Ok("Connected — the engine accepted these credentials.".to_string()));
    let refused = object(&[("ok", JsonValue::Str("true".into()))]);
    assert_eq!(test_result(&refused), Err("the engine did not accept these credentials".to_string()));
    let said_no = object(&[("ok", JsonValue::Bool(false)), ("message", JsonValue::Str("bad key".into()))]);
    assert_eq!(test_result(&said_no), Err("bad key".to_string()));
}

#[test]
fn csrf_cookie_and_ai_key_replies() {
    assert_eq!(csrf_from_cookie("auracle_csrf=abc; Path=/"), Some("abc".to_string()));
    assert_eq!(csrf_from_cookie("auracle_csrf="), Some(String::new()));
    assert_eq!(csrf_from_cookie("session=1"), None);
    let reply = object(&[("key", JsonValue::Str("sk".into()))]);
    assert_eq!(ai_key_from(&reply, "anthropic"), Some(("anthropic".to_string(), "sk".to_string())));
    let named = object(&[("provider", JsonValue::Str("openai".into())), ("key", JsonValue::Str("k".into()))]);
    assert_eq!(ai_key_from(&named, "anthropic"), Some(("openai".to_string(), "k".to_string())));
    assert_eq!(ai_key_from(&object(&[]), "anthropic"), None);
}
