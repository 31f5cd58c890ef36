use auracle::connections::FieldMeta;
use auracle::connector_form::{default_selections, ConnectorForm, TestState};
use auracle::json::JsonValue;
use auracle::model_setup::Surface;

fn field(name: &str, kind: &str, options: &[&str]) -> FieldMeta {
    FieldMeta {
        name: name.into(),
        kind: kind.into(),
        options: options.iter().map(|o| o.to_string()).collect(),
        ..Default::default()
    }
}

fn fields() -> Vec<FieldMeta> {
    vec![
        field("api_key", "password", &[]),
        field("environment", "select", &["paper", "live"]),
        field("region", "select", &[]),
    ]
}

fn entries(body: &JsonValue) -> Vec<(String, String)> {
    match body {
        JsonValue::Object(es) => es
            .iter()
            .map(|(k, v)| match v {
                JsonValue::Str(s) => (k.clone(), s.clone()),
                _ => panic!("non-string entry"),
            })
            .collect(),
        _ => panic!("not an object"),
    }
}

#[test]
fn select_fields_start_on_their_first_option() {
    assert_eq!(default_selections(&fields()), vec![("environment".to_string(), "paper".to_string())]);
}

#[test]
fn opening_a_connector_drops_the_previous_form() {
    let mut form: ConnectorForm<u8> = ConnectorForm::new();
    form.open("alpaca");
    form.detail_loaded(fields(), Some(1));
    form.choose_option("environment", "live");
    assert!(form.fields_loaded);
    form.open("ibkr");
    assert_eq!(form.connector.as_deref(), Some("ibkr"));
    assert!(form.fields.is_empty());
    assert!(!form.fields_loaded);
    assert!(form.selections.is_empty());
    assert_eq!(form.capability, None);
    assert_eq!(form.test_state, TestState::Idle);
}

#[test]
fn the_body_sends_choices_and_typed_text() {
    let mut form: ConnectorForm<u8> = ConnectorForm::new();
    form.open("alpaca");
    form.detail_loaded(fields(), None);
    let texts = vec!["KEY".to_string(), String::new(), String::new()];
    assert_eq!(
        entries(&form.body(&texts)),
        vec![("api_key".to_string(), "KEY".to_string()), ("environment".to_string(), "paper".to_string())]
    );
    form.choose_option("environment", "live");
    assert_eq!(
        entries(&form.body(&[String::new()])),
        vec![("environment".to_string(), "live".to_string())]
    );
}

#[test]
fn requests_need_an_open_connector() {
    let mut form: ConnectorForm<u8> = ConnectorForm::new();
    assert_eq!(form.begin_request(), None);
    assert_eq!(form, ConnectorForm::new());
    form.open("alpaca");
    assert_eq!(form.begin_request().as_deref(), Some("alpaca"));
    assert_eq!(form.test_state, TestState::Working);
    form.close();
    assert_eq!(form.connector, None);
    assert_eq!(form.test_state, TestState::Idle);
}

#[test]
fn test_verdicts_are_the_engines() {
    let mut form: ConnectorForm<u8> = ConnectorForm::new();
    form.open("alpaca");
    form.begin_request();
    form.test_finished(Ok("Connected to Alpaca paper.".into()));
    assert_eq!(form.test_state, TestState::Verdict { ok: true, plain: "Connected to Alpaca paper.".into() });
    form.test_finished(Err("bad key"));
    assert_eq!(form.test_state, TestState::Verdict { ok: false, plain: "Couldn't connect: bad key.".into() });
    assert!(!form.saved);
}

#[test]
fn save_and_disconnect_report_and_signal_a_change() {
    let mut form: ConnectorForm<u8> = ConnectorForm::new();
    form.open("alpaca");
    assert!(!form.save_finished(Err("422"), Surface::SettingsPanel));
    assert!(!form.saved);
    assert_eq!(form.test_state, TestState::Verdict { ok: false, plain: "Couldn't save: 422.".into() });
    assert!(form.save_finished(Ok(()), Surface::SettingsPanel));
    assert!(form.saved);
    assert_eq!(form.test_state, TestState::Verdict { ok: true, plain: "Saved — this connection is set up.".into() });
    assert!(form.save_finished(Ok(()), Surface::Onboarding));
    assert_eq!(form.test_state, TestState::Verdict { ok: true, plain: "Saved — this broker is connected.".into() });
    assert!(!form.disconnect_finished(Err("timeout")));
    assert!(form.saved);
    assert_eq!(form.test_state, TestState::Verdict { ok: false, plain: "Couldn't disconnect: timeout.".into() });
    assert!(form.disconnect_finished(Ok(())));
    assert!(!form.saved);
    assert_eq!(form.test_state, TestState::Verdict { ok: true, plain: "Disconnected — credentials cleared.".into() });
}

use auracle::connections::{Capability, ConnStatus, Connector};
use auracle::connector_form::{broker_choices, elsewhere_text, field_label, BrokerPane, FieldInput, LineTint};

fn connector(id: &str, label: &str, state: &str) -> Connector {
    Connector {
        id: id.into(),
        display_label: label.into(),
        status: ConnStatus { state: state.into(), detail: None },
        test_supported: true,
        ..Default::default()
    }
}

fn capability(legs: &[(&str, &str)], kinds: &[&str]) -> Capability {
    Capability {
        capabilities: legs.iter().map(|(l, s)| (l.to_string(), s.to_string())).collect(),
        asset_kinds: kinds.iter().map(|k| k.to_string()).collect(),
        unsupported: Vec::new(),
        ok: true,
        reason: String::new(),
        error: None,
    }
}

#[test]
fn field_captions_say_saved_or_optional() {
    let mut f = field("api_key", "password", &[]);
    f.required = true;
    assert_eq!(field_label(&f, Surface::SettingsPanel), "api_key");
    f.label = "API key".into();
    f.has_value = true;
    assert_eq!(field_label(&f, Surface::SettingsPanel), "API key  (saved — leave blank to keep)");
    f.preview = "ab…cd".into();
    assert_eq!(field_label(&f, Surface::SettingsPanel), "API key  (saved: ab…cd — leave blank to keep)");
    // The wizard never shows the saved value's preview.
    assert_eq!(field_label(&f, Surface::Onboarding), "API key  (saved — leave blank to keep)");
    f.has_value = false;
    f.required = false;
    assert_eq!(field_label(&f, Surface::SettingsPanel), "API key  (optional)");
    assert_eq!(elsewhere_text(Surface::SettingsPanel), "Set this field from the launcher for now.");
    assert_eq!(elsewhere_text(Surface::Onboarding), "Set this field from the web console for now.");
}

#[test]
fn the_detail_pane_loads_then_shows_the_form() {
    let mut form: ConnectorForm<Capability> = ConnectorForm::new();
    let list = vec![connector("alpaca", "Alpaca", "not_configured")];
    form.open("alpaca");
    let d = form.detail("alpaca", &list);
    assert_eq!(d.title, "Alpaca");
    assert_eq!(d.notice, Some(("Loading…".to_string(), LineTint::Muted)));
    assert!(d.show_test && !d.show_connect && !d.show_disconnect);
    form.detail_loaded(fields(), Some(capability(&[("data", "yes"), ("paper", "no")], &["equity", "crypto"])));
    let d = form.detail("alpaca", &list);
    assert_eq!(d.notice, None);
    assert_eq!(d.fields.len(), 3);
    assert_eq!(d.fields[0].input, FieldInput::Editor(0));
    assert_eq!(
        d.fields[1].input,
        FieldInput::Select { options: vec!["paper".into(), "live".into()], selected: "paper".into() }
    );
    assert_eq!(
        d.chips,
        vec![
            ("data: yes".to_string(), LineTint::Success),
            ("paper: no".to_string(), LineTint::Muted),
            ("live: not verified yet".to_string(), LineTint::Warning),
        ]
    );
    assert_eq!(d.trades.as_deref(), Some("Trades: equity, crypto"));
    assert!(d.show_connect);
    form.begin_request();
    assert_eq!(form.detail("alpaca", &list).verdict, Some(("Working…".to_string(), LineTint::Muted)));
}

#[test]
fn a_connector_without_credentials_is_ready_without_a_connect_button() {
    let mut form: ConnectorForm<Capability> = ConnectorForm::new();
    let list = vec![connector("yfinance", "", "connected")];
    form.open("yfinance");
    form.detail_loaded(Vec::new(), None);
    let d = form.detail("yfinance", &list);
    assert_eq!(d.title, "yfinance");
    assert_eq!(
        d.notice,
        Some(("No credentials needed — this connector is ready to use.".to_string(), LineTint::Success))
    );
    assert!(!d.show_connect && d.show_disconnect);
    assert!(d.chips.is_empty() && d.trades.is_none());
}

#[test]
fn a_gated_connector_offers_no_dead_form_and_ibkr_warns_first() {
    let mut form: ConnectorForm<Capability> = ConnectorForm::new();
    let mut gated = connector("ibkr", "Interactive Brokers", "not_configured");
    gated.gated = true;
    form.open("ibkr");
    form.detail_loaded(fields(), None);
    let d = form.detail("ibkr", &[gated.clone()]);
    assert_eq!(d.gated.as_deref(), Some("Your plan doesn't include this connector. Upgrade to connect it."));
    assert!(d.fields.is_empty() && !d.show_connect && !d.show_test);
    gated.gated = false;
    let d = form.detail("ibkr", &[gated]);
    assert_eq!(
        d.setup_note.as_deref(),
        Some("IBKR needs the IB Gateway or Client Portal running and logged in before these credentials will verify.")
    );
    // An id the list doesn't know still titles the pane by its id.
    assert_eq!(form.detail("other", &[]).title, "other");
}

#[test]
fn the_wizard_chooses_a_broker_then_shows_its_form() {
    let mut form: ConnectorForm<Capability> = ConnectorForm::new();
    assert_eq!(form.broker_pane(&[]), BrokerPane::Choose { loading: true, choices: Vec::new() });
    let brokers = vec![connector("alpaca", "Alpaca", "connected"), connector("ibkr", "", "error")];
    assert_eq!(
        broker_choices(&brokers),
        vec![("alpaca".to_string(), "Alpaca".to_string(), true), ("ibkr".to_string(), "ibkr".to_string(), false)]
    );
    form.open("ibkr");
    match form.broker_pane(&brokers) {
        BrokerPane::Credentials { heading, setup_note, loading, fields } => {
            assert_eq!(heading, "Connect ibkr");
            assert!(setup_note.is_some());
            assert!(loading);
            assert!(fields.is_empty());
        }
        other => panic!("unexpected pane {:?}", other),
    }
    form.detail_loaded(fields(), None);
    match form.broker_pane(&brokers) {
        BrokerPane::Credentials { loading, fields, .. } => {
            assert!(!loading);
            assert_eq!(fields.len(), 3);
        }
        other => panic!("unexpected pane {:?}", other),
    }
    assert_eq!(form.verdict_line(), None);
    // "Pick another broker" returns to the chooser.
    form.close();
    assert!(matches!(form.broker_pane(&brokers), BrokerPane::Choose { loading: false, .. }));
}
