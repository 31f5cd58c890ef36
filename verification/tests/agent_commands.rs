use auracle::agent_commands::{broker_configured, route, AgentCommand, CommandRoute, RUN_BACKTEST};
use auracle::json::JsonValue;

fn caps(active: Option<&str>) -> JsonValue {
    let mut entries = Vec::new();
    if let Some(a) = active {
        entries.push(("active_broker".to_string(), JsonValue::Str(a.into())));
    }
    JsonValue::Object(entries)
}

#[test]
fn commands_name_their_prompts() {
    assert_eq!(AgentCommand::RunBacktest.title(), "Run backtest");
    assert_eq!(AgentCommand::RunBacktest.prompt(), RUN_BACKTEST);
    assert!(RUN_BACKTEST.starts_with("List the available strategies, ask me which one to test, then run"));
    assert_eq!(AgentCommand::WalkForward.title(), "Walk-forward test");
    assert!(AgentCommand::RunPreflight.needs_broker());
    assert!(AgentCommand::DraftManifest.needs_broker());
    assert!(!AgentCommand::ValidateManifest.needs_broker());
}

#[test]
fn deploy_commands_offer_the_wizard_without_a_broker() {
    let ibkr = caps(Some("ibkr"));
    assert!(broker_configured(Some("key"), Some(&ibkr)));
    assert!(!broker_configured(Some(" "), Some(&ibkr)));
    assert!(!broker_configured(None, Some(&ibkr)));
    assert!(!broker_configured(Some("key"), None));
    assert!(!broker_configured(Some("key"), Some(&caps(Some("  ")))));
    assert!(!broker_configured(Some("key"), Some(&caps(None))));
    assert_eq!(route(AgentCommand::RunPreflight, false), CommandRoute::OpenBrokerWizard);
    assert_eq!(route(AgentCommand::RunPreflight, true), CommandRoute::RunPrompt);
    assert_eq!(route(AgentCommand::IngestData, false), CommandRoute::RunPrompt);
}
