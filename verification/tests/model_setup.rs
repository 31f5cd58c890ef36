use auracle::ai_settings::ProviderDescriptor;
use auracle::connections::{ConnStatus, Connector};
use auracle::model_setup::{
    any_broker_connected, any_provider_ready, choose_default_model, configure_heading, find_provider, provider_buttons, first_seedable, import_provider_id,
    model_set_text,
    raise_first_run_banner, refusal_text, seed_candidate_order, seed_model, ModelRefusal, ProviderOffer, Surface,
    ANTHROPIC_PROVIDER_ID, ZED_CLOUD_PROVIDER_ID,
};

fn offer(id: &str, name: &str, authenticated: bool, default: Option<&str>, recommended: &[&str], provided: &[&str]) -> ProviderOffer {
    ProviderOffer {
        id: id.to_string(),
        name: name.to_string(),
        authenticated,
        default_model: default.map(|m| m.to_string()),
        recommended: recommended.iter().map(|m| m.to_string()).collect(),
        provided: provided.iter().map(|m| m.to_string()).collect(),
    }
}

fn ids(list: &[&str]) -> Vec<String> {
    list.iter().map(|s| s.to_string()).collect()
}

#[test]
fn provider_ids_are_the_registry_ones() {
    assert_eq!(ZED_CLOUD_PROVIDER_ID, "zed.dev");
    assert_eq!(ANTHROPIC_PROVIDER_ID, "anthropic");
}

#[test]
fn seed_model_falls_back_default_then_recommended_then_provided() {
    assert_eq!(seed_model(&offer("a", "A", true, Some("d"), &["r"], &["p"])).as_deref(), Some("d"));
    assert_eq!(seed_model(&offer("a", "A", true, None, &["r1", "r2"], &["p"])).as_deref(), Some("r1"));
    assert_eq!(seed_model(&offer("a", "A", true, None, &[], &["p1", "p2"])).as_deref(), Some("p1"));
    assert_eq!(seed_model(&offer("a", "A", true, None, &[], &[])), None);
}

#[test]
fn set_default_refuses_in_order() {
    let providers = vec![
        offer("openai", "OpenAI", false, Some("gpt"), &[], &["gpt"]),
        offer("anthropic", "Anthropic", true, None, &["sonnet"], &["sonnet", "haiku"]),
        offer("empty", "Empty", true, None, &[], &[]),
    ];
    assert_eq!(choose_default_model(None, &providers, "", true), Err(ModelRefusal::NoProvider));
    assert_eq!(choose_default_model(Some("Gone"), &providers, "", true), Err(ModelRefusal::ProviderGone));
    assert_eq!(choose_default_model(Some("OpenAI"), &providers, "", true), Err(ModelRefusal::NoKey));
    assert_eq!(choose_default_model(Some("Anthropic"), &providers, "opus", true), Err(ModelRefusal::NoSuchModel));
    assert_eq!(choose_default_model(Some("Empty"), &providers, "", true), Err(ModelRefusal::NoSuchModel));
    assert_eq!(choose_default_model(Some("Anthropic"), &providers, "", false), Err(ModelRefusal::NoSettingsFile));
}

#[test]
fn set_default_picks_the_typed_or_fallback_model() {
    let providers = vec![
        offer("openai", "OpenAI", false, Some("gpt"), &[], &["gpt"]),
        offer("anthropic", "Anthropic", true, None, &["sonnet"], &["sonnet", "haiku"]),
    ];
    assert_eq!(choose_default_model(Some("Anthropic"), &providers, "", true), Ok((1, "sonnet".to_string())));
    assert_eq!(choose_default_model(Some("Anthropic"), &providers, "haiku", true), Ok((1, "haiku".to_string())));
}

#[test]
fn refusal_wording_per_surface() {
    assert_eq!(refusal_text(ModelRefusal::NoProvider, Surface::SettingsPanel), "Pick a provider first.");
    assert_eq!(refusal_text(ModelRefusal::ProviderGone, Surface::Onboarding), "That provider is no longer available.");
    assert_eq!(
        refusal_text(ModelRefusal::NoKey, Surface::SettingsPanel),
        "Add this provider's API key to use the shared default."
    );
    assert_eq!(refusal_text(ModelRefusal::NoKey, Surface::Onboarding), "Add and confirm an API key above first.");
    assert_eq!(
        refusal_text(ModelRefusal::NoSuchModel, Surface::Onboarding),
        "Couldn't find that model for this provider."
    );
    assert_eq!(refusal_text(ModelRefusal::NoSettingsFile, Surface::SettingsPanel), "Couldn't reach the settings file.");
    assert_eq!(model_set_text("Anthropic", "sonnet"), "Default model set to Anthropic · sonnet.");
}

#[test]
fn seed_order_drops_the_cloud_and_puts_anthropic_first() {
    let list = ids(&["openai", "zed.dev", "google", "anthropic"]);
    assert_eq!(seed_candidate_order(&list, None), vec![3, 0, 2]);
}

#[test]
fn seed_order_puts_the_engine_choice_first() {
    let list = ids(&["openai", "zed.dev", "auracle-agent", "anthropic"]);
    assert_eq!(seed_candidate_order(&list, Some("auracle-agent")), vec![2, 3, 0]);
    // A preference the registry does not list leaves the Anthropic-first order.
    assert_eq!(seed_candidate_order(&list, Some("missing")), vec![3, 0, 2]);
    // Preferring Anthropic itself keeps it first.
    assert_eq!(seed_candidate_order(&list, Some("anthropic")), vec![3, 0, 2]);
}

#[test]
fn seed_picks_a_provider_whose_key_loaded() {
    let candidates = vec![
        offer("anthropic", "Deferred", true, Some("model-seed"), &[], &["model-seed"]),
    ];
    assert_eq!(first_seedable(&candidates), Some((0, "model-seed".to_string())));
}

#[test]
fn seed_skips_provider_without_key() {
    let candidates = vec![
        offer("anthropic", "Deferred", false, Some("model-seed"), &[], &["model-seed"]),
        offer("openai", "OpenAI", true, None, &[], &[]),
        offer("google", "Google", true, None, &["gem"], &["gem"]),
    ];
    assert_eq!(first_seedable(&candidates), Some((2, "gem".to_string())));
    assert_eq!(first_seedable(&candidates[..2]), None);
}

fn broker(state: &str) -> Connector {
    let mut c = Connector::default();
    c.status = ConnStatus { state: state.to_string(), detail: None };
    c
}

#[test]
fn first_run_banner_only_on_a_cold_start() {
    assert!(!any_broker_connected(None));
    assert!(!any_broker_connected(Some(&[broker("not_configured"), broker("error")])));
    assert!(any_broker_connected(Some(&[broker("not_configured"), broker("connected")])));

    let cloud = ProviderDescriptor { id: "zed.dev".into(), display: "Zed".into(), authenticated: true };
    let openai = ProviderDescriptor { id: "openai".into(), display: "OpenAI".into(), authenticated: false };
    assert!(!any_provider_ready(&[cloud.clone(), openai.clone()]));
    let ready = ProviderDescriptor { authenticated: true, ..openai };
    assert!(any_provider_ready(&[cloud, ready]));

    assert!(raise_first_run_banner(false, false, false, false));
    assert!(!raise_first_run_banner(true, false, false, false));
    assert!(!raise_first_run_banner(false, true, false, false));
    assert!(!raise_first_run_banner(false, false, true, false));
    assert!(!raise_first_run_banner(false, false, false, true));
}

#[test]
fn the_engine_key_import_targets_a_visible_provider() {
    assert_eq!(import_provider_id(Some("  anthropic ")).as_deref(), Some("anthropic"));
    assert_eq!(import_provider_id(Some("   ")), None);
    assert_eq!(import_provider_id(None), None);
    let providers = vec![
        ProviderDescriptor { id: "zed.dev".into(), display: "Zed".into(), authenticated: false },
        ProviderDescriptor { id: "openai".into(), display: "OpenAI".into(), authenticated: false },
        ProviderDescriptor { id: "anthropic".into(), display: "Anthropic".into(), authenticated: true },
    ];
    assert_eq!(find_provider(&providers, "anthropic"), Some(2));
    assert_eq!(find_provider(&providers, "zed.dev"), None);
    assert_eq!(find_provider(&providers, "google"), None);
}

#[test]
fn the_picker_hides_the_cloud_and_checks_ready_providers() {
    let providers = vec![
        ProviderDescriptor { id: "zed.dev".into(), display: "Zed".into(), authenticated: true },
        ProviderDescriptor { id: "anthropic".into(), display: "Anthropic".into(), authenticated: true },
        ProviderDescriptor { id: "openai".into(), display: "OpenAI".into(), authenticated: false },
    ];
    assert_eq!(
        provider_buttons(&providers, Some("OpenAI")),
        vec![("Anthropic ✓".to_string(), false), ("OpenAI".to_string(), true)]
    );
    assert_eq!(provider_buttons(&providers, None).len(), 2);
    assert_eq!(configure_heading("OpenAI"), "Configure OpenAI");
}
