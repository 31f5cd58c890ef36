use auracle::ai_settings::{StatusTone, EngineDefaultStatus, ProviderDescriptor, AiProviderRow, derive_provider_rows, engine_default_summary};

fn provider(id: &str, display: &str, authenticated: bool) -> ProviderDescriptor {
    ProviderDescriptor {
        id: id.to_string(),
        display: display.to_string(),
        authenticated,
    }
}

fn three() -> Vec<ProviderDescriptor> {
    vec![
        provider("anthropic", "Anthropic", true),
        provider("openai", "OpenAI", false),
        provider("ollama", "Ollama", true),
    ]
}

// ── derive_provider_rows ──────────────────────────────────────────

#[test]
fn marks_only_the_matching_provider() {
    let rows = derive_provider_rows(&three(), Some("openai"));
    let marked: Vec<&str> = rows
        .iter()
        .filter(|row| row.is_engine_default)
        .map(|row| row.id.as_str())
        .collect();
    assert_eq!(marked, vec!["openai"]);
}

#[test]
fn duplicate_ids_mark_only_the_first() {
    let providers = vec![
        provider("anthropic", "Anthropic", true),
        provider("openai", "OpenAI", true),
        provider("openai", "OpenAI (dupe)", false),
    ];
    let rows = derive_provider_rows(&providers, Some("openai"));
    assert!(!rows[0].is_engine_default);
    assert!(rows[1].is_engine_default);
    assert!(
        !rows[2].is_engine_default,
        "a duplicate id must not yield a second default"
    );
}

#[test]
fn rows_preserve_order_and_fields() {
    let providers = vec![
        provider("anthropic", "Anthropic", true),
        provider("ollama", "Ollama", false),
    ];
    let rows = derive_provider_rows(&providers, None);
    assert_eq!(rows.len(), 2);
    assert_eq!(rows[0].id, "anthropic");
    assert_eq!(rows[0].display, "Anthropic");
    assert!(rows[0].authenticated);
    assert_eq!(rows[1].id, "ollama");
    assert!(!rows[1].authenticated);
}

#[test]
fn unknown_default_marks_nothing() {
    let rows = derive_provider_rows(&three(), Some("does-not-exist"));
    assert!(rows.iter().all(|row| !row.is_engine_default));
}

#[test]
fn no_default_marks_nothing() {
    let rows = derive_provider_rows(&three(), None);
    assert!(rows.iter().all(|row| !row.is_engine_default));
}

#[test]
fn empty_string_default_marks_nothing() {
    let rows = derive_provider_rows(&three(), Some(""));
    assert!(rows.iter().all(|row| !row.is_engine_default));
}

#[test]
fn whitespace_only_default_marks_nothing() {
    let rows = derive_provider_rows(&three(), Some("   "));
    assert!(rows.iter().all(|row| !row.is_engine_default));
}

#[test]
fn padded_default_matches_clean_id() {
    let rows = derive_provider_rows(&three(), Some("  openai  "));
    assert!(
        rows.iter()
            .any(|row| row.id == "openai" && row.is_engine_default)
    );
}

#[test]
fn padded_provider_id_matches_clean_default() {
    let providers = vec![provider("  openai  ", "OpenAI", false)];
    let rows = derive_provider_rows(&providers, Some("openai"));
    assert!(
        rows[0].is_engine_default,
        "a padded descriptor id must still match a clean default"
    );
}

#[test]
fn id_match_is_case_sensitive() {
    let rows = derive_provider_rows(&three(), Some("OpenAI"));
    assert!(
        rows.iter().all(|row| !row.is_engine_default),
        "a case-only difference names a different provider and must not mark"
    );
}

#[test]
fn empty_providers_yield_no_rows() {
    let rows = derive_provider_rows(&[], Some("anthropic"));
    assert!(rows.is_empty());
}

// ── engine_default_summary ────────────────────────────────────────

#[test]
fn no_matching_provider_means_no_default() {
    let status = engine_default_summary(&three(), None, Some("model-sonnet-4-6"), true);
    assert_eq!(status.label, "No engine default set");
    assert_eq!(status.detail, None);
    assert_eq!(status.tone, StatusTone::Neutral);
}

#[test]
fn default_absent_from_visible_list_invents_nothing() {
    // The engine names a default the visible list doesn't contain: the header
    // must not assert a model or key state the list can't corroborate.
    let providers = vec![provider("anthropic", "Anthropic", true)];
    let status = engine_default_summary(&providers, Some("openai"), Some("gpt-x"), true);
    assert_eq!(status.label, "No engine default set");
    assert_eq!(status.detail, None);
    assert_eq!(status.tone, StatusTone::Neutral);
}

#[test]
fn configured_default_is_positive_with_provider_and_model() {
    let status =
        engine_default_summary(&three(), Some("anthropic"), Some("model-sonnet-4-6"), true);
    assert_eq!(status.label, "Anthropic · model-sonnet-4-6");
    assert_eq!(status.detail.as_deref(), Some("Key configured"));
    assert_eq!(status.tone, StatusTone::Positive);
}

#[test]
fn default_without_key_is_caution() {
    let status = engine_default_summary(
        &three(),
        Some("anthropic"),
        Some("model-sonnet-4-6"),
        false,
    );
    assert_eq!(status.detail.as_deref(), Some("No key configured"));
    assert_eq!(status.tone, StatusTone::Caution);
}

#[test]
fn missing_model_shows_provider_only() {
    let status = engine_default_summary(&three(), Some("ollama"), None, true);
    assert_eq!(status.label, "Ollama");
    assert_eq!(status.tone, StatusTone::Positive);
}

#[test]
fn blank_model_is_omitted_from_label() {
    let status = engine_default_summary(&three(), Some("ollama"), Some("  "), true);
    assert_eq!(status.label, "Ollama");
}

#[test]
fn padded_provider_display_and_model_are_trimmed_in_label() {
    let providers = vec![provider("anthropic", "  Anthropic  ", true)];
    let status =
        engine_default_summary(&providers, Some("anthropic"), Some("  model-x  "), true);
    assert_eq!(status.label, "Anthropic · model-x");
}
