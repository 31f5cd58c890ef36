use auracle::connections::FieldMeta;
use auracle::json::JsonValue;
use auracle::onboarding::{
    credentials_body, credentials_entries, skip_label, step_caption, step_markers, step_tone, Landed, Step, StepTone,
};

fn field(name: &str, kind: &str) -> FieldMeta {
    FieldMeta { name: name.into(), kind: kind.into(), ..Default::default() }
}

#[test]
fn steps_read_honestly() {
    assert_eq!(Step::Model.index(), 2);
    assert_eq!(Step::GitHub.label(), "3 GitHub");
    assert_eq!(step_caption(Step::Broker), "Step 1 of 3");
    assert_eq!(step_tone(true, false), StepTone::Accent);
    assert_eq!(step_tone(false, true), StepTone::Success);
    assert_eq!(step_tone(false, false), StepTone::Muted, "clicking past a step is not landing it");
}

#[test]
fn the_form_sends_only_what_was_entered() {
    let fields = vec![field("key", "secret"), field("region", "select"), field("account", "text"), field("extra", "text")];
    let selections = vec![("region".to_string(), "us".to_string()), ("other".to_string(), "x".to_string())];
    let texts = vec!["sk-1".to_string(), String::new(), String::new()];
    assert_eq!(
        credentials_entries(&fields, &selections, &texts),
        vec![("key".to_string(), "sk-1".to_string()), ("region".to_string(), "us".to_string())]
    );
    let body = credentials_body(&fields, &[], &texts);
    assert_eq!(body, JsonValue::Object(vec![("key".to_string(), JsonValue::Str("sk-1".into()))]));
}

#[test]
fn next_and_back_walk_the_three_steps() {
    assert_eq!(Step::Broker.next(), Step::Model);
    assert_eq!(Step::Model.next(), Step::GitHub);
    assert_eq!(Step::GitHub.next(), Step::GitHub);
    assert_eq!(Step::GitHub.back(), Step::Model);
    assert_eq!(Step::Model.back(), Step::Broker);
    assert_eq!(Step::Broker.back(), Step::Broker);
    for s in [Step::Broker, Step::Model] {
        assert_eq!(s.next().back(), s);
    }
    assert!(Step::GitHub.is_last() && !Step::Model.is_last());
    assert!(!Step::Broker.has_back() && Step::GitHub.has_back());
    assert_eq!(skip_label(Step::GitHub), "Skip");
    assert_eq!(skip_label(Step::Broker), "Skip for now");
}

#[test]
fn markers_turn_green_only_when_setup_landed() {
    let landed = Landed { broker_saved: true, model_configured: false, git_identity_saved: false };
    assert_eq!(
        step_markers(Step::Model, landed),
        vec![("1 Broker", StepTone::Success), ("2 AI model", StepTone::Accent), ("3 GitHub", StepTone::Muted)]
    );
    let nothing = Landed { broker_saved: false, model_configured: false, git_identity_saved: false };
    assert_eq!(
        step_markers(Step::GitHub, nothing),
        vec![("1 Broker", StepTone::Muted), ("2 AI model", StepTone::Muted), ("3 GitHub", StepTone::Accent)]
    );
}
