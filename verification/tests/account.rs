use auracle::account::{license_summary, personal_settings, LicenseSummary, LicenseTone};

#[test]
fn community_reads_as_community() {
    let summary = license_summary("community", None);
    assert_eq!(
        summary,
        LicenseSummary {
            label: "Community".into(),
            detail: None,
            tone: LicenseTone::Neutral,
        }
    );
}

#[test]
fn perpetual_never_expires() {
    let summary = license_summary("perpetual", None);
    assert_eq!(
        summary,
        LicenseSummary {
            label: "Perpetual".into(),
            detail: Some("Never expires".into()),
            tone: LicenseTone::Positive,
        }
    );
}

#[test]
fn active_shows_days_remaining() {
    let summary = license_summary("active", Some(42));
    assert_eq!(
        summary,
        LicenseSummary {
            label: "Active".into(),
            detail: Some("42 days left".into()),
            tone: LicenseTone::Positive,
        }
    );
}

#[test]
fn active_with_one_day_is_singular() {
    let summary = license_summary("active", Some(1));
    assert_eq!(summary.detail, Some("1 day left".into()));
}

#[test]
fn active_expiring_today_reads_plainly_and_cautions() {
    let summary = license_summary("active", Some(0));
    assert_eq!(
        summary,
        LicenseSummary {
            label: "Active".into(),
            detail: Some("Expires today".into()),
            tone: LicenseTone::Caution,
        }
    );
}

#[test]
fn expired_reads_as_expired_and_negative() {
    let summary = license_summary("expired", None);
    assert_eq!(
        summary,
        LicenseSummary {
            label: "Expired".into(),
            detail: Some("Renew to restore access".into()),
            tone: LicenseTone::Negative,
        }
    );
}

#[test]
fn an_unrecognised_status_reads_as_unknown_not_fabricated() {
    let summary = license_summary("some_new_engine_status", None);
    assert_eq!(
        summary,
        LicenseSummary {
            label: "Unknown".into(),
            detail: None,
            tone: LicenseTone::Neutral,
        }
    );
}

#[test]
fn personal_settings_target_real_editable_paths() {
    let settings = personal_settings();
    let paths: Vec<&str> = settings.iter().map(|s| s.target_json_path).collect();
    assert_eq!(paths, vec!["theme$", "buffer_font_size", "base_keymap"]);
    for setting in settings {
        assert!(!setting.title.is_empty());
        assert!(!setting.description.is_empty());
        assert!(!setting.target_json_path.is_empty());
    }
}

#[test]
fn personal_settings_have_distinct_targets() {
    let settings = personal_settings();
    for (i, a) in settings.iter().enumerate() {
        for b in settings.iter().skip(i + 1) {
            assert_ne!(a.target_json_path, b.target_json_path);
        }
    }
}

#[test]
fn active_without_a_day_count_invents_no_number() {
    let summary = license_summary("active", None);
    assert_eq!(summary.label, "Active");
    assert_eq!(summary.detail, None);
}

#[test]
fn negative_day_count_is_rendered_with_its_sign() {
    let summary = license_summary("active", Some(-3));
    assert_eq!(summary.detail, Some("-3 days left".into()));
    assert_eq!(summary.tone, LicenseTone::Positive);
}
