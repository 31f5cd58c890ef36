use auracle::system_prompt::{RuleTone, RuleSource, RuleRow, PromptStoreFacts, RulesFacts, derive_rows};

fn store(loaded: bool, rule_count: usize, has_default: bool) -> PromptStoreFacts {
    PromptStoreFacts {
        loaded,
        rule_count,
        has_default,
    }
}

fn facts() -> RulesFacts {
    RulesFacts {
        global_file_exists: true,
        has_project_worktree: false,
        project_file_exists: false,
        prompt_store: store(true, 0, false),
    }
}

fn row(rows: &[RuleRow], source: RuleSource) -> &RuleRow {
    rows.iter()
        .find(|row| row.source == source)
        .expect("expected a row for the source")
}

#[test]
fn no_worktree_omits_the_project_row_but_keeps_the_others() {
    let rows = derive_rows(facts());
    assert_eq!(rows.len(), 2);
    assert_eq!(rows[0].source, RuleSource::GlobalAgentsFile);
    assert_eq!(rows[1].source, RuleSource::PromptStore);
    assert!(
        rows.iter()
            .all(|row| row.source != RuleSource::ProjectAgentsFile)
    );
}

#[test]
fn worktree_inserts_the_project_row_between_global_and_store() {
    let rows = derive_rows(RulesFacts {
        has_project_worktree: true,
        ..facts()
    });
    assert_eq!(rows.len(), 3);
    assert_eq!(rows[0].source, RuleSource::GlobalAgentsFile);
    assert_eq!(rows[1].source, RuleSource::ProjectAgentsFile);
    assert_eq!(rows[2].source, RuleSource::PromptStore);
}

#[test]
fn an_existing_file_reads_as_active() {
    let rows = derive_rows(RulesFacts {
        global_file_exists: true,
        ..facts()
    });
    let global = row(&rows, RuleSource::GlobalAgentsFile);
    assert_eq!(global.status, "In effect");
    assert_eq!(global.tone, RuleTone::Active);
}

#[test]
fn a_missing_file_says_it_will_be_created_and_is_still_openable() {
    let rows = derive_rows(RulesFacts {
        global_file_exists: false,
        ..facts()
    });
    let global = row(&rows, RuleSource::GlobalAgentsFile);
    assert_eq!(
        global.status,
        "Not created yet — opening it creates the file"
    );
    assert_eq!(global.tone, RuleTone::Neutral);
    assert!(
        global.openable,
        "a missing rules file must still be openable so it can be created"
    );
}

#[test]
fn file_rows_are_always_openable() {
    let rows = derive_rows(RulesFacts {
        has_project_worktree: true,
        global_file_exists: false,
        project_file_exists: false,
        ..facts()
    });
    assert!(row(&rows, RuleSource::GlobalAgentsFile).openable);
    assert!(row(&rows, RuleSource::ProjectAgentsFile).openable);
}

#[test]
fn an_unloaded_store_is_honest_and_not_openable() {
    let rows = derive_rows(RulesFacts {
        prompt_store: store(false, 0, false),
        ..facts()
    });
    let store_row = row(&rows, RuleSource::PromptStore);
    assert_eq!(store_row.status, "Rules library unavailable");
    assert_eq!(store_row.tone, RuleTone::Neutral);
    assert!(
        !store_row.openable,
        "an unloaded store has nothing honest to open"
    );
}

#[test]
fn an_unloaded_store_never_claims_a_count_even_if_one_is_supplied() {
    // A stale count must not leak through when the store hasn't loaded.
    let rows = derive_rows(RulesFacts {
        prompt_store: store(false, 9, true),
        ..facts()
    });
    let store_row = row(&rows, RuleSource::PromptStore);
    assert_eq!(store_row.status, "Rules library unavailable");
    assert!(!store_row.openable);
}

#[test]
fn a_loaded_empty_store_says_so_and_is_openable() {
    let rows = derive_rows(RulesFacts {
        prompt_store: store(true, 0, false),
        ..facts()
    });
    let store_row = row(&rows, RuleSource::PromptStore);
    assert_eq!(store_row.status, "No reusable rules yet");
    assert_eq!(store_row.tone, RuleTone::Neutral);
    assert!(store_row.openable);
}

#[test]
fn a_single_rule_is_not_pluralised() {
    let rows = derive_rows(RulesFacts {
        prompt_store: store(true, 1, false),
        ..facts()
    });
    assert_eq!(
        row(&rows, RuleSource::PromptStore).status,
        "1 reusable rule"
    );
}

#[test]
fn many_rules_are_pluralised() {
    let rows = derive_rows(RulesFacts {
        prompt_store: store(true, 4, false),
        ..facts()
    });
    assert_eq!(
        row(&rows, RuleSource::PromptStore).status,
        "4 reusable rules"
    );
}

#[test]
fn a_designated_default_is_appended_and_marks_the_row_active() {
    let rows = derive_rows(RulesFacts {
        prompt_store: store(true, 3, true),
        ..facts()
    });
    let store_row = row(&rows, RuleSource::PromptStore);
    assert_eq!(store_row.status, "3 reusable rules · default set");
    assert_eq!(store_row.tone, RuleTone::Active);
}

#[test]
fn an_empty_store_with_a_default_still_notes_the_default() {
    let rows = derive_rows(RulesFacts {
        prompt_store: store(true, 0, true),
        ..facts()
    });
    assert_eq!(
        row(&rows, RuleSource::PromptStore).status,
        "No reusable rules yet · default set"
    );
}
