use auracle::qc_import::{
    join_python_source, mapped_modules, notes_line, unmapped_warning, CoverageReport, FilesFetch, ImportState, ProjectsFetch,
    QcProject, StatCell, TranslateFetch,
};

fn report(style: &str, coverage: f64, mapped: &[&str], unmapped: &[&str]) -> CoverageReport {
    CoverageReport {
        style: style.to_string(),
        coverage_pct: (coverage * 100.0).floor() as i64,
        mapped: mapped.iter().map(|s| s.to_string()).collect(),
        unmapped: unmapped.iter().map(|s| s.to_string()).collect(),
        notes: Vec::new(),
    }
}

#[test]
fn browsing_starts_connected_and_loading() {
    let state = ImportState::browsing();
    assert!(state.connected);
    assert!(state.show_skeleton());
    assert!(state.projects.is_empty());
}

#[test]
fn disconnected_is_honest_empty_not_loading() {
    let state = ImportState::disconnected();
    assert!(!state.connected);
    assert!(!state.show_skeleton());
}

#[test]
fn set_projects_stops_skeleton_and_populates() {
    let mut state = ImportState::browsing();
    state.set_projects(vec![QcProject { id: 7, name: "Momentum".to_string() }]);
    assert!(!state.show_skeleton());
    assert_eq!(state.projects.len(), 1);
}

#[test]
fn select_clears_stale_coverage() {
    let mut state = ImportState::browsing();
    state.set_coverage(report("framework", 1.0, &["AlphaModule"], &[]));
    state.select_project(7);
    assert_eq!(state.selected, Some(7));
    assert!(state.coverage.is_none());
}

#[test]
fn translate_requires_a_selection() {
    let mut state = ImportState::browsing();
    state.set_projects(vec![]);
    assert!(!state.begin_translate()); // nothing selected -> no-op
    assert!(!state.show_skeleton());
    state.select_project(7);
    assert!(state.begin_translate());
    assert!(state.show_skeleton());
}

#[test]
fn can_translate_only_with_selection_and_idle() {
    let mut state = ImportState::browsing();
    state.set_projects(vec![]);
    assert!(!state.can_translate()); // no selection, still loading
    state.select_project(7);
    assert!(state.can_translate());
    state.begin_translate();
    assert!(!state.can_translate()); // in flight
}

#[test]
fn coverage_stats_reports_given_percentage_and_counts() {
    let mut state = ImportState::browsing();
    state.select_project(7);
    state.set_coverage(report("framework", 0.75, &["AlphaModule", "PortfolioModule"], &["CustomThing"]));
    let stats = state.coverage_stats();
    assert!(stats.contains(&StatCell { label: "Coverage".to_string(), value: "75%".to_string() }));
    assert!(stats.contains(&StatCell { label: "Mapped".to_string(), value: "2".to_string() }));
    assert!(stats.contains(&StatCell { label: "Unmapped".to_string(), value: "1".to_string() }));
}

#[test]
fn coverage_stats_empty_without_report() {
    assert!(ImportState::browsing().coverage_stats().is_empty());
}

#[test]
fn fail_surfaces_error_and_stops_skeleton() {
    let mut state = ImportState::browsing();
    state.fail("engine unreachable");
    assert!(!state.show_skeleton());
    assert_eq!(state.error.as_deref(), Some("engine unreachable"));
}

#[test]
fn coverage_stats_are_in_grid_order() {
    let mut state = ImportState::default();
    state.set_coverage(report("qcalgorithm", 0.333, &[], &["A", "B"]));
    let labels: Vec<_> = state.coverage_stats().into_iter().map(|c| (c.label, c.value)).collect();
    assert_eq!(
        labels,
        vec![
            ("Style".to_string(), "qcalgorithm".to_string()),
            ("Coverage".to_string(), "33%".to_string()),
            ("Mapped".to_string(), "0".to_string()),
            ("Unmapped".to_string(), "2".to_string()),
        ]
    );
}

#[test]
fn python_source_and_mapped_modules() {
    let files = vec![
        ("main.py".to_string(), "a = 1".to_string()),
        ("README.md".to_string(), "# hi".to_string()),
        ("alpha.py".to_string(), "b = 2".to_string()),
    ];
    assert_eq!(join_python_source(&files), "a = 1\n\nb = 2");
    assert_eq!(join_python_source(&[]), "");
    let modules = vec!["AlphaModule".to_string(), String::new(), "RiskModule".to_string()];
    assert_eq!(mapped_modules(&modules), vec!["AlphaModule".to_string(), "RiskModule".to_string()]);
}

fn translating() -> ImportState {
    let mut state = ImportState::browsing();
    state.set_projects(vec![QcProject { id: 7, name: "Alpha".into() }]);
    state.select_project(7);
    assert!(state.begin_translate());
    state
}

#[test]
fn files_arrived_hands_back_the_python_source() {
    let mut state = translating();
    let before = state.clone();
    let files = vec![
        ("main.py".to_string(), "a = 1".to_string()),
        ("notes.txt".to_string(), "skip".to_string()),
        ("alpha.py".to_string(), "b = 2".to_string()),
    ];
    assert_eq!(state.files_arrived(FilesFetch::Files(files)).as_deref(), Some("a = 1\n\nb = 2"));
    assert_eq!(state, before);
    assert!(state.show_skeleton());
}

#[test]
fn files_arrived_refuses_a_project_without_python() {
    let mut state = translating();
    let files = vec![("readme.md".to_string(), "x".to_string()), ("blank.py".to_string(), "  \n".to_string())];
    assert_eq!(state.files_arrived(FilesFetch::Files(files)), None);
    assert!(!state.show_skeleton());
    assert_eq!(state.error.as_deref(), Some("This project has no LEAN Python source to translate."));
    assert_eq!(state.selected, Some(7));
}

#[test]
fn files_arrived_surfaces_fetch_errors() {
    let mut state = translating();
    assert_eq!(state.files_arrived(FilesFetch::Unreachable("timeout".into())), None);
    assert_eq!(state.error.as_deref(), Some("Couldn't load project files: timeout."));
    let mut state = translating();
    assert_eq!(state.files_arrived(FilesFetch::Unreadable("bad json".into())), None);
    assert_eq!(state.error.as_deref(), Some("Couldn't read project files: bad json."));
}

#[test]
fn translation_arrived_holds_the_report_or_the_error() {
    let mut state = translating();
    state.translation_arrived(TranslateFetch::Report(report("framework", 0.5, &["a"], &[])));
    assert!(!state.show_skeleton());
    assert_eq!(state.coverage.as_ref().map(|c| c.coverage_pct), Some(50));
    assert!(state.error.is_none());

    let mut state = translating();
    state.translation_arrived(TranslateFetch::Failed("502".into()));
    assert_eq!(state.error.as_deref(), Some("Translation failed: 502."));
    assert!(state.coverage.is_none());
    let mut state = translating();
    state.translation_arrived(TranslateFetch::Unreadable("eof".into()));
    assert_eq!(state.error.as_deref(), Some("Couldn't read translation: eof."));
}

#[test]
fn a_disconnected_listing_resets_to_connect_first() {
    let mut state = ImportState::browsing();
    state.projects_arrived(ProjectsFetch::Listed { connected: false, projects: vec![QcProject { id: 1, name: "A".into() }] });
    assert_eq!(state, ImportState::disconnected());
    let mut state = ImportState::browsing();
    state.projects_arrived(ProjectsFetch::Listed { connected: true, projects: vec![QcProject { id: 1, name: "A".into() }] });
    assert!(state.connected && !state.show_skeleton());
    assert_eq!(state.projects.len(), 1);
    state.projects_arrived(ProjectsFetch::Unreachable("timeout".into()));
    assert_eq!(state.error.as_deref(), Some("Couldn't load projects: timeout."));
    state.projects_arrived(ProjectsFetch::Unreadable("eof".into()));
    assert_eq!(state.error.as_deref(), Some("Couldn't read projects: eof."));
}

#[test]
fn unmapped_constructs_and_notes_are_surfaced() {
    let mut r = report("qcalgorithm", 0.8, &["a"], &["Consolidator", "Chart"]);
    assert_eq!(
        unmapped_warning(&r).as_deref(),
        Some("The translator couldn't map 2 construct(s): Consolidator, Chart. They are kept as TODOs in the scaffold, never dropped.")
    );
    assert_eq!(notes_line(&r), None);
    r.notes = vec!["uses History()".into(), "check fees".into()];
    assert_eq!(notes_line(&r).as_deref(), Some("uses History()  •  check fees"));
    assert_eq!(unmapped_warning(&report("framework", 1.0, &[], &[])), None);
}

#[test]
fn coverage_just_short_of_full_is_not_rounded_up() {
    let mut state = ImportState::browsing();
    state.select_project(7);
    state.set_coverage(report("framework", 0.999, &["AlphaModule"], &[]));
    let stats = state.coverage_stats();
    assert!(stats.contains(&StatCell { label: "Coverage".to_string(), value: "99%".to_string() }));
}
