use auracle::strategies::{StrategyListItem, display_name, first_doc_line, strategy_rows, module_to_relpath};

#[test]
fn display_name_takes_last_segment() {
    assert_eq!(display_name("a.b.C"), "C");
    assert_eq!(display_name("solo"), "solo");
    assert_eq!(display_name(""), "");
}

#[test]
fn first_doc_line_takes_first_non_empty_trimmed() {
    assert_eq!(first_doc_line("first\nsecond"), "first");
    // Leading blank lines are skipped.
    assert_eq!(first_doc_line("\n\n  real text  \nmore"), "real text");
    assert_eq!(first_doc_line(""), "");
    assert_eq!(first_doc_line("   \n\t"), "");
}

#[test]
fn user_rows_sort_before_bundled_even_when_bundled_sorts_earlier() {
    // "alpha" (bundled) would sort before "zeta" (user) alphabetically, but
    // user-written must come first.
    let rows = strategy_rows(&[
        ("strategies.alpha.Alpha", "", true),
        ("strategies.zeta.Zeta", "", false),
    ]);
    assert_eq!(rows.len(), 2);
    assert_eq!(rows[0].name, "Zeta");
    assert!(!rows[0].bundled);
    assert_eq!(rows[1].name, "Alpha");
    assert!(rows[1].bundled);
}

#[test]
fn empty_path_entries_are_dropped() {
    let rows = strategy_rows(&[
        ("", "ignored doc", false),
        ("strategies.real.Real", "doc", false),
    ]);
    assert_eq!(rows.len(), 1);
    assert_eq!(rows[0].name, "Real");
}

#[test]
fn name_order_is_case_insensitive() {
    // "alpha" should come before "Beta" despite uppercase 'B' < lowercase 'a'.
    let rows = strategy_rows(&[
        ("strategies.b.Beta", "", false),
        ("strategies.a.alpha", "", false),
    ]);
    assert_eq!(rows[0].name, "alpha");
    assert_eq!(rows[1].name, "Beta");
}

#[test]
fn rows_derive_first_doc_line() {
    let rows = strategy_rows(&[("strategies.x.X", "\nSummary line\ndetail", false)]);
    assert_eq!(rows[0].doc, "Summary line");
}

#[test]
fn module_to_relpath_requires_two_segments() {
    assert_eq!(
        module_to_relpath("strategies.example_ma.MACrossover"),
        Some("strategies/example_ma.py".to_string())
    );
    assert_eq!(
        module_to_relpath("pkg.sub.mod.Class"),
        Some("pkg/sub/mod.py".to_string())
    );
    // Fewer than 2 non-empty segments → None.
    assert_eq!(module_to_relpath("solo"), None);
    assert_eq!(module_to_relpath(""), None);
    assert_eq!(module_to_relpath("."), None);
}

#[test]
fn module_to_relpath_filters_empty_segments() {
    // Trailing / doubled dots produce empty segments that are filtered out
    // before the length check and the join.
    assert_eq!(
        module_to_relpath("strategies..example.Class"),
        Some("strategies/example.py".to_string())
    );
    assert_eq!(module_to_relpath("a.b."), Some("a.py".to_string()));
}

#[test]
fn rows_are_sorted_and_equal_keys_keep_engine_order() {
    let rows = strategy_rows(&[
        ("b.Beta", "", true),
        ("x.alpha", "first", false),
        ("", "dropped", false),
        ("y.ALPHA", "second", false),
        ("a.Alpha", "bundled", true),
        ("z.Gamma", "", false),
    ]);
    let keys: Vec<(bool, String, String)> =
        rows.iter().map(|r| (r.bundled, r.name.to_lowercase(), r.path.clone())).collect();
    assert_eq!(
        keys,
        vec![
            (false, "alpha".to_string(), "x.alpha".to_string()),
            (false, "alpha".to_string(), "y.ALPHA".to_string()),
            (false, "gamma".to_string(), "z.Gamma".to_string()),
            (true, "alpha".to_string(), "a.Alpha".to_string()),
            (true, "beta".to_string(), "b.Beta".to_string()),
        ]
    );
    for pair in rows.windows(2) {
        let (a, b) = (&pair[0], &pair[1]);
        assert!((a.bundled, a.name.to_lowercase()) <= (b.bundled, b.name.to_lowercase()));
    }
}
