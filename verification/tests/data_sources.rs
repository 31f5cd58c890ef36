use auracle::data_sources::{DataSourceRow, humanize_vendor, data_source_rows};

#[test]
fn humanize_multi_word_key() {
    assert_eq!(humanize_vendor("nasdaq_data_link"), "Nasdaq Data Link");
}

#[test]
fn humanize_single_word_key() {
    assert_eq!(humanize_vendor("polygon"), "Polygon");
}

#[test]
fn humanize_leaves_inner_letters_untouched() {
    // We don't invent acronym casing: only the first letter is uppercased.
    assert_eq!(humanize_vendor("eodhd"), "Eodhd");
}

#[test]
fn humanize_drops_empty_segments() {
    assert_eq!(humanize_vendor("_brain__feed_"), "Brain Feed");
}

#[test]
fn humanize_empty_is_empty() {
    assert_eq!(humanize_vendor(""), "");
}

#[test]
fn rows_humanize_and_preserve_order_and_configured() {
    let rows = data_source_rows(&[
        ("coingecko", true),
        ("nasdaq_data_link", false),
        ("polygon", true),
    ]);
    assert_eq!(
        rows,
        vec![
            DataSourceRow {
                name: "Coingecko".to_string(),
                configured: true
            },
            DataSourceRow {
                name: "Nasdaq Data Link".to_string(),
                configured: false
            },
            DataSourceRow {
                name: "Polygon".to_string(),
                configured: true
            },
        ]
    );
}

#[test]
fn no_entries_yield_no_rows() {
    let rows = data_source_rows(&[]);
    assert!(rows.is_empty());
}
