use auracle::brand::{DISPLAY_NAME, LOCAL_SETTINGS_FOLDER, LEGACY_LOCAL_SETTINGS_FOLDER, URL_SCHEME, LEGACY_URL_SCHEME, ENV_PREFIX, LEGACY_ENV_PREFIX, DOCS_BASE, LEGACY_DOCS_HOST, docs_url, rewrite_legacy_docs_url, env_var_names, local_settings_folders, is_known_url_scheme};

#[test]
fn docs_url_normalizes_leading_slash() {
    let expected = "https://docs.aurapointcapital.com/docs/debugger";
    assert_eq!(docs_url("/docs/debugger"), expected);
    assert_eq!(docs_url("docs/debugger"), expected);
}

#[test]
fn docs_url_handles_empty_and_anchors() {
    assert_eq!(docs_url(""), "https://docs.aurapointcapital.com/");
    assert_eq!(
        docs_url("docs/completions#edit-predictions"),
        "https://docs.aurapointcapital.com/docs/completions#edit-predictions"
    );
}

#[test]
fn rewrite_maps_zed_docs_to_auracle() {
    assert_eq!(
        rewrite_legacy_docs_url("https://zed.dev/docs/debugger").as_deref(),
        Some("https://docs.aurapointcapital.com/docs/debugger")
    );
    assert_eq!(
        rewrite_legacy_docs_url("http://zed.dev/docs/git").as_deref(),
        Some("https://docs.aurapointcapital.com/docs/git")
    );
}

#[test]
fn rewrite_ignores_non_zed_urls() {
    assert_eq!(rewrite_legacy_docs_url("https://github.com/x"), None);
    // The cloud/api hosts are not docs and must not be rewritten here.
    assert_eq!(rewrite_legacy_docs_url("https://api.zed.dev/x"), None);
}

#[test]
fn env_var_names_canonical_first() {
    assert_eq!(
        env_var_names("FILE"),
        ["AURACLE_FILE".to_string(), "ZED_FILE".to_string()]
    );
}

#[test]
fn local_settings_folders_canonical_first() {
    assert_eq!(local_settings_folders(), [".auracle", ".zed"]);
}

#[test]
fn known_schemes() {
    assert!(is_known_url_scheme("auracle"));
    assert!(is_known_url_scheme("zed"));
    assert!(!is_known_url_scheme("http"));
}
