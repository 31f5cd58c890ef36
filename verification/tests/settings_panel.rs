use auracle::connections::{Account, ConnStatus, Connector, LicenseStatus};
use auracle::connector_form::LineTint;
use auracle::model_setup::Surface;
use auracle::settings_panel::{
    account_line, account_pane, ai_model_line, capitalize, connector_status_line, detail_for, gh_status_state, github_status_line, connector_line, connectors_for, git_identity_settings, github_checked,
    github_line, github_login_from, github_sign_in, Disclosure, GitHubAuthState, GitHubSignIn, LineTone, Section,
};

fn conn(state: &str) -> Connector {
    Connector { status: ConnStatus { state: state.into(), detail: None }, ..Default::default() }
}

#[test]
fn sections_have_stable_keys_and_titles() {
    let all = Section::all();
    assert_eq!(all.len(), 6);
    assert_eq!(all[0], Section::Account);
    assert_eq!(Section::QuantConnect.key(), "sec-qc");
    assert_eq!(Section::Data.title(), "Data sources");
    assert_eq!(Section::GitHub.title(), "Git & GitHub");
}

#[test]
fn header_lines_are_honest() {
    assert_eq!(account_line(None), ("Loading…".to_string(), LineTone::Muted));
    assert_eq!(
        account_line(Some(("institutional", "ops@example.com"))),
        ("Institutional · ops@example.com".to_string(), LineTone::Muted)
    );
    assert_eq!(account_line(Some(("", ""))).0, "— · no email on file");
    assert_eq!(ai_model_line(Some("anthropic")), ("Engine default · anthropic".to_string(), LineTone::Default));
    assert_eq!(ai_model_line(Some("")).0, "Pick a provider and add a key");
    assert_eq!(ai_model_line(None).1, LineTone::Muted);
    assert_eq!(github_line(&GitHubAuthState::SignedIn("me".into())), ("Signed in".to_string(), LineTone::Success));
    assert_eq!(github_line(&GitHubAuthState::Unknown).0, "Not checked yet");
    assert_eq!(connector_line(&[conn("connected"), conn("error")]), ("1 of 2 connected".to_string(), LineTone::Success));
    assert_eq!(connector_line(&[]), ("None available".to_string(), LineTone::Muted));
}

#[test]
fn capitalize_touches_only_the_first_character() {
    assert_eq!(capitalize("institutional"), "Institutional");
    assert_eq!(capitalize(""), "");
    assert_eq!(capitalize("ßig"), "SSig");
}

#[test]
fn git_credential_answers() {
    assert_eq!(
        github_login_from("protocol=https\nhost=github.com\nusername= octo \npassword=x\n"),
        Some("octo".to_string())
    );
    assert_eq!(github_login_from("password=x\n"), Some("your GitHub account".to_string()));
    assert_eq!(github_login_from("username=octo\n"), None);
    assert_eq!(github_login_from("username=a\nusername=b\r\npassword=1"), Some("b".to_string()));
}

#[test]
fn account_and_broker_start_open() {
    let d = Disclosure::new();
    assert!(d.is_expanded(Section::Account));
    assert!(d.is_expanded(Section::Broker));
    assert!(!d.is_expanded(Section::Data));
    assert!(!d.did_auto_expand);
}

#[test]
fn toggling_opens_and_closes_one_section() {
    let mut d = Disclosure::new();
    d.toggle(Section::Account);
    assert!(!d.is_expanded(Section::Account));
    assert!(d.is_expanded(Section::Broker));
    d.toggle(Section::GitHub);
    assert!(d.is_expanded(Section::GitHub));
    d.toggle(Section::Account);
    assert!(d.is_expanded(Section::Account));
}

#[test]
fn the_first_load_opens_what_needs_attention_once() {
    let mut d = Disclosure::new();
    d.toggle(Section::Broker);
    let none_connected = vec![conn("not_configured")];
    let connected = vec![conn("connected")];
    d.connectors_loaded(&connected, &none_connected, &[]);
    assert!(d.did_auto_expand);
    assert!(!d.is_expanded(Section::Broker));
    assert!(d.is_expanded(Section::Data));
    assert!(!d.is_expanded(Section::QuantConnect));
    // Later loads never fight the operator's toggles.
    d.toggle(Section::Data);
    d.connectors_loaded(&none_connected, &none_connected, &none_connected);
    assert!(!d.is_expanded(Section::Broker));
    assert!(!d.is_expanded(Section::Data));
}

#[test]
fn sections_list_their_connectors() {
    let b = vec![conn("connected")];
    let d = vec![conn("error"), conn("connected")];
    let i: Vec<Connector> = Vec::new();
    assert_eq!(connectors_for(Section::Broker, &b, &d, &i).len(), 1);
    assert_eq!(connectors_for(Section::Data, &b, &d, &i).len(), 2);
    assert_eq!(connectors_for(Section::QuantConnect, &b, &d, &i).len(), 0);
    assert_eq!(connectors_for(Section::Account, &b, &d, &i).len(), 0);
}

#[test]
fn github_check_and_sign_in() {
    assert_eq!(
        github_checked(Some("octo")),
        GitHubAuthState::SignedIn("Signed in to GitHub as octo.".into())
    );
    assert_eq!(github_checked(None), GitHubAuthState::SignedOut);
    assert_eq!(
        github_sign_in(true),
        GitHubSignIn::RunGh(vec!["auth".into(), "login".into(), "--web".into(), "--git-protocol".into(), "https".into()])
    );
    assert_eq!(github_sign_in(false), GitHubSignIn::OpenUrl("https://github.com/login/device".into()));
}

#[test]
fn git_identity_writes_only_what_was_typed() {
    assert!(git_identity_settings("", "").is_empty());
    assert_eq!(git_identity_settings("Ada", ""), vec![("user.name".to_string(), "Ada".to_string())]);
    assert_eq!(
        git_identity_settings("Ada", "ada@example.com"),
        vec![("user.name".to_string(), "Ada".to_string()), ("user.email".to_string(), "ada@example.com".to_string())]
    );
}

fn account(state: &str, expiry: Option<&str>) -> Account {
    Account {
        email: "ada@example.com".into(),
        tier: "institutional".into(),
        license_status: LicenseStatus { state: state.into(), expiry: expiry.map(|e| e.to_string()) },
        manage_url: None,
    }
}

#[test]
fn the_account_pane_reads_the_license_honestly() {
    assert_eq!(account_pane(None), None);
    let p = account_pane(Some(&account("active", Some("2026-01-01")))).unwrap();
    assert_eq!(p.email, "ada@example.com");
    assert_eq!(p.plan, "Institutional");
    assert_eq!((p.license.as_str(), p.license_tint), ("Active · renews 2026-01-01", LineTint::Success));
    assert_eq!(p.manage_url, None);
    let p = account_pane(Some(&account("active", Some("")))).unwrap();
    assert_eq!(p.license, "Active");
    let p = account_pane(Some(&account("expired", None))).unwrap();
    assert_eq!((p.license.as_str(), p.license_tint), ("Expired", LineTint::Error));
    let mut blank = account("none", None);
    blank.email = String::new();
    blank.tier = String::new();
    blank.manage_url = Some("https://billing.example".into());
    let p = account_pane(Some(&blank)).unwrap();
    assert_eq!((p.email.as_str(), p.plan.as_str()), ("—", "—"));
    assert_eq!((p.license.as_str(), p.license_tint), ("No active license", LineTint::Warning));
    assert_eq!(p.manage_url.as_deref(), Some("https://billing.example"));
}

#[test]
fn connector_rows_read_gated_connected_or_not() {
    let mut c = conn("connected");
    assert_eq!(connector_status_line(&c), ("Connected", LineTint::Success));
    c.gated = true;
    assert_eq!(connector_status_line(&c), ("Upgrade to use", LineTint::Warning));
    assert_eq!(connector_status_line(&conn("error")), ("Not connected", LineTint::Muted));
}

#[test]
fn gh_auth_status_names_the_login_line() {
    let out = "github.com\n  ✓ Logged in to github.com account octo (keyring)\n  - Active account: true\n";
    assert_eq!(
        gh_status_state(true, out),
        GitHubAuthState::SignedIn("✓ Logged in to github.com account octo (keyring)".into())
    );
    assert_eq!(gh_status_state(true, "ok\n"), GitHubAuthState::SignedIn("Signed in to GitHub.".into()));
    assert_eq!(gh_status_state(false, out), GitHubAuthState::SignedOut);
}

#[test]
fn github_status_lines_per_surface() {
    assert_eq!(
        github_status_line(&GitHubAuthState::Unknown, Surface::SettingsPanel),
        ("GitHub status not checked yet.".to_string(), LineTint::Muted)
    );
    assert_eq!(
        github_status_line(&GitHubAuthState::SignedIn("Signed in to GitHub as octo.".into()), Surface::Onboarding),
        ("Signed in to GitHub as octo.".to_string(), LineTint::Success)
    );
    assert_eq!(
        github_status_line(&GitHubAuthState::SignedOut, Surface::SettingsPanel).0,
        "Not signed in to GitHub (no credential for github.com)."
    );
    assert_eq!(
        github_status_line(&GitHubAuthState::SignedOut, Surface::Onboarding).0,
        "Not signed in to GitHub (the gh CLI reports no session)."
    );
}

#[test]
fn a_connector_opens_only_in_its_own_section() {
    let open = Some((Section::Data, "alpaca".to_string()));
    assert_eq!(detail_for(&open, Section::Data), Some("alpaca"));
    assert_eq!(detail_for(&open, Section::Broker), None);
    assert_eq!(detail_for(&None, Section::Data), None);
}
