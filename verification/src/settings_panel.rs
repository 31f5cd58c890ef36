//! The connections settings panel's sections and the one-line summary each
//! collapsed section header shows, plus reading a stored GitHub login.

use vstd::prelude::*;
use crate::connections::{self, Account, Connector};
use crate::connector_form::LineTint;
use crate::model_setup::Surface;
use crate::strs;

verus! {

/// A collapsible section of the panel, in display order.
#[derive(Debug, Clone, Copy, PartialEq, Eq, Structural)]
pub enum Section {
    Account,
    Broker,
    Data,
    QuantConnect,
    AiModel,
    GitHub,
}

impl Section {
    /// A stable element-id key.
    pub fn key(self) -> (r: &'static str)
        ensures
            r@ == match self {
                Section::Account => "sec-account"@,
                Section::Broker => "sec-broker"@,
                Section::Data => "sec-data"@,
                Section::QuantConnect => "sec-qc"@,
                Section::AiModel => "sec-ai"@,
                Section::GitHub => "sec-github"@,
            },
    {
        match self {
            Section::Account => "sec-account",
            Section::Broker => "sec-broker",
            Section::Data => "sec-data",
            Section::QuantConnect => "sec-qc",
            Section::AiModel => "sec-ai",
            Section::GitHub => "sec-github",
        }
    }

    /// The section heading.
    pub fn title(self) -> (r: &'static str)
        ensures
            r@ == match self {
                Section::Account => "Account"@,
                Section::Broker => "Broker"@,
                Section::Data => "Data sources"@,
                Section::QuantConnect => "QuantConnect"@,
                Section::AiModel => "AI model"@,
                Section::GitHub => "Git & GitHub"@,
            },
    {
        match self {
            Section::Account => "Account",
            Section::Broker => "Broker",
            Section::Data => "Data sources",
            Section::QuantConnect => "QuantConnect",
            Section::AiModel => "AI model",
            Section::GitHub => "Git & GitHub",
        }
    }

    /// Every section, in display order.
    pub fn all() -> (r: Vec<Section>)
        ensures
            r@ == seq![
                Section::Account,
                Section::Broker,
                Section::Data,
                Section::QuantConnect,
                Section::AiModel,
                Section::GitHub,
            ],
    {
        let r = vec![
            Section::Account,
            Section::Broker,
            Section::Data,
            Section::QuantConnect,
            Section::AiModel,
            Section::GitHub,
        ];
        assert(r@ =~= seq![
            Section::Account,
            Section::Broker,
            Section::Data,
            Section::QuantConnect,
            Section::AiModel,
            Section::GitHub,
        ]);
        r
    }
}

/// How a summary line is coloured.
#[derive(Debug, Clone, Copy, PartialEq, Eq)]
pub enum LineTone {
    Default,
    Muted,
    Success,
}

/// `text` with its first character uppercased.
pub open spec fn capitalized(text: Seq<char>) -> Seq<char> {
    if text.len() == 0 {
        text
    } else {
        strs::uppercase_of(text[0]) + text.skip(1)
    }
}

/// Capitalize the first character (for tier names like "institutional").
pub fn capitalize(text: &str) -> (r: String)
    ensures
        r@ == capitalized(text@),
{
    let cs = strs::chars_of(text);
    if cs.len() == 0 {
        return String::new();
    }
    let mut r = strs::char_to_uppercase(cs[0]);
    let rest = strs::sub_chars(&cs, 1, cs.len());
    let tail = strs::string_of_chars(&rest);
    strs::append_str(&mut r, tail.as_str());
    assert(rest@ =~= text@.skip(1));
    r
}

/// The Account header line: `Tier · email`, or a loading note before the
/// account arrives.
pub open spec fn account_line_of(account: Option<(Seq<char>, Seq<char>)>) -> (Seq<char>, LineTone) {
    match account {
        None => ("Loading…"@, LineTone::Muted),
        Some((tier, email)) => {
            let t = if tier.len() == 0 { "—"@ } else { capitalized(tier) };
            let e = if email.len() == 0 { "no email on file"@ } else { email };
            (t + " · "@ + e, LineTone::Muted)
        },
    }
}

/// The Account section's header line for the account's `(tier, email)`.
pub fn account_line(account: Option<(&str, &str)>) -> (r: (String, LineTone))
    ensures
        (r.0@, r.1) == account_line_of(match account {
            Some((t, e)) => Some((t@, e@)),
            None => None,
        }),
{
    match account {
        None => (strs::own("Loading…"), LineTone::Muted),
        Some((tier, email)) => {
            let mut line = if strs::chars_of(tier).len() == 0 { strs::own("—") } else { capitalize(tier) };
            strs::append_str(&mut line, " · ");
            if strs::chars_of(email).len() == 0 {
                strs::append_str(&mut line, "no email on file");
            } else {
                strs::append_str(&mut line, email);
            }
            (line, LineTone::Muted)
        },
    }
}

/// A connector section's header line: the honest count summary, green when
/// any connector is connected.
pub fn connector_line(connectors: &[Connector]) -> (r: (String, LineTone))
    ensures
        r.0@ == connections::summary_of(connections::connected_count(connectors@), connectors@.len()),
        r.1 == if connections::connected_count(connectors@) > 0 { LineTone::Success } else { LineTone::Muted },
{
    let any = connectors.len() > 0 && !connections::default_expanded(connectors);
    let tone = if any { LineTone::Success } else { LineTone::Muted };
    (connections::section_summary(connectors), tone)
}

/// The AI model section's header line for the engine's default provider.
pub fn ai_model_line(provider: Option<&str>) -> (r: (String, LineTone))
    ensures
        match provider {
            Some(p) => p@.len() > 0 ==> r.0@ == "Engine default · "@ + p@ && r.1 == LineTone::Default,
            None => true,
        },
        (match provider {
            Some(p) => p@.len() == 0,
            None => true,
        }) ==> r.0@ == "Pick a provider and add a key"@ && r.1 == LineTone::Muted,
{
    match provider {
        Some(p) => {
            if strs::chars_of(p).len() > 0 {
                let mut r = strs::own("Engine default · ");
                strs::append_str(&mut r, p);
                return (r, LineTone::Default);
            }
        },
        None => {},
    }
    (strs::own("Pick a provider and add a key"), LineTone::Muted)
}

/// Where the GitHub sign-in check stands.
#[derive(Debug, Clone, PartialEq, Eq)]
pub enum GitHubAuthState {
    Unknown,
    Checking,
    SignedIn(String),
    SignedOut,
}

/// The GitHub section's header line.
pub fn github_line(state: &GitHubAuthState) -> (r: (String, LineTone))
    ensures
        (r.0@, r.1) == match *state {
            GitHubAuthState::SignedIn(_) => ("Signed in"@, LineTone::Success),
            GitHubAuthState::Checking => ("Checking…"@, LineTone::Muted),
            GitHubAuthState::Unknown => ("Not checked yet"@, LineTone::Muted),
            GitHubAuthState::SignedOut => ("Not signed in"@, LineTone::Muted),
        },
{
    match state {
        GitHubAuthState::SignedIn(_) => (strs::own("Signed in"), LineTone::Success),
        GitHubAuthState::Checking => (strs::own("Checking…"), LineTone::Muted),
        GitHubAuthState::Unknown => (strs::own("Not checked yet"), LineTone::Muted),
        GitHubAuthState::SignedOut => (strs::own("Not signed in"), LineTone::Muted),
    }
}

/// The username of the last `username=` line, trimmed.
pub open spec fn last_username(ls: Seq<Seq<char>>) -> Option<Seq<char>>
    decreases ls.len(),
{
    if ls.len() == 0 {
        None
    } else if strs::has_prefix(ls.last(), "username="@) {
        Some(strs::trim(ls.last().skip("username="@.len() as int)))
    } else {
        last_username(ls.drop_last())
    }
}

/// Whether some line starts with `password=`.
pub open spec fn has_password_line(ls: Seq<Seq<char>>) -> bool {
    exists|i: int| 0 <= i < ls.len() && strs::has_prefix(#[trigger] ls[i], "password="@)
}

/// The GitHub login a `git credential fill` answer holds: only when it
/// carries a password, named by its username (or a stock phrase).
pub open spec fn github_login_of(output: Seq<char>) -> Option<Seq<char>> {
    let ls = strs::lines(output);
    if has_password_line(ls) {
        Some(match last_username(ls) {
            Some(u) => u,
            None => "your GitHub account"@,
        })
    } else {
        None
    }
}

/// Read the answer of `git credential fill` for github.com: the username
/// when a password is stored, `None` otherwise.
pub fn github_login_from(output: &str) -> (r: Option<String>)
    ensures
        strs::opt_view(r) == github_login_of(output@),
{
    let cs = strs::chars_of(output);
    let ls = strs::lines_exec(&cs);
    let ghost lv = strs::views(ls@);
    let user_prefix = strs::chars_of("username=");
    let pass_prefix = strs::chars_of("password=");
    let mut username: Option<String> = None;
    let mut has_password = false;
    let mut i: usize = 0;
    while i < ls.len()
        invariant
            i <= ls@.len() == lv.len(),
            lv == strs::views(ls@),
            user_prefix@ == "username="@,
            pass_prefix@ == "password="@,
            strs::opt_view(username) == last_username(lv.take(i as int)),
            has_password == has_password_line(lv.take(i as int)),
        decreases ls@.len() - i,
    {
        let ghost pre = lv.take(i as int);
        let ghost next = lv.take(i + 1);
        assert(next.drop_last() =~= pre);
        assert(next.last() == ls@[i as int]@);
        let line = &ls[i];
        if strs::starts_with(line, &user_prefix) {
            let rest = strs::sub_chars(line, user_prefix.len(), line.len());
            assert(rest@ =~= line@.skip("username="@.len() as int));
            let t = strs::trimmed(&rest);
            username = Some(strs::string_of_chars(&t));
        } else if strs::starts_with(line, &pass_prefix) {
            has_password = true;
        }
        proof {
            if strs::has_prefix(next[i as int], "username="@) && strs::has_prefix(next[i as int], "password="@) {
                reveal_strlit("username=");
                reveal_strlit("password=");
                assert(next[i as int][0] == "username="@[0]);
                assert(next[i as int][0] == "password="@[0]);
            }
            if has_password_line(next) && !has_password_line(pre) {
                assert(strs::has_prefix(next[i as int], "password="@));
            }
            if has_password_line(pre) {
                let k = choose|k: int| 0 <= k < pre.len() && strs::has_prefix(#[trigger] pre[k], "password="@);
                assert(next[k] == pre[k]);
            }
            if strs::has_prefix(next[i as int], "password="@) {
                assert(has_password_line(next));
            }
        }
        i = i + 1;
    }
    assert(lv.take(i as int) =~= lv);
    if has_password {
        match username {
            Some(u) => Some(u),
            None => Some(strs::own("your GitHub account")),
        }
    } else {
        None
    }
}

// ── Section disclosure ─────────────────────────────────────────────────

/// Which sections are open. The first connector load opens the sections
/// that need attention, once, and never fights the operator's toggles
/// afterwards.
#[derive(Debug, Clone, PartialEq, Eq)]
pub struct Disclosure {
    /// The open sections.
    pub expanded: Vec<Section>,
    /// Whether the first connector load already opened what needs attention.
    pub did_auto_expand: bool,
}

/// Whether a section starts open because its connectors need attention.
pub open spec fn needs_attention(connectors: Seq<Connector>) -> bool {
    connectors.len() > 0 && connections::connected_count(connectors) == 0
}

fn remove_section(v: &mut Vec<Section>, s: Section)
    ensures
        forall|x: Section| final(v)@.contains(x) <==> (old(v)@.contains(x) && x != s),
{
    broadcast use vstd::seq_lib::lemma_seq_contains_after_push;
    let mut out: Vec<Section> = Vec::new();
    let mut i: usize = 0;
    while i < v.len()
        invariant
            i <= v@.len(),
            forall|y: Section| out@.contains(y) <==> (v@.take(i as int).contains(y) && y != s),
        decreases v@.len() - i,
    {
        let x = v[i];
        assert(v@.take(i + 1) =~= v@.take(i as int).push(x));
        let ghost prev = out@;
        if x != s {
            out.push(x);
            assert(out@ == prev.push(x));
        }
        assert forall|y: Section| out@.contains(y) <==> (v@.take(i + 1).contains(y) && y != s) by {
            vstd::seq_lib::lemma_seq_contains_after_push(v@.take(i as int), x, y);
            vstd::seq_lib::lemma_seq_contains_after_push(prev, x, y);
        }
        i = i + 1;
    }
    assert(v@.take(i as int) =~= v@);
    *v = out;
}

impl Disclosure {
    /// Account and Broker open, nothing auto-opened yet.
    pub fn new() -> (d: Self)
        ensures
            forall|x: Section| d.expanded@.contains(x) <==> (x == Section::Account || x == Section::Broker),
            !d.did_auto_expand,
    {
        let expanded = vec![Section::Account, Section::Broker];
        assert forall|x: Section| expanded@.contains(x) <==> (x == Section::Account || x == Section::Broker) by {
            if x == Section::Account {
                assert(expanded@[0] == x);
            }
            if x == Section::Broker {
                assert(expanded@[1] == x);
            }
        }
        Disclosure { expanded, did_auto_expand: false }
    }

    /// Whether `section` is open.
    pub fn is_expanded(&self, section: Section) -> (r: bool)
        ensures
            r == self.expanded@.contains(section),
    {
        let mut i: usize = 0;
        while i < self.expanded.len()
            invariant
                i <= self.expanded@.len(),
                forall|j: int| 0 <= j < i ==> self.expanded@[j] != section,
            decreases self.expanded@.len() - i,
        {
            if self.expanded[i] == section {
                return true;
            }
            i = i + 1;
        }
        false
    }

    /// Open a closed section, close an open one.
    pub fn toggle(&mut self, section: Section)
        ensures
            forall|x: Section| final(self).expanded@.contains(x) <==> (if x == section {
                !old(self).expanded@.contains(x)
            } else {
                old(self).expanded@.contains(x)
            }),
            final(self).did_auto_expand == old(self).did_auto_expand,
    {
        if self.is_expanded(section) {
            remove_section(&mut self.expanded, section);
        } else {
            broadcast use vstd::seq_lib::lemma_seq_contains_after_push;
            self.expanded.push(section);
        }
    }

    /// The connector lists arrived. On the first load only, a section whose
    /// connectors all still need connecting opens; later loads change
    /// nothing here.
    pub fn connectors_loaded(&mut self, brokers: &[Connector], data: &[Connector], integrations: &[Connector])
        ensures
            old(self).did_auto_expand ==> *final(self) == *old(self),
            !old(self).did_auto_expand ==> {
                &&& final(self).did_auto_expand
                &&& forall|x: Section| final(self).expanded@.contains(x) <==> (old(self).expanded@.contains(x)
                    || (x == Section::Broker && needs_attention(brokers@))
                    || (x == Section::Data && needs_attention(data@))
                    || (x == Section::QuantConnect && needs_attention(integrations@)))
            },
    {
        if self.did_auto_expand {
            return;
        }
        self.did_auto_expand = true;
        broadcast use vstd::seq_lib::lemma_seq_contains_after_push;
        if connections::default_expanded(brokers) {
            self.expanded.push(Section::Broker);
        }
        if connections::default_expanded(data) {
            self.expanded.push(Section::Data);
        }
        if connections::default_expanded(integrations) {
            self.expanded.push(Section::QuantConnect);
        }
    }
}

/// The connectors a section lists: brokers, data providers, or
/// integrations; the other sections list none.
pub fn connectors_for<'a>(
    section: Section,
    brokers: &'a [Connector],
    data: &'a [Connector],
    integrations: &'a [Connector],
) -> (r: &'a [Connector])
    ensures
        r@ == match section {
            Section::Broker => brokers@,
            Section::Data => data@,
            Section::QuantConnect => integrations@,
            _ => Seq::<Connector>::empty(),
        },
{
    match section {
        Section::Broker => brokers,
        Section::Data => data,
        Section::QuantConnect => integrations,
        _ => &[],
    }
}

/// The connector whose detail a section shows instead of its list: the open
/// connector, only when it was opened from this section (ids can repeat
/// across kinds).
pub fn detail_for(selected: &Option<(Section, String)>, section: Section) -> (r: Option<&str>)
    ensures
        strs::opt_str_view(r) == match *selected {
            Some((s, id)) => if s == section { Some(id@) } else { None },
            None => None,
        },
{
    match selected {
        Some((s, id)) => if *s == section { Some(id.as_str()) } else { None },
        None => None,
    }
}

// ── GitHub ─────────────────────────────────────────────────────────────

/// The GitHub state after a credential probe: signed in as the login it
/// found, or signed out.
pub fn github_checked(login: Option<&str>) -> (r: GitHubAuthState)
    ensures
        match login {
            Some(u) => r matches GitHubAuthState::SignedIn(m) && m@ == "Signed in to GitHub as "@ + u@ + "."@,
            None => r == GitHubAuthState::SignedOut,
        },
{
    match login {
        Some(u) => {
            let mut m = strs::own("Signed in to GitHub as ");
            strs::append_str(&mut m, u);
            strs::append_str(&mut m, ".");
            GitHubAuthState::SignedIn(m)
        },
        None => GitHubAuthState::SignedOut,
    }
}

/// The `git config --global` settings that saving an identity writes, as
/// `(key, value)`: the name and the email, each only when typed. Nothing is
/// written when both are empty.
pub fn git_identity_settings(name: &str, email: &str) -> (r: Vec<(String, String)>)
    ensures
        r@.map_values(|e: (String, String)| (e.0@, e.1@)) == (if name@.len() > 0 {
            seq![("user.name"@, name@)]
        } else {
            Seq::empty()
        }) + (if email@.len() > 0 {
            seq![("user.email"@, email@)]
        } else {
            Seq::empty()
        }),
{
    let mut r: Vec<(String, String)> = Vec::new();
    if name.unicode_len() > 0 {
        r.push((strs::own("user.name"), strs::own(name)));
    }
    if email.unicode_len() > 0 {
        r.push((strs::own("user.email"), strs::own(email)));
    }
    assert(r@.map_values(|e: (String, String)| (e.0@, e.1@)) =~= (if name@.len() > 0 {
        seq![("user.name"@, name@)]
    } else {
        Seq::empty()
    }) + (if email@.len() > 0 {
        seq![("user.email"@, email@)]
    } else {
        Seq::empty()
    }));
    r
}

/// How "Sign in to GitHub" proceeds.
#[derive(Debug, Clone, PartialEq, Eq)]
pub enum GitHubSignIn {
    /// Run `gh` with these arguments, then check the sign-in again.
    RunGh(Vec<String>),
    /// Open this page in the browser.
    OpenUrl(String),
}

/// Sign in through the `gh` CLI's web flow when it is installed, else open
/// GitHub's device-login page.
pub fn github_sign_in(gh_available: bool) -> (r: GitHubSignIn)
    ensures
        gh_available ==> (r matches GitHubSignIn::RunGh(args)
            && strs::views_of_strings(args@) == seq!["auth"@, "login"@, "--web"@, "--git-protocol"@, "https"@]),
        !gh_available ==> (r matches GitHubSignIn::OpenUrl(u) && u@ == "https://github.com/login/device"@),
{
    if gh_available {
        let args = vec![
            strs::own("auth"),
            strs::own("login"),
            strs::own("--web"),
            strs::own("--git-protocol"),
            strs::own("https"),
        ];
        assert(strs::views_of_strings(args@) =~= seq!["auth"@, "login"@, "--web"@, "--git-protocol"@, "https"@]);
        GitHubSignIn::RunGh(args)
    } else {
        GitHubSignIn::OpenUrl(strs::own("https://github.com/login/device"))
    }
}

// ── The account pane and the connector list ────────────────────────────

/// What the Account section shows once the engine answered.
#[derive(Debug, Clone, PartialEq, Eq)]
pub struct AccountPane {
    pub email: String,
    pub plan: String,
    pub license: String,
    pub license_tint: LineTint,
    /// The billing portal, when there is one (no dead button otherwise).
    pub manage_url: Option<String>,
}

/// How an account's license reads.
pub open spec fn license_line(state: Seq<char>, expiry: Option<Seq<char>>) -> (Seq<char>, LineTint) {
    if state == "active"@ {
        match expiry {
            Some(e) => if e.len() > 0 { ("Active · renews "@ + e, LineTint::Success) } else { ("Active"@, LineTint::Success) },
            None => ("Active"@, LineTint::Success),
        }
    } else if state == "expired"@ {
        ("Expired"@, LineTint::Error)
    } else {
        ("No active license"@, LineTint::Warning)
    }
}

/// The Account section's rows: email and plan (a dash when empty), the
/// license, and the billing link; `None` while the account is still being
/// read.
pub fn account_pane(account: Option<&Account>) -> (r: Option<AccountPane>)
    ensures
        match account {
            None => r is None,
            Some(a) => r matches Some(p) && {
                &&& p.email@ == if a.email@.len() == 0 { "—"@ } else { a.email@ }
                &&& p.plan@ == if a.tier@.len() == 0 { "—"@ } else { capitalized(a.tier@) }
                &&& (p.license@, p.license_tint) == license_line(a.license_status.state@, strs::opt_view(a.license_status.expiry))
                &&& strs::opt_view(p.manage_url) == strs::opt_view(a.manage_url)
            },
        },
{
    let a = match account {
        Some(a) => a,
        None => return None,
    };
    let email = if a.email.as_str().unicode_len() == 0 { strs::own("—") } else { strs::own(a.email.as_str()) };
    let plan = if a.tier.as_str().unicode_len() == 0 { strs::own("—") } else { capitalize(a.tier.as_str()) };
    let state = a.license_status.state.as_str();
    let (license, license_tint) = if strs::eq_str(state, "active") {
        match &a.license_status.expiry {
            Some(e) => if e.as_str().unicode_len() > 0 {
                let mut t = strs::own("Active · renews ");
                strs::append_str(&mut t, e.as_str());
                (t, LineTint::Success)
            } else {
                (strs::own("Active"), LineTint::Success)
            },
            None => (strs::own("Active"), LineTint::Success),
        }
    } else if strs::eq_str(state, "expired") {
        (strs::own("Expired"), LineTint::Error)
    } else {
        (strs::own("No active license"), LineTint::Warning)
    };
    let manage_url = match &a.manage_url {
        Some(u) => Some(strs::own(u.as_str())),
        None => None,
    };
    Some(AccountPane { email, plan, license, license_tint, manage_url })
}

/// A connector row's status: a plan-gated one reads "Upgrade to use", a
/// connected one "Connected", any other "Not connected".
pub fn connector_status_line(c: &Connector) -> (r: (&'static str, LineTint))
    ensures
        (r.0@, r.1) == if c.gated {
            ("Upgrade to use"@, LineTint::Warning)
        } else if connections::connected_state(c.status.state@) {
            ("Connected"@, LineTint::Success)
        } else {
            ("Not connected"@, LineTint::Muted)
        },
{
    if c.gated {
        ("Upgrade to use", LineTint::Warning)
    } else if c.status.is_connected() {
        ("Connected", LineTint::Success)
    } else {
        ("Not connected", LineTint::Muted)
    }
}

// ── The GitHub section's status line ───────────────────────────────────

/// The first line mentioning "Logged in", if any.
pub open spec fn first_logged_in(ls: Seq<Seq<char>>) -> Option<Seq<char>>
    decreases ls.len(),
{
    if ls.len() == 0 {
        None
    } else if strs::has_infix(ls[0], "Logged in"@) {
        Some(ls[0])
    } else {
        first_logged_in(ls.drop_first())
    }
}

/// The GitHub state `gh auth status` reports: signed in — with its own
/// "Logged in" line, trimmed — when it succeeds, signed out otherwise.
pub fn gh_status_state(success: bool, stdout: &str) -> (r: GitHubAuthState)
    ensures
        !success ==> r == GitHubAuthState::SignedOut,
        success ==> (r matches GitHubAuthState::SignedIn(m) && m@ == strs::trim(match first_logged_in(strs::lines(stdout@)) {
            Some(l) => l,
            None => "Signed in to GitHub."@,
        })),
{
    if !success {
        return GitHubAuthState::SignedOut;
    }
    let cs = strs::chars_of(stdout);
    let ls = strs::lines_exec(&cs);
    let ghost lv = strs::views(ls@);
    let marker = strs::chars_of("Logged in");
    assert(lv.skip(0) =~= lv);
    let mut i: usize = 0;
    while i < ls.len()
        invariant
            i <= ls@.len() == lv.len(),
            success,
            lv == strs::views(ls@),
            lv == strs::lines(stdout@),
            marker@ == "Logged in"@,
            first_logged_in(lv) == first_logged_in(lv.skip(i as int)),
        decreases ls@.len() - i,
    {
        assert(lv.skip(i as int)[0] == ls@[i as int]@);
        if strs::contains_chars(&ls[i], &marker) {
            let t = strs::trimmed(&ls[i]);
            return GitHubAuthState::SignedIn(strs::string_of_chars(&t));
        }
        assert(lv.skip(i as int).drop_first() =~= lv.skip(i + 1));
        i = i + 1;
    }
    assert(lv.skip(i as int).len() == 0);
    let fallback = strs::chars_of("Signed in to GitHub.");
    let t = strs::trimmed(&fallback);
    GitHubAuthState::SignedIn(strs::string_of_chars(&t))
}

/// The status line under the GitHub section's buttons, in the asking
/// surface's wording for a signed-out state.
pub fn github_status_line(state: &GitHubAuthState, surface: Surface) -> (r: (String, LineTint))
    ensures
        (r.0@, r.1) == match *state {
            GitHubAuthState::Unknown => ("GitHub status not checked yet."@, LineTint::Muted),
            GitHubAuthState::Checking => ("Checking…"@, LineTint::Muted),
            GitHubAuthState::SignedIn(line) => (line@, LineTint::Success),
            GitHubAuthState::SignedOut => (match surface {
                Surface::SettingsPanel => "Not signed in to GitHub (no credential for github.com)."@,
                Surface::Onboarding => "Not signed in to GitHub (the gh CLI reports no session)."@,
            }, LineTint::Warning),
        },
{
    match state {
        GitHubAuthState::Unknown => (strs::own("GitHub status not checked yet."), LineTint::Muted),
        GitHubAuthState::Checking => (strs::own("Checking…"), LineTint::Muted),
        GitHubAuthState::SignedIn(line) => (strs::own(line.as_str()), LineTint::Success),
        GitHubAuthState::SignedOut => (match surface {
            Surface::SettingsPanel => strs::own("Not signed in to GitHub (no credential for github.com)."),
            Surface::Onboarding => strs::own("Not signed in to GitHub (the gh CLI reports no session)."),
        }, LineTint::Warning),
    }
}

} // verus!
