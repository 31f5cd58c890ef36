//! The Import-from-QuantConnect workspace's view-state: the browse → select →
//! translate → coverage flow, advanced by pure transitions.
//!
//! Honesty rules: a disconnected account renders an honest empty state, never
//! a fake project list; unmapped constructs are surfaced, never dropped; and
//! coverage is reported as given, never rounded up to a reassuring 100%.

use vstd::prelude::*;
use crate::strs;

verus! {

/// A QuantConnect project as the import workspace lists it.
#[derive(Debug, Clone, PartialEq, Eq)]
pub struct QcProject {
    pub id: u64,
    pub name: String,
}

/// One labelled metric cell for the coverage grid.
#[derive(Debug, Clone, PartialEq, Eq)]
pub struct StatCell {
    pub label: String,
    pub value: String,
}

/// A translate coverage report, already extracted from the engine's payload.
#[derive(Debug, Clone, PartialEq, Eq)]
pub struct CoverageReport {
    /// "framework", "qcalgorithm", or "unknown".
    pub style: String,
    /// The fraction of the source that mapped cleanly, as a whole percentage
    /// (the fraction × 100, rounded down to a whole number, never up).
    pub coverage_pct: i64,
    /// Mapped component / module names.
    pub mapped: Vec<String>,
    /// Constructs that need hand-finishing.
    pub unmapped: Vec<String>,
    /// Free-form translator notes.
    pub notes: Vec<String>,
}

/// The whole import view-state, advanced by the transitions below.
#[derive(Debug, Clone, PartialEq)]
pub struct ImportState {
    /// False renders the honest "connect QuantConnect first" empty state.
    pub connected: bool,
    /// A fetch (projects or translate) is in flight → render a loading skeleton.
    pub loading: bool,
    pub projects: Vec<QcProject>,
    /// The selected project id, if any.
    pub selected: Option<u64>,
    pub coverage: Option<CoverageReport>,
    /// The last error, surfaced honestly instead of a blank panel.
    pub error: Option<String>,
}

impl Default for ImportState {
    fn default() -> (s: Self)
        ensures
            !s.connected,
            !s.loading,
            s.projects@.len() == 0,
            s.selected is None,
            s.coverage is None,
            s.error is None,
    {
        ImportState {
            connected: false,
            loading: false,
            projects: Vec::new(),
            selected: None,
            coverage: None,
            error: None,
        }
    }
}

impl ImportState {
    /// A freshly-opened workspace for a connected account: browsing, with the
    /// first project fetch in flight.
    pub fn browsing() -> (s: Self)
        ensures
            s.connected,
            s.loading,
            s.projects@.len() == 0,
            s.selected is None,
            s.coverage is None,
            s.error is None,
    {
        ImportState { connected: true, loading: true, ..ImportState::default() }
    }

    /// A workspace opened without a QuantConnect connection — honest empty state.
    pub fn disconnected() -> (s: Self)
        ensures
            !s.connected,
            !s.loading,
            s.projects@.len() == 0,
            s.selected is None,
            s.coverage is None,
            s.error is None,
    {
        ImportState { connected: false, ..ImportState::default() }
    }

    /// The project list arrived: stop the skeleton and show them. Clears any
    /// prior error.
    pub fn set_projects(&mut self, projects: Vec<QcProject>)
        ensures
            final(self).projects == projects,
            !final(self).loading,
            final(self).error is None,
            final(self).connected == old(self).connected,
            final(self).selected == old(self).selected,
            final(self).coverage == old(self).coverage,
    {
        self.projects = projects;
        self.loading = false;
        self.error = None;
    }

    /// Select a project to translate. Drops any prior coverage so a stale
    /// report never lingers against a different project.
    pub fn select_project(&mut self, id: u64)
        ensures
            final(self).selected == Some(id),
            final(self).coverage is None,
            final(self).error is None,
            final(self).connected == old(self).connected,
            final(self).loading == old(self).loading,
            final(self).projects == old(self).projects,
    {
        self.selected = Some(id);
        self.coverage = None;
        self.error = None;
    }

    /// Begin a translate of the selected project. No-op (returns false) when
    /// no project is selected.
    pub fn begin_translate(&mut self) -> (r: bool)
        ensures
            r == old(self).selected is Some,
            !r ==> *final(self) == *old(self),
            r ==> final(self).loading && final(self).error is None
                && final(self).connected == old(self).connected
                && final(self).projects == old(self).projects
                && final(self).selected == old(self).selected
                && final(self).coverage == old(self).coverage,
    {
        if self.selected.is_none() {
            return false;
        }
        self.loading = true;
        self.error = None;
        true
    }

    /// The translate result arrived: stop the skeleton and hold the report.
    pub fn set_coverage(&mut self, coverage: CoverageReport)
        ensures
            final(self).coverage == Some(coverage),
            !final(self).loading,
            final(self).error is None,
            final(self).connected == old(self).connected,
            final(self).projects == old(self).projects,
            final(self).selected == old(self).selected,
    {
        self.coverage = Some(coverage);
        self.loading = false;
        self.error = None;
    }

    /// A fetch failed: stop the skeleton and surface the message honestly.
    pub fn fail(&mut self, message: &str)
        ensures
            !final(self).loading,
            final(self).error matches Some(e) && e@ == message@,
            final(self).connected == old(self).connected,
            final(self).projects == old(self).projects,
            final(self).selected == old(self).selected,
            final(self).coverage == old(self).coverage,
    {
        self.loading = false;
        self.error = Some(strs::own(message));
    }

    /// Whether a translate can be triggered right now (a project is selected
    /// and nothing is already in flight).
    pub fn can_translate(&self) -> (r: bool)
        ensures
            r == (self.selected is Some && !self.loading),
    {
        self.selected.is_some() && !self.loading
    }

    /// Whether the loading skeleton should render.
    pub fn show_skeleton(&self) -> (r: bool)
        ensures
            r == self.loading,
    {
        self.loading
    }

    /// The coverage grid cells — style, coverage percentage as given, mapped
    /// and unmapped counts — or none when there is no report yet.
    pub fn coverage_stats(&self) -> (r: Vec<StatCell>)
        ensures
            match self.coverage {
                None => r@.len() == 0,
                Some(report) => {
                    &&& r@.len() == 4
                    &&& r@[0].label@ == "Style"@ && r@[0].value@ == report.style@
                    &&& r@[1].label@ == "Coverage"@ && r@[1].value@ == strs::signed_decimal(report.coverage_pct as int) + "%"@
                    &&& r@[2].label@ == "Mapped"@ && r@[2].value@ == strs::decimal(report.mapped@.len())
                    &&& r@[3].label@ == "Unmapped"@ && r@[3].value@ == strs::decimal(report.unmapped@.len())
                },
            },
    {
        match &self.coverage {
            None => Vec::new(),
            Some(report) => {
                let mut pct = String::new();
                strs::push_signed_decimal(&mut pct, report.coverage_pct);
                strs::append_str(&mut pct, "%");
                let mapped = strs::decimal_string(report.mapped.len() as u64);
                let unmapped = strs::decimal_string(report.unmapped.len() as u64);
                let mut r: Vec<StatCell> = Vec::new();
                r.push(StatCell { label: strs::own("Style"), value: report.style.clone() });
                r.push(StatCell { label: strs::own("Coverage"), value: pct });
                r.push(StatCell { label: strs::own("Mapped"), value: mapped });
                r.push(StatCell { label: strs::own("Unmapped"), value: unmapped });
                r
            },
        }
    }
}


/// The contents of the Python files among `files` (name, content), in order.
pub open spec fn python_contents(files: Seq<(String, String)>) -> Seq<Seq<char>>
    decreases files.len(),
{
    if files.len() == 0 {
        Seq::empty()
    } else if strs::has_suffix(files.last().0@, ".py"@) {
        python_contents(files.drop_last()).push(files.last().1@)
    } else {
        python_contents(files.drop_last())
    }
}

/// The project's Python source as one text: every `.py` file's content, in
/// order, separated by a blank line.
pub fn join_python_source(files: &[(String, String)]) -> (r: String)
    ensures
        r@ == strs::join(python_contents(files@), "\n\n"@),
{
    let suffix = strs::chars_of(".py");
    let mut parts: Vec<Vec<char>> = Vec::new();
    let mut i: usize = 0;
    while i < files.len()
        invariant
            i <= files@.len(),
            suffix@ == ".py"@,
            strs::views(parts@) == python_contents(files@.take(i as int)),
        decreases files@.len() - i,
    {
        assert(files@.take(i + 1).drop_last() =~= files@.take(i as int));
        assert(files@.take(i + 1).last() == files@[i as int]);
        let name = strs::chars_of(files[i].0.as_str());
        if strs::ends_with(&name, &suffix) {
            let ghost before = strs::views(parts@);
            parts.push(strs::chars_of(files[i].1.as_str()));
            assert(strs::views(parts@) =~= before.push(files@[i as int].1@));
        }
        i = i + 1;
    }
    assert(files@.take(i as int) =~= files@);
    let joined = strs::join_exec(&parts, &strs::chars_of("\n\n"));
    strs::string_of_chars(&joined)
}

/// The non-empty module names, in order.
pub open spec fn non_empty_names(names: Seq<String>) -> Seq<Seq<char>>
    decreases names.len(),
{
    if names.len() == 0 {
        Seq::empty()
    } else if names.last()@.len() == 0 {
        non_empty_names(names.drop_last())
    } else {
        non_empty_names(names.drop_last()).push(names.last()@)
    }
}

/// The mapped modules of a translate reply: its components' module names,
/// empty names dropped.
pub fn mapped_modules(component_modules: &[String]) -> (r: Vec<String>)
    ensures
        strs::views_of_strings(r@) == non_empty_names(component_modules@),
{
    let mut r: Vec<String> = Vec::new();
    let mut i: usize = 0;
    while i < component_modules.len()
        invariant
            i <= component_modules@.len(),
            strs::views_of_strings(r@) == non_empty_names(component_modules@.take(i as int)),
        decreases component_modules@.len() - i,
    {
        assert(component_modules@.take(i + 1).drop_last() =~= component_modules@.take(i as int));
        assert(component_modules@.take(i + 1).last() == component_modules@[i as int]);
        if strs::chars_of(component_modules[i].as_str()).len() > 0 {
            let ghost before = strs::views_of_strings(r@);
            r.push(component_modules[i].clone());
            assert(strs::views_of_strings(r@) =~= before.push(component_modules@[i as int]@));
        }
        i = i + 1;
    }
    assert(component_modules@.take(i as int) =~= component_modules@);
    r
}

// ── The translate flow's two replies ───────────────────────────────────

/// What the project-files fetch came back with.
#[derive(Debug, Clone, PartialEq, Eq)]
pub enum FilesFetch {
    /// The engine could not be reached or refused; its error text.
    Unreachable(String),
    /// The reply could not be read; the reading error's text.
    Unreadable(String),
    /// The project's files as `(name, content)`.
    Files(Vec<(String, String)>),
}

/// What the translate call came back with.
#[derive(Debug, Clone, PartialEq, Eq)]
pub enum TranslateFetch {
    /// The call failed; its error text.
    Failed(String),
    /// The reply could not be read; the reading error's text.
    Unreadable(String),
    /// The coverage report.
    Report(CoverageReport),
}

/// `prefix` + `detail` + ".".
pub open spec fn sentence(prefix: Seq<char>, detail: Seq<char>) -> Seq<char> {
    prefix + detail + "."@
}

fn sentence_exec(prefix: &str, detail: &str) -> (r: String)
    ensures
        r@ == sentence(prefix@, detail@),
{
    let mut s = strs::own(prefix);
    strs::append_str(&mut s, detail);
    strs::append_str(&mut s, ".");
    s
}

/// The same state with a failure surfaced: the skeleton stops and `message`
/// shows; nothing else changes.
pub open spec fn failed_with(before: ImportState, after: ImportState, message: Seq<char>) -> bool {
    &&& !after.loading
    &&& after.error matches Some(e) && e@ == message
    &&& after.connected == before.connected
    &&& after.projects == before.projects
    &&& after.selected == before.selected
    &&& after.coverage == before.coverage
}

impl ImportState {
    /// The selected project's files arrived. Returns the Python source to
    /// send for translation. A failed fetch, an unreadable reply, or a
    /// project with no Python source fails the flow with the message the
    /// view shows, and nothing is sent.
    pub fn files_arrived(&mut self, fetched: FilesFetch) -> (r: Option<String>)
        ensures
            match fetched {
                FilesFetch::Unreachable(e) => r is None
                    && failed_with(*old(self), *final(self), sentence("Couldn't load project files: "@, e@)),
                FilesFetch::Unreadable(e) => r is None
                    && failed_with(*old(self), *final(self), sentence("Couldn't read project files: "@, e@)),
                FilesFetch::Files(files) => {
                    let source = strs::join(python_contents(files@), "\n\n"@);
                    if strs::trim(source).len() == 0 {
                        r is None && failed_with(*old(self), *final(self), "This project has no LEAN Python source to translate."@)
                    } else {
                        r matches Some(s) && s@ == source && *final(self) == *old(self)
                    }
                },
            },
    {
        match fetched {
            FilesFetch::Unreachable(e) => {
                let m = sentence_exec("Couldn't load project files: ", e.as_str());
                self.fail(m.as_str());
                None
            },
            FilesFetch::Unreadable(e) => {
                let m = sentence_exec("Couldn't read project files: ", e.as_str());
                self.fail(m.as_str());
                None
            },
            FilesFetch::Files(files) => {
                let source = join_python_source(&files);
                if strs::is_blank(source.as_str()) {
                    self.fail("This project has no LEAN Python source to translate.");
                    None
                } else {
                    Some(source)
                }
            },
        }
    }

    /// The translation arrived: hold the report, or fail the flow with the
    /// message the view shows.
    pub fn translation_arrived(&mut self, fetched: TranslateFetch)
        ensures
            match fetched {
                TranslateFetch::Failed(e) => failed_with(*old(self), *final(self), sentence("Translation failed: "@, e@)),
                TranslateFetch::Unreadable(e) => failed_with(*old(self), *final(self), sentence("Couldn't read translation: "@, e@)),
                TranslateFetch::Report(report) => {
                    &&& final(self).coverage == Some(report)
                    &&& !final(self).loading
                    &&& final(self).error is None
                    &&& final(self).connected == old(self).connected
                    &&& final(self).projects == old(self).projects
                    &&& final(self).selected == old(self).selected
                },
            },
    {
        match fetched {
            TranslateFetch::Failed(e) => {
                let m = sentence_exec("Translation failed: ", e.as_str());
                self.fail(m.as_str());
            },
            TranslateFetch::Unreadable(e) => {
                let m = sentence_exec("Couldn't read translation: ", e.as_str());
                self.fail(m.as_str());
            },
            TranslateFetch::Report(report) => self.set_coverage(report),
        }
    }
}

// ── The project list and the coverage pane ─────────────────────────────

/// What the project-list fetch came back with.
#[derive(Debug, Clone, PartialEq, Eq)]
pub enum ProjectsFetch {
    /// The engine could not be reached or refused; its error text.
    Unreachable(String),
    /// The reply could not be read; the reading error's text.
    Unreadable(String),
    /// The listing: whether a QuantConnect account is connected, and its
    /// projects.
    Listed { connected: bool, projects: Vec<QcProject> },
}

impl ImportState {
    /// The project list arrived. A listing for an account that is not
    /// connected resets to the honest "connect first" state rather than an
    /// empty list that looks connected.
    pub fn projects_arrived(&mut self, fetched: ProjectsFetch)
        ensures
            match fetched {
                ProjectsFetch::Listed { connected, projects } => if !connected {
                    !final(self).connected && !final(self).loading && final(self).projects@.len() == 0
                        && final(self).selected is None && final(self).coverage is None && final(self).error is None
                } else {
                    final(self).projects == projects && !final(self).loading && final(self).error is None
                        && final(self).connected == old(self).connected
                        && final(self).selected == old(self).selected
                        && final(self).coverage == old(self).coverage
                },
                ProjectsFetch::Unreadable(e) => failed_with(*old(self), *final(self), sentence("Couldn't read projects: "@, e@)),
                ProjectsFetch::Unreachable(e) => failed_with(*old(self), *final(self), sentence("Couldn't load projects: "@, e@)),
            },
    {
        match fetched {
            ProjectsFetch::Listed { connected, projects } => {
                if !connected {
                    *self = ImportState::disconnected();
                } else {
                    self.set_projects(projects);
                }
            },
            ProjectsFetch::Unreadable(e) => {
                let m = sentence_exec("Couldn't read projects: ", e.as_str());
                self.fail(m.as_str());
            },
            ProjectsFetch::Unreachable(e) => {
                let m = sentence_exec("Couldn't load projects: ", e.as_str());
                self.fail(m.as_str());
            },
        }
    }
}

/// The warning over a report with unmapped constructs: how many, and which,
/// kept as TODOs rather than dropped.
pub fn unmapped_warning(report: &CoverageReport) -> (r: Option<String>)
    ensures
        strs::opt_view(r) == if report.unmapped@.len() == 0 {
            None
        } else {
            Some("The translator couldn't map "@ + strs::decimal(report.unmapped@.len())
                + " construct(s): "@ + strs::join(strs::views_of_strings(report.unmapped@), ", "@)
                + ". They are kept as TODOs in the scaffold, never dropped."@)
        },
{
    if report.unmapped.len() == 0 {
        return None;
    }
    let mut m = strs::own("The translator couldn't map ");
    strs::push_decimal(&mut m, report.unmapped.len() as u64);
    strs::append_str(&mut m, " construct(s): ");
    let listed = strs::join_strings(report.unmapped.as_slice(), ", ");
    strs::append_str(&mut m, listed.as_str());
    strs::append_str(&mut m, ". They are kept as TODOs in the scaffold, never dropped.");
    Some(m)
}

/// The translator's notes on one line, when there are any.
pub fn notes_line(report: &CoverageReport) -> (r: Option<String>)
    ensures
        strs::opt_view(r) == if report.notes@.len() == 0 {
            None
        } else {
            Some(strs::join(strs::views_of_strings(report.notes@), "  •  "@))
        },
{
    if report.notes.len() == 0 {
        None
    } else {
        Some(strs::join_strings(report.notes.as_slice(), "  •  "))
    }
}

} // verus!
