//! The "Agent rules" subpage rows: the real sources the agent draws its rules
//! from, each with an honest status, tone and openability.

use vstd::prelude::*;
use crate::strs;

verus! {

/// Tone for a rule row's status.
#[derive(Debug, Clone, Copy, PartialEq, Eq)]
pub enum RuleTone {
    /// In effect / present.
    Active,
    /// Reachable but not yet established.
    Neutral,
}

/// Which real source a row stands for.
#[derive(Debug, Clone, Copy, PartialEq, Eq)]
pub enum RuleSource {
    /// The user-global `AGENTS.md` rules file.
    GlobalAgentsFile,
    /// The first worktree's project `AGENTS.md` rules file.
    ProjectAgentsFile,
    /// The reusable rule files held in the prompt store.
    PromptStore,
}

/// One row on the agent-rules subpage.
#[derive(Debug, Clone, PartialEq, Eq)]
pub struct RuleRow {
    pub source: RuleSource,
    pub title: String,
    pub status: String,
    pub tone: RuleTone,
    /// Whether an "Open" affordance applies.
    pub openable: bool,
}

/// Facts about the prompt store.
#[derive(Debug, Clone, Copy, PartialEq, Eq)]
pub struct PromptStoreFacts {
    /// Whether the store has been opened; counts are not trusted otherwise.
    pub loaded: bool,
    /// Number of reusable rule files the store holds.
    pub rule_count: usize,
    /// Whether any stored rule is marked as the agent's default.
    pub has_default: bool,
}

/// The facts gathered from the real sources before rendering.
#[derive(Debug, Clone, Copy, PartialEq, Eq)]
pub struct RulesFacts {
    /// Whether the user-global `AGENTS.md` already exists on disk.
    pub global_file_exists: bool,
    /// Whether a worktree is open.
    pub has_project_worktree: bool,
    /// Whether the project `AGENTS.md` already exists on disk.
    pub project_file_exists: bool,
    pub prompt_store: PromptStoreFacts,
}

/// Status line and tone of a rules file row.
pub open spec fn file_status_view(exists: bool) -> (Seq<char>, RuleTone) {
    if exists {
        ("In effect"@, RuleTone::Active)
    } else {
        ("Not created yet — opening it creates the file"@, RuleTone::Neutral)
    }
}

fn file_status(exists: bool) -> (r: (String, RuleTone))
    ensures
        (r.0@, r.1) == file_status_view(exists),
{
    if exists {
        (strs::own("In effect"), RuleTone::Active)
    } else {
        (strs::own("Not created yet — opening it creates the file"), RuleTone::Neutral)
    }
}

/// The rule count phrase of a loaded store.
pub open spec fn count_text(n: nat) -> Seq<char> {
    if n == 0 {
        "No reusable rules yet"@
    } else if n == 1 {
        "1 reusable rule"@
    } else {
        strs::decimal(n) + " reusable rules"@
    }
}

/// Status line and tone of the prompt-store row.
pub open spec fn store_status_view(facts: PromptStoreFacts) -> (Seq<char>, RuleTone) {
    if !facts.loaded {
        ("Rules library unavailable"@, RuleTone::Neutral)
    } else if facts.has_default {
        (count_text(facts.rule_count as nat) + " · default set"@, RuleTone::Active)
    } else {
        (count_text(facts.rule_count as nat), RuleTone::Neutral)
    }
}

fn store_status(facts: PromptStoreFacts) -> (r: (String, RuleTone))
    ensures
        (r.0@, r.1) == store_status_view(facts),
{
    if !facts.loaded {
        return (strs::own("Rules library unavailable"), RuleTone::Neutral);
    }
    let rules = if facts.rule_count == 0 {
        strs::own("No reusable rules yet")
    } else if facts.rule_count == 1 {
        strs::own("1 reusable rule")
    } else {
        let mut s = String::new();
        strs::push_decimal(&mut s, facts.rule_count as u64);
        strs::append_str(&mut s, " reusable rules");
        assert(s@ =~= count_text(facts.rule_count as nat));
        s
    };
    if facts.has_default {
        let mut s = rules;
        strs::append_str(&mut s, " · default set");
        (s, RuleTone::Active)
    } else {
        (rules, RuleTone::Neutral)
    }
}

/// What a row shows.
pub open spec fn row_view(r: RuleRow) -> (RuleSource, Seq<char>, Seq<char>, RuleTone, bool) {
    (r.source, r.title@, r.status@, r.tone, r.openable)
}

/// The rows for the gathered facts: the global file, the project file when a
/// worktree is open, then the prompt store (openable only when loaded).
pub open spec fn rows_view(facts: RulesFacts) -> Seq<(RuleSource, Seq<char>, Seq<char>, RuleTone, bool)> {
    let g = file_status_view(facts.global_file_exists);
    let p = file_status_view(facts.project_file_exists);
    let st = store_status_view(facts.prompt_store);
    let global = (RuleSource::GlobalAgentsFile, "Global agent rules"@, g.0, g.1, true);
    let project = (RuleSource::ProjectAgentsFile, "Project agent rules"@, p.0, p.1, true);
    let store = (RuleSource::PromptStore, "Reusable rules library"@, st.0, st.1, facts.prompt_store.loaded);
    if facts.has_project_worktree {
        seq![global, project, store]
    } else {
        seq![global, store]
    }
}

/// Build the rows for the agent-rules subpage from the gathered facts.
pub fn derive_rows(facts: RulesFacts) -> (r: Vec<RuleRow>)
    ensures
        r@.map_values(|x: RuleRow| row_view(x)) == rows_view(facts),
{
    let mut rows: Vec<RuleRow> = Vec::new();
    let (status, tone) = file_status(facts.global_file_exists);
    rows.push(RuleRow {
        source: RuleSource::GlobalAgentsFile,
        title: strs::own("Global agent rules"),
        status,
        tone,
        openable: true,
    });
    if facts.has_project_worktree {
        let (status, tone) = file_status(facts.project_file_exists);
        rows.push(RuleRow {
            source: RuleSource::ProjectAgentsFile,
            title: strs::own("Project agent rules"),
            status,
            tone,
            openable: true,
        });
    }
    let (status, tone) = store_status(facts.prompt_store);
    rows.push(RuleRow {
        source: RuleSource::PromptStore,
        title: strs::own("Reusable rules library"),
        status,
        tone,
        openable: facts.prompt_store.loaded,
    });
    assert(rows@.map_values(|x: RuleRow| row_view(x)) =~= rows_view(facts));
    rows
}

} // verus!
