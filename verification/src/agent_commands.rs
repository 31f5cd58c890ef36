//! The agent commands: each names a prompt the agent panel starts, and the
//! ones that lead toward a deployment first make sure an execution broker is
//! configured, offering the connect wizard instead when none is.

use vstd::prelude::*;
use crate::json::{self, JsonValue};
use crate::strs;

verus! {

pub const RESEARCH_IDEAS: &'static str = "Scan recent arXiv papers on futures trading, term \
structure, carry, and trend-following / CTA systems using the research_scan tool. \
Return the most relevant papers with their abstracts, then synthesize at least \
three concrete futures-trading-system ideas I could backtest in Auracle, and \
write them up as a markdown research note.";

pub const RUN_BACKTEST: &'static str = "List the available strategies, ask me which one to \
test, then run a full vectorized backtest. Show the Sharpe ratio, maximum \
drawdown, total return, and the final target-weight vector.";

pub const WALK_FORWARD: &'static str = "Run an out-of-sample rolling walk-forward backtest \
with a train/test split using the run_walkforward tool. Show per-fold Sharpe and \
return, then give a one-sentence regime diagnosis summarising the aggregate \
out-of-sample win-rate and mean Sharpe.";

pub const PRE_MARKET_CHECK: &'static str = "Run a one-shot readiness check with the \
premarket_check tool: broker connectivity, net liquidation value, current \
positions, open orders, and the last 24 hours of job outcomes. Put any failures \
at the top.";

pub const OPEN_TEARSHEET: &'static str = "List the 10 most recent jobs. Ask me which one to \
open, then show its full summary: status, timing, any error message, and a \
plain-English account of what happened and why.";

pub const BROWSE_TEMPLATES: &'static str = "List all bundled example strategies with their \
titles and a one-sentence summary of each. Ask me which one I'd like to see in \
detail.";

pub const CLONE_TEMPLATE: &'static str = "List the bundled example strategies. Ask me which \
one to clone, then copy it into strategies/ as a new class and show me the file \
path and strategy path so I can run a backtest right away.";

pub const RUN_PREFLIGHT: &'static str = "List the available strategies and ask which one to \
check. Run pre-flight validation (code imports, universe data availability, \
broker auth, license tier) and show a pass / warn / fail verdict for each check.";

pub const INGEST_DATA: &'static str = "Ask me for a symbol, exchange, and date range, then \
download and store the daily OHLCV bars into the Auracle database. Confirm how \
many bars were inserted.";

pub const DRAFT_MANIFEST: &'static str = "List the available strategies and brokers, ask me \
which to use, then draft a deployment manifest with sensible defaults for the \
cron schedule, risk limits, and position sizing. Flag any validation issues.";

pub const VALIDATE_MANIFEST: &'static str = "Ask me which manifest file to validate, then \
check its structure, broker registration, universe coverage, and risk settings. \
List every issue you find with a concrete fix.";

pub const BACKTEST_MANIFEST: &'static str = "Ask me for a manifest file path, then run its \
strategy as a vectorized backtest with no live or paper broker call. Show the \
target weights and performance stats.";

pub const PROPOSE_AND_PROVE: &'static str = "Take the strategy in the active editor (or ask \
me which one). Propose two or three concrete variations — a different parameter \
value, an added exit rule, or a simpler signal. For EACH variation, run a \
backtest AND a rolling out-of-sample walk-forward using the backtest and \
run_walkforward tools, and present a side-by-side comparison versus the current \
strategy: in-sample Sharpe, out-of-sample Sharpe, max drawdown, and turnover. \
Recommend at most one change, and ONLY if it improves out-of-sample robustness — \
never recommend something that just looks better in-sample. Do not edit my file \
or deploy anything: show the comparison and the exact diff you would apply, and \
let me approve it.";

pub const START_INTERVIEW: &'static str = "Run a short strategy intake, then build me \
something real. Ask me at most two quick questions — what markets I follow and \
how often I want to trade — then propose one concrete, defensible strategy idea, \
write it as a one-file strategy with a `# %%spec` header that compiles to a \
Strategy subclass, and run a fast backtest so I can see an equity curve. Stay \
honest: if the edge looks weak out-of-sample, say so plainly. I can refine it by \
chat from there.";

/// A command of the agent palette.
#[derive(Debug, Clone, Copy, PartialEq, Eq)]
pub enum AgentCommand {
    ResearchIdeas,
    RunBacktest,
    WalkForward,
    PreMarketCheck,
    OpenTearsheet,
    BrowseTemplates,
    CloneTemplate,
    RunPreflight,
    IngestData,
    DraftManifest,
    ValidateManifest,
    BacktestManifest,
    ProposeAndProve,
    StartInterview,
}

/// The title a command's prompt runs under.
pub open spec fn title_of(c: AgentCommand) -> Seq<char> {
    match c {
        AgentCommand::ResearchIdeas => "Research ideas"@,
        AgentCommand::RunBacktest => "Run backtest"@,
        AgentCommand::WalkForward => "Walk-forward test"@,
        AgentCommand::PreMarketCheck => "Pre-market check"@,
        AgentCommand::OpenTearsheet => "Open tearsheet"@,
        AgentCommand::BrowseTemplates => "Browse templates"@,
        AgentCommand::CloneTemplate => "Clone template"@,
        AgentCommand::RunPreflight => "Run preflight"@,
        AgentCommand::IngestData => "Ingest data"@,
        AgentCommand::DraftManifest => "Draft manifest"@,
        AgentCommand::ValidateManifest => "Validate manifest"@,
        AgentCommand::BacktestManifest => "Backtest manifest"@,
        AgentCommand::ProposeAndProve => "Propose and prove"@,
        AgentCommand::StartInterview => "Start interview"@,
    }
}

/// The prompt a command starts.
pub open spec fn prompt_of(c: AgentCommand) -> Seq<char> {
    match c {
        AgentCommand::ResearchIdeas => RESEARCH_IDEAS@,
        AgentCommand::RunBacktest => RUN_BACKTEST@,
        AgentCommand::WalkForward => WALK_FORWARD@,
        AgentCommand::PreMarketCheck => PRE_MARKET_CHECK@,
        AgentCommand::OpenTearsheet => OPEN_TEARSHEET@,
        AgentCommand::BrowseTemplates => BROWSE_TEMPLATES@,
        AgentCommand::CloneTemplate => CLONE_TEMPLATE@,
        AgentCommand::RunPreflight => RUN_PREFLIGHT@,
        AgentCommand::IngestData => INGEST_DATA@,
        AgentCommand::DraftManifest => DRAFT_MANIFEST@,
        AgentCommand::ValidateManifest => VALIDATE_MANIFEST@,
        AgentCommand::BacktestManifest => BACKTEST_MANIFEST@,
        AgentCommand::ProposeAndProve => PROPOSE_AND_PROVE@,
        AgentCommand::StartInterview => START_INTERVIEW@,
    }
}

/// Whether a command leads toward a deployment and so needs a broker.
pub open spec fn broker_gated(c: AgentCommand) -> bool {
    c == AgentCommand::RunPreflight || c == AgentCommand::DraftManifest
}

impl AgentCommand {
    /// The title the command's prompt runs under.
    pub fn title(self) -> (r: &'static str)
        ensures
            r@ == title_of(self),
    {
        match self {
            AgentCommand::ResearchIdeas => "Research ideas",
            AgentCommand::RunBacktest => "Run backtest",
            AgentCommand::WalkForward => "Walk-forward test",
            AgentCommand::PreMarketCheck => "Pre-market check",
            AgentCommand::OpenTearsheet => "Open tearsheet",
            AgentCommand::BrowseTemplates => "Browse templates",
            AgentCommand::CloneTemplate => "Clone template",
            AgentCommand::RunPreflight => "Run preflight",
            AgentCommand::IngestData => "Ingest data",
            AgentCommand::DraftManifest => "Draft manifest",
            AgentCommand::ValidateManifest => "Validate manifest",
            AgentCommand::BacktestManifest => "Backtest manifest",
            AgentCommand::ProposeAndProve => "Propose and prove",
            AgentCommand::StartInterview => "Start interview",
        }
    }

    /// The prompt the command starts.
    pub fn prompt(self) -> (r: &'static str)
        ensures
            r@ == prompt_of(self),
    {
        match self {
            AgentCommand::ResearchIdeas => RESEARCH_IDEAS,
            AgentCommand::RunBacktest => RUN_BACKTEST,
            AgentCommand::WalkForward => WALK_FORWARD,
            AgentCommand::PreMarketCheck => PRE_MARKET_CHECK,
            AgentCommand::OpenTearsheet => OPEN_TEARSHEET,
            AgentCommand::BrowseTemplates => BROWSE_TEMPLATES,
            AgentCommand::CloneTemplate => CLONE_TEMPLATE,
            AgentCommand::RunPreflight => RUN_PREFLIGHT,
            AgentCommand::IngestData => INGEST_DATA,
            AgentCommand::DraftManifest => DRAFT_MANIFEST,
            AgentCommand::ValidateManifest => VALIDATE_MANIFEST,
            AgentCommand::BacktestManifest => BACKTEST_MANIFEST,
            AgentCommand::ProposeAndProve => PROPOSE_AND_PROVE,
            AgentCommand::StartInterview => START_INTERVIEW,
        }
    }

    /// Whether the command first checks for a configured broker.
    pub fn needs_broker(self) -> (r: bool)
        ensures
            r == broker_gated(self),
    {
        match self {
            AgentCommand::RunPreflight | AgentCommand::DraftManifest => true,
            _ => false,
        }
    }
}

/// Whether the engine reports a configured active execution broker: only
/// with a non-blank key and a capabilities reply naming a non-blank
/// `active_broker`; a missing key or a failed fetch reads as not configured.
pub open spec fn broker_configured_of(api_key: Option<Seq<char>>, capabilities: Option<JsonValue>) -> bool {
    match api_key {
        None => false,
        Some(k) => strs::trim(k).len() > 0 && match capabilities {
            None => false,
            Some(v) => match json::str_of(json::field(v, "active_broker"@)) {
                Some(b) => strs::trim(b).len() > 0,
                None => false,
            },
        },
    }
}

/// Decide from the saved key and the capabilities reply (`None` when the
/// fetch failed or was not made) whether a broker is configured.
pub fn broker_configured(api_key: Option<&str>, capabilities: Option<&JsonValue>) -> (r: bool)
    ensures
        r == broker_configured_of(strs::opt_str_view(api_key), match capabilities {
            Some(v) => Some(*v),
            None => None,
        }),
{
    let key = match api_key {
        Some(k) => k,
        None => return false,
    };
    if strs::is_blank(key) {
        return false;
    }
    match capabilities {
        None => false,
        Some(v) => match v.get("active_broker") {
            Some(b) => match b.as_str() {
                Some(s) => !strs::is_blank(s),
                None => false,
            },
            None => false,
        },
    }
}

/// What running a command does.
#[derive(Debug, Clone, Copy, PartialEq, Eq)]
pub enum CommandRoute {
    /// Start the command's prompt in the agent panel.
    RunPrompt,
    /// Open the broker connect wizard so a broker can be connected first.
    OpenBrokerWizard,
}

/// Route a command: a broker-gated command without a configured broker
/// opens the connect wizard; everything else runs its prompt.
pub fn route(command: AgentCommand, broker_configured: bool) -> (r: CommandRoute)
    ensures
        r == if broker_gated(command) && !broker_configured {
            CommandRoute::OpenBrokerWizard
        } else {
            CommandRoute::RunPrompt
        },
{
    if command.needs_broker() && !broker_configured {
        CommandRoute::OpenBrokerWizard
    } else {
        CommandRoute::RunPrompt
    }
}

} // verus!
