//! The strategy cockpit: its state as the active file, the engine's replies
//! and the operator's clicks move it, the one-line summaries of engine
//! replies, and the query encoding of a strategy path.

use vstd::prelude::*;
use crate::cockpit_state::{self, FeedState, ResolveState};
use crate::deploy_gate::{self, DeployDecision};
use crate::json::{self, JsonValue};
use crate::strs;
use vstd::string::StringSliceAdditionalSpecFns;

verus! {

/// How many signals carry the tier `red`.
pub open spec fn red_count(signals: Seq<JsonValue>) -> nat
    decreases signals.len(),
{
    if signals.len() == 0 {
        0
    } else {
        red_count(signals.drop_last()) + if json::str_of(json::field(signals.last(), "tier"@)) == Some("red"@) {
            1nat
        } else {
            0nat
        }
    }
}

/// The cockpit's line for a validation reply: the engine's plain-English
/// summary when it sent one, otherwise a count of red signals.
pub open spec fn validation_line(value: JsonValue) -> Seq<char> {
    match json::str_of(json::field(value, "plain"@)) {
        Some(plain) => plain,
        None => {
            let red = match json::items_of(json::field(value, "signals"@)) {
                Some(items) => red_count(items),
                None => 0,
            };
            if red == 0 {
                "Validation passed."@
            } else {
                "Validation: "@ + strs::decimal(red) + " red signal(s)."@
            }
        },
    }
}

fn count_red(signals: &Vec<JsonValue>) -> (r: usize)
    ensures
        r == red_count(signals@),
{
    let mut n: usize = 0;
    let mut i: usize = 0;
    while i < signals.len()
        invariant
            i <= signals@.len(),
            n == red_count(signals@.take(i as int)),
            n <= i,
        decreases signals@.len() - i,
    {
        assert(signals@.take(i + 1).drop_last() =~= signals@.take(i as int));
        let is_red = match signals[i].get("tier") {
            Some(t) => match t.as_str() {
                Some(s) => strs::eq_str(s, "red"),
                None => false,
            },
            None => false,
        };
        if is_red {
            n = n + 1;
        }
        i = i + 1;
    }
    assert(signals@.take(i as int) =~= signals@);
    n
}

/// Summarise a validation reply in one line.
pub fn validation_summary(value: &JsonValue) -> (r: String)
    ensures
        r@ == validation_line(*value),
{
    if let Some(p) = value.get("plain") {
        if let Some(plain) = p.as_str() {
            return strs::own(plain);
        }
    }
    let red = match value.get("signals") {
        Some(s) => match s.as_array() {
            Some(items) => count_red(items),
            None => 0,
        },
        None => 0,
    };
    if red == 0 {
        strs::own("Validation passed.")
    } else {
        let mut r = strs::own("Validation: ");
        strs::push_decimal(&mut r, red as u64);
        strs::append_str(&mut r, " red signal(s).");
        r
    }
}

/// The cockpit's line for a deploy reply: accepted unless the engine says
/// `ok: false`, in which case its message (or a stock one) is shown.
pub open spec fn deploy_line(value: JsonValue, paper: bool) -> Seq<char> {
    let ok = match json::bool_of(json::field(value, "ok"@)) {
        Some(b) => b,
        None => true,
    };
    let target = if paper { "paper"@ } else { "live"@ };
    if ok {
        "Deployed to "@ + target + "."@
    } else {
        let message = match json::str_of(json::field(value, "message"@)) {
            Some(m) => m,
            None => "engine refused the deploy"@,
        };
        "Deploy not accepted: "@ + message + "."@
    }
}

/// Summarise a deploy reply in one line.
pub fn deploy_summary(value: &JsonValue, paper: bool) -> (r: String)
    ensures
        r@ == deploy_line(*value, paper),
{
    let ok = match value.get("ok") {
        Some(v) => match v.as_bool() {
            Some(b) => b,
            None => true,
        },
        None => true,
    };
    let target = if paper { "paper" } else { "live" };
    if ok {
        let mut r = strs::own("Deployed to ");
        strs::append_str(&mut r, target);
        strs::append_str(&mut r, ".");
        r
    } else {
        let message = match value.get("message") {
            Some(v) => match v.as_str() {
                Some(m) => m,
                None => "engine refused the deploy",
            },
            None => "engine refused the deploy",
        };
        let mut r = strs::own("Deploy not accepted: ");
        strs::append_str(&mut r, message);
        strs::append_str(&mut r, ".");
        r
    }
}

/// A byte that passes through a query unescaped: ASCII letters, digits and
/// `-`, `_`, `.`, `~`.
pub open spec fn unreserved(b: u8) -> bool {
    (65 <= b <= 90) || (97 <= b <= 122) || (48 <= b <= 57) || b == 45 || b == 95 || b == 46 || b == 126
}

/// The uppercase hexadecimal digit of `n < 16`.
pub open spec fn hex_digit(n: u8) -> char {
    if n < 10 {
        (48 + n) as char
    } else {
        (55 + n) as char
    }
}

/// One byte as it appears in a query: itself when unreserved, else `%XX`.
pub open spec fn encode_byte(b: u8) -> Seq<char> {
    if unreserved(b) {
        seq![b as char]
    } else {
        seq!['%', hex_digit(b / 16), hex_digit(b % 16)]
    }
}

/// The percent-encoding of a byte string.
pub open spec fn percent_encoded(bytes: Seq<u8>) -> Seq<char>
    decreases bytes.len(),
{
    if bytes.len() == 0 {
        Seq::empty()
    } else {
        percent_encoded(bytes.drop_last()) + encode_byte(bytes.last())
    }
}

fn hex_digit_exec(n: u8) -> (c: char)
    requires
        n < 16,
    ensures
        c == hex_digit(n),
{
    if n < 10 {
        (48 + n) as char
    } else {
        (55 + n) as char
    }
}

/// Minimal percent-encoding for a strategy path in a query string: every
/// UTF-8 byte but the unreserved ones becomes `%XX`.
pub fn url_encode(value: &str) -> (r: String)
    ensures
        r@ == percent_encoded(value.spec_bytes()),
{
    let bytes = value.as_bytes();
    let mut encoded = String::new();
    let mut i: usize = 0;
    while i < bytes.len()
        invariant
            i <= bytes@.len(),
            bytes@ == value.spec_bytes(),
            encoded@ == percent_encoded(bytes@.take(i as int)),
        decreases bytes@.len() - i,
    {
        let b = bytes[i];
        assert(bytes@.take(i + 1).drop_last() =~= bytes@.take(i as int));
        assert(bytes@.take(i + 1).last() == b);
        let keep = (65 <= b && b <= 90) || (97 <= b && b <= 122) || (48 <= b && b <= 57) || b == 45 || b == 95
            || b == 46 || b == 126;
        if keep {
            strs::push_char(&mut encoded, b as char);
        } else {
            strs::push_char(&mut encoded, '%');
            strs::push_char(&mut encoded, hex_digit_exec(b / 16));
            strs::push_char(&mut encoded, hex_digit_exec(b % 16));
        }
        i = i + 1;
    }
    assert(bytes@.take(i as int) =~= bytes@);
    encoded
}

// ── The cockpit's state ────────────────────────────────────────────────

/// The state of one cockpit verb.
#[derive(Debug, Clone, PartialEq, Eq)]
pub enum ActionState {
    Idle,
    Running,
    /// Finished; the one-line summary.
    Okay(String),
    /// Failed; the message.
    Error(String),
}

/// Whether the cockpit is showing, and for which file.
#[derive(Debug, Clone, PartialEq, Eq)]
pub enum CockpitVisibility {
    Hidden,
    Shown {
        /// Absolute path of the active `.py` buffer.
        file_path: String,
        /// Resolution of this file against the engine's strategy listing.
        resolve: ResolveState,
    },
}

/// The strategy cockpit's state: which file it shows, each verb's state, the
/// live-deploy gate and the data-feed reading.
#[derive(Debug, Clone, PartialEq, Eq)]
pub struct StrategyCockpit {
    pub visibility: CockpitVisibility,
    pub backtest: ActionState,
    pub validate: ActionState,
    pub deploy: ActionState,
    /// Whether the engine reports live trading allowed for the active broker.
    pub deploy_live_allowed: bool,
    /// A live deploy armed by a first click, awaiting its confirming click.
    pub awaiting_live_confirm: bool,
    pub feed: FeedState,
}

/// The resolved strategy path a cockpit acts on, if any.
pub open spec fn strategy_of(v: CockpitVisibility) -> Option<Seq<char>> {
    match v {
        CockpitVisibility::Shown { resolve: ResolveState::Strategy(p), .. } => Some(p@),
        _ => None,
    }
}

/// Whether the cockpit is showing the file `path`.
pub open spec fn showing(v: CockpitVisibility, path: Seq<char>) -> bool {
    match v {
        CockpitVisibility::Shown { file_path, .. } => file_path@ == path,
        CockpitVisibility::Hidden => false,
    }
}

/// What a toolbar verb's failure reads: `prefix`, the error, and a period.
pub open spec fn failure_line(prefix: Seq<char>, error: Seq<char>) -> Seq<char> {
    prefix + error + "."@
}

fn failure_text(prefix: &str, error: &str) -> (r: String)
    ensures
        r@ == failure_line(prefix@, error@),
{
    let mut s = strs::own(prefix);
    strs::append_str(&mut s, error);
    strs::append_str(&mut s, ".");
    s
}

fn copy_resolve(r: &ResolveState) -> (c: ResolveState)
    ensures
        c == *r,
{
    match r {
        ResolveState::Resolving => ResolveState::Resolving,
        ResolveState::Strategy(p) => ResolveState::Strategy(p.clone()),
        ResolveState::NotAStrategy => ResolveState::NotAStrategy,
        ResolveState::EngineUnreachable => ResolveState::EngineUnreachable,
    }
}

/// Whether a file is a Python source file, by its name.
pub fn is_python_file(file_name: &str) -> (r: bool)
    ensures
        r == strs::has_suffix(file_name@, ".py"@),
{
    strs::ends_with(&strs::chars_of(file_name), &strs::chars_of(".py"))
}

/// After the engine resolved a file: the strategy path whose data feed and
/// live permission to poll next, if it resolved to a strategy.
pub fn context_polls(resolution: &ResolveState) -> (r: Option<String>)
    ensures
        strs::opt_view(r) == match *resolution {
            ResolveState::Strategy(p) => Some(p@),
            _ => None::<Seq<char>>,
        },
{
    match resolution {
        ResolveState::Strategy(p) => Some(strs::own(p.as_str())),
        _ => None,
    }
}

impl StrategyCockpit {
    /// A fresh cockpit: hidden, every verb idle, live not allowed, and the
    /// feed checking (no poll has answered yet).
    pub fn new() -> (c: Self)
        ensures
            c.visibility == CockpitVisibility::Hidden,
            c.backtest == ActionState::Idle,
            c.validate == ActionState::Idle,
            c.deploy == ActionState::Idle,
            !c.deploy_live_allowed,
            !c.awaiting_live_confirm,
            c.feed == FeedState::Polling,
    {
        StrategyCockpit {
            visibility: CockpitVisibility::Hidden,
            backtest: ActionState::Idle,
            validate: ActionState::Idle,
            deploy: ActionState::Idle,
            deploy_live_allowed: false,
            awaiting_live_confirm: false,
            feed: FeedState::Polling,
        }
    }

    /// The dotted strategy path the verbs act on, once the file resolved.
    pub fn active_strategy_path(&self) -> (r: Option<&str>)
        ensures
            strs::opt_str_view(r) == strategy_of(self.visibility),
    {
        match &self.visibility {
            CockpitVisibility::Shown { resolve: ResolveState::Strategy(path), .. } => Some(path.as_str()),
            _ => None,
        }
    }

    /// The resolve state the verbs render from; a hidden cockpit reads as
    /// resolving.
    pub fn resolve_state(&self) -> (r: ResolveState)
        ensures
            r == match self.visibility {
                CockpitVisibility::Shown { resolve, .. } => resolve,
                CockpitVisibility::Hidden => ResolveState::Resolving,
            },
    {
        match &self.visibility {
            CockpitVisibility::Shown { resolve, .. } => copy_resolve(resolve),
            CockpitVisibility::Hidden => ResolveState::Resolving,
        }
    }

    /// Show `file_path` and start resolving it. Returns the dotted module to
    /// look up in the engine's strategy listing; a file outside a
    /// `strategies/` root reads as not a strategy at once (feed unknown) and
    /// nothing is looked up. Starting a lookup disarms a pending live
    /// confirmation, which must never carry over to another context.
    pub fn refresh_context(&mut self, file_path: &str) -> (r: Option<String>)
        ensures
            strs::opt_view(r) == cockpit_state::module_of_path(file_path@),
            final(self).backtest == old(self).backtest,
            final(self).validate == old(self).validate,
            final(self).deploy == old(self).deploy,
            final(self).deploy_live_allowed == old(self).deploy_live_allowed,
            match r {
                None => {
                    &&& final(self).visibility matches CockpitVisibility::Shown { file_path: f, resolve: ResolveState::NotAStrategy } && f@ == file_path@
                    &&& final(self).feed == FeedState::Unknown
                    &&& final(self).awaiting_live_confirm == old(self).awaiting_live_confirm
                },
                Some(_) => {
                    &&& final(self).visibility matches CockpitVisibility::Shown { file_path: f, resolve: ResolveState::Resolving } && f@ == file_path@
                    &&& final(self).feed == FeedState::Polling
                    &&& !final(self).awaiting_live_confirm
                },
            },
    {
        match cockpit_state::strategy_module_from_path(file_path) {
            None => {
                self.visibility = CockpitVisibility::Shown {
                    file_path: strs::own(file_path),
                    resolve: ResolveState::NotAStrategy,
                };
                self.feed = FeedState::Unknown;
                None
            },
            Some(module) => {
                self.visibility = CockpitVisibility::Shown {
                    file_path: strs::own(file_path),
                    resolve: ResolveState::Resolving,
                };
                self.feed = FeedState::Polling;
                self.awaiting_live_confirm = false;
                Some(module)
            },
        }
    }

    /// A context lookup started for `resolved_for` finished: the resolution,
    /// and the feed and live permission polled for it (`Unknown` and `false`
    /// when it did not resolve to a strategy). Applied only while the cockpit
    /// still shows that file, so a slow reply never paints one strategy's
    /// feed onto another.
    pub fn apply_context(&mut self, resolved_for: &str, resolution: ResolveState, feed: FeedState, live_allowed: bool)
        ensures
            !showing(old(self).visibility, resolved_for@) ==> *final(self) == *old(self),
            showing(old(self).visibility, resolved_for@) ==> {
                &&& final(self).visibility == (CockpitVisibility::Shown {
                    file_path: old(self).visibility->file_path,
                    resolve: resolution,
                })
                &&& final(self).feed == (if resolution is Strategy { feed } else { FeedState::Unknown })
                &&& final(self).deploy_live_allowed == (resolution is Strategy && live_allowed)
                &&& final(self).backtest == old(self).backtest
                &&& final(self).validate == old(self).validate
                &&& final(self).deploy == old(self).deploy
                &&& final(self).awaiting_live_confirm == old(self).awaiting_live_confirm
            },
    {
        let still_current = match &self.visibility {
            CockpitVisibility::Shown { file_path, .. } => strs::eq_str(file_path.as_str(), resolved_for),
            CockpitVisibility::Hidden => false,
        };
        if !still_current {
            return;
        }
        let is_strategy = match &resolution {
            ResolveState::Strategy(_) => true,
            _ => false,
        };
        let mut shown = CockpitVisibility::Hidden;
        std::mem::swap(&mut shown, &mut self.visibility);
        let file_path = match shown {
            CockpitVisibility::Shown { file_path, .. } => file_path,
            CockpitVisibility::Hidden => String::new(),
        };
        self.visibility = CockpitVisibility::Shown { file_path, resolve: resolution };
        self.feed = if is_strategy { feed } else { FeedState::Unknown };
        self.deploy_live_allowed = is_strategy && live_allowed;
    }

    /// The editor's active item changed; `py_path` is its file when that is
    /// a Python file. A newly shown file resets every verb to idle and
    /// starts a context refresh, whose module to look up is returned (as
    /// from [`Self::refresh_context`]); the same file changes nothing; no
    /// Python file hides the cockpit. Returns whether the cockpit is shown,
    /// and the module to look up.
    pub fn set_active_file(&mut self, py_path: Option<&str>) -> (r: (bool, Option<String>))
        ensures
            r.0 == (py_path is Some),
            match py_path {
                None => r.1 is None && final(self).visibility == CockpitVisibility::Hidden
                    && final(self).backtest == old(self).backtest
                    && final(self).validate == old(self).validate
                    && final(self).deploy == old(self).deploy
                    && final(self).feed == old(self).feed
                    && final(self).deploy_live_allowed == old(self).deploy_live_allowed
                    && final(self).awaiting_live_confirm == old(self).awaiting_live_confirm,
                Some(p) => if showing(old(self).visibility, p@) {
                    r.1 is None && *final(self) == *old(self)
                } else {
                    &&& strs::opt_view(r.1) == cockpit_state::module_of_path(p@)
                    &&& showing(final(self).visibility, p@)
                    &&& final(self).backtest == ActionState::Idle
                    &&& final(self).validate == ActionState::Idle
                    &&& final(self).deploy == ActionState::Idle
                },
            },
    {
        match py_path {
            Some(p) => {
                let already = match &self.visibility {
                    CockpitVisibility::Shown { file_path, .. } => strs::eq_str(file_path.as_str(), p),
                    CockpitVisibility::Hidden => false,
                };
                if already {
                    (true, None)
                } else {
                    self.backtest = ActionState::Idle;
                    self.validate = ActionState::Idle;
                    self.deploy = ActionState::Idle;
                    let module = self.refresh_context(p);
                    (true, module)
                }
            },
            None => {
                self.visibility = CockpitVisibility::Hidden;
                (false, None)
            },
        }
    }

    /// Backtest clicked: the strategy path to post, with the verb running;
    /// `None`, changing nothing, when no strategy is resolved.
    pub fn begin_backtest(&mut self) -> (r: Option<String>)
        ensures
            strs::opt_view(r) == strategy_of(old(self).visibility),
            r is Some ==> *final(self) == (StrategyCockpit { backtest: ActionState::Running, ..*old(self) }),
            r is None ==> *final(self) == *old(self),
    {
        let path = match self.active_strategy_path() {
            Some(p) => strs::own(p),
            None => return None,
        };
        self.backtest = ActionState::Running;
        Some(path)
    }

    /// The backtest finished: its one-line summary, or the error.
    pub fn backtest_finished(&mut self, result: Result<String, String>)
        ensures
            final(self).visibility == old(self).visibility,
            final(self).validate == old(self).validate,
            final(self).deploy == old(self).deploy,
            final(self).deploy_live_allowed == old(self).deploy_live_allowed,
            final(self).awaiting_live_confirm == old(self).awaiting_live_confirm,
            final(self).feed == old(self).feed,
            match result {
                Ok(line) => final(self).backtest == ActionState::Okay(line),
                Err(e) => final(self).backtest matches ActionState::Error(m) && m@ == failure_line("Backtest failed: "@, e@),
            },
    {
        self.backtest = match result {
            Ok(line) => ActionState::Okay(line),
            Err(e) => ActionState::Error(failure_text("Backtest failed: ", e.as_str())),
        };
    }

    /// Validate clicked: the validation route to query for the resolved
    /// strategy, with the verb running; `None`, changing nothing, when no
    /// strategy is resolved.
    pub fn begin_validate(&mut self) -> (r: Option<String>)
        ensures
            match strategy_of(old(self).visibility) {
                Some(p) => r matches Some(route)
                    && route@ == "/ui/api/validation?strategy_path="@ + percent_encoded(vstd::utf8::encode_utf8(p)),
                None => r is None,
            },
            r is Some ==> *final(self) == (StrategyCockpit { validate: ActionState::Running, ..*old(self) }),
            r is None ==> *final(self) == *old(self),
    {
        let route = match self.active_strategy_path() {
            Some(p) => {
                let mut route = strs::own("/ui/api/validation?strategy_path=");
                let encoded = url_encode(p);
                strs::append_str(&mut route, encoded.as_str());
                route
            },
            None => return None,
        };
        self.validate = ActionState::Running;
        Some(route)
    }

    /// The validation reply arrived (or the call failed with an error).
    pub fn validate_finished(&mut self, result: Result<&JsonValue, &str>)
        ensures
            final(self).visibility == old(self).visibility,
            final(self).backtest == old(self).backtest,
            final(self).deploy == old(self).deploy,
            final(self).deploy_live_allowed == old(self).deploy_live_allowed,
            final(self).awaiting_live_confirm == old(self).awaiting_live_confirm,
            final(self).feed == old(self).feed,
            match result {
                Ok(v) => final(self).validate matches ActionState::Okay(m) && m@ == validation_line(*v),
                Err(e) => final(self).validate matches ActionState::Error(m) && m@ == failure_line("Validate failed: "@, e@),
            },
    {
        self.validate = match result {
            Ok(v) => ActionState::Okay(validation_summary(v)),
            Err(e) => ActionState::Error(failure_text("Validate failed: ", e)),
        };
    }

    /// Deploy clicked: the strategy path and whether a live deploy was armed
    /// when clicked, with the verb running; `None`, changing nothing, when no
    /// strategy is resolved. Live permission is then re-checked fresh and
    /// handed to [`Self::deploy_permission`].
    pub fn begin_deploy(&mut self) -> (r: Option<(String, bool)>)
        ensures
            match r {
                Some((p, armed)) => strategy_of(old(self).visibility) == Some(p@)
                    && armed == old(self).awaiting_live_confirm
                    && *final(self) == (StrategyCockpit { deploy: ActionState::Running, ..*old(self) }),
                None => strategy_of(old(self).visibility) is None && *final(self) == *old(self),
            },
    {
        let path = match self.active_strategy_path() {
            Some(p) => strs::own(p),
            None => return None,
        };
        self.deploy = ActionState::Running;
        Some((path, self.awaiting_live_confirm))
    }

    /// The fresh live permission arrived for a deploy click that found a live
    /// deploy `armed` or not. A first click while live is allowed only arms
    /// the confirmation (returns `None`: nothing is sent); otherwise returns
    /// whether the deploy goes out as paper. Live is sent only on a
    /// confirming click while live is still allowed.
    pub fn deploy_permission(&mut self, armed: bool, live_allowed: bool) -> (r: Option<bool>)
        ensures
            r == (if !live_allowed {
                Some(true)
            } else if armed {
                Some(false)
            } else {
                None
            }),
            r == Some(false) <==> (armed && live_allowed),
            r is None ==> *final(self) == (StrategyCockpit {
                deploy_live_allowed: true,
                deploy: ActionState::Idle,
                awaiting_live_confirm: true,
                ..*old(self)
            }),
            r is Some ==> *final(self) == *old(self),
    {
        match deploy_gate::decide_deploy(armed, live_allowed) {
            DeployDecision::ArmConfirm => {
                self.deploy_live_allowed = true;
                self.deploy = ActionState::Idle;
                self.awaiting_live_confirm = true;
                None
            },
            DeployDecision::SubmitPaper => Some(true),
            DeployDecision::SubmitLive => Some(false),
        }
    }

    /// The deploy reply arrived (or the call failed): the confirmation is
    /// spent either way, and the cockpit records the permission it deployed
    /// under.
    pub fn deploy_finished(&mut self, live_allowed: bool, paper: bool, result: Result<&JsonValue, &str>)
        ensures
            final(self).visibility == old(self).visibility,
            final(self).backtest == old(self).backtest,
            final(self).validate == old(self).validate,
            final(self).feed == old(self).feed,
            final(self).deploy_live_allowed == live_allowed,
            !final(self).awaiting_live_confirm,
            match result {
                Ok(v) => final(self).deploy matches ActionState::Okay(m) && m@ == deploy_line(*v, paper),
                Err(e) => final(self).deploy matches ActionState::Error(m) && m@ == failure_line("Deploy failed: "@, e@),
            },
    {
        self.deploy_live_allowed = live_allowed;
        self.awaiting_live_confirm = false;
        self.deploy = match result {
            Ok(v) => ActionState::Okay(deploy_summary(v, paper)),
            Err(e) => ActionState::Error(failure_text("Deploy failed: ", e)),
        };
    }
}

} // verus!
