//! Decision logic for the per-strategy cockpit toolbar: feed presence from the
//! deploy preflight, resolving the open file to a strategy, and one render
//! decision shared by the Backtest, Validate and Deploy verbs.

use vstd::prelude::*;
use crate::json::{self, JsonValue};
use crate::strs;

verus! {

/// Where a poll-shaped status currently sits.
#[derive(Debug, Clone, Copy, PartialEq, Eq)]
pub enum FeedState {
    /// A poll is in flight.
    Polling,
    /// The strategy's universe is fully available.
    Okay,
    /// The engine reported missing symbols.
    Missing,
    /// The engine returned no `data` block.
    Unknown,
}

/// The feed state a preflight body states.
pub open spec fn feed_of(value: JsonValue) -> FeedState {
    match json::field(value, "data"@) {
        Some(data) => {
            let missing = match json::items_of(json::field(data, "missing"@)) {
                Some(items) => items.len(),
                None => 0,
            };
            if missing == 0 {
                FeedState::Okay
            } else {
                FeedState::Missing
            }
        },
        None => FeedState::Unknown,
    }
}

/// Derive feed presence from the deploy-preflight `data` block: `Okay` only
/// when `missing` is empty or absent, `Missing` when non-empty, `Unknown`
/// when there is no `data` block. Never `Polling`.
pub fn feed_from_preflight(value: &JsonValue) -> (r: FeedState)
    ensures
        r == feed_of(*value),
{
    match value.get("data") {
        Some(data) => {
            let missing = match data.get("missing") {
                Some(m) => match m.as_array() {
                    Some(items) => items.len(),
                    None => 0,
                },
                None => 0,
            };
            if missing == 0 {
                FeedState::Okay
            } else {
                FeedState::Missing
            }
        },
        None => FeedState::Unknown,
    }
}

/// The resolve outcome for the file in the editor.
#[derive(Debug, Clone, PartialEq, Eq)]
pub enum ResolveState {
    /// Resolution is in flight.
    Resolving,
    /// The file is a known strategy at this dotted path.
    Strategy(String),
    /// The engine is reachable but this file is not a registered strategy.
    NotAStrategy,
    /// The engine couldn't be reached to resolve the file.
    EngineUnreachable,
}

/// Whether a path component is kept by path normalisation (empty and `.`
/// components are not).
pub open spec fn kept_component(p: Seq<char>) -> bool {
    p.len() > 0 && p != "."@
}

/// The normalised components of a `/`-separated path, in order.
pub open spec fn components(ps: Seq<Seq<char>>) -> Seq<Seq<char>>
    decreases ps.len(),
{
    if ps.len() == 0 {
        ps
    } else if kept_component(ps.last()) {
        components(ps.drop_last()).push(ps.last())
    } else {
        components(ps.drop_last())
    }
}

/// Index of the last component equal to `w`, or -1.
pub open spec fn last_index_of(ps: Seq<Seq<char>>, w: Seq<char>) -> int
    decreases ps.len(),
{
    if ps.len() == 0 {
        -1
    } else if ps.last() == w {
        ps.len() - 1
    } else {
        last_index_of(ps.drop_last(), w)
    }
}

/// The dotted module for a file path: the components from the last
/// `strategies` on, the final one stripped of `.py`, joined with `.`.
pub open spec fn module_of_path(path: Seq<char>) -> Option<Seq<char>> {
    let ps = components(strs::split(path, '/'));
    let k = last_index_of(ps, "strategies"@);
    if k < 0 {
        None
    } else {
        let tail = ps.subrange(k, ps.len() as int);
        let last = tail.last();
        if strs::has_suffix(last, ".py"@) {
            Some(strs::join(tail.update(tail.len() - 1, last.subrange(0, last.len() - ".py"@.len())), "."@))
        } else {
            None
        }
    }
}

proof fn lemma_last_index_bounds(ps: Seq<Seq<char>>, w: Seq<char>)
    ensures
        -1 <= last_index_of(ps, w) < ps.len(),
        last_index_of(ps, w) >= 0 ==> ps[last_index_of(ps, w)] == w,
    decreases ps.len(),
{
    if ps.len() > 0 {
        lemma_last_index_bounds(ps.drop_last(), w);
    }
}

/// Derive the dotted Python module of a strategy file from its `/`-separated
/// path, e.g. `/opt/auracle/strategies/example_ma.py` → `strategies.example_ma`;
/// `None` when the file is not under a `strategies/` directory or isn't `.py`.
pub fn strategy_module_from_path(file_path: &str) -> (r: Option<String>)
    ensures
        strs::opt_view(r) == module_of_path(file_path@),
{
    let v = strs::chars_of(file_path);
    let pieces = strs::split_exec(&v, '/');
    let ghost pv = strs::views(pieces@);
    let dot = strs::chars_of(".");
    let mut comps: Vec<Vec<char>> = Vec::new();
    let mut i: usize = 0;
    while i < pieces.len()
        invariant
            i <= pieces@.len(),
            pv == strs::views(pieces@),
            dot@ == "."@,
            strs::views(comps@) == components(pv.subrange(0, i as int)),
        decreases pieces@.len() - i,
    {
        let piece = &pieces[i];
        assert(pv[i as int] == piece@);
        assert(pv.subrange(0, i + 1).drop_last() =~= pv.subrange(0, i as int));
        let ghost before = strs::views(comps@);
        if piece.len() > 0 && !strs::eq_chars(piece, &dot) {
            comps.push(piece.clone());
            assert(strs::views(comps@) =~= before.push(piece@));
        }
        i = i + 1;
    }
    assert(pv.subrange(0, pv.len() as int) =~= pv);
    let ghost cv = strs::views(comps@);
    let target = strs::chars_of("strategies");
    let mut k = comps.len();
    assert(cv.subrange(0, k as int) =~= cv);
    while k > 0 && !strs::eq_chars(&comps[k - 1], &target)
        invariant
            k <= comps@.len(),
            cv == strs::views(comps@),
            target@ == "strategies"@,
            last_index_of(cv, "strategies"@) == last_index_of(cv.subrange(0, k as int), "strategies"@),
        decreases k,
    {
        assert(cv[k - 1] == comps@[k - 1]@);
        assert(cv.subrange(0, k as int).drop_last() =~= cv.subrange(0, k - 1));
        k = k - 1;
    }
    if k == 0 {
        return None;
    }
    assert(cv[k - 1] == comps@[k - 1]@);
    assert(cv.subrange(0, k as int).last() == cv[k - 1]);
    let start = k - 1;
    let mut tail: Vec<Vec<char>> = Vec::new();
    let mut j = start;
    while j < comps.len()
        invariant
            start <= j <= comps@.len(),
            cv == strs::views(comps@),
            strs::views(tail@) == cv.subrange(start as int, j as int),
        decreases comps@.len() - j,
    {
        let ghost before = strs::views(tail@);
        let c = comps[j].clone();
        assert(c@ =~= comps@[j as int]@);
        assert(cv[j as int] == comps@[j as int]@);
        tail.push(c);
        assert(strs::views(tail@) =~= before.push(cv[j as int]));
        j = j + 1;
        assert(strs::views(tail@) =~= cv.subrange(start as int, j as int));
    }
    let n = tail.len();
    let last = tail[n - 1].clone();
    let py = strs::chars_of(".py");
    if !strs::ends_with(&last, &py) {
        return None;
    }
    let mut stripped = last.clone();
    let ghost lv = last@;
    stripped.truncate(last.len() - py.len());
    assert(stripped@ =~= lv.subrange(0, lv.len() - ".py"@.len()));
    let ghost tv = strs::views(tail@);
    tail.set(n - 1, stripped);
    assert(strs::views(tail@) =~= tv.update(tv.len() - 1, lv.subrange(0, lv.len() - ".py"@.len())));
    let joined = strs::join_exec(&tail, &dot);
    Some(strs::string_of_chars(&joined))
}

/// The first listed strategy path that names `module` itself or a member of
/// it.
pub open spec fn first_match(items: Seq<JsonValue>, module: Seq<char>) -> Option<Seq<char>>
    decreases items.len(),
{
    if items.len() == 0 {
        None
    } else {
        match json::str_of(json::field(items[0], "path"@)) {
            Some(p) => if strs::has_prefix(p, module + "."@) || p == module {
                Some(p)
            } else {
                first_match(items.drop_first(), module)
            },
            None => first_match(items.drop_first(), module),
        }
    }
}

/// What `match_strategy` yields for a listing.
pub open spec fn match_view(listing: JsonValue, module: Seq<char>) -> Option<Seq<char>> {
    match json::items_of(json::field(listing, "strategies"@)) {
        Some(items) => first_match(items, module),
        None => None,
    }
}

/// The listed strategy `item` names `module`: its path is `module` itself or
/// a dotted member of it.
pub open spec fn item_names_module(item: JsonValue, module: Seq<char>) -> bool {
    match json::str_of(json::field(item, "path"@)) {
        Some(p) => strs::has_prefix(p, module + "."@) || p == module,
        None => false,
    }
}

proof fn lemma_first_match_scan(items: Seq<JsonValue>, module: Seq<char>)
    ensures
        first_match(items, module) is None <==> forall|k: int| 0 <= k < items.len() ==> !item_names_module(#[trigger] items[k], module),
        first_match(items, module) matches Some(p) ==> exists|k: int| {
            &&& 0 <= k < items.len()
            &&& item_names_module(items[k], module)
            &&& json::str_of(json::field(items[k], "path"@)) == Some(p)
            &&& forall|j: int| 0 <= j < k ==> !item_names_module(#[trigger] items[j], module)
        },
    decreases items.len(),
{
    if items.len() > 0 {
        let t = items.drop_first();
        lemma_first_match_scan(t, module);
        assert forall|k: int| 0 < k < items.len() implies items[k] == t[k - 1] by {}
        if !item_names_module(items[0], module) {
            if first_match(items, module) is None {
                assert forall|k: int| 0 <= k < items.len() implies !item_names_module(#[trigger] items[k], module) by {
                    if k > 0 {
                        assert(items[k] == t[k - 1]);
                    }
                }
            } else {
                let p = first_match(items, module).unwrap();
                let k = choose|k: int| {
                    &&& 0 <= k < t.len()
                    &&& item_names_module(t[k], module)
                    &&& json::str_of(json::field(t[k], "path"@)) == Some(p)
                    &&& forall|j: int| 0 <= j < k ==> !item_names_module(#[trigger] t[j], module)
                };
                assert(items[k + 1] == t[k]);
                assert forall|j: int| 0 <= j < k + 1 implies !item_names_module(#[trigger] items[j], module) by {
                    if j > 0 {
                        assert(items[j] == t[j - 1]);
                    }
                }
                assert(!(forall|k: int| 0 <= k < items.len() ==> !item_names_module(#[trigger] items[k], module)));
            }
        } else {
            assert(!(forall|k: int| 0 <= k < items.len() ==> !item_names_module(#[trigger] items[k], module)));
        }
    }
}

/// Matching scans the whole listing: it finds a strategy exactly when some
/// listed strategy names the module (its path is the module or a dotted
/// member of it), wherever that entry sits, and then it is the path of the
/// first such entry. A listing without a `strategies` array matches nothing.
pub proof fn lemma_match_scans_listing(listing: JsonValue, module: Seq<char>)
    ensures
        match json::items_of(json::field(listing, "strategies"@)) {
            Some(items) => {
                &&& (match_view(listing, module) is None <==> forall|k: int|
                    0 <= k < items.len() ==> !item_names_module(#[trigger] items[k], module))
                &&& (match_view(listing, module) matches Some(p) ==> exists|k: int| {
                    &&& 0 <= k < items.len()
                    &&& item_names_module(items[k], module)
                    &&& json::str_of(json::field(items[k], "path"@)) == Some(p)
                    &&& forall|j: int| 0 <= j < k ==> !item_names_module(#[trigger] items[j], module)
                })
            },
            None => match_view(listing, module) is None,
        },
{
    match json::items_of(json::field(listing, "strategies"@)) {
        Some(items) => lemma_first_match_scan(items, module),
        None => {},
    }
}

/// The characters of a resolve state's strategy path, if it names one;
/// `NotAStrategy` otherwise.
pub open spec fn resolved_path(r: ResolveState) -> Option<Seq<char>> {
    match r {
        ResolveState::Strategy(p) => Some(p@),
        _ => None,
    }
}

/// Match a module against the engine's strategy listing (engine reachable):
/// `Strategy` on a match, `NotAStrategy` otherwise — never `EngineUnreachable`.
pub fn match_strategy(listing: &JsonValue, module: &str) -> (r: ResolveState)
    ensures
        r is Strategy || r is NotAStrategy,
        resolved_path(r) == match_view(*listing, module@),
{
    let mut prefix = strs::own(module);
    strs::append_str(&mut prefix, ".");
    let prefix_chars = strs::chars_of(prefix.as_str());
    let module_chars = strs::chars_of(module);
    let items = match listing.get("strategies") {
        Some(s) => match s.as_array() {
            Some(items) => items,
            None => return ResolveState::NotAStrategy,
        },
        None => return ResolveState::NotAStrategy,
    };
    let mut i: usize = 0;
    assert(items@.subrange(0, items@.len() as int) =~= items@);
    while i < items.len()
        invariant
            i <= items@.len(),
            prefix_chars@ == module@ + "."@,
            module_chars@ == module@,
            match_view(*listing, module@) == first_match(items@.subrange(i as int, items@.len() as int), module@),
        decreases items@.len() - i,
    {
        let ghost rest = items@.subrange(i as int, items@.len() as int);
        assert(rest[0] == items@[i as int]);
        assert(rest.drop_first() =~= items@.subrange(i + 1, items@.len() as int));
        match items[i].get("path") {
            Some(pv) => match pv.as_str() {
                Some(p) => {
                    let pc = strs::chars_of(p);
                    if strs::starts_with(&pc, &prefix_chars) || strs::eq_chars(&pc, &module_chars) {
                        return ResolveState::Strategy(strs::own(p));
                    }
                },
                None => {},
            },
            None => {},
        }
        i = i + 1;
    }
    ResolveState::NotAStrategy
}

/// One toolbar verb's full render decision.
#[derive(Debug, Clone, PartialEq, Eq)]
pub struct ActionAffordance {
    /// The button label.
    pub label: String,
    /// Whether the verb can run (requires a resolved strategy).
    pub enabled: bool,
    /// Whether to render with danger styling (only the live confirm step).
    pub danger: bool,
    /// The hover explanation shown when the verb is unavailable.
    pub tooltip: Option<String>,
}

/// The tooltip copy for an unresolved verb.
pub open spec fn unresolved_text(resolve: ResolveState) -> Seq<char> {
    match resolve {
        ResolveState::Resolving => "Resolving this file…"@,
        ResolveState::EngineUnreachable => "Can't reach the engine."@,
        ResolveState::NotAStrategy => "This file isn't a registered strategy."@,
        ResolveState::Strategy(_) => ""@,
    }
}

/// What an affordance shows: label, enabled, danger, tooltip.
pub open spec fn affordance_view(a: ActionAffordance) -> (Seq<char>, bool, bool, Option<Seq<char>>) {
    (a.label@, a.enabled, a.danger, strs::opt_view(a.tooltip))
}

/// The affordance of a verb with `label`: enabled with no tooltip for a
/// resolved strategy, otherwise disabled with the unresolved message.
pub open spec fn verb_view(label: Seq<char>, resolve: ResolveState, danger: bool) -> (Seq<char>, bool, bool, Option<Seq<char>>) {
    if resolve is Strategy {
        (label, true, danger, None)
    } else {
        (label, false, false, Some(unresolved_text(resolve)))
    }
}

/// The tooltip/banner copy for an unresolved verb; each non-ready state reads
/// distinctly.
pub fn unresolved_message(resolve: &ResolveState) -> (r: &'static str)
    ensures
        r@ == unresolved_text(*resolve),
{
    match resolve {
        ResolveState::Resolving => "Resolving this file…",
        ResolveState::EngineUnreachable => "Can't reach the engine.",
        ResolveState::NotAStrategy => "This file isn't a registered strategy.",
        ResolveState::Strategy(_) => "",
    }
}

fn simple_affordance(label: &str, resolve: &ResolveState) -> (r: ActionAffordance)
    ensures
        affordance_view(r) == verb_view(label@, *resolve, false),
{
    match resolve {
        ResolveState::Strategy(_) => ActionAffordance {
            label: strs::own(label),
            enabled: true,
            danger: false,
            tooltip: None,
        },
        other => ActionAffordance {
            label: strs::own(label),
            enabled: false,
            danger: false,
            tooltip: Some(strs::own(unresolved_message(other))),
        },
    }
}

/// The Backtest verb's affordance.
pub fn backtest_affordance(resolve: &ResolveState) -> (r: ActionAffordance)
    ensures
        affordance_view(r) == verb_view("Backtest"@, *resolve, false),
{
    simple_affordance("Backtest", resolve)
}

/// The Validate verb's affordance.
pub fn validate_affordance(resolve: &ResolveState) -> (r: ActionAffordance)
    ensures
        affordance_view(r) == verb_view("Validate"@, *resolve, false),
{
    simple_affordance("Validate", resolve)
}

/// The Deploy label: "Confirm live deploy" while awaiting the live
/// confirmation, "Deploy" once live is allowed, otherwise "Deploy (paper)".
pub open spec fn deploy_label(live_allowed: bool, awaiting_live_confirm: bool) -> Seq<char> {
    if awaiting_live_confirm {
        "Confirm live deploy"@
    } else if live_allowed {
        "Deploy"@
    } else {
        "Deploy (paper)"@
    }
}

/// The Deploy verb's affordance; danger styling only at the live confirm step.
pub fn deploy_affordance(resolve: &ResolveState, live_allowed: bool, awaiting_live_confirm: bool) -> (r: ActionAffordance)
    ensures
        affordance_view(r) == verb_view(
            deploy_label(live_allowed, awaiting_live_confirm),
            *resolve,
            awaiting_live_confirm,
        ),
{
    let label = if awaiting_live_confirm {
        "Confirm live deploy"
    } else if live_allowed {
        "Deploy"
    } else {
        "Deploy (paper)"
    };
    match resolve {
        ResolveState::Strategy(_) => ActionAffordance {
            label: strs::own(label),
            enabled: true,
            danger: awaiting_live_confirm,
            tooltip: None,
        },
        other => ActionAffordance {
            label: strs::own(label),
            enabled: false,
            danger: false,
            tooltip: Some(strs::own(unresolved_message(other))),
        },
    }
}

/// Whether the cockpit shows the engine-unreachable Retry banner.
pub fn show_unreachable_banner(resolve: &ResolveState) -> (r: bool)
    ensures
        r == (*resolve is EngineUnreachable),
{
    match resolve {
        ResolveState::EngineUnreachable => true,
        _ => false,
    }
}

} // verus!
