//! The decisions of the Flow shell, a node canvas whose signature moves are
//! fork and compare: the kinds of nodes and edges, how a draft fork is named
//! and linked, where the seed layout puts a node, and whether a compared
//! metric improved.

use vstd::prelude::*;
use crate::panel_common::PanelStatus;
use crate::strs;
use crate::strategies::StrategyListItem;

verus! {

/// What a node represents. A `Strategy` mirrors an engine strategy; a `Draft`
/// is a client-side fork starting point with no engine run of its own yet.
#[derive(Clone, Copy, Debug, PartialEq, Eq)]
pub enum NodeKind {
    Strategy,
    Draft,
}

/// The kind of relationship an edge encodes. Only forks are drawn today.
#[derive(Clone, Copy, Debug, PartialEq, Eq)]
pub enum EdgeKind {
    Fork,
}

/// A directed link between two nodes (parent → fork child).
#[derive(Clone, Debug, PartialEq)]
pub struct FlowEdge {
    pub from: String,
    pub to: String,
    pub kind: EdgeKind,
}

/// Columns in the seed grid layout.
pub const COLS: usize = 3;

/// The `(column, row)` of the `i`-th node in the seed grid: left to right,
/// top to bottom.
pub fn grid_cell(i: usize) -> (r: (usize, usize))
    ensures
        r.0 == i % COLS,
        r.1 == i / COLS,
        r.1 * COLS + r.0 == i,
{
    (i % COLS, i / COLS)
}

/// The id of the `seq`-th draft fork.
pub fn draft_id(seq: usize) -> (r: String)
    ensures
        r@ == "draft:"@ + strs::decimal(seq as nat),
{
    let mut r = strs::own("draft:");
    strs::push_decimal(&mut r, seq as u64);
    r
}

/// The display name of a fork of `name`.
pub fn fork_name(name: &str) -> (r: String)
    ensures
        r@ == name@ + " (fork)"@,
{
    let mut r = strs::own(name);
    strs::append_str(&mut r, " (fork)");
    r
}

/// The fork edge from a parent to its draft child.
pub fn fork_edge(parent_id: &str, draft: &str) -> (r: FlowEdge)
    ensures
        r.from@ == parent_id@,
        r.to@ == draft@,
        r.kind == EdgeKind::Fork,
{
    FlowEdge { from: strs::own(parent_id), to: strs::own(draft), kind: EdgeKind::Fork }
}

/// Which way a metric improves. `CloserToZeroBetter` is for drawdown, where
/// the better run has the smaller magnitude whatever the sign convention.
/// `Neutral` metrics (e.g. trade count) get no tone.
#[derive(Clone, Copy, Debug, PartialEq, Eq)]
pub enum Direction {
    HigherBetter,
    LowerBetter,
    CloserToZeroBetter,
    Neutral,
}

/// How the second run's figure compares with the first's: for a
/// closer-to-zero metric the change in magnitude, otherwise the sign of the
/// difference. `Unordered` when the two cannot be ordered (a NaN).
#[derive(Clone, Copy, Debug, PartialEq, Eq)]
pub enum Change {
    Lower,
    Same,
    Higher,
    Unordered,
}

/// Whether the second run improved on the first: `None` when there is nothing
/// to compare, no change, or the metric is neutral.
pub open spec fn improved_of(direction: Direction, change: Option<Change>) -> Option<bool> {
    match (direction, change) {
        (Direction::Neutral, _) => None,
        (_, None) => None,
        (_, Some(Change::Same)) => None,
        (Direction::HigherBetter, Some(c)) => Some(c == Change::Higher),
        (Direction::LowerBetter, Some(c)) => Some(c == Change::Lower),
        (Direction::CloserToZeroBetter, Some(c)) => Some(c == Change::Lower),
    }
}

/// Whether `b` is an improvement over `a`, given the metric's direction and
/// how `b` compares with `a` (`None` when either is missing). `None` keeps
/// the renderer tone-neutral rather than guess.
pub fn improved(direction: Direction, change: Option<Change>) -> (r: Option<bool>)
    ensures
        r == improved_of(direction, change),
{
    match direction {
        Direction::Neutral => None,
        _ => match change {
            None => None,
            Some(Change::Same) => None,
            Some(c) => {
                let good = match direction {
                    Direction::HigherBetter => match c {
                        Change::Higher => true,
                        _ => false,
                    },
                    _ => match c {
                        Change::Lower => true,
                        _ => false,
                    },
                };
                Some(good)
            },
        },
    }
}


/// Position of the first `id` in `sel`.
pub open spec fn index_in(sel: Seq<Seq<char>>, id: Seq<char>) -> Option<int>
    decreases sel.len(),
{
    if sel.len() == 0 {
        None
    } else if sel[0] == id {
        Some(0)
    } else {
        match index_in(sel.drop_first(), id) {
            Some(k) => Some(k + 1),
            None => None,
        }
    }
}

/// The compare selection after toggling `id`: a selected node is
/// deselected; another is added as the newest, dropping the oldest beyond two.
pub open spec fn toggled(sel: Seq<Seq<char>>, id: Seq<char>) -> Seq<Seq<char>> {
    match index_in(sel, id) {
        Some(i) => sel.remove(i),
        None => {
            let added = sel.push(id);
            if added.len() > 2 { added.drop_first() } else { added }
        },
    }
}

proof fn lemma_index_in(sel: Seq<Seq<char>>, id: Seq<char>, i: int)
    requires
        0 <= i <= sel.len(),
        forall|j: int| 0 <= j < i ==> sel[j] != id,
        i == sel.len() || sel[i] == id,
    ensures
        index_in(sel, id) == (if i == sel.len() { None } else { Some(i) }),
    decreases i,
{
    if i > 0 {
        let t = sel.drop_first();
        assert forall|j: int| 0 <= j < i - 1 implies t[j] != id by {
            assert(t[j] == sel[j + 1]);
        }
        if i < sel.len() {
            assert(t[i - 1] == sel[i]);
        }
        lemma_index_in(t, id, i - 1);
        assert(sel[0] != id);
    }
}

/// Toggle a node in the two-run compare selection. A selection of at most
/// two stays at most two.
pub fn toggle_compare(selected: &mut Vec<String>, id: &str)
    ensures
        strs::views_of_strings(final(selected)@) == toggled(strs::views_of_strings(old(selected)@), id@),
        old(selected)@.len() <= 2 ==> final(selected)@.len() <= 2,
{
    let ghost before = strs::views_of_strings(selected@);
    let mut i: usize = 0;
    while i < selected.len()
        invariant
            i <= selected@.len(),
            selected@ == old(selected)@,
            before == strs::views_of_strings(selected@),
            forall|j: int| 0 <= j < i ==> before[j] != id@,
        decreases selected@.len() - i,
    {
        if strs::eq_str(selected[i].as_str(), id) {
            proof {
                lemma_index_in(before, id@, i as int);
            }
            selected.remove(i);
            assert(strs::views_of_strings(selected@) =~= before.remove(i as int));
            return;
        }
        i = i + 1;
    }
    proof {
        lemma_index_in(before, id@, i as int);
    }
    selected.push(strs::own(id));
    assert(strs::views_of_strings(selected@) =~= before.push(id@));
    if selected.len() > 2 {
        let ghost pushed = strs::views_of_strings(selected@);
        selected.remove(0);
        assert(strs::views_of_strings(selected@) =~= pushed.drop_first());
    }
}


// ── The canvas graph ───────────────────────────────────────────────────

/// One node on the canvas. `S` is a run's metrics (absent until the node's
/// backtest has run) and `P` the node's position.
#[derive(Clone, Debug, PartialEq)]
pub struct FlowNode<S, P> {
    /// Stable identity: the strategy's dotted path, or `draft:N` for a fork.
    pub id: String,
    /// Display name (last dotted segment, or "<name> (fork)" for a draft).
    pub name: String,
    /// Dotted module path to run/open.
    pub path: Option<String>,
    /// First line of the strategy docstring, or "".
    pub doc: String,
    /// True for bundled example strategies.
    pub bundled: bool,
    pub kind: NodeKind,
    pub summary: Option<S>,
    pub pos: P,
}

/// The whole canvas: every node and every edge.
#[derive(Clone, Debug, PartialEq)]
pub struct FlowView<S, P> {
    pub nodes: Vec<FlowNode<S, P>>,
    pub edges: Vec<FlowEdge>,
}

/// The ids of the nodes, in order.
pub open spec fn node_ids<S, P>(nodes: Seq<FlowNode<S, P>>) -> Seq<Seq<char>> {
    nodes.map_values(|n: FlowNode<S, P>| n.id@)
}

/// Position of the first node with `id`.
pub open spec fn node_at<S, P>(nodes: Seq<FlowNode<S, P>>, id: Seq<char>) -> Option<int> {
    index_in(node_ids(nodes), id)
}

/// Seed the canvas from the strategy list: one node per strategy, in order,
/// placed by `place(column, row)` of its seed grid cell; no edges.
pub fn build_flow<S, P, F: Fn((usize, usize)) -> P>(rows: Vec<StrategyListItem>, place: F) -> (v: FlowView<S, P>)
    requires
        forall|c: usize, r: usize| call_requires(place, ((c, r),)),
    ensures
        v.nodes@.len() == rows@.len(),
        v.edges@.len() == 0,
        forall|i: int| 0 <= i < rows@.len() ==> {
            let n = #[trigger] v.nodes@[i];
            &&& n.id@ == rows@[i].path@
            &&& n.name@ == rows@[i].name@
            &&& strs::opt_view(n.path) == Some(rows@[i].path@)
            &&& n.doc@ == rows@[i].doc@
            &&& n.bundled == rows@[i].bundled
            &&& n.kind == NodeKind::Strategy
            &&& n.summary is None
            &&& call_ensures(place, (((i % 3) as usize, (i / 3) as usize),), n.pos)
        },
{
    let mut nodes: Vec<FlowNode<S, P>> = Vec::new();
    let mut i: usize = 0;
    while i < rows.len()
        invariant
            i <= rows@.len(),
            nodes@.len() == i,
            forall|c: usize, r: usize| call_requires(place, ((c, r),)),
            forall|k: int| 0 <= k < i ==> {
                let n = #[trigger] nodes@[k];
                &&& n.id@ == rows@[k].path@
                &&& n.name@ == rows@[k].name@
                &&& strs::opt_view(n.path) == Some(rows@[k].path@)
                &&& n.doc@ == rows@[k].doc@
                &&& n.bundled == rows@[k].bundled
                &&& n.kind == NodeKind::Strategy
                &&& n.summary is None
                &&& call_ensures(place, (((k % 3) as usize, (k / 3) as usize),), n.pos)
            },
        decreases rows@.len() - i,
    {
        let item = &rows[i];
        let cell = grid_cell(i);
        let pos = place(cell);
        nodes.push(FlowNode {
            id: item.path.clone(),
            name: item.name.clone(),
            path: Some(item.path.clone()),
            doc: item.doc.clone(),
            bundled: item.bundled,
            kind: NodeKind::Strategy,
            summary: None,
            pos,
        });
        i = i + 1;
    }
    FlowView { nodes, edges: Vec::new() }
}

/// Position of the first node with `id`.
pub fn node_index<S, P>(view: &FlowView<S, P>, id: &str) -> (r: Option<usize>)
    ensures
        match r {
            Some(k) => node_at(view.nodes@, id@) == Some(k as int) && k < view.nodes@.len(),
            None => node_at(view.nodes@, id@) is None,
        },
{
    let ghost ids = node_ids(view.nodes@);
    let mut i: usize = 0;
    while i < view.nodes.len()
        invariant
            i <= view.nodes@.len(),
            ids == node_ids(view.nodes@),
            forall|j: int| 0 <= j < i ==> ids[j] != id@,
        decreases view.nodes@.len() - i,
    {
        if strs::eq_str(view.nodes[i].id.as_str(), id) {
            proof {
                lemma_index_in(ids, id@, i as int);
            }
            return Some(i);
        }
        i = i + 1;
    }
    proof {
        lemma_index_in(ids, id@, i as int);
    }
    None
}

/// Attach (or replace) a node's metrics after its run completes. Returns
/// whether a matching node was found; only that node changes.
pub fn set_summary<S, P>(view: &mut FlowView<S, P>, id: &str, summary: S) -> (found: bool)
    ensures
        found == node_at(old(view).nodes@, id@) is Some,
        final(view).edges == old(view).edges,
        match node_at(old(view).nodes@, id@) {
            Some(k) => final(view).nodes@ == old(view).nodes@.update(k, FlowNode { summary: Some(summary), ..old(view).nodes@[k] }),
            None => final(view).nodes@ == old(view).nodes@,
        },
{
    match node_index(view, id) {
        Some(k) => {
            let mut nodes: Vec<FlowNode<S, P>> = Vec::new();
            std::mem::swap(&mut nodes, &mut view.nodes);
            let mut node = nodes.remove(k);
            node.summary = Some(summary);
            nodes.insert(k, node);
            view.nodes = nodes;
            assert(view.nodes@ =~= old(view).nodes@.update(k as int, FlowNode { summary: Some(summary), ..old(view).nodes@[k as int] }));
            true
        },
        None => false,
    }
}

/// Fork a node: add a client-side draft child placed by `place_child` from
/// its parent's position, linked by a fork edge. `draft_seq` makes the id
/// unique. Returns the draft's id, or `None` (changing nothing) when the
/// parent is gone.
pub fn fork<S, P: Copy, F: FnOnce(P) -> P>(view: &mut FlowView<S, P>, parent_id: &str, draft_seq: usize, place_child: F) -> (r: Option<String>)
    requires
        forall|p: P| call_requires(place_child, (p,)),
    ensures
        match node_at(old(view).nodes@, parent_id@) {
            None => r is None && *final(view) == *old(view),
            Some(k) => {
                let parent = old(view).nodes@[k];
                &&& r matches Some(d) && d@ == "draft:"@ + strs::decimal(draft_seq as nat)
                &&& final(view).nodes@.len() == old(view).nodes@.len() + 1
                &&& final(view).nodes@.drop_last() == old(view).nodes@
                &&& {
                    let child = final(view).nodes@.last();
                    &&& child.id@ == "draft:"@ + strs::decimal(draft_seq as nat)
                    &&& child.name@ == parent.name@ + " (fork)"@
                    &&& strs::opt_view(child.path) == strs::opt_view(parent.path)
                    &&& child.doc@ == parent.doc@
                    &&& !child.bundled
                    &&& child.kind == NodeKind::Draft
                    &&& child.summary is None
                    &&& call_ensures(place_child, (parent.pos,), child.pos)
                }
                &&& final(view).edges@ == old(view).edges@.push(final(view).edges@.last())
                &&& final(view).edges@.last().from@ == parent_id@
                &&& final(view).edges@.last().to@ == "draft:"@ + strs::decimal(draft_seq as nat)
                &&& final(view).edges@.last().kind == EdgeKind::Fork
            },
        },
{
    let k = match node_index(view, parent_id) {
        Some(k) => k,
        None => return None,
    };
    let name = fork_name(view.nodes[k].name.as_str());
    let path = match &view.nodes[k].path {
        Some(p) => Some(p.clone()),
        None => None,
    };
    let doc = view.nodes[k].doc.clone();
    let pos = place_child(view.nodes[k].pos);
    let id = draft_id(draft_seq);
    let ghost before_nodes = view.nodes@;
    let ghost before_edges = view.edges@;
    view.nodes.push(FlowNode {
        id: id.clone(),
        name,
        path,
        doc,
        bundled: false,
        kind: NodeKind::Draft,
        summary: None,
        pos,
    });
    view.edges.push(fork_edge(parent_id, id.as_str()));
    assert(view.nodes@.drop_last() =~= before_nodes);
    assert(view.edges@ =~= before_edges.push(view.edges@.last()));
    Some(id)
}

/// Whether `id` is one of `ids`.
fn has_id(ids: &Vec<String>, id: &str) -> (r: bool)
    ensures
        r == strs::views_of_strings(ids@).contains(id@),
{
    let ghost v = strs::views_of_strings(ids@);
    let mut i: usize = 0;
    while i < ids.len()
        invariant
            i <= ids@.len(),
            v == strs::views_of_strings(ids@),
            forall|j: int| 0 <= j < i ==> v[j] != id@,
        decreases ids@.len() - i,
    {
        if strs::eq_str(ids[i].as_str(), id) {
            assert(v[i as int] == id@);
            return true;
        }
        i = i + 1;
    }
    false
}

fn ids_of<S, P>(nodes: &Vec<FlowNode<S, P>>) -> (r: Vec<String>)
    ensures
        strs::views_of_strings(r@) == node_ids(nodes@),
{
    let mut r: Vec<String> = Vec::new();
    let mut i: usize = 0;
    while i < nodes.len()
        invariant
            i <= nodes@.len(),
            strs::views_of_strings(r@) == node_ids(nodes@.take(i as int)),
        decreases nodes@.len() - i,
    {
        let ghost before = strs::views_of_strings(r@);
        r.push(nodes[i].id.clone());
        assert(strs::views_of_strings(r@) =~= before.push(nodes@[i as int].id@));
        assert(node_ids(nodes@.take(i + 1)) =~= node_ids(nodes@.take(i as int)).push(nodes@[i as int].id@));
        i = i + 1;
    }
    assert(nodes@.take(i as int) =~= nodes@);
    r
}

/// The nodes kept when the strategy list is refreshed: drafts, and strategy
/// nodes the engine still lists.
pub open spec fn kept_nodes<S, P>(nodes: Seq<FlowNode<S, P>>, listed: Seq<Seq<char>>) -> Seq<FlowNode<S, P>>
    decreases nodes.len(),
{
    if nodes.len() == 0 {
        nodes
    } else if nodes.last().kind == NodeKind::Draft || listed.contains(nodes.last().id@) {
        kept_nodes(nodes.drop_last(), listed).push(nodes.last())
    } else {
        kept_nodes(nodes.drop_last(), listed)
    }
}

/// The fresh nodes whose ids are not among `have`.
pub open spec fn new_nodes<S, P>(fresh: Seq<FlowNode<S, P>>, have: Seq<Seq<char>>) -> Seq<FlowNode<S, P>>
    decreases fresh.len(),
{
    if fresh.len() == 0 {
        fresh
    } else if have.contains(fresh.last().id@) {
        new_nodes(fresh.drop_last(), have)
    } else {
        new_nodes(fresh.drop_last(), have).push(fresh.last())
    }
}

/// The ids among `sel` that are in `ids`.
pub open spec fn known_ids(sel: Seq<Seq<char>>, ids: Seq<Seq<char>>) -> Seq<Seq<char>>
    decreases sel.len(),
{
    if sel.len() == 0 {
        sel
    } else if ids.contains(sel.last()) {
        known_ids(sel.drop_last(), ids).push(sel.last())
    } else {
        known_ids(sel.drop_last(), ids)
    }
}

/// The edges whose two endpoints are in `ids`.
pub open spec fn known_edges(edges: Seq<FlowEdge>, ids: Seq<Seq<char>>) -> Seq<FlowEdge>
    decreases edges.len(),
{
    if edges.len() == 0 {
        edges
    } else if ids.contains(edges.last().from@) && ids.contains(edges.last().to@) {
        known_edges(edges.drop_last(), ids).push(edges.last())
    } else {
        known_edges(edges.drop_last(), ids)
    }
}

proof fn lemma_known_ids_member(sel: Seq<Seq<char>>, ids: Seq<Seq<char>>)
    ensures
        forall|i: int| 0 <= i < known_ids(sel, ids).len() ==> ids.contains(#[trigger] known_ids(sel, ids)[i]),
    decreases sel.len(),
{
    if sel.len() > 0 {
        lemma_known_ids_member(sel.drop_last(), ids);
        let prev = known_ids(sel.drop_last(), ids);
        if ids.contains(sel.last()) {
            assert forall|i: int| 0 <= i < known_ids(sel, ids).len() implies ids.contains(#[trigger] known_ids(sel, ids)[i]) by {
                if i < prev.len() {
                    assert(known_ids(sel, ids)[i] == prev[i]);
                }
            }
        }
    }
}

proof fn lemma_known_edges_member(edges: Seq<FlowEdge>, ids: Seq<Seq<char>>)
    ensures
        forall|i: int| 0 <= i < known_edges(edges, ids).len() ==> ids.contains((#[trigger] known_edges(edges, ids)[i]).from@)
            && ids.contains(known_edges(edges, ids)[i].to@),
    decreases edges.len(),
{
    if edges.len() > 0 {
        lemma_known_edges_member(edges.drop_last(), ids);
        let prev = known_edges(edges.drop_last(), ids);
        if ids.contains(edges.last().from@) && ids.contains(edges.last().to@) {
            assert forall|i: int| 0 <= i < known_edges(edges, ids).len() implies ids.contains((#[trigger] known_edges(edges, ids)[i]).from@)
                && ids.contains(known_edges(edges, ids)[i].to@) by {
                if i < prev.len() {
                    assert(known_edges(edges, ids)[i] == prev[i]);
                }
            }
        }
    }
}

/// Refresh the canvas from a freshly built view of the engine's strategy
/// list. An empty canvas simply becomes the fresh one. Otherwise strategy
/// nodes the engine no longer lists are dropped (drafts stay), strategies
/// not on the canvas are added at their seeded places, and compare
/// selections and edges that point at vanished nodes are pruned.
pub fn merge_strategies<S, P>(view: &mut FlowView<S, P>, fresh: FlowView<S, P>, selected: &mut Vec<String>)
    ensures
        old(view).nodes@.len() == 0 ==> *final(view) == fresh && *final(selected) == *old(selected),
        old(view).nodes@.len() > 0 ==> {
            let kept = kept_nodes(old(view).nodes@, node_ids(fresh.nodes@));
            let nodes = kept + new_nodes(fresh.nodes@, node_ids(kept));
            &&& final(view).nodes@ == nodes
            &&& strs::views_of_strings(final(selected)@) == known_ids(strs::views_of_strings(old(selected)@), node_ids(nodes))
            &&& final(view).edges@ == known_edges(old(view).edges@, node_ids(nodes))
        },
{
    if view.nodes.len() == 0 {
        *view = fresh;
        return;
    }
    let listed = ids_of(&fresh.nodes);
    let ghost listed_v = node_ids(fresh.nodes@);

    // Keep drafts and the strategy nodes still listed, in order.
    let mut src_nodes: Vec<FlowNode<S, P>> = Vec::new();
    std::mem::swap(&mut src_nodes, &mut view.nodes);
    let ghost all = src_nodes@;
    let mut kept: Vec<FlowNode<S, P>> = Vec::new();
    let mut k: usize = 0;
    assert(all.skip(0) =~= all);
    assert(all.len() == src_nodes.len());
    while src_nodes.len() > 0
        invariant
            k <= all.len() <= usize::MAX,
            src_nodes@ == all.skip(k as int),
            strs::views_of_strings(listed@) == listed_v,
            kept@ == kept_nodes(all.take(k as int), listed_v),
        decreases src_nodes@.len(),
    {
        assert(k < all.len());
        let node = src_nodes.remove(0);
        assert(all.take(k + 1).drop_last() =~= all.take(k as int));
        assert(all.take(k + 1).last() == node);
        let keep = match node.kind {
            NodeKind::Draft => true,
            NodeKind::Strategy => has_id(&listed, node.id.as_str()),
        };
        if keep {
            kept.push(node);
        }
        k = k + 1;
        assert(src_nodes@ =~= all.skip(k as int));
    }
    assert(all.take(k as int) =~= all);
    let ghost kept_v = kept@;

    // Add the strategies the canvas did not have, at their seeded places.
    let existing = ids_of(&kept);
    let mut fresh_nodes = fresh.nodes;
    let ghost fr = fresh_nodes@;
    let mut j: usize = 0;
    assert(fr.skip(0) =~= fr);
    assert(fr.len() == fresh_nodes.len());
    assert(kept@ =~= kept_v + new_nodes(fr.take(0), node_ids(kept_v)));
    while fresh_nodes.len() > 0
        invariant
            j <= fr.len() <= usize::MAX,
            fresh_nodes@ == fr.skip(j as int),
            strs::views_of_strings(existing@) == node_ids(kept_v),
            kept@ == kept_v + new_nodes(fr.take(j as int), node_ids(kept_v)),
        decreases fresh_nodes@.len(),
    {
        assert(j < fr.len());
        let node = fresh_nodes.remove(0);
        assert(fr.take(j + 1).drop_last() =~= fr.take(j as int));
        assert(fr.take(j + 1).last() == node);
        let ghost before = kept@;
        if !has_id(&existing, node.id.as_str()) {
            kept.push(node);
            assert(kept@ =~= kept_v + new_nodes(fr.take(j + 1), node_ids(kept_v)));
        }
        j = j + 1;
        assert(fresh_nodes@ =~= fr.skip(j as int));
    }
    assert(fr.take(j as int) =~= fr);
    let ids = ids_of(&kept);
    let ghost ids_v = node_ids(kept@);

    // Prune selections that point at vanished nodes.
    let mut old_sel: Vec<String> = Vec::new();
    std::mem::swap(&mut old_sel, selected);
    let ghost sel_all = strs::views_of_strings(old_sel@);
    let ghost sel_raw = old_sel@;
    let mut m: usize = 0;
    assert(sel_raw.skip(0) =~= sel_raw);
    assert(sel_raw.len() == old_sel.len());
    assert(strs::views_of_strings(selected@) =~= known_ids(strs::views_of_strings(sel_raw.take(0)), ids_v));
    while old_sel.len() > 0
        invariant
            m <= sel_raw.len() <= usize::MAX,
            sel_all == strs::views_of_strings(sel_raw),
            old_sel@ == sel_raw.skip(m as int),
            strs::views_of_strings(ids@) == ids_v,
            strs::views_of_strings(selected@) == known_ids(strs::views_of_strings(sel_raw.take(m as int)), ids_v),
        decreases old_sel@.len(),
    {
        assert(m < sel_raw.len());
        let s_id = old_sel.remove(0);
        assert(s_id == sel_raw[m as int]);
        let ghost pre = strs::views_of_strings(sel_raw.take(m as int));
        assert(strs::views_of_strings(sel_raw.take(m + 1)) =~= pre.push(s_id@));
        assert(pre.push(s_id@).drop_last() =~= pre);
        assert(pre.push(s_id@).last() == s_id@);
        if has_id(&ids, s_id.as_str()) {
            let ghost before = strs::views_of_strings(selected@);
            selected.push(s_id);
            assert(strs::views_of_strings(selected@) =~= before.push(sel_raw[m as int]@));
        }
        m = m + 1;
        assert(old_sel@ =~= sel_raw.skip(m as int));
    }
    assert(sel_raw.take(m as int) =~= sel_raw);

    // Prune edges whose endpoints vanished.
    let mut old_edges: Vec<FlowEdge> = Vec::new();
    std::mem::swap(&mut old_edges, &mut view.edges);
    let ghost edges_all = old_edges@;
    let mut e: usize = 0;
    assert(edges_all.skip(0) =~= edges_all);
    assert(edges_all.len() == old_edges.len());
    while old_edges.len() > 0
        invariant
            e <= edges_all.len() <= usize::MAX,
            old_edges@ == edges_all.skip(e as int),
            strs::views_of_strings(ids@) == ids_v,
            view.edges@ == known_edges(edges_all.take(e as int), ids_v),
        decreases old_edges@.len(),
    {
        assert(e < edges_all.len());
        let edge = old_edges.remove(0);
        assert(edges_all.take(e + 1).drop_last() =~= edges_all.take(e as int));
        assert(edges_all.take(e + 1).last() == edge);
        if has_id(&ids, edge.from.as_str()) && has_id(&ids, edge.to.as_str()) {
            view.edges.push(edge);
        }
        e = e + 1;
        assert(old_edges@ =~= edges_all.skip(e as int));
    }
    assert(edges_all.take(e as int) =~= edges_all);
    view.nodes = kept;
}

/// After a refresh of a non-empty canvas, every compare selection and every
/// edge endpoint names a node on the canvas.
pub proof fn lemma_merge_leaves_no_dangling<S, P>(nodes: Seq<FlowNode<S, P>>, sel: Seq<Seq<char>>, edges: Seq<FlowEdge>)
    ensures
        forall|i: int| 0 <= i < known_ids(sel, node_ids(nodes)).len()
            ==> node_ids(nodes).contains(#[trigger] known_ids(sel, node_ids(nodes))[i]),
        forall|i: int| 0 <= i < known_edges(edges, node_ids(nodes)).len()
            ==> node_ids(nodes).contains((#[trigger] known_edges(edges, node_ids(nodes))[i]).from@)
                && node_ids(nodes).contains(known_edges(edges, node_ids(nodes))[i].to@),
{
    lemma_known_ids_member(sel, node_ids(nodes));
    lemma_known_edges_member(edges, node_ids(nodes));
}

// ── The Flow panel ─────────────────────────────────────────────────────

/// What a poll of the strategy list found: the fresh canvas built from it.
pub enum FlowFetch<S, P> {
    NotConnected,
    Unreachable,
    Fetched(FlowView<S, P>),
}

/// What a refresh from `fresh` makes of a canvas and its compare
/// selection, as [`merge_strategies`] states it.
pub open spec fn merged<S, P>(
    before: FlowView<S, P>,
    fresh: FlowView<S, P>,
    sel_before: Seq<String>,
    after: FlowView<S, P>,
    sel_after: Seq<String>,
) -> bool {
    if before.nodes@.len() == 0 {
        after == fresh && sel_after == sel_before
    } else {
        let kept = kept_nodes(before.nodes@, node_ids(fresh.nodes@));
        let nodes = kept + new_nodes(fresh.nodes@, node_ids(kept));
        &&& after.nodes@ == nodes
        &&& strs::views_of_strings(sel_after) == known_ids(strs::views_of_strings(sel_before), node_ids(nodes))
        &&& after.edges@ == known_edges(before.edges@, node_ids(nodes))
    }
}

/// The Flow panel's state: the canvas, how the engine answered, the compare
/// selection, the node whose backtest runs, the fork counter, and a
/// transient note.
pub struct FlowPanel<S, P> {
    pub view: FlowView<S, P>,
    pub status: PanelStatus,
    /// Up to two node ids chosen for comparison.
    pub selected: Vec<String>,
    /// The node whose backtest is running, if any.
    pub running: Option<String>,
    /// How many forks were made, so each draft id is new.
    pub fork_seq: usize,
    /// Honest feedback instead of a silent no-op.
    pub note: Option<String>,
}

impl<S, P> FlowPanel<S, P> {
    /// An empty canvas: loading when a key is saved, else not connected.
    pub fn new(has_saved_key: bool) -> (p: Self)
        ensures
            p.view.nodes@.len() == 0,
            p.view.edges@.len() == 0,
            p.status == (if has_saved_key { PanelStatus::Loading } else { PanelStatus::NotConnected }),
            p.selected@.len() == 0,
            p.running is None,
            p.fork_seq == 0,
            p.note is None,
    {
        FlowPanel {
            view: FlowView { nodes: Vec::new(), edges: Vec::new() },
            status: PanelStatus::initial(has_saved_key),
            selected: Vec::new(),
            running: None,
            fork_seq: 0,
            note: None,
        }
    }

    /// A poll answered. A fetched list refreshes the canvas without wiping
    /// the board: nodes keep their metrics and places, drafts stay, new
    /// strategies are added, and selections and edges to vanished nodes go.
    pub fn apply_fetch(&mut self, fetched: FlowFetch<S, P>)
        ensures
            final(self).running == old(self).running,
            final(self).fork_seq == old(self).fork_seq,
            final(self).note == old(self).note,
            match fetched {
                FlowFetch::NotConnected => final(self).status == PanelStatus::NotConnected
                    && final(self).view == old(self).view && final(self).selected == old(self).selected,
                FlowFetch::Unreachable => final(self).status == PanelStatus::Unreachable
                    && final(self).view == old(self).view && final(self).selected == old(self).selected,
                FlowFetch::Fetched(fresh) => final(self).status == PanelStatus::Connected
                    && merged(old(self).view, fresh, old(self).selected@, final(self).view, final(self).selected@),
            },
    {
        match fetched {
            FlowFetch::NotConnected => self.status = PanelStatus::NotConnected,
            FlowFetch::Unreachable => self.status = PanelStatus::Unreachable,
            FlowFetch::Fetched(fresh) => {
                self.status = PanelStatus::Connected;
                merge_strategies(&mut self.view, fresh, &mut self.selected);
            },
        }
    }

    /// A new connection was saved, or a retry started: loading.
    pub fn begin_refetch(&mut self)
        ensures
            final(self).status == PanelStatus::Loading,
            final(self).view == old(self).view,
            final(self).selected == old(self).selected,
            final(self).running == old(self).running,
            final(self).note == old(self).note,
            final(self).fork_seq == old(self).fork_seq,
    {
        self.status = PanelStatus::Loading;
    }

    /// Add a node to, or take it out of, the comparison pair.
    pub fn toggle_compare(&mut self, id: &str)
        ensures
            strs::views_of_strings(final(self).selected@) == toggled(strs::views_of_strings(old(self).selected@), id@),
            final(self).view == old(self).view,
            final(self).status == old(self).status,
            final(self).running == old(self).running,
            final(self).note == old(self).note,
            final(self).fork_seq == old(self).fork_seq,
    {
        toggle_compare(&mut self.selected, id);
    }

    /// Run clicked on node `id`: the strategy path to backtest, with the node
    /// marked running and the note cleared; `None`, changing nothing, for a
    /// node that is gone or has no path.
    pub fn begin_run(&mut self, id: &str) -> (r: Option<String>)
        ensures
            match node_at(old(self).view.nodes@, id@) {
                Some(k) => strs::opt_view(r) == strs::opt_view(old(self).view.nodes@[k].path),
                None => r is None,
            },
            r is None ==> final(self).running == old(self).running && final(self).note == old(self).note,
            r is Some ==> (final(self).running matches Some(x) && x@ == id@) && final(self).note is None,
            final(self).view == old(self).view,
            final(self).status == old(self).status,
            final(self).selected == old(self).selected,
            final(self).fork_seq == old(self).fork_seq,
    {
        let k = match node_index(&self.view, id) {
            Some(k) => k,
            None => return None,
        };
        let path = match &self.view.nodes[k].path {
            Some(p) => strs::own(p.as_str()),
            None => return None,
        };
        self.running = Some(strs::own(id));
        self.note = None;
        Some(path)
    }

    /// Node `id`'s backtest finished: its metrics attach to the node, or an
    /// honest note says why not (no numbers are made up). Nothing runs
    /// afterwards.
    pub fn run_finished(&mut self, id: &str, result: Result<S, &str>)
        ensures
            final(self).running is None,
            final(self).status == old(self).status,
            final(self).selected == old(self).selected,
            final(self).fork_seq == old(self).fork_seq,
            final(self).view.edges == old(self).view.edges,
            match result {
                Ok(summary) => final(self).note == old(self).note && match node_at(old(self).view.nodes@, id@) {
                    Some(k) => final(self).view.nodes@ == old(self).view.nodes@.update(k, FlowNode { summary: Some(summary), ..old(self).view.nodes@[k] }),
                    None => final(self).view.nodes@ == old(self).view.nodes@,
                },
                Err(e) => final(self).view == old(self).view
                    && (final(self).note matches Some(m) && m@ == "Backtest failed: "@ + e@ + "."@),
            },
    {
        match result {
            Ok(summary) => {
                set_summary(&mut self.view, id, summary);
            },
            Err(e) => {
                let mut m = strs::own("Backtest failed: ");
                strs::append_str(&mut m, e);
                strs::append_str(&mut m, ".");
                self.note = Some(m);
            },
        }
        self.running = None;
    }

    /// Fork node `id`: a fresh draft child placed by `place_child` from its
    /// parent. Returns the parent's strategy path to open for editing
    /// (`Some(None)` when it has none), or `None` when the parent is gone;
    /// the fork counter moves on either way.
    pub fn fork_node<F: FnOnce(P) -> P>(&mut self, id: &str, place_child: F) -> (r: Option<Option<String>>)
        where P: Copy
        requires
            old(self).fork_seq < usize::MAX,
            forall|p: P| call_requires(place_child, (p,)),
        ensures
            final(self).fork_seq == old(self).fork_seq + 1,
            final(self).status == old(self).status,
            final(self).selected == old(self).selected,
            final(self).running == old(self).running,
            final(self).note == old(self).note,
            match node_at(old(self).view.nodes@, id@) {
                None => r is None && final(self).view == old(self).view,
                Some(k) => {
                    let parent = old(self).view.nodes@[k];
                    &&& r matches Some(path) && strs::opt_view(path) == strs::opt_view(parent.path)
                    &&& final(self).view.nodes@.len() == old(self).view.nodes@.len() + 1
                    &&& final(self).view.nodes@.drop_last() == old(self).view.nodes@
                    &&& final(self).view.nodes@.last().id@ == "draft:"@ + strs::decimal(final(self).fork_seq as nat)
                    &&& final(self).view.nodes@.last().kind == NodeKind::Draft
                    &&& final(self).view.edges@.last().from@ == id@
                },
            },
    {
        self.fork_seq = self.fork_seq + 1;
        let seq = self.fork_seq;
        let ghost before = self.view;
        match fork(&mut self.view, id, seq, place_child) {
            None => None,
            Some(_) => {
                let k = match node_index(&self.view, id) {
                    Some(k) => k,
                    None => {
                        proof {
                            assert(self.view.nodes@.take(before.nodes@.len() as int) =~= self.view.nodes@.drop_last());
                            lemma_node_at_prefix(self.view.nodes@, before.nodes@, id@);
                        }
                        return Some(None);
                    },
                };
                proof {
                    assert(self.view.nodes@.take(before.nodes@.len() as int) =~= self.view.nodes@.drop_last());
                    lemma_node_at_prefix(self.view.nodes@, before.nodes@, id@);
                    lemma_index_in_found(node_ids(before.nodes@), id@);
                    assert(self.view.nodes@[k as int] == before.nodes@[k as int]);
                }
                match &self.view.nodes[k].path {
                    Some(p) => Some(Some(strs::own(p.as_str()))),
                    None => Some(None),
                }
            },
        }
    }

    /// A file could not be opened because no project folder is open.
    pub fn open_failed(&mut self)
        ensures
            final(self).note matches Some(m) && m@ == "Open this folder as a project to edit strategy files."@,
            final(self).view == old(self).view,
            final(self).status == old(self).status,
            final(self).selected == old(self).selected,
            final(self).running == old(self).running,
            final(self).fork_seq == old(self).fork_seq,
    {
        self.note = Some(strs::own("Open this folder as a project to edit strategy files."));
    }
}

/// What a node card shows where its metrics go.
#[derive(Clone, Copy, Debug, PartialEq, Eq)]
pub enum NodeMetrics {
    /// The node's backtest has not run.
    NotRun,
    /// It ran, but the engine returned no statistics.
    NoStatistics,
    /// Its return, Sharpe and drawdown.
    Stats,
}

/// The metrics line of a node, from whether it has a run and whether that
/// run's statistics are empty.
pub fn node_metrics(summary_empty: Option<bool>) -> (r: NodeMetrics)
    ensures
        r == match summary_empty {
            None => NodeMetrics::NotRun,
            Some(true) => NodeMetrics::NoStatistics,
            Some(false) => NodeMetrics::Stats,
        },
{
    match summary_empty {
        None => NodeMetrics::NotRun,
        Some(true) => NodeMetrics::NoStatistics,
        Some(false) => NodeMetrics::Stats,
    }
}

/// The decisions of one node card.
#[derive(Clone, Debug, PartialEq, Eq)]
pub struct NodeCard {
    /// "fork" for a draft, "example" for a bundled strategy, else "strategy".
    pub tag: &'static str,
    /// Chosen for comparison (accent border, Compare toggled on).
    pub selected: bool,
    /// Its backtest is running.
    pub running: bool,
    /// Run shows for a node with a strategy path...
    pub show_run: bool,
    /// ... reading "Running…" (and disabled) while it runs.
    pub run_label: &'static str,
    /// Fork shows for a strategy node with a path, never for a draft.
    pub show_fork: bool,
}

impl<S, P> FlowPanel<S, P> {
    /// The card of the `k`-th node.
    pub fn node_card(&self, k: usize) -> (r: NodeCard)
        requires
            k < self.view.nodes@.len(),
        ensures
            ({
                let n = self.view.nodes@[k as int];
                &&& r.tag@ == if n.kind == NodeKind::Draft { "fork"@ } else if n.bundled { "example"@ } else { "strategy"@ }
                &&& r.selected == strs::views_of_strings(self.selected@).contains(n.id@)
                &&& r.running == (strs::opt_view(self.running) == Some(n.id@))
                &&& r.show_run == (n.path is Some)
                &&& r.run_label@ == if r.running { "Running…"@ } else { "Run"@ }
                &&& r.show_fork == (n.path is Some && n.kind != NodeKind::Draft)
            }),
    {
        let n = &self.view.nodes[k];
        let is_draft = match n.kind {
            NodeKind::Draft => true,
            NodeKind::Strategy => false,
        };
        let tag = if is_draft { "fork" } else if n.bundled { "example" } else { "strategy" };
        let selected = has_id(&self.selected, n.id.as_str());
        let running = match &self.running {
            Some(r) => strs::eq_str(r.as_str(), n.id.as_str()),
            None => false,
        };
        let has_path = n.path.is_some();
        NodeCard {
            tag,
            selected,
            running,
            show_run: has_path,
            run_label: if running { "Running…" } else { "Run" },
            show_fork: has_path && !is_draft,
        }
    }
}

/// What `index_in` finding `id` at `k` means.
proof fn lemma_index_in_found(sel: Seq<Seq<char>>, id: Seq<char>)
    ensures
        index_in(sel, id) matches Some(k) ==> 0 <= k < sel.len() && sel[k] == id
            && forall|j: int| 0 <= j < k ==> sel[j] != id,
    decreases sel.len(),
{
    if sel.len() > 0 && sel[0] != id {
        let t = sel.drop_first();
        lemma_index_in_found(t, id);
        if let Some(k) = index_in(t, id) {
            assert forall|j: int| 0 <= j < k + 1 implies sel[j] != id by {
                if j > 0 {
                    assert(sel[j] == t[j - 1]);
                }
            }
            assert(sel[k + 1] == t[k]);
        }
    }
}

/// A node found among the first nodes of a canvas is found at the same place
/// once more nodes follow.
proof fn lemma_node_at_prefix<S, P>(longer: Seq<FlowNode<S, P>>, prefix: Seq<FlowNode<S, P>>, id: Seq<char>)
    requires
        longer.len() >= prefix.len(),
        longer.take(prefix.len() as int) == prefix,
        node_at(prefix, id) is Some,
    ensures
        node_at(longer, id) == node_at(prefix, id),
{
    let k = node_at(prefix, id)->0;
    lemma_index_in_found(node_ids(prefix), id);
    assert forall|j: int| 0 <= j <= k implies node_ids(longer)[j] == node_ids(prefix)[j] by {
        assert(longer[j] == prefix[j]);
    }
    lemma_index_in(node_ids(longer), id, k);
}

} // verus!
