use auracle::flow::{
    build_flow, draft_id, fork, fork_edge, fork_name, grid_cell, improved, merge_strategies, node_index, set_summary,
    node_metrics, toggle_compare, Change, Direction, EdgeKind, FlowFetch, FlowPanel, FlowView, NodeKind, NodeMetrics, COLS,
};
use auracle::panel_common::PanelStatus;
use auracle::strategies::StrategyListItem;

#[test]
fn improvement_tone_respects_metric_direction_rule() {
    // Higher is better: a positive delta improves.
    assert_eq!(improved(Direction::HigherBetter, Some(Change::Higher)), Some(true));
    assert_eq!(improved(Direction::HigherBetter, Some(Change::Lower)), Some(false));
    // Lower is better (turnover).
    assert_eq!(improved(Direction::LowerBetter, Some(Change::Lower)), Some(true));
    // Drawdown: a smaller magnitude improves, whatever the sign convention.
    assert_eq!(improved(Direction::CloserToZeroBetter, Some(Change::Lower)), Some(true));
    assert_eq!(improved(Direction::CloserToZeroBetter, Some(Change::Higher)), Some(false));
    // No change, a missing side, or a neutral metric stays tone-neutral.
    assert_eq!(improved(Direction::HigherBetter, Some(Change::Same)), None);
    assert_eq!(improved(Direction::HigherBetter, None), None);
    assert_eq!(improved(Direction::Neutral, Some(Change::Higher)), None);
    assert_eq!(improved(Direction::LowerBetter, Some(Change::Unordered)), Some(false));
}

#[test]
fn drafts_are_named_and_linked() {
    assert_eq!(draft_id(3), "draft:3");
    assert_eq!(fork_name("Momentum"), "Momentum (fork)");
    let edge = fork_edge("a.b.C", "draft:0");
    assert_eq!(edge.from, "a.b.C");
    assert_eq!(edge.to, "draft:0");
    assert_eq!(edge.kind, EdgeKind::Fork);
}

#[test]
fn build_flow_lays_out_a_grid_rule() {
    assert_eq!(COLS, 3);
    assert_eq!(grid_cell(0), (0, 0));
    assert_eq!(grid_cell(2), (2, 0));
    assert_eq!(grid_cell(3), (0, 1));
    assert_eq!(grid_cell(7), (1, 2));
}

#[test]
fn compare_selection_keeps_the_two_newest() {
    let mut sel: Vec<String> = Vec::new();
    toggle_compare(&mut sel, "a");
    toggle_compare(&mut sel, "b");
    assert_eq!(sel, vec!["a".to_string(), "b".to_string()]);
    toggle_compare(&mut sel, "c");
    assert_eq!(sel, vec!["b".to_string(), "c".to_string()]);
    toggle_compare(&mut sel, "b");
    assert_eq!(sel, vec!["c".to_string()]);
}

fn item(path: &str, bundled: bool) -> StrategyListItem {
    let name = path.rsplit('.').next().unwrap_or(path).to_string();
    StrategyListItem { name, path: path.to_string(), doc: format!("doc of {}", path), bundled }
}

fn place(cell: (usize, usize)) -> (i64, i64) {
    (cell.0 as i64 * 100, cell.1 as i64 * 50)
}

fn seeded(paths: &[&str]) -> FlowView<u32, (i64, i64)> {
    build_flow(paths.iter().map(|p| item(p, false)).collect(), place)
}

#[test]
fn build_flow_seeds_one_node_per_strategy_in_grid_order() {
    let view = seeded(&["a.A", "b.B", "c.C", "d.D"]);
    assert_eq!(view.nodes.len(), 4);
    assert!(view.edges.is_empty());
    assert_eq!(view.nodes[0].id, "a.A");
    assert_eq!(view.nodes[0].name, "A");
    assert_eq!(view.nodes[0].path.as_deref(), Some("a.A"));
    assert_eq!(view.nodes[0].doc, "doc of a.A");
    assert_eq!(view.nodes[0].kind, NodeKind::Strategy);
    assert!(view.nodes[0].summary.is_none());
    assert_eq!(view.nodes[2].pos, (200, 0));
    assert_eq!(view.nodes[3].pos, (0, 50));
    assert_eq!(node_index(&view, "c.C"), Some(2));
    assert_eq!(node_index(&view, "zz"), None);
}

#[test]
fn set_summary_touches_only_the_named_node() {
    let mut view = seeded(&["a.A", "b.B"]);
    assert!(set_summary(&mut view, "b.B", 7));
    assert_eq!(view.nodes[1].summary, Some(7));
    assert!(view.nodes[0].summary.is_none());
    assert!(!set_summary(&mut view, "gone", 9));
    assert_eq!(view.nodes.len(), 2);
}

#[test]
fn fork_adds_a_linked_draft_beside_its_parent() {
    let mut view = seeded(&["a.A", "b.B"]);
    let id = fork(&mut view, "b.B", 0, |p: (i64, i64)| (p.0 + 260, p.1 + 40));
    assert_eq!(id.as_deref(), Some("draft:0"));
    assert_eq!(view.nodes.len(), 3);
    let child = &view.nodes[2];
    assert_eq!(child.id, "draft:0");
    assert_eq!(child.name, "B (fork)");
    assert_eq!(child.path.as_deref(), Some("b.B"));
    assert_eq!(child.kind, NodeKind::Draft);
    assert!(!child.bundled);
    assert_eq!(child.pos, (360, 40));
    assert_eq!(view.edges.len(), 1);
    assert_eq!(view.edges[0].from, "b.B");
    assert_eq!(view.edges[0].to, "draft:0");
    assert_eq!(view.edges[0].kind, EdgeKind::Fork);
    // A vanished parent changes nothing.
    let before = view.clone();
    assert_eq!(fork(&mut view, "nope", 1, |p: (i64, i64)| p), None);
    assert_eq!(view, before);
}

#[test]
fn merge_into_an_empty_canvas_takes_the_fresh_view() {
    let mut view: FlowView<u32, (i64, i64)> = FlowView { nodes: Vec::new(), edges: Vec::new() };
    let mut sel = vec!["stale".to_string()];
    let fresh = seeded(&["a.A"]);
    merge_strategies(&mut view, fresh.clone(), &mut sel);
    assert_eq!(view, fresh);
    assert_eq!(sel, vec!["stale".to_string()]);
}

#[test]
fn merge_drops_vanished_strategies_keeps_drafts_and_prunes() {
    let mut view = seeded(&["a.A", "b.B"]);
    set_summary(&mut view, "a.A", 5);
    fork(&mut view, "b.B", 0, |p: (i64, i64)| p);
    fork(&mut view, "a.A", 1, |p: (i64, i64)| p);
    let mut sel = vec!["b.B".to_string(), "a.A".to_string()];
    // The engine no longer lists b.B, and now lists c.C.
    let fresh = seeded(&["a.A", "c.C"]);
    merge_strategies(&mut view, fresh, &mut sel);
    let ids: Vec<&str> = view.nodes.iter().map(|n| n.id.as_str()).collect();
    assert_eq!(ids, vec!["a.A", "draft:0", "draft:1", "c.C"]);
    // Kept nodes keep their metrics; the added node sits at its seeded cell.
    assert_eq!(view.nodes[0].summary, Some(5));
    assert_eq!(view.nodes[3].pos, (100, 0));
    assert_eq!(sel, vec!["a.A".to_string()]);
    // The edge from the vanished b.B is pruned; a.A's stays.
    assert_eq!(view.edges.len(), 1);
    assert_eq!(view.edges[0].from, "a.A");
    assert_eq!(view.edges[0].to, "draft:1");
}

#[test]
fn the_panel_merges_polls_without_wiping_the_board() {
    let mut p: FlowPanel<u32, (i64, i64)> = FlowPanel::new(true);
    assert_eq!(p.status, PanelStatus::Loading);
    p.apply_fetch(FlowFetch::Fetched(seeded(&["a.A", "b.B"])));
    assert_eq!(p.status, PanelStatus::Connected);
    assert_eq!(p.view.nodes.len(), 2);
    p.toggle_compare("b.B");
    assert_eq!(p.begin_run("a.A").as_deref(), Some("a.A"));
    assert_eq!(p.running.as_deref(), Some("a.A"));
    p.run_finished("a.A", Ok(42));
    assert_eq!(p.running, None);
    assert_eq!(p.view.nodes[0].summary, Some(42));
    p.apply_fetch(FlowFetch::Unreachable);
    assert_eq!(p.status, PanelStatus::Unreachable);
    assert_eq!(p.view.nodes.len(), 2);
    // b.B vanished: its selection goes, a.A keeps its metrics.
    p.apply_fetch(FlowFetch::Fetched(seeded(&["a.A"])));
    assert_eq!(p.view.nodes.len(), 1);
    assert_eq!(p.view.nodes[0].summary, Some(42));
    assert!(p.selected.is_empty());
    p.begin_refetch();
    assert_eq!(p.status, PanelStatus::Loading);
}

#[test]
fn a_failed_run_leaves_the_node_unrun_and_says_why() {
    let mut p: FlowPanel<u32, (i64, i64)> = FlowPanel::new(true);
    p.apply_fetch(FlowFetch::Fetched(seeded(&["a.A"])));
    assert_eq!(p.begin_run("gone"), None);
    assert_eq!(p.running, None);
    p.begin_run("a.A");
    p.run_finished("a.A", Err("engine down"));
    assert_eq!(p.view.nodes[0].summary, None);
    assert_eq!(p.note.as_deref(), Some("Backtest failed: engine down."));
    assert_eq!(p.running, None);
    p.open_failed();
    assert_eq!(p.note.as_deref(), Some("Open this folder as a project to edit strategy files."));
}

#[test]
fn forks_get_fresh_draft_ids() {
    let mut p: FlowPanel<u32, (i64, i64)> = FlowPanel::new(true);
    p.apply_fetch(FlowFetch::Fetched(seeded(&["a.A"])));
    assert_eq!(p.fork_node("a.A", |q: (i64, i64)| (q.0 + 10, q.1)), Some(Some("a.A".to_string())));
    assert_eq!(p.fork_node("a.A", |q: (i64, i64)| (q.0 + 20, q.1)), Some(Some("a.A".to_string())));
    let ids: Vec<&str> = p.view.nodes.iter().map(|n| n.id.as_str()).collect();
    assert_eq!(ids, vec!["a.A", "draft:1", "draft:2"]);
    assert_eq!(p.fork_node("missing", |q: (i64, i64)| q), None);
    assert_eq!(p.fork_seq, 3);
    assert_eq!(p.view.nodes.len(), 3);
    // A draft has its parent's path, so forking it opens the same file.
    assert_eq!(p.fork_node("draft:1", |q: (i64, i64)| q), Some(Some("a.A".to_string())));
}

#[test]
fn node_cards_show_what_each_node_can_do() {
    let mut p: FlowPanel<u32, (i64, i64)> = FlowPanel::new(true);
    let mut fresh = seeded(&["a.A", "b.B"]);
    fresh.nodes[1].bundled = true;
    p.apply_fetch(FlowFetch::Fetched(fresh));
    p.fork_node("a.A", |q: (i64, i64)| q);
    p.toggle_compare("b.B");
    p.begin_run("a.A");
    let a = p.node_card(0);
    assert_eq!(a.tag, "strategy");
    assert!(a.running && a.show_run && a.show_fork && !a.selected);
    assert_eq!(a.run_label, "Running…");
    let b = p.node_card(1);
    assert_eq!(b.tag, "example");
    assert!(b.selected && !b.running);
    assert_eq!(b.run_label, "Run");
    let draft = p.node_card(2);
    assert_eq!(draft.tag, "fork");
    assert!(draft.show_run && !draft.show_fork);
    assert_eq!(node_metrics(None), NodeMetrics::NotRun);
    assert_eq!(node_metrics(Some(true)), NodeMetrics::NoStatistics);
    assert_eq!(node_metrics(Some(false)), NodeMetrics::Stats);
}

// The canvas geometry the tests place nodes with: the seed grid's cells at
// fixed pixel steps.
const MARGIN: f32 = 24.0;

#[derive(Clone, Copy, Debug, PartialEq)]
struct Pos {
    x: f32,
    y: f32,
}

fn canvas_place(cell: (usize, usize)) -> Pos {
    Pos { x: MARGIN + cell.0 as f32 * 268.0, y: MARGIN + cell.1 as f32 * 172.0 }
}

fn canvas(rows: Vec<StrategyListItem>) -> FlowView<u32, Pos> {
    build_flow(rows, canvas_place)
}

fn beside(p: Pos) -> Pos {
    Pos { x: p.x + 260.0, y: p.y + 40.0 }
}

#[test]
fn build_flow_makes_one_node_per_strategy() {
    let view = canvas(vec![item("a.b.C", false), item("a.b.D", false)]);
    assert_eq!(view.nodes.len(), 2);
    assert_eq!(view.nodes[0].name, "C");
    assert_eq!(view.nodes[0].kind, NodeKind::Strategy);
    assert!(view.nodes[0].summary.is_none());
    assert!(view.edges.is_empty());
}

#[test]
fn build_flow_lays_out_a_grid() {
    let rows: Vec<_> = (0..4).map(|i| item(&format!("p.S{i}"), false)).collect();
    let view = canvas(rows);
    // First three across one row, fourth wraps under the first.
    assert_eq!(view.nodes[0].pos, Pos { x: MARGIN, y: MARGIN });
    assert!(view.nodes[1].pos.x > view.nodes[0].pos.x);
    assert_eq!(view.nodes[1].pos.y, view.nodes[0].pos.y);
    assert_eq!(view.nodes[3].pos.x, view.nodes[0].pos.x);
    assert!(view.nodes[3].pos.y > view.nodes[0].pos.y);
}

#[test]
fn fork_adds_a_draft_child_and_an_edge() {
    let mut view = canvas(vec![item("strategies.m.Mom", false)]);
    let parent_id = view.nodes[0].id.clone();
    let draft = fork(&mut view, &parent_id, 1, beside).expect("parent exists");
    assert_eq!(view.nodes.len(), 2);
    let child = view.nodes.iter().find(|n| n.id == draft).unwrap();
    assert_eq!(child.kind, NodeKind::Draft);
    assert_eq!(child.name, "Mom (fork)");
    assert_eq!(child.path.as_deref(), Some("strategies.m.Mom"));
    assert!(child.summary.is_none());
    assert_eq!(view.edges.len(), 1);
    assert_eq!(view.edges[0].from, parent_id);
    assert_eq!(view.edges[0].to, draft);
}

#[test]
fn fork_of_a_missing_node_is_a_no_op() {
    let mut view = canvas(vec![item("a.B", false)]);
    assert_eq!(fork(&mut view, "nope", 1, beside), None);
    assert_eq!(view.nodes.len(), 1);
    assert!(view.edges.is_empty());
}

#[test]
fn set_summary_fills_only_the_named_node() {
    let mut view = canvas(vec![item("a.B", false), item("a.C", false)]);
    let id = view.nodes[1].id.clone();
    assert!(set_summary(&mut view, &id, 1));
    assert!(view.nodes[0].summary.is_none());
    assert!(view.nodes[1].summary.is_some());
    assert!(!set_summary(&mut view, "missing", 0));
}
