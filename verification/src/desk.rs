//! The Desk overview dashboard's rows: a value the engine reported (including
//! a real `0`) passes through truthfully; a missing or non-finite value
//! becomes an Unknown row, never a fabricated zero.
//!
//! Amounts arrive here already read: as the text they display as, and, for a
//! profit-and-loss figure, the sign that drives its tone. A missing or
//! non-finite amount arrives as `None`.

use vstd::prelude::*;
use crate::panel_common::PanelStatus;
use crate::strs;

verus! {

/// How a metric reads at a glance; the panel maps this to a theme colour.
#[derive(Debug, Clone, Copy, PartialEq, Eq)]
pub enum Tone {
    Positive,
    Negative,
    Neutral,
    /// The engine did not report this value — shown as "Unknown", never a 0.
    Unknown,
}

/// The sign of a reported amount.
#[derive(Debug, Clone, Copy, PartialEq, Eq)]
pub enum Sign {
    Negative,
    Zero,
    Positive,
}

/// One labelled metric the Desk renders.
#[derive(Debug, Clone, PartialEq, Eq)]
pub struct MetricRow {
    pub label: &'static str,
    pub value: String,
    pub tone: Tone,
}

/// A per-strategy row: name + raw status + a P&L metric.
#[derive(Debug, Clone, PartialEq, Eq)]
pub struct StrategyRow {
    pub name: String,
    pub status: String,
    pub pnl: MetricRow,
}

/// The reduced view the Desk panel renders.
#[derive(Debug, Clone, PartialEq, Eq)]
pub struct DeskView {
    pub metrics: Vec<MetricRow>,
    pub strategies: Vec<StrategyRow>,
}

/// The tone of a profit-and-loss amount of this sign.
pub open spec fn tone_of(sign: Sign) -> Tone {
    match sign {
        Sign::Positive => Tone::Positive,
        Sign::Negative => Tone::Negative,
        Sign::Zero => Tone::Neutral,
    }
}

/// The row a metric shows: its text and tone when reported, `Unknown`
/// otherwise.
pub open spec fn row_is(r: MetricRow, label: Seq<char>, value: Seq<char>, tone: Tone) -> bool {
    r.label@ == label && r.value@ == value && r.tone == tone
}

/// A metric the engine did not report.
pub fn unknown_row(label: &'static str) -> (r: MetricRow)
    ensures
        row_is(r, label@, "Unknown"@, Tone::Unknown),
{
    MetricRow { label, value: strs::own("Unknown"), tone: Tone::Unknown }
}

/// A plain currency metric (equity, buying power): Neutral when reported,
/// Unknown when missing.
pub fn money_row(label: &'static str, shown: Option<String>) -> (r: MetricRow)
    ensures
        match shown {
            Some(text) => row_is(r, label@, text@, Tone::Neutral),
            None => row_is(r, label@, "Unknown"@, Tone::Unknown),
        },
{
    match shown {
        Some(value) => MetricRow { label, value, tone: Tone::Neutral },
        None => unknown_row(label),
    }
}

/// A signed P&L metric: tone tracks the sign; Unknown when missing.
pub fn pnl_row(label: &'static str, reading: Option<(String, Sign)>) -> (r: MetricRow)
    ensures
        match reading {
            Some((text, sign)) => row_is(r, label@, text@, tone_of(sign)),
            None => row_is(r, label@, "Unknown"@, Tone::Unknown),
        },
{
    match reading {
        Some((value, sign)) => {
            let tone = match sign {
                Sign::Positive => Tone::Positive,
                Sign::Negative => Tone::Negative,
                Sign::Zero => Tone::Neutral,
            };
            MetricRow { label, value, tone }
        },
        None => unknown_row(label),
    }
}

/// The open-positions metric: the count when reported, Unknown otherwise.
pub fn positions_row(value: Option<u32>) -> (r: MetricRow)
    ensures
        match value {
            Some(n) => row_is(r, "Positions"@, strs::decimal(n as nat), Tone::Neutral),
            None => row_is(r, "Positions"@, "Unknown"@, Tone::Unknown),
        },
{
    match value {
        Some(n) => MetricRow { label: "Positions", value: strs::decimal_string(n as u64), tone: Tone::Neutral },
        None => unknown_row("Positions"),
    }
}

/// One strategy's facts: name, raw status, and its P&L reading.
pub struct StrategyFacts {
    pub name: String,
    pub status: String,
    pub pnl: Option<(String, Sign)>,
}

/// Reduce an overview snapshot into the Desk's rows: equity, day P&L, open
/// P&L, buying power and positions, in that order, then one row per strategy.
pub fn build_desk(
    equity: Option<String>,
    day_pnl: Option<(String, Sign)>,
    open_pnl: Option<(String, Sign)>,
    buying_power: Option<String>,
    positions: Option<u32>,
    strategies: Vec<StrategyFacts>,
) -> (r: DeskView)
    ensures
        r.metrics@.len() == 5,
        match equity {
            Some(t) => row_is(r.metrics@[0], "Equity"@, t@, Tone::Neutral),
            None => row_is(r.metrics@[0], "Equity"@, "Unknown"@, Tone::Unknown),
        },
        match day_pnl {
            Some((t, s)) => row_is(r.metrics@[1], "Day P&L"@, t@, tone_of(s)),
            None => row_is(r.metrics@[1], "Day P&L"@, "Unknown"@, Tone::Unknown),
        },
        match open_pnl {
            Some((t, s)) => row_is(r.metrics@[2], "Open P&L"@, t@, tone_of(s)),
            None => row_is(r.metrics@[2], "Open P&L"@, "Unknown"@, Tone::Unknown),
        },
        match buying_power {
            Some(t) => row_is(r.metrics@[3], "Buying Power"@, t@, Tone::Neutral),
            None => row_is(r.metrics@[3], "Buying Power"@, "Unknown"@, Tone::Unknown),
        },
        match positions {
            Some(n) => row_is(r.metrics@[4], "Positions"@, strs::decimal(n as nat), Tone::Neutral),
            None => row_is(r.metrics@[4], "Positions"@, "Unknown"@, Tone::Unknown),
        },
        r.strategies@.len() == strategies@.len(),
        forall|i: int| 0 <= i < strategies@.len() ==> {
            &&& (#[trigger] r.strategies@[i]).name@ == strategies@[i].name@
            &&& r.strategies@[i].status@ == strategies@[i].status@
            &&& match strategies@[i].pnl {
                Some((t, s)) => row_is(r.strategies@[i].pnl, "P&L"@, t@, tone_of(s)),
                None => row_is(r.strategies@[i].pnl, "P&L"@, "Unknown"@, Tone::Unknown),
            }
        },
{
    let mut metrics: Vec<MetricRow> = Vec::new();
    metrics.push(money_row("Equity", equity));
    metrics.push(pnl_row("Day P&L", day_pnl));
    metrics.push(pnl_row("Open P&L", open_pnl));
    metrics.push(money_row("Buying Power", buying_power));
    metrics.push(positions_row(positions));
    let ghost src = strategies@;
    let mut rows: Vec<StrategyRow> = Vec::new();
    let mut i: usize = 0;
    let n = strategies.len();
    while i < n
        invariant
            i <= n == src.len(),
            src == strategies@,
            rows@.len() == i,
            forall|k: int| 0 <= k < i ==> {
                &&& (#[trigger] rows@[k]).name@ == src[k].name@
                &&& rows@[k].status@ == src[k].status@
                &&& match src[k].pnl {
                    Some((t, s)) => row_is(rows@[k].pnl, "P&L"@, t@, tone_of(s)),
                    None => row_is(rows@[k].pnl, "P&L"@, "Unknown"@, Tone::Unknown),
                }
            },
        decreases n - i,
    {
        let facts = &strategies[i];
        let reading = match &facts.pnl {
            Some((t, s)) => Some((t.clone(), *s)),
            None => None,
        };
        let row = StrategyRow { name: facts.name.clone(), status: facts.status.clone(), pnl: pnl_row("P&L", reading) };
        rows.push(row);
        i = i + 1;
    }
    DeskView { metrics, strategies: rows }
}

/// What a poll of the overview found: the reduced desk.
pub enum DeskFetch {
    NotConnected,
    Unreachable,
    Fetched(DeskView),
}

/// The Desk panel's state: the rows it shows and how the engine answered.
pub struct DeskPanel {
    pub view: DeskView,
    pub status: PanelStatus,
}

/// The desk before any snapshot: every metric unknown, no strategies.
pub fn empty_desk() -> (r: DeskView)
    ensures
        r.metrics@.len() == 5,
        row_is(r.metrics@[0], "Equity"@, "Unknown"@, Tone::Unknown),
        row_is(r.metrics@[1], "Day P&L"@, "Unknown"@, Tone::Unknown),
        row_is(r.metrics@[2], "Open P&L"@, "Unknown"@, Tone::Unknown),
        row_is(r.metrics@[3], "Buying Power"@, "Unknown"@, Tone::Unknown),
        row_is(r.metrics@[4], "Positions"@, "Unknown"@, Tone::Unknown),
        r.strategies@.len() == 0,
{
    build_desk(None, None, None, None, None, Vec::new())
}

impl DeskPanel {
    /// A panel opening on the empty desk: loading when a key is saved, else
    /// not connected.
    pub fn new(has_saved_key: bool) -> (p: Self)
        ensures
            p.status == (if has_saved_key { PanelStatus::Loading } else { PanelStatus::NotConnected }),
            p.view.metrics@.len() == 5,
            p.view.strategies@.len() == 0,
            forall|i: int| 0 <= i < 5 ==> (#[trigger] p.view.metrics@[i]).tone == Tone::Unknown,
    {
        let view = empty_desk();
        DeskPanel { view, status: PanelStatus::initial(has_saved_key) }
    }

    /// A poll (or a retry) answered: the same outcome reaches the same state
    /// either way. Only a fetched snapshot replaces the rows.
    pub fn apply_fetch(&mut self, fetched: DeskFetch)
        ensures
            match fetched {
                DeskFetch::NotConnected => final(self).status == PanelStatus::NotConnected && final(self).view == old(self).view,
                DeskFetch::Unreachable => final(self).status == PanelStatus::Unreachable && final(self).view == old(self).view,
                DeskFetch::Fetched(v) => final(self).status == PanelStatus::Connected && final(self).view == v,
            },
    {
        match fetched {
            DeskFetch::NotConnected => self.status = PanelStatus::NotConnected,
            DeskFetch::Unreachable => self.status = PanelStatus::Unreachable,
            DeskFetch::Fetched(v) => {
                self.status = PanelStatus::Connected;
                self.view = v;
            },
        }
    }

    /// A retry or a new connection: loading, keeping the last rows.
    pub fn begin_refetch(&mut self)
        ensures
            final(self).status == PanelStatus::Loading,
            final(self).view == old(self).view,
    {
        self.status = PanelStatus::Loading;
    }
}

} // verus!
