//! Row-building and label decisions for the Schedules panel: drop entries with
//! no name, show only the strategy's last dotted segment, and derive a
//! liveness tone tied strictly to `enabled`; the cron string passes through.

use vstd::prelude::*;
use crate::strs;

verus! {

/// Liveness tone of a schedule row.
#[derive(Debug, Clone, Copy, PartialEq, Eq)]
pub enum ScheduleTone {
    Running,
    Paused,
}

/// One schedule row, derived from the engine's schedule entry.
#[derive(Debug, Clone, PartialEq, Eq)]
pub struct ScheduleListItem {
    pub name: String,
    /// Last dotted segment of `strategy_path`.
    pub strategy: String,
    /// Cron expression, verbatim.
    pub cron: String,
    pub enabled: bool,
    /// `Running` iff `enabled`.
    pub tone: ScheduleTone,
}

/// What a row shows: name, strategy tail, cron, enabled, tone.
pub type ItemView = (Seq<char>, Seq<char>, Seq<char>, bool, ScheduleTone);

/// The characters of a row.
pub open spec fn item_view(i: ScheduleListItem) -> ItemView {
    (i.name@, i.strategy@, i.cron@, i.enabled, i.tone)
}

/// The row an entry becomes.
pub open spec fn entry_row(e: (&str, &str, &str, bool)) -> ItemView {
    (e.0@, strs::after_last(e.1@, '.'), e.2@, e.3, if e.3 { ScheduleTone::Running } else { ScheduleTone::Paused })
}

/// The rows for `entries`: entries with an empty name dropped, order kept.
pub open spec fn rows_view(entries: Seq<(&str, &str, &str, bool)>) -> Seq<ItemView>
    decreases entries.len(),
{
    if entries.len() == 0 {
        Seq::<ItemView>::empty()
    } else if entries.last().0@.len() == 0 {
        rows_view(entries.drop_last())
    } else {
        rows_view(entries.drop_last()).push(entry_row(entries.last()))
    }
}

/// Strategy tail: the last `.`-segment; the whole path if it has no dot.
pub fn strategy_tail(strategy_path: &str) -> (r: String)
    ensures
        r@ == strs::after_last(strategy_path@, '.'),
{
    let v = strs::chars_of(strategy_path);
    let tail = strs::after_last_exec(&v, '.');
    strs::string_of_chars(&tail)
}

/// Build the rows from raw `(name, strategy_path, cron, enabled)` entries.
pub fn schedule_rows(entries: &[(&str, &str, &str, bool)]) -> (r: Vec<ScheduleListItem>)
    ensures
        r@.map_values(|i: ScheduleListItem| item_view(i)) == rows_view(entries@),
{
    let mut rows: Vec<ScheduleListItem> = Vec::new();
    let mut i: usize = 0;
    while i < entries.len()
        invariant
            i <= entries@.len(),
            rows@.map_values(|x: ScheduleListItem| item_view(x)) == rows_view(entries@.subrange(0, i as int)),
        decreases entries@.len() - i,
    {
        let e = entries[i];
        assert(entries@.subrange(0, i + 1).drop_last() =~= entries@.subrange(0, i as int));
        assert(entries@.subrange(0, i + 1).last() == e);
        let ghost before = rows@.map_values(|x: ScheduleListItem| item_view(x));
        if e.0.unicode_len() > 0 {
            let item = ScheduleListItem {
                name: strs::own(e.0),
                strategy: strategy_tail(e.1),
                cron: strs::own(e.2),
                enabled: e.3,
                tone: if e.3 { ScheduleTone::Running } else { ScheduleTone::Paused },
            };
            rows.push(item);
            assert(rows@.map_values(|x: ScheduleListItem| item_view(x)) =~= before.push(entry_row(e)));
        }
        i = i + 1;
    }
    assert(entries@.subrange(0, entries@.len() as int) =~= entries@);
    rows
}

/// The pause/resume toggle label: a running schedule offers "Pause".
pub fn toggle_label(enabled: bool) -> (r: &'static str)
    ensures
        r@ == (if enabled { "Pause"@ } else { "Resume"@ }),
{
    if enabled { "Pause" } else { "Resume" }
}

/// The delete button label, given whether the two-click confirm is armed.
pub fn delete_label(armed: bool) -> (r: &'static str)
    ensures
        r@ == (if armed { "Confirm delete"@ } else { "Delete"@ }),
{
    if armed { "Confirm delete" } else { "Delete" }
}

} // verus!
