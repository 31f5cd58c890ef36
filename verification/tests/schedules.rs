use auracle::schedules::{ScheduleTone, ScheduleListItem, strategy_tail, schedule_rows, toggle_label, delete_label};

#[test]
fn schedule_rows_derive_tail_drop_empty_name_preserve_order() {
    let rows = schedule_rows(&[
        (
            "nightly",
            "strategies.example_ma.MACrossover",
            "0 0 * * *",
            true,
        ),
        ("", "strategies.ignored.Ignored", "* * * * *", true),
        ("hourly", "strategies.mean.MeanRevert", "0 * * * *", false),
    ]);
    assert_eq!(rows.len(), 2);
    // Empty-name entry dropped; engine order preserved.
    assert_eq!(rows[0].name, "nightly");
    assert_eq!(rows[0].strategy, "MACrossover");
    assert_eq!(rows[0].cron, "0 0 * * *");
    assert_eq!(rows[1].name, "hourly");
    assert_eq!(rows[1].strategy, "MeanRevert");
}

#[test]
fn tone_is_running_iff_enabled() {
    let rows = schedule_rows(&[
        ("a", "s.A", "* * * * *", true),
        ("b", "s.B", "* * * * *", false),
    ]);
    assert_eq!(rows[0].tone, ScheduleTone::Running);
    assert_eq!(rows[1].tone, ScheduleTone::Paused);
}

#[test]
fn toggle_label_matches_enabled_state() {
    assert_eq!(toggle_label(true), "Pause");
    assert_eq!(toggle_label(false), "Resume");
}

#[test]
fn delete_label_matches_armed_state() {
    assert_eq!(delete_label(true), "Confirm delete");
    assert_eq!(delete_label(false), "Delete");
}

#[test]
fn strategy_tail_takes_last_segment() {
    assert_eq!(strategy_tail("strategies.x.MACrossover"), "MACrossover");
    assert_eq!(strategy_tail("solo"), "solo");
    assert_eq!(strategy_tail(""), "");
}
