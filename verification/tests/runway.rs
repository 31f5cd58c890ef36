use auracle::runway::{StageMark, StageMarker, stage_marker};

#[test]
fn an_engine_unprovable_stage_is_not_tracked_never_soon() {
    let marker = stage_marker("unknown", false);
    assert_eq!(
        marker,
        StageMarker {
            label: Some("not tracked".into()),
            mark: StageMark::Untracked,
        }
    );
}

#[test]
fn the_current_rung_reads_now() {
    let marker = stage_marker("no", true);
    assert_eq!(
        marker,
        StageMarker {
            label: Some("now".into()),
            mark: StageMark::Current,
        }
    );
}

#[test]
fn a_reached_stage_is_done_with_no_marker() {
    let marker = stage_marker("yes", false);
    assert_eq!(
        marker,
        StageMarker {
            label: None,
            mark: StageMark::Done,
        }
    );
}

#[test]
fn a_not_reached_stage_reads_to_do() {
    let marker = stage_marker("no", false);
    assert_eq!(
        marker,
        StageMarker {
            label: Some("to do".into()),
            mark: StageMark::Pending,
        }
    );
}

#[test]
fn the_current_rung_wins_even_when_reached() {
    // Precedence: the active rung reads "now" regardless of reached state.
    assert_eq!(stage_marker("yes", true).mark, StageMark::Current);
}

#[test]
fn an_unexpected_reached_value_falls_back_to_not_tracked() {
    // Honesty: never dress an unrecognised engine value as done or to-do.
    let marker = stage_marker("garbled", false);
    assert_eq!(marker.mark, StageMark::Untracked);
}
