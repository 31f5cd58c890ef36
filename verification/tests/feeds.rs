use auracle::feeds::{FeedTone, event_tone, order_tone, severity_tone, is_cancellable};

// event_tone

#[test]
fn event_tone_errors_and_failures_are_negative() {
    assert_eq!(event_tone("log.error"), FeedTone::Negative);
    assert_eq!(event_tone("backtest.failed"), FeedTone::Negative);
}

#[test]
fn event_tone_orders_in_flight_are_info() {
    assert_eq!(event_tone("order.submitted"), FeedTone::Info);
}

#[test]
fn event_tone_order_failed_is_negative_not_info() {
    // Decision order matters: a failed order is Negative even though it also
    // starts with "order." — the failed branch wins, matching render today.
    assert_eq!(event_tone("order.failed"), FeedTone::Negative);
}

#[test]
fn event_tone_warnings_and_skips_are_caution() {
    assert_eq!(event_tone("log.warning"), FeedTone::Caution);
    assert_eq!(event_tone("job.skipped"), FeedTone::Caution);
}

#[test]
fn event_tone_succeeded_and_filled_are_positive() {
    assert_eq!(event_tone("backtest.succeeded"), FeedTone::Positive);
    // A non-order `*.filled` reaches the success branch -> Positive.
    assert_eq!(event_tone("position.filled"), FeedTone::Positive);
}

#[test]
fn event_tone_order_filled_is_info_not_positive() {
    // Behaviour-preservation: `RunsDock::kind_color` checks `starts_with(
    // "order.")` BEFORE the succeeded/filled branch, so an `order.filled`
    // renders Info today, never Positive. The spec's prose decision order
    // (order.* before succeeded/filled) and the live render agree on Info;
    // the spec's case-5 literal `order.filled -> Positive` contradicts both,
    // so it is treated as a spec error and the honest, behaviour-preserving
    // value is pinned here instead.
    assert_eq!(event_tone("order.filled"), FeedTone::Info);
}

#[test]
fn event_tone_unmatched_kind_is_neutral() {
    assert_eq!(event_tone("strategy.started"), FeedTone::Neutral);
}

#[test]
fn event_tone_tolerates_surrounding_whitespace() {
    assert_eq!(event_tone("  log.error  "), FeedTone::Negative);
}

// order_tone

#[test]
fn order_tone_filled_and_executed_are_positive_case_insensitive() {
    assert_eq!(order_tone("filled"), FeedTone::Positive);
    assert_eq!(order_tone("EXECUTED"), FeedTone::Positive);
}

#[test]
fn order_tone_rejected_failed_error_are_negative() {
    assert_eq!(order_tone("rejected"), FeedTone::Negative);
    assert_eq!(order_tone("failed"), FeedTone::Negative);
    assert_eq!(order_tone("error"), FeedTone::Negative);
}

#[test]
fn order_tone_cancelled_either_spelling_is_ignored() {
    assert_eq!(order_tone("Cancelled"), FeedTone::Ignored);
    assert_eq!(order_tone("canceled"), FeedTone::Ignored);
}

#[test]
fn order_tone_in_flight_and_unknown_are_info() {
    assert_eq!(order_tone("submitted"), FeedTone::Info);
    assert_eq!(order_tone("pending"), FeedTone::Info);
    assert_eq!(order_tone("routed"), FeedTone::Info);
    assert_eq!(order_tone(""), FeedTone::Info);
}

// severity_tone

#[test]
fn severity_tone_maps_error_warning_and_falls_back_to_info() {
    assert_eq!(severity_tone("error"), FeedTone::Negative);
    assert_eq!(severity_tone("warning"), FeedTone::Caution);
    assert_eq!(severity_tone("info"), FeedTone::Info);
    assert_eq!(severity_tone("notice"), FeedTone::Info);
}

// is_cancellable

#[test]
fn is_cancellable_allows_every_working_status_case_insensitive() {
    for status in [
        "pending",
        "sent",
        "partially_filled",
        "working",
        "open",
        "submitted",
        "routed",
    ] {
        assert!(is_cancellable(status), "{status} should be cancellable");
    }
    assert!(is_cancellable("WORKING"));
}

#[test]
fn is_cancellable_excludes_dry_run() {
    // Honesty guard: a preview never reached a broker, so it is not cancellable.
    assert!(!is_cancellable("dry_run"));
}

#[test]
fn is_cancellable_excludes_terminal_statuses() {
    for status in ["executed", "filled", "cancelled", "rejected", "failed"] {
        assert!(
            !is_cancellable(status),
            "{status} should not be cancellable"
        );
    }
}

#[test]
fn is_cancellable_is_a_closed_allowlist() {
    assert!(!is_cancellable(""));
    assert!(!is_cancellable("some_new_status"));
}
