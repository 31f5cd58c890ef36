use auracle::studio_results::{
    classify_diag_fetch, classify_robustness, fmt_count, verdict_text, DiagFetchOutcome, RobustnessVerdict, MISSING,
};

#[test]
fn classify_diag_fetch_maps_status_and_transport_errors() {
    assert_eq!(classify_diag_fetch(Some(404), None), DiagFetchOutcome::Unavailable);
    assert_eq!(
        classify_diag_fetch(Some(500), None),
        DiagFetchOutcome::Failed { message: "Engine returned HTTP 500.".to_string() }
    );
    assert_eq!(
        classify_diag_fetch(None, Some("timeout")),
        DiagFetchOutcome::Failed { message: "timeout".to_string() }
    );
    assert_eq!(classify_diag_fetch(Some(200), None), DiagFetchOutcome::Ready);
}

#[test]
fn classify_diag_fetch_string_sniff_fallback_when_status_absent() {
    assert_eq!(classify_diag_fetch(None, Some("HTTP 404 Not Found")), DiagFetchOutcome::Unavailable);
    assert_eq!(classify_diag_fetch(None, Some("route not found")), DiagFetchOutcome::Unavailable);
    assert_eq!(
        classify_diag_fetch(None, Some("connection refused")),
        DiagFetchOutcome::Failed { message: "connection refused".to_string() }
    );
}

#[test]
fn classify_diag_fetch_edge_statuses() {
    assert_eq!(classify_diag_fetch(Some(299), None), DiagFetchOutcome::Ready);
    assert_eq!(
        classify_diag_fetch(Some(503), Some("busy")),
        DiagFetchOutcome::Failed { message: "busy".to_string() }
    );
    assert_eq!(
        classify_diag_fetch(None, None),
        DiagFetchOutcome::Failed { message: "Couldn't reach the engine.".to_string() }
    );
    assert_eq!(classify_diag_fetch(None, Some("NOT FOUND")), DiagFetchOutcome::Unavailable);
}

#[test]
fn robustness_verdict_distinguishes_each_case_rule() {
    // (in, out) = (2.8, -0.2): out is negative.
    assert_eq!(classify_robustness(true, true, true, true), RobustnessVerdict::DoesNotSurvive);
    // (1.3, 1.1): holds.
    assert_eq!(classify_robustness(true, true, false, false), RobustnessVerdict::Holds);
    // (1.3, 0.4): below half of in-sample.
    assert_eq!(classify_robustness(true, true, false, true), RobustnessVerdict::WeakensSharply);
    assert_eq!(classify_robustness(true, false, false, false), RobustnessVerdict::NotEvaluated);
    assert_eq!(classify_robustness(false, false, false, false), RobustnessVerdict::Unavailable);
    assert_eq!(classify_robustness(false, true, true, true), RobustnessVerdict::Unavailable);
}

#[test]
fn counts_and_verdict_sentences() {
    assert_eq!(fmt_count(Some(142)), "142");
    assert_eq!(fmt_count(Some(0)), "0");
    assert_eq!(fmt_count(None), MISSING);
    assert_eq!(verdict_text(RobustnessVerdict::Holds), "The edge holds out-of-sample.");
    assert_eq!(verdict_text(RobustnessVerdict::Unavailable), "Diagnostics unavailable.");
}
