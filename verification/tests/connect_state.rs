use auracle::connect_state::{VerdictTone, ConnectProbe, Verdict, ConnectView, DEFAULT_ENGINE_URL, classify_status, verdict_for, connect_view};

fn ok_probe(agent_reachable: bool) -> ConnectProbe {
    ConnectProbe::Answered {
        engine_version: Some("1.2.3".into()),
        active_broker: Some("ibkr".into()),
        agent_reachable,
        agent_detail: None,
    }
}

#[test]
fn default_engine_url_is_loopback() {
    // Single source of the default so the I/O layer and the editor
    // placeholder can never drift apart.
    assert_eq!(DEFAULT_ENGINE_URL, "http://127.0.0.1:1969");
}

#[test]
fn status_401_is_key_rejected() {
    assert_eq!(classify_status(401), Some(ConnectProbe::KeyRejected));
}

#[test]
fn status_302_is_key_rejected() {
    // A legacy `/ui` auth redirect to the login page counts as a rejected
    // key, not a generic engine error.
    assert_eq!(classify_status(302), Some(ConnectProbe::KeyRejected));
}

#[test]
fn status_500_is_engine_error_carrying_status() {
    assert_eq!(
        classify_status(500),
        Some(ConnectProbe::EngineError { status: 500 })
    );
}

#[test]
fn success_status_is_not_classified() {
    // A 2xx isn't an error variant — the caller builds Ok from the body.
    assert_eq!(classify_status(200), None);
    assert_eq!(classify_status(204), None);
}

#[test]
fn reachable_agent_reads_positive_and_not_retryable() {
    let verdict = verdict_for(&ok_probe(true));
    assert_eq!(verdict.tone, VerdictTone::Positive);
    assert!(!verdict.retryable);
    assert!(verdict.message.contains("Your AI agent is reachable."));
}

#[test]
fn unreachable_agent_reads_caution_not_positive() {
    // The agent leg is a separate fact: engine+key fine, but the agent is
    // not, so this must NOT read as a clean (Positive) success.
    let verdict = verdict_for(&ok_probe(false));
    assert_eq!(verdict.tone, VerdictTone::Caution);
    assert_ne!(verdict.tone, VerdictTone::Positive);
    assert!(verdict.message.contains("the AI agent isn't reachable yet"));
    // Distinct from the all-green path — it never claims the agent is up.
    assert!(!verdict.message.contains("Your AI agent is reachable."));
    // Engine+key are fine; a re-test won't fix the MCP leg.
    assert!(!verdict.retryable);
}

#[test]
fn unreachable_agent_with_detail_surfaces_the_engine_phrase() {
    let probe = ConnectProbe::Answered {
        engine_version: Some("1.0.0".into()),
        active_broker: Some("ibkr".into()),
        agent_reachable: false,
        agent_detail: Some("connection refused on port 1968".into()),
    };
    let verdict = verdict_for(&probe);
    assert!(verdict.message.contains("connection refused on port 1968"));
}

#[test]
fn missing_engine_version_reads_unknown_not_fabricated() {
    let probe = ConnectProbe::Answered {
        engine_version: None,
        active_broker: Some("ibkr".into()),
        agent_reachable: true,
        agent_detail: None,
    };
    let verdict = verdict_for(&probe);
    assert!(verdict.message.contains("engine vunknown"));
}

#[test]
fn missing_active_broker_reads_none_yet() {
    let probe = ConnectProbe::Answered {
        engine_version: Some("1.0.0".into()),
        active_broker: None,
        agent_reachable: true,
        agent_detail: None,
    };
    let verdict = verdict_for(&probe);
    assert!(verdict.message.contains("active broker: none yet"));
}

#[test]
fn empty_agent_detail_falls_back_to_generic_phrase() {
    // An empty string is as absent as None — fall back, never show "()".
    let probe = ConnectProbe::Answered {
        engine_version: Some("1.0.0".into()),
        active_broker: Some("ibkr".into()),
        agent_reachable: false,
        agent_detail: Some(String::new()),
    };
    let verdict = verdict_for(&probe);
    assert!(
        verdict
            .message
            .contains("the engine couldn't reach the MCP agent server")
    );
}

#[test]
fn unreachable_engine_is_negative_and_retryable() {
    let verdict = verdict_for(&ConnectProbe::Unreachable {
        detail: "connection refused".into(),
    });
    assert_eq!(verdict.tone, VerdictTone::Negative);
    assert!(verdict.retryable);
    // The crafted detail is surfaced, not a raw anyhow chain.
    assert!(verdict.message.contains("connection refused"));
}

#[test]
fn key_rejected_is_negative_and_retryable() {
    let verdict = verdict_for(&ConnectProbe::KeyRejected);
    assert_eq!(verdict.tone, VerdictTone::Negative);
    assert!(verdict.retryable);
}

#[test]
fn engine_error_is_negative_retryable_and_names_the_status() {
    let verdict = verdict_for(&ConnectProbe::EngineError { status: 503 });
    assert_eq!(verdict.tone, VerdictTone::Negative);
    assert!(verdict.retryable);
    assert!(verdict.message.contains("503"));
}

#[test]
fn in_flight_is_testing_and_neutral() {
    // The in-flight render decision is neutral, never green — and a test in
    // flight reports Testing even if a stale probe is still around.
    assert_eq!(connect_view(true, None), ConnectView::Testing);
    assert_eq!(
        connect_view(true, Some(&ok_probe(true))),
        ConnectView::Testing
    );
}

#[test]
fn no_test_yet_is_idle() {
    assert_eq!(connect_view(false, None), ConnectView::Idle);
}

#[test]
fn finished_probe_is_done_with_its_verdict() {
    let probe = ok_probe(true);
    assert_eq!(
        connect_view(false, Some(&probe)),
        ConnectView::Done(verdict_for(&probe))
    );
}

#[test]
fn verdict_text_and_tone_never_disagree() {
    // The V5 guard: text and colour are decided together, so for each probe
    // the (message, tone) pair is fixed as a unit. Green (Positive) is
    // reachable ONLY from an Ok with a reachable agent.
    let cases = [
        (
            ConnectProbe::Unreachable {
                detail: "engine down".into(),
            },
            VerdictTone::Negative,
        ),
        (ConnectProbe::KeyRejected, VerdictTone::Negative),
        (
            ConnectProbe::EngineError { status: 500 },
            VerdictTone::Negative,
        ),
        (ok_probe(true), VerdictTone::Positive),
        (ok_probe(false), VerdictTone::Caution),
    ];
    for (probe, expected_tone) in cases {
        let verdict = verdict_for(&probe);
        assert_eq!(verdict.tone, expected_tone, "tone mismatch for {probe:?}");
        // The only path to a green verdict is a reachable agent.
        if verdict.tone == VerdictTone::Positive {
            assert!(verdict.message.contains("Your AI agent is reachable."));
        }
        assert!(!verdict.message.is_empty());
    }
}
