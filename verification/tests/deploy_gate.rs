use auracle::deploy_gate::{DeployDecision, decide_deploy, live_allowed_after_fetch};

#[test]
fn deploy_gate_never_auto_sends_live() {
    // A first click never sends live — it only arms a confirmation.
    assert_eq!(decide_deploy(false, true), DeployDecision::ArmConfirm);
    // The confirming click sends live only while still permitted.
    assert_eq!(decide_deploy(true, true), DeployDecision::SubmitLive);
    // Live not permitted → a safe paper deploy, no confirmation dance.
    assert_eq!(decide_deploy(false, false), DeployDecision::SubmitPaper);
    // Live revoked between arming and confirming → fall back to paper.
    assert_eq!(decide_deploy(true, false), DeployDecision::SubmitPaper);
}
