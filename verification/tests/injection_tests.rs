use std::collections::HashSet;

use wire_substrate::injection::{
    after_claim_before_completion_scenario, after_provider_claim_scenario, after_settlement_scenario,
    before_provider_claim_scenario, during_tunnel_rotation_scenario, run_failure_injection_scenarios,
    InjectionState, KillPoint, RecoveryPolicy, WriteOncePolicy,
};

#[test]
fn all_kill_point_scenarios_pass_under_write_once_policy() {
    let report = run_failure_injection_scenarios();
    assert!(
        report.all_passed(),
        "all scenarios should pass under WriteOncePolicy: {}",
        report.to_markdown()
    );
    assert_eq!(report.scenarios.len(), 5);
}

#[test]
fn each_kill_point_is_covered() {
    let report = run_failure_injection_scenarios();
    let kinds: HashSet<_> = report.scenarios.iter().map(|s| s.kill_point).collect();
    assert!(kinds.contains(&KillPoint::BeforeProviderClaim));
    assert!(kinds.contains(&KillPoint::AfterProviderClaim));
    assert!(kinds.contains(&KillPoint::AfterClaimBeforeCompletion));
    assert!(kinds.contains(&KillPoint::AfterSettlement));
    assert!(kinds.contains(&KillPoint::DuringTunnelRotation));
}

/// A policy that allows everything: the scenarios must catch it.
struct AllowAll;

impl RecoveryPolicy for AllowAll {
    fn allow_claim(&self, _: &InjectionState, _: &str) -> Result<(), String> {
        Ok(())
    }
    fn allow_completion(&self, _: &InjectionState, _: &str) -> Result<(), String> {
        Ok(())
    }
    fn allow_settlement(&self, _: &InjectionState, _: &str) -> Result<(), String> {
        Ok(())
    }
}

#[test]
fn naive_allow_all_policy_fails_idempotency_assertions() {
    let policy = AllowAll;
    let s_after_claim = after_provider_claim_scenario(&policy);
    let s_completion = after_claim_before_completion_scenario(&policy);
    let s_settlement = after_settlement_scenario(&policy);
    let s_rotation = during_tunnel_rotation_scenario(&policy);
    assert!(!s_after_claim.passed, "AllowAll should fail double-claim assertion");
    assert!(!s_completion.passed, "AllowAll should fail double-completion assertion");
    assert!(!s_settlement.passed, "AllowAll should fail double-settlement assertion");
    assert!(!s_rotation.passed, "AllowAll should fail rotation idempotency assertion");
}

#[test]
fn markdown_surfaces_per_scenario_status() {
    let report = run_failure_injection_scenarios();
    let md = report.to_markdown();
    assert!(md.contains("L6 Failure-Injection Report"));
    for s in &report.scenarios {
        assert!(md.contains(&format!("{:?}", s.kill_point)));
    }
}

#[test]
fn write_once_lifecycle_refuses_out_of_order_and_repeated_steps() {
    let policy = WriteOncePolicy;
    let mut state = InjectionState::new("https://tunnel-a.example");
    let job = "playful/123/lifecycle/1";
    assert!(state.complete(&policy, job).is_err());
    assert!(state.settle(&policy, job).is_err());
    assert!(state.claim(&policy, job).is_ok());
    assert!(state.settle(&policy, job).is_err());
    assert!(state.complete(&policy, job).is_ok());
    assert!(state.settle(&policy, job).is_ok());
    let again = state.settle(&policy, job);
    assert_eq!(
        again.err().unwrap(),
        "job_ref=\"playful/123/lifecycle/1\" already settled; double-settlement rejected"
    );
    assert_eq!(state.claimed, vec![job.to_owned()]);
    assert_eq!(state.completed, vec![job.to_owned()]);
    assert_eq!(state.settled, vec![job.to_owned()]);
}

#[test]
fn rotation_keeps_claims_under_write_once() {
    let policy = WriteOncePolicy;
    let mut state = InjectionState::new("https://tunnel-a.example");
    state.claim(&policy, "job-1").unwrap();
    state.rotate_tunnel("https://tunnel-b.example");
    assert_eq!(state.tunnel_url, "https://tunnel-b.example");
    assert!(state.claim(&policy, "job-1").is_err());
    assert_eq!(state.claimed.len(), 1);
}

#[test]
fn before_claim_scenario_passes_even_for_allow_all() {
    assert!(before_provider_claim_scenario(&AllowAll).passed);
    assert!(before_provider_claim_scenario(&WriteOncePolicy).passed);
}

#[test]
fn kill_point_names_match_debug_rendering() {
    for k in [
        KillPoint::BeforeProviderClaim,
        KillPoint::AfterProviderClaim,
        KillPoint::AfterClaimBeforeCompletion,
        KillPoint::AfterSettlement,
        KillPoint::DuringTunnelRotation,
    ] {
        assert_eq!(k.name(), format!("{k:?}"));
    }
}
