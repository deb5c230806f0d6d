use wire_substrate::cross_graph::{canonical_job_ref, is_canonical_ref};
use wire_substrate::injection::{InjectionState, RecoveryPolicy};
use wire_substrate::recovery::{run_l6_recovery_injection_scenarios, SubstrateRecoveryPolicy};

#[test]
fn substrate_policy_passes_all_injection_scenarios() {
    let report = run_l6_recovery_injection_scenarios();
    assert!(
        report.all_passed(),
        "substrate recovery policy must satisfy all kill points: {}",
        report.to_markdown()
    );
}

#[test]
fn substrate_policy_rejects_malformed_job_refs() {
    let policy = SubstrateRecoveryPolicy;
    let state = InjectionState::new("https://tunnel-a.example");

    let result = policy.allow_claim(&state, "job/not-a-cross-graph-ref/1");

    assert!(result.is_err());
    assert!(result
        .err()
        .unwrap()
        .contains("not a canonical cross-graph ref"));
}

#[test]
fn substrate_policy_keeps_claim_idempotent_across_tunnel_rotation() {
    let policy = SubstrateRecoveryPolicy;
    let mut state = InjectionState::new("https://tunnel-a.example");
    let job = "playful/123/l6-rotation/1";

    state.claim(&policy, job).unwrap();
    state.rotate_tunnel("https://tunnel-b.example");

    let duplicate = state.claim(&policy, job);

    assert!(duplicate.is_err());
    assert_eq!(state.claimed.len(), 1);
}

#[test]
fn cross_graph_refs_follow_the_slug_epoch_kind_sequence_grammar() {
    assert!(is_canonical_ref("playful/123/l6-rotation/1"));
    assert!(is_canonical_ref("a/0/b/0"));
    assert!(!is_canonical_ref("playful/0123/kind/1"));
    assert!(!is_canonical_ref("Playful/1/kind/1"));
    assert!(!is_canonical_ref("playful/1/kind"));
    assert!(!is_canonical_ref("playful/1/kind/1/extra"));
    assert!(!is_canonical_ref("job/not-a-cross-graph-ref/1"));
    assert_eq!(
        canonical_job_ref("playful/123/l6-rotation/1"),
        Ok("playful/123/l6-rotation/1".to_owned())
    );
    assert!(canonical_job_ref("nope").is_err());
}

#[test]
fn substrate_policy_settles_once_after_completion() {
    let policy = SubstrateRecoveryPolicy;
    let mut state = InjectionState::new("https://tunnel-a.example");
    let job = "playful/123/settle/1";
    assert!(state.settle(&policy, job).is_err());
    state.claim(&policy, job).unwrap();
    state.complete(&policy, job).unwrap();
    state.settle(&policy, job).unwrap();
    assert!(state.settle(&policy, job).is_err());
    assert!(state.complete(&policy, job).is_err());
}
