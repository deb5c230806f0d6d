//! Substrate recovery policy for the failure-injection seam.
//!
//! The policy canonicalizes every job reference as a cross-graph reference and
//! keeps it write-once across claim, completion and settlement, including
//! across tunnel rotation. Malformed references are refused.
use vstd::prelude::*;

use crate::cross_graph::{canonical_job_ref, canonical_ref, is_cross_graph_ref};
use crate::injection::{
    decision_view, kill_point_order, run_failure_injection_scenarios_with_policy, scenario_job,
    scenario_setup_allowed, all_setups_allowed, set_insert, strings_view, write_once_claim,
    write_once_completion, write_once_settlement, booted, claimed_state, completed_state,
    InjectionReport, InjectionState, InjectionStateView, KillPoint, RecoveryPolicy, report_of,
    WriteOncePolicy, report_all_passed, scenario_passes, scenario_reported, settled_state, rotated_state,
};
use crate::text::{debug_quoted, debug_text, owned, str_eq};

verus! {

/// Whether some entry of `entries` canonicalizes to `key`; the first entry
/// (in recording order) that is not a reference makes the lookup fail.
pub open spec fn contains_job_spec(entries: Seq<Seq<char>>, key: Seq<char>) -> Result<bool, Seq<char>>
    decreases entries.len(),
{
    if entries.len() == 0 {
        Ok(false)
    } else {
        match canonical_ref(entries[0]) {
            Err(e) => Err(e),
            Ok(k) => if k == key {
                Ok(true)
            } else {
                contains_job_spec(entries.drop_first(), key)
            },
        }
    }
}

/// Looks `job_key` up among the recorded job references, canonicalizing each.
pub fn contains_job(set: &Vec<String>, job_key: &str) -> (r: Result<bool, String>)
    ensures
        match r {
            Ok(b) => contains_job_spec(strings_view(set@), job_key@) == Ok::<bool, Seq<char>>(b),
            Err(e) => contains_job_spec(strings_view(set@), job_key@) == Err::<bool, Seq<char>>(e@),
        },
{
    let mut i: usize = 0;
    assert(strings_view(set@).subrange(0, set@.len() as int) =~= strings_view(set@));
    while i < set.len()
        invariant
            i <= set.len(),
            contains_job_spec(strings_view(set@), job_key@) == contains_job_spec(
                strings_view(set@).subrange(i as int, set@.len() as int),
                job_key@,
            ),
        decreases set.len() - i,
    {
        let ghost rest = strings_view(set@).subrange(i as int, set@.len() as int);
        assert(rest[0] == set@[i as int]@);
        assert(rest.drop_first() =~= strings_view(set@).subrange(i + 1, set@.len() as int));
        let existing_key = match canonical_job_ref(set[i].as_str()) {
            Ok(k) => k,
            Err(e) => return Err(e),
        };
        if str_eq(existing_key.as_str(), job_key) {
            return Ok(true);
        }
        i = i + 1;
    }
    assert(strings_view(set@).subrange(set@.len() as int, set@.len() as int) =~= Seq::<Seq<char>>::empty());
    Ok(false)
}

pub open spec fn duplicate_claim_msg(key: Seq<char>) -> Seq<char> {
    "job_ref="@ + debug_text(key) + " already has a provider claim; recovery rejects duplicate claim"@
}

pub open spec fn claim_missing_msg(key: Seq<char>) -> Seq<char> {
    "job_ref="@ + debug_text(key) + " cannot complete before a preserved claim exists"@
}

pub open spec fn duplicate_completion_msg(key: Seq<char>) -> Seq<char> {
    "job_ref="@ + debug_text(key) + " already has a completion; recovery rejects duplicate completion"@
}

pub open spec fn completion_missing_msg(key: Seq<char>) -> Seq<char> {
    "job_ref="@ + debug_text(key) + " cannot settle before a preserved completion exists"@
}

pub open spec fn duplicate_settlement_msg(key: Seq<char>) -> Seq<char> {
    "job_ref="@ + debug_text(key) + " already has a settlement; recovery rejects duplicate settlement"@
}

/// Refuses when `key` is already among `done` (or the lookup fails).
pub open spec fn absent_or(done: Seq<Seq<char>>, key: Seq<char>, msg: Seq<char>) -> Result<(), Seq<char>> {
    match contains_job_spec(done, key) {
        Err(e) => Err(e),
        Ok(true) => Err(msg),
        Ok(false) => Ok(()),
    }
}

/// Refuses when `key` is not among `needed` (or the lookup fails).
pub open spec fn present_or(needed: Seq<Seq<char>>, key: Seq<char>, msg: Seq<char>) -> Result<(), Seq<char>> {
    match contains_job_spec(needed, key) {
        Err(e) => Err(e),
        Ok(false) => Err(msg),
        Ok(true) => Ok(()),
    }
}

pub open spec fn substrate_claim(s: InjectionStateView, job: Seq<char>) -> Result<(), Seq<char>> {
    match canonical_ref(job) {
        Err(e) => Err(e),
        Ok(key) => absent_or(s.claimed, key, duplicate_claim_msg(key)),
    }
}

pub open spec fn substrate_completion(s: InjectionStateView, job: Seq<char>) -> Result<(), Seq<char>> {
    match canonical_ref(job) {
        Err(e) => Err(e),
        Ok(key) => match present_or(s.claimed, key, claim_missing_msg(key)) {
            Err(e) => Err(e),
            Ok(()) => absent_or(s.completed, key, duplicate_completion_msg(key)),
        },
    }
}

pub open spec fn substrate_settlement(s: InjectionStateView, job: Seq<char>) -> Result<(), Seq<char>> {
    match canonical_ref(job) {
        Err(e) => Err(e),
        Ok(key) => match present_or(s.completed, key, completion_missing_msg(key)) {
            Err(e) => Err(e),
            Ok(()) => absent_or(s.settled, key, duplicate_settlement_msg(key)),
        },
    }
}

#[derive(Debug, Default, Clone)]
pub struct SubstrateRecoveryPolicy;

fn refusal_with(key: &str, reason: &str) -> (r: String)
    ensures
        r@ == "job_ref="@ + debug_text(key@) + reason@,
{
    let mut msg = owned("job_ref=");
    msg.append(debug_quoted(key).as_str());
    msg.append(reason);
    msg
}

impl RecoveryPolicy for SubstrateRecoveryPolicy {
    open spec fn claim_decision(&self, state: InjectionStateView, job_ref: Seq<char>) -> Result<(), Seq<char>> {
        substrate_claim(state, job_ref)
    }

    open spec fn completion_decision(&self, state: InjectionStateView, job_ref: Seq<char>) -> Result<(), Seq<char>> {
        substrate_completion(state, job_ref)
    }

    open spec fn settlement_decision(&self, state: InjectionStateView, job_ref: Seq<char>) -> Result<(), Seq<char>> {
        substrate_settlement(state, job_ref)
    }

    fn allow_claim(&self, state: &InjectionState, job_ref: &str) -> (r: Result<(), String>) {
        let job_key = match canonical_job_ref(job_ref) {
            Ok(k) => k,
            Err(e) => return Err(e),
        };
        match contains_job(&state.claimed, job_key.as_str()) {
            Err(e) => Err(e),
            Ok(true) => Err(refusal_with(
                job_key.as_str(),
                " already has a provider claim; recovery rejects duplicate claim",
            )),
            Ok(false) => Ok(()),
        }
    }

    fn allow_completion(&self, state: &InjectionState, job_ref: &str) -> (r: Result<(), String>) {
        let job_key = match canonical_job_ref(job_ref) {
            Ok(k) => k,
            Err(e) => return Err(e),
        };
        match contains_job(&state.claimed, job_key.as_str()) {
            Err(e) => return Err(e),
            Ok(false) => return Err(refusal_with(
                job_key.as_str(),
                " cannot complete before a preserved claim exists",
            )),
            Ok(true) => {},
        }
        match contains_job(&state.completed, job_key.as_str()) {
            Err(e) => Err(e),
            Ok(true) => Err(refusal_with(
                job_key.as_str(),
                " already has a completion; recovery rejects duplicate completion",
            )),
            Ok(false) => Ok(()),
        }
    }

    fn allow_settlement(&self, state: &InjectionState, job_ref: &str) -> (r: Result<(), String>) {
        let job_key = match canonical_job_ref(job_ref) {
            Ok(k) => k,
            Err(e) => return Err(e),
        };
        match contains_job(&state.completed, job_key.as_str()) {
            Err(e) => return Err(e),
            Ok(false) => return Err(refusal_with(
                job_key.as_str(),
                " cannot settle before a preserved completion exists",
            )),
            Ok(true) => {},
        }
        match contains_job(&state.settled, job_key.as_str()) {
            Err(e) => Err(e),
            Ok(true) => Err(refusal_with(
                job_key.as_str(),
                " already has a settlement; recovery rejects duplicate settlement",
            )),
            Ok(false) => Ok(()),
        }
    }
}

/// Every recorded job reference is a canonical cross-graph reference.
pub open spec fn all_refs(entries: Seq<Seq<char>>) -> bool {
    forall|i: int| 0 <= i < entries.len() ==> is_cross_graph_ref(#[trigger] entries[i])
}

pub open spec fn state_holds_refs(s: InjectionStateView) -> bool {
    all_refs(s.claimed) && all_refs(s.completed) && all_refs(s.settled)
}

proof fn contains_job_over_refs(entries: Seq<Seq<char>>, key: Seq<char>)
    requires
        all_refs(entries),
    ensures
        contains_job_spec(entries, key) == Ok::<bool, Seq<char>>(entries.contains(key)),
    decreases entries.len(),
{
    if entries.len() > 0 {
        assert(is_cross_graph_ref(entries[0]));
        let rest = entries.drop_first();
        assert forall|i: int| 0 <= i < rest.len() implies is_cross_graph_ref(#[trigger] rest[i]) by {
            assert(rest[i] == entries[i + 1]);
        }
        contains_job_over_refs(rest, key);
        if entries[0] == key {
            assert(entries.contains(key));
        } else {
            if entries.contains(key) {
                let k = choose|k: int| 0 <= k < entries.len() && entries[k] == key;
                assert(rest[k - 1] == key);
            }
            if rest.contains(key) {
                let k = choose|k: int| 0 <= k < rest.len() && rest[k] == key;
                assert(entries[k + 1] == key);
            }
        }
    }
}

/// Law: on canonical references the substrate policy allows exactly what the
/// write-once policy allows — claim, completion and settlement are each
/// write-once per job reference.
pub proof fn substrate_policy_is_write_once(s: InjectionStateView, j: Seq<char>)
    requires
        is_cross_graph_ref(j),
        state_holds_refs(s),
    ensures
        (substrate_claim(s, j) is Ok) == (write_once_claim(s, j) is Ok),
        (substrate_completion(s, j) is Ok) == (write_once_completion(s, j) is Ok),
        (substrate_settlement(s, j) is Ok) == (write_once_settlement(s, j) is Ok),
{
    contains_job_over_refs(s.claimed, j);
    contains_job_over_refs(s.completed, j);
    contains_job_over_refs(s.settled, j);
}

/// Law: a string that is not a canonical cross-graph reference can never be
/// claimed, completed or settled under the substrate policy.
pub proof fn substrate_policy_refuses_malformed_refs(s: InjectionStateView, j: Seq<char>)
    requires
        !is_cross_graph_ref(j),
    ensures
        substrate_claim(s, j) == Err::<(), Seq<char>>(crate::cross_graph::not_a_ref_msg(j)),
        substrate_completion(s, j) == Err::<(), Seq<char>>(crate::cross_graph::not_a_ref_msg(j)),
        substrate_settlement(s, j) == Err::<(), Seq<char>>(crate::cross_graph::not_a_ref_msg(j)),
{
}

proof fn scenario_jobs_are_refs()
    ensures
        forall|i: int| 0 <= i < 5 ==> is_cross_graph_ref(scenario_job(#[trigger] kill_point_order()[i])),
{
    reveal_strlit("playful/123/l6-before-claim/1");
    reveal_strlit("playful/123/l6-after-claim/1");
    reveal_strlit("playful/123/l6-before-completion/1");
    reveal_strlit("playful/123/l6-after-settlement/1");
    reveal_strlit("playful/123/l6-rotation/1");
    reveal_with_fuel(crate::cross_graph::scan, 40);
    assert(is_cross_graph_ref("playful/123/l6-before-claim/1"@));
    assert(is_cross_graph_ref("playful/123/l6-after-claim/1"@));
    assert(is_cross_graph_ref("playful/123/l6-before-completion/1"@));
    assert(is_cross_graph_ref("playful/123/l6-after-settlement/1"@));
    assert(is_cross_graph_ref("playful/123/l6-rotation/1"@));
}

/// Runs every kill-point scenario under the substrate recovery policy; all
/// of them pass.
pub fn run_l6_recovery_injection_scenarios() -> (r: InjectionReport)
    ensures
        report_of(SubstrateRecoveryPolicy, r),
        report_all_passed(r),
{
    proof {
        scenario_jobs_are_refs();
        crate::injection::write_once_passes_every_scenario();
        assert forall|i: int| 0 <= i < 5 implies scenario_setup_allowed(
            SubstrateRecoveryPolicy,
            #[trigger] kill_point_order()[i],
        ) by {
            let k = kill_point_order()[i];
            let j = scenario_job(k);
            assert(is_cross_graph_ref(j));
            assert(scenario_setup_allowed(WriteOncePolicy, k));
            assert(state_holds_refs(booted(k)));
            substrate_policy_is_write_once(booted(k), j);
            assert(set_insert(Seq::empty(), j) =~= seq![j]);
            assert(state_holds_refs(claimed_state(k)));
            substrate_policy_is_write_once(claimed_state(k), j);
            assert(state_holds_refs(completed_state(k)));
            substrate_policy_is_write_once(completed_state(k), j);
        }
        assert forall|i: int| 0 <= i < 5 implies scenario_passes(
            SubstrateRecoveryPolicy,
            #[trigger] kill_point_order()[i],
        ) by {
            let k = kill_point_order()[i];
            let j = scenario_job(k);
            assert(is_cross_graph_ref(j));
            assert(scenario_passes(WriteOncePolicy, k));
            assert(state_holds_refs(booted(k)));
            substrate_policy_is_write_once(booted(k), j);
            assert(set_insert(Seq::empty(), j) =~= seq![j]);
            assert(state_holds_refs(claimed_state(k)));
            substrate_policy_is_write_once(claimed_state(k), j);
            assert(state_holds_refs(completed_state(k)));
            substrate_policy_is_write_once(completed_state(k), j);
            assert(state_holds_refs(settled_state(k)));
            substrate_policy_is_write_once(settled_state(k), j);
            assert(state_holds_refs(rotated_state(k)));
            substrate_policy_is_write_once(rotated_state(k), j);
        }
    }
    let r = run_failure_injection_scenarios_with_policy(&SubstrateRecoveryPolicy);
    assert forall|i: int| 0 <= i < r.scenarios@.len() implies #[trigger] r.scenarios@[i].passed by {
        assert(scenario_reported(SubstrateRecoveryPolicy, kill_point_order()[i], r.scenarios@[i]));
    }
    r
}

} // verus!
