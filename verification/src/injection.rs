//! Failure-injection harness for the provider lifecycle.
//!
//! Each scenario kills the provider (or requester, or tunnel) at one point of
//! the claim → completion → settlement lifecycle and checks, after recovery,
//! that the recovery policy kept the job reference write-once. The policy is a
//! seam (`RecoveryPolicy`); `WriteOncePolicy` is the reference implementation.
use vstd::prelude::*;

use crate::text::{debug_quoted, debug_text, owned, str_eq};

verus! {

/// Where in the provider lifecycle the synthetic kill fires.
#[derive(Clone, Copy, Debug, PartialEq, Eq, Hash, Structural)]
pub enum KillPoint {
    BeforeProviderClaim,
    AfterProviderClaim,
    AfterClaimBeforeCompletion,
    AfterSettlement,
    DuringTunnelRotation,
}

pub open spec fn kill_point_name(k: KillPoint) -> Seq<char> {
    match k {
        KillPoint::BeforeProviderClaim => "BeforeProviderClaim"@,
        KillPoint::AfterProviderClaim => "AfterProviderClaim"@,
        KillPoint::AfterClaimBeforeCompletion => "AfterClaimBeforeCompletion"@,
        KillPoint::AfterSettlement => "AfterSettlement"@,
        KillPoint::DuringTunnelRotation => "DuringTunnelRotation"@,
    }
}

impl KillPoint {
    /// The variant name, as `{:?}` prints it.
    pub fn name(&self) -> (r: &'static str)
        ensures
            r@ == kill_point_name(*self),
    {
        match self {
            KillPoint::BeforeProviderClaim => "BeforeProviderClaim",
            KillPoint::AfterProviderClaim => "AfterProviderClaim",
            KillPoint::AfterClaimBeforeCompletion => "AfterClaimBeforeCompletion",
            KillPoint::AfterSettlement => "AfterSettlement",
            KillPoint::DuringTunnelRotation => "DuringTunnelRotation",
        }
    }
}

#[derive(Debug, Clone, PartialEq, Eq)]
pub struct InjectionScenarioResult {
    pub kill_point: KillPoint,
    pub passed: bool,
    pub assertion: String,
    pub detail: String,
}

#[derive(Debug, Clone, PartialEq, Eq)]
pub struct InjectionReport {
    pub scenarios: Vec<InjectionScenarioResult>,
}

/// The character views of a list of strings.
pub open spec fn strings_view(v: Seq<String>) -> Seq<Seq<char>> {
    v.map_values(|s: String| s@)
}

/// The abstract state of the harness: job references in the order they were
/// first recorded, the current tunnel, and the tunnels rotated away from.
#[verifier::ext_equal]
pub struct InjectionStateView {
    pub claimed: Seq<Seq<char>>,
    pub completed: Seq<Seq<char>>,
    pub settled: Seq<Seq<char>>,
    pub tunnel_url: Seq<char>,
    pub rotated_tunnel_urls: Seq<Seq<char>>,
}

/// Synthetic provider state. Each job list behaves as a set: a job reference is
/// recorded at most once, in the order of its first recording.
#[derive(Debug, Default, Clone)]
pub struct InjectionState {
    pub claimed: Vec<String>,
    pub completed: Vec<String>,
    pub settled: Vec<String>,
    /// Tunnel URL; rotation changes this.
    pub tunnel_url: String,
    pub rotated_tunnel_urls: Vec<String>,
}

impl View for InjectionState {
    type V = InjectionStateView;

    open spec fn view(&self) -> InjectionStateView {
        InjectionStateView {
            claimed: strings_view(self.claimed@),
            completed: strings_view(self.completed@),
            settled: strings_view(self.settled@),
            tunnel_url: self.tunnel_url@,
            rotated_tunnel_urls: strings_view(self.rotated_tunnel_urls@),
        }
    }
}

/// `s` with `x` added as a set element: unchanged if already present.
pub open spec fn set_insert(s: Seq<Seq<char>>, x: Seq<char>) -> Seq<Seq<char>> {
    if s.contains(x) {
        s
    } else {
        s.push(x)
    }
}

/// The freshly booted state on tunnel `url`.
pub open spec fn fresh_state(url: Seq<char>) -> InjectionStateView {
    InjectionStateView {
        claimed: Seq::empty(),
        completed: Seq::empty(),
        settled: Seq::empty(),
        tunnel_url: url,
        rotated_tunnel_urls: Seq::empty(),
    }
}

pub open spec fn with_claim(s: InjectionStateView, job: Seq<char>) -> InjectionStateView {
    InjectionStateView { claimed: set_insert(s.claimed, job), ..s }
}

pub open spec fn with_completion(s: InjectionStateView, job: Seq<char>) -> InjectionStateView {
    InjectionStateView { completed: set_insert(s.completed, job), ..s }
}

pub open spec fn with_settlement(s: InjectionStateView, job: Seq<char>) -> InjectionStateView {
    InjectionStateView { settled: set_insert(s.settled, job), ..s }
}

pub open spec fn with_rotation(s: InjectionStateView, url: Seq<char>) -> InjectionStateView {
    InjectionStateView {
        tunnel_url: url,
        rotated_tunnel_urls: s.rotated_tunnel_urls.push(s.tunnel_url),
        ..s
    }
}

/// The state after a claim attempt whose policy decision was `d`.
pub open spec fn after_claim(
    s: InjectionStateView,
    job: Seq<char>,
    d: Result<(), Seq<char>>,
) -> InjectionStateView {
    if d is Ok {
        with_claim(s, job)
    } else {
        s
    }
}

pub open spec fn after_completion(
    s: InjectionStateView,
    job: Seq<char>,
    d: Result<(), Seq<char>>,
) -> InjectionStateView {
    if d is Ok {
        with_completion(s, job)
    } else {
        s
    }
}

pub open spec fn after_settlement(
    s: InjectionStateView,
    job: Seq<char>,
    d: Result<(), Seq<char>>,
) -> InjectionStateView {
    if d is Ok {
        with_settlement(s, job)
    } else {
        s
    }
}

/// The character view of a policy decision.
pub open spec fn decision_view(r: Result<(), String>) -> Result<(), Seq<char>> {
    match r {
        Ok(()) => Ok(()),
        Err(e) => Err(e@),
    }
}

/// The recovery seam: each hook decides whether the lifecycle step may happen
/// in the given state, and says why not when it may not.
/// The `*_decision` spec functions state what each hook decides; a policy
/// that does not state them leaves its decisions unspecified.
pub trait RecoveryPolicy {
    open spec fn claim_decision(&self, state: InjectionStateView, job_ref: Seq<char>) -> Result<(), Seq<char>> {
        arbitrary()
    }

    open spec fn completion_decision(&self, state: InjectionStateView, job_ref: Seq<char>) -> Result<(), Seq<char>> {
        arbitrary()
    }

    open spec fn settlement_decision(&self, state: InjectionStateView, job_ref: Seq<char>) -> Result<(), Seq<char>> {
        arbitrary()
    }

    /// Pre-claim hook: `Ok(())` if the claim is allowed.
    fn allow_claim(&self, state: &InjectionState, job_ref: &str) -> (r: Result<(), String>)
        ensures
            decision_view(r) == self.claim_decision(state@, job_ref@),
    ;

    /// Pre-completion hook: `Ok(())` if the completion is allowed.
    fn allow_completion(&self, state: &InjectionState, job_ref: &str) -> (r: Result<(), String>)
        ensures
            decision_view(r) == self.completion_decision(state@, job_ref@),
    ;

    /// Pre-settlement hook: `Ok(())` if the settlement is allowed.
    fn allow_settlement(&self, state: &InjectionState, job_ref: &str) -> (r: Result<(), String>)
        ensures
            decision_view(r) == self.settlement_decision(state@, job_ref@),
    ;
}

/// Messages of the write-once policy.
pub open spec fn already_claimed_msg(job: Seq<char>) -> Seq<char> {
    "job_ref="@ + debug_text(job) + " already claimed; write-once policy rejects re-claim"@
}

pub open spec fn unclaimed_completion_msg(job: Seq<char>) -> Seq<char> {
    "job_ref="@ + debug_text(job) + " cannot complete an unclaimed job"@
}

pub open spec fn already_completed_msg(job: Seq<char>) -> Seq<char> {
    "job_ref="@ + debug_text(job) + " already completed; single-shot completion rejects retry"@
}

pub open spec fn uncompleted_settlement_msg(job: Seq<char>) -> Seq<char> {
    "job_ref="@ + debug_text(job) + " cannot settle without a completion"@
}

pub open spec fn already_settled_msg(job: Seq<char>) -> Seq<char> {
    "job_ref="@ + debug_text(job) + " already settled; double-settlement rejected"@
}

/// The write-once decisions: a job reference may be claimed once, completed
/// once after its claim, and settled once after its completion.
pub open spec fn write_once_claim(s: InjectionStateView, job: Seq<char>) -> Result<(), Seq<char>> {
    if s.claimed.contains(job) {
        Err(already_claimed_msg(job))
    } else {
        Ok(())
    }
}

pub open spec fn write_once_completion(s: InjectionStateView, job: Seq<char>) -> Result<(), Seq<char>> {
    if !s.claimed.contains(job) {
        Err(unclaimed_completion_msg(job))
    } else if s.completed.contains(job) {
        Err(already_completed_msg(job))
    } else {
        Ok(())
    }
}

pub open spec fn write_once_settlement(s: InjectionStateView, job: Seq<char>) -> Result<(), Seq<char>> {
    if !s.completed.contains(job) {
        Err(uncompleted_settlement_msg(job))
    } else if s.settled.contains(job) {
        Err(already_settled_msg(job))
    } else {
        Ok(())
    }
}

/// Whether `job` is among `list`, compared character by character.
pub fn list_contains(list: &Vec<String>, job: &str) -> (r: bool)
    ensures
        r == strings_view(list@).contains(job@),
{
    let mut i: usize = 0;
    while i < list.len()
        invariant
            i <= list.len(),
            forall|k: int| 0 <= k < i ==> list@[k]@ != job@,
        decreases list.len() - i,
    {
        if str_eq(list[i].as_str(), job) {
            assert(strings_view(list@)[i as int] == job@);
            return true;
        }
        i = i + 1;
    }
    proof {
        if strings_view(list@).contains(job@) {
            let k = choose|k: int| 0 <= k < strings_view(list@).len() && strings_view(list@)[k] == job@;
            assert(list@[k]@ == job@);
        }
    }
    false
}

/// Records `job` in `list` unless it is already there.
pub fn insert_once(list: &mut Vec<String>, job: &str)
    ensures
        strings_view(final(list)@) == set_insert(strings_view(old(list)@), job@),
{
    if !list_contains(list, job) {
        list.push(owned(job));
        assert(strings_view(final(list)@) =~= strings_view(old(list)@).push(job@));
    }
}

#[derive(Debug, Default, Clone)]
pub struct WriteOncePolicy;

impl RecoveryPolicy for WriteOncePolicy {
    open spec fn claim_decision(&self, state: InjectionStateView, job_ref: Seq<char>) -> Result<(), Seq<char>> {
        write_once_claim(state, job_ref)
    }

    open spec fn completion_decision(&self, state: InjectionStateView, job_ref: Seq<char>) -> Result<(), Seq<char>> {
        write_once_completion(state, job_ref)
    }

    open spec fn settlement_decision(&self, state: InjectionStateView, job_ref: Seq<char>) -> Result<(), Seq<char>> {
        write_once_settlement(state, job_ref)
    }

    fn allow_claim(&self, state: &InjectionState, job_ref: &str) -> (r: Result<(), String>) {
        if list_contains(&state.claimed, job_ref) {
            let mut msg = owned("job_ref=");
            msg.append(debug_quoted(job_ref).as_str());
            msg.append(" already claimed; write-once policy rejects re-claim");
            return Err(msg);
        }
        Ok(())
    }

    fn allow_completion(&self, state: &InjectionState, job_ref: &str) -> (r: Result<(), String>) {
        if !list_contains(&state.claimed, job_ref) {
            let mut msg = owned("job_ref=");
            msg.append(debug_quoted(job_ref).as_str());
            msg.append(" cannot complete an unclaimed job");
            return Err(msg);
        }
        if list_contains(&state.completed, job_ref) {
            let mut msg = owned("job_ref=");
            msg.append(debug_quoted(job_ref).as_str());
            msg.append(" already completed; single-shot completion rejects retry");
            return Err(msg);
        }
        Ok(())
    }

    fn allow_settlement(&self, state: &InjectionState, job_ref: &str) -> (r: Result<(), String>) {
        if !list_contains(&state.completed, job_ref) {
            let mut msg = owned("job_ref=");
            msg.append(debug_quoted(job_ref).as_str());
            msg.append(" cannot settle without a completion");
            return Err(msg);
        }
        if list_contains(&state.settled, job_ref) {
            let mut msg = owned("job_ref=");
            msg.append(debug_quoted(job_ref).as_str());
            msg.append(" already settled; double-settlement rejected");
            return Err(msg);
        }
        Ok(())
    }
}

impl InjectionState {
    /// A freshly booted provider on tunnel `initial_tunnel`.
    pub fn new(initial_tunnel: &str) -> (r: Self)
        ensures
            r@ == fresh_state(initial_tunnel@),
    {
        let r = InjectionState {
            claimed: Vec::new(),
            completed: Vec::new(),
            settled: Vec::new(),
            tunnel_url: owned(initial_tunnel),
            rotated_tunnel_urls: Vec::new(),
        };
        assert(r@.claimed =~= Seq::<Seq<char>>::empty());
        assert(r@.completed =~= Seq::<Seq<char>>::empty());
        assert(r@.settled =~= Seq::<Seq<char>>::empty());
        assert(r@.rotated_tunnel_urls =~= Seq::<Seq<char>>::empty());
        r
    }

    /// Moves to tunnel `new_url`, remembering the tunnel rotated away from.
    pub fn rotate_tunnel(&mut self, new_url: &str)
        ensures
            final(self)@ == with_rotation(old(self)@, new_url@),
    {
        let prior = owned(self.tunnel_url.as_str());
        self.rotated_tunnels_push(prior);
        self.tunnel_url = owned(new_url);
        assert(strings_view(self.rotated_tunnel_urls@) =~= strings_view(old(self).rotated_tunnel_urls@).push(old(self).tunnel_url@));
    }

    fn rotated_tunnels_push(&mut self, prior: String)
        ensures
            final(self).rotated_tunnel_urls@ == old(self).rotated_tunnel_urls@.push(prior),
            final(self).claimed == old(self).claimed,
            final(self).completed == old(self).completed,
            final(self).settled == old(self).settled,
            final(self).tunnel_url == old(self).tunnel_url,
    {
        self.rotated_tunnel_urls.push(prior);
    }

    /// Claims `job_ref` if the policy allows it; the policy's refusal is
    /// returned unchanged and leaves the state untouched.
    pub fn claim<P: RecoveryPolicy>(&mut self, policy: &P, job_ref: &str) -> (r: Result<(), String>)
        ensures
            decision_view(r) == policy.claim_decision(old(self)@, job_ref@),
            final(self)@ == after_claim(old(self)@, job_ref@, decision_view(r)),
    {
        let allowed = policy.allow_claim(self, job_ref);
        match allowed {
            Ok(()) => {
                insert_once(&mut self.claimed, job_ref);
                assert(final(self)@ =~= with_claim(old(self)@, job_ref@));
                Ok(())
            },
            Err(e) => Err(e),
        }
    }

    /// Records a completion of `job_ref` if the policy allows it.
    pub fn complete<P: RecoveryPolicy>(&mut self, policy: &P, job_ref: &str) -> (r: Result<(), String>)
        ensures
            decision_view(r) == policy.completion_decision(old(self)@, job_ref@),
            final(self)@ == after_completion(old(self)@, job_ref@, decision_view(r)),
    {
        let allowed = policy.allow_completion(self, job_ref);
        match allowed {
            Ok(()) => {
                insert_once(&mut self.completed, job_ref);
                assert(final(self)@ =~= with_completion(old(self)@, job_ref@));
                Ok(())
            },
            Err(e) => Err(e),
        }
    }

    /// Records a settlement of `job_ref` if the policy allows it.
    pub fn settle<P: RecoveryPolicy>(&mut self, policy: &P, job_ref: &str) -> (r: Result<(), String>)
        ensures
            decision_view(r) == policy.settlement_decision(old(self)@, job_ref@),
            final(self)@ == after_settlement(old(self)@, job_ref@, decision_view(r)),
    {
        let allowed = policy.allow_settlement(self, job_ref);
        match allowed {
            Ok(()) => {
                insert_once(&mut self.settled, job_ref);
                assert(final(self)@ =~= with_settlement(old(self)@, job_ref@));
                Ok(())
            },
            Err(e) => Err(e),
        }
    }
}


/// `{:?}` of a policy decision (`Result<(), String>`).
pub open spec fn decision_debug(d: Result<(), Seq<char>>) -> Seq<char> {
    match d {
        Ok(()) => "Ok(())"@,
        Err(e) => "Err("@ + debug_text(e) + ")"@,
    }
}

/// The refusal reason of a decision, or the empty text when it allowed.
pub open spec fn refusal(d: Result<(), Seq<char>>) -> Seq<char> {
    match d {
        Ok(()) => Seq::empty(),
        Err(e) => e,
    }
}

/// `{:?}`-rendered elements separated by `, `.
pub open spec fn join_debug(items: Seq<Seq<char>>) -> Seq<char>
    decreases items.len(),
{
    if items.len() == 0 {
        Seq::empty()
    } else if items.len() == 1 {
        debug_text(items[0])
    } else {
        join_debug(items.drop_last()) + ", "@ + debug_text(items.last())
    }
}

/// `{:?}` of a set of job references, listed in recording order.
pub open spec fn set_debug(items: Seq<Seq<char>>) -> Seq<char> {
    "{"@ + join_debug(items) + "}"@
}

pub fn decision_debug_text(r: &Result<(), String>) -> (out: String)
    ensures
        out@ == decision_debug(decision_view(*r)),
{
    match r {
        Ok(()) => owned("Ok(())"),
        Err(e) => {
            let mut out = owned("Err(");
            out.append(debug_quoted(e.as_str()).as_str());
            out.append(")");
            out
        },
    }
}

pub fn refusal_text(r: &Result<(), String>) -> (out: String)
    ensures
        out@ == refusal(decision_view(*r)),
{
    match r {
        Ok(()) => String::new(),
        Err(e) => e.clone(),
    }
}

pub fn set_debug_text(list: &Vec<String>) -> (out: String)
    ensures
        out@ == set_debug(strings_view(list@)),
{
    let mut out = owned("{");
    let mut i: usize = 0;
    while i < list.len()
        invariant
            i <= list.len(),
            out@ == "{"@ + join_debug(strings_view(list@).subrange(0, i as int)),
        decreases list.len() - i,
    {
        let ghost before = strings_view(list@).subrange(0, i as int);
        let ghost after = strings_view(list@).subrange(0, i + 1);
        assert(after.drop_last() =~= before);
        if i > 0 {
            out.append(", ");
        }
        out.append(debug_quoted(list[i].as_str()).as_str());
        proof {
            if i == 0 {
                assert(before =~= Seq::<Seq<char>>::empty());
                assert(join_debug(before) =~= Seq::<char>::empty());
            }
        }
        i = i + 1;
        assert(out@ =~= "{"@ + join_debug(strings_view(list@).subrange(0, i as int)));
    }
    assert(strings_view(list@).subrange(0, list@.len() as int) =~= strings_view(list@));
    out.append("}");
    out
}

pub open spec fn tunnel_a() -> Seq<char> {
    "https://tunnel-a.example"@
}

pub open spec fn tunnel_b() -> Seq<char> {
    "https://tunnel-b.example"@
}

/// The job reference each scenario drives through the lifecycle.
pub open spec fn scenario_job(k: KillPoint) -> Seq<char> {
    match k {
        KillPoint::BeforeProviderClaim => "playful/123/l6-before-claim/1"@,
        KillPoint::AfterProviderClaim => "playful/123/l6-after-claim/1"@,
        KillPoint::AfterClaimBeforeCompletion => "playful/123/l6-before-completion/1"@,
        KillPoint::AfterSettlement => "playful/123/l6-after-settlement/1"@,
        KillPoint::DuringTunnelRotation => "playful/123/l6-rotation/1"@,
    }
}

pub open spec fn scenario_assertion(k: KillPoint) -> Seq<char> {
    match k {
        KillPoint::BeforeProviderClaim => "post-recovery claim succeeds and exactly one claim recorded"@,
        KillPoint::AfterProviderClaim => "respawn re-claim of same job_ref is rejected; original claim preserved"@,
        KillPoint::AfterClaimBeforeCompletion => "first post-recovery completion succeeds; duplicate completion is rejected"@,
        KillPoint::AfterSettlement => "settlement retry after requester respawn is rejected; settled set is single-shot"@,
        KillPoint::DuringTunnelRotation => "duplicate claim via rotated tunnel is rejected; rotation does not relax idempotency"@,
    }
}

/// The state in which each scenario's post-recovery step is attempted.
pub open spec fn booted(k: KillPoint) -> InjectionStateView {
    fresh_state(tunnel_a())
}

pub open spec fn claimed_state(k: KillPoint) -> InjectionStateView {
    with_claim(fresh_state(tunnel_a()), scenario_job(k))
}

pub open spec fn completed_state(k: KillPoint) -> InjectionStateView {
    with_completion(claimed_state(k), scenario_job(k))
}

pub open spec fn settled_state(k: KillPoint) -> InjectionStateView {
    with_settlement(completed_state(k), scenario_job(k))
}

pub open spec fn rotated_state(k: KillPoint) -> InjectionStateView {
    with_rotation(claimed_state(k), tunnel_b())
}

/// The set-up steps a scenario performs before the kill must be allowed by the
/// policy (the harness aborts otherwise).
pub open spec fn scenario_setup_allowed<P: RecoveryPolicy>(policy: P, k: KillPoint) -> bool {
    let j = scenario_job(k);
    match k {
        KillPoint::BeforeProviderClaim => true,
        KillPoint::AfterProviderClaim => policy.claim_decision(booted(k), j) is Ok,
        KillPoint::AfterClaimBeforeCompletion => policy.claim_decision(booted(k), j) is Ok,
        KillPoint::AfterSettlement => {
            &&& policy.claim_decision(booted(k), j) is Ok
            &&& policy.completion_decision(claimed_state(k), j) is Ok
            &&& policy.settlement_decision(completed_state(k), j) is Ok
        },
        KillPoint::DuringTunnelRotation => policy.claim_decision(booted(k), j) is Ok,
    }
}

/// Whether a scenario's post-recovery assertion holds under `policy`.
pub open spec fn scenario_passes<P: RecoveryPolicy>(policy: P, k: KillPoint) -> bool {
    let j = scenario_job(k);
    match k {
        KillPoint::BeforeProviderClaim => policy.claim_decision(booted(k), j) is Ok,
        KillPoint::AfterProviderClaim => policy.claim_decision(claimed_state(k), j) is Err,
        KillPoint::AfterClaimBeforeCompletion => {
            let first = policy.completion_decision(claimed_state(k), j);
            &&& first is Ok
            &&& policy.completion_decision(completed_state(k), j) is Err
        },
        KillPoint::AfterSettlement => policy.settlement_decision(settled_state(k), j) is Err,
        KillPoint::DuringTunnelRotation => policy.claim_decision(rotated_state(k), j) is Err,
    }
}

/// The detail line a scenario reports.
pub open spec fn scenario_detail<P: RecoveryPolicy>(policy: P, k: KillPoint) -> Seq<char> {
    let j = scenario_job(k);
    match k {
        KillPoint::BeforeProviderClaim => {
            let d = policy.claim_decision(booted(k), j);
            if d is Ok {
                "claimed jobs: "@ + set_debug(seq![j])
            } else {
                "unexpected state after recovery: claim_result="@ + decision_debug(d) + " claimed="@
                    + set_debug(Seq::empty())
            }
        },
        KillPoint::AfterProviderClaim => {
            let d = policy.claim_decision(claimed_state(k), j);
            if d is Err {
                "respawn claim correctly rejected: "@ + refusal(d)
            } else {
                "FAIL: respawn_claim="@ + decision_debug(d) + " claimed="@ + set_debug(seq![j])
            }
        },
        KillPoint::AfterClaimBeforeCompletion => {
            let first = policy.completion_decision(claimed_state(k), j);
            let mid = after_completion(claimed_state(k), j, first);
            let second = policy.completion_decision(mid, j);
            let last = after_completion(mid, j, second);
            if first is Ok && second is Err {
                "first_completion=ok, retry rejected: "@ + refusal(second)
            } else {
                "FAIL: first="@ + decision_debug(first) + " second="@ + decision_debug(second)
                    + " completed="@ + set_debug(last.completed)
            }
        },
        KillPoint::AfterSettlement => {
            let d = policy.settlement_decision(settled_state(k), j);
            if d is Err {
                "retry settlement correctly rejected: "@ + refusal(d)
            } else {
                "FAIL: retry_settle="@ + decision_debug(d) + " settled="@ + set_debug(seq![j])
            }
        },
        KillPoint::DuringTunnelRotation => {
            let d = policy.claim_decision(rotated_state(k), j);
            if d is Err {
                "post-rotation duplicate claim rejected: "@ + refusal(d) + "; tunnel A->B rotation recorded"@
            } else {
                "FAIL: post_rotation_claim="@ + decision_debug(d) + " url_changed=true claimed="@
                    + set_debug(seq![j])
            }
        },
    }
}

/// The full result a scenario reports under `policy`.
pub open spec fn scenario_reported<P: RecoveryPolicy>(
    policy: P,
    k: KillPoint,
    r: InjectionScenarioResult,
) -> bool {
    &&& r.kill_point == k
    &&& r.passed == scenario_passes(policy, k)
    &&& r.assertion@ == scenario_assertion(k)
    &&& r.detail@ == scenario_detail(policy, k)
}

/// Kill before any claim: on respawn the claim succeeds and exactly one claim
/// is recorded.
pub fn before_provider_claim_scenario<P: RecoveryPolicy>(policy: &P) -> (r: InjectionScenarioResult)
    ensures
        scenario_reported(*policy, KillPoint::BeforeProviderClaim, r),
{
    let mut state = InjectionState::new("https://tunnel-a.example");
    let job = "playful/123/l6-before-claim/1";
    let res = state.claim(policy, job);
    let passed = res.is_ok() && state.claimed.len() == 1;
    let detail = if passed {
        let mut d = owned("claimed jobs: ");
        d.append(set_debug_text(&state.claimed).as_str());
        d
    } else {
        let mut d = owned("unexpected state after recovery: claim_result=");
        d.append(decision_debug_text(&res).as_str());
        d.append(" claimed=");
        d.append(set_debug_text(&state.claimed).as_str());
        d
    };
    InjectionScenarioResult {
        kill_point: KillPoint::BeforeProviderClaim,
        passed,
        assertion: owned("post-recovery claim succeeds and exactly one claim recorded"),
        detail,
    }
}

/// Kill after the claim: the respawned provider's re-claim of the same job is
/// rejected and the original claim is preserved.
pub fn after_provider_claim_scenario<P: RecoveryPolicy>(policy: &P) -> (r: InjectionScenarioResult)
    requires
        scenario_setup_allowed(*policy, KillPoint::AfterProviderClaim),
    ensures
        scenario_reported(*policy, KillPoint::AfterProviderClaim, r),
{
    let mut state = InjectionState::new("https://tunnel-a.example");
    let job = "playful/123/l6-after-claim/1";
    let first = state.claim(policy, job);
    assert(first is Ok);
    let respawn_claim = state.claim(policy, job);
    let passed = respawn_claim.is_err() && state.claimed.len() == 1 && list_contains(&state.claimed, job);
    let detail = if passed {
        let mut d = owned("respawn claim correctly rejected: ");
        d.append(refusal_text(&respawn_claim).as_str());
        d
    } else {
        let mut d = owned("FAIL: respawn_claim=");
        d.append(decision_debug_text(&respawn_claim).as_str());
        d.append(" claimed=");
        d.append(set_debug_text(&state.claimed).as_str());
        d
    };
    InjectionScenarioResult {
        kill_point: KillPoint::AfterProviderClaim,
        passed,
        assertion: owned("respawn re-claim of same job_ref is rejected; original claim preserved"),
        detail,
    }
}

/// Kill between claim and completion: the respawned completion succeeds and a
/// replayed completion is rejected.
pub fn after_claim_before_completion_scenario<P: RecoveryPolicy>(policy: &P) -> (r: InjectionScenarioResult)
    requires
        scenario_setup_allowed(*policy, KillPoint::AfterClaimBeforeCompletion),
    ensures
        scenario_reported(*policy, KillPoint::AfterClaimBeforeCompletion, r),
{
    let mut state = InjectionState::new("https://tunnel-a.example");
    let job = "playful/123/l6-before-completion/1";
    let claimed = state.claim(policy, job);
    assert(claimed is Ok);
    let first_completion = state.complete(policy, job);
    let second_completion = state.complete(policy, job);
    let passed = first_completion.is_ok() && second_completion.is_err() && state.completed.len() == 1;
    let detail = if passed {
        let mut d = owned("first_completion=ok, retry rejected: ");
        d.append(refusal_text(&second_completion).as_str());
        d
    } else {
        let mut d = owned("FAIL: first=");
        d.append(decision_debug_text(&first_completion).as_str());
        d.append(" second=");
        d.append(decision_debug_text(&second_completion).as_str());
        d.append(" completed=");
        d.append(set_debug_text(&state.completed).as_str());
        d
    };
    InjectionScenarioResult {
        kill_point: KillPoint::AfterClaimBeforeCompletion,
        passed,
        assertion: owned("first post-recovery completion succeeds; duplicate completion is rejected"),
        detail,
    }
}

/// Kill the requester after settlement: a re-issued settlement is rejected.
pub fn after_settlement_scenario<P: RecoveryPolicy>(policy: &P) -> (r: InjectionScenarioResult)
    requires
        scenario_setup_allowed(*policy, KillPoint::AfterSettlement),
    ensures
        scenario_reported(*policy, KillPoint::AfterSettlement, r),
{
    let mut state = InjectionState::new("https://tunnel-a.example");
    let job = "playful/123/l6-after-settlement/1";
    let claimed = state.claim(policy, job);
    assert(claimed is Ok);
    let completed = state.complete(policy, job);
    assert(completed is Ok);
    let settled = state.settle(policy, job);
    assert(settled is Ok);
    let retry_settle = state.settle(policy, job);
    let passed = retry_settle.is_err() && state.settled.len() == 1;
    let detail = if passed {
        let mut d = owned("retry settlement correctly rejected: ");
        d.append(refusal_text(&retry_settle).as_str());
        d
    } else {
        let mut d = owned("FAIL: retry_settle=");
        d.append(decision_debug_text(&retry_settle).as_str());
        d.append(" settled=");
        d.append(set_debug_text(&state.settled).as_str());
        d
    };
    InjectionScenarioResult {
        kill_point: KillPoint::AfterSettlement,
        passed,
        assertion: owned("settlement retry after requester respawn is rejected; settled set is single-shot"),
        detail,
    }
}

/// Claim through tunnel A, rotate to tunnel B, then try the same claim again:
/// rotation must not relax idempotency.
pub fn during_tunnel_rotation_scenario<P: RecoveryPolicy>(policy: &P) -> (r: InjectionScenarioResult)
    requires
        scenario_setup_allowed(*policy, KillPoint::DuringTunnelRotation),
    ensures
        scenario_reported(*policy, KillPoint::DuringTunnelRotation, r),
{
    let mut state = InjectionState::new("https://tunnel-a.example");
    let job = "playful/123/l6-rotation/1";
    let claimed = state.claim(policy, job);
    assert(claimed is Ok);
    state.rotate_tunnel("https://tunnel-b.example");
    let post_rotation_claim = state.claim(policy, job);
    let url_changed = str_eq(state.tunnel_url.as_str(), "https://tunnel-b.example")
        && list_contains(&state.rotated_tunnel_urls, "https://tunnel-a.example");
    assert(strings_view(state.rotated_tunnel_urls@)[0] == tunnel_a());
    assert(url_changed);
    let passed = post_rotation_claim.is_err() && state.claimed.len() == 1 && url_changed;
    let detail = if passed {
        let mut d = owned("post-rotation duplicate claim rejected: ");
        d.append(refusal_text(&post_rotation_claim).as_str());
        d.append("; tunnel A->B rotation recorded");
        d
    } else {
        let mut d = owned("FAIL: post_rotation_claim=");
        d.append(decision_debug_text(&post_rotation_claim).as_str());
        d.append(" url_changed=true claimed=");
        d.append(set_debug_text(&state.claimed).as_str());
        d
    };
    InjectionScenarioResult {
        kill_point: KillPoint::DuringTunnelRotation,
        passed,
        assertion: owned("duplicate claim via rotated tunnel is rejected; rotation does not relax idempotency"),
        detail,
    }
}


/// One markdown line per scenario.
pub open spec fn scenario_line(s: InjectionScenarioResult) -> Seq<char> {
    "- "@ + (if s.passed {
        "PASS"@
    } else {
        "FAIL"@
    }) + " `"@ + kill_point_name(s.kill_point) + "`: "@ + s.assertion@ + " — "@ + s.detail@ + "\n"@
}

pub open spec fn scenario_lines(v: Seq<InjectionScenarioResult>) -> Seq<char>
    decreases v.len(),
{
    if v.len() == 0 {
        Seq::empty()
    } else {
        scenario_lines(v.drop_last()) + scenario_line(v.last())
    }
}

pub open spec fn injection_markdown(r: InjectionReport) -> Seq<char> {
    "# L6 Failure-Injection Report\n\n"@ + scenario_lines(r.scenarios@)
}

pub open spec fn report_all_passed(r: InjectionReport) -> bool {
    forall|i: int| 0 <= i < r.scenarios@.len() ==> #[trigger] r.scenarios@[i].passed
}

/// The five kill points, in the order the harness runs them.
pub open spec fn kill_point_order() -> Seq<KillPoint> {
    seq![
        KillPoint::BeforeProviderClaim,
        KillPoint::AfterProviderClaim,
        KillPoint::AfterClaimBeforeCompletion,
        KillPoint::AfterSettlement,
        KillPoint::DuringTunnelRotation,
    ]
}

/// Every set-up step of every scenario is allowed by `policy`.
pub open spec fn all_setups_allowed<P: RecoveryPolicy>(policy: P) -> bool {
    forall|i: int| 0 <= i < 5 ==> scenario_setup_allowed(policy, #[trigger] kill_point_order()[i])
}

/// `r` holds one result per kill point, in harness order, each as the scenario
/// reports it under `policy`.
pub open spec fn report_of<P: RecoveryPolicy>(policy: P, r: InjectionReport) -> bool {
    &&& r.scenarios@.len() == 5
    &&& forall|i: int| 0 <= i < 5 ==> scenario_reported(policy, kill_point_order()[i], #[trigger] r.scenarios@[i])
}

impl InjectionReport {
    /// Whether every scenario passed.
    pub fn all_passed(&self) -> (r: bool)
        ensures
            r == report_all_passed(*self),
    {
        let mut i: usize = 0;
        while i < self.scenarios.len()
            invariant
                i <= self.scenarios.len(),
                forall|k: int| 0 <= k < i ==> #[trigger] self.scenarios@[k].passed,
            decreases self.scenarios.len() - i,
        {
            if !self.scenarios[i].passed {
                return false;
            }
            i = i + 1;
        }
        true
    }

    /// Markdown summary: a heading, then one PASS/FAIL line per scenario.
    #[verifier::spinoff_prover]
    #[verifier::rlimit(40)]
    pub fn to_markdown(&self) -> (out: String)
        ensures
            out@ == injection_markdown(*self),
    {
        let mut out = owned("# L6 Failure-Injection Report\n\n");
        let mut i: usize = 0;
        while i < self.scenarios.len()
            invariant
                i <= self.scenarios.len(),
                out@ == "# L6 Failure-Injection Report\n\n"@ + scenario_lines(self.scenarios@.subrange(0, i as int)),
            decreases self.scenarios.len() - i,
        {
            let s = &self.scenarios[i];
            out.append("- ");
            out.append(if s.passed {
                "PASS"
            } else {
                "FAIL"
            });
            out.append(" `");
            out.append(s.kill_point.name());
            out.append("`: ");
            out.append(s.assertion.as_str());
            out.append(" — ");
            out.append(s.detail.as_str());
            out.append("\n");
            let ghost prefix = self.scenarios@.subrange(0, i + 1);
            assert(prefix.drop_last() =~= self.scenarios@.subrange(0, i as int));
            i = i + 1;
            assert(out@ =~= "# L6 Failure-Injection Report\n\n"@ + scenario_lines(self.scenarios@.subrange(0, i as int)));
        }
        assert(self.scenarios@.subrange(0, self.scenarios@.len() as int) =~= self.scenarios@);
        out
    }
}

/// Runs every kill-point scenario against `policy`, each on its own fresh
/// state.
pub fn run_failure_injection_scenarios_with_policy<P: RecoveryPolicy>(policy: &P) -> (r: InjectionReport)
    requires
        all_setups_allowed(*policy),
    ensures
        report_of(*policy, r),
{
    assert(scenario_setup_allowed(*policy, kill_point_order()[1]));
    assert(scenario_setup_allowed(*policy, kill_point_order()[2]));
    assert(scenario_setup_allowed(*policy, kill_point_order()[3]));
    assert(scenario_setup_allowed(*policy, kill_point_order()[4]));
    let mut scenarios = Vec::new();
    scenarios.push(before_provider_claim_scenario(policy));
    scenarios.push(after_provider_claim_scenario(policy));
    scenarios.push(after_claim_before_completion_scenario(policy));
    scenarios.push(after_settlement_scenario(policy));
    scenarios.push(during_tunnel_rotation_scenario(policy));
    let r = InjectionReport { scenarios };
    assert forall|i: int| 0 <= i < 5 implies scenario_reported(*policy, kill_point_order()[i], #[trigger] r.scenarios@[i]) by {
        if i == 0 {
        } else if i == 1 {
        } else if i == 2 {
        } else if i == 3 {
        } else {
        }
    }
    r
}

/// Under the write-once policy every scenario's set-up is allowed and every
/// post-recovery assertion holds.
pub proof fn write_once_passes_every_scenario()
    ensures
        all_setups_allowed(WriteOncePolicy),
        forall|i: int| 0 <= i < 5 ==> scenario_passes(WriteOncePolicy, #[trigger] kill_point_order()[i]),
{
    assert forall|i: int| 0 <= i < 5 implies scenario_setup_allowed(WriteOncePolicy, #[trigger] kill_point_order()[i]) by {
        let k = kill_point_order()[i];
        let j = scenario_job(k);
        assert(!Seq::<Seq<char>>::empty().contains(j));
        assert(set_insert(Seq::empty(), j) =~= seq![j]);
        assert(seq![j][0] == j);
        assert(seq![j].contains(j));
    }
    assert forall|i: int| 0 <= i < 5 implies scenario_passes(WriteOncePolicy, #[trigger] kill_point_order()[i]) by {
        let k = kill_point_order()[i];
        let j = scenario_job(k);
        assert(!Seq::<Seq<char>>::empty().contains(j));
        assert(set_insert(Seq::empty(), j) =~= seq![j]);
        assert(seq![j][0] == j);
        assert(seq![j].contains(j));
    }
}

/// Runs every kill-point scenario under the write-once policy; all of them
/// pass.
pub fn run_failure_injection_scenarios() -> (r: InjectionReport)
    ensures
        report_of(WriteOncePolicy, r),
        report_all_passed(r),
{
    proof {
        write_once_passes_every_scenario();
    }
    let r = run_failure_injection_scenarios_with_policy(&WriteOncePolicy);
    assert forall|i: int| 0 <= i < r.scenarios@.len() implies #[trigger] r.scenarios@[i].passed by {
        assert(scenario_reported(WriteOncePolicy, kill_point_order()[i], r.scenarios@[i]));
    }
    r
}


/// Every settled job is completed and every completed job is claimed.
pub open spec fn lifecycle_ordered(s: InjectionStateView) -> bool {
    &&& forall|j: Seq<char>| #[trigger] s.settled.contains(j) ==> s.completed.contains(j)
    &&& forall|j: Seq<char>| #[trigger] s.completed.contains(j) ==> s.claimed.contains(j)
}

proof fn set_insert_contains(s: Seq<Seq<char>>, x: Seq<char>, y: Seq<char>)
    ensures
        set_insert(s, x).contains(y) == (s.contains(y) || y == x),
{
    if !s.contains(x) {
        if y == x {
            assert(s.push(x)[s.len() as int] == x);
        }
        if s.contains(y) {
            let k = choose|k: int| 0 <= k < s.len() && s[k] == y;
            assert(s.push(x)[k] == y);
        }
    }
}

/// Law: under the write-once policy the lifecycle order (settled ⊆ completed ⊆
/// claimed) holds for a fresh state and is kept by every allowed step and by
/// tunnel rotation, so it holds in every state the harness can reach.
pub proof fn write_once_keeps_lifecycle_order(s: InjectionStateView, j: Seq<char>, url: Seq<char>)
    requires
        lifecycle_ordered(s),
    ensures
        lifecycle_ordered(fresh_state(url)),
        lifecycle_ordered(after_claim(s, j, write_once_claim(s, j))),
        lifecycle_ordered(after_completion(s, j, write_once_completion(s, j))),
        lifecycle_ordered(after_settlement(s, j, write_once_settlement(s, j))),
        lifecycle_ordered(with_rotation(s, url)),
{
    assert forall|y: Seq<char>| #[trigger] set_insert(s.claimed, j).contains(y) == (s.claimed.contains(y) || y == j) by {
        set_insert_contains(s.claimed, j, y);
    }
    assert forall|y: Seq<char>| #[trigger] set_insert(s.completed, j).contains(y) == (s.completed.contains(y) || y == j) by {
        set_insert_contains(s.completed, j, y);
    }
    assert forall|y: Seq<char>| #[trigger] set_insert(s.settled, j).contains(y) == (s.settled.contains(y) || y == j) by {
        set_insert_contains(s.settled, j, y);
    }
}

/// Law: each lifecycle step is single-shot under the write-once policy — once
/// a job reference has been claimed (completed, settled), the same step for the
/// same reference is refused.
pub proof fn write_once_steps_are_single_shot(s: InjectionStateView, j: Seq<char>)
    ensures
        write_once_claim(with_claim(s, j), j) is Err,
        write_once_completion(with_completion(s, j), j) is Err || !s.claimed.contains(j),
        write_once_settlement(with_settlement(s, j), j) is Err || !s.completed.contains(j),
{
    set_insert_contains(s.claimed, j, j);
    set_insert_contains(s.completed, j, j);
    set_insert_contains(s.settled, j, j);
}

/// Law: tunnel rotation does not relax idempotency — every write-once decision
/// is the same before and after a rotation.
pub proof fn rotation_keeps_write_once_decisions(s: InjectionStateView, j: Seq<char>, url: Seq<char>)
    ensures
        write_once_claim(with_rotation(s, url), j) == write_once_claim(s, j),
        write_once_completion(with_rotation(s, url), j) == write_once_completion(s, j),
        write_once_settlement(with_rotation(s, url), j) == write_once_settlement(s, j),
{
}

/// Law: recording a job reference that is already recorded changes nothing —
/// the job lists behave as sets, so a replayed step never grows them.
pub proof fn recording_is_idempotent(s: InjectionStateView, j: Seq<char>)
    ensures
        with_claim(with_claim(s, j), j) == with_claim(s, j),
        with_completion(with_completion(s, j), j) == with_completion(s, j),
        with_settlement(with_settlement(s, j), j) == with_settlement(s, j),
{
    set_insert_contains(s.claimed, j, j);
    set_insert_contains(s.completed, j, j);
    set_insert_contains(s.settled, j, j);
    assert(with_claim(with_claim(s, j), j) =~= with_claim(s, j));
    assert(with_completion(with_completion(s, j), j) =~= with_completion(s, j));
    assert(with_settlement(with_settlement(s, j), j) =~= with_settlement(s, j));
}

// ---------------------------------------------------------------------------
// Runs of steps under the write-once policy.

/// One step of the synthetic provider: a tunnel rotation, or a claim,
/// completion or settlement of a job reference.
pub enum InjectionStep {
    Rotate(Seq<char>),
    Claim(Seq<char>),
    Complete(Seq<char>),
    Settle(Seq<char>),
}

/// The state after `step` under the write-once policy.
pub open spec fn write_once_step(s: InjectionStateView, step: InjectionStep) -> InjectionStateView {
    match step {
        InjectionStep::Rotate(url) => with_rotation(s, url),
        InjectionStep::Claim(j) => after_claim(s, j, write_once_claim(s, j)),
        InjectionStep::Complete(j) => after_completion(s, j, write_once_completion(s, j)),
        InjectionStep::Settle(j) => after_settlement(s, j, write_once_settlement(s, j)),
    }
}

/// The state after booting on `url` and taking `steps` in order.
pub open spec fn write_once_run(url: Seq<char>, steps: Seq<InjectionStep>) -> InjectionStateView
    decreases steps.len(),
{
    if steps.len() == 0 {
        fresh_state(url)
    } else {
        write_once_step(write_once_run(url, steps.drop_last()), steps.last())
    }
}

/// No job reference occurs twice in the list.
pub open spec fn no_repeats(l: Seq<Seq<char>>) -> bool {
    forall|i: int, k: int| 0 <= i < k < l.len() ==> l[i] != l[k]
}

proof fn set_insert_no_repeats(l: Seq<Seq<char>>, x: Seq<char>)
    requires
        no_repeats(l),
    ensures
        no_repeats(set_insert(l, x)),
{
    if !l.contains(x) {
        let m = l.push(x);
        assert forall|i: int, k: int| 0 <= i < k < m.len() implies m[i] != m[k] by {
            if k == l.len() {
                assert(m[i] == l[i]);
            }
        }
    }
}

/// Law: whatever steps the provider takes under the write-once policy, from
/// boot on: every settled job was completed and every completed job was
/// claimed; no job is claimed, completed or settled twice; and repeating a
/// claim (completion, settlement) of a job already claimed (completed,
/// settled) is refused and leaves the state as it was.
pub proof fn write_once_runs_keep_every_job_single_shot(url: Seq<char>, steps: Seq<InjectionStep>, j: Seq<char>)
    ensures
        ({
            let s = write_once_run(url, steps);
            &&& lifecycle_ordered(s)
            &&& no_repeats(s.claimed)
            &&& no_repeats(s.completed)
            &&& no_repeats(s.settled)
            &&& s.claimed.contains(j) ==> write_once_claim(s, j) is Err && write_once_step(s, InjectionStep::Claim(j)) == s
            &&& s.completed.contains(j) ==> write_once_completion(s, j) is Err && write_once_step(
                s,
                InjectionStep::Complete(j),
            ) == s
            &&& s.settled.contains(j) ==> write_once_settlement(s, j) is Err && write_once_step(
                s,
                InjectionStep::Settle(j),
            ) == s
        }),
    decreases steps.len(),
{
    if steps.len() > 0 {
        let pre = write_once_run(url, steps.drop_last());
        write_once_runs_keep_every_job_single_shot(url, steps.drop_last(), j);
        match steps.last() {
            InjectionStep::Rotate(u) => {
                write_once_keeps_lifecycle_order(pre, j, u);
            },
            InjectionStep::Claim(x) => {
                write_once_keeps_lifecycle_order(pre, x, url);
                set_insert_no_repeats(pre.claimed, x);
            },
            InjectionStep::Complete(x) => {
                write_once_keeps_lifecycle_order(pre, x, url);
                set_insert_no_repeats(pre.completed, x);
            },
            InjectionStep::Settle(x) => {
                write_once_keeps_lifecycle_order(pre, x, url);
                set_insert_no_repeats(pre.settled, x);
            },
        }
    } else {
        write_once_keeps_lifecycle_order(fresh_state(url), j, url);
    }
}

} // verus!
