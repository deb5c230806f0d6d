//! Invariant scans over a finished stability run.
//!
//! A cycle that reports green but lacks its identifiers, its settlement
//! evidence, or shares a settlement id with another cycle is a leak: the
//! harness reported success while the state is inconsistent. The scans here
//! are read-only and surface those contradictions per cycle.
use vstd::prelude::*;

use crate::stability::{L6CycleResult, L6StabilityReport};
use crate::text::{debug_quoted, debug_text, decimal, owned, push_decimal, push_signed_decimal, signed_decimal, str_eq};

verus! {

#[derive(Clone, Copy, Debug, PartialEq, Eq, Hash, Structural)]
pub enum ObservabilityScan {
    LeakedClaim,
    OrphanSettlement,
    DuplicateSettlement,
    SettlementShape,
    ThroughputAnomaly,
}

#[derive(Clone, Copy, Debug, PartialEq, Eq, Hash, Structural)]
pub enum ObservabilityKind {
    /// The scan ran and the invariant held.
    Pass,
    /// The scan ran and detected an invariant violation.
    Violation,
    /// The scan was skipped (the cycle failed earlier; the invariant does not apply).
    SkippedCycleFailed,
}

#[derive(Debug, Clone, PartialEq, Eq)]
pub struct ObservabilityFinding {
    pub scan: ObservabilityScan,
    pub kind: ObservabilityKind,
    pub detail: String,
}

#[derive(Debug, Clone, PartialEq, Eq)]
pub struct L6CycleObservability {
    pub index: usize,
    pub findings: Vec<ObservabilityFinding>,
}

/// The invariant part of an observability report: per-cycle findings, the
/// memory drift of the run, and whether every invariant held.
#[derive(Debug, Clone, PartialEq)]
pub struct L6InvariantReport {
    pub cycle_count: usize,
    pub cycles: Vec<L6CycleObservability>,
    pub rss_delta_kib: Option<i64>,
    /// `true` iff no finding of any cycle is a `Violation`.
    pub all_invariants_held: bool,
}

#[verifier::ext_equal]
pub struct FindingView {
    pub scan: ObservabilityScan,
    pub kind: ObservabilityKind,
    pub detail: Seq<char>,
}

pub open spec fn finding_view(f: ObservabilityFinding) -> FindingView {
    FindingView { scan: f.scan, kind: f.kind, detail: f.detail@ }
}

pub open spec fn findings_view(v: Seq<ObservabilityFinding>) -> Seq<FindingView> {
    v.map_values(|f: ObservabilityFinding| finding_view(f))
}

pub open spec fn leak_msgs(c: L6CycleResult) -> Seq<Seq<char>> {
    let a: Seq<Seq<char>> = if c.job_id is None {
        seq!["green cycle has no job_id; provider claim path appears empty"@]
    } else {
        Seq::empty()
    };
    let b = if c.settlement_id is None {
        a.push("green cycle has no settlement_id; settlement was never recorded but cycle is green"@)
    } else {
        a
    };
    let d = if c.provider_node_id is None {
        b.push("green cycle has no provider_node_id; provider attribution is missing"@)
    } else {
        b
    };
    if c.requester_node_id is None {
        d.push("green cycle has no requester_node_id; requester attribution is missing"@)
    } else {
        d
    }
}

pub open spec fn orphan_msgs(c: L6CycleResult) -> Seq<Seq<char>> {
    if c.settlement_id is Some && c.job_id is None {
        seq!["settlement_id present without job_id; orphan settlement reachable from this cycle"@]
    } else {
        Seq::empty()
    }
}

pub open spec fn shape_msgs(c: L6CycleResult) -> Seq<Seq<char>> {
    let a: Seq<Seq<char>> = match c.settlement_status {
        Some(s) => if s@ == "settled"@ {
            Seq::empty()
        } else {
            seq!["green cycle reports settlement_status="@ + debug_text(s@) + ", expected settled"@]
        },
        None => seq!["green cycle has no settlement_status field populated"@],
    };
    let b = match c.actual_cost {
        Some(cost) => if cost > 0 {
            a
        } else {
            a.push(
                "green cycle has actual_cost="@ + signed_decimal(cost as int)
                    + "; expected > 0 (compute should incur cost)"@,
            )
        },
        None => a.push("green cycle has no actual_cost recorded"@),
    };
    match c.provider_payout {
        Some(p) => if p > 0 {
            b
        } else {
            b.push(
                "green cycle has provider_payout="@ + signed_decimal(p as int)
                    + "; expected > 0 (provider should be paid)"@,
            )
        },
        None => b.push("green cycle has no provider_payout recorded"@),
    }
}

/// One `Pass` finding when there are no violation messages, otherwise one
/// `Violation` finding per message.
pub open spec fn scan_findings(scan: ObservabilityScan, msgs: Seq<Seq<char>>, pass_detail: Seq<char>) -> Seq<FindingView> {
    if msgs.len() == 0 {
        seq![FindingView { scan, kind: ObservabilityKind::Pass, detail: pass_detail }]
    } else {
        msgs.map_values(|m: Seq<char>| FindingView { scan, kind: ObservabilityKind::Violation, detail: m })
    }
}

/// The per-cycle findings: a failed cycle skips every scan; a green cycle runs
/// the leaked-claim, orphan-settlement and settlement-shape scans.
pub open spec fn cycle_findings(c: L6CycleResult) -> Seq<FindingView> {
    if !c.green {
        seq![
            FindingView {
                scan: ObservabilityScan::LeakedClaim,
                kind: ObservabilityKind::SkippedCycleFailed,
                detail: "cycle reported failure; leak scan does not apply"@,
            },
            FindingView {
                scan: ObservabilityScan::OrphanSettlement,
                kind: ObservabilityKind::SkippedCycleFailed,
                detail: "cycle reported failure; orphan scan does not apply"@,
            },
            FindingView {
                scan: ObservabilityScan::SettlementShape,
                kind: ObservabilityKind::SkippedCycleFailed,
                detail: "cycle reported failure; shape scan does not apply"@,
            },
        ]
    } else {
        scan_findings(
            ObservabilityScan::LeakedClaim,
            leak_msgs(c),
            "job_id and settlement_id both populated on green cycle"@,
        ) + scan_findings(
            ObservabilityScan::OrphanSettlement,
            orphan_msgs(c),
            "settlement_id is present iff job_id is present"@,
        ) + scan_findings(
            ObservabilityScan::SettlementShape,
            shape_msgs(c),
            "settlement_status=settled, actual_cost>0, provider_payout>0"@,
        )
    }
}

pub fn leaked_claim_violations(cycle: &L6CycleResult) -> (out: Vec<String>)
    ensures
        out@.map_values(|s: String| s@) == leak_msgs(*cycle),
{
    let mut out: Vec<String> = Vec::new();
    if cycle.job_id.is_none() {
        out.push(owned("green cycle has no job_id; provider claim path appears empty"));
    }
    if cycle.settlement_id.is_none() {
        out.push(owned("green cycle has no settlement_id; settlement was never recorded but cycle is green"));
    }
    if cycle.provider_node_id.is_none() {
        out.push(owned("green cycle has no provider_node_id; provider attribution is missing"));
    }
    if cycle.requester_node_id.is_none() {
        out.push(owned("green cycle has no requester_node_id; requester attribution is missing"));
    }
    assert(out@.map_values(|s: String| s@) =~= leak_msgs(*cycle));
    out
}

pub fn orphan_settlement_violations(cycle: &L6CycleResult) -> (out: Vec<String>)
    ensures
        out@.map_values(|s: String| s@) == orphan_msgs(*cycle),
{
    let mut out: Vec<String> = Vec::new();
    let has_settlement = cycle.settlement_id.is_some();
    let has_job = cycle.job_id.is_some();
    if has_settlement && !has_job {
        out.push(owned("settlement_id present without job_id; orphan settlement reachable from this cycle"));
    }
    assert(out@.map_values(|s: String| s@) =~= orphan_msgs(*cycle));
    out
}

fn labelled_signed(prefix: &str, v: i64, suffix: &str) -> (r: String)
    ensures
        r@ == prefix@ + signed_decimal(v as int) + suffix@,
{
    let mut out = owned(prefix);
    push_signed_decimal(&mut out, v);
    out.append(suffix);
    out
}

pub fn settlement_shape_violations(cycle: &L6CycleResult) -> (out: Vec<String>)
    ensures
        out@.map_values(|s: String| s@) == shape_msgs(*cycle),
{
    let mut out: Vec<String> = Vec::new();
    match &cycle.settlement_status {
        Some(status) => {
            if !str_eq(status.as_str(), "settled") {
                let mut m = owned("green cycle reports settlement_status=");
                m.append(debug_quoted(status.as_str()).as_str());
                m.append(", expected settled");
                out.push(m);
            }
        },
        None => out.push(owned("green cycle has no settlement_status field populated")),
    }
    let ghost a = out@.map_values(|s: String| s@);
    match cycle.actual_cost {
        Some(cost) => {
            if !(cost > 0) {
                out.push(labelled_signed("green cycle has actual_cost=", cost, "; expected > 0 (compute should incur cost)"));
            }
        },
        None => out.push(owned("green cycle has no actual_cost recorded")),
    }
    let ghost b = out@.map_values(|s: String| s@);
    match cycle.provider_payout {
        Some(p) => {
            if !(p > 0) {
                out.push(labelled_signed("green cycle has provider_payout=", p, "; expected > 0 (provider should be paid)"));
            }
        },
        None => out.push(owned("green cycle has no provider_payout recorded")),
    }
    assert(out@.map_values(|s: String| s@) =~= shape_msgs(*cycle));
    out
}

fn finding(scan: ObservabilityScan, kind: ObservabilityKind, detail: &str) -> (r: ObservabilityFinding)
    ensures
        finding_view(r) == (FindingView { scan, kind, detail: detail@ }),
{
    ObservabilityFinding { scan, kind, detail: owned(detail) }
}

/// Appends the findings of one scan: a `Pass` when `violations` is empty,
/// otherwise one `Violation` per message.
fn push_scan_findings(
    findings: &mut Vec<ObservabilityFinding>,
    scan: ObservabilityScan,
    violations: Vec<String>,
    pass_detail: &str,
)
    ensures
        findings_view(final(findings)@) == findings_view(old(findings)@) + scan_findings(
            scan,
            violations@.map_values(|s: String| s@),
            pass_detail@,
        ),
{
    let ghost msgs = violations@.map_values(|s: String| s@);
    if violations.len() == 0 {
        findings.push(finding(scan, ObservabilityKind::Pass, pass_detail));
        assert(findings_view(findings@) =~= findings_view(old(findings)@) + scan_findings(scan, msgs, pass_detail@));
    } else {
        let mut i: usize = 0;
        while i < violations.len()
            invariant
                i <= violations.len(),
                msgs == violations@.map_values(|s: String| s@),
                msgs.len() > 0,
                findings_view(findings@) == findings_view(old(findings)@) + scan_findings(scan, msgs, pass_detail@).take(i as int),
            decreases violations.len() - i,
        {
            let detail = owned(violations[i].as_str());
            let ghost prev = findings@;
            findings.push(ObservabilityFinding {
                scan,
                kind: ObservabilityKind::Violation,
                detail,
            });
            assert(scan_findings(scan, msgs, pass_detail@)[i as int] =~= finding_view(findings@.last()));
            assert(findings_view(findings@) =~= findings_view(prev).push(finding_view(findings@.last())));
            assert(scan_findings(scan, msgs, pass_detail@).take(i + 1) =~= scan_findings(scan, msgs, pass_detail@).take(i as int).push(scan_findings(scan, msgs, pass_detail@)[i as int]));
            i = i + 1;
            assert(findings_view(findings@) =~= findings_view(old(findings)@) + scan_findings(scan, msgs, pass_detail@).take(i as int));
        }
        assert(scan_findings(scan, msgs, pass_detail@).take(i as int) =~= scan_findings(scan, msgs, pass_detail@));
    }
}

/// The per-cycle invariant checks: failed cycles skip every scan; green cycles
/// must carry their identifiers and settlement evidence.
pub fn observe_single_cycle(cycle: &L6CycleResult) -> (r: L6CycleObservability)
    ensures
        r.index == cycle.index,
        findings_view(r.findings@) == cycle_findings(*cycle),
{
    let mut findings: Vec<ObservabilityFinding> = Vec::new();
    if !cycle.green {
        findings.push(finding(
            ObservabilityScan::LeakedClaim,
            ObservabilityKind::SkippedCycleFailed,
            "cycle reported failure; leak scan does not apply",
        ));
        findings.push(finding(
            ObservabilityScan::OrphanSettlement,
            ObservabilityKind::SkippedCycleFailed,
            "cycle reported failure; orphan scan does not apply",
        ));
        findings.push(finding(
            ObservabilityScan::SettlementShape,
            ObservabilityKind::SkippedCycleFailed,
            "cycle reported failure; shape scan does not apply",
        ));
        assert(findings_view(findings@) =~= cycle_findings(*cycle));
        return L6CycleObservability { index: cycle.index, findings };
    }
    assert(findings_view(findings@) =~= Seq::<FindingView>::empty());
    push_scan_findings(
        &mut findings,
        ObservabilityScan::LeakedClaim,
        leaked_claim_violations(cycle),
        "job_id and settlement_id both populated on green cycle",
    );
    push_scan_findings(
        &mut findings,
        ObservabilityScan::OrphanSettlement,
        orphan_settlement_violations(cycle),
        "settlement_id is present iff job_id is present",
    );
    push_scan_findings(
        &mut findings,
        ObservabilityScan::SettlementShape,
        settlement_shape_violations(cycle),
        "settlement_status=settled, actual_cost>0, provider_payout>0",
    );
    assert(findings_view(findings@) =~= cycle_findings(*cycle));
    L6CycleObservability { index: cycle.index, findings }
}


/// The cycle carries the settlement id `id`.
pub open spec fn has_settlement_id(c: L6CycleResult, id: Seq<char>) -> bool {
    match c.settlement_id {
        Some(s) => s@ == id,
        None => false,
    }
}

/// Indices of the cycles carrying settlement id `id`, in run order.
pub open spec fn indices_with_id(cycles: Seq<L6CycleResult>, id: Seq<char>) -> Seq<usize>
    decreases cycles.len(),
{
    if cycles.len() == 0 {
        Seq::empty()
    } else {
        let p = indices_with_id(cycles.drop_last(), id);
        if has_settlement_id(cycles.last(), id) {
            p.push(cycles.last().index)
        } else {
            p
        }
    }
}

/// `{:?}` of a list of cycle indices.
pub open spec fn index_list_debug(v: Seq<usize>) -> Seq<char> {
    "["@ + index_list_items(v) + "]"@
}

pub open spec fn index_list_items(v: Seq<usize>) -> Seq<char>
    decreases v.len(),
{
    if v.len() == 0 {
        Seq::empty()
    } else if v.len() == 1 {
        decimal(v[0] as nat)
    } else {
        index_list_items(v.drop_last()) + ", "@ + decimal(v.last() as nat)
    }
}

pub open spec fn duplicate_msg(id: Seq<char>, indices: Seq<usize>) -> Seq<char> {
    "settlement_id="@ + debug_text(id) + " appears across "@ + decimal(indices.len()) + " cycles "@
        + index_list_debug(indices) + " — duplicate-settlement violation"@
}

/// Cycle `j` is the first one carrying its settlement id.
pub open spec fn first_carrier(cycles: Seq<L6CycleResult>, j: int) -> bool {
    match cycles[j].settlement_id {
        Some(id) => forall|k: int| 0 <= k < j ==> !has_settlement_id(#[trigger] cycles[k], id@),
        None => false,
    }
}

/// The duplicate-settlement entries contributed by cycle `j`: when it is the
/// first carrier of an id shared by several cycles, one entry per carrier.
pub open spec fn duplicates_at(cycles: Seq<L6CycleResult>, j: int) -> Seq<(usize, Seq<char>)> {
    if first_carrier(cycles, j) {
        let id = cycles[j].settlement_id->0@;
        let ixs = indices_with_id(cycles, id);
        if ixs.len() > 1 {
            ixs.map_values(|ix: usize| (ix, duplicate_msg(id, ixs)))
        } else {
            Seq::empty()
        }
    } else {
        Seq::empty()
    }
}

pub open spec fn duplicates_upto(cycles: Seq<L6CycleResult>, n: int) -> Seq<(usize, Seq<char>)>
    decreases n,
{
    if n <= 0 {
        Seq::empty()
    } else {
        duplicates_upto(cycles, n - 1) + duplicates_at(cycles, n - 1)
    }
}

/// Cross-cycle duplicate-settlement scan: every cycle that shares its
/// settlement id with another cycle, grouped by id in order of the id's first
/// appearance.
pub open spec fn duplicate_settlements(cycles: Seq<L6CycleResult>) -> Seq<(usize, Seq<char>)> {
    duplicates_upto(cycles, cycles.len() as int)
}

pub open spec fn pairs_view(v: Seq<(usize, String)>) -> Seq<(usize, Seq<char>)> {
    v.map_values(|p: (usize, String)| (p.0, p.1@))
}

fn carries_id(c: &L6CycleResult, id: &str) -> (r: bool)
    ensures
        r == has_settlement_id(*c, id@),
{
    match &c.settlement_id {
        Some(s) => str_eq(s.as_str(), id),
        None => false,
    }
}

fn indices_carrying(cycles: &Vec<L6CycleResult>, id: &str) -> (r: Vec<usize>)
    ensures
        r@ == indices_with_id(cycles@, id@),
{
    let mut r: Vec<usize> = Vec::new();
    let mut i: usize = 0;
    while i < cycles.len()
        invariant
            i <= cycles.len(),
            r@ == indices_with_id(cycles@.subrange(0, i as int), id@),
        decreases cycles.len() - i,
    {
        if carries_id(&cycles[i], id) {
            r.push(cycles[i].index);
        }
        assert(cycles@.subrange(0, i + 1).drop_last() =~= cycles@.subrange(0, i as int));
        i = i + 1;
    }
    assert(cycles@.subrange(0, cycles@.len() as int) =~= cycles@);
    r
}

fn index_list_text(v: &Vec<usize>) -> (out: String)
    ensures
        out@ == index_list_debug(v@),
{
    let mut out = owned("[");
    let mut i: usize = 0;
    while i < v.len()
        invariant
            i <= v.len(),
            out@ == "["@ + index_list_items(v@.subrange(0, i as int)),
        decreases v.len() - i,
    {
        let ghost before = v@.subrange(0, i as int);
        assert(v@.subrange(0, i + 1).drop_last() =~= before);
        if i > 0 {
            out.append(", ");
        }
        push_decimal(&mut out, v[i] as u128);
        proof {
            if i == 0 {
                assert(index_list_items(before) =~= Seq::<char>::empty());
            }
        }
        i = i + 1;
        assert(out@ =~= "["@ + index_list_items(v@.subrange(0, i as int)));
    }
    assert(v@.subrange(0, v@.len() as int) =~= v@);
    out.append("]");
    out
}

fn first_carrier_exec(cycles: &Vec<L6CycleResult>, j: usize, id: &str) -> (r: bool)
    requires
        j < cycles.len(),
        has_settlement_id(cycles@[j as int], id@),
    ensures
        r == first_carrier(cycles@, j as int),
{
    let mut k: usize = 0;
    while k < j
        invariant
            k <= j < cycles.len(),
            has_settlement_id(cycles@[j as int], id@),
            forall|m: int| 0 <= m < k ==> !has_settlement_id(#[trigger] cycles@[m], id@),
        decreases j - k,
    {
        if carries_id(&cycles[k], id) {
            assert(!first_carrier(cycles@, j as int)) by {
                let sj = cycles@[j as int].settlement_id;
                assert(sj is Some);
                assert(sj->0@ == id@);
                assert(has_settlement_id(cycles@[k as int], id@));
            }
            return false;
        }
        k = k + 1;
    }
    true
}

/// Cross-cycle duplicate-settlement scan (see `duplicate_settlements`).
pub fn scan_duplicate_settlements(cycles: &Vec<L6CycleResult>) -> (out: Vec<(usize, String)>)
    ensures
        pairs_view(out@) == duplicate_settlements(cycles@),
{
    let mut out: Vec<(usize, String)> = Vec::new();
    let mut j: usize = 0;
    while j < cycles.len()
        invariant
            j <= cycles.len(),
            pairs_view(out@) == duplicates_upto(cycles@, j as int),
        decreases cycles.len() - j,
    {
        let ghost before = out@;
        match &cycles[j].settlement_id {
            Some(id) => {
                if first_carrier_exec(cycles, j, id.as_str()) {
                    let indices = indices_carrying(cycles, id.as_str());
                    if indices.len() > 1 {
                        let mut msg = owned("settlement_id=");
                        msg.append(debug_quoted(id.as_str()).as_str());
                        msg.append(" appears across ");
                        push_decimal(&mut msg, indices.len() as u128);
                        msg.append(" cycles ");
                        msg.append(index_list_text(&indices).as_str());
                        msg.append(" — duplicate-settlement violation");
                        let ghost entries = duplicates_at(cycles@, j as int);
                        let mut t: usize = 0;
                        while t < indices.len()
                            invariant
                                t <= indices.len(),
                                indices@ == indices_with_id(cycles@, id@),
                                indices.len() > 1,
                                first_carrier(cycles@, j as int),
                                j < cycles.len(),
                                cycles@[j as int].settlement_id == Some(*id),
                                msg@ == duplicate_msg(id@, indices@),
                                entries == duplicates_at(cycles@, j as int),
                                pairs_view(out@) == pairs_view(before) + entries.take(t as int),
                            decreases indices.len() - t,
                        {
                            let ghost prev = out@;
                            out.push((indices[t], msg.clone()));
                            assert(pairs_view(out@) =~= pairs_view(prev).push((indices@[t as int], msg@)));
                            assert(entries.take(t + 1) =~= entries.take(t as int).push(entries[t as int]));
                            t = t + 1;
                            assert(pairs_view(out@) =~= pairs_view(before) + entries.take(t as int));
                        }
                        assert(entries.take(t as int) =~= entries);
                    } else {
                        assert(duplicates_at(cycles@, j as int) =~= Seq::<(usize, Seq<char>)>::empty());
                    }
                } else {
                    assert(duplicates_at(cycles@, j as int) =~= Seq::<(usize, Seq<char>)>::empty());
                }
            },
            None => {
                assert(duplicates_at(cycles@, j as int) =~= Seq::<(usize, Seq<char>)>::empty());
            },
        }
        assert(pairs_view(out@) =~= duplicates_upto(cycles@, j as int) + duplicates_at(cycles@, j as int));
        j = j + 1;
    }
    out
}


#[verifier::ext_equal]
pub struct CycleObsView {
    pub index: usize,
    pub findings: Seq<FindingView>,
}

pub open spec fn obs_view(c: L6CycleObservability) -> CycleObsView {
    CycleObsView { index: c.index, findings: findings_view(c.findings@) }
}

pub open spec fn obs_views(v: Seq<L6CycleObservability>) -> Seq<CycleObsView> {
    v.map_values(|c: L6CycleObservability| obs_view(c))
}

/// The per-cycle scans of every cycle, in run order.
pub open spec fn initial_obs(cycles: Seq<L6CycleResult>) -> Seq<CycleObsView> {
    cycles.map_values(|c: L6CycleResult| CycleObsView { index: c.index, findings: cycle_findings(c) })
}

/// Position of the first cycle with index `idx` at or after `from`, or the
/// length when there is none.
pub open spec fn position_of(obs: Seq<CycleObsView>, idx: usize, from: int) -> int
    decreases obs.len() - from,
{
    if from >= obs.len() || from < 0 {
        obs.len() as int
    } else if obs[from].index == idx {
        from
    } else {
        position_of(obs, idx, from + 1)
    }
}

pub open spec fn duplicate_finding(detail: Seq<char>) -> FindingView {
    FindingView { scan: ObservabilityScan::DuplicateSettlement, kind: ObservabilityKind::Violation, detail }
}

/// Appends a duplicate-settlement violation to the first cycle with the
/// entry's index.
pub open spec fn add_duplicate(obs: Seq<CycleObsView>, entry: (usize, Seq<char>)) -> Seq<CycleObsView> {
    let p = position_of(obs, entry.0, 0);
    if p < obs.len() {
        obs.update(p, CycleObsView { index: obs[p].index, findings: obs[p].findings.push(duplicate_finding(entry.1)) })
    } else {
        obs
    }
}

pub open spec fn apply_duplicates(obs: Seq<CycleObsView>, entries: Seq<(usize, Seq<char>)>) -> Seq<CycleObsView>
    decreases entries.len(),
{
    if entries.len() == 0 {
        obs
    } else {
        add_duplicate(apply_duplicates(obs, entries.drop_last()), entries.last())
    }
}

pub open spec fn no_violation(obs: Seq<CycleObsView>) -> bool {
    forall|i: int, k: int|
        0 <= i < obs.len() && 0 <= k < obs[i].findings.len() ==> #[trigger] obs[i].findings[k].kind
            != ObservabilityKind::Violation
}

proof fn position_of_bounds(obs: Seq<CycleObsView>, idx: usize, from: int)
    requires
        0 <= from <= obs.len(),
    ensures
        from <= position_of(obs, idx, from) <= obs.len(),
        position_of(obs, idx, from) < obs.len() ==> obs[position_of(obs, idx, from)].index == idx,
        forall|m: int| from <= m < position_of(obs, idx, from) ==> obs[m].index != idx,
    decreases obs.len() - from,
{
    if from < obs.len() && obs[from].index != idx {
        position_of_bounds(obs, idx, from + 1);
    }
}

fn find_position(obs: &Vec<L6CycleObservability>, idx: usize) -> (r: usize)
    ensures
        r == position_of(obs_views(obs@), idx, 0),
{
    let ghost v = obs_views(obs@);
    let mut p: usize = 0;
    while p < obs.len() && obs[p].index != idx
        invariant
            p <= obs.len(),
            v == obs_views(obs@),
            position_of(v, idx, 0) == position_of(v, idx, p as int),
        decreases obs.len() - p,
    {
        p = p + 1;
    }
    p
}

fn findings_have_violation(findings: &Vec<ObservabilityFinding>) -> (r: bool)
    ensures
        r == exists|k: int| 0 <= k < findings@.len() && findings@[k].kind == ObservabilityKind::Violation,
{
    let mut k: usize = 0;
    while k < findings.len()
        invariant
            k <= findings.len(),
            forall|m: int| 0 <= m < k ==> findings@[m].kind != ObservabilityKind::Violation,
        decreases findings.len() - k,
    {
        if findings[k].kind == ObservabilityKind::Violation {
            return true;
        }
        k = k + 1;
    }
    false
}

/// Scans every cycle of a finished run and the run as a whole: the per-cycle
/// findings, with each duplicate-settlement violation appended to the cycle it
/// implicates, and whether every invariant held.
pub fn observe_l6_invariants(report: &L6StabilityReport) -> (r: L6InvariantReport)
    ensures
        r.cycle_count == report.completed_cycles,
        r.rss_delta_kib == report.rss_delta_kib,
        obs_views(r.cycles@) == apply_duplicates(initial_obs(report.cycles@), duplicate_settlements(report.cycles@)),
        r.all_invariants_held == no_violation(obs_views(r.cycles@)),
{
    let mut cycles: Vec<L6CycleObservability> = Vec::new();
    let mut all_held = true;
    let mut i: usize = 0;
    while i < report.cycles.len()
        invariant
            i <= report.cycles.len(),
            obs_views(cycles@) == initial_obs(report.cycles@.subrange(0, i as int)),
            all_held == no_violation(obs_views(cycles@)),
        decreases report.cycles.len() - i,
    {
        let c = observe_single_cycle(&report.cycles[i]);
        let violated = findings_have_violation(&c.findings);
        let ghost prev = cycles@;
        cycles.push(c);
        proof {
            assert(obs_views(cycles@) =~= obs_views(prev).push(obs_view(c)));
            assert(initial_obs(report.cycles@.subrange(0, i + 1)) =~= initial_obs(report.cycles@.subrange(0, i as int)).push(
                CycleObsView { index: report.cycles@[i as int].index, findings: cycle_findings(report.cycles@[i as int]) },
            ));
            let v = obs_views(cycles@);
            if violated {
                let k = choose|k: int| 0 <= k < c.findings@.len() && c.findings@[k].kind == ObservabilityKind::Violation;
                assert(v[i as int].findings[k].kind == ObservabilityKind::Violation);
            }
            if !no_violation(obs_views(prev)) {
                let (a, b) = choose|a: int, b: int|
                    0 <= a < obs_views(prev).len() && 0 <= b < obs_views(prev)[a].findings.len()
                        && obs_views(prev)[a].findings[b].kind == ObservabilityKind::Violation;
                assert(v[a].findings[b].kind == ObservabilityKind::Violation);
            }
            if all_held && !violated {
                assert forall|a: int, b: int| 0 <= a < v.len() && 0 <= b < v[a].findings.len() implies #[trigger] v[a].findings[b].kind
                    != ObservabilityKind::Violation by {
                    if a < i {
                        assert(v[a] == obs_views(prev)[a]);
                    } else {
                        assert(v[a].findings[b] == finding_view(c.findings@[b]));
                    }
                }
            }
        }
        if violated {
            all_held = false;
        }
        i = i + 1;
    }
    assert(report.cycles@.subrange(0, report.cycles@.len() as int) =~= report.cycles@);
    let duplicates = scan_duplicate_settlements(&report.cycles);
    let ghost entries = duplicate_settlements(report.cycles@);
    let ghost start = obs_views(cycles@);
    let mut t: usize = 0;
    while t < duplicates.len()
        invariant
            t <= duplicates.len(),
            pairs_view(duplicates@) == entries,
            obs_views(cycles@) == apply_duplicates(start, entries.take(t as int)),
            all_held == no_violation(obs_views(cycles@)),
        decreases duplicates.len() - t,
    {
        let idx = duplicates[t].0;
        let p = find_position(&cycles, idx);
        let ghost before = obs_views(cycles@);
        assert(entries.take(t + 1).drop_last() =~= entries.take(t as int));
        assert(entries.take(t + 1).last() == (idx, duplicates@[t as int].1@));
        proof {
            position_of_bounds(before, idx, 0);
        }
        if p < cycles.len() {
            let mut c = cycles.remove(p);
            let ghost old_findings = c.findings@;
            c.findings.push(ObservabilityFinding {
                scan: ObservabilityScan::DuplicateSettlement,
                kind: ObservabilityKind::Violation,
                detail: duplicates[t].1.clone(),
            });
            cycles.insert(p, c);
            proof {
                let after = obs_views(cycles@);
                let expected = add_duplicate(before, (idx, duplicates@[t as int].1@));
                assert(findings_view(c.findings@) =~= findings_view(old_findings).push(duplicate_finding(duplicates@[t as int].1@)));
                assert(after =~= expected);
                let k = after[p as int].findings.len() - 1;
                assert(after[p as int].findings[k].kind == ObservabilityKind::Violation);
            }
            all_held = false;
        }
        t = t + 1;
    }
    assert(entries.take(duplicates@.len() as int) =~= entries);
    L6InvariantReport {
        cycle_count: report.completed_cycles,
        cycles,
        rss_delta_kib: report.rss_delta_kib,
        all_invariants_held: all_held,
    }
}


/// Law: a failed cycle is never reported as a leak — every per-cycle scan of a
/// failed cycle is skipped.
pub proof fn failed_cycle_skips_every_scan(c: L6CycleResult)
    requires
        !c.green,
    ensures
        forall|k: int| 0 <= k < cycle_findings(c).len() ==> #[trigger] cycle_findings(c)[k].kind
            == ObservabilityKind::SkippedCycleFailed,
{
}

/// A green cycle with its identifiers, a `settled` status, a positive cost and
/// a positive provider payout.
pub open spec fn well_formed_green_cycle(c: L6CycleResult) -> bool {
    &&& c.green
    &&& c.job_id is Some
    &&& c.settlement_id is Some
    &&& c.provider_node_id is Some
    &&& c.requester_node_id is Some
    &&& c.settlement_status matches Some(s) && s@ == "settled"@
    &&& c.actual_cost matches Some(x) && x > 0
    &&& c.provider_payout matches Some(x) && x > 0
}

/// Law: a green cycle passes the leaked-claim, orphan-settlement and
/// settlement-shape scans exactly when it is well formed.
pub proof fn green_cycle_passes_iff_well_formed(c: L6CycleResult)
    requires
        c.green,
    ensures
        (forall|k: int| 0 <= k < cycle_findings(c).len() ==> #[trigger] cycle_findings(c)[k].kind
            == ObservabilityKind::Pass) <==> well_formed_green_cycle(c),
{
    let f = cycle_findings(c);
    let l = scan_findings(ObservabilityScan::LeakedClaim, leak_msgs(c), "job_id and settlement_id both populated on green cycle"@);
    let o = scan_findings(ObservabilityScan::OrphanSettlement, orphan_msgs(c), "settlement_id is present iff job_id is present"@);
    let sh = scan_findings(ObservabilityScan::SettlementShape, shape_msgs(c), "settlement_status=settled, actual_cost>0, provider_payout>0"@);
    assert(f == l + o + sh);
    if well_formed_green_cycle(c) {
        assert(leak_msgs(c).len() == 0);
        assert(orphan_msgs(c).len() == 0);
        assert(shape_msgs(c).len() == 0);
    } else {
        if leak_msgs(c).len() > 0 {
            assert(f[0] == l[0]);
        } else if orphan_msgs(c).len() > 0 {
            assert(f[1] == o[0]);
        } else {
            assert(shape_msgs(c).len() > 0);
            assert(f[2] == sh[0]);
        }
    }
}

// ---------------------------------------------------------------------------
// Every duplicated settlement is flagged on each cycle that carries it.

/// `o` holds a duplicate-settlement violation.
pub open spec fn flags_duplicate(o: CycleObsView) -> bool {
    exists|k: int|
        0 <= k < o.findings.len() && (#[trigger] o.findings[k]).scan == ObservabilityScan::DuplicateSettlement
            && o.findings[k].kind == ObservabilityKind::Violation
}

/// `b` has the cycles of `a` in the same order, each with `a`'s findings
/// followed by possibly more.
pub open spec fn extends_findings(a: Seq<CycleObsView>, b: Seq<CycleObsView>) -> bool {
    &&& b.len() == a.len()
    &&& forall|i: int|
        0 <= i < a.len() ==> (#[trigger] b[i]).index == a[i].index && a[i].findings.len() <= b[i].findings.len()
            && b[i].findings.subrange(0, a[i].findings.len() as int) == a[i].findings
}

proof fn extends_findings_trans(a: Seq<CycleObsView>, b: Seq<CycleObsView>, c: Seq<CycleObsView>)
    requires
        extends_findings(a, b),
        extends_findings(b, c),
    ensures
        extends_findings(a, c),
{
    assert forall|i: int| 0 <= i < a.len() implies (#[trigger] c[i]).index == a[i].index && a[i].findings.len()
        <= c[i].findings.len() && c[i].findings.subrange(0, a[i].findings.len() as int) == a[i].findings by {
        assert(b[i].findings.subrange(0, a[i].findings.len() as int) == a[i].findings);
        assert(c[i].findings.subrange(0, b[i].findings.len() as int) == b[i].findings);
        assert(c[i].findings.subrange(0, a[i].findings.len() as int) =~= b[i].findings.subrange(
            0,
            a[i].findings.len() as int,
        ));
    }
}

/// Two schedules with the same indices find an index at the same position.
proof fn position_of_same_indices(a: Seq<CycleObsView>, b: Seq<CycleObsView>, idx: usize, from: int)
    requires
        a.len() == b.len(),
        forall|i: int| 0 <= i < a.len() ==> (#[trigger] b[i]).index == a[i].index,
    ensures
        position_of(a, idx, from) == position_of(b, idx, from),
    decreases a.len() - from,
{
    if 0 <= from < a.len() && a[from].index != idx {
        position_of_same_indices(a, b, idx, from + 1);
    }
}

proof fn add_duplicate_extends(obs: Seq<CycleObsView>, e: (usize, Seq<char>))
    ensures
        extends_findings(obs, add_duplicate(obs, e)),
        position_of(obs, e.0, 0) < obs.len() ==> flags_duplicate(add_duplicate(obs, e)[position_of(obs, e.0, 0)]),
{
    let r = add_duplicate(obs, e);
    let p = position_of(obs, e.0, 0);
    position_of_bounds(obs, e.0, 0);
    assert forall|i: int| 0 <= i < obs.len() implies (#[trigger] r[i]).index == obs[i].index && obs[i].findings.len()
        <= r[i].findings.len() && r[i].findings.subrange(0, obs[i].findings.len() as int) == obs[i].findings by {
        if i == p {
            assert(r[i].findings.subrange(0, obs[i].findings.len() as int) =~= obs[i].findings);
        } else {
            assert(r[i].findings.subrange(0, obs[i].findings.len() as int) =~= obs[i].findings);
        }
    }
    if p < obs.len() {
        let f = r[p].findings;
        assert(f[f.len() - 1] == duplicate_finding(e.1));
    }
}

proof fn apply_duplicates_extends(obs: Seq<CycleObsView>, entries: Seq<(usize, Seq<char>)>)
    ensures
        extends_findings(obs, apply_duplicates(obs, entries)),
    decreases entries.len(),
{
    if entries.len() == 0 {
        assert forall|i: int| 0 <= i < obs.len() implies (#[trigger] obs[i]).findings.subrange(
            0,
            obs[i].findings.len() as int,
        ) == obs[i].findings by {
            assert(obs[i].findings.subrange(0, obs[i].findings.len() as int) =~= obs[i].findings);
        }
    } else {
        let mid = apply_duplicates(obs, entries.drop_last());
        apply_duplicates_extends(obs, entries.drop_last());
        add_duplicate_extends(mid, entries.last());
        extends_findings_trans(obs, mid, apply_duplicates(obs, entries));
    }
}

/// A cycle that extends the findings of a flagged cycle is flagged.
proof fn flags_kept(a: CycleObsView, b: CycleObsView)
    requires
        flags_duplicate(a),
        a.findings.len() <= b.findings.len(),
        b.findings.subrange(0, a.findings.len() as int) == a.findings,
    ensures
        flags_duplicate(b),
{
    let k = choose|k: int|
        0 <= k < a.findings.len() && (#[trigger] a.findings[k]).scan == ObservabilityScan::DuplicateSettlement
            && a.findings[k].kind == ObservabilityKind::Violation;
    assert(b.findings.subrange(0, a.findings.len() as int)[k] == b.findings[k]);
}

/// Every entry applied to the cycle with its index leaves that cycle flagged.
proof fn applied_entry_is_flagged(obs: Seq<CycleObsView>, entries: Seq<(usize, Seq<char>)>, m: int)
    requires
        0 <= m < entries.len(),
        position_of(obs, entries[m].0, 0) < obs.len(),
    ensures
        flags_duplicate(apply_duplicates(obs, entries)[position_of(obs, entries[m].0, 0)]),
    decreases entries.len(),
{
    let p = position_of(obs, entries[m].0, 0);
    position_of_bounds(obs, entries[m].0, 0);
    let prefix = entries.drop_last();
    let mid = apply_duplicates(obs, prefix);
    let r = apply_duplicates(obs, entries);
    apply_duplicates_extends(obs, prefix);
    position_of_same_indices(obs, mid, entries[m].0, 0);
    add_duplicate_extends(mid, entries.last());
    if m == entries.len() - 1 {
    } else {
        assert(prefix[m] == entries[m]);
        applied_entry_is_flagged(obs, prefix, m);
        assert(r == add_duplicate(mid, entries.last()));
        assert(extends_findings(mid, r));
        assert(mid.len() == obs.len());
        assert(r[p].index == mid[p].index);
        flags_kept(mid[p], r[p]);
    }
}

/// With distinct indices, the cycle at position `j` is the first with its
/// index.
proof fn position_of_distinct(obs: Seq<CycleObsView>, j: int, from: int)
    requires
        0 <= from <= j < obs.len(),
        forall|a: int, b: int| 0 <= a < b < obs.len() ==> (#[trigger] obs[a]).index != (#[trigger] obs[b]).index,
    ensures
        position_of(obs, obs[j].index, from) == j,
    decreases j - from,
{
    if from < j {
        assert(obs[from].index != obs[j].index);
        position_of_distinct(obs, j, from + 1);
    }
}

proof fn carrier_index_listed(cycles: Seq<L6CycleResult>, id: Seq<char>, j: int)
    requires
        0 <= j < cycles.len(),
        has_settlement_id(cycles[j], id),
    ensures
        indices_with_id(cycles, id).contains(cycles[j].index),
        indices_with_id(cycles, id).len() >= 1,
    decreases cycles.len(),
{
    let p = indices_with_id(cycles.drop_last(), id);
    if j < cycles.len() - 1 {
        assert(cycles.drop_last()[j] == cycles[j]);
        carrier_index_listed(cycles.drop_last(), id, j);
        let k = choose|k: int| 0 <= k < p.len() && p[k] == cycles[j].index;
        if has_settlement_id(cycles.last(), id) {
            assert(p.push(cycles.last().index)[k] == cycles[j].index);
        }
    } else {
        assert(p.push(cycles.last().index)[p.len() as int] == cycles[j].index);
    }
}

proof fn two_carriers_listed(cycles: Seq<L6CycleResult>, id: Seq<char>, j: int, j2: int)
    requires
        0 <= j < j2 < cycles.len(),
        has_settlement_id(cycles[j], id),
        has_settlement_id(cycles[j2], id),
    ensures
        indices_with_id(cycles, id).len() >= 2,
    decreases cycles.len(),
{
    let d = cycles.drop_last();
    assert(d[j] == cycles[j]);
    if j2 == cycles.len() - 1 {
        carrier_index_listed(d, id, j);
    } else {
        assert(d[j2] == cycles[j2]);
        two_carriers_listed(d, id, j, j2);
    }
}

/// Some cycle at or before `j` is the first carrier of `id`.
proof fn first_carrier_before(cycles: Seq<L6CycleResult>, id: Seq<char>, j: int) -> (f: int)
    requires
        0 <= j < cycles.len(),
        has_settlement_id(cycles[j], id),
    ensures
        0 <= f <= j,
        has_settlement_id(cycles[f], id),
        first_carrier(cycles, f),
    decreases j,
{
    if exists|k: int| 0 <= k < j && has_settlement_id(#[trigger] cycles[k], id) {
        let k = choose|k: int| 0 <= k < j && has_settlement_id(#[trigger] cycles[k], id);
        first_carrier_before(cycles, id, k)
    } else {
        j
    }
}

proof fn duplicates_upto_contains(cycles: Seq<L6CycleResult>, n: int, f: int, m: int)
    requires
        0 <= f < n,
        0 <= m < duplicates_at(cycles, f).len(),
    ensures
        duplicates_upto(cycles, n).contains(duplicates_at(cycles, f)[m]),
    decreases n,
{
    let prev = duplicates_upto(cycles, n - 1);
    let here = duplicates_at(cycles, n - 1);
    assert(duplicates_upto(cycles, n) == prev + here);
    if f == n - 1 {
        assert((prev + here)[prev.len() + m] == here[m]);
    } else {
        duplicates_upto_contains(cycles, n - 1, f, m);
        let k = choose|k: int| 0 <= k < prev.len() && prev[k] == duplicates_at(cycles, f)[m];
        assert((prev + here)[k] == prev[k]);
    }
}

/// Law: the invariant scan of a run whose cycles have distinct indices keeps
/// one result per cycle, in run order and with the cycle's index, and flags a
/// duplicate-settlement violation on every cycle that shares its settlement
/// id with another cycle.
pub proof fn shared_settlements_are_flagged(cycles: Seq<L6CycleResult>, obs: Seq<CycleObsView>)
    requires
        forall|a: int, b: int|
            0 <= a < b < cycles.len() ==> (#[trigger] cycles[a]).index != (#[trigger] cycles[b]).index,
        obs == apply_duplicates(initial_obs(cycles), duplicate_settlements(cycles)),
    ensures
        obs.len() == cycles.len(),
        forall|i: int| 0 <= i < cycles.len() ==> (#[trigger] obs[i]).index == cycles[i].index,
        forall|j: int, j2: int|
            0 <= j < cycles.len() && 0 <= j2 < cycles.len() && j != j2 && (#[trigger] cycles[j]).settlement_id
                is Some && has_settlement_id(#[trigger] cycles[j2], cycles[j].settlement_id->0@) ==> flags_duplicate(
                obs[j],
            ),
{
    let init = initial_obs(cycles);
    apply_duplicates_extends(init, duplicate_settlements(cycles));
    assert forall|j: int, j2: int|
        0 <= j < cycles.len() && 0 <= j2 < cycles.len() && j != j2 && (#[trigger] cycles[j]).settlement_id is Some
            && has_settlement_id(#[trigger] cycles[j2], cycles[j].settlement_id->0@) implies flags_duplicate(
        obs[j],
    ) by {
        let id = cycles[j].settlement_id->0@;
        assert(has_settlement_id(cycles[j], id));
        if j < j2 {
            two_carriers_listed(cycles, id, j, j2);
        } else {
            two_carriers_listed(cycles, id, j2, j);
        }
        let f = first_carrier_before(cycles, id, j);
        assert(cycles[f].settlement_id->0@ == id);
        let ixs = indices_with_id(cycles, id);
        carrier_index_listed(cycles, id, j);
        let m = choose|m: int| 0 <= m < ixs.len() && ixs[m] == cycles[j].index;
        let entries = duplicates_at(cycles, f);
        assert(entries == ixs.map_values(|ix: usize| (ix, duplicate_msg(id, ixs))));
        assert(entries[m].0 == cycles[j].index);
        duplicates_upto_contains(cycles, cycles.len() as int, f, m);
        let all = duplicate_settlements(cycles);
        let q = choose|q: int| 0 <= q < all.len() && all[q] == entries[m];
        assert forall|a: int, b: int| 0 <= a < b < init.len() implies (#[trigger] init[a]).index
            != (#[trigger] init[b]).index by {
            assert(init[a].index == cycles[a].index);
            assert(init[b].index == cycles[b].index);
        }
        position_of_distinct(init, j, 0);
        applied_entry_is_flagged(init, all, q);
    }
}

} // verus!
