use wire_substrate::observability::{
    observe_l6_invariants, observe_single_cycle, scan_duplicate_settlements, ObservabilityKind,
    ObservabilityScan,
};
use wire_substrate::stability::{L6CycleResult, L6StabilityReport};

fn green_cycle(index: usize) -> L6CycleResult {
    L6CycleResult {
        index,
        green: true,
        elapsed_ms: 100,
        provider_node_id: Some("provider-1".to_owned()),
        requester_node_id: Some("requester-1".to_owned()),
        tunnel_url: Some("https://tunnel.example".to_owned()),
        offer_id: Some("offer-1".to_owned()),
        job_id: Some("job-1".to_owned()),
        uuid_job_id: Some("00000000-0000-0000-0000-000000000001".to_owned()),
        settlement_id: Some(format!("settlement-{index}")),
        settlement_status: Some("settled".to_owned()),
        actual_cost: Some(2),
        provider_payout: Some(2),
        requester_adjustment: Some(0),
        error: None,
    }
}

fn report_with(cycles: Vec<L6CycleResult>, total_ms: u128) -> L6StabilityReport {
    L6StabilityReport {
        requested_cycles: cycles.len(),
        completed_cycles: cycles.len(),
        all_green: cycles.iter().all(|c| c.green),
        cycle_delay_secs: 0,
        total_elapsed_ms: total_ms,
        p50_cycle_ms: None,
        p99_cycle_ms: None,
        initial_rss_kib: Some(100),
        final_rss_kib: Some(110),
        max_rss_kib: Some(110),
        rss_delta_kib: Some(10),
        cycles,
    }
}

#[test]
fn clean_green_run_passes_all_invariants() {
    let report = report_with(vec![green_cycle(1), green_cycle(2)], 2000);
    let obs = observe_l6_invariants(&report);
    assert!(obs.all_invariants_held);
    for cycle in &obs.cycles {
        for finding in &cycle.findings {
            assert!(matches!(finding.kind, ObservabilityKind::Pass));
        }
    }
    assert_eq!(obs.rss_delta_kib, Some(10));
    assert_eq!(obs.cycle_count, 2);
}

#[test]
fn green_cycle_missing_settlement_id_flagged_as_leaked_claim() {
    let mut cycle = green_cycle(1);
    cycle.settlement_id = None;
    let report = report_with(vec![cycle], 1000);
    let obs = observe_l6_invariants(&report);
    assert!(!obs.all_invariants_held);
    let cycle_findings = &obs.cycles[0].findings;
    assert!(cycle_findings.iter().any(|f| {
        f.scan == ObservabilityScan::LeakedClaim
            && f.kind == ObservabilityKind::Violation
            && f.detail.contains("no settlement_id")
    }));
}

#[test]
fn green_cycle_with_settlement_but_no_job_id_flagged_as_orphan() {
    let mut cycle = green_cycle(1);
    cycle.job_id = None;
    let report = report_with(vec![cycle], 1000);
    let obs = observe_l6_invariants(&report);
    assert!(!obs.all_invariants_held);
    let findings = &obs.cycles[0].findings;
    assert!(findings.iter().any(|f| {
        f.scan == ObservabilityScan::OrphanSettlement && f.kind == ObservabilityKind::Violation
    }));
    assert!(findings.iter().any(|f| {
        f.scan == ObservabilityScan::LeakedClaim && f.kind == ObservabilityKind::Violation
    }));
}

#[test]
fn green_cycle_with_zero_provider_payout_flagged_as_settlement_shape() {
    let mut cycle = green_cycle(1);
    cycle.provider_payout = Some(0);
    let report = report_with(vec![cycle], 1000);
    let obs = observe_l6_invariants(&report);
    assert!(!obs.all_invariants_held);
    assert!(obs.cycles[0].findings.iter().any(|f| {
        f.scan == ObservabilityScan::SettlementShape
            && f.kind == ObservabilityKind::Violation
            && f.detail.contains("provider_payout=0")
    }));
}

#[test]
fn duplicate_settlement_id_across_cycles_flagged() {
    let mut a = green_cycle(1);
    let mut b = green_cycle(2);
    a.settlement_id = Some("settlement-shared".to_owned());
    b.settlement_id = Some("settlement-shared".to_owned());
    let report = report_with(vec![a, b], 2000);
    let obs = observe_l6_invariants(&report);
    assert!(!obs.all_invariants_held);
    let count = obs
        .cycles
        .iter()
        .flat_map(|c| &c.findings)
        .filter(|f| f.scan == ObservabilityScan::DuplicateSettlement)
        .count();
    assert_eq!(count, 2, "both cycles should be flagged");
}

#[test]
fn failed_cycle_skips_per_cycle_scans() {
    let cycle = L6CycleResult {
        index: 1,
        green: false,
        elapsed_ms: 100,
        provider_node_id: None,
        requester_node_id: None,
        tunnel_url: None,
        offer_id: None,
        job_id: None,
        uuid_job_id: None,
        settlement_id: None,
        settlement_status: None,
        actual_cost: None,
        provider_payout: None,
        requester_adjustment: None,
        error: Some("synthetic".to_owned()),
    };
    let report = report_with(vec![cycle], 100);
    let obs = observe_l6_invariants(&report);
    assert!(obs.all_invariants_held);
    for finding in &obs.cycles[0].findings {
        assert!(matches!(finding.kind, ObservabilityKind::SkippedCycleFailed));
    }
}

#[test]
fn settlement_status_other_than_settled_is_a_shape_violation() {
    let mut cycle = green_cycle(3);
    cycle.settlement_status = Some("pending".to_owned());
    cycle.actual_cost = Some(-1);
    let obs = observe_single_cycle(&cycle);
    let details: Vec<&str> = obs
        .findings
        .iter()
        .filter(|f| f.scan == ObservabilityScan::SettlementShape)
        .map(|f| f.detail.as_str())
        .collect();
    assert_eq!(
        details,
        vec![
            "green cycle reports settlement_status=\"pending\", expected settled",
            "green cycle has actual_cost=-1; expected > 0 (compute should incur cost)",
        ]
    );
    assert_eq!(obs.index, 3);
}

#[test]
fn duplicate_scan_lists_every_cycle_sharing_a_settlement() {
    let mut a = green_cycle(1);
    let b = green_cycle(2);
    let mut c = green_cycle(3);
    a.settlement_id = Some("s".to_owned());
    c.settlement_id = Some("s".to_owned());
    let dups = scan_duplicate_settlements(&vec![a, b, c]);
    let expected = "settlement_id=\"s\" appears across 2 cycles [1, 3] — duplicate-settlement violation";
    assert_eq!(
        dups,
        vec![(1, expected.to_owned()), (3, expected.to_owned())]
    );
}
