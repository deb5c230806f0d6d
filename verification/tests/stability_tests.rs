use wire_substrate::d3::{D3LiveComputeSettlementReport, D3Status, D3Subtest};
use wire_substrate::stability::{
    after_cycle, cycle_result_from_d3, fold_max_rss, percentile, sorted_copy, stability_report,
    L6Config, L6CycleAction, L6CycleResult, L6StabilityReport,
};

#[test]
fn percentile_handles_small_samples() {
    assert_eq!(percentile(&[], 50), None);
    assert_eq!(percentile(&[10], 99), Some(10));
    assert_eq!(percentile(&[10, 20, 30], 50), Some(20));
    assert_eq!(percentile(&[10, 20, 30], 99), Some(30));
}

fn cycle(index: usize, green: bool, elapsed_ms: u128) -> L6CycleResult {
    L6CycleResult {
        index,
        green,
        elapsed_ms,
        provider_node_id: None,
        requester_node_id: None,
        tunnel_url: None,
        offer_id: None,
        job_id: Some("playful/123/1".to_owned()),
        uuid_job_id: None,
        settlement_id: None,
        settlement_status: Some("settled".to_owned()),
        actual_cost: Some(2),
        provider_payout: Some(2),
        requester_adjustment: Some(0),
        error: if green { None } else { Some("stage: broke".to_owned()) },
    }
}

#[test]
fn l6_markdown_surfaces_cycle_status() {
    let report = L6StabilityReport {
        requested_cycles: 1,
        completed_cycles: 1,
        all_green: true,
        cycle_delay_secs: 0,
        total_elapsed_ms: 42,
        p50_cycle_ms: Some(42),
        p99_cycle_ms: Some(42),
        initial_rss_kib: Some(100),
        final_rss_kib: Some(110),
        max_rss_kib: Some(110),
        rss_delta_kib: Some(10),
        cycles: vec![cycle(1, true, 42)],
    };

    let markdown = report.to_markdown();

    assert!(markdown.contains("L6 driver completed all requested cycles green"));
    assert!(markdown.contains("job_id=`playful/123/1`"));
    assert!(markdown.contains("settlement_status=`settled`"));
}

#[test]
fn report_summarizes_cycles_percentiles_and_memory() {
    let config = L6Config::from_settings(Some(3), None);
    let cycles = vec![cycle(1, true, 30), cycle(2, true, 10), cycle(3, true, 20)];
    let report = stability_report(&config, cycles, 70, Some(100), Some(130), Some(150));
    assert_eq!(report.requested_cycles, 3);
    assert_eq!(report.completed_cycles, 3);
    assert!(report.all_green);
    assert!(report.all_green());
    assert_eq!(report.p50_cycle_ms, Some(20));
    assert_eq!(report.p99_cycle_ms, Some(30));
    assert_eq!(report.rss_delta_kib, Some(30));
    assert_eq!(report.max_rss_kib, Some(150));
}

#[test]
fn report_is_not_green_when_cycles_are_missing_or_failed() {
    let config = L6Config::from_settings(Some(3), None);
    let short = stability_report(&config, vec![cycle(1, true, 5)], 5, None, None, None);
    assert!(!short.all_green);
    assert_eq!(short.rss_delta_kib, None);
    let failed = stability_report(
        &config,
        vec![cycle(1, true, 5), cycle(2, false, 5), cycle(3, true, 5)],
        15,
        None,
        None,
        None,
    );
    assert!(!failed.all_green);
    let md = failed.to_markdown();
    assert!(md.contains("FAIL"));
}

#[test]
fn driver_stops_on_failure_and_after_last_cycle() {
    let config = L6Config::from_settings(Some(3), Some(2));
    assert_eq!(after_cycle(&config, 1, true), L6CycleAction::Pause(2));
    assert_eq!(after_cycle(&config, 1, false), L6CycleAction::Stop);
    assert_eq!(after_cycle(&config, 3, true), L6CycleAction::Stop);
    let quick = L6Config::from_settings(Some(0), None);
    assert_eq!(quick.cycles, 1);
    assert_eq!(after_cycle(&L6Config::from_settings(Some(2), None), 1, true), L6CycleAction::Continue);
}

#[test]
fn rss_samples_fold_to_their_maximum() {
    assert_eq!(fold_max_rss(None, None), None);
    assert_eq!(fold_max_rss(None, Some(5)), Some(5));
    assert_eq!(fold_max_rss(Some(7), Some(5)), Some(7));
    assert_eq!(fold_max_rss(Some(7), None), Some(7));
}

#[test]
fn sorted_copy_orders_values() {
    assert_eq!(sorted_copy(&vec![3, 1, 2, 1]), vec![1, 1, 2, 3]);
    assert_eq!(sorted_copy(&vec![]), Vec::<u128>::new());
}

#[test]
fn cycle_from_failed_d3_run_names_first_failure() {
    let d3 = D3LiveComputeSettlementReport {
        endpoint: "e".to_owned(),
        supabase_url: "s".to_owned(),
        model_id: "m".to_owned(),
        provider_node_id: Some("p".to_owned()),
        requester_node_id: None,
        tunnel_url: None,
        offer_id: None,
        job_id: None,
        uuid_job_id: None,
        settlement_id: None,
        settlement_status: None,
        actual_cost: None,
        provider_payout: None,
        requester_adjustment: None,
        subtests: vec![
            D3Subtest {
                name: "a".to_owned(),
                proves: "x".to_owned(),
                status: D3Status::Passed,
                details: vec![],
            },
            D3Subtest {
                name: "b".to_owned(),
                proves: "y".to_owned(),
                status: D3Status::Failed { reason: "line1\nline2".to_owned() },
                details: vec![],
            },
        ],
    };
    let c = cycle_result_from_d3(4, 99, d3);
    assert_eq!(c.index, 4);
    assert!(!c.green);
    assert_eq!(c.provider_node_id.as_deref(), Some("p"));
    assert_eq!(c.error.as_deref(), Some("b: line1 line2"));
}
