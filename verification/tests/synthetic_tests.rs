use wire_substrate::synthetic::{
    content_has_sentinel, layer5_record, Layer3Status, Layer3SyntheticReport, Layer4Status, Layer4SyntheticReport,
    Layer5Status,
};
use wire_substrate::two_graph::SyntheticBridge;

#[test]
fn layer3_report_records_outcomes_and_renders_markdown() {
    let mut report = Layer3SyntheticReport {
        name: "wave-2-layer-3-single-graph-synthetic".to_owned(),
        graph_slug: "kitty".to_owned(),
        subtests: Vec::new(),
    };
    report.record("a", "proves a", Ok(vec!["detail".to_owned()]));
    assert!(report.all_green());
    report.record("b", "proves b", Err("broken".to_owned()));
    assert!(!report.all_green());
    assert_eq!(report.subtests[1].status, Layer3Status::Failed { reason: "broken".to_owned() });
    assert!(report.subtests[1].details.is_empty());
    let md = report.to_markdown();
    assert!(md.starts_with("# Layer 3 Single-Graph Synthetic Validation\n\nSynthetic graph: kitty\n\n"));
    assert!(md.contains("One or more Layer 3 sub-tests failed"));
    assert!(md.contains("- PASS `a`: proves a\n  - detail\n"));
    assert!(md.contains("- FAIL `b`: proves b Reason: broken\n"));
}

#[test]
fn layer4_report_joins_graph_names() {
    let mut report = Layer4SyntheticReport {
        name: "wave-2-layer-4-two-graph-bridged-synthetic".to_owned(),
        graphs: vec!["mainnet".to_owned(), "kitty".to_owned()],
        subtests: Vec::new(),
    };
    report.record("x", "y", Ok(vec![]));
    assert!(report.all_green());
    assert_eq!(report.subtests[0].status, Layer4Status::Passed);
    let md = report.to_markdown();
    assert!(md.contains("Synthetic graphs: mainnet, kitty\n\n"));
    assert!(md.contains("All 9 Layer 4 sub-tests are green."));
}

#[test]
fn layer5_subtests_record_failures_without_details() {
    let t = layer5_record("n", "p", Err("r".to_owned()));
    assert_eq!(t.status, Layer5Status::Failed { reason: "r".to_owned() });
    assert!(t.details.is_empty());
}

#[test]
fn sovereign_bridge_takes_two_percent_at_par() {
    let bridge = SyntheticBridge::sovereign_mode();
    let t = bridge.transfer_credits("kitty", "mainnet", 1_000).unwrap();
    assert_eq!(t.gross, 1_000);
    assert_eq!(t.bridge_tax, 20);
    assert_eq!(t.net, 980);
    assert_eq!(t.from_graph, "kitty");
    let closed = SyntheticBridge { connected: false, ..bridge };
    assert_eq!(
        closed.transfer_credits("kitty", "mainnet", 1).err(),
        Some("bridge is disconnected".to_owned())
    );
    let greedy = SyntheticBridge { friction_bps: 20_000, ..bridge };
    assert_eq!(
        greedy.transfer_credits("kitty", "mainnet", 10).err(),
        Some("bridge tax exceeded converted transfer".to_owned())
    );
}

#[test]
fn sentinel_check_ignores_ascii_case() {
    assert!(content_has_sentinel("Reply: substrate_roundtrip_ok."));
    assert!(content_has_sentinel("SUBSTRATE_ROUNDTRIP_OK"));
    assert!(!content_has_sentinel("SUBSTRATE ROUNDTRIP OK"));
    assert!(!content_has_sentinel(""));
}
