use wire_substrate::d3::{
    fill_error_is_retryable, fill_failure_message, find_header_end, jitter_from_hash,
    percent_encode_component, provider_completion_details, sanitize_node_handle, D3FillRetryPolicy,
    D3LiveComputeSettlementReport, D3Status, D3Subtest,
};

#[test]
fn percent_encoding_handles_handle_paths() {
    assert_eq!(
        percent_encode_component("playful/123/45"),
        "playful%2F123%2F45"
    );
}

#[test]
fn node_handle_sanitizer_keeps_stable_ascii_shape() {
    assert_eq!(
        sanitize_node_handle("D3 Kramer Provider 123"),
        "d3-kramer-provider-123"
    );
}

#[test]
fn fill_retry_classifier_catches_tunnel_propagation_errors() {
    assert!(fill_error_is_retryable(
        "HTTP 503: {\"error\":\"provider_unreachable\",\"detail\":{\"message\":\"http_530\"}}"
    ));
    assert!(fill_error_is_retryable("HTTP 502: edge unavailable"));
    assert!(fill_error_is_retryable("HTTP 504: timeout"));
    assert!(!fill_error_is_retryable("HTTP 400: malformed job"));
}

#[test]
fn fill_retry_policy_enforces_attempt_and_timeout_bounds() {
    let policy = D3FillRetryPolicy {
        timeout_secs: 30,
        max_attempts: 2,
        backoff_millis: 250,
        max_jitter_millis: 0,
    };
    // The run has only just started: no time has elapsed.
    let elapsed_nanos: u128 = 0;

    assert_eq!(
        policy
            .next_sleep("HTTP 503: provider_unreachable", 1, elapsed_nanos, "stable-key")
            .unwrap(),
        250_000_000
    );
    assert!(policy
        .next_sleep("HTTP 503: provider_unreachable", 2, elapsed_nanos, "stable-key")
        .is_none());
}

#[test]
fn fill_retry_jitter_is_deterministic_and_bounded() {
    let policy = D3FillRetryPolicy {
        timeout_secs: 30,
        max_attempts: 3,
        backoff_millis: 500,
        max_jitter_millis: 100,
    };

    let first = policy.retry_sleep_duration("stable-key", 1);
    let second = policy.retry_sleep_duration("stable-key", 1);
    assert_eq!(first, second);
    assert!(first >= 500);
    assert!(first <= 600);
}

#[test]
fn retry_pause_is_cut_at_the_timeout() {
    let policy = D3FillRetryPolicy {
        timeout_secs: 1,
        max_attempts: 10,
        backoff_millis: 5_000,
        max_jitter_millis: 0,
    };
    // 0.9 s of the 1 s budget used: only 0.1 s remains.
    assert_eq!(
        policy.next_sleep_with_jitter("provider_unreachable", 1, 900_000_000, 0),
        Some(100_000_000)
    );
    // Past the timeout nothing is retried.
    assert_eq!(
        policy.next_sleep_with_jitter("provider_unreachable", 1, 1_000_000_000, 0),
        None
    );
    // A non-retryable failure is never retried.
    assert_eq!(policy.next_sleep_with_jitter("HTTP 400", 1, 0, 0), None);
}

#[test]
fn retry_settings_fall_back_and_clamp() {
    let p = D3FillRetryPolicy::from_settings(None, None, None, None);
    assert_eq!(p.timeout_secs, 180);
    assert_eq!(p.max_attempts, 24);
    assert_eq!(p.backoff_millis, 5_000);
    assert_eq!(p.max_jitter_millis, 1_000);
    let q = D3FillRetryPolicy::from_settings(Some(0), Some(0), Some(10), Some(7));
    assert_eq!(q.timeout_secs, 1);
    assert_eq!(q.max_attempts, 1);
    assert_eq!(q.backoff_millis, 250);
    assert_eq!(q.max_jitter_millis, 7);
    let r = D3FillRetryPolicy::from_settings(None, Some(u64::MAX), None, None);
    assert_eq!(r.max_attempts, u32::MAX);
}

#[test]
fn jitter_reduces_hash_into_bound() {
    assert_eq!(jitter_from_hash(12345, 0), 0);
    assert_eq!(jitter_from_hash(12345, 100), 12345 % 101);
}

#[test]
fn fill_failure_message_mentions_attempts_after_retries() {
    assert_eq!(fill_failure_message(1, "HTTP 503".to_owned()), "HTTP 503");
    assert_eq!(
        fill_failure_message(3, "HTTP 503".to_owned()),
        "fill failed after 3 attempts with stable idempotency key: HTTP 503"
    );
}

#[test]
fn provider_completion_details_list_flags_and_ids() {
    let details = provider_completion_details(
        true,
        true,
        false,
        &Some("req-1".to_owned()),
        &None,
    );
    assert_eq!(
        details,
        vec![
            "dispatch_seen true".to_owned(),
            "requester_result_seen true".to_owned(),
            "settlement_posted false".to_owned(),
            "provider request id req-1".to_owned(),
        ]
    );
}

#[test]
fn header_end_is_found_after_request_head() {
    assert_eq!(find_header_end(b"GET / HTTP/1.1\r\nHost: x\r\n\r\nbody"), Some(23));
    assert_eq!(find_header_end(b"GET / HTTP/1.1\r\n"), None);
    assert_eq!(find_header_end(b""), None);
}

#[test]
fn sanitizer_collapses_punctuation_and_lowercases() {
    assert_eq!(sanitize_node_handle("  A__B  "), "a-b");
    assert_eq!(percent_encode_component("a b~c"), "a%20b~c");
}

fn report_with(subtests: Vec<D3Subtest>) -> D3LiveComputeSettlementReport {
    D3LiveComputeSettlementReport {
        endpoint: "https://wire.example/api/v1".to_owned(),
        supabase_url: "https://db.example".to_owned(),
        model_id: "granite-4-micro".to_owned(),
        provider_node_id: Some("p-1".to_owned()),
        requester_node_id: None,
        tunnel_url: None,
        offer_id: None,
        job_id: None,
        uuid_job_id: None,
        settlement_id: None,
        settlement_status: None,
        actual_cost: Some(2),
        provider_payout: None,
        requester_adjustment: Some(-1),
        subtests,
    }
}

#[test]
fn d3_markdown_reports_ids_economics_and_verdict() {
    let report = report_with(vec![D3Subtest {
        name: "d3-config-resolves".to_owned(),
        proves: "config".to_owned(),
        status: D3Status::Passed,
        details: vec!["endpoint x".to_owned()],
    }]);
    assert!(report.all_green());
    let md = report.to_markdown();
    assert!(md.starts_with("# D3 Live Compute Settlement Validation\n\n"));
    assert!(md.contains("- provider_node_id: `p-1`\n"));
    assert!(md.contains("- actual_cost/provider_payout/requester_adjustment: `2/0/-1`\n"));
    assert!(md.contains("D3 is green"));
    assert!(md.contains("- PASS `d3-config-resolves`: config\n  - endpoint x\n"));

    let failed = report_with(vec![D3Subtest {
        name: "mainnet-auth-loads".to_owned(),
        proves: "auth".to_owned(),
        status: D3Status::Failed { reason: "no state".to_owned() },
        details: vec![],
    }]);
    assert!(!failed.all_green());
    let md = failed.to_markdown();
    assert!(md.contains("D3 failed closed"));
    assert!(md.contains("- FAIL `mainnet-auth-loads`: auth Reason: no state\n"));
}
