use wire_substrate::d3::D3Status;
use wire_substrate::d3_run::{
    api_url, classify_job, failed_config_report, node_after_bootstrap, resolve_service_role_key,
    rest_url, D3Action,
    D3ConfigSummary, D3NodeInfo, D3Run, D3SettlementRow, D3Stage, JobPoll,
};
use wire_substrate::mainnet_auth::MainnetIdentity;

fn summary() -> D3ConfigSummary {
    D3ConfigSummary {
        endpoint: "https://wire.example/api/v1".to_owned(),
        supabase_url: "https://db.example".to_owned(),
        model_id: "granite-4-micro".to_owned(),
        llm_provider: "lm_studio".to_owned(),
        adapter_id: "openai-compatible".to_owned(),
        base_url: "http://127.0.0.1:1234/v1".to_owned(),
        cloudflared_path: "/data/bin/cloudflared".to_owned(),
    }
}

fn identity() -> MainnetIdentity {
    MainnetIdentity {
        name: "codex-kramer".to_owned(),
        slot: "kramer".to_owned(),
        handle_path: "agent/playful/kramer".to_owned(),
        pseudonym: "p".to_owned(),
        agent_id: "agent-1".to_owned(),
    }
}

/// Answers every stage successfully, recording the actions in order.
fn drive_green(run: &mut D3Run, actions: &mut Vec<String>) {
    loop {
        let action = run.next_action();
        match action {
            D3Action::LoadCredential => run.on_credential(Ok(identity())),
            D3Action::StartProviderServer => run.on_provider_server(Ok(40123)),
            D3Action::RegisterNode { name } => {
                actions.push(name.clone());
                run.on_node(Ok(D3NodeInfo {
                    id: format!("id-of-{name}"),
                    registration_detail: "node/register succeeded".to_owned(),
                }));
            }
            D3Action::ProvisionTunnel { node_id, local_port } => {
                actions.push(format!("tunnel {node_id} {local_port}"));
                run.on_tunnel(Ok("https://node-x.example/".to_owned()));
            }
            D3Action::Heartbeat { node_id, tunnel_url } => {
                actions.push(format!("heartbeat {node_id} {tunnel_url:?}"));
                run.on_step(Ok(()));
            }
            D3Action::PublishOffer { .. } => run.on_offer(Ok("offer-1".to_owned())),
            D3Action::PurchaseQuote => run.on_purchase(Ok(("job-1".to_owned(), "uuid-1".to_owned()))),
            D3Action::FillJob { job_id, callback_url } => {
                actions.push(format!("fill {job_id} {callback_url}"));
                run.on_fill(Ok("{\"ok\":true}".to_owned()));
            }
            D3Action::AwaitProviderCompletion => {
                run.on_provider_completed(Ok(vec!["dispatch_seen true".to_owned()]))
            }
            D3Action::AwaitJobSettled { .. } => run.on_job_settled(Ok("{\"status\":\"completed\"}".to_owned())),
            D3Action::ReadSettlement { uuid_job_id } => {
                actions.push(format!("settlement {uuid_job_id}"));
                run.on_settlement(Ok(D3SettlementRow {
                    settlement_id: Some("s-1".to_owned()),
                    settlement_status: Some("settled".to_owned()),
                    actual_cost: Some(2),
                    provider_payout: Some(2),
                    requester_adjustment: Some(0),
                    text: "{\"settlement_id\":\"s-1\"}".to_owned(),
                }));
            }
            D3Action::Finish => break,
            _ => run.on_step(Ok(())),
        }
    }
}

#[test]
fn green_run_records_every_stage_and_identifier() {
    let mut run = D3Run::start(summary(), "abcdef12-3456");
    let mut actions = Vec::new();
    drive_green(&mut run, &mut actions);
    let report = run.report;
    assert!(report.all_green());
    assert_eq!(
        actions,
        vec![
            "d3-kramer-provider-abcdef12".to_owned(),
            "d3-kramer-requester-abcdef12".to_owned(),
            "tunnel id-of-d3-kramer-provider-abcdef12 40123".to_owned(),
            "heartbeat id-of-d3-kramer-provider-abcdef12 Some(\"https://node-x.example/\")".to_owned(),
            "heartbeat id-of-d3-kramer-requester-abcdef12 None".to_owned(),
            "fill job-1 https://node-x.example/v1/compute/job-result".to_owned(),
            "settlement uuid-1".to_owned(),
        ]
    );
    let names: Vec<&str> = report.subtests.iter().map(|t| t.name.as_str()).collect();
    assert_eq!(
        names,
        vec![
            "d3-config-resolves",
            "mainnet-auth-loads",
            "local-provider-server-starts",
            "provider-node-registers",
            "requester-node-registers",
            "cloudflare-tunnel-reachable",
            "provider-offer-publishes-and-mirrors",
            "requester-purchases-real-compute-job",
            "requester-fill-dispatches-to-provider",
            "provider-executes-and-posts-settlement",
            "job-status-settled",
            "wire-settlements-row-visible",
        ]
    );
    assert_eq!(report.settlement_id.as_deref(), Some("s-1"));
    assert_eq!(report.offer_id.as_deref(), Some("offer-1"));
    assert_eq!(report.subtests[2].details, vec!["local port 40123".to_owned()]);
    assert_eq!(report.subtests[0].details[2], "llm provider lm_studio via openai-compatible at http://127.0.0.1:1234/v1");
}

#[test]
fn run_fails_closed_at_the_blocking_stage() {
    let mut run = D3Run::start(summary(), "abcdef12");
    run.on_credential(Ok(identity()));
    run.on_provider_server(Ok(1));
    run.on_node(Ok(D3NodeInfo { id: "p".to_owned(), registration_detail: "ok".to_owned() }));
    run.on_node(Ok(D3NodeInfo { id: "r".to_owned(), registration_detail: "ok".to_owned() }));
    run.on_tunnel(Ok("https://t.example".to_owned()));
    assert_eq!(run.stage, D3Stage::StartCloudflared);
    run.on_step(Ok(()));
    run.on_step(Err("tunnel health did not become reachable: HTTP 530".to_owned()));
    assert_eq!(run.stage, D3Stage::Done);
    assert!(matches!(run.next_action(), D3Action::Finish));
    let last = run.report.subtests.last().unwrap();
    assert_eq!(last.name, "cloudflare-tunnel-reachable");
    assert_eq!(last.proves, "the live D3 validation fails closed and reports the blocking stage");
    assert_eq!(
        last.status,
        D3Status::Failed { reason: "tunnel health did not become reachable: HTTP 530".to_owned() }
    );
    assert_eq!(run.report.tunnel_url.as_deref(), Some("https://t.example"));
    assert!(!run.report.all_green());
}

#[test]
fn unresolved_config_reports_defaults() {
    let r = failed_config_report(None, Some("https://db.example"), None, "SUPABASE_SERVICE_ROLE_KEY is not set".to_owned());
    assert_eq!(r.endpoint, "https://newsbleach.com/api/v1");
    assert_eq!(r.supabase_url, "https://db.example");
    assert_eq!(r.model_id, "granite-4-micro");
    assert_eq!(r.subtests.len(), 1);
    assert_eq!(r.subtests[0].name, "d3-config-resolves");
    assert!(!r.all_green());
}

#[test]
fn bootstrap_fallback_keeps_both_outcomes() {
    let ok = node_after_bootstrap(
        "HTTP 500:\nboom",
        Ok(D3NodeInfo { id: "n-1".to_owned(), registration_detail: "bootstrapped".to_owned() }),
    )
    .unwrap();
    assert_eq!(ok.id, "n-1");
    assert_eq!(ok.registration_detail, "node/register failed (HTTP 500: boom); bootstrapped");
    let err = node_after_bootstrap("a", Err("b".to_owned())).err().unwrap();
    assert_eq!(err, "node/register failed (a); service-role bootstrap also failed (b)");
}

#[test]
fn job_polls_classify_settlement_states() {
    assert_eq!(classify_job("completed", "settled"), JobPoll::Settled);
    assert_eq!(classify_job("failed", ""), JobPoll::Failed);
    assert_eq!(classify_job("completed", "failed_settlement"), JobPoll::Failed);
    assert_eq!(classify_job("running", ""), JobPoll::Pending);
}

#[test]
fn urls_join_paths_without_leading_slashes() {
    assert_eq!(api_url("https://w.example/api/v1", "/compute/fill"), "https://w.example/api/v1/compute/fill");
    assert_eq!(api_url("https://w.example/api/v1", "node/register"), "https://w.example/api/v1/node/register");
    assert_eq!(rest_url("https://db.example", "//wire_nodes"), "https://db.example/rest/v1/wire_nodes");
}

#[test]
fn service_role_key_must_be_set_and_not_blank() {
    assert_eq!(
        resolve_service_role_key(None),
        Err("SUPABASE_SERVICE_ROLE_KEY is not set".to_owned())
    );
    assert_eq!(
        resolve_service_role_key(Some("  \t ")),
        Err("SUPABASE_SERVICE_ROLE_KEY is present but empty".to_owned())
    );
    assert_eq!(
        resolve_service_role_key(Some(" key ")),
        Ok(" key ".to_owned())
    );
}

#[test]
fn missing_settlement_read_key_fails_closed_at_config() {
    let reason = resolve_service_role_key(None).unwrap_err();
    let report = failed_config_report(None, None, None, reason);
    assert!(!report.all_green());
    assert_eq!(report.subtests[0].name, "d3-config-resolves");
    assert_eq!(
        report.subtests[0].status,
        D3Status::Failed {
            reason: "SUPABASE_SERVICE_ROLE_KEY is not set".to_owned()
        }
    );
}
