use wire_substrate::v1::{
    cadence_ms, cli_surfaces, detail_for_disposition, parse_http_request_line, parse_u16,
    parse_v1_node_cli, response_status, route_template_matches, slugify, status_for_disposition,
    ComputeRouteName, InvocationModeName, V1CliCommand, V1CliError, V1CliRequest, V1HttpRequest,
    V1IdentityStore, V1ProtocolStatus, V1SurfaceDisposition,
};
use wire_substrate::v1::{
    maintenance_disposition, maintenance_implementation, mcp_disposition, MaintenanceImplementation,
    MaintenanceTask, McpTool,
};

fn args(v: &[&str]) -> Vec<String> {
    v.iter().map(|s| s.to_string()).collect()
}

#[test]
fn cli_manifest_lists_every_command_as_essential() {
    let cli = cli_surfaces();
    assert_eq!(cli.len(), 21);
    assert!(cli.iter().any(|s| s.command == V1CliCommand::RuntimeSmoke));
    assert!(cli.iter().all(|s| s.disposition == V1SurfaceDisposition::Essential));
    assert_eq!(cli[0].name, "surface manifest");
    assert_eq!(V1CliCommand::MaintenanceScheduleTick.name(), "maintenance schedule-tick");
}

#[test]
fn dispositions_map_to_statuses_and_details() {
    assert_eq!(status_for_disposition(V1SurfaceDisposition::NiceToHave), V1ProtocolStatus::Ready);
    assert_eq!(status_for_disposition(V1SurfaceDisposition::Deferred), V1ProtocolStatus::Deferred);
    assert_eq!(status_for_disposition(V1SurfaceDisposition::NotInV1), V1ProtocolStatus::StubbedOutOfV1);
    assert_eq!(
        detail_for_disposition(V1SurfaceDisposition::Essential, "HTTP route binding"),
        "HTTP route binding is in the V1 node surface and ready for protocol-edge wiring"
    );
}

#[test]
fn slugs_are_lowercase_dashed_and_bounded() {
    assert_eq!(slugify("WS5 Flow!"), "ws5-flow");
    assert_eq!(slugify("--Hello,,  World--"), "hello-world");
    assert_eq!(slugify("!!!"), "action");
    assert_eq!(slugify(""), "action");
    let long = "a".repeat(100);
    assert_eq!(slugify(&long).len(), 48);
}

#[test]
fn request_lines_need_three_words() {
    let r = parse_http_request_line("GET /wire/pulse HTTP/1.1").unwrap();
    assert_eq!(r, V1HttpRequest::new("GET", "/wire/pulse"));
    assert_eq!(
        parse_http_request_line("GET /wire/pulse"),
        Err("invalid HTTP request line".to_owned())
    );
    assert!(parse_http_request_line("  POST\t/x   HTTP/1.0 ").is_ok());
}

#[test]
fn response_status_reads_the_status_line() {
    assert_eq!(response_status("HTTP/1.1 200 OK\r\ncontent-type: x\r\n\r\n{}"), 200);
    assert_eq!(response_status("HTTP/1.1 404 Not Found"), 404);
    assert_eq!(response_status(""), 0);
    assert_eq!(response_status("HTTP/1.1 99999 Huge"), 0);
    assert_eq!(response_status("garbage"), 0);
    assert_eq!(parse_u16("+7"), Some(7));
    assert_eq!(parse_u16("65535"), Some(65535));
    assert_eq!(parse_u16("65536"), None);
    assert_eq!(parse_u16("+"), None);
    assert_eq!(parse_u16("-1"), None);
    assert_eq!(parse_u16("007"), Some(7));
}

#[test]
fn route_templates_match_placeholders() {
    assert!(route_template_matches("/compute/jobs/{job_id}", "/compute/jobs/abc"));
    assert!(route_template_matches("/wire/pulse", "wire/pulse/"));
    assert!(!route_template_matches("/compute/jobs/{job_id}", "/compute/jobs"));
    assert!(!route_template_matches("/wire/pulse", "/wire/pause"));
}

#[test]
fn maintenance_cadences() {
    assert_eq!(cadence_ms("every_5_minutes"), 300_000);
    assert_eq!(cadence_ms("hourly"), 3_600_000);
    assert_eq!(cadence_ms("daily"), 86_400_000);
    assert_eq!(cadence_ms("weekly"), 0);
}

#[test]
fn identity_store_lives_in_the_state_directory() {
    assert_eq!(V1IdentityStore::new("/tmp/state").state_file(), "/tmp/state/v1-identity.json");
    assert_eq!(V1IdentityStore::new("/tmp/state/").state_file(), "/tmp/state/v1-identity.json");
}

#[test]
fn cli_grammar_routes_commands_and_refuses_bad_ones() {
    assert_eq!(parse_v1_node_cli(&args(&[])), Ok(None));
    assert_eq!(parse_v1_node_cli(&args(&["auth"])), Ok(None));
    assert_eq!(parse_v1_node_cli(&args(&["v1-surface"])), Ok(Some(V1CliRequest::SurfaceManifest)));
    assert_eq!(
        parse_v1_node_cli(&args(&["mcp", "dispatch", "wire_pulse"])),
        Ok(Some(V1CliRequest::McpDispatch { tool: "wire_pulse".to_owned() }))
    );
    assert_eq!(
        parse_v1_node_cli(&args(&["mcp", "dispatch"])),
        Err(V1CliError::MissingArgument("mcp dispatch <tool_name>".to_owned()))
    );
    assert_eq!(
        parse_v1_node_cli(&args(&["http", "dispatch", "GET", "/wire/pulse"])),
        Ok(Some(V1CliRequest::HttpDispatch { method: "GET".to_owned(), path: "/wire/pulse".to_owned() }))
    );
    assert_eq!(
        parse_v1_node_cli(&args(&["chain", "compile", "flow.yaml"])),
        Ok(Some(V1CliRequest::ChainCompile { path: "flow.yaml".to_owned(), mode: InvocationModeName::Quote }))
    );
    assert_eq!(
        parse_v1_node_cli(&args(&["chain", "execute", "flow.yaml"])),
        Ok(Some(V1CliRequest::ChainExecute { path: "flow.yaml".to_owned(), mode: InvocationModeName::Trusted }))
    );
    assert_eq!(
        parse_v1_node_cli(&args(&["chain", "compile", "flow.yaml", "yolo"])),
        Err(V1CliError::UnknownCommand("invocation mode yolo".to_owned()))
    );
    assert_eq!(
        parse_v1_node_cli(&args(&["chain"])),
        Err(V1CliError::MissingArgument("chain subcommand".to_owned()))
    );
    assert_eq!(
        parse_v1_node_cli(&args(&["identity", "persist", "/tmp/s"])),
        Ok(Some(V1CliRequest::IdentityPersist { state_dir: Some("/tmp/s".to_owned()) }))
    );
    assert_eq!(parse_v1_node_cli(&args(&["identity"])), Ok(Some(V1CliRequest::IdentityStatus)));
    assert_eq!(
        parse_v1_node_cli(&args(&["compute"])),
        Ok(Some(V1CliRequest::Compute { route: ComputeRouteName::Jobs }))
    );
    assert_eq!(
        parse_v1_node_cli(&args(&["compute", "offers"])),
        Ok(Some(V1CliRequest::Compute { route: ComputeRouteName::Offers }))
    );
    assert_eq!(
        parse_v1_node_cli(&args(&["compute", "mine"])),
        Err(V1CliError::UnknownCommand("compute mine".to_owned()))
    );
    assert_eq!(
        parse_v1_node_cli(&args(&["maintenance", "tick"])),
        Ok(Some(V1CliRequest::MaintenanceRunOnce))
    );
    assert_eq!(
        parse_v1_node_cli(&args(&["runtime"])),
        Ok(Some(V1CliRequest::RuntimeSmoke { state_dir: None }))
    );
}

#[test]
fn mcp_tools_are_classified_for_v1() {
    assert_eq!(mcp_disposition(McpTool::WireWait), V1SurfaceDisposition::Essential);
    assert_eq!(mcp_disposition(McpTool::WireCorrect), V1SurfaceDisposition::Essential);
    assert_eq!(mcp_disposition(McpTool::WireBrowse), V1SurfaceDisposition::NiceToHave);
    assert_eq!(mcp_disposition(McpTool::WireRetract), V1SurfaceDisposition::NiceToHave);
    assert_eq!(mcp_disposition(McpTool::WireCircles), V1SurfaceDisposition::Deferred);
    assert_eq!(mcp_disposition(McpTool::WireMeshStatus), V1SurfaceDisposition::Deferred);
}

#[test]
fn maintenance_tasks_split_into_local_and_stubbed() {
    assert_eq!(
        maintenance_implementation(MaintenanceTask::PurchaseExpiry),
        MaintenanceImplementation::Local
    );
    assert_eq!(
        maintenance_implementation(MaintenanceTask::MarketSnapshot),
        MaintenanceImplementation::Local
    );
    assert_eq!(
        maintenance_implementation(MaintenanceTask::Sweep),
        MaintenanceImplementation::StubbedFuture
    );
    assert_eq!(
        maintenance_disposition(MaintenanceTask::WorkerLivenessCheck),
        V1SurfaceDisposition::Essential
    );
    assert_eq!(
        maintenance_disposition(MaintenanceTask::MarketSnapshotRetention),
        V1SurfaceDisposition::NiceToHave
    );
    assert_eq!(
        maintenance_disposition(MaintenanceTask::ObservationRetention),
        V1SurfaceDisposition::Deferred
    );
}

#[test]
fn identity_login_and_resume_start_the_auth_run() {
    assert_eq!(
        parse_v1_node_cli(&args(&["identity", "resume"])),
        Ok(Some(V1CliRequest::AuthRun))
    );
    assert_eq!(
        parse_v1_node_cli(&args(&["identity", "login"])),
        Ok(Some(V1CliRequest::AuthRun))
    );
    assert_eq!(parse_v1_node_cli(&args(&["auth"])), Ok(None));
}
