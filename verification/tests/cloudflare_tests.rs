use wire_substrate::cloudflare::{
    classify_cloudflared_line, cloudflared_binary_path, cloudflared_download_url_for,
    cloudflared_line_marks_connected, cloudflared_line_marks_error,
    persisted_state_is_stale_for_node, resolve_tunnel_state, CloudflareTunnelDriver,
    CloudflareTunnelError, TunnelConnectionStatus, TunnelRequest, TunnelResolution, TunnelState,
};
use wire_substrate::field_error::FieldError;

#[test]
fn cloudflared_line_classifier_matches_connection_and_errors() {
    assert!(cloudflared_line_marks_connected(
        "INF Registered tunnel connection connIndex=0"
    ));
    assert!(cloudflared_line_marks_error(
        "ERR tunnel connection failed: authentication failed"
    ));
    assert!(!cloudflared_line_marks_error(
        "INF metrics server stopped because capacity changed"
    ));
}

#[test]
fn cloudflared_download_url_selects_target_artifact() {
    assert!(cloudflared_download_url_for("macos", "aarch64")
        .unwrap()
        .ends_with("cloudflared-darwin-arm64.tgz"));
    assert!(cloudflared_download_url_for("linux", "x86_64")
        .unwrap()
        .ends_with("cloudflared-linux-amd64"));
    assert_eq!(
        cloudflared_download_url_for("plan9", "x86_64"),
        Err(CloudflareTunnelError::UnsupportedPlatform)
    );
}

fn state(url: Option<&str>, token: Option<&str>) -> TunnelState {
    TunnelState {
        tunnel_id: Some("tun-1".to_owned()),
        tunnel_url: url.map(str::to_owned),
        tunnel_token: token.map(str::to_owned),
        status: TunnelConnectionStatus::Connected,
    }
}

#[test]
fn tunnel_state_detects_stale_node_url() {
    let state = state(Some("https://node-other.agent-wire.com"), Some("tok"));

    assert!(persisted_state_is_stale_for_node(&state, "current"));
    assert!(!persisted_state_is_stale_for_node(&state, "other"));
}

#[test]
fn resolution_reuses_own_tunnel_and_discards_stale_state() {
    match resolve_tunnel_state(Some(state(Some("https://node-me.agent-wire.com"), Some("tok"))), "me") {
        TunnelResolution::Reuse(s) => {
            assert_eq!(s.tunnel_token.as_deref(), Some("tok"));
            assert_eq!(s.status, TunnelConnectionStatus::Connecting);
        }
        other => panic!("expected reuse, got {other:?}"),
    }
    assert_eq!(
        resolve_tunnel_state(Some(state(Some("https://node-other.agent-wire.com"), Some("tok"))), "me"),
        TunnelResolution::DiscardStaleAndProvision
    );
    assert_eq!(
        resolve_tunnel_state(Some(state(Some("https://node-me.agent-wire.com"), None)), "me"),
        TunnelResolution::Provision
    );
    assert_eq!(resolve_tunnel_state(None, "me"), TunnelResolution::Provision);
    // Without a URL the state is not stale; it is reused when it has a token.
    assert!(matches!(
        resolve_tunnel_state(Some(state(None, Some("tok"))), "me"),
        TunnelResolution::Reuse(_)
    ));
}

#[test]
fn log_lines_classify_into_connection_status() {
    assert_eq!(
        classify_cloudflared_line("INF Connection registered connIndex=1"),
        Some(TunnelConnectionStatus::Connected)
    );
    assert_eq!(
        classify_cloudflared_line("2024 ERR failed to connect to edge"),
        Some(TunnelConnectionStatus::Error("2024 ERR failed to connect to edge".to_owned()))
    );
    assert_eq!(classify_cloudflared_line("INF update check skipped"), None);
}

#[test]
fn binary_lives_under_the_data_directory() {
    assert_eq!(cloudflared_binary_path("/data", "linux"), "/data/bin/cloudflared");
    assert_eq!(cloudflared_binary_path("/data/", "windows"), "/data/bin/cloudflared.exe");
    assert_eq!(
        cloudflared_download_url_for("windows", "x86_64").unwrap(),
        "https://github.com/cloudflare/cloudflared/releases/latest/download/cloudflared-windows-amd64.exe"
    );
}

#[test]
fn tunnel_errors_render_their_messages() {
    assert_eq!(CloudflareTunnelError::Io("disk".to_owned()).message(), "io error: disk");
    assert_eq!(
        CloudflareTunnelError::UnsupportedPlatform.message(),
        "unsupported cloudflared platform"
    );
}

fn request(local: &str) -> TunnelRequest {
    TunnelRequest {
        local_endpoint: local.to_owned(),
        requested_public_url: None,
        callbacks: Vec::new(),
    }
}

#[test]
fn driver_opens_session_from_static_url() {
    let driver = CloudflareTunnelDriver::with_static_tunnel("https://tunnel.example".to_owned());
    let mut req = request("http://127.0.0.1:8787");
    req.callbacks.push("https://node.example/callback".to_owned());

    let session = driver.open_tunnel(req).unwrap();

    assert_eq!(session.driver_name, "cloudflare");
    assert_eq!(session.public_url.as_str(), "https://tunnel.example");
    assert_eq!(session.callbacks.len(), 1);
}

#[test]
fn driver_uses_requested_public_url_when_static_url_absent() {
    let driver = CloudflareTunnelDriver::default();
    let mut req = request("http://127.0.0.1:8787");
    req.requested_public_url = Some("https://requested.example".to_owned());

    let session = driver.open_tunnel(req).unwrap();

    assert_eq!(session.public_url.as_str(), "https://requested.example");
}

#[test]
fn driver_errors_without_any_public_url() {
    let driver = CloudflareTunnelDriver::default();
    let req = request("http://127.0.0.1:8787");

    assert_eq!(
        driver.open_tunnel(req),
        Err(FieldError::EmptyField {
            field: "public_tunnel_url"
        })
    );
}

#[test]
fn static_tunnel_url_wins_over_requested_url() {
    let driver = CloudflareTunnelDriver::new(Some("https://static.example".to_owned()));
    let mut req = request("http://127.0.0.1:9000");
    req.requested_public_url = Some("https://requested.example".to_owned());

    let session = driver.open_tunnel(req).unwrap();

    assert_eq!(session.public_url, "https://static.example");
    assert_eq!(session.local_endpoint, "http://127.0.0.1:9000");
    assert_eq!(driver.tunnel_url(), Some("https://static.example".to_owned()));
}

#[test]
fn driver_from_state_reuses_persisted_url() {
    let state = TunnelState {
        tunnel_id: Some("tun-1".to_owned()),
        tunnel_url: Some("https://node-demo.agent-wire.com".to_owned()),
        tunnel_token: Some("tok".to_owned()),
        status: TunnelConnectionStatus::Connected,
    };
    let driver = CloudflareTunnelDriver::from_state(&state);
    assert_eq!(driver.driver_name(), "cloudflare");
    assert_eq!(
        driver.tunnel_url(),
        Some("https://node-demo.agent-wire.com".to_owned())
    );
}

#[test]
fn error_classifier_ignores_case() {
    assert!(cloudflared_line_marks_error("ERR TUNNEL CONNECTION FAILED"));
    assert!(cloudflared_line_marks_error("Credential ERROR while loading"));
    assert!(!cloudflared_line_marks_error("INF Credential loaded"));
}
