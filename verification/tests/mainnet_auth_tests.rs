use std::collections::HashMap;

use wire_substrate::mainnet_auth::{
    config_failure_report, optional_setting, resume_nonce, selected_endpoint, token_from_file_text,
    AuthAction, AuthStage, IssuedCredential, MainnetAuthConfig, MainnetAuthReport, MainnetAuthRun,
    MainnetAuthState, MainnetAuthStatus, MainnetIdentity, StateReadOutcome,
};

const ENDPOINT: &str = "https://newsbleach.com/api/v1";

#[derive(Default)]
struct FakeAuth {
    valid_tokens: HashMap<String, MainnetIdentity>,
    resumed_token: Option<String>,
    registered_token: Option<String>,
    calls: Vec<String>,
    disk: Option<MainnetAuthState>,
}

impl FakeAuth {
    fn validate(&mut self, token: &str) -> Result<MainnetIdentity, String> {
        self.calls.push(format!("validate:{token}"));
        self.valid_tokens
            .get(token)
            .cloned()
            .ok_or_else(|| "invalid token".to_owned())
    }

    /// Drives a run to its end the way the command-line client does.
    fn drive(&mut self, config: MainnetAuthConfig) -> MainnetAuthReport {
        let mut run = MainnetAuthRun::start(config);
        loop {
            match run.next_action() {
                AuthAction::ReadState => {
                    let outcome = match &self.disk {
                        Some(state) => StateReadOutcome::Loaded(state.clone()),
                        None => StateReadOutcome::Missing,
                    };
                    run.on_state_read(outcome);
                }
                AuthAction::ValidateToken(token) => {
                    let result = self.validate(&token);
                    match run.stage {
                        AuthStage::ValidatePersisted => run.on_persisted_token_checked(result),
                        AuthStage::ValidateSeed => run.on_seed_checked(result),
                        _ => run.on_issued_checked(result, Some("2025-01-01T00:00:00Z".to_owned())),
                    }
                }
                AuthAction::ResumeAgent { device_secret: _, agent_name } => {
                    let nonce = resume_nonce("test-nonce");
                    self.calls.push(format!("resume:{agent_name}:{nonce}"));
                    let result = self
                        .resumed_token
                        .clone()
                        .ok_or_else(|| "resume unavailable".to_owned())
                        .map(|token| IssuedCredential {
                            api_token: token,
                            agent_id: "agent-resumed".to_owned(),
                            pseudonym: "wire_agent_resumed".to_owned(),
                            operator_email: Some("operator@example.test".to_owned()),
                            source: "agent_resume".to_owned(),
                        });
                    run.on_issued(result);
                }
                AuthAction::RegisterAgent { agent_name, operator_email } => {
                    self.calls.push(format!("register:{agent_name}:{operator_email}"));
                    let result = self
                        .registered_token
                        .clone()
                        .ok_or_else(|| "register unavailable".to_owned())
                        .map(|token| IssuedCredential {
                            api_token: token,
                            agent_id: "agent-registered".to_owned(),
                            pseudonym: "wire_agent_registered".to_owned(),
                            operator_email: Some(operator_email.clone()),
                            source: "register".to_owned(),
                        });
                    run.on_issued(result);
                }
                AuthAction::PersistState(state) => {
                    self.disk = Some(state);
                    run.on_persisted(Ok(()));
                }
                AuthAction::Finish => break,
            }
        }
        run.report
    }
}

fn test_config() -> MainnetAuthConfig {
    MainnetAuthConfig {
        endpoint: ENDPOINT.to_owned(),
        agent_name: "agent-wire-substrate-node".to_owned(),
        operator_email: None,
        device_secret: None,
        seed_token: None,
        seed_token_source: None,
        state_path: "/tmp/agent-wire-substrate-node-auth-test/auth.json".to_owned(),
    }
}

fn test_identity(name: &str) -> MainnetIdentity {
    let slot = name.trim_start_matches("codex-").to_owned();
    MainnetIdentity {
        name: name.to_owned(),
        slot: slot.clone(),
        handle_path: format!("agent/playful/{slot}"),
        pseudonym: "wire_agent_test".to_owned(),
        agent_id: "123a61b2-c33d-4d4d-bab8-feea57d9c625".to_owned(),
    }
}

#[test]
fn validates_persisted_state_without_issuing_new_token() {
    let identity = test_identity("agent-wire-substrate-node");
    let state = MainnetAuthState {
        version: 1,
        endpoint: ENDPOINT.to_owned(),
        agent_name: identity.name.clone(),
        api_token: "persisted-token".to_owned(),
        agent_id: identity.agent_id.clone(),
        pseudonym: identity.pseudonym.clone(),
        handle_path: identity.handle_path.clone(),
        updated_at: "2025-01-01T00:00:00Z".to_owned(),
    };
    let mut fake = FakeAuth::default();
    fake.valid_tokens.insert("persisted-token".to_owned(), identity);
    fake.disk = Some(state);

    let report = fake.drive(test_config());

    assert!(report.all_green());
    assert_eq!(report.token_source, "persisted_state");
    assert!(fake
        .calls
        .iter()
        .all(|call| !call.starts_with("resume") && !call.starts_with("register")));
}

#[test]
fn imports_seed_token_and_persists_it_for_restart() {
    let identity = test_identity("codex-kramer");
    let mut fake = FakeAuth::default();
    fake.valid_tokens.insert("seed-token".to_owned(), identity.clone());
    let mut config = test_config();
    config.seed_token = Some("seed-token".to_owned());
    config.seed_token_source = Some("WIRE_API_TOKEN_FILE".to_owned());

    let report = fake.drive(config);

    assert!(report.all_green());
    assert_eq!(report.token_source, "WIRE_API_TOKEN_FILE");
    let persisted = fake.disk.clone().unwrap();
    assert_eq!(persisted.api_token, "seed-token");
    assert_eq!(persisted.handle_path, identity.handle_path);
    assert_eq!(persisted.updated_at, "2025-01-01T00:00:00Z");
}

#[test]
fn resumes_with_device_secret_when_no_persisted_token_exists() {
    let identity = test_identity("agent-wire-substrate-node");
    let mut fake = FakeAuth::default();
    fake.valid_tokens.insert("resumed-token".to_owned(), identity);
    fake.resumed_token = Some("resumed-token".to_owned());
    let mut config = test_config();
    config.device_secret = Some("device-secret".to_owned());

    let report = fake.drive(config);

    assert!(report.all_green());
    assert_eq!(report.token_source, "agent_resume");
    assert!(fake.calls.iter().any(|call| call.starts_with("resume:")));
    assert!(fake.disk.is_some());
}

#[test]
fn fails_closed_without_any_credential_path() {
    let mut fake = FakeAuth::default();
    let report = fake.drive(test_config());

    assert!(!report.all_green());
    assert!(matches!(
        report.subtests.last().unwrap().status,
        MainnetAuthStatus::Failed { .. }
    ));
}

#[test]
fn rejected_persisted_token_falls_back_to_registration() {
    let identity = test_identity("agent-wire-substrate-node");
    let mut fake = FakeAuth::default();
    fake.disk = Some(MainnetAuthState {
        version: 1,
        endpoint: ENDPOINT.to_owned(),
        agent_name: identity.name.clone(),
        api_token: "stale-token".to_owned(),
        agent_id: identity.agent_id.clone(),
        pseudonym: identity.pseudonym.clone(),
        handle_path: identity.handle_path.clone(),
        updated_at: "2024-01-01T00:00:00Z".to_owned(),
    });
    fake.valid_tokens.insert("fresh-token".to_owned(), identity);
    fake.registered_token = Some("fresh-token".to_owned());
    let mut config = test_config();
    config.operator_email = Some("ops@example.test".to_owned());

    let report = fake.drive(config);

    assert!(!report.all_green(), "the rejected persisted token stays reported");
    assert_eq!(report.token_source, "register");
    assert_eq!(fake.disk.unwrap().api_token, "fresh-token");
    let names: Vec<&str> = report.subtests.iter().map(|t| t.name.as_str()).collect();
    assert_eq!(
        names,
        vec![
            "auth-state-read",
            "persisted-token-validates-mainnet",
            "mainnet-credential-issued-or-imported",
            "issued-token-validates-mainnet",
            "credential-persists-to-disk",
        ]
    );
}

#[test]
fn state_for_another_endpoint_is_not_reused() {
    let identity = test_identity("agent-wire-substrate-node");
    let mut fake = FakeAuth::default();
    fake.disk = Some(MainnetAuthState {
        version: 1,
        endpoint: "https://other.example/api".to_owned(),
        agent_name: identity.name.clone(),
        api_token: "persisted-token".to_owned(),
        agent_id: identity.agent_id.clone(),
        pseudonym: identity.pseudonym.clone(),
        handle_path: identity.handle_path.clone(),
        updated_at: "x".to_owned(),
    });
    fake.valid_tokens.insert("persisted-token".to_owned(), identity);
    let report = fake.drive(test_config());
    assert!(!report.all_green());
    assert!(fake.calls.is_empty(), "the foreign token is never sent");
    let reason = match &report.subtests[1].status {
        MainnetAuthStatus::Failed { reason } => reason.clone(),
        MainnetAuthStatus::Passed => panic!("endpoint mismatch must fail"),
    };
    assert_eq!(
        reason,
        "state endpoint `https://other.example/api` did not match selected endpoint `https://newsbleach.com/api/v1`"
    );
}

#[test]
fn auth_markdown_shows_identity_and_verdict() {
    let identity = test_identity("agent-wire-substrate-node");
    let mut fake = FakeAuth::default();
    fake.valid_tokens.insert("seed".to_owned(), identity);
    let mut config = test_config();
    config.seed_token = Some("seed".to_owned());
    let report = fake.drive(config);
    assert_eq!(report.token_source, "seed_token");
    let md = report.to_markdown();
    assert!(md.starts_with("# Mainnet Auth Validation\n\nEndpoint: `https://newsbleach.com/api/v1`\n\n"));
    assert!(md.contains("## Identity\n\n- name: `agent-wire-substrate-node`\n"));
    assert!(md.contains("Mainnet auth is green"));
    assert!(md.contains("- PASS `credential-persists-to-disk`"));
    assert!(md.contains("  - token material is omitted from command output\n"));
}

#[test]
fn configuration_normalizes_settings_and_orders_errors() {
    assert_eq!(selected_endpoint(Some("https://x.example/api///")), "https://x.example/api");
    assert_eq!(selected_endpoint(None), ENDPOINT);
    assert_eq!(optional_setting(Some("  value \n")), Some("value".to_owned()));
    assert_eq!(optional_setting(Some("   ")), None);
    assert_eq!(optional_setting(None), None);

    let c = MainnetAuthConfig::from_settings(
        None,
        Some("  codex-kramer  "),
        Ok("/state.json".to_owned()),
        Some(" tok "),
        Some(Err("unused".to_owned())),
        Some("ops@example.test"),
        Some(" "),
    )
    .unwrap();
    assert_eq!(c.endpoint, ENDPOINT);
    assert_eq!(c.agent_name, "codex-kramer");
    assert_eq!(c.seed_token.as_deref(), Some("tok"));
    assert_eq!(c.seed_token_source.as_deref(), Some("WIRE_API_TOKEN"));
    assert_eq!(c.operator_email.as_deref(), Some("ops@example.test"));
    assert_eq!(c.device_secret, None);

    assert_eq!(
        MainnetAuthConfig::from_settings(Some("///"), None, Err("no home".to_owned()), None, None, None, None),
        Err("WIRE_MAINNET_ENDPOINT resolved empty".to_owned())
    );
    assert_eq!(
        MainnetAuthConfig::from_settings(None, Some(" "), Err("no home".to_owned()), None, None, None, None),
        Err("WIRE_AGENT_NAME resolved empty".to_owned())
    );
    assert_eq!(
        MainnetAuthConfig::from_settings(None, None, Err("no home".to_owned()), None, None, None, None),
        Err("no home".to_owned())
    );
    assert_eq!(
        MainnetAuthConfig::from_settings(None, None, Ok("/s".to_owned()), None, Some(Err("bad file".to_owned())), None, None),
        Err("bad file".to_owned())
    );
}

#[test]
fn token_file_must_hold_a_token() {
    assert_eq!(
        token_from_file_text("/t", " abc\n"),
        Ok(("abc".to_owned(), "WIRE_API_TOKEN_FILE".to_owned()))
    );
    assert_eq!(
        token_from_file_text("/t", "\n\t "),
        Err("WIRE_API_TOKEN_FILE `/t` did not contain a token".to_owned())
    );
}

#[test]
fn unresolved_configuration_is_reported_with_defaults() {
    let r = config_failure_report(None, None, None, "boom".to_owned());
    assert_eq!(r.endpoint, ENDPOINT);
    assert_eq!(r.requested_agent_name, "agent-wire-substrate-node");
    assert_eq!(r.state_path, "~/.wire-node/state/mainnet_auth_credential/agent-wire-substrate-node.md");
    assert_eq!(r.token_source, "unresolved");
    assert!(!r.all_green());
    assert_eq!(r.subtests[0].name, "auth-config-resolves");
}

#[test]
fn reports_read_the_same_whatever_the_seed_token() {
    let identity = test_identity("codex-kramer");
    let mut reports = Vec::new();
    for token in ["seed-token-one", "seed-token-two"] {
        let mut fake = FakeAuth::default();
        fake.valid_tokens.insert(token.to_owned(), identity.clone());
        let mut config = test_config();
        config.seed_token = Some(token.to_owned());
        config.seed_token_source = Some("WIRE_API_TOKEN_FILE".to_owned());
        let report = fake.drive(config);
        assert!(report.all_green());
        assert_eq!(fake.disk.as_ref().map(|s| s.api_token.as_str()), Some(token));
        let markdown = report.to_markdown();
        assert!(!markdown.contains(token));
        reports.push(markdown);
    }
    assert_eq!(reports[0], reports[1]);
}
