use wire_substrate::contribution::{
    credential_from_state, credential_unavailable_report, validation_draft, ContributionSyncItem,
    ContributionSyncRun, ContributionSyncStatus, PersistedMainnetCredential, SyncAction,
};
use wire_substrate::mainnet_auth::{MainnetAuthState, MainnetIdentity};
use wire_substrate::text::join_endpoint;

struct FakeContributionTransport {
    identity: MainnetIdentity,
    published: ContributionSyncItem,
    own: Vec<ContributionSyncItem>,
    detail: ContributionSyncItem,
    feed: Vec<ContributionSyncItem>,
    calls: Vec<String>,
}

impl FakeContributionTransport {
    /// Drives a sync run to its end the way the command-line client does.
    fn drive(&mut self, credential: PersistedMainnetCredential) -> wire_substrate::contribution::ContributionSyncReport {
        let mut run = ContributionSyncRun::start(credential);
        loop {
            match run.next_action() {
                SyncAction::ValidateIdentity { .. } => {
                    self.calls.push("validate".to_owned());
                    run.on_identity(
                        Ok(self.identity.clone()),
                        "0f8fad5b-d9cb-469f-a165-70867728950e",
                        Some("2025-01-01T00:00:00Z"),
                    );
                }
                SyncAction::Publish { .. } => {
                    self.calls.push("publish".to_owned());
                    run.on_published(Ok(self.published.clone()));
                }
                SyncAction::ListOwn { .. } => {
                    self.calls.push("own".to_owned());
                    run.on_own_listed(Ok(self.own.clone()));
                }
                SyncAction::GetContribution { .. } => {
                    self.calls.push("detail".to_owned());
                    run.on_detail(Ok(self.detail.clone()));
                }
                SyncAction::ListFeed { .. } => {
                    self.calls.push("feed".to_owned());
                    run.on_feed(Ok(self.feed.clone()));
                }
                SyncAction::Finish => break,
            }
        }
        run.report
    }
}

fn test_credential(identity: MainnetIdentity) -> PersistedMainnetCredential {
    PersistedMainnetCredential {
        endpoint: "https://newsbleach.com/api/v1".to_owned(),
        api_token: "token".to_owned(),
        identity,
        state_path: "/tmp/agent-wire-substrate-node-auth.json".to_owned(),
    }
}

fn test_identity() -> MainnetIdentity {
    MainnetIdentity {
        name: "codex-kramer".to_owned(),
        slot: "kramer".to_owned(),
        handle_path: "agent/playful/kramer".to_owned(),
        pseudonym: "wire_agent_f50af3f9".to_owned(),
        agent_id: "123a61b2-c33d-4d4d-bab8-feea57d9c625".to_owned(),
    }
}

#[test]
fn live_sync_happy_path_publishes_own_and_peer_reads() {
    let identity = test_identity();
    let published = ContributionSyncItem {
        id: "contrib-1".to_owned(),
        handle_path: Some("playful/123/99".to_owned()),
        title: "test contribution".to_owned(),
        author_pseudo: Some(identity.pseudonym.clone()),
        agent_handle: Some(identity.handle_path.clone()),
    };
    let peer = ContributionSyncItem {
        id: "contrib-peer".to_owned(),
        handle_path: Some("playful/123/100".to_owned()),
        title: "peer contribution".to_owned(),
        author_pseudo: Some("wire_agent_peer".to_owned()),
        agent_handle: Some("agent/playful/elaine".to_owned()),
    };
    let mut transport = FakeContributionTransport {
        identity: identity.clone(),
        published: published.clone(),
        own: vec![published.clone()],
        detail: published.clone(),
        feed: vec![published, peer],
        calls: Vec::new(),
    };

    let report = transport.drive(test_credential(identity));

    assert!(report.all_green());
    assert_eq!(report.peer_sample.unwrap().id, "contrib-peer");
    assert_eq!(
        transport.calls.as_slice(),
        ["validate", "publish", "own", "detail", "feed"]
    );
}

#[test]
fn live_sync_fails_when_peer_feed_has_only_self() {
    let identity = test_identity();
    let published = ContributionSyncItem {
        id: "contrib-1".to_owned(),
        handle_path: None,
        title: "test contribution".to_owned(),
        author_pseudo: Some(identity.pseudonym.clone()),
        agent_handle: Some(identity.handle_path.clone()),
    };
    let mut transport = FakeContributionTransport {
        identity: identity.clone(),
        published: published.clone(),
        own: vec![published.clone()],
        detail: published.clone(),
        feed: vec![published],
        calls: Vec::new(),
    };

    let report = transport.drive(test_credential(identity));

    assert!(!report.all_green());
    assert!(matches!(
        report.subtests.last().unwrap().status,
        ContributionSyncStatus::Failed { .. }
    ));
}

#[test]
fn missing_own_entry_and_title_mismatch_are_reported() {
    let identity = test_identity();
    let published = ContributionSyncItem {
        id: "contrib-1".to_owned(),
        handle_path: None,
        title: "first".to_owned(),
        author_pseudo: None,
        agent_handle: None,
    };
    let mut detail = published.clone();
    detail.title = "second".to_owned();
    let mut transport = FakeContributionTransport {
        identity: identity.clone(),
        published: published.clone(),
        own: vec![],
        detail,
        feed: vec![published],
        calls: Vec::new(),
    };
    let report = transport.drive(test_credential(identity));
    let reasons: Vec<String> = report
        .subtests
        .iter()
        .filter_map(|t| match &t.status {
            ContributionSyncStatus::Failed { reason } => Some(reason.clone()),
            ContributionSyncStatus::Passed => None,
        })
        .collect();
    assert_eq!(
        reasons,
        vec![
            "own contribution list did not include `contrib-1`".to_owned(),
            "detail title mismatch: expected `first`, got `second`".to_owned(),
        ]
    );
    // An item without an author pseudonym counts as another agent's.
    assert_eq!(report.peer_sample.unwrap().id, "contrib-1");
}

#[test]
fn rejected_identity_stops_the_run() {
    let mut run = ContributionSyncRun::start(test_credential(test_identity()));
    run.on_identity(Err("GET /me returned HTTP 401: nope".to_owned()), "0f8fad5b-x", None);
    assert!(matches!(run.next_action(), SyncAction::Finish));
    assert!(!run.report.all_green());
    assert_eq!(run.report.subtests.len(), 2);
}

#[test]
fn draft_names_the_run_and_time() {
    let d = validation_draft("agent/playful/kramer", "0f8fad5b-d9cb-469f", None);
    assert_eq!(d.title, "agent-wire-substrate-node D2 live sync 0f8fad5b");
    assert!(d.body.starts_with("Reference-client D2 validation run `0f8fad5b-d9cb-469f` at `1970-01-01T00:00:00Z`."));
    assert!(d.body.contains("Authenticated identity `agent/playful/kramer` published"));
    assert_eq!(d.run_id, "0f8fad5b-d9cb-469f");
}

#[test]
fn sync_markdown_lists_items_and_subtests() {
    let identity = test_identity();
    let item = ContributionSyncItem {
        id: "c-1".to_owned(),
        handle_path: Some("playful/1/2".to_owned()),
        title: "t".to_owned(),
        author_pseudo: Some("someone-else".to_owned()),
        agent_handle: Some("agent/playful/x".to_owned()),
    };
    let mut transport = FakeContributionTransport {
        identity: identity.clone(),
        published: item.clone(),
        own: vec![item.clone()],
        detail: item.clone(),
        feed: vec![item],
        calls: Vec::new(),
    };
    let md = transport.drive(test_credential(identity)).to_markdown();
    assert!(md.starts_with("# Live Contribution Sync Validation\n\nEndpoint: `https://newsbleach.com/api/v1`\n\n"));
    assert!(md.contains("Identity: `agent/playful/kramer` (`wire_agent_f50af3f9`)\n\n"));
    assert!(md.contains("Published contribution: `c-1` / `playful/1/2`\n\n"));
    assert!(md.contains("Peer sample: `c-1` from `agent/playful/x`\n\n"));
    assert!(md.contains("Live contribution sync is green"));
    assert!(md.contains("- PASS `persisted-auth-state-loads`"));
}

#[test]
fn credential_loads_only_for_the_selected_endpoint() {
    let state = MainnetAuthState {
        version: 1,
        endpoint: "https://newsbleach.com/api/v1".to_owned(),
        agent_name: "  Codex-Kramer ".to_owned(),
        api_token: "tok".to_owned(),
        agent_id: "a-1".to_owned(),
        pseudonym: "p".to_owned(),
        handle_path: "agent/playful/kramer".to_owned(),
        updated_at: "t".to_owned(),
    };
    let c = credential_from_state(state.clone(), "https://newsbleach.com/api/v1", "/s.json".to_owned()).unwrap();
    assert_eq!(c.identity.slot, "kramer");
    assert_eq!(c.identity.name, "  Codex-Kramer ");
    assert_eq!(c.api_token, "tok");
    assert_eq!(
        credential_from_state(state, "https://other.example", "/s.json".to_owned()).err(),
        Some(
            "persisted auth endpoint `https://newsbleach.com/api/v1` does not match selected endpoint `https://other.example`"
                .to_owned()
        )
    );
}

#[test]
fn unavailable_credential_fails_the_first_step() {
    let r = credential_unavailable_report("no state".to_owned());
    assert_eq!(r.endpoint, "unresolved");
    assert!(!r.all_green());
    assert_eq!(r.subtests.len(), 1);
    assert_eq!(r.subtests[0].name, "persisted-auth-state-loads");
}

#[test]
fn endpoints_join_without_doubled_slashes() {
    assert_eq!(join_endpoint("https://x.example/api/", "/me"), "https://x.example/api/me");
    assert_eq!(join_endpoint("https://x.example/api", "/me"), "https://x.example/api/me");
}

#[test]
fn failed_publish_stops_the_run_before_any_read() {
    let mut run = ContributionSyncRun::start(test_credential(test_identity()));
    run.on_identity(Ok(test_identity()), "0f8fad5b-d9cb-469f-a165-70867728950e", None);
    assert!(matches!(run.next_action(), SyncAction::Publish { .. }));
    run.on_published(Err("POST /contributions returned HTTP 500: down".to_owned()));
    assert!(matches!(run.next_action(), SyncAction::Finish));
    assert_eq!(run.report.subtests.len(), 3);
    let last = run.report.subtests.last().unwrap();
    assert_eq!(last.name, "contribution-publishes-mainnet");
    assert_eq!(
        last.status,
        ContributionSyncStatus::Failed { reason: "POST /contributions returned HTTP 500: down".to_owned() }
    );
    assert!(run.report.subtests[..2].iter().all(|t| t.status == ContributionSyncStatus::Passed));
    assert!(run.report.published.is_none());
    assert!(run.report.peer_sample.is_none());
}
