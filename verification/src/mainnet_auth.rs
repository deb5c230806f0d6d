//! Mainnet authentication of the reference client.
//!
//! The client reuses a persisted credential when it still validates and
//! otherwise obtains one (an imported seed token, an agent resume with the
//! device secret, or a fresh registration), validates it and persists it. The
//! run is a state machine: `MainnetAuthRun::next_action` names the outside work
//! to perform and the `on_*` methods take its outcome.
use vstd::prelude::*;

use crate::report::{
    all_passed_views, failed_view, labelled, lines_view, one_line, passed_view, push_subtest_md,
    subtests_md, ticked, SubtestView,
};
use crate::text::{owned, str_eq, strip_trailing, trim, trim_trailing_slashes, trimmed};

verus! {

#[derive(Debug, Clone, PartialEq, Eq)]
pub struct MainnetIdentity {
    pub name: String,
    pub slot: String,
    pub handle_path: String,
    pub pseudonym: String,
    pub agent_id: String,
}

#[derive(Debug, Clone, PartialEq, Eq)]
pub enum MainnetAuthStatus {
    Passed,
    Failed { reason: String },
}

#[derive(Debug, Clone, PartialEq, Eq)]
pub struct MainnetAuthSubtest {
    pub name: String,
    pub proves: String,
    pub status: MainnetAuthStatus,
    pub details: Vec<String>,
}

#[derive(Debug, Clone, PartialEq, Eq)]
pub struct MainnetAuthReport {
    pub endpoint: String,
    pub requested_agent_name: String,
    pub state_path: String,
    pub token_source: String,
    pub identity: Option<MainnetIdentity>,
    pub subtests: Vec<MainnetAuthSubtest>,
}

pub open spec fn auth_subtest_view(t: MainnetAuthSubtest) -> SubtestView {
    SubtestView {
        name: t.name@,
        proves: t.proves@,
        reason: match t.status {
            MainnetAuthStatus::Passed => None,
            MainnetAuthStatus::Failed { reason } => Some(reason@),
        },
        details: lines_view(t.details@),
    }
}

pub open spec fn auth_subtests_view(v: Seq<MainnetAuthSubtest>) -> Seq<SubtestView> {
    v.map_values(|t: MainnetAuthSubtest| auth_subtest_view(t))
}

pub open spec fn auth_all_green(r: MainnetAuthReport) -> bool {
    all_passed_views(auth_subtests_view(r.subtests@))
}

pub open spec fn identity_md(i: Option<MainnetIdentity>) -> Seq<char> {
    match i {
        Some(id) => "## Identity\n\n"@ + "- name: `"@ + id.name@ + "`\n"@ + "- handle_path: `"@
            + id.handle_path@ + "`\n"@ + "- pseudonym: `"@ + id.pseudonym@ + "`\n"@ + "- agent_id: `"@
            + id.agent_id@ + "`\n\n"@,
        None => Seq::empty(),
    }
}

pub open spec fn auth_markdown(r: MainnetAuthReport) -> Seq<char> {
    "# Mainnet Auth Validation\n\n"@ + "Endpoint: `"@ + r.endpoint@ + "`\n\n"@ + "Requested agent: `"@
        + r.requested_agent_name@ + "`\n\n"@ + "State file: `"@ + r.state_path@ + "`\n\n"@
        + "Token source: `"@ + r.token_source@ + "`\n\n"@ + identity_md(r.identity) + "## Result\n\n"@
        + (if auth_all_green(r) {
        "Mainnet auth is green; the reference client has a validated persisted credential.\n\n"@
    } else {
        "Mainnet auth failed closed; see the sub-test reasons below.\n\n"@
    }) + "## Sub-tests\n\n"@ + subtests_md(auth_subtests_view(r.subtests@))
}

impl MainnetAuthSubtest {
    fn reason(&self) -> (r: Option<&str>)
        ensures
            match r {
                Some(x) => auth_subtest_view(*self).reason == Some(x@),
                None => auth_subtest_view(*self).reason is None,
            },
    {
        match &self.status {
            MainnetAuthStatus::Passed => None,
            MainnetAuthStatus::Failed { reason } => Some(reason.as_str()),
        }
    }
}

impl MainnetAuthReport {
    /// Whether every sub-test passed.
    pub fn all_green(&self) -> (r: bool)
        ensures
            r == auth_all_green(*self),
    {
        let mut i: usize = 0;
        while i < self.subtests.len()
            invariant
                i <= self.subtests.len(),
                forall|k: int| 0 <= k < i ==> #[trigger] auth_subtests_view(self.subtests@)[k].reason is None,
            decreases self.subtests.len() - i,
        {
            match &self.subtests[i].status {
                MainnetAuthStatus::Passed => {},
                MainnetAuthStatus::Failed { .. } => {
                    assert(auth_subtests_view(self.subtests@)[i as int].reason is Some);
                    return false;
                },
            }
            i = i + 1;
        }
        true
    }

    /// Markdown rendering: endpoint, requested agent, state file, token source,
    /// the validated identity, the verdict and one line per sub-test.
    pub fn to_markdown(&self) -> (out: String)
        ensures
            out@ == auth_markdown(*self),
    {
        let mut out = owned("# Mainnet Auth Validation\n\n");
        out.append("Endpoint: `");
        out.append(self.endpoint.as_str());
        out.append("`\n\n");
        out.append("Requested agent: `");
        out.append(self.requested_agent_name.as_str());
        out.append("`\n\n");
        out.append("State file: `");
        out.append(self.state_path.as_str());
        out.append("`\n\n");
        out.append("Token source: `");
        out.append(self.token_source.as_str());
        out.append("`\n\n");
        let ghost before_identity = out@;
        match &self.identity {
            Some(identity) => {
                out.append("## Identity\n\n");
                out.append("- name: `");
                out.append(identity.name.as_str());
                out.append("`\n");
                out.append("- handle_path: `");
                out.append(identity.handle_path.as_str());
                out.append("`\n");
                out.append("- pseudonym: `");
                out.append(identity.pseudonym.as_str());
                out.append("`\n");
                out.append("- agent_id: `");
                out.append(identity.agent_id.as_str());
                out.append("`\n\n");
            },
            None => {},
        }
        assert(out@ =~= before_identity + identity_md(self.identity));
        out.append("## Result\n\n");
        out.append(if self.all_green() {
            "Mainnet auth is green; the reference client has a validated persisted credential.\n\n"
        } else {
            "Mainnet auth failed closed; see the sub-test reasons below.\n\n"
        });
        out.append("## Sub-tests\n\n");
        let ghost head = out@;
        let ghost views = auth_subtests_view(self.subtests@);
        let mut i: usize = 0;
        while i < self.subtests.len()
            invariant
                i <= self.subtests.len(),
                views == auth_subtests_view(self.subtests@),
                out@ == head + subtests_md(views.subrange(0, i as int)),
            decreases self.subtests.len() - i,
        {
            let t = &self.subtests[i];
            push_subtest_md(&mut out, t.name.as_str(), t.proves.as_str(), t.reason(), &t.details);
            assert(views.subrange(0, i + 1).drop_last() =~= views.subrange(0, i as int));
            i = i + 1;
            assert(out@ =~= head + subtests_md(views.subrange(0, i as int)));
        }
        assert(views.subrange(0, views.len() as int) =~= views);
        out
    }
}

/// A passed sub-test.
pub fn passed_step(name: &str, proves: &str, details: Vec<String>) -> (r: MainnetAuthSubtest)
    ensures
        auth_subtest_view(r) == passed_view(name@, proves@, lines_view(details@)),
{
    let r = MainnetAuthSubtest { name: owned(name), proves: owned(proves), status: MainnetAuthStatus::Passed, details };
    assert(auth_subtest_view(r) =~= passed_view(name@, proves@, lines_view(details@)));
    r
}

/// A failed sub-test with no details.
pub fn failed_step(name: &str, proves: &str, reason: String) -> (r: MainnetAuthSubtest)
    ensures
        auth_subtest_view(r) == failed_view(name@, proves@, reason@),
{
    let r = MainnetAuthSubtest {
        name: owned(name),
        proves: owned(proves),
        status: MainnetAuthStatus::Failed { reason },
        details: Vec::new(),
    };
    assert(auth_subtest_view(r) =~= failed_view(name@, proves@, reason@));
    r
}

/// Where the client looks for credentials.
#[derive(Debug, Clone, PartialEq, Eq)]
pub struct MainnetAuthConfig {
    pub endpoint: String,
    pub agent_name: String,
    pub operator_email: Option<String>,
    pub device_secret: Option<String>,
    pub seed_token: Option<String>,
    pub seed_token_source: Option<String>,
    /// The state file path as it is shown in reports.
    pub state_path: String,
}

/// The persisted credential record.
#[derive(Debug, Clone, PartialEq, Eq)]
pub struct MainnetAuthState {
    pub version: u32,
    pub endpoint: String,
    pub agent_name: String,
    pub api_token: String,
    pub agent_id: String,
    pub pseudonym: String,
    pub handle_path: String,
    pub updated_at: String,
}

impl MainnetAuthState {
    /// A field-by-field copy.
    pub fn duplicate(&self) -> (r: Self)
        ensures
            r == *self,
    {
        MainnetAuthState {
            version: self.version,
            endpoint: self.endpoint.clone(),
            agent_name: self.agent_name.clone(),
            api_token: self.api_token.clone(),
            agent_id: self.agent_id.clone(),
            pseudonym: self.pseudonym.clone(),
            handle_path: self.handle_path.clone(),
            updated_at: self.updated_at.clone(),
        }
    }
}

/// A credential returned by an issuer.
#[derive(Debug, Clone, PartialEq, Eq)]
pub struct IssuedCredential {
    pub api_token: String,
    pub agent_id: String,
    pub pseudonym: String,
    pub operator_email: Option<String>,
    pub source: String,
}

/// What reading the state file found.
pub enum StateReadOutcome {
    Missing,
    Loaded(MainnetAuthState),
    Invalid(String),
    Unreadable(String),
}

/// Where the run stands; each stage but `Done` waits for one outside result.
#[derive(Debug, Clone, Copy, PartialEq, Eq, Structural)]
pub enum AuthStage {
    ReadState,
    ValidatePersisted,
    ValidateSeed,
    ResumeAgent,
    RegisterAgent,
    ValidateIssued,
    PersistState,
    Done,
}

/// The outside work the run needs next.
pub enum AuthAction {
    ReadState,
    ValidateToken(String),
    ResumeAgent { device_secret: String, agent_name: String },
    RegisterAgent { agent_name: String, operator_email: String },
    PersistState(MainnetAuthState),
    Finish,
}

pub struct MainnetAuthRun {
    pub config: MainnetAuthConfig,
    pub report: MainnetAuthReport,
    pub stage: AuthStage,
    /// The persisted state being revalidated.
    pub persisted: Option<MainnetAuthState>,
    /// The credential being validated or persisted.
    pub issued: Option<IssuedCredential>,
    /// The record to persist.
    pub pending: Option<MainnetAuthState>,
}

pub open spec fn state_read_proves() -> Seq<char> {
    "the reference client can check whether a persisted credential exists"@
}

pub open spec fn persisted_proves() -> Seq<char> {
    "restart re-auth uses the on-disk credential without issuing a new token"@
}

pub open spec fn endpoint_match_proves() -> Seq<char> {
    "the cached credential is bound to the selected mainnet endpoint"@
}

pub open spec fn seed_proves() -> Seq<char> {
    "an externally issued mainnet credential can be validated before persistence"@
}

pub open spec fn issued_proves() -> Seq<char> {
    "the reference client obtains a live mainnet bearer credential before writing state"@
}

pub open spec fn issued_valid_proves() -> Seq<char> {
    "the credential identifies as a real mainnet Wire handle"@
}

pub open spec fn persist_proves() -> Seq<char> {
    "the restart path can reload the mainnet credential from the reference-client state file"@
}

pub open spec fn no_issuer_reason() -> Seq<char> {
    "set WIRE_API_TOKEN, WIRE_API_TOKEN_FILE, WIRE_DEVICE_SECRET, or WIRE_OPERATOR_EMAIL"@
}

/// The nonce an agent resume is sent with: the client's name and a fresh
/// unique id.
pub fn resume_nonce(unique_id: &str) -> (r: String)
    ensures
        r@ == "agent-wire-substrate-node-"@ + unique_id@,
{
    let mut r = owned("agent-wire-substrate-node-");
    r.append(unique_id);
    r
}

/// The issuer stage the configuration selects, in order of preference: an
/// imported seed token, the device secret, the operator email.
pub open spec fn issuer_stage(c: MainnetAuthConfig) -> AuthStage {
    if c.seed_token is Some {
        AuthStage::ValidateSeed
    } else if c.device_secret is Some {
        AuthStage::ResumeAgent
    } else if c.operator_email is Some {
        AuthStage::RegisterAgent
    } else {
        AuthStage::Done
    }
}

/// The run keeps everything but the sub-test list and the stage.
pub open spec fn same_report_header(a: MainnetAuthReport, b: MainnetAuthReport) -> bool {
    &&& a.endpoint == b.endpoint
    &&& a.requested_agent_name == b.requested_agent_name
    &&& a.state_path == b.state_path
}

/// After choosing an issuer from `prior`: the run waits on the selected
/// issuer, or, with none configured, fails closed.
pub open spec fn issuer_chosen(prior: MainnetAuthRun, next: MainnetAuthRun) -> bool {
    &&& next.config == prior.config
    &&& next.stage == issuer_stage(prior.config)
    &&& next.report.token_source == prior.report.token_source
    &&& next.report.identity == prior.report.identity
    &&& same_report_header(next.report, prior.report)
    &&& if issuer_stage(prior.config) == AuthStage::Done {
        auth_subtests_view(next.report.subtests@) == auth_subtests_view(prior.report.subtests@).push(
            failed_view("mainnet-credential-issued-or-imported"@, issued_proves(), no_issuer_reason()),
        )
    } else {
        auth_subtests_view(next.report.subtests@) == auth_subtests_view(prior.report.subtests@)
    }
}

/// What choosing an issuer under `config` appends to the sub-tests: nothing
/// when an issuer is configured, otherwise the failed issuer step.
pub open spec fn issuer_tail(config: MainnetAuthConfig) -> Seq<SubtestView> {
    if issuer_stage(config) == AuthStage::Done {
        seq![failed_view("mainnet-credential-issued-or-imported"@, issued_proves(), no_issuer_reason())]
    } else {
        Seq::empty()
    }
}

/// The run as `start` leaves it: nothing resolved yet and the state file to
/// read next.
pub open spec fn auth_started(config: MainnetAuthConfig, r: MainnetAuthRun) -> bool {
    &&& r.config == config
    &&& r.stage == AuthStage::ReadState
    &&& r.report.endpoint == config.endpoint
    &&& r.report.requested_agent_name == config.agent_name
    &&& r.report.state_path == config.state_path
    &&& r.report.token_source@ == "unresolved"@
    &&& r.report.identity is None
    &&& r.report.subtests@.len() == 0
    &&& r.persisted is None
    &&& r.issued is None
    &&& r.pending is None
}

/// What reading the state file (`outcome`) makes of the run `pre`: a loaded
/// state bound to the selected endpoint is revalidated next; otherwise the
/// run records what it found and moves on to an issuer.
pub open spec fn state_read_step(pre: MainnetAuthRun, outcome: StateReadOutcome, post: MainnetAuthRun) -> bool {
    let before = auth_subtests_view(pre.report.subtests@);
    let after = auth_subtests_view(post.report.subtests@);
    let tail = issuer_tail(pre.config);
    &&& match outcome {
        StateReadOutcome::Loaded(state) => {
            let read = passed_view(
                "auth-state-read"@,
                state_read_proves(),
                seq!["loaded `"@ + pre.config.state_path@ + "`"@],
            );
            if state.endpoint@ == pre.config.endpoint@ {
                &&& post.stage == AuthStage::ValidatePersisted
                &&& post.persisted == Some(state)
                &&& after == before.push(read)
            } else {
                &&& after == before.push(read).push(
                    failed_view(
                        "persisted-token-endpoint-match"@,
                        endpoint_match_proves(),
                        "state endpoint `"@ + state.endpoint@ + "` did not match selected endpoint `"@
                            + pre.config.endpoint@ + "`"@,
                    ),
                ) + tail
                &&& post.stage == issuer_stage(pre.config)
                &&& post.persisted == pre.persisted
            }
        },
        StateReadOutcome::Missing => {
            &&& after == before.push(
                passed_view("auth-state-read"@, state_read_proves(), seq!["no persisted auth state yet"@]),
            ) + tail
            &&& post.stage == issuer_stage(pre.config)
            &&& post.persisted == pre.persisted
        },
        StateReadOutcome::Invalid(e) => {
            &&& after == before.push(
                failed_view("auth-state-read"@, state_read_proves(), "state JSON was invalid: "@ + e@),
            ) + tail
            &&& post.stage == issuer_stage(pre.config)
            &&& post.persisted == pre.persisted
        },
        StateReadOutcome::Unreadable(e) => {
            &&& after == before.push(
                failed_view("auth-state-read"@, state_read_proves(), "state file could not be read: "@ + e@),
            ) + tail
            &&& post.stage == issuer_stage(pre.config)
            &&& post.persisted == pre.persisted
        },
    }
    &&& post.config == pre.config
    &&& post.report.token_source == pre.report.token_source
    &&& post.report.identity == pre.report.identity
    &&& same_report_header(post.report, pre.report)
    &&& post.issued == pre.issued
    &&& post.pending == pre.pending
}

/// What the validation of the persisted token (`result`) makes of the run
/// `pre`: a valid token ends the run green without issuing a new credential;
/// a rejected one moves on to an issuer.
pub open spec fn persisted_check_step(
    pre: MainnetAuthRun,
    result: Result<MainnetIdentity, String>,
    post: MainnetAuthRun,
) -> bool {
    let before = auth_subtests_view(pre.report.subtests@);
    let after = auth_subtests_view(post.report.subtests@);
    let handle = pre.persisted->0.handle_path@;
    &&& match result {
        Ok(identity) => {
            &&& post.stage == AuthStage::Done
            &&& post.report.token_source@ == "persisted_state"@
            &&& post.report.identity == Some(identity)
            &&& after == before.push(
                passed_view(
                    "persisted-token-validates-mainnet"@,
                    persisted_proves(),
                    seq!["loaded persisted identity for `"@ + handle + "`"@],
                ),
            )
        },
        Err(reason) => {
            &&& after == before.push(
                failed_view(
                    "persisted-token-validates-mainnet"@,
                    persisted_proves(),
                    "persisted token was not accepted: "@ + reason@,
                ),
            ) + issuer_tail(pre.config)
            &&& post.stage == issuer_stage(pre.config)
            &&& post.report.token_source == pre.report.token_source
            &&& post.report.identity == pre.report.identity
        },
    }
    &&& post.config == pre.config
    &&& same_report_header(post.report, pre.report)
    &&& post.persisted == pre.persisted
    &&& post.issued == pre.issued
    &&& post.pending == pre.pending
}

/// What an issuer's answer (`result`) makes of the run `pre`: a credential is
/// validated next; an error fails the run.
pub open spec fn issue_step(pre: MainnetAuthRun, result: Result<IssuedCredential, String>, post: MainnetAuthRun) -> bool {
    let before = auth_subtests_view(pre.report.subtests@);
    let after = auth_subtests_view(post.report.subtests@);
    &&& match result {
        Ok(c) => {
            &&& post.stage == AuthStage::ValidateIssued
            &&& post.issued == Some(c)
            &&& post.report.token_source == c.source
            &&& after == before.push(
                passed_view(
                    "mainnet-credential-issued-or-imported"@,
                    issued_proves(),
                    seq!["source `"@ + c.source@ + "` returned agent `"@ + c.agent_id@ + "`"@],
                ),
            )
        },
        Err(reason) => {
            &&& post.stage == AuthStage::Done
            &&& post.issued == pre.issued
            &&& post.report.token_source == pre.report.token_source
            &&& after == before.push(failed_view("mainnet-credential-issued-or-imported"@, issued_proves(), reason@))
        },
    }
    &&& post.config == pre.config
    &&& post.report.identity == pre.report.identity
    &&& same_report_header(post.report, pre.report)
    &&& post.persisted == pre.persisted
    &&& post.pending == pre.pending
}

/// What the validation of the imported seed token (`result`) makes of the
/// run `pre`: a valid token becomes the issued credential, sourced from where
/// it was imported (`seed_token` by default); a rejected one fails the run.
pub open spec fn seed_check_step(pre: MainnetAuthRun, result: Result<MainnetIdentity, String>, post: MainnetAuthRun) -> bool {
    let before = auth_subtests_view(pre.report.subtests@);
    let after = auth_subtests_view(post.report.subtests@);
    let seed = pre.config.seed_token->0;
    &&& match result {
        Ok(identity) => {
            let source = match pre.config.seed_token_source {
                Some(s) => s@,
                None => "seed_token"@,
            };
            &&& post.stage == AuthStage::ValidateIssued
            &&& post.issued matches Some(c) && c.api_token == seed && c.agent_id == identity.agent_id
                && c.pseudonym == identity.pseudonym && c.operator_email is None && c.source@ == source
            &&& post.report.token_source@ == source
            &&& after == before.push(
                passed_view("seed-token-validates-mainnet"@, seed_proves(), seq!["validated `"@ + identity.handle_path@ + "`"@]),
            ).push(
                passed_view(
                    "mainnet-credential-issued-or-imported"@,
                    issued_proves(),
                    seq!["source `"@ + source + "` returned agent `"@ + identity.agent_id@ + "`"@],
                ),
            )
        },
        Err(reason) => {
            &&& post.stage == AuthStage::Done
            &&& post.issued == pre.issued
            &&& post.report.token_source == pre.report.token_source
            &&& after == before.push(
                failed_view(
                    "mainnet-credential-issued-or-imported"@,
                    issued_proves(),
                    "seed token was not accepted: "@ + reason@,
                ),
            )
        },
    }
    &&& post.config == pre.config
    &&& post.report.identity == pre.report.identity
    &&& same_report_header(post.report, pre.report)
    &&& post.persisted == pre.persisted
    &&& post.pending == pre.pending
}

/// What the validation of the issued credential (`result`) makes of the run
/// `pre`: a valid one is to be persisted, stamped with the formatted current
/// time `now` (the epoch when the time could not be formatted); a rejected
/// one fails the run.
pub open spec fn issued_check_step(
    pre: MainnetAuthRun,
    result: Result<MainnetIdentity, String>,
    now: Option<String>,
    post: MainnetAuthRun,
) -> bool {
    let before = auth_subtests_view(pre.report.subtests@);
    let after = auth_subtests_view(post.report.subtests@);
    let c = pre.issued->0;
    let stamp = match now {
        Some(t) => t@,
        None => "1970-01-01T00:00:00Z"@,
    };
    &&& match result {
        Ok(identity) => {
            &&& post.stage == AuthStage::PersistState
            &&& post.report.identity == Some(identity)
            &&& post.pending matches Some(p) && p.version == 1 && p.endpoint == pre.config.endpoint
                && p.agent_name == identity.name && p.api_token == c.api_token && p.agent_id == identity.agent_id
                && p.pseudonym == identity.pseudonym && p.handle_path == identity.handle_path && p.updated_at@ == stamp
            &&& after == before.push(
                passed_view(
                    "issued-token-validates-mainnet"@,
                    issued_valid_proves(),
                    seq!["resolved `"@ + identity.handle_path@ + "`"@],
                ),
            )
        },
        Err(reason) => {
            &&& post.stage == AuthStage::Done
            &&& post.report.identity == pre.report.identity
            &&& post.pending == pre.pending
            &&& after == before.push(failed_view("issued-token-validates-mainnet"@, issued_valid_proves(), reason@))
        },
    }
    &&& post.config == pre.config
    &&& post.report.token_source == pre.report.token_source
    &&& same_report_header(post.report, pre.report)
    &&& post.persisted == pre.persisted
    &&& post.issued == pre.issued
}

/// What writing the state file (`result`) makes of the run `pre`: it records
/// the outcome and is done.
pub open spec fn persist_step(pre: MainnetAuthRun, result: Result<(), String>, post: MainnetAuthRun) -> bool {
    let before = auth_subtests_view(pre.report.subtests@);
    let after = auth_subtests_view(post.report.subtests@);
    &&& post.stage == AuthStage::Done
    &&& match result {
        Ok(()) => after == before.push(
            passed_view(
                "credential-persists-to-disk"@,
                persist_proves(),
                seq!["wrote `"@ + pre.config.state_path@ + "`"@, "token material is omitted from command output"@],
            ),
        ),
        Err(reason) => after == before.push(failed_view("credential-persists-to-disk"@, persist_proves(), reason@)),
    }
    &&& post.config == pre.config
    &&& post.report.token_source == pre.report.token_source
    &&& post.report.identity == pre.report.identity
    &&& same_report_header(post.report, pre.report)
    &&& post.persisted == pre.persisted
    &&& post.issued == pre.issued
    &&& post.pending == pre.pending
}

impl MainnetAuthRun {
    /// A run that starts by reading the persisted state.
    pub fn start(config: MainnetAuthConfig) -> (r: Self)
        ensures
            auth_started(config, r),
    {
        let report = MainnetAuthReport {
            endpoint: config.endpoint.clone(),
            requested_agent_name: config.agent_name.clone(),
            state_path: config.state_path.clone(),
            token_source: owned("unresolved"),
            identity: None,
            subtests: Vec::new(),
        };
        MainnetAuthRun { config, report, stage: AuthStage::ReadState, persisted: None, issued: None, pending: None }
    }

    /// Whether the run holds what its current stage works on: the persisted
    /// state, the configured issuer, the issued credential or the record to
    /// persist.
    pub fn ready(&self) -> (r: bool)
        ensures
            r == ((self.stage == AuthStage::ValidatePersisted ==> self.persisted is Some)
                && (self.stage == AuthStage::ValidateSeed ==> self.config.seed_token is Some)
                && (self.stage == AuthStage::ResumeAgent ==> self.config.device_secret is Some)
                && (self.stage == AuthStage::RegisterAgent ==> self.config.operator_email is Some)
                && (self.stage == AuthStage::ValidateIssued ==> self.issued is Some)
                && (self.stage == AuthStage::PersistState ==> self.pending is Some)),
    {
        match self.stage {
            AuthStage::ValidatePersisted => self.persisted.is_some(),
            AuthStage::ValidateSeed => self.config.seed_token.is_some(),
            AuthStage::ResumeAgent => self.config.device_secret.is_some(),
            AuthStage::RegisterAgent => self.config.operator_email.is_some(),
            AuthStage::ValidateIssued => self.issued.is_some(),
            AuthStage::PersistState => self.pending.is_some(),
            _ => true,
        }
    }

    /// The outside work for the current stage.
    pub fn next_action(&self) -> (r: AuthAction)
        requires
            self.stage == AuthStage::ValidatePersisted ==> self.persisted is Some,
            self.stage == AuthStage::ValidateSeed ==> self.config.seed_token is Some,
            self.stage == AuthStage::ResumeAgent ==> self.config.device_secret is Some,
            self.stage == AuthStage::RegisterAgent ==> self.config.operator_email is Some,
            self.stage == AuthStage::ValidateIssued ==> self.issued is Some,
            self.stage == AuthStage::PersistState ==> self.pending is Some,
        ensures
            match self.stage {
                AuthStage::ReadState => r is ReadState,
                AuthStage::ValidatePersisted => r matches AuthAction::ValidateToken(t) && t == self.persisted->0.api_token,
                AuthStage::ValidateSeed => r matches AuthAction::ValidateToken(t) && t == self.config.seed_token->0,
                AuthStage::ResumeAgent => r matches AuthAction::ResumeAgent { device_secret, agent_name }
                    && device_secret == self.config.device_secret->0 && agent_name == self.config.agent_name,
                AuthStage::RegisterAgent => r matches AuthAction::RegisterAgent { agent_name, operator_email }
                    && agent_name == self.config.agent_name && operator_email == self.config.operator_email->0,
                AuthStage::ValidateIssued => r matches AuthAction::ValidateToken(t) && t == self.issued->0.api_token,
                AuthStage::PersistState => r matches AuthAction::PersistState(s) && s == self.pending->0,
                AuthStage::Done => r is Finish,
            },
    {
        match self.stage {
            AuthStage::ReadState => AuthAction::ReadState,
            AuthStage::ValidatePersisted => {
                let p = self.persisted.as_ref().unwrap();
                AuthAction::ValidateToken(p.api_token.clone())
            },
            AuthStage::ValidateSeed => AuthAction::ValidateToken(self.config.seed_token.as_ref().unwrap().clone()),
            AuthStage::ResumeAgent => AuthAction::ResumeAgent {
                device_secret: self.config.device_secret.as_ref().unwrap().clone(),
                agent_name: self.config.agent_name.clone(),
            },
            AuthStage::RegisterAgent => AuthAction::RegisterAgent {
                agent_name: self.config.agent_name.clone(),
                operator_email: self.config.operator_email.as_ref().unwrap().clone(),
            },
            AuthStage::ValidateIssued => AuthAction::ValidateToken(self.issued.as_ref().unwrap().api_token.clone()),
            AuthStage::PersistState => AuthAction::PersistState(self.pending.as_ref().unwrap().duplicate()),
            AuthStage::Done => AuthAction::Finish,
        }
    }

    fn push(&mut self, t: MainnetAuthSubtest)
        ensures
            auth_subtests_view(final(self).report.subtests@) == auth_subtests_view(old(self).report.subtests@).push(
                auth_subtest_view(t),
            ),
            final(self).config == old(self).config,
            final(self).stage == old(self).stage,
            final(self).persisted == old(self).persisted,
            final(self).issued == old(self).issued,
            final(self).pending == old(self).pending,
            final(self).report.token_source == old(self).report.token_source,
            final(self).report.identity == old(self).report.identity,
            same_report_header(final(self).report, old(self).report),
    {
        self.report.subtests.push(t);
        assert(auth_subtests_view(self.report.subtests@) =~= auth_subtests_view(old(self).report.subtests@).push(
            auth_subtest_view(t),
        ));
    }

    fn choose_issuer(&mut self)
        ensures
            issuer_chosen(*old(self), *final(self)),
            final(self).persisted == old(self).persisted,
            final(self).issued == old(self).issued,
            final(self).pending == old(self).pending,
    {
        if self.config.seed_token.is_some() {
            self.stage = AuthStage::ValidateSeed;
        } else if self.config.device_secret.is_some() {
            self.stage = AuthStage::ResumeAgent;
        } else if self.config.operator_email.is_some() {
            self.stage = AuthStage::RegisterAgent;
        } else {
            self.push(failed_step(
                "mainnet-credential-issued-or-imported",
                "the reference client obtains a live mainnet bearer credential before writing state",
                owned("set WIRE_API_TOKEN, WIRE_API_TOKEN_FILE, WIRE_DEVICE_SECRET, or WIRE_OPERATOR_EMAIL"),
            ));
            self.stage = AuthStage::Done;
        }
    }

    /// Takes what reading the state file found. A loaded state bound to the
    /// selected endpoint is revalidated next; otherwise the run moves on to an
    /// issuer.
    pub fn on_state_read(&mut self, outcome: StateReadOutcome)
        requires
            old(self).stage == AuthStage::ReadState,
        ensures
            state_read_step(*old(self), outcome, *final(self)),
    {
        match outcome {
            StateReadOutcome::Missing => {
                self.push(passed_step(
                    "auth-state-read",
                    "the reference client can check whether a persisted credential exists",
                    one_line(owned("no persisted auth state yet")),
                ));
                let ghost mid = auth_subtests_view(self.report.subtests@);
                self.choose_issuer();
                assert(auth_subtests_view(self.report.subtests@) =~= mid + issuer_tail(self.config));
            },
            StateReadOutcome::Loaded(state) => {
                let detail = ticked("loaded `", self.config.state_path.as_str());
                self.push(passed_step(
                    "auth-state-read",
                    "the reference client can check whether a persisted credential exists",
                    one_line(detail),
                ));
                if str_eq(state.endpoint.as_str(), self.config.endpoint.as_str()) {
                    self.persisted = Some(state);
                    self.stage = AuthStage::ValidatePersisted;
                } else {
                    let mut reason = labelled("state endpoint `", state.endpoint.as_str());
                    reason.append("` did not match selected endpoint `");
                    reason.append(self.config.endpoint.as_str());
                    reason.append("`");
                    self.push(failed_step(
                        "persisted-token-endpoint-match",
                        "the cached credential is bound to the selected mainnet endpoint",
                        reason,
                    ));
                    let ghost mid = auth_subtests_view(self.report.subtests@);
                    self.choose_issuer();
                    assert(auth_subtests_view(self.report.subtests@) =~= mid + issuer_tail(self.config));
                }
            },
            StateReadOutcome::Invalid(e) => {
                self.push(failed_step(
                    "auth-state-read",
                    "the reference client can check whether a persisted credential exists",
                    labelled("state JSON was invalid: ", e.as_str()),
                ));
                let ghost mid = auth_subtests_view(self.report.subtests@);
                self.choose_issuer();
                assert(auth_subtests_view(self.report.subtests@) =~= mid + issuer_tail(self.config));
            },
            StateReadOutcome::Unreadable(e) => {
                self.push(failed_step(
                    "auth-state-read",
                    "the reference client can check whether a persisted credential exists",
                    labelled("state file could not be read: ", e.as_str()),
                ));
                let ghost mid = auth_subtests_view(self.report.subtests@);
                self.choose_issuer();
                assert(auth_subtests_view(self.report.subtests@) =~= mid + issuer_tail(self.config));
            },
        }
    }

    /// Takes the validation of the persisted token: a valid token ends the run
    /// green without issuing a new credential; a rejected one moves on to an
    /// issuer.
    pub fn on_persisted_token_checked(&mut self, result: Result<MainnetIdentity, String>)
        requires
            old(self).stage == AuthStage::ValidatePersisted,
            old(self).persisted is Some,
        ensures
            persisted_check_step(*old(self), result, *final(self)),
    {
        match result {
            Ok(identity) => {
                let detail = ticked("loaded persisted identity for `", self.persisted.as_ref().unwrap().handle_path.as_str());
                self.push(passed_step(
                    "persisted-token-validates-mainnet",
                    "restart re-auth uses the on-disk credential without issuing a new token",
                    one_line(detail),
                ));
                self.report.token_source = owned("persisted_state");
                self.report.identity = Some(identity);
                self.stage = AuthStage::Done;
            },
            Err(reason) => {
                self.push(failed_step(
                    "persisted-token-validates-mainnet",
                    "restart re-auth uses the on-disk credential without issuing a new token",
                    labelled("persisted token was not accepted: ", reason.as_str()),
                ));
                let ghost mid = auth_subtests_view(self.report.subtests@);
                self.choose_issuer();
                assert(auth_subtests_view(self.report.subtests@) =~= mid + issuer_tail(self.config));
            },
        }
    }

    fn record_issued(&mut self, result: Result<IssuedCredential, String>)
        ensures
            issue_step(*old(self), result, *final(self)),
    {
        match result {
            Ok(c) => {
                let mut detail = labelled("source `", c.source.as_str());
                detail.append("` returned agent `");
                detail.append(c.agent_id.as_str());
                detail.append("`");
                self.push(passed_step(
                    "mainnet-credential-issued-or-imported",
                    "the reference client obtains a live mainnet bearer credential before writing state",
                    one_line(detail),
                ));
                self.report.token_source = c.source.clone();
                self.issued = Some(c);
                self.stage = AuthStage::ValidateIssued;
            },
            Err(reason) => {
                self.push(failed_step(
                    "mainnet-credential-issued-or-imported",
                    "the reference client obtains a live mainnet bearer credential before writing state",
                    reason,
                ));
                self.stage = AuthStage::Done;
            },
        }
    }

    /// Takes the validation of the imported seed token: a valid token becomes
    /// the issued credential (sourced from where it was imported, `seed_token`
    /// by default); a rejected one fails the run.
    pub fn on_seed_checked(&mut self, result: Result<MainnetIdentity, String>)
        requires
            old(self).stage == AuthStage::ValidateSeed,
            old(self).config.seed_token is Some,
        ensures
            seed_check_step(*old(self), result, *final(self)),
    {
        match result {
            Ok(identity) => {
                let detail = ticked("validated `", identity.handle_path.as_str());
                self.push(passed_step(
                    "seed-token-validates-mainnet",
                    "an externally issued mainnet credential can be validated before persistence",
                    one_line(detail),
                ));
                let source = match &self.config.seed_token_source {
                    Some(s) => s.clone(),
                    None => owned("seed_token"),
                };
                let c = IssuedCredential {
                    api_token: self.config.seed_token.as_ref().unwrap().clone(),
                    agent_id: identity.agent_id.clone(),
                    pseudonym: identity.pseudonym.clone(),
                    operator_email: None,
                    source,
                };
                self.record_issued(Ok(c));
            },
            Err(reason) => {
                self.record_issued(Err(labelled("seed token was not accepted: ", reason.as_str())));
            },
        }
    }

    /// Takes the credential returned by agent resume or registration.
    pub fn on_issued(&mut self, result: Result<IssuedCredential, String>)
        requires
            old(self).stage == AuthStage::ResumeAgent || old(self).stage == AuthStage::RegisterAgent,
        ensures
            issue_step(*old(self), result, *final(self)),
    {
        self.record_issued(result);
    }

    /// Takes the validation of the issued credential; a valid one is to be
    /// persisted, stamped with the formatted current time `now` (the epoch
    /// when the time could not be formatted).
    pub fn on_issued_checked(&mut self, result: Result<MainnetIdentity, String>, now: Option<String>)
        requires
            old(self).stage == AuthStage::ValidateIssued,
            old(self).issued is Some,
        ensures
            issued_check_step(*old(self), result, now, *final(self)),
    {
        match result {
            Ok(identity) => {
                let detail = ticked("resolved `", identity.handle_path.as_str());
                self.push(passed_step(
                    "issued-token-validates-mainnet",
                    "the credential identifies as a real mainnet Wire handle",
                    one_line(detail),
                ));
                let c = self.issued.as_ref().unwrap();
                let state = MainnetAuthState {
                    version: 1,
                    endpoint: self.config.endpoint.clone(),
                    agent_name: identity.name.clone(),
                    api_token: c.api_token.clone(),
                    agent_id: identity.agent_id.clone(),
                    pseudonym: identity.pseudonym.clone(),
                    handle_path: identity.handle_path.clone(),
                    updated_at: match now {
                        Some(t) => t,
                        None => owned("1970-01-01T00:00:00Z"),
                    },
                };
                self.pending = Some(state);
                self.report.identity = Some(identity);
                self.stage = AuthStage::PersistState;
            },
            Err(reason) => {
                self.push(failed_step(
                    "issued-token-validates-mainnet",
                    "the credential identifies as a real mainnet Wire handle",
                    reason,
                ));
                self.stage = AuthStage::Done;
            },
        }
    }

    /// Takes the outcome of writing the state file; the run is then done.
    pub fn on_persisted(&mut self, result: Result<(), String>)
        requires
            old(self).stage == AuthStage::PersistState,
        ensures
            persist_step(*old(self), result, *final(self)),
    {
        match result {
            Ok(()) => {
                let mut details: Vec<String> = Vec::new();
                details.push(ticked("wrote `", self.config.state_path.as_str()));
                details.push(owned("token material is omitted from command output"));
                assert(lines_view(details@) =~= seq![
                    "wrote `"@ + self.config.state_path@ + "`"@,
                    "token material is omitted from command output"@,
                ]);
                self.push(passed_step(
                    "credential-persists-to-disk",
                    "the restart path can reload the mainnet credential from the reference-client state file",
                    details,
                ));
            },
            Err(reason) => {
                self.push(failed_step(
                    "credential-persists-to-disk",
                    "the restart path can reload the mainnet credential from the reference-client state file",
                    reason,
                ));
            },
        }
        self.stage = AuthStage::Done;
    }
}


/// Law: the issuer preference. An imported seed token is validated first;
/// without one, a configured device secret resumes the existing agent,
/// whether or not an operator email is also set; only without both is a new
/// agent registered with the operator email; with none of them the run
/// fails closed. After a missing state file the run waits on that issuer
/// (a failed issuer step only when there is none).
pub proof fn issuer_preference(config: MainnetAuthConfig, pre: MainnetAuthRun, post: MainnetAuthRun)
    ensures
        config.seed_token is Some ==> issuer_stage(config) == AuthStage::ValidateSeed,
        config.seed_token is None && config.device_secret is Some ==> issuer_stage(config) == AuthStage::ResumeAgent,
        config.seed_token is None && config.device_secret is None && config.operator_email is Some ==> issuer_stage(
            config,
        ) == AuthStage::RegisterAgent,
        config.seed_token is None && config.device_secret is None && config.operator_email is None ==> issuer_stage(
            config,
        ) == AuthStage::Done,
        issuer_stage(config) != AuthStage::RegisterAgent || config.device_secret is None,
        state_read_step(pre, StateReadOutcome::Missing, post) && pre.config.seed_token is None
            && pre.config.device_secret is Some ==> post.stage == AuthStage::ResumeAgent && auth_subtests_view(
            post.report.subtests@,
        ) == auth_subtests_view(pre.report.subtests@).push(
            passed_view("auth-state-read"@, state_read_proves(), seq!["no persisted auth state yet"@]),
        ),
{
    if state_read_step(pre, StateReadOutcome::Missing, post) && pre.config.seed_token is None
        && pre.config.device_secret is Some {
        let v = auth_subtests_view(pre.report.subtests@).push(
            passed_view("auth-state-read"@, state_read_proves(), seq!["no persisted auth state yet"@]),
        );
        assert(v + issuer_tail(pre.config) =~= v);
    }
}

// ---------------------------------------------------------------------------
// Tokens never decide the report.

/// One outside result handed to the run, as the `on_*` method that takes it.
pub enum AuthEvent {
    StateRead(StateReadOutcome),
    PersistedChecked(Result<MainnetIdentity, String>),
    SeedChecked(Result<MainnetIdentity, String>),
    Issued(Result<IssuedCredential, String>),
    IssuedChecked(Result<MainnetIdentity, String>, Option<String>),
    Persisted(Result<(), String>),
}

/// The step that the `on_*` method for `event` takes from `pre` to `post`,
/// at the stage where the run accepts that event.
pub open spec fn auth_step(pre: MainnetAuthRun, event: AuthEvent, post: MainnetAuthRun) -> bool {
    match event {
        AuthEvent::StateRead(o) => pre.stage == AuthStage::ReadState && state_read_step(pre, o, post),
        AuthEvent::PersistedChecked(r) => pre.stage == AuthStage::ValidatePersisted && pre.persisted is Some
            && persisted_check_step(pre, r, post),
        AuthEvent::SeedChecked(r) => pre.stage == AuthStage::ValidateSeed && pre.config.seed_token is Some
            && seed_check_step(pre, r, post),
        AuthEvent::Issued(r) => (pre.stage == AuthStage::ResumeAgent || pre.stage == AuthStage::RegisterAgent)
            && issue_step(pre, r, post),
        AuthEvent::IssuedChecked(r, now) => pre.stage == AuthStage::ValidateIssued && pre.issued is Some
            && issued_check_step(pre, r, now, post),
        AuthEvent::Persisted(r) => pre.stage == AuthStage::PersistState && persist_step(pre, r, post),
    }
}

/// `runs` is a run started under `config` that took `events` in turn.
pub open spec fn auth_trace(config: MainnetAuthConfig, events: Seq<AuthEvent>, runs: Seq<MainnetAuthRun>) -> bool {
    &&& runs.len() == events.len() + 1
    &&& auth_started(config, runs[0])
    &&& forall|i: int| 0 <= i < events.len() ==> auth_step(#[trigger] runs[i], events[i], runs[i + 1])
}

/// Two configurations that differ at most in the value of the imported seed
/// token.
pub open spec fn configs_agree_but_tokens(a: MainnetAuthConfig, b: MainnetAuthConfig) -> bool {
    &&& a.endpoint@ == b.endpoint@
    &&& a.agent_name@ == b.agent_name@
    &&& opt_string_view(a.operator_email) == opt_string_view(b.operator_email)
    &&& opt_string_view(a.device_secret) == opt_string_view(b.device_secret)
    &&& (a.seed_token is Some) == (b.seed_token is Some)
    &&& opt_string_view(a.seed_token_source) == opt_string_view(b.seed_token_source)
    &&& a.state_path@ == b.state_path@
}

/// Two credential records that differ at most in their api token.
pub open spec fn states_agree_but_tokens(a: MainnetAuthState, b: MainnetAuthState) -> bool {
    &&& a.version == b.version
    &&& a.endpoint@ == b.endpoint@
    &&& a.agent_name@ == b.agent_name@
    &&& a.agent_id@ == b.agent_id@
    &&& a.pseudonym@ == b.pseudonym@
    &&& a.handle_path@ == b.handle_path@
    &&& a.updated_at@ == b.updated_at@
}

/// Both absent, or both present and agreeing but for their api tokens.
pub open spec fn opt_states_agree_but_tokens(a: Option<MainnetAuthState>, b: Option<MainnetAuthState>) -> bool {
    match (a, b) {
        (Some(x), Some(y)) => states_agree_but_tokens(x, y),
        (None, None) => true,
        _ => false,
    }
}

/// Two issued credentials that differ at most in their api token.
pub open spec fn credentials_agree_but_tokens(a: IssuedCredential, b: IssuedCredential) -> bool {
    &&& a.agent_id@ == b.agent_id@
    &&& a.pseudonym@ == b.pseudonym@
    &&& opt_string_view(a.operator_email) == opt_string_view(b.operator_email)
    &&& a.source@ == b.source@
}

/// Both absent, or both present and agreeing but for their api tokens.
pub open spec fn opt_credentials_agree_but_tokens(a: Option<IssuedCredential>, b: Option<IssuedCredential>) -> bool {
    match (a, b) {
        (Some(x), Some(y)) => credentials_agree_but_tokens(x, y),
        (None, None) => true,
        _ => false,
    }
}

/// Two reports that read the same: header, token source, identity and every
/// sub-test.
pub open spec fn reports_agree(a: MainnetAuthReport, b: MainnetAuthReport) -> bool {
    &&& a.endpoint@ == b.endpoint@
    &&& a.requested_agent_name@ == b.requested_agent_name@
    &&& a.state_path@ == b.state_path@
    &&& a.token_source@ == b.token_source@
    &&& a.identity == b.identity
    &&& auth_subtests_view(a.subtests@) == auth_subtests_view(b.subtests@)
}

/// Two runs at the same stage with the same report, that differ at most in
/// the api tokens they hold.
pub open spec fn runs_agree_but_tokens(a: MainnetAuthRun, b: MainnetAuthRun) -> bool {
    &&& configs_agree_but_tokens(a.config, b.config)
    &&& reports_agree(a.report, b.report)
    &&& a.stage == b.stage
    &&& opt_states_agree_but_tokens(a.persisted, b.persisted)
    &&& opt_credentials_agree_but_tokens(a.issued, b.issued)
    &&& opt_states_agree_but_tokens(a.pending, b.pending)
}

/// Two outside results of the same kind that differ at most in the api token
/// of a loaded state file or of an issued credential.
pub open spec fn events_agree_but_tokens(a: AuthEvent, b: AuthEvent) -> bool {
    match (a, b) {
        (AuthEvent::StateRead(x), AuthEvent::StateRead(y)) => match (x, y) {
            (StateReadOutcome::Missing, StateReadOutcome::Missing) => true,
            (StateReadOutcome::Loaded(s), StateReadOutcome::Loaded(t)) => states_agree_but_tokens(s, t),
            (StateReadOutcome::Invalid(e), StateReadOutcome::Invalid(f)) => e@ == f@,
            (StateReadOutcome::Unreadable(e), StateReadOutcome::Unreadable(f)) => e@ == f@,
            _ => false,
        },
        (AuthEvent::PersistedChecked(x), AuthEvent::PersistedChecked(y)) => identity_results_agree(x, y),
        (AuthEvent::SeedChecked(x), AuthEvent::SeedChecked(y)) => identity_results_agree(x, y),
        (AuthEvent::Issued(x), AuthEvent::Issued(y)) => match (x, y) {
            (Ok(c), Ok(d)) => credentials_agree_but_tokens(c, d),
            (Err(e), Err(f)) => e@ == f@,
            _ => false,
        },
        (AuthEvent::IssuedChecked(x, n), AuthEvent::IssuedChecked(y, m)) => identity_results_agree(x, y)
            && opt_string_view(n) == opt_string_view(m),
        (AuthEvent::Persisted(x), AuthEvent::Persisted(y)) => match (x, y) {
            (Ok(()), Ok(())) => true,
            (Err(e), Err(f)) => e@ == f@,
            _ => false,
        },
        _ => false,
    }
}

/// The same identity, or errors that read the same.
pub open spec fn identity_results_agree(a: Result<MainnetIdentity, String>, b: Result<MainnetIdentity, String>) -> bool {
    match (a, b) {
        (Ok(x), Ok(y)) => x == y,
        (Err(e), Err(f)) => e@ == f@,
        _ => false,
    }
}

/// One step keeps two agreeing runs in agreement.
proof fn step_keeps_agreement(a: MainnetAuthRun, b: MainnetAuthRun, ea: AuthEvent, eb: AuthEvent, a2: MainnetAuthRun, b2: MainnetAuthRun)
    requires
        runs_agree_but_tokens(a, b),
        events_agree_but_tokens(ea, eb),
        auth_step(a, ea, a2),
        auth_step(b, eb, b2),
    ensures
        runs_agree_but_tokens(a2, b2),
{
    assert(issuer_stage(a.config) == issuer_stage(b.config));
    assert(issuer_tail(a.config) == issuer_tail(b.config));
}

/// Two agreeing traces agree at step `k`.
proof fn traces_agree_upto(
    c1: MainnetAuthConfig,
    c2: MainnetAuthConfig,
    e1: Seq<AuthEvent>,
    e2: Seq<AuthEvent>,
    runs1: Seq<MainnetAuthRun>,
    runs2: Seq<MainnetAuthRun>,
    k: int,
)
    requires
        configs_agree_but_tokens(c1, c2),
        e1.len() == e2.len(),
        forall|i: int| 0 <= i < e1.len() ==> events_agree_but_tokens(#[trigger] e1[i], e2[i]),
        auth_trace(c1, e1, runs1),
        auth_trace(c2, e2, runs2),
        0 <= k <= e1.len(),
    ensures
        runs_agree_but_tokens(runs1[k], runs2[k]),
    decreases k,
{
    if k == 0 {
        assert(auth_subtests_view(runs1[0].report.subtests@) =~= auth_subtests_view(runs2[0].report.subtests@));
    } else {
        traces_agree_upto(c1, c2, e1, e2, runs1, runs2, k - 1);
        assert(events_agree_but_tokens(e1[k - 1], e2[k - 1]));
        assert(auth_step(runs1[k - 1], e1[k - 1], runs1[k]));
        assert(auth_step(runs2[k - 1], e2[k - 1], runs2[k]));
        step_keeps_agreement(runs1[k - 1], runs2[k - 1], e1[k - 1], e2[k - 1], runs1[k], runs2[k]);
    }
}

/// The auth run never lets an api token decide what it reports. Take two
/// runs whose configurations differ at most in the imported seed token, and
/// whose outside results differ at most in the api tokens of a loaded state
/// file or of an issued credential: after every step they stand at the same
/// stage with the same report (token source, identity and every sub-test) and
/// the same markdown. So a token shows in the report or its markdown only
/// where it coincides with text the report is built from anyway.
pub proof fn auth_report_never_depends_on_tokens(
    c1: MainnetAuthConfig,
    c2: MainnetAuthConfig,
    e1: Seq<AuthEvent>,
    e2: Seq<AuthEvent>,
    runs1: Seq<MainnetAuthRun>,
    runs2: Seq<MainnetAuthRun>,
)
    requires
        configs_agree_but_tokens(c1, c2),
        e1.len() == e2.len(),
        forall|i: int| 0 <= i < e1.len() ==> events_agree_but_tokens(#[trigger] e1[i], e2[i]),
        auth_trace(c1, e1, runs1),
        auth_trace(c2, e2, runs2),
    ensures
        forall|i: int|
            0 <= i < runs1.len() ==> runs_agree_but_tokens(#[trigger] runs1[i], runs2[i]) && auth_markdown(
                runs1[i].report,
            ) == auth_markdown(runs2[i].report),
{
    assert forall|i: int| 0 <= i < runs1.len() implies runs_agree_but_tokens(#[trigger] runs1[i], runs2[i])
        && auth_markdown(runs1[i].report) == auth_markdown(runs2[i].report) by {
        traces_agree_upto(c1, c2, e1, e2, runs1, runs2, i);
    }
}
// ---------------------------------------------------------------------------
// Configuration.

pub open spec fn default_mainnet_endpoint() -> Seq<char> {
    "https://newsbleach.com/api/v1"@
}

pub open spec fn default_agent_name() -> Seq<char> {
    "agent-wire-substrate-node"@
}

/// Where the default state file lives, relative to the home directory.
pub open spec fn default_state_relative_path() -> Seq<char> {
    ".wire-node/state/mainnet_auth_credential/agent-wire-substrate-node.md"@
}

pub open spec fn setting_or(v: Option<&str>, d: Seq<char>) -> Seq<char> {
    match v {
        Some(x) => x@,
        None => d,
    }
}

/// The mainnet endpoint in use: the configured one (or the default) without
/// trailing slashes.
pub fn selected_endpoint(configured: Option<&str>) -> (r: String)
    ensures
        r@ == strip_trailing(setting_or(configured, default_mainnet_endpoint()), '/'),
{
    match configured {
        Some(e) => trim_trailing_slashes(e),
        None => trim_trailing_slashes("https://newsbleach.com/api/v1"),
    }
}

/// An optional setting: its value without surrounding white space, or
/// nothing when it is unset or blank.
pub open spec fn setting_value(raw: Option<&str>) -> Option<Seq<char>> {
    match raw {
        Some(v) => if trimmed(v@).len() > 0 {
            Some(trimmed(v@))
        } else {
            None
        },
        None => None,
    }
}

pub open spec fn opt_string_view(v: Option<String>) -> Option<Seq<char>> {
    match v {
        Some(x) => Some(x@),
        None => None,
    }
}

pub fn optional_setting(raw: Option<&str>) -> (r: Option<String>)
    ensures
        opt_string_view(r) == setting_value(raw),
{
    match raw {
        Some(v) => {
            let t = trim(v);
            if t.unicode_len() > 0 {
                Some(t)
            } else {
                None
            }
        },
        None => None,
    }
}

/// The token read from `WIRE_API_TOKEN_FILE` (shown as `path`): the file's
/// text without surrounding white space, which must not be empty.
pub fn token_from_file_text(path: &str, text: &str) -> (r: Result<(String, String), String>)
    ensures
        trimmed(text@).len() > 0 ==> (r matches Ok((token, source)) && token@ == trimmed(text@) && source@
            == "WIRE_API_TOKEN_FILE"@),
        trimmed(text@).len() == 0 ==> (r matches Err(e) && e@ == "WIRE_API_TOKEN_FILE `"@ + path@
            + "` did not contain a token"@),
{
    let token = trim(text);
    if token.unicode_len() == 0 {
        let mut e = owned("WIRE_API_TOKEN_FILE `");
        e.append(path);
        e.append("` did not contain a token");
        Err(e)
    } else {
        Ok((token, owned("WIRE_API_TOKEN_FILE")))
    }
}

impl MainnetAuthConfig {
    /// The configuration from the operator's settings: the endpoint and agent
    /// name (or their defaults), the resolved state path, the API token (or,
    /// when it is unset, what reading the token file gave; `None` when no
    /// token file is configured), the operator email and the device secret.
    /// The endpoint loses its trailing slashes and the agent name its
    /// surrounding white space; both must be non-empty. Errors are reported
    /// in that order: endpoint, agent name, state path, token file.
    pub fn from_settings(
        endpoint: Option<&str>,
        agent_name: Option<&str>,
        state_path: Result<String, String>,
        api_token: Option<&str>,
        token_file: Option<Result<(String, String), String>>,
        operator_email: Option<&str>,
        device_secret: Option<&str>,
    ) -> (r: Result<Self, String>)
        ensures
            ({
                let e = strip_trailing(setting_or(endpoint, default_mainnet_endpoint()), '/');
                let a = trimmed(setting_or(agent_name, default_agent_name()));
                if e.len() == 0 {
                    r matches Err(m) && m@ == "WIRE_MAINNET_ENDPOINT resolved empty"@
                } else if a.len() == 0 {
                    r matches Err(m) && m@ == "WIRE_AGENT_NAME resolved empty"@
                } else {
                    match state_path {
                        Err(m) => r == Err::<Self, String>(m),
                        Ok(path) => match setting_value(api_token) {
                            Some(t) => r matches Ok(c) && c.endpoint@ == e && c.agent_name@ == a && c.state_path
                                == path && opt_string_view(c.seed_token) == Some(t) && opt_string_view(
                                c.seed_token_source,
                            ) == Some("WIRE_API_TOKEN"@) && opt_string_view(c.operator_email) == setting_value(
                                operator_email,
                            ) && opt_string_view(c.device_secret) == setting_value(device_secret),
                            None => match token_file {
                                Some(Err(m)) => r == Err::<Self, String>(m),
                                Some(Ok((t, source))) => r matches Ok(c) && c.endpoint@ == e && c.agent_name@ == a
                                    && c.state_path == path && c.seed_token == Some(t) && c.seed_token_source
                                    == Some(source) && opt_string_view(c.operator_email) == setting_value(
                                    operator_email,
                                ) && opt_string_view(c.device_secret) == setting_value(device_secret),
                                None => r matches Ok(c) && c.endpoint@ == e && c.agent_name@ == a && c.state_path
                                    == path && c.seed_token is None && c.seed_token_source is None
                                    && opt_string_view(c.operator_email) == setting_value(operator_email)
                                    && opt_string_view(c.device_secret) == setting_value(device_secret),
                            },
                        },
                    }
                }
            }),
    {
        let endpoint = selected_endpoint(endpoint);
        if endpoint.unicode_len() == 0 {
            return Err(owned("WIRE_MAINNET_ENDPOINT resolved empty"));
        }
        let agent_name = match agent_name {
            Some(a) => trim(a),
            None => trim("agent-wire-substrate-node"),
        };
        if agent_name.unicode_len() == 0 {
            return Err(owned("WIRE_AGENT_NAME resolved empty"));
        }
        let state_path = match state_path {
            Ok(p) => p,
            Err(m) => return Err(m),
        };
        let (seed_token, seed_token_source) = match optional_setting(api_token) {
            Some(t) => (Some(t), Some(owned("WIRE_API_TOKEN"))),
            None => match token_file {
                Some(Ok((t, source))) => (Some(t), Some(source)),
                Some(Err(m)) => return Err(m),
                None => (None, None),
            },
        };
        Ok(MainnetAuthConfig {
            endpoint,
            agent_name,
            operator_email: optional_setting(operator_email),
            device_secret: optional_setting(device_secret),
            seed_token,
            seed_token_source,
            state_path,
        })
    }
}

/// The report of a run whose configuration did not resolve: the configured
/// endpoint, agent name and state path as given (or their defaults, the state
/// path under `~`), and one failed `auth-config-resolves` sub-test.
pub fn config_failure_report(
    endpoint: Option<&str>,
    agent_name: Option<&str>,
    state_path: Option<&str>,
    reason: String,
) -> (r: MainnetAuthReport)
    ensures
        r.endpoint@ == setting_or(endpoint, default_mainnet_endpoint()),
        r.requested_agent_name@ == setting_or(agent_name, default_agent_name()),
        r.state_path@ == setting_or(state_path, "~/"@ + default_state_relative_path()),
        r.token_source@ == "unresolved"@,
        r.identity is None,
        auth_subtests_view(r.subtests@) == seq![
            failed_view(
                "auth-config-resolves"@,
                "the reference client can find endpoint, state path, and at least one credential issuer path"@,
                reason@,
            ),
        ],
{
    let t = failed_step(
        "auth-config-resolves",
        "the reference client can find endpoint, state path, and at least one credential issuer path",
        reason,
    );
    let mut subtests = Vec::new();
    subtests.push(t);
    let r = MainnetAuthReport {
        endpoint: match endpoint {
            Some(e) => owned(e),
            None => owned("https://newsbleach.com/api/v1"),
        },
        requested_agent_name: match agent_name {
            Some(a) => owned(a),
            None => owned("agent-wire-substrate-node"),
        },
        state_path: match state_path {
            Some(p) => owned(p),
            None => owned("~/.wire-node/state/mainnet_auth_credential/agent-wire-substrate-node.md"),
        },
        token_source: owned("unresolved"),
        identity: None,
        subtests,
    };
    proof {
        reveal_strlit("~/");
        reveal_strlit(".wire-node/state/mainnet_auth_credential/agent-wire-substrate-node.md");
        reveal_strlit("~/.wire-node/state/mainnet_auth_credential/agent-wire-substrate-node.md");
    }
    assert(auth_subtests_view(r.subtests@) =~= seq![
        failed_view(
            "auth-config-resolves"@,
            "the reference client can find endpoint, state path, and at least one credential issuer path"@,
            reason@,
        ),
    ]);
    r
}

impl MainnetIdentity {
    /// A field-by-field copy.
    pub fn duplicate(&self) -> (r: Self)
        ensures
            r == *self,
    {
        MainnetIdentity {
            name: self.name.clone(),
            slot: self.slot.clone(),
            handle_path: self.handle_path.clone(),
            pseudonym: self.pseudonym.clone(),
            agent_id: self.agent_id.clone(),
        }
    }
}

} // verus!
