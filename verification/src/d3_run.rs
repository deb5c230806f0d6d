//! The live D3 compute-settlement run as a state machine.
//!
//! The run goes through its stages in a fixed order: credential, local
//! provider server, provider and requester nodes, tunnel, cloudflared, tunnel
//! health, heartbeats, offer and queue mirror, quote and purchase, fill,
//! provider completion, job settlement and the settlement row. Each stage
//! waits for one outside result. A success records what the stage produced;
//! the first failure records a failed sub-test named after the blocking stage
//! and ends the run (the run fails closed).
use vstd::prelude::*;

use crate::contribution::run_id_usable;
use crate::d3::{d3_reason, failed_step, passed_step, D3LiveComputeSettlementReport, D3Status, D3Subtest};
use crate::mainnet_auth::MainnetIdentity;
use crate::report::{failed_view, fails_closed, labelled, lines_view, one_line, passed_view, SubtestView};
use crate::text::{
    chars_of, decimal, join_endpoint, owned, push_decimal, strip_leading, strip_trailing,
    string_of_range, str_eq, trim, trim_for_report, trim_leading_char, trimmed, trimmed_for_report,
};

verus! {

pub open spec fn d3_view(t: D3Subtest) -> SubtestView {
    SubtestView { name: t.name@, proves: t.proves@, reason: d3_reason(t.status), details: lines_view(t.details@) }
}

pub open spec fn d3_views(v: Seq<D3Subtest>) -> Seq<SubtestView> {
    v.map_values(|t: D3Subtest| d3_view(t))
}

/// What the failed sub-test of a blocked stage proves.
pub open spec fn fail_closed_proves() -> Seq<char> {
    "the live D3 validation fails closed and reports the blocking stage"@
}

pub open spec fn default_endpoint() -> Seq<char> {
    "https://newsbleach.com/api/v1"@
}

pub open spec fn default_supabase_url() -> Seq<char> {
    "https://supabase.newsbleach.com"@
}

pub open spec fn default_model() -> Seq<char> {
    "granite-4-micro"@
}

pub open spec fn or_default(v: Option<&str>, d: Seq<char>) -> Seq<char> {
    match v {
        Some(x) => x@,
        None => d,
    }
}

fn str_or(v: Option<&str>, d: &str) -> (r: String)
    ensures
        r@ == or_default(v, d@),
{
    match v {
        Some(x) => owned(x),
        None => owned(d),
    }
}

/// The report of a run whose configuration did not resolve: the configured
/// endpoint, settlement read surface and model (or their defaults) and one
/// failed `d3-config-resolves` sub-test.
pub fn failed_config_report(
    endpoint: Option<&str>,
    supabase_url: Option<&str>,
    model_id: Option<&str>,
    reason: String,
) -> (r: D3LiveComputeSettlementReport)
    ensures
        r.endpoint@ == or_default(endpoint, default_endpoint()),
        r.supabase_url@ == or_default(supabase_url, default_supabase_url()),
        r.model_id@ == or_default(model_id, default_model()),
        r.provider_node_id is None,
        r.requester_node_id is None,
        r.tunnel_url is None,
        r.offer_id is None,
        r.job_id is None,
        r.uuid_job_id is None,
        r.settlement_id is None,
        r.settlement_status is None,
        r.actual_cost is None,
        r.provider_payout is None,
        r.requester_adjustment is None,
        d3_views(r.subtests@) == seq![failed_view("d3-config-resolves"@, fail_closed_proves(), reason@)],
{
    let t = failed_step("d3-config-resolves", "the live D3 validation fails closed and reports the blocking stage", reason);
    assert(d3_view(t) =~= failed_view("d3-config-resolves"@, fail_closed_proves(), t.status->reason@));
    let mut subtests = Vec::new();
    subtests.push(t);
    let r = D3LiveComputeSettlementReport {
        endpoint: str_or(endpoint, "https://newsbleach.com/api/v1"),
        supabase_url: str_or(supabase_url, "https://supabase.newsbleach.com"),
        model_id: str_or(model_id, "granite-4-micro"),
        provider_node_id: None,
        requester_node_id: None,
        tunnel_url: None,
        offer_id: None,
        job_id: None,
        uuid_job_id: None,
        settlement_id: None,
        settlement_status: None,
        actual_cost: None,
        provider_payout: None,
        requester_adjustment: None,
        subtests,
    };
    assert(d3_views(r.subtests@) =~= seq![failed_view("d3-config-resolves"@, fail_closed_proves(), reason@)]);
    r
}

/// What the settlement read key of a D3 run resolves to: it must be set,
/// and not blank.
pub open spec fn service_role_key_outcome(raw: Option<&str>) -> Result<Seq<char>, Seq<char>> {
    match raw {
        None => Err("SUPABASE_SERVICE_ROLE_KEY is not set"@),
        Some(k) => if trimmed(k@).len() == 0 {
            Err("SUPABASE_SERVICE_ROLE_KEY is present but empty"@)
        } else {
            Ok(k@)
        },
    }
}

/// Resolves the settlement read key of a D3 run from its setting; a run
/// without it cannot read its settlement row and fails closed.
pub fn resolve_service_role_key(raw: Option<&str>) -> (r: Result<String, String>)
    ensures
        match r {
            Ok(k) => service_role_key_outcome(raw) == Ok::<Seq<char>, Seq<char>>(k@),
            Err(e) => service_role_key_outcome(raw) == Err::<Seq<char>, Seq<char>>(e@),
        },
{
    match raw {
        None => Err(owned("SUPABASE_SERVICE_ROLE_KEY is not set")),
        Some(k) => {
            if trim(k).as_str().unicode_len() == 0 {
                Err(owned("SUPABASE_SERVICE_ROLE_KEY is present but empty"))
            } else {
                Ok(owned(k))
            }
        },
    }
}

/// The resolved configuration, as far as the report shows it.
pub struct D3ConfigSummary {
    pub endpoint: String,
    pub supabase_url: String,
    pub model_id: String,
    pub llm_provider: String,
    pub adapter_id: String,
    pub base_url: String,
    /// The cloudflared binary path as it is shown in reports.
    pub cloudflared_path: String,
}

pub open spec fn config_details(c: D3ConfigSummary) -> Seq<Seq<char>> {
    seq![
        "endpoint "@ + c.endpoint@,
        "supabase "@ + c.supabase_url@,
        "llm provider "@ + c.llm_provider@ + " via "@ + c.adapter_id@ + " at "@ + c.base_url@,
        "model "@ + c.model_id@,
        "cloudflared "@ + c.cloudflared_path@,
    ]
}

/// A registered node.
pub struct D3NodeInfo {
    pub id: String,
    pub registration_detail: String,
}

/// The node after a failed `node/register` and the service-role bootstrap
/// that followed it: a bootstrapped node carries both outcomes in its
/// registration detail; when both fail, the error names both.
pub fn node_after_bootstrap(register_error: &str, bootstrap: Result<D3NodeInfo, String>) -> (r: Result<
    D3NodeInfo,
    String,
>)
    ensures
        match bootstrap {
            Ok(node) => r matches Ok(n) && n.id == node.id && n.registration_detail@ == "node/register failed ("@
                + trimmed_for_report(register_error@, 500) + "); "@ + node.registration_detail@,
            Err(e) => r matches Err(m) && m@ == "node/register failed ("@ + register_error@
                + "); service-role bootstrap also failed ("@ + e@ + ")"@,
        },
{
    match bootstrap {
        Ok(node) => {
            let mut detail = labelled("node/register failed (", trim_for_report(register_error, 500).as_str());
            detail.append("); ");
            detail.append(node.registration_detail.as_str());
            Ok(D3NodeInfo { id: node.id, registration_detail: detail })
        },
        Err(e) => {
            let mut m = labelled("node/register failed (", register_error);
            m.append("); service-role bootstrap also failed (");
            m.append(e.as_str());
            m.append(")");
            Err(m)
        },
    }
}

/// The settlement row that `wire_settlements` returned: its identifiers and
/// economics, where present, and its text for the report.
pub struct D3SettlementRow {
    pub settlement_id: Option<String>,
    pub settlement_status: Option<String>,
    pub actual_cost: Option<i64>,
    pub provider_payout: Option<i64>,
    pub requester_adjustment: Option<i64>,
    pub text: String,
}

/// How a polled job stands.
#[derive(Debug, Clone, Copy, PartialEq, Eq, Structural)]
pub enum JobPoll {
    Settled,
    Failed,
    Pending,
}

/// A job is settled once it is `completed` with a `settled` delivery, and has
/// failed once it is `failed` or its delivery is `failed_settlement`; the
/// statuses are empty when the job does not report them.
pub open spec fn job_poll(status: Seq<char>, delivery_status: Seq<char>) -> JobPoll {
    if status == "completed"@ && delivery_status == "settled"@ {
        JobPoll::Settled
    } else if status == "failed"@ || delivery_status == "failed_settlement"@ {
        JobPoll::Failed
    } else {
        JobPoll::Pending
    }
}

pub fn classify_job(status: &str, delivery_status: &str) -> (r: JobPoll)
    ensures
        r == job_poll(status@, delivery_status@),
{
    if str_eq(status, "completed") && str_eq(delivery_status, "settled") {
        JobPoll::Settled
    } else if str_eq(status, "failed") || str_eq(delivery_status, "failed_settlement") {
        JobPoll::Failed
    } else {
        JobPoll::Pending
    }
}

/// The Wire API URL of `path` under `endpoint`.
pub fn api_url(endpoint: &str, path: &str) -> (out: String)
    ensures
        out@ == endpoint@ + "/"@ + strip_leading(path@, '/'),
{
    let mut out = labelled(endpoint, "/");
    out.append(trim_leading_char(path, '/').as_str());
    out
}

/// The PostgREST URL of `path` under the settlement read surface.
pub fn rest_url(supabase_url: &str, path: &str) -> (out: String)
    ensures
        out@ == supabase_url@ + "/rest/v1/"@ + strip_leading(path@, '/'),
{
    let mut out = labelled(supabase_url, "/rest/v1/");
    out.append(trim_leading_char(path, '/').as_str());
    out
}

/// Where the run stands; each stage but `Done` waits for one outside result.
#[derive(Debug, Clone, Copy, PartialEq, Eq, Structural)]
pub enum D3Stage {
    LoadCredential,
    StartProviderServer,
    RegisterProvider,
    RegisterRequester,
    ProvisionTunnel,
    StartCloudflared,
    AwaitTunnelHealth,
    ProviderHeartbeat,
    RequesterHeartbeat,
    PublishOffer,
    PushQueueMirror,
    RequestQuote,
    PurchaseQuote,
    FillJob,
    AwaitProviderCompletion,
    AwaitJobSettled,
    ReadSettlement,
    Done,
}

/// The outside work the run needs next.
pub enum D3Action {
    LoadCredential,
    StartProviderServer,
    /// Register a node with this name (falling back to the service-role
    /// bootstrap when registration fails).
    RegisterNode { name: String },
    ProvisionTunnel { node_id: String, local_port: u16 },
    StartCloudflared,
    AwaitTunnelHealth { tunnel_url: String },
    Heartbeat { node_id: String, tunnel_url: Option<String> },
    PublishOffer { node_id: String },
    PushQueueMirror { node_id: String, offer_id: String },
    RequestQuote { requester_node_id: String },
    PurchaseQuote,
    FillJob { job_id: String, callback_url: String },
    AwaitProviderCompletion,
    AwaitJobSettled { job_id: String },
    ReadSettlement { uuid_job_id: String },
    Finish,
}

pub struct D3Run {
    pub report: D3LiveComputeSettlementReport,
    pub stage: D3Stage,
    /// The suffix that makes this run's node names unique.
    pub suffix: String,
    /// The local provider server's port.
    pub provider_port: Option<u16>,
}

/// The names of the run's provider and requester nodes.
pub open spec fn provider_node_name(suffix: Seq<char>) -> Seq<char> {
    "d3-kramer-provider-"@ + suffix
}

pub open spec fn requester_node_name(suffix: Seq<char>) -> Seq<char> {
    "d3-kramer-requester-"@ + suffix
}

/// The requester callback the fill hands to Wire.
pub open spec fn callback_url(tunnel_url: Seq<char>) -> Seq<char> {
    strip_trailing(tunnel_url, '/') + "/v1/compute/job-result"@
}

/// The report keeps its header, and the run its suffix and port.
pub open spec fn kept(pre: D3Run, post: D3Run) -> bool {
    &&& post.report.endpoint == pre.report.endpoint
    &&& post.report.supabase_url == pre.report.supabase_url
    &&& post.report.model_id == pre.report.model_id
    &&& post.suffix == pre.suffix
}

/// The report's collected identifiers and economics are unchanged.
pub open spec fn same_fields(a: D3LiveComputeSettlementReport, b: D3LiveComputeSettlementReport) -> bool {
    &&& a.provider_node_id == b.provider_node_id
    &&& a.requester_node_id == b.requester_node_id
    &&& a.tunnel_url == b.tunnel_url
    &&& a.offer_id == b.offer_id
    &&& a.job_id == b.job_id
    &&& a.uuid_job_id == b.uuid_job_id
    &&& a.settlement_id == b.settlement_id
    &&& a.settlement_status == b.settlement_status
    &&& a.actual_cost == b.actual_cost
    &&& a.provider_payout == b.provider_payout
    &&& a.requester_adjustment == b.requester_adjustment
}

/// The run stopped at `name` for `reason`: one failed sub-test is appended,
/// nothing else changes and the run is done.
pub open spec fn closed_at(pre: D3Run, post: D3Run, name: Seq<char>, reason: Seq<char>) -> bool {
    &&& post.stage == D3Stage::Done
    &&& d3_views(post.report.subtests@) == d3_views(pre.report.subtests@).push(
        failed_view(name, fail_closed_proves(), reason),
    )
    &&& same_fields(post.report, pre.report)
    &&& post.provider_port == pre.provider_port
}

/// The run moved on to `next`, appended `passed` (when present) and kept its
/// collected fields.
pub open spec fn advanced(pre: D3Run, post: D3Run, next: D3Stage, passed: Option<SubtestView>) -> bool {
    &&& post.stage == next
    &&& d3_views(post.report.subtests@) == match passed {
        Some(v) => d3_views(pre.report.subtests@).push(v),
        None => d3_views(pre.report.subtests@),
    }
}

/// The stage that follows a stage whose success carries no data, and the
/// name it is reported under when it fails.
pub open spec fn unit_next(s: D3Stage) -> D3Stage {
    match s {
        D3Stage::StartCloudflared => D3Stage::AwaitTunnelHealth,
        D3Stage::AwaitTunnelHealth => D3Stage::ProviderHeartbeat,
        D3Stage::ProviderHeartbeat => D3Stage::RequesterHeartbeat,
        D3Stage::RequesterHeartbeat => D3Stage::PublishOffer,
        D3Stage::PushQueueMirror => D3Stage::RequestQuote,
        D3Stage::RequestQuote => D3Stage::PurchaseQuote,
        _ => D3Stage::Done,
    }
}

pub open spec fn unit_stage_name(s: D3Stage) -> Seq<char> {
    match s {
        D3Stage::StartCloudflared => "cloudflared-process-starts"@,
        D3Stage::AwaitTunnelHealth => "cloudflare-tunnel-reachable"@,
        D3Stage::ProviderHeartbeat => "provider-heartbeat-updates-tunnel"@,
        D3Stage::RequesterHeartbeat => "requester-heartbeat-updates"@,
        D3Stage::PushQueueMirror => "provider-queue-mirror-pushes"@,
        _ => "requester-quote-reserves-winner"@,
    }
}

pub open spec fn is_unit_stage(s: D3Stage) -> bool {
    ||| s == D3Stage::StartCloudflared
    ||| s == D3Stage::AwaitTunnelHealth
    ||| s == D3Stage::ProviderHeartbeat
    ||| s == D3Stage::RequesterHeartbeat
    ||| s == D3Stage::PushQueueMirror
    ||| s == D3Stage::RequestQuote
}

/// The sub-test recorded when a stage without data succeeds: the tunnel is
/// reported reachable once both heartbeats went through, and the offer once
/// its queue mirror was pushed.
pub open spec fn unit_passed(pre: D3Run) -> Option<SubtestView> {
    match pre.stage {
        D3Stage::RequesterHeartbeat => Some(
            passed_view(
                "cloudflare-tunnel-reachable"@,
                "a live Cloudflare tunnel reaches the local substrate provider server"@,
                seq![pre.report.tunnel_url->0@],
            ),
        ),
        D3Stage::PushQueueMirror => Some(
            passed_view(
                "provider-offer-publishes-and-mirrors"@,
                "the provider publishes a live compute offer and fresh queue mirror for the model"@,
                seq!["offer_id "@ + pre.report.offer_id->0@],
            ),
        ),
        _ => None,
    }
}

fn copy_opt(v: &Option<String>) -> (r: Option<String>)
    ensures
        r == *v,
{
    match v {
        Some(x) => Some(x.clone()),
        None => None,
    }
}

impl D3Run {
    /// A run with its configuration resolved; it loads the credential next.
    /// The node-name suffix is the first eight characters of `suffix_source`.
    pub fn start(config: D3ConfigSummary, suffix_source: &str) -> (r: Self)
        requires
            run_id_usable(suffix_source@),
        ensures
            r.stage == D3Stage::LoadCredential,
            r.suffix@ == suffix_source@.take(8),
            r.provider_port is None,
            r.report.endpoint == config.endpoint,
            r.report.supabase_url == config.supabase_url,
            r.report.model_id == config.model_id,
            r.report.provider_node_id is None,
            r.report.requester_node_id is None,
            r.report.tunnel_url is None,
            r.report.offer_id is None,
            r.report.job_id is None,
            r.report.uuid_job_id is None,
            r.report.settlement_id is None,
            r.report.settlement_status is None,
            r.report.actual_cost is None,
            r.report.provider_payout is None,
            r.report.requester_adjustment is None,
            d3_views(r.report.subtests@) == seq![
                passed_view(
                    "d3-config-resolves"@,
                    "all live endpoints, settlement read credentials, LLM provider config, and cloudflared binary are present"@,
                    config_details(config),
                ),
            ],
    {
        let mut details: Vec<String> = Vec::new();
        details.push(labelled("endpoint ", config.endpoint.as_str()));
        details.push(labelled("supabase ", config.supabase_url.as_str()));
        let mut provider = labelled("llm provider ", config.llm_provider.as_str());
        provider.append(" via ");
        provider.append(config.adapter_id.as_str());
        provider.append(" at ");
        provider.append(config.base_url.as_str());
        details.push(provider);
        details.push(labelled("model ", config.model_id.as_str()));
        details.push(labelled("cloudflared ", config.cloudflared_path.as_str()));
        assert(lines_view(details@) =~= config_details(config));
        let mut subtests = Vec::new();
        subtests.push(passed_step(
            "d3-config-resolves",
            "all live endpoints, settlement read credentials, LLM provider config, and cloudflared binary are present",
            details,
        ));
        let cs = chars_of(suffix_source);
        let suffix = string_of_range(&cs, 0, 8);
        assert(cs@.subrange(0, 8) =~= suffix_source@.take(8));
        let report = D3LiveComputeSettlementReport {
            endpoint: config.endpoint,
            supabase_url: config.supabase_url,
            model_id: config.model_id,
            provider_node_id: None,
            requester_node_id: None,
            tunnel_url: None,
            offer_id: None,
            job_id: None,
            uuid_job_id: None,
            settlement_id: None,
            settlement_status: None,
            actual_cost: None,
            provider_payout: None,
            requester_adjustment: None,
            subtests,
        };
        let r = D3Run { report, stage: D3Stage::LoadCredential, suffix, provider_port: None };
        assert(d3_views(r.report.subtests@) =~= seq![
            passed_view(
                "d3-config-resolves"@,
                "all live endpoints, settlement read credentials, LLM provider config, and cloudflared binary are present"@,
                config_details(config),
            ),
        ]);
        r
    }

    /// The outside work for the current stage.
    pub fn next_action(&self) -> (r: D3Action)
        requires
            self.stage == D3Stage::ProvisionTunnel ==> self.report.provider_node_id is Some
                && self.provider_port is Some,
            self.stage == D3Stage::AwaitTunnelHealth ==> self.report.tunnel_url is Some,
            self.stage == D3Stage::ProviderHeartbeat ==> self.report.provider_node_id is Some
                && self.report.tunnel_url is Some,
            self.stage == D3Stage::RequesterHeartbeat ==> self.report.requester_node_id is Some,
            self.stage == D3Stage::PublishOffer ==> self.report.provider_node_id is Some,
            self.stage == D3Stage::PushQueueMirror ==> self.report.provider_node_id is Some
                && self.report.offer_id is Some,
            self.stage == D3Stage::RequestQuote ==> self.report.requester_node_id is Some,
            self.stage == D3Stage::FillJob ==> self.report.job_id is Some && self.report.tunnel_url is Some,
            self.stage == D3Stage::AwaitJobSettled ==> self.report.job_id is Some,
            self.stage == D3Stage::ReadSettlement ==> self.report.uuid_job_id is Some,
        ensures
            match self.stage {
                D3Stage::LoadCredential => r is LoadCredential,
                D3Stage::StartProviderServer => r is StartProviderServer,
                D3Stage::RegisterProvider => r matches D3Action::RegisterNode { name } && name@ == provider_node_name(self.suffix@),
                D3Stage::RegisterRequester => r matches D3Action::RegisterNode { name } && name@ == requester_node_name(self.suffix@),
                D3Stage::ProvisionTunnel => r matches D3Action::ProvisionTunnel { node_id, local_port }
                    && node_id == self.report.provider_node_id->0 && local_port == self.provider_port->0,
                D3Stage::StartCloudflared => r is StartCloudflared,
                D3Stage::AwaitTunnelHealth => r matches D3Action::AwaitTunnelHealth { tunnel_url }
                    && tunnel_url == self.report.tunnel_url->0,
                D3Stage::ProviderHeartbeat => r matches D3Action::Heartbeat { node_id, tunnel_url }
                    && node_id == self.report.provider_node_id->0 && tunnel_url == self.report.tunnel_url,
                D3Stage::RequesterHeartbeat => r matches D3Action::Heartbeat { node_id, tunnel_url }
                    && node_id == self.report.requester_node_id->0 && tunnel_url is None,
                D3Stage::PublishOffer => r matches D3Action::PublishOffer { node_id }
                    && node_id == self.report.provider_node_id->0,
                D3Stage::PushQueueMirror => r matches D3Action::PushQueueMirror { node_id, offer_id }
                    && node_id == self.report.provider_node_id->0 && offer_id == self.report.offer_id->0,
                D3Stage::RequestQuote => r matches D3Action::RequestQuote { requester_node_id }
                    && requester_node_id == self.report.requester_node_id->0,
                D3Stage::PurchaseQuote => r is PurchaseQuote,
                D3Stage::FillJob => r matches D3Action::FillJob { job_id, callback_url: url }
                    && job_id == self.report.job_id->0 && url@ == callback_url(self.report.tunnel_url->0@),
                D3Stage::AwaitProviderCompletion => r is AwaitProviderCompletion,
                D3Stage::AwaitJobSettled => r matches D3Action::AwaitJobSettled { job_id }
                    && job_id == self.report.job_id->0,
                D3Stage::ReadSettlement => r matches D3Action::ReadSettlement { uuid_job_id }
                    && uuid_job_id == self.report.uuid_job_id->0,
                D3Stage::Done => r is Finish,
            },
    {
        match self.stage {
            D3Stage::LoadCredential => D3Action::LoadCredential,
            D3Stage::StartProviderServer => D3Action::StartProviderServer,
            D3Stage::RegisterProvider => D3Action::RegisterNode {
                name: labelled("d3-kramer-provider-", self.suffix.as_str()),
            },
            D3Stage::RegisterRequester => D3Action::RegisterNode {
                name: labelled("d3-kramer-requester-", self.suffix.as_str()),
            },
            D3Stage::ProvisionTunnel => D3Action::ProvisionTunnel {
                node_id: self.report.provider_node_id.as_ref().unwrap().clone(),
                local_port: self.provider_port.unwrap(),
            },
            D3Stage::StartCloudflared => D3Action::StartCloudflared,
            D3Stage::AwaitTunnelHealth => D3Action::AwaitTunnelHealth {
                tunnel_url: self.report.tunnel_url.as_ref().unwrap().clone(),
            },
            D3Stage::ProviderHeartbeat => D3Action::Heartbeat {
                node_id: self.report.provider_node_id.as_ref().unwrap().clone(),
                tunnel_url: copy_opt(&self.report.tunnel_url),
            },
            D3Stage::RequesterHeartbeat => D3Action::Heartbeat {
                node_id: self.report.requester_node_id.as_ref().unwrap().clone(),
                tunnel_url: None,
            },
            D3Stage::PublishOffer => D3Action::PublishOffer {
                node_id: self.report.provider_node_id.as_ref().unwrap().clone(),
            },
            D3Stage::PushQueueMirror => D3Action::PushQueueMirror {
                node_id: self.report.provider_node_id.as_ref().unwrap().clone(),
                offer_id: self.report.offer_id.as_ref().unwrap().clone(),
            },
            D3Stage::RequestQuote => D3Action::RequestQuote {
                requester_node_id: self.report.requester_node_id.as_ref().unwrap().clone(),
            },
            D3Stage::PurchaseQuote => D3Action::PurchaseQuote,
            D3Stage::FillJob => D3Action::FillJob {
                job_id: self.report.job_id.as_ref().unwrap().clone(),
                callback_url: join_endpoint(
                    self.report.tunnel_url.as_ref().unwrap().as_str(),
                    "/v1/compute/job-result",
                ),
            },
            D3Stage::AwaitProviderCompletion => D3Action::AwaitProviderCompletion,
            D3Stage::AwaitJobSettled => D3Action::AwaitJobSettled {
                job_id: self.report.job_id.as_ref().unwrap().clone(),
            },
            D3Stage::ReadSettlement => D3Action::ReadSettlement {
                uuid_job_id: self.report.uuid_job_id.as_ref().unwrap().clone(),
            },
            D3Stage::Done => D3Action::Finish,
        }
    }

    fn push(&mut self, t: D3Subtest)
        ensures
            d3_views(final(self).report.subtests@) == d3_views(old(self).report.subtests@).push(d3_view(t)),
            final(self).stage == old(self).stage,
            final(self).suffix == old(self).suffix,
            final(self).provider_port == old(self).provider_port,
            kept(*old(self), *final(self)),
            same_fields(final(self).report, old(self).report),
    {
        self.report.subtests.push(t);
        assert(d3_views(self.report.subtests@) =~= d3_views(old(self).report.subtests@).push(d3_view(t)));
    }

    fn close(&mut self, name: &str, reason: String)
        ensures
            closed_at(*old(self), *final(self), name@, reason@),
            kept(*old(self), *final(self)),
    {
        let t = failed_step(name, "the live D3 validation fails closed and reports the blocking stage", reason);
        assert(d3_view(t) =~= failed_view(name@, fail_closed_proves(), reason@));
        self.push(t);
        self.stage = D3Stage::Done;
    }

    fn pass(&mut self, name: &str, proves: &str, details: Vec<String>, next: D3Stage)
        ensures
            advanced(*old(self), *final(self), next, Some(passed_view(name@, proves@, lines_view(details@)))),
            kept(*old(self), *final(self)),
            same_fields(final(self).report, old(self).report),
            final(self).provider_port == old(self).provider_port,
    {
        let t = passed_step(name, proves, details);
        assert(d3_view(t) =~= passed_view(name@, proves@, lines_view(details@)));
        self.push(t);
        self.stage = next;
    }

    /// Takes the persisted mainnet credential's identity.
    pub fn on_credential(&mut self, result: Result<MainnetIdentity, String>)
        requires
            old(self).stage == D3Stage::LoadCredential,
        ensures
            kept(*old(self), *final(self)),
            d3_step(*old(self), *final(self)),
            match result {
                Ok(id) => advanced(
                    *old(self),
                    *final(self),
                    D3Stage::StartProviderServer,
                    Some(
                        passed_view(
                            "mainnet-auth-loads"@,
                            "the substrate node can reuse the persisted confirmed Wire credential"@,
                            seq!["agent "@ + id.name@, "agent_id "@ + id.agent_id@, "handle "@ + id.handle_path@],
                        ),
                    ),
                ) && same_fields(final(self).report, old(self).report) && final(self).provider_port
                    == old(self).provider_port,
                Err(reason) => closed_at(*old(self), *final(self), "mainnet-auth-loads"@, reason@),
            },
    {
        match result {
            Ok(id) => {
                let mut details: Vec<String> = Vec::new();
                details.push(labelled("agent ", id.name.as_str()));
                details.push(labelled("agent_id ", id.agent_id.as_str()));
                details.push(labelled("handle ", id.handle_path.as_str()));
                assert(lines_view(details@) =~= seq![
                    "agent "@ + id.name@,
                    "agent_id "@ + id.agent_id@,
                    "handle "@ + id.handle_path@,
                ]);
                self.pass(
                    "mainnet-auth-loads",
                    "the substrate node can reuse the persisted confirmed Wire credential",
                    details,
                    D3Stage::StartProviderServer,
                );
            },
            Err(reason) => self.close("mainnet-auth-loads", reason),
        }
    }

    /// Takes the local provider server's port.
    pub fn on_provider_server(&mut self, result: Result<u16, String>)
        requires
            old(self).stage == D3Stage::StartProviderServer,
        ensures
            kept(*old(self), *final(self)),
            d3_step(*old(self), *final(self)),
            match result {
                Ok(port) => advanced(
                    *old(self),
                    *final(self),
                    D3Stage::RegisterProvider,
                    Some(
                        passed_view(
                            "local-provider-server-starts"@,
                            "the substrate provider exposes local job-dispatch and requester-result endpoints"@,
                            seq!["local port "@ + decimal(port as nat)],
                        ),
                    ),
                ) && same_fields(final(self).report, old(self).report) && final(self).provider_port == Some(port),
                Err(reason) => closed_at(*old(self), *final(self), "local-provider-server-starts"@, reason@),
            },
    {
        match result {
            Ok(port) => {
                let mut line = owned("local port ");
                push_decimal(&mut line, port as u128);
                self.pass(
                    "local-provider-server-starts",
                    "the substrate provider exposes local job-dispatch and requester-result endpoints",
                    one_line(line),
                    D3Stage::RegisterProvider,
                );
                self.provider_port = Some(port);
            },
            Err(reason) => self.close("local-provider-server-starts", reason),
        }
    }

    /// Takes the registration of the provider node, then of the requester
    /// node.
    pub fn on_node(&mut self, result: Result<D3NodeInfo, String>)
        requires
            old(self).stage == D3Stage::RegisterProvider || old(self).stage == D3Stage::RegisterRequester,
        ensures
            kept(*old(self), *final(self)),
            d3_step(*old(self), *final(self)),
            final(self).provider_port == old(self).provider_port,
            match result {
                Ok(node) => if old(self).stage == D3Stage::RegisterProvider {
                    &&& advanced(
                        *old(self),
                        *final(self),
                        D3Stage::RegisterRequester,
                        Some(
                            passed_view(
                                "provider-node-registers"@,
                                "the D3 provider exists as a real mainnet wire_nodes row"@,
                                seq!["provider_node_id "@ + node.id@, node.registration_detail@],
                            ),
                        ),
                    )
                    &&& final(self).report.provider_node_id == Some(node.id)
                    &&& same_fields(
                        final(self).report,
                        D3LiveComputeSettlementReport { provider_node_id: Some(node.id), ..old(self).report },
                    )
                } else {
                    &&& advanced(
                        *old(self),
                        *final(self),
                        D3Stage::ProvisionTunnel,
                        Some(
                            passed_view(
                                "requester-node-registers"@,
                                "the D3 requester exists as a separate real mainnet wire_nodes row"@,
                                seq!["requester_node_id "@ + node.id@, node.registration_detail@],
                            ),
                        ),
                    )
                    &&& final(self).report.requester_node_id == Some(node.id)
                    &&& same_fields(
                        final(self).report,
                        D3LiveComputeSettlementReport { requester_node_id: Some(node.id), ..old(self).report },
                    )
                },
                Err(reason) => closed_at(
                    *old(self),
                    *final(self),
                    if old(self).stage == D3Stage::RegisterProvider {
                        "provider-node-registers"@
                    } else {
                        "requester-node-registers"@
                    },
                    reason@,
                ),
            },
    {
        let provider = self.stage == D3Stage::RegisterProvider;
        match result {
            Ok(node) => {
                let mut details: Vec<String> = Vec::new();
                if provider {
                    details.push(labelled("provider_node_id ", node.id.as_str()));
                } else {
                    details.push(labelled("requester_node_id ", node.id.as_str()));
                }
                details.push(node.registration_detail);
                if provider {
                    assert(lines_view(details@) =~= seq![
                        "provider_node_id "@ + node.id@,
                        node.registration_detail@,
                    ]);
                    self.pass(
                        "provider-node-registers",
                        "the D3 provider exists as a real mainnet wire_nodes row",
                        details,
                        D3Stage::RegisterRequester,
                    );
                    self.report.provider_node_id = Some(node.id);
                } else {
                    assert(lines_view(details@) =~= seq![
                        "requester_node_id "@ + node.id@,
                        node.registration_detail@,
                    ]);
                    self.pass(
                        "requester-node-registers",
                        "the D3 requester exists as a separate real mainnet wire_nodes row",
                        details,
                        D3Stage::ProvisionTunnel,
                    );
                    self.report.requester_node_id = Some(node.id);
                }
            },
            Err(reason) => {
                if provider {
                    self.close("provider-node-registers", reason);
                } else {
                    self.close("requester-node-registers", reason);
                }
            },
        }
    }

    /// Takes the provisioned tunnel's URL; it is recorded at once, and the
    /// tunnel is reported reachable only after both heartbeats.
    pub fn on_tunnel(&mut self, result: Result<String, String>)
        requires
            old(self).stage == D3Stage::ProvisionTunnel,
        ensures
            kept(*old(self), *final(self)),
            d3_step(*old(self), *final(self)),
            final(self).provider_port == old(self).provider_port,
            match result {
                Ok(url) => {
                    &&& advanced(*old(self), *final(self), D3Stage::StartCloudflared, None)
                    &&& final(self).report.tunnel_url == Some(url)
                    &&& same_fields(
                        final(self).report,
                        D3LiveComputeSettlementReport { tunnel_url: Some(url), ..old(self).report },
                    )
                },
                Err(reason) => closed_at(*old(self), *final(self), "cloudflare-tunnel-provisions"@, reason@),
            },
    {
        match result {
            Ok(url) => {
                self.report.tunnel_url = Some(url);
                self.stage = D3Stage::StartCloudflared;
            },
            Err(reason) => self.close("cloudflare-tunnel-provisions", reason),
        }
    }

    /// Takes the outcome of a stage whose success carries no data: starting
    /// cloudflared, the tunnel health check, the two heartbeats, the queue
    /// mirror and the quote (the quote itself stays with the caller).
    pub fn on_step(&mut self, result: Result<(), String>)
        requires
            is_unit_stage(old(self).stage),
            old(self).stage == D3Stage::RequesterHeartbeat ==> old(self).report.tunnel_url is Some,
            old(self).stage == D3Stage::PushQueueMirror ==> old(self).report.offer_id is Some,
        ensures
            kept(*old(self), *final(self)),
            d3_step(*old(self), *final(self)),
            final(self).provider_port == old(self).provider_port,
            match result {
                Ok(()) => advanced(*old(self), *final(self), unit_next(old(self).stage), unit_passed(*old(self)))
                    && same_fields(final(self).report, old(self).report),
                Err(reason) => closed_at(*old(self), *final(self), unit_stage_name(old(self).stage), reason@),
            },
    {
        match result {
            Ok(()) => {
                match self.stage {
                    D3Stage::StartCloudflared => self.stage = D3Stage::AwaitTunnelHealth,
                    D3Stage::AwaitTunnelHealth => self.stage = D3Stage::ProviderHeartbeat,
                    D3Stage::ProviderHeartbeat => self.stage = D3Stage::RequesterHeartbeat,
                    D3Stage::RequesterHeartbeat => {
                        let url = self.report.tunnel_url.as_ref().unwrap().clone();
                        self.pass(
                            "cloudflare-tunnel-reachable",
                            "a live Cloudflare tunnel reaches the local substrate provider server",
                            one_line(url),
                            D3Stage::PublishOffer,
                        );
                    },
                    D3Stage::PushQueueMirror => {
                        let line = labelled("offer_id ", self.report.offer_id.as_ref().unwrap().as_str());
                        self.pass(
                            "provider-offer-publishes-and-mirrors",
                            "the provider publishes a live compute offer and fresh queue mirror for the model",
                            one_line(line),
                            D3Stage::RequestQuote,
                        );
                    },
                    _ => self.stage = D3Stage::PurchaseQuote,
                }
            },
            Err(reason) => {
                match self.stage {
                    D3Stage::StartCloudflared => self.close("cloudflared-process-starts", reason),
                    D3Stage::AwaitTunnelHealth => self.close("cloudflare-tunnel-reachable", reason),
                    D3Stage::ProviderHeartbeat => self.close("provider-heartbeat-updates-tunnel", reason),
                    D3Stage::RequesterHeartbeat => self.close("requester-heartbeat-updates", reason),
                    D3Stage::PushQueueMirror => self.close("provider-queue-mirror-pushes", reason),
                    _ => self.close("requester-quote-reserves-winner", reason),
                }
            },
        }
    }

    /// Takes the published offer's id; it is reported once its queue mirror
    /// is pushed.
    pub fn on_offer(&mut self, result: Result<String, String>)
        requires
            old(self).stage == D3Stage::PublishOffer,
        ensures
            kept(*old(self), *final(self)),
            d3_step(*old(self), *final(self)),
            final(self).provider_port == old(self).provider_port,
            match result {
                Ok(offer_id) => {
                    &&& advanced(*old(self), *final(self), D3Stage::PushQueueMirror, None)
                    &&& final(self).report.offer_id == Some(offer_id)
                    &&& same_fields(
                        final(self).report,
                        D3LiveComputeSettlementReport { offer_id: Some(offer_id), ..old(self).report },
                    )
                },
                Err(reason) => closed_at(*old(self), *final(self), "provider-offer-publishes"@, reason@),
            },
    {
        match result {
            Ok(offer_id) => {
                self.report.offer_id = Some(offer_id);
                self.stage = D3Stage::PushQueueMirror;
            },
            Err(reason) => self.close("provider-offer-publishes", reason),
        }
    }

    /// Takes the purchased job's ids (`job_id`, `uuid_job_id`).
    pub fn on_purchase(&mut self, result: Result<(String, String), String>)
        requires
            old(self).stage == D3Stage::PurchaseQuote,
        ensures
            kept(*old(self), *final(self)),
            d3_step(*old(self), *final(self)),
            final(self).provider_port == old(self).provider_port,
            match result {
                Ok((job_id, uuid_job_id)) => {
                    &&& advanced(
                        *old(self),
                        *final(self),
                        D3Stage::FillJob,
                        Some(
                            passed_view(
                                "requester-purchases-real-compute-job"@,
                                "a real mainnet quote is purchased into a reserved compute job"@,
                                seq!["job_id "@ + job_id@, "uuid_job_id "@ + uuid_job_id@],
                            ),
                        ),
                    )
                    &&& same_fields(
                        final(self).report,
                        D3LiveComputeSettlementReport {
                            job_id: Some(job_id),
                            uuid_job_id: Some(uuid_job_id),
                            ..old(self).report
                        },
                    )
                },
                Err(reason) => closed_at(*old(self), *final(self), "requester-purchase-commits-job"@, reason@),
            },
    {
        match result {
            Ok((job_id, uuid_job_id)) => {
                let mut details: Vec<String> = Vec::new();
                details.push(labelled("job_id ", job_id.as_str()));
                details.push(labelled("uuid_job_id ", uuid_job_id.as_str()));
                assert(lines_view(details@) =~= seq!["job_id "@ + job_id@, "uuid_job_id "@ + uuid_job_id@]);
                self.pass(
                    "requester-purchases-real-compute-job",
                    "a real mainnet quote is purchased into a reserved compute job",
                    details,
                    D3Stage::FillJob,
                );
                self.report.job_id = Some(job_id);
                self.report.uuid_job_id = Some(uuid_job_id);
            },
            Err(reason) => self.close("requester-purchase-commits-job", reason),
        }
    }

    /// Takes the fill response (its text), or the fill's final error.
    pub fn on_fill(&mut self, result: Result<String, String>)
        requires
            old(self).stage == D3Stage::FillJob,
        ensures
            kept(*old(self), *final(self)),
            d3_step(*old(self), *final(self)),
            final(self).provider_port == old(self).provider_port,
            match result {
                Ok(response) => advanced(
                    *old(self),
                    *final(self),
                    D3Stage::AwaitProviderCompletion,
                    Some(
                        passed_view(
                            "requester-fill-dispatches-to-provider"@,
                            "Wire charges the fill deposit and dispatches the job to the provider tunnel"@,
                            seq!["fill response "@ + trimmed_for_report(response@, 500)],
                        ),
                    ),
                ) && same_fields(final(self).report, old(self).report),
                Err(reason) => closed_at(*old(self), *final(self), "requester-fill-dispatches-to-provider"@, reason@),
            },
    {
        match result {
            Ok(response) => {
                let line = labelled("fill response ", trim_for_report(response.as_str(), 500).as_str());
                self.pass(
                    "requester-fill-dispatches-to-provider",
                    "Wire charges the fill deposit and dispatches the job to the provider tunnel",
                    one_line(line),
                    D3Stage::AwaitProviderCompletion,
                );
            },
            Err(reason) => self.close("requester-fill-dispatches-to-provider", reason),
        }
    }

    /// Takes the provider's completion details, or why it did not complete.
    pub fn on_provider_completed(&mut self, result: Result<Vec<String>, String>)
        requires
            old(self).stage == D3Stage::AwaitProviderCompletion,
        ensures
            kept(*old(self), *final(self)),
            d3_step(*old(self), *final(self)),
            final(self).provider_port == old(self).provider_port,
            match result {
                Ok(details) => advanced(
                    *old(self),
                    *final(self),
                    D3Stage::AwaitJobSettled,
                    Some(
                        passed_view(
                            "provider-executes-and-posts-settlement"@,
                            "the provider performs a live LLM call, delivers requester content, and posts Wire settlement"@,
                            lines_view(details@),
                        ),
                    ),
                ) && same_fields(final(self).report, old(self).report),
                Err(reason) => closed_at(*old(self), *final(self), "provider-executes-and-posts-settlement"@, reason@),
            },
    {
        match result {
            Ok(details) => self.pass(
                "provider-executes-and-posts-settlement",
                "the provider performs a live LLM call, delivers requester content, and posts Wire settlement",
                details,
                D3Stage::AwaitJobSettled,
            ),
            Err(reason) => self.close("provider-executes-and-posts-settlement", reason),
        }
    }

    /// Takes the settled job (its text).
    pub fn on_job_settled(&mut self, result: Result<String, String>)
        requires
            old(self).stage == D3Stage::AwaitJobSettled,
        ensures
            kept(*old(self), *final(self)),
            d3_step(*old(self), *final(self)),
            final(self).provider_port == old(self).provider_port,
            match result {
                Ok(job) => advanced(
                    *old(self),
                    *final(self),
                    D3Stage::ReadSettlement,
                    Some(
                        passed_view(
                            "job-status-settled"@,
                            "the mainnet compute job reaches completed/settled state"@,
                            seq!["job status "@ + trimmed_for_report(job@, 500)],
                        ),
                    ),
                ) && same_fields(final(self).report, old(self).report),
                Err(reason) => closed_at(*old(self), *final(self), "job-status-settled"@, reason@),
            },
    {
        match result {
            Ok(job) => {
                let line = labelled("job status ", trim_for_report(job.as_str(), 500).as_str());
                self.pass(
                    "job-status-settled",
                    "the mainnet compute job reaches completed/settled state",
                    one_line(line),
                    D3Stage::ReadSettlement,
                );
            },
            Err(reason) => self.close("job-status-settled", reason),
        }
    }

    /// Takes the settlement row; its identifiers and economics go into the
    /// report and the run is done.
    pub fn on_settlement(&mut self, result: Result<D3SettlementRow, String>)
        requires
            old(self).stage == D3Stage::ReadSettlement,
        ensures
            kept(*old(self), *final(self)),
            d3_step(*old(self), *final(self)),
            final(self).provider_port == old(self).provider_port,
            final(self).stage == D3Stage::Done,
            match result {
                Ok(row) => {
                    &&& advanced(
                        *old(self),
                        *final(self),
                        D3Stage::Done,
                        Some(
                            passed_view(
                                "wire-settlements-row-visible"@,
                                "service_role can read the real settlement clearance row from wire_settlements"@,
                                seq!["settlement "@ + trimmed_for_report(row.text@, 500)],
                            ),
                        ),
                    )
                    &&& same_fields(
                        final(self).report,
                        D3LiveComputeSettlementReport {
                            settlement_id: row.settlement_id,
                            settlement_status: row.settlement_status,
                            actual_cost: row.actual_cost,
                            provider_payout: row.provider_payout,
                            requester_adjustment: row.requester_adjustment,
                            ..old(self).report
                        },
                    )
                },
                Err(reason) => closed_at(*old(self), *final(self), "wire-settlements-row-visible"@, reason@),
            },
    {
        match result {
            Ok(row) => {
                let line = labelled("settlement ", trim_for_report(row.text.as_str(), 500).as_str());
                self.pass(
                    "wire-settlements-row-visible",
                    "service_role can read the real settlement clearance row from wire_settlements",
                    one_line(line),
                    D3Stage::Done,
                );
                self.report.settlement_id = row.settlement_id;
                self.report.settlement_status = row.settlement_status;
                self.report.actual_cost = row.actual_cost;
                self.report.provider_payout = row.provider_payout;
                self.report.requester_adjustment = row.requester_adjustment;
            },
            Err(reason) => self.close("wire-settlements-row-visible", reason),
        }
    }
}

// ---------------------------------------------------------------------------
// The run fails closed.

/// A D3 run fails closed: it starts with one passed sub-test, or, when its
/// configuration does not resolve, with one failed one; while it runs, every
/// sub-test has passed; a stage that succeeds adds only passed sub-tests, and
/// a stage that fails adds one failed sub-test, named after the stage and
/// carrying its reason, and ends the run. So a finished run holds at most one
/// failed sub-test, the last, and everything before it passed.
pub proof fn d3_run_fails_closed(
    pre: D3Run,
    post: D3Run,
    next: D3Stage,
    passed: Option<SubtestView>,
    name: Seq<char>,
    reason: Seq<char>,
)
    requires
        pre.stage != D3Stage::Done,
        fails_closed(d3_views(pre.report.subtests@), false),
    ensures
        fails_closed(seq![passed_view(name, fail_closed_proves(), seq![reason])], false),
        fails_closed(seq![failed_view(name, fail_closed_proves(), reason)], true),
        closed_at(pre, post, name, reason) ==> {
            let v = d3_views(post.report.subtests@);
            &&& fails_closed(v, true)
            &&& v.len() > 0
            &&& v.last() == failed_view(name, fail_closed_proves(), reason)
        },
        advanced(pre, post, next, passed) && (passed matches Some(p) ==> p.reason is None) ==> fails_closed(
            d3_views(post.report.subtests@),
            next == D3Stage::Done,
        ),
{
    let pv = d3_views(pre.report.subtests@);
    if closed_at(pre, post, name, reason) {
        let v = d3_views(post.report.subtests@);
        assert forall|i: int| 0 <= i < v.len() && !(i == v.len() - 1) implies (#[trigger] v[i]).reason is None by {
            assert(v[i] == pv[i]);
        }
    }
    if advanced(pre, post, next, passed) && (passed matches Some(p) ==> p.reason is None) {
        let v = d3_views(post.report.subtests@);
        assert forall|i: int| 0 <= i < v.len() implies (#[trigger] v[i]).reason is None by {
            if i < pv.len() {
                assert(v[i] == pv[i]);
            }
        }
    }
}

/// One step of a D3 run: from an unfinished stage the run appends at most
/// one sub-test; a failed one ends the run and is the blocking stage's, with
/// its reason and no details. Every `on_*` method takes such a step.
pub open spec fn d3_step(pre: D3Run, post: D3Run) -> bool {
    let pv = d3_views(pre.report.subtests@);
    let v = d3_views(post.report.subtests@);
    &&& pre.stage != D3Stage::Done
    &&& (v == pv || v == pv.push(v.last()))
    &&& (v.len() > pv.len() && v.last().reason is Some) ==> (post.stage == D3Stage::Done && v.last().details
        == Seq::<Seq<char>>::empty() && v.last().proves == fail_closed_proves())
}

/// What holds of a D3 run at every point: it has sub-tests; while it runs
/// they all passed; once done at most the last one failed, and a failed last
/// one names the blocking stage with its reason and no details.
pub open spec fn d3_run_closed_properly(r: D3Run) -> bool {
    let v = d3_views(r.report.subtests@);
    &&& v.len() >= 1
    &&& fails_closed(v, r.stage == D3Stage::Done)
    &&& (v.last().reason is Some ==> v.last().details == Seq::<Seq<char>>::empty()
        && v.last().proves == fail_closed_proves())
}

proof fn d3_trace_upto(runs: Seq<D3Run>, k: int)
    requires
        runs.len() >= 1,
        runs[0].stage == D3Stage::LoadCredential,
        d3_views(runs[0].report.subtests@).len() == 1,
        d3_views(runs[0].report.subtests@)[0].reason is None,
        forall|i: int| 0 <= i < runs.len() - 1 ==> d3_step(#[trigger] runs[i], runs[i + 1]),
        0 <= k < runs.len(),
    ensures
        d3_run_closed_properly(runs[k]),
    decreases k,
{
    if k > 0 {
        d3_trace_upto(runs, k - 1);
        let pre = runs[k - 1];
        let post = runs[k];
        assert(d3_step(pre, post));
        let pv = d3_views(pre.report.subtests@);
        let v = d3_views(post.report.subtests@);
        assert(fails_closed(pv, false));
        if v.len() > pv.len() {
            assert forall|i: int| 0 <= i < pv.len() implies #[trigger] v[i] == pv[i] by {}
        }
    }
}

/// Law: a D3 run fails closed. Started with its passed configuration
/// sub-test and driven by `on_*` steps, at every point it has sub-tests;
/// while it runs all of them passed; once done at most one failed, the last,
/// and that one is the blocking stage's, carrying its reason and no details.
/// So the report is green exactly when no sub-test failed.
pub proof fn d3_trace_fails_closed(runs: Seq<D3Run>)
    requires
        runs.len() >= 1,
        runs[0].stage == D3Stage::LoadCredential,
        d3_views(runs[0].report.subtests@).len() == 1,
        d3_views(runs[0].report.subtests@)[0].reason is None,
        forall|i: int| 0 <= i < runs.len() - 1 ==> d3_step(#[trigger] runs[i], runs[i + 1]),
    ensures
        forall|i: int| 0 <= i < runs.len() ==> d3_run_closed_properly(#[trigger] runs[i]),
{
    assert forall|i: int| 0 <= i < runs.len() implies d3_run_closed_properly(#[trigger] runs[i]) by {
        d3_trace_upto(runs, i);
    }
}

} // verus!
