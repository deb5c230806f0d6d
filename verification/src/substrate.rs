//! Node composition vocabulary: opt-in policy, local persistence layout,
//! operator API surface, background workers, market identifiers and the parity
//! demo checklist.
use vstd::prelude::*;

use crate::text::owned;

verus! {

/// The umbrella stack's name.
pub fn substrate_stack_name() -> (r: &'static str)
    ensures
        r@ == "agent-wire-substrate"@,
{
    "agent-wire-substrate"
}

/// Which markets and triggers the operator opted into.
#[derive(Debug, Clone, Copy, PartialEq, Eq, Structural)]
pub struct OptInPolicy {
    pub compute_provider: bool,
    pub compute_requester: bool,
    pub storage_provider: bool,
    pub relay_operator: bool,
    pub wake_triggers: bool,
}

/// Where the node keeps its configuration, state and caches.
#[derive(Debug, Clone, PartialEq, Eq)]
pub struct LocalPersistence {
    pub config_dir: String,
    pub state_dir: String,
    pub contribution_cache_dir: String,
    pub key_store_label: String,
}

impl OptInPolicy {
    /// The demo node opts into every market and into wake triggers.
    pub fn all_opted_in() -> (r: Self)
        ensures
            r.compute_provider && r.compute_requester && r.storage_provider && r.relay_operator
                && r.wake_triggers,
    {
        OptInPolicy {
            compute_provider: true,
            compute_requester: true,
            storage_provider: true,
            relay_operator: true,
            wake_triggers: true,
        }
    }
}

impl LocalPersistence {
    /// The default layout under `~/.wire-node`.
    pub fn default_layout() -> (r: Self)
        ensures
            r.config_dir@ == "~/.wire-node/config"@,
            r.state_dir@ == "~/.wire-node/state"@,
            r.contribution_cache_dir@ == "~/.wire-node/contributions"@,
            r.key_store_label@ == "agent-wire-substrate-node-v2"@,
    {
        LocalPersistence {
            config_dir: owned("~/.wire-node/config"),
            state_dir: owned("~/.wire-node/state"),
            contribution_cache_dir: owned("~/.wire-node/contributions"),
            key_store_label: owned("agent-wire-substrate-node-v2"),
        }
    }
}

#[derive(Debug, Clone, Copy, PartialEq, Eq, Structural)]
pub enum OperatorApiProtocol {
    OperatorHttp,
    Mcp,
    Ipc,
    Rest,
}

#[derive(Debug, Clone, Copy, PartialEq, Eq, Structural)]
pub enum OperatorRoute {
    AuthenticateMainnet,
    SyncContributions,
    PublishComputeOffer,
    RequestComputeQuote,
    DispatchComputeJob,
    PinStorage,
    LeaseRelayPath,
    ResolveVocabulary,
    WaitForWakeTrigger,
}

/// The operator API: its local endpoint URL, protocols and routes.
#[derive(Debug, Clone, PartialEq, Eq)]
pub struct OperatorApiSurface {
    pub endpoint: String,
    pub protocols: Vec<OperatorApiProtocol>,
    pub routes: Vec<OperatorRoute>,
}

pub open spec fn all_protocols() -> Seq<OperatorApiProtocol> {
    seq![
        OperatorApiProtocol::OperatorHttp,
        OperatorApiProtocol::Mcp,
        OperatorApiProtocol::Ipc,
        OperatorApiProtocol::Rest,
    ]
}

pub open spec fn all_routes() -> Seq<OperatorRoute> {
    seq![
        OperatorRoute::AuthenticateMainnet,
        OperatorRoute::SyncContributions,
        OperatorRoute::PublishComputeOffer,
        OperatorRoute::RequestComputeQuote,
        OperatorRoute::DispatchComputeJob,
        OperatorRoute::PinStorage,
        OperatorRoute::LeaseRelayPath,
        OperatorRoute::ResolveVocabulary,
        OperatorRoute::WaitForWakeTrigger,
    ]
}

impl OperatorApiSurface {
    /// Every protocol and every route enabled on `endpoint`.
    pub fn all_enabled(endpoint: String) -> (r: Self)
        ensures
            r.endpoint == endpoint,
            r.protocols@ == all_protocols(),
            r.routes@ == all_routes(),
    {
        let mut protocols = Vec::new();
        protocols.push(OperatorApiProtocol::OperatorHttp);
        protocols.push(OperatorApiProtocol::Mcp);
        protocols.push(OperatorApiProtocol::Ipc);
        protocols.push(OperatorApiProtocol::Rest);
        let mut routes = Vec::new();
        routes.push(OperatorRoute::AuthenticateMainnet);
        routes.push(OperatorRoute::SyncContributions);
        routes.push(OperatorRoute::PublishComputeOffer);
        routes.push(OperatorRoute::RequestComputeQuote);
        routes.push(OperatorRoute::DispatchComputeJob);
        routes.push(OperatorRoute::PinStorage);
        routes.push(OperatorRoute::LeaseRelayPath);
        routes.push(OperatorRoute::ResolveVocabulary);
        routes.push(OperatorRoute::WaitForWakeTrigger);
        assert(protocols@ =~= all_protocols());
        assert(routes@ =~= all_routes());
        OperatorApiSurface { endpoint, protocols, routes }
    }
}

#[derive(Debug, Clone, Copy, PartialEq, Eq, Structural)]
pub enum BackgroundWorker {
    ContributionSync,
    ComputeProvider,
    ComputeRequester,
    TunnelDelivery,
    VocabularySync,
    WakeTriggerListener,
}

pub open spec fn default_workers() -> Seq<BackgroundWorker> {
    seq![
        BackgroundWorker::ContributionSync,
        BackgroundWorker::ComputeProvider,
        BackgroundWorker::ComputeRequester,
        BackgroundWorker::TunnelDelivery,
        BackgroundWorker::VocabularySync,
        BackgroundWorker::WakeTriggerListener,
    ]
}

/// The substrate's default background workers, in start order.
pub fn substrate_default_workers() -> (r: Vec<BackgroundWorker>)
    ensures
        r@ == default_workers(),
{
    let mut w = Vec::new();
    w.push(BackgroundWorker::ContributionSync);
    w.push(BackgroundWorker::ComputeProvider);
    w.push(BackgroundWorker::ComputeRequester);
    w.push(BackgroundWorker::TunnelDelivery);
    w.push(BackgroundWorker::VocabularySync);
    w.push(BackgroundWorker::WakeTriggerListener);
    assert(w@ =~= default_workers());
    w
}

fn has_route(routes: &Vec<OperatorRoute>, r: OperatorRoute) -> (b: bool)
    ensures
        b == routes@.contains(r),
{
    let mut i: usize = 0;
    while i < routes.len()
        invariant
            i <= routes.len(),
            forall|k: int| 0 <= k < i ==> routes@[k] != r,
        decreases routes.len() - i,
    {
        if routes[i] == r {
            return true;
        }
        i = i + 1;
    }
    false
}

fn has_worker(workers: &Vec<BackgroundWorker>, w: BackgroundWorker) -> (b: bool)
    ensures
        b == workers@.contains(w),
{
    let mut i: usize = 0;
    while i < workers.len()
        invariant
            i <= workers.len(),
            forall|k: int| 0 <= k < i ==> workers@[k] != w,
        decreases workers.len() - i,
    {
        if workers[i] == w {
            return true;
        }
        i = i + 1;
    }
    false
}

/// The behaviours the parity demo must show: every operator route, and the
/// provider, requester, tunnel-delivery, vocabulary and wake-trigger workers.
pub open spec fn parity_holds(routes: Seq<OperatorRoute>, workers: Seq<BackgroundWorker>) -> bool {
    &&& forall|i: int| 0 <= i < 9 ==> routes.contains(#[trigger] all_routes()[i])
    &&& workers.contains(BackgroundWorker::ComputeProvider)
    &&& workers.contains(BackgroundWorker::ComputeRequester)
    &&& workers.contains(BackgroundWorker::TunnelDelivery)
    &&& workers.contains(BackgroundWorker::VocabularySync)
    &&& workers.contains(BackgroundWorker::WakeTriggerListener)
}

/// Whether a composed node's API routes and background workers cover the
/// parity behaviours.
pub fn parity_demo_assertions(routes: &Vec<OperatorRoute>, workers: &Vec<BackgroundWorker>) -> (r: bool)
    ensures
        r == parity_holds(routes@, workers@),
{
    let r = has_route(routes, OperatorRoute::AuthenticateMainnet)
        && has_route(routes, OperatorRoute::SyncContributions)
        && has_route(routes, OperatorRoute::PublishComputeOffer)
        && has_route(routes, OperatorRoute::RequestComputeQuote)
        && has_route(routes, OperatorRoute::DispatchComputeJob)
        && has_route(routes, OperatorRoute::PinStorage)
        && has_route(routes, OperatorRoute::LeaseRelayPath)
        && has_route(routes, OperatorRoute::ResolveVocabulary)
        && has_route(routes, OperatorRoute::WaitForWakeTrigger)
        && has_worker(workers, BackgroundWorker::ComputeProvider)
        && has_worker(workers, BackgroundWorker::ComputeRequester)
        && has_worker(workers, BackgroundWorker::TunnelDelivery)
        && has_worker(workers, BackgroundWorker::VocabularySync)
        && has_worker(workers, BackgroundWorker::WakeTriggerListener);
    proof {
        if r {
            assert forall|i: int| 0 <= i < 9 implies routes@.contains(#[trigger] all_routes()[i]) by {
                if i == 0 {} else if i == 1 {} else if i == 2 {} else if i == 3 {} else if i == 4 {}
                else if i == 5 {} else if i == 6 {} else if i == 7 {} else {}
            }
        } else {
            if parity_holds(routes@, workers@) {
                assert(routes@.contains(all_routes()[0]));
                assert(routes@.contains(all_routes()[1]));
                assert(routes@.contains(all_routes()[2]));
                assert(routes@.contains(all_routes()[3]));
                assert(routes@.contains(all_routes()[4]));
                assert(routes@.contains(all_routes()[5]));
                assert(routes@.contains(all_routes()[6]));
                assert(routes@.contains(all_routes()[7]));
                assert(routes@.contains(all_routes()[8]));
            }
        }
    }
    r
}

/// Law: a node composed with every route enabled and the default workers
/// satisfies the parity checklist.
pub proof fn default_composition_has_parity()
    ensures
        parity_holds(all_routes(), default_workers()),
{
    assert forall|i: int| 0 <= i < 9 implies all_routes().contains(#[trigger] all_routes()[i]) by {}
    assert(default_workers()[1] == BackgroundWorker::ComputeProvider);
    assert(default_workers()[2] == BackgroundWorker::ComputeRequester);
    assert(default_workers()[3] == BackgroundWorker::TunnelDelivery);
    assert(default_workers()[4] == BackgroundWorker::VocabularySync);
    assert(default_workers()[5] == BackgroundWorker::WakeTriggerListener);
}

#[derive(Debug, Clone, PartialEq, Eq)]
pub struct ParityDemoStep {
    pub name: String,
    pub detail: String,
}

/// The steps of the parity demo, as name and detail.
pub open spec fn parity_steps() -> Seq<(Seq<char>, Seq<char>)> {
    seq![
        ("authenticate-mainnet"@, "master public key and mainnet endpoint are present"@),
        ("sync-contributions"@, "operator REST/MCP/IPC route surface includes contribution sync"@),
        ("compute-provider"@, "compute offer and provider worker are composed"@),
        ("compute-requester"@, "compute job contract and requester worker are composed"@),
        ("tunnel-p2p-delivery"@, "Cloudflare transport opens a tunnel session with callback delivery"@),
        ("storage-market"@, "storage offer is available for pin and retrieval wiring"@),
        ("relay-market"@, "relay offer is available for path lease wiring"@),
        ("vocabulary-handling"@, "foundation vocabulary entry is resolved inside node composition"@),
        ("wake-up-triggers"@, "background lifecycle listens for message, task, and contribution events"@),
    ]
}

pub open spec fn step_view(s: ParityDemoStep) -> (Seq<char>, Seq<char>) {
    (s.name@, s.detail@)
}

/// The parity demo's steps: authentication, contribution sync, the compute
/// provider and requester, tunnel delivery, the storage and relay markets,
/// vocabulary handling and wake-up triggers.
pub fn parity_demo_steps() -> (r: Vec<ParityDemoStep>)
    ensures
        r@.map_values(|s: ParityDemoStep| step_view(s)) == parity_steps(),
{
    let mut steps: Vec<ParityDemoStep> = Vec::new();
    steps.push(ParityDemoStep { name: owned("authenticate-mainnet"), detail: owned("master public key and mainnet endpoint are present") });
    steps.push(ParityDemoStep { name: owned("sync-contributions"), detail: owned("operator REST/MCP/IPC route surface includes contribution sync") });
    steps.push(ParityDemoStep { name: owned("compute-provider"), detail: owned("compute offer and provider worker are composed") });
    steps.push(ParityDemoStep { name: owned("compute-requester"), detail: owned("compute job contract and requester worker are composed") });
    steps.push(ParityDemoStep { name: owned("tunnel-p2p-delivery"), detail: owned("Cloudflare transport opens a tunnel session with callback delivery") });
    steps.push(ParityDemoStep { name: owned("storage-market"), detail: owned("storage offer is available for pin and retrieval wiring") });
    steps.push(ParityDemoStep { name: owned("relay-market"), detail: owned("relay offer is available for path lease wiring") });
    steps.push(ParityDemoStep { name: owned("vocabulary-handling"), detail: owned("foundation vocabulary entry is resolved inside node composition") });
    steps.push(ParityDemoStep { name: owned("wake-up-triggers"), detail: owned("background lifecycle listens for message, task, and contribution events") });
    assert(steps@.map_values(|s: ParityDemoStep| step_view(s)) =~= parity_steps());
    steps
}

pub open spec fn parity_markdown_header() -> Seq<char> {
    "# Agent Wire Substrate Node 2.0 Parity Demo\n\nThis dry-run uses only substrate-tier crates and does not import pyramid-app code.\n\n## Steps\n\n"@
}

/// The Markdown lines of the steps, one `- name: detail` line each.
pub open spec fn steps_markdown(steps: Seq<(Seq<char>, Seq<char>)>) -> Seq<char>
    decreases steps.len(),
{
    if steps.len() == 0 {
        Seq::empty()
    } else {
        steps_markdown(steps.drop_last()) + "- "@ + steps.last().0 + ": "@ + steps.last().1 + "\n"@
    }
}

/// The parity demo report in Markdown: a header and one line per step.
pub fn parity_demo_markdown(steps: &Vec<ParityDemoStep>) -> (out: String)
    ensures
        out@ == parity_markdown_header() + steps_markdown(steps@.map_values(|s: ParityDemoStep| step_view(s))),
{
    let mut out = owned("# Agent Wire Substrate Node 2.0 Parity Demo\n\nThis dry-run uses only substrate-tier crates and does not import pyramid-app code.\n\n## Steps\n\n");
    let ghost views = steps@.map_values(|s: ParityDemoStep| step_view(s));
    let mut i: usize = 0;
    while i < steps.len()
        invariant
            i <= steps.len(),
            views == steps@.map_values(|s: ParityDemoStep| step_view(s)),
            out@ == parity_markdown_header() + steps_markdown(views.subrange(0, i as int)),
        decreases steps.len() - i,
    {
        out.append("- ");
        out.append(steps[i].name.as_str());
        out.append(": ");
        out.append(steps[i].detail.as_str());
        out.append("\n");
        proof {
            let pre = views.subrange(0, i as int);
            let next = views.subrange(0, i + 1);
            assert(next.drop_last() =~= pre);
            assert(next.last() == step_view(steps@[i as int]));
        }
        i = i + 1;
    }
    assert(views.subrange(0, views.len() as int) =~= views);
    out
}

// Market identifiers and policies shared by the relay and storage markets.

#[derive(Debug, Clone, PartialEq, Eq, Hash)]
pub struct RelayOfferId(pub String);

#[derive(Debug, Clone, PartialEq, Eq, Hash)]
pub struct PathLeaseId(pub String);

#[derive(Debug, Clone, Copy, PartialEq, Eq, Structural)]
pub enum HopCapability {
    HttpTunnel,
    EventStream,
    StoreAndForward,
}

#[derive(Debug, Clone, Copy, PartialEq, Eq, Structural)]
pub enum PrivacyTier {
    Direct,
    Shielded,
    Onion,
}

#[derive(Debug, Clone, Copy, PartialEq, Eq, Structural)]
pub struct RotationPolicy {
    pub rotate_after_seconds: u64,
    pub max_reuses: u32,
}

#[derive(Debug, Clone, PartialEq, Eq, Hash)]
pub struct StorageOfferId(pub String);

#[derive(Debug, Clone, PartialEq, Eq, Hash)]
pub struct PinCommitmentId(pub String);

#[derive(Debug, Clone, PartialEq, Eq, Hash)]
pub struct RetrievalRequestId(pub String);

#[derive(Debug, Clone, Copy, PartialEq, Eq, Structural)]
pub struct ReplicationFactor(pub u16);

#[derive(Debug, Clone, Copy, PartialEq, Eq, Structural)]
pub struct RetentionPolicy {
    pub minimum_seconds: u64,
    pub renew_before_expiry_seconds: Option<u64>,
}

} // verus!
