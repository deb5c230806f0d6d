//! The V1 node surface: CLI commands and their grammar, dispositions and
//! protocol statuses, the local HTTP listener's request-line handling and
//! route matching, maintenance cadences, and the identity store's location.
use vstd::prelude::*;

use crate::text::{
    chars_of, decimal, digit_char, first_line, join_path, owned, path_join, push_char, seq_ends_with,
    seq_starts_with, split_words, str_eq, strip_both, strip_leading, strip_trailing, trim_char, words,
};

verus! {

#[derive(Clone, Copy, Debug, PartialEq, Eq, Structural)]
pub enum V1SurfaceDisposition {
    Essential,
    NiceToHave,
    Deferred,
    NotInV1,
}

#[derive(Clone, Copy, Debug, PartialEq, Eq, Structural)]
pub enum V1CliCommand {
    SurfaceManifest,
    IdentitySignup,
    IdentityLogin,
    IdentityStatus,
    ChainCompile,
    ChainExecute,
    ChainQuote,
    ComputeOffer,
    ComputeQuote,
    ComputePurchase,
    ComputeFill,
    ComputeJobs,
    McpManifest,
    McpDispatch,
    HttpManifest,
    HttpDispatch,
    HttpSmoke,
    IdentityPersist,
    MaintenanceRunOnce,
    MaintenanceScheduleTick,
    RuntimeSmoke,
}

pub open spec fn cli_command_name(c: V1CliCommand) -> Seq<char> {
    match c {
        V1CliCommand::SurfaceManifest => "surface manifest"@,
        V1CliCommand::IdentitySignup => "identity signup"@,
        V1CliCommand::IdentityLogin => "identity login"@,
        V1CliCommand::IdentityStatus => "identity status"@,
        V1CliCommand::ChainCompile => "chain compile"@,
        V1CliCommand::ChainExecute => "chain execute"@,
        V1CliCommand::ChainQuote => "chain quote"@,
        V1CliCommand::ComputeOffer => "compute offer"@,
        V1CliCommand::ComputeQuote => "compute quote"@,
        V1CliCommand::ComputePurchase => "compute purchase"@,
        V1CliCommand::ComputeFill => "compute fill"@,
        V1CliCommand::ComputeJobs => "compute jobs"@,
        V1CliCommand::McpManifest => "mcp manifest"@,
        V1CliCommand::McpDispatch => "mcp dispatch"@,
        V1CliCommand::HttpManifest => "http manifest"@,
        V1CliCommand::HttpDispatch => "http dispatch"@,
        V1CliCommand::HttpSmoke => "http smoke"@,
        V1CliCommand::IdentityPersist => "identity persist"@,
        V1CliCommand::MaintenanceRunOnce => "maintenance run-once"@,
        V1CliCommand::MaintenanceScheduleTick => "maintenance schedule-tick"@,
        V1CliCommand::RuntimeSmoke => "runtime smoke"@,
    }
}

/// Every CLI command, in manifest order.
pub open spec fn cli_commands() -> Seq<V1CliCommand> {
    seq![
        V1CliCommand::SurfaceManifest,
        V1CliCommand::IdentitySignup,
        V1CliCommand::IdentityLogin,
        V1CliCommand::IdentityStatus,
        V1CliCommand::IdentityPersist,
        V1CliCommand::ChainCompile,
        V1CliCommand::ChainExecute,
        V1CliCommand::ChainQuote,
        V1CliCommand::ComputeOffer,
        V1CliCommand::ComputeQuote,
        V1CliCommand::ComputePurchase,
        V1CliCommand::ComputeFill,
        V1CliCommand::ComputeJobs,
        V1CliCommand::McpManifest,
        V1CliCommand::McpDispatch,
        V1CliCommand::HttpManifest,
        V1CliCommand::HttpDispatch,
        V1CliCommand::HttpSmoke,
        V1CliCommand::MaintenanceRunOnce,
        V1CliCommand::MaintenanceScheduleTick,
        V1CliCommand::RuntimeSmoke,
    ]
}

impl V1CliCommand {
    /// The command as it is typed.
    pub fn name(&self) -> (r: &'static str)
        ensures
            r@ == cli_command_name(*self),
    {
        match self {
            V1CliCommand::SurfaceManifest => "surface manifest",
            V1CliCommand::IdentitySignup => "identity signup",
            V1CliCommand::IdentityLogin => "identity login",
            V1CliCommand::IdentityStatus => "identity status",
            V1CliCommand::ChainCompile => "chain compile",
            V1CliCommand::ChainExecute => "chain execute",
            V1CliCommand::ChainQuote => "chain quote",
            V1CliCommand::ComputeOffer => "compute offer",
            V1CliCommand::ComputeQuote => "compute quote",
            V1CliCommand::ComputePurchase => "compute purchase",
            V1CliCommand::ComputeFill => "compute fill",
            V1CliCommand::ComputeJobs => "compute jobs",
            V1CliCommand::McpManifest => "mcp manifest",
            V1CliCommand::McpDispatch => "mcp dispatch",
            V1CliCommand::HttpManifest => "http manifest",
            V1CliCommand::HttpDispatch => "http dispatch",
            V1CliCommand::HttpSmoke => "http smoke",
            V1CliCommand::IdentityPersist => "identity persist",
            V1CliCommand::MaintenanceRunOnce => "maintenance run-once",
            V1CliCommand::MaintenanceScheduleTick => "maintenance schedule-tick",
            V1CliCommand::RuntimeSmoke => "runtime smoke",
        }
    }

    /// Every CLI command, in manifest order.
    pub fn all() -> (r: Vec<V1CliCommand>)
        ensures
            r@ == cli_commands(),
    {
        let r = vec![
            V1CliCommand::SurfaceManifest,
            V1CliCommand::IdentitySignup,
            V1CliCommand::IdentityLogin,
            V1CliCommand::IdentityStatus,
            V1CliCommand::IdentityPersist,
            V1CliCommand::ChainCompile,
            V1CliCommand::ChainExecute,
            V1CliCommand::ChainQuote,
            V1CliCommand::ComputeOffer,
            V1CliCommand::ComputeQuote,
            V1CliCommand::ComputePurchase,
            V1CliCommand::ComputeFill,
            V1CliCommand::ComputeJobs,
            V1CliCommand::McpManifest,
            V1CliCommand::McpDispatch,
            V1CliCommand::HttpManifest,
            V1CliCommand::HttpDispatch,
            V1CliCommand::HttpSmoke,
            V1CliCommand::MaintenanceRunOnce,
            V1CliCommand::MaintenanceScheduleTick,
            V1CliCommand::RuntimeSmoke,
        ];
        assert(r@ =~= cli_commands());
        r
    }
}

#[derive(Clone, Debug, PartialEq, Eq)]
pub struct CliSurface {
    pub command: V1CliCommand,
    pub name: String,
    pub disposition: V1SurfaceDisposition,
}

/// The CLI part of the V1 surface manifest: every command, named, and
/// essential.
pub fn cli_surfaces() -> (r: Vec<CliSurface>)
    ensures
        r@.len() == cli_commands().len(),
        forall|i: int|
            0 <= i < r@.len() ==> (#[trigger] r@[i]).command == cli_commands()[i] && r@[i].name@
                == cli_command_name(cli_commands()[i]) && r@[i].disposition == V1SurfaceDisposition::Essential,
{
    let all = V1CliCommand::all();
    let mut r: Vec<CliSurface> = Vec::new();
    let mut i: usize = 0;
    while i < all.len()
        invariant
            all@ == cli_commands(),
            i <= all.len(),
            r@.len() == i,
            forall|k: int|
                0 <= k < i ==> (#[trigger] r@[k]).command == cli_commands()[k] && r@[k].name@
                    == cli_command_name(cli_commands()[k]) && r@[k].disposition
                    == V1SurfaceDisposition::Essential,
        decreases all.len() - i,
    {
        let command = all[i];
        r.push(CliSurface { command, name: owned(command.name()), disposition: V1SurfaceDisposition::Essential });
        i = i + 1;
    }
    r
}

#[derive(Clone, Copy, Debug, PartialEq, Eq, Structural)]
pub enum MaintenanceImplementation {
    Local,
    StubbedFuture,
}

/// The MCP tools of the wire surface.
#[derive(Clone, Copy, Debug, PartialEq, Eq, Structural)]
pub enum McpTool {
    WireIdentify,
    WireStatus,
    WireMe,
    WireBalance,
    WirePulse,
    WireQuery,
    WireContribute,
    WireRead,
    WireAccessContribution,
    WireInspect,
    WireResolveHandle,
    WireHandles,
    WireActionInvoke,
    WireActionChain,
    WirePrepare,
    WireMarket,
    WireMessages,
    WireTasks,
    WireWait,
    WireRoster,
    WireMyContributions,
    WireEarnings,
    WireSupersede,
    WireCorrect,
    WireBrowse,
    WireGraph,
    WirePearlDive,
    WireCorpora,
    WireDocuments,
    WireReadDocument,
    WireDiscover,
    WireSubscriptions,
    WireNotifications,
    WireOpportunities,
    WireRate,
    WireFlag,
    WireTemplates,
    WireListManage,
    WireQueryRipePredictions,
    WireRetract,
    WireCircles,
    WireCircleAdmin,
    WireAgentManage,
    WireEventSubscriptions,
    WireFeedback,
    WireGames,
    WirePatrol,
    WirePins,
    WireRequests,
    WireSync,
    WireLegal,
    WireMesh,
    WireMeshBoard,
    WireMeshIntent,
    WireMeshStatus,
}

/// The essential tools of V1.
pub open spec fn essential_tool(tool: McpTool) -> bool {
    ||| tool == McpTool::WireIdentify
    ||| tool == McpTool::WireStatus
    ||| tool == McpTool::WireMe
    ||| tool == McpTool::WireBalance
    ||| tool == McpTool::WirePulse
    ||| tool == McpTool::WireQuery
    ||| tool == McpTool::WireContribute
    ||| tool == McpTool::WireRead
    ||| tool == McpTool::WireAccessContribution
    ||| tool == McpTool::WireInspect
    ||| tool == McpTool::WireResolveHandle
    ||| tool == McpTool::WireHandles
    ||| tool == McpTool::WireActionInvoke
    ||| tool == McpTool::WireActionChain
    ||| tool == McpTool::WirePrepare
    ||| tool == McpTool::WireMarket
    ||| tool == McpTool::WireMessages
    ||| tool == McpTool::WireTasks
    ||| tool == McpTool::WireWait
    ||| tool == McpTool::WireRoster
    ||| tool == McpTool::WireMyContributions
    ||| tool == McpTool::WireEarnings
    ||| tool == McpTool::WireSupersede
    ||| tool == McpTool::WireCorrect
}

/// The tools V1 offers as nice to have.
pub open spec fn nice_to_have_tool(tool: McpTool) -> bool {
    ||| tool == McpTool::WireBrowse
    ||| tool == McpTool::WireGraph
    ||| tool == McpTool::WirePearlDive
    ||| tool == McpTool::WireCorpora
    ||| tool == McpTool::WireDocuments
    ||| tool == McpTool::WireReadDocument
    ||| tool == McpTool::WireDiscover
    ||| tool == McpTool::WireSubscriptions
    ||| tool == McpTool::WireNotifications
    ||| tool == McpTool::WireOpportunities
    ||| tool == McpTool::WireRate
    ||| tool == McpTool::WireFlag
    ||| tool == McpTool::WireTemplates
    ||| tool == McpTool::WireListManage
    ||| tool == McpTool::WireQueryRipePredictions
    ||| tool == McpTool::WireRetract
}

/// How V1 treats a tool: essential, nice to have, or deferred past V1.
pub open spec fn tool_disposition(tool: McpTool) -> V1SurfaceDisposition {
    if essential_tool(tool) {
        V1SurfaceDisposition::Essential
    } else if nice_to_have_tool(tool) {
        V1SurfaceDisposition::NiceToHave
    } else {
        V1SurfaceDisposition::Deferred
    }
}

pub fn mcp_disposition(tool: McpTool) -> (r: V1SurfaceDisposition)
    ensures
        r == tool_disposition(tool),
{
    match tool {
        McpTool::WireIdentify |
        McpTool::WireStatus |
        McpTool::WireMe |
        McpTool::WireBalance |
        McpTool::WirePulse |
        McpTool::WireQuery |
        McpTool::WireContribute |
        McpTool::WireRead |
        McpTool::WireAccessContribution |
        McpTool::WireInspect |
        McpTool::WireResolveHandle |
        McpTool::WireHandles |
        McpTool::WireActionInvoke |
        McpTool::WireActionChain |
        McpTool::WirePrepare |
        McpTool::WireMarket |
        McpTool::WireMessages |
        McpTool::WireTasks |
        McpTool::WireWait |
        McpTool::WireRoster |
        McpTool::WireMyContributions |
        McpTool::WireEarnings |
        McpTool::WireSupersede |
        McpTool::WireCorrect => V1SurfaceDisposition::Essential,
        McpTool::WireBrowse |
        McpTool::WireGraph |
        McpTool::WirePearlDive |
        McpTool::WireCorpora |
        McpTool::WireDocuments |
        McpTool::WireReadDocument |
        McpTool::WireDiscover |
        McpTool::WireSubscriptions |
        McpTool::WireNotifications |
        McpTool::WireOpportunities |
        McpTool::WireRate |
        McpTool::WireFlag |
        McpTool::WireTemplates |
        McpTool::WireListManage |
        McpTool::WireQueryRipePredictions |
        McpTool::WireRetract => V1SurfaceDisposition::NiceToHave,
        McpTool::WireCircles |
        McpTool::WireCircleAdmin |
        McpTool::WireAgentManage |
        McpTool::WireEventSubscriptions |
        McpTool::WireFeedback |
        McpTool::WireGames |
        McpTool::WirePatrol |
        McpTool::WirePins |
        McpTool::WireRequests |
        McpTool::WireSync |
        McpTool::WireLegal |
        McpTool::WireMesh |
        McpTool::WireMeshBoard |
        McpTool::WireMeshIntent |
        McpTool::WireMeshStatus => V1SurfaceDisposition::Deferred,
    }
}

/// The maintenance tasks of a node.
#[derive(Clone, Copy, Debug, PartialEq, Eq, Structural)]
pub enum MaintenanceTask {
    CallbackSecretRetention,
    CoordinationEventRetention,
    FillIdempotencyRetention,
    ProviderSettlementExpiry,
    PurchaseExpiry,
    MarketSnapshot,
    MarketSnapshotRetention,
    WorkerLivenessCheck,
    Sweep,
    StaleOffers,
    ChronicleRetention,
    ObservationRetention,
}

/// The tasks a node runs itself; the rest are stubs for later versions.
pub open spec fn locally_implemented(task: MaintenanceTask) -> bool {
    !(task == MaintenanceTask::Sweep || task == MaintenanceTask::StaleOffers || task
        == MaintenanceTask::ChronicleRetention || task == MaintenanceTask::ObservationRetention)
}

pub fn maintenance_implementation(task: MaintenanceTask) -> (r: MaintenanceImplementation)
    ensures
        r == (if locally_implemented(task) {
            MaintenanceImplementation::Local
        } else {
            MaintenanceImplementation::StubbedFuture
        }),
{
    match task {
        MaintenanceTask::CallbackSecretRetention | MaintenanceTask::CoordinationEventRetention
        | MaintenanceTask::FillIdempotencyRetention | MaintenanceTask::ProviderSettlementExpiry
        | MaintenanceTask::PurchaseExpiry | MaintenanceTask::MarketSnapshot
        | MaintenanceTask::MarketSnapshotRetention | MaintenanceTask::WorkerLivenessCheck => {
            MaintenanceImplementation::Local
        },
        MaintenanceTask::Sweep | MaintenanceTask::StaleOffers | MaintenanceTask::ChronicleRetention
        | MaintenanceTask::ObservationRetention => MaintenanceImplementation::StubbedFuture,
    }
}

/// How V1 treats a maintenance task: the market snapshots are nice to have,
/// the stubbed tasks are deferred, the other local tasks are essential.
pub open spec fn task_disposition(task: MaintenanceTask) -> V1SurfaceDisposition {
    if !locally_implemented(task) {
        V1SurfaceDisposition::Deferred
    } else if task == MaintenanceTask::MarketSnapshot || task == MaintenanceTask::MarketSnapshotRetention {
        V1SurfaceDisposition::NiceToHave
    } else {
        V1SurfaceDisposition::Essential
    }
}

pub fn maintenance_disposition(task: MaintenanceTask) -> (r: V1SurfaceDisposition)
    ensures
        r == task_disposition(task),
{
    match task {
        MaintenanceTask::CallbackSecretRetention | MaintenanceTask::CoordinationEventRetention
        | MaintenanceTask::FillIdempotencyRetention | MaintenanceTask::ProviderSettlementExpiry
        | MaintenanceTask::PurchaseExpiry | MaintenanceTask::WorkerLivenessCheck => {
            V1SurfaceDisposition::Essential
        },
        MaintenanceTask::MarketSnapshot | MaintenanceTask::MarketSnapshotRetention => {
            V1SurfaceDisposition::NiceToHave
        },
        MaintenanceTask::Sweep | MaintenanceTask::StaleOffers | MaintenanceTask::ChronicleRetention
        | MaintenanceTask::ObservationRetention => V1SurfaceDisposition::Deferred,
    }
}

/// A maintenance task is deferred past V1 exactly when the node only stubs
/// it.
pub proof fn stubbed_tasks_are_deferred(task: MaintenanceTask)
    ensures
        !locally_implemented(task) <==> task_disposition(task) == V1SurfaceDisposition::Deferred,
{
}

#[derive(Clone, Copy, Debug, PartialEq, Eq, Structural)]
pub enum V1ProtocolStatus {
    Ready,
    Deferred,
    StubbedOutOfV1,
}

pub open spec fn disposition_status(d: V1SurfaceDisposition) -> V1ProtocolStatus {
    match d {
        V1SurfaceDisposition::Essential | V1SurfaceDisposition::NiceToHave => V1ProtocolStatus::Ready,
        V1SurfaceDisposition::Deferred => V1ProtocolStatus::Deferred,
        V1SurfaceDisposition::NotInV1 => V1ProtocolStatus::StubbedOutOfV1,
    }
}

/// What a binding with this disposition does in V1: essential and
/// nice-to-have bindings are ready, deferred ones are deferred, and the rest
/// are stubbed out.
pub fn status_for_disposition(d: V1SurfaceDisposition) -> (r: V1ProtocolStatus)
    ensures
        r == disposition_status(d),
{
    match d {
        V1SurfaceDisposition::Essential | V1SurfaceDisposition::NiceToHave => V1ProtocolStatus::Ready,
        V1SurfaceDisposition::Deferred => V1ProtocolStatus::Deferred,
        V1SurfaceDisposition::NotInV1 => V1ProtocolStatus::StubbedOutOfV1,
    }
}

pub open spec fn disposition_detail(d: V1SurfaceDisposition, surface: Seq<char>) -> Seq<char> {
    surface + match d {
        V1SurfaceDisposition::Essential => " is in the V1 node surface and ready for protocol-edge wiring"@,
        V1SurfaceDisposition::NiceToHave => " is V1 nice-to-have and exposed as a typed local binding"@,
        V1SurfaceDisposition::Deferred => " is registered but deferred beyond V1 runtime execution"@,
        V1SurfaceDisposition::NotInV1 => " is explicitly out of V1 scope"@,
    }
}

/// The detail line of a dispatched binding of kind `surface`.
pub fn detail_for_disposition(d: V1SurfaceDisposition, surface: &str) -> (r: String)
    ensures
        r@ == disposition_detail(d, surface@),
{
    let mut r = owned(surface);
    r.append(
        match d {
            V1SurfaceDisposition::Essential => " is in the V1 node surface and ready for protocol-edge wiring",
            V1SurfaceDisposition::NiceToHave => " is V1 nice-to-have and exposed as a typed local binding",
            V1SurfaceDisposition::Deferred => " is registered but deferred beyond V1 runtime execution",
            V1SurfaceDisposition::NotInV1 => " is explicitly out of V1 scope",
        },
    );
    r
}

#[derive(Clone, Copy, Debug, PartialEq, Eq, Structural)]
pub enum V1StepExecutionStatus {
    RoutedToComputeMarket,
    RoutedToWireProtocol,
    RoutedToTaskBoard,
    StubbedOutOfV1,
}

#[derive(Clone, Debug, PartialEq, Eq)]
pub struct V1ExecutedStep {
    pub name: String,
    pub operation_name: String,
    pub status: V1StepExecutionStatus,
    pub detail: String,
}

#[derive(Clone, Debug, PartialEq, Eq)]
pub struct V1ExecutionReport {
    pub total_steps: usize,
    pub all_steps_routable: bool,
    pub steps: Vec<V1ExecutedStep>,
}

// ---------------------------------------------------------------------------
// Action slugs.

pub open spec fn ascii_alnum(c: char) -> bool {
    ('a' <= c && c <= 'z') || ('A' <= c && c <= 'Z') || ('0' <= c && c <= '9')
}

pub open spec fn ascii_lower(c: char) -> char {
    if 'A' <= c && c <= 'Z' {
        ((c as u32) + 32) as char
    } else {
        c
    }
}

/// One step of building a slug: an ASCII letter or digit is kept (lowercased),
/// anything else becomes a `-` unless the slug already ends with one.
pub open spec fn slug_step(acc: Seq<char>, c: char) -> Seq<char> {
    if ascii_alnum(c) {
        acc.push(ascii_lower(c))
    } else if acc.len() > 0 && acc.last() == '-' {
        acc
    } else {
        acc.push('-')
    }
}

/// The slug built from `s` onto `acc`; building stops once the slug has 48
/// characters.
pub open spec fn slug_from(s: Seq<char>, acc: Seq<char>) -> Seq<char>
    decreases s.len(),
{
    if s.len() == 0 || acc.len() >= 48 {
        acc
    } else {
        slug_from(s.drop_first(), slug_step(acc, s[0]))
    }
}

/// The slug of an action name: built as above, without leading and trailing
/// dashes, and `action` when nothing is left.
pub open spec fn slug_of(s: Seq<char>) -> Seq<char> {
    let t = strip_both(slug_from(s, Seq::empty()), '-');
    if t.len() == 0 {
        "action"@
    } else {
        t
    }
}

pub fn slugify(value: &str) -> (r: String)
    ensures
        r@ == slug_of(value@),
{
    let cs = chars_of(value);
    let mut slug = String::new();
    let mut n: usize = 0;
    let mut i: usize = 0;
    assert(value@.subrange(0, value@.len() as int) =~= value@);
    while i < cs.len() && n < 48
        invariant
            cs@ == value@,
            i <= cs.len(),
            n == slug@.len(),
            n <= 48,
            slug_from(value@.subrange(i as int, value@.len() as int), slug@) == slug_from(value@, Seq::empty()),
        decreases cs.len() - i,
    {
        let c = cs[i];
        assert(value@.subrange(i as int, value@.len() as int).drop_first() =~= value@.subrange(
            i + 1,
            value@.len() as int,
        ));
        let ghost before = slug@;
        if ('a' <= c && c <= 'z') || ('0' <= c && c <= '9') {
            push_char(&mut slug, c);
            n = n + 1;
        } else if 'A' <= c && c <= 'Z' {
            let b: u8 = ((c as u32) + 32) as u8;
            let lower = b as char;
            assert(lower == ascii_lower(c));
            push_char(&mut slug, lower);
            n = n + 1;
        } else if n > 0 && slug.get_char(n - 1) == '-' {
        } else {
            push_char(&mut slug, '-');
            n = n + 1;
        }
        assert(slug@ == slug_step(before, c));
        i = i + 1;
    }
    proof {
        let rest = value@.subrange(i as int, value@.len() as int);
        if i == cs.len() {
            assert(rest.len() == 0);
        }
    }
    let t = trim_char(slug.as_str(), '-');
    if t.unicode_len() == 0 {
        owned("action")
    } else {
        t
    }
}

// ---------------------------------------------------------------------------
// HTTP listener.

#[derive(Clone, Debug, PartialEq, Eq)]
pub struct V1HttpRequest {
    pub method: String,
    pub path: String,
}

impl V1HttpRequest {
    pub fn new(method: &str, path: &str) -> (r: Self)
        ensures
            r.method@ == method@,
            r.path@ == path@,
    {
        V1HttpRequest { method: owned(method), path: owned(path) }
    }
}

#[derive(Clone, Copy, Debug, PartialEq, Eq, Structural)]
pub enum V1ListenerProtocol {
    Http,
    Mcp,
}

/// A request line is three white-space separated words: method, path and
/// version.
pub fn parse_http_request_line(line: &str) -> (r: Result<V1HttpRequest, String>)
    ensures
        words(line@).len() == 3 ==> (r matches Ok(req) && req.method@ == words(line@)[0] && req.path@
            == words(line@)[1]),
        words(line@).len() != 3 ==> (r matches Err(e) && e@ == "invalid HTTP request line"@),
{
    let parts = split_words(line);
    assert(parts@.len() == words(line@).len());
    if parts.len() == 3 {
        assert(parts@[0]@ == words(line@)[0]);
        assert(parts@[1]@ == words(line@)[1]);
        Ok(V1HttpRequest::new(parts[0].as_str(), parts[1].as_str()))
    } else {
        Err(owned("invalid HTTP request line"))
    }
}

pub open spec fn is_digit(c: char) -> bool {
    '0' <= c && c <= '9'
}

/// The value of a string of decimal digits.
pub open spec fn digits_value(s: Seq<char>) -> nat
    decreases s.len(),
{
    if s.len() == 0 {
        0
    } else {
        digits_value(s.drop_last()) * 10 + ((s.last() as u32) - ('0' as u32)) as nat
    }
}

/// The digits of a number literal: without its leading `+`, if any.
pub open spec fn unsigned_digits(s: Seq<char>) -> Seq<char> {
    if s.len() > 0 && s[0] == '+' {
        s.drop_first()
    } else {
        s
    }
}

pub open spec fn all_digits(d: Seq<char>) -> bool {
    forall|i: int| 0 <= i < d.len() ==> is_digit(#[trigger] d[i])
}

/// What `u16::from_str` accepts: an optional `+` followed by at least one
/// decimal digit, with a value that fits in 16 bits.
pub open spec fn u16_literal(s: Seq<char>) -> Option<u16> {
    let d = unsigned_digits(s);
    if d.len() > 0 && all_digits(d) && digits_value(d) <= u16::MAX {
        Some(digits_value(d) as u16)
    } else {
        None
    }
}

proof fn digits_value_grows(s: Seq<char>, c: char)
    requires
        is_digit(c),
    ensures
        digits_value(s.push(c)) == digits_value(s) * 10 + ((c as u32) - ('0' as u32)),
        digits_value(s.push(c)) >= digits_value(s),
{
    assert(s.push(c).drop_last() =~= s);
}

proof fn digits_value_monotone(s: Seq<char>, i: int)
    requires
        0 <= i <= s.len(),
        all_digits(s),
    ensures
        digits_value(s.take(i)) <= digits_value(s),
    decreases s.len() - i,
{
    if i < s.len() {
        digits_value_monotone(s, i + 1);
        assert(s.take(i + 1) =~= s.take(i).push(s[i]));
        digits_value_grows(s.take(i), s[i]);
    } else {
        assert(s.take(i) =~= s);
    }
}

/// Parses a `u16` as `u16::from_str` does.
pub fn parse_u16(s: &str) -> (r: Option<u16>)
    ensures
        r == u16_literal(s@),
{
    let cs = chars_of(s);
    let start: usize = if cs.len() > 0 && cs[0] == '+' {
        1
    } else {
        0
    };
    let ghost d = unsigned_digits(s@);
    assert(d =~= s@.subrange(start as int, s@.len() as int));
    if start == cs.len() {
        return None;
    }
    let mut value: u32 = 0;
    let mut i: usize = start;
    while i < cs.len()
        invariant
            cs@ == s@,
            start <= i <= cs.len(),
            d == s@.subrange(start as int, s@.len() as int),
            d == unsigned_digits(s@),
            start as int == (if s@.len() > 0 && s@[0] == '+' {
                1int
            } else {
                0
            }),
            forall|k: int| 0 <= k < i - start ==> is_digit(#[trigger] d[k]),
            value as nat == digits_value(d.take(i - start)),
            value <= u16::MAX,
        decreases cs.len() - i,
    {
        let c = cs[i];
        assert(d[i - start] == c);
        if !('0' <= c && c <= '9') {
            assert(!is_digit(d[i - start]));
            return None;
        }
        let digit = (c as u32) - ('0' as u32);
        assert(d.take(i - start + 1) =~= d.take(i - start).push(c));
        proof {
            digits_value_grows(d.take(i - start), c);
        }
        let next = value * 10 + digit;
        if next > 65535 {
            proof {
                if all_digits(d) {
                    digits_value_monotone(d, i - start + 1);
                    assert(digits_value(d) > u16::MAX);
                }

            }
            return None;
        }
        value = next;
        i = i + 1;
    }
    assert(d.take(i - start) =~= d);
    Some(value as u16)
}

/// The status code of an HTTP response: the second word of its first line,
/// or 0 when there is none or it is not a `u16`.
pub open spec fn status_of(response: Seq<char>) -> u16 {
    let w = words(first_line(response));
    if w.len() >= 2 {
        match u16_literal(w[1]) {
            Some(v) => v,
            None => 0,
        }
    } else {
        0
    }
}

/// The characters of `s` before its first newline.
fn first_line_of(s: &str) -> (r: String)
    ensures
        r@ == first_line(s@),
{
    let cs = chars_of(s);
    let mut out = String::new();
    let mut i: usize = 0;
    while i < cs.len() && cs[i] != '\n'
        invariant
            cs@ == s@,
            i <= cs.len(),
            out@ == s@.take(i as int),
            first_line(s@.take(i as int)) == s@.take(i as int),
            forall|k: int| 0 <= k < i ==> s@[k] != '\n',
        decreases cs.len() - i,
    {
        assert(s@.take(i + 1).drop_last() =~= s@.take(i as int));
        push_char(&mut out, cs[i]);
        i = i + 1;
        assert(out@ =~= s@.take(i as int));
    }
    proof {
        first_line_stops(s@, i as int);
    }
    out
}

proof fn first_line_stops(s: Seq<char>, i: int)
    requires
        0 <= i <= s.len(),
        first_line(s.take(i)) == s.take(i),
        i < s.len() ==> s[i] == '\n',
    ensures
        first_line(s) == s.take(i),
    decreases s.len() - i,
{
    if i < s.len() {
        first_line_keeps(s, s.len() as int, i);
    }
    assert(s.take(s.len() as int) =~= s);
}

/// Once a prefix ends in the first newline, longer prefixes have the same
/// first line.
proof fn first_line_keeps(s: Seq<char>, j: int, i: int)
    requires
        0 <= i < j <= s.len(),
        s[i] == '\n',
        first_line(s.take(i)) == s.take(i),
    ensures
        first_line(s.take(j)) == s.take(i),
    decreases j,
{
    assert(s.take(j).drop_last() =~= s.take(j - 1));
    if j == i + 1 {
        assert(s.take(i + 1).last() == '\n');
    } else {
        first_line_keeps(s, j - 1, i);
    }
}

/// The status code of an HTTP response (0 when it has none).
pub fn response_status(response: &str) -> (r: u16)
    ensures
        r == status_of(response@),
{
    let line = first_line_of(response);
    let parts = split_words(line.as_str());
    assert(parts@.len() == words(line@).len());
    if parts.len() >= 2 {
        assert(parts@[1]@ == words(line@)[1]);
        match parse_u16(parts[1].as_str()) {
            Some(v) => v,
            None => 0,
        }
    } else {
        0
    }
}

/// The `/`-separated parts of `s` (`str::split('/')`): one more part than
/// there are slashes.
pub open spec fn split_parts(s: Seq<char>) -> Seq<Seq<char>>
    decreases s.len(),
{
    if s.len() == 0 {
        seq![Seq::empty()]
    } else {
        let prev = split_parts(s.drop_last());
        if s.last() == '/' {
            prev.push(Seq::empty())
        } else {
            prev.update(prev.len() - 1, prev.last().push(s.last()))
        }
    }
}

proof fn split_parts_nonempty(s: Seq<char>)
    ensures
        split_parts(s).len() >= 1,
    decreases s.len(),
{
    if s.len() > 0 {
        split_parts_nonempty(s.drop_last());
    }
}

/// The parts of `s` between slashes.
fn split_slashes(s: &str) -> (out: Vec<String>)
    ensures
        out@.map_values(|p: String| p@) == split_parts(s@),
{
    let cs = chars_of(s);
    let mut done: Vec<String> = Vec::new();
    let mut cur = String::new();
    let mut i: usize = 0;
    while i < cs.len()
        invariant
            cs@ == s@,
            i <= cs.len(),
            done@.map_values(|p: String| p@).push(cur@) == split_parts(s@.take(i as int)),
        decreases cs.len() - i,
    {
        assert(s@.take(i + 1).drop_last() =~= s@.take(i as int));
        let ghost prev = split_parts(s@.take(i as int));
        proof {
            split_parts_nonempty(s@.take(i as int));
        }
        if cs[i] == '/' {
            let w = cur;
            done.push(w);
            cur = String::new();
        } else {
            push_char(&mut cur, cs[i]);
        }
        i = i + 1;
        assert(done@.map_values(|p: String| p@).push(cur@) =~= split_parts(s@.take(i as int)));
    }
    assert(s@.take(cs@.len() as int) =~= s@);
    done.push(cur);
    assert(done@.map_values(|p: String| p@) =~= split_parts(s@));
    done
}

/// A template part such as `{id}` matches any path part.
pub open spec fn is_placeholder(part: Seq<char>) -> bool {
    seq_starts_with(part, "{"@) && seq_ends_with(part, "}"@)
}

/// A path matches a route template when, both without surrounding slashes,
/// they have as many parts and each template part is a placeholder or equal
/// to the path part.
pub open spec fn template_matches(template: Seq<char>, path: Seq<char>) -> bool {
    parts_match(split_parts(strip_both(template, '/')), split_parts(strip_both(path, '/')))
}

pub open spec fn parts_match(t: Seq<Seq<char>>, p: Seq<Seq<char>>) -> bool {
    t.len() == p.len() && forall|i: int| 0 <= i < t.len() ==> is_placeholder(#[trigger] t[i]) || t[i] == p[i]
}

fn placeholder(part: &str) -> (r: bool)
    ensures
        r == is_placeholder(part@),
{
    crate::text::str_starts_with(part, "{") && crate::text::str_ends_with(part, "}")
}

pub fn route_template_matches(template: &str, path: &str) -> (r: bool)
    ensures
        r == template_matches(template@, path@),
{
    let t = split_slashes(trim_char(template, '/').as_str());
    let p = split_slashes(trim_char(path, '/').as_str());
    let ghost tv = split_parts(strip_both(template@, '/'));
    let ghost pv = split_parts(strip_both(path@, '/'));
    assert(t@.len() == tv.len());
    assert(p@.len() == pv.len());
    if t.len() != p.len() {
        return false;
    }
    let mut i: usize = 0;
    while i < t.len()
        invariant
            t@.map_values(|x: String| x@) == tv,
            p@.map_values(|x: String| x@) == pv,
            tv == split_parts(strip_both(template@, '/')),
            pv == split_parts(strip_both(path@, '/')),
            t@.len() == p@.len(),
            i <= t.len(),
            forall|k: int| 0 <= k < i ==> is_placeholder(#[trigger] tv[k]) || tv[k] == pv[k],
        decreases t.len() - i,
    {
        assert(t@[i as int]@ == tv[i as int]);
        assert(p@[i as int]@ == pv[i as int]);
        if !placeholder(t[i].as_str()) && !str_eq(t[i].as_str(), p[i].as_str()) {
            assert(!is_placeholder(tv[i as int]) && tv[i as int] != pv[i as int]);
            return false;
        }
        i = i + 1;
    }
    true
}

/// Milliseconds between runs of a maintenance task with this cadence; 0 for
/// an unknown cadence.
pub open spec fn cadence_millis(cadence: Seq<char>) -> u64 {
    if cadence == "every_5_minutes"@ {
        300_000
    } else if cadence == "hourly"@ {
        3_600_000
    } else if cadence == "daily"@ {
        86_400_000
    } else {
        0
    }
}

pub fn cadence_ms(cadence: &str) -> (r: u64)
    ensures
        r == cadence_millis(cadence@),
{
    if str_eq(cadence, "every_5_minutes") {
        300_000
    } else if str_eq(cadence, "hourly") {
        3_600_000
    } else if str_eq(cadence, "daily") {
        86_400_000
    } else {
        0
    }
}

// ---------------------------------------------------------------------------
// Identity store.

#[derive(Clone, Debug, PartialEq, Eq)]
pub struct V1PersistedIdentity {
    pub node_id: String,
    pub operator: String,
    pub namespace: String,
    pub master_key_id: String,
    pub mainnet_endpoint: String,
    pub local_api_endpoint: String,
    pub persisted_at_ms: u64,
}

#[derive(Clone, Debug, PartialEq, Eq)]
pub struct V1IdentityStoreReport {
    pub state_file: String,
    pub persisted: V1PersistedIdentity,
    pub loaded: V1PersistedIdentity,
}

/// Where the node's V1 identity lives: `v1-identity.json` in the state
/// directory.
#[derive(Clone, Debug, PartialEq, Eq)]
pub struct V1IdentityStore {
    state_file: String,
}

impl V1IdentityStore {
    pub closed spec fn state_file_view(&self) -> Seq<char> {
        self.state_file@
    }

    pub fn new(state_dir: &str) -> (r: Self)
        ensures
            r.state_file_view() == path_join(state_dir@, "v1-identity.json"@),
    {
        V1IdentityStore { state_file: join_path(state_dir, "v1-identity.json") }
    }

    pub fn state_file(&self) -> (r: &str)
        ensures
            r@ == self.state_file_view(),
    {
        self.state_file.as_str()
    }
}

// ---------------------------------------------------------------------------
// CLI grammar.

/// The invocation mode a chain is compiled for.
#[derive(Clone, Copy, Debug, PartialEq, Eq, Structural)]
pub enum InvocationModeName {
    Quote,
    Review,
    Trusted,
}

/// The compute route a `compute` subcommand names.
#[derive(Clone, Copy, Debug, PartialEq, Eq, Structural)]
pub enum ComputeRouteName {
    Offers,
    Quote,
    Purchase,
    Fill,
    Jobs,
    MarketSurface,
}

/// A parsed V1 CLI invocation.
#[derive(Clone, Debug, PartialEq, Eq)]
pub enum V1CliRequest {
    SurfaceManifest,
    McpManifest,
    McpDispatch { tool: String },
    HttpManifest,
    HttpDispatch { method: String, path: String },
    HttpSmoke,
    MaintenanceRunOnce,
    MaintenanceScheduleTick,
    ChainCompile { path: String, mode: InvocationModeName },
    ChainExecute { path: String, mode: InvocationModeName },
    ChainQuote { path: String },
    IdentitySignup,
    /// `identity login` and `identity resume`: the mainnet auth run that
    /// `auth` also starts.
    AuthRun,
    IdentityPersist { state_dir: Option<String> },
    IdentityLoad { state_dir: Option<String> },
    IdentityStatus,
    RuntimeSmoke { state_dir: Option<String> },
    Compute { route: ComputeRouteName },
}

/// Why a V1 CLI invocation was refused.
#[derive(Clone, Debug, PartialEq, Eq)]
pub enum V1CliError {
    /// A required argument is missing; the usage is given.
    MissingArgument(String),
    UnknownCommand(String),
}

pub open spec fn arg(args: Seq<String>, i: int) -> Option<Seq<char>> {
    if 0 <= i < args.len() {
        Some(args[i]@)
    } else {
        None
    }
}

pub open spec fn mode_of(s: Seq<char>) -> Option<InvocationModeName> {
    if s == "quote"@ {
        Some(InvocationModeName::Quote)
    } else if s == "review"@ {
        Some(InvocationModeName::Review)
    } else if s == "trusted"@ {
        Some(InvocationModeName::Trusted)
    } else {
        None
    }
}

pub open spec fn compute_route_of(s: Option<Seq<char>>) -> Option<ComputeRouteName> {
    match s {
        None => Some(ComputeRouteName::Jobs),
        Some(x) => if x == "offer"@ || x == "offers"@ {
            Some(ComputeRouteName::Offers)
        } else if x == "quote"@ {
            Some(ComputeRouteName::Quote)
        } else if x == "purchase"@ {
            Some(ComputeRouteName::Purchase)
        } else if x == "fill"@ {
            Some(ComputeRouteName::Fill)
        } else if x == "jobs"@ {
            Some(ComputeRouteName::Jobs)
        } else if x == "market-surface"@ {
            Some(ComputeRouteName::MarketSurface)
        } else {
            None
        },
    }
}

fn arg_at(args: &Vec<String>, i: usize) -> (r: Option<&str>)
    ensures
        match r {
            Some(s) => arg(args@, i as int) == Some(s@),
            None => arg(args@, i as int) is None,
        },
{
    if i < args.len() {
        Some(args[i].as_str())
    } else {
        None
    }
}

fn parse_mode(value: &str) -> (r: Result<InvocationModeName, V1CliError>)
    ensures
        match mode_of(value@) {
            Some(m) => r == Ok::<InvocationModeName, V1CliError>(m),
            None => r matches Err(V1CliError::UnknownCommand(e)) && e@ == "invocation mode "@ + value@,
        },
{
    if str_eq(value, "quote") {
        Ok(InvocationModeName::Quote)
    } else if str_eq(value, "review") {
        Ok(InvocationModeName::Review)
    } else if str_eq(value, "trusted") {
        Ok(InvocationModeName::Trusted)
    } else {
        Err(V1CliError::UnknownCommand(crate::report::labelled("invocation mode ", value)))
    }
}

fn missing(usage: &str) -> (r: V1CliError)
    ensures
        r matches V1CliError::MissingArgument(u) && u@ == usage@,
{
    V1CliError::MissingArgument(owned(usage))
}

fn unknown(group: &str, sub: &str) -> (r: V1CliError)
    ensures
        r matches V1CliError::UnknownCommand(u) && u@ == group@ + sub@,
{
    V1CliError::UnknownCommand(crate::report::labelled(group, sub))
}

fn opt_owned(v: Option<&str>) -> (r: Option<String>)
    ensures
        opt_view(r) == match v {
            Some(s) => Some(s@),
            None => None::<Seq<char>>,
        },
{
    match v {
        Some(s) => Some(owned(s)),
        None => None,
    }
}

/// The content of a parsed invocation.
pub enum V1CliRequestView {
    SurfaceManifest,
    McpManifest,
    McpDispatch(Seq<char>),
    HttpManifest,
    HttpDispatch(Seq<char>, Seq<char>),
    HttpSmoke,
    MaintenanceRunOnce,
    MaintenanceScheduleTick,
    ChainCompile(Seq<char>, InvocationModeName),
    ChainExecute(Seq<char>, InvocationModeName),
    ChainQuote(Seq<char>),
    IdentitySignup,
    AuthRun,
    IdentityPersist(Option<Seq<char>>),
    IdentityLoad(Option<Seq<char>>),
    IdentityStatus,
    RuntimeSmoke(Option<Seq<char>>),
    Compute(ComputeRouteName),
}

pub enum V1CliErrorView {
    MissingArgument(Seq<char>),
    UnknownCommand(Seq<char>),
}

pub open spec fn opt_view(v: Option<String>) -> Option<Seq<char>> {
    match v {
        Some(x) => Some(x@),
        None => None,
    }
}

pub open spec fn request_view(r: V1CliRequest) -> V1CliRequestView {
    match r {
        V1CliRequest::SurfaceManifest => V1CliRequestView::SurfaceManifest,
        V1CliRequest::McpManifest => V1CliRequestView::McpManifest,
        V1CliRequest::McpDispatch { tool } => V1CliRequestView::McpDispatch(tool@),
        V1CliRequest::HttpManifest => V1CliRequestView::HttpManifest,
        V1CliRequest::HttpDispatch { method, path } => V1CliRequestView::HttpDispatch(method@, path@),
        V1CliRequest::HttpSmoke => V1CliRequestView::HttpSmoke,
        V1CliRequest::MaintenanceRunOnce => V1CliRequestView::MaintenanceRunOnce,
        V1CliRequest::MaintenanceScheduleTick => V1CliRequestView::MaintenanceScheduleTick,
        V1CliRequest::ChainCompile { path, mode } => V1CliRequestView::ChainCompile(path@, mode),
        V1CliRequest::ChainExecute { path, mode } => V1CliRequestView::ChainExecute(path@, mode),
        V1CliRequest::ChainQuote { path } => V1CliRequestView::ChainQuote(path@),
        V1CliRequest::IdentitySignup => V1CliRequestView::IdentitySignup,
        V1CliRequest::AuthRun => V1CliRequestView::AuthRun,
        V1CliRequest::IdentityPersist { state_dir } => V1CliRequestView::IdentityPersist(opt_view(state_dir)),
        V1CliRequest::IdentityLoad { state_dir } => V1CliRequestView::IdentityLoad(opt_view(state_dir)),
        V1CliRequest::IdentityStatus => V1CliRequestView::IdentityStatus,
        V1CliRequest::RuntimeSmoke { state_dir } => V1CliRequestView::RuntimeSmoke(opt_view(state_dir)),
        V1CliRequest::Compute { route } => V1CliRequestView::Compute(route),
    }
}

pub open spec fn outcome_view(r: Result<Option<V1CliRequest>, V1CliError>) -> Result<
    Option<V1CliRequestView>,
    V1CliErrorView,
> {
    match r {
        Ok(None) => Ok(None),
        Ok(Some(q)) => Ok(Some(request_view(q))),
        Err(V1CliError::MissingArgument(u)) => Err(V1CliErrorView::MissingArgument(u@)),
        Err(V1CliError::UnknownCommand(u)) => Err(V1CliErrorView::UnknownCommand(u@)),
    }
}

/// The V1 CLI grammar. The first argument selects a command group:
/// `surface` (or `v1-surface`), `mcp`, `http`, `maintenance`, `chain`,
/// `identity`, `runtime` or `compute`; anything else is not a V1 command.
/// Each group has its subcommands and defaults; an unknown subcommand or a
/// missing required argument is refused with its usage.
pub open spec fn cli_outcome(a: Seq<String>) -> Result<Option<V1CliRequestView>, V1CliErrorView> {
    match arg(a, 0) {
        None => Ok(None),
        Some(c) => if c == "surface"@ || c == "v1-surface"@ {
            Ok(Some(V1CliRequestView::SurfaceManifest))
        } else if c == "mcp"@ {
            match arg(a, 1) {
                None => Ok(Some(V1CliRequestView::McpManifest)),
                Some(s) => if s == "manifest"@ {
                    Ok(Some(V1CliRequestView::McpManifest))
                } else if s == "dispatch"@ {
                    match arg(a, 2) {
                        Some(t) => Ok(Some(V1CliRequestView::McpDispatch(t))),
                        None => Err(V1CliErrorView::MissingArgument("mcp dispatch <tool_name>"@)),
                    }
                } else {
                    Err(V1CliErrorView::UnknownCommand("mcp "@ + s))
                },
            }
        } else if c == "http"@ {
            match arg(a, 1) {
                None => Ok(Some(V1CliRequestView::HttpManifest)),
                Some(s) => if s == "manifest"@ {
                    Ok(Some(V1CliRequestView::HttpManifest))
                } else if s == "dispatch"@ {
                    match (arg(a, 2), arg(a, 3)) {
                        (Some(m), Some(p)) => Ok(Some(V1CliRequestView::HttpDispatch(m, p))),
                        _ => Err(V1CliErrorView::MissingArgument("http dispatch <method> <path>"@)),
                    }
                } else if s == "smoke"@ {
                    Ok(Some(V1CliRequestView::HttpSmoke))
                } else {
                    Err(V1CliErrorView::UnknownCommand("http "@ + s))
                },
            }
        } else if c == "maintenance"@ {
            match arg(a, 1) {
                None => Ok(Some(V1CliRequestView::MaintenanceRunOnce)),
                Some(s) => if s == "run-once"@ || s == "tick"@ {
                    Ok(Some(V1CliRequestView::MaintenanceRunOnce))
                } else if s == "schedule-tick"@ {
                    Ok(Some(V1CliRequestView::MaintenanceScheduleTick))
                } else {
                    Err(V1CliErrorView::UnknownCommand("maintenance "@ + s))
                },
            }
        } else if c == "chain"@ {
            match arg(a, 1) {
                None => Err(V1CliErrorView::MissingArgument("chain subcommand"@)),
                Some(s) => if s == "compile"@ || s == "execute"@ {
                    let compile = s == "compile"@;
                    match arg(a, 2) {
                        None => Err(
                            V1CliErrorView::MissingArgument(
                                if compile {
                                    "chain compile <chain.yaml>"@
                                } else {
                                    "chain execute <chain.yaml>"@
                                },
                            ),
                        ),
                        Some(p) => {
                            let m = match arg(a, 3) {
                                Some(x) => x,
                                None => if compile {
                                    "quote"@
                                } else {
                                    "trusted"@
                                },
                            };
                            match mode_of(m) {
                                Some(md) => Ok(
                                    Some(
                                        if compile {
                                            V1CliRequestView::ChainCompile(p, md)
                                        } else {
                                            V1CliRequestView::ChainExecute(p, md)
                                        },
                                    ),
                                ),
                                None => Err(V1CliErrorView::UnknownCommand("invocation mode "@ + m)),
                            }
                        },
                    }
                } else if s == "quote"@ {
                    match arg(a, 2) {
                        None => Err(V1CliErrorView::MissingArgument("chain quote <chain.yaml>"@)),
                        Some(p) => Ok(Some(V1CliRequestView::ChainQuote(p))),
                    }
                } else {
                    Err(V1CliErrorView::UnknownCommand("chain "@ + s))
                },
            }
        } else if c == "identity"@ {
            match arg(a, 1) {
                None => Ok(Some(V1CliRequestView::IdentityStatus)),
                Some(s) => if s == "signup"@ {
                    Ok(Some(V1CliRequestView::IdentitySignup))
                } else if s == "login"@ || s == "resume"@ {
                    Ok(Some(V1CliRequestView::AuthRun))
                } else if s == "persist"@ {
                    Ok(Some(V1CliRequestView::IdentityPersist(arg(a, 2))))
                } else if s == "load"@ {
                    Ok(Some(V1CliRequestView::IdentityLoad(arg(a, 2))))
                } else if s == "status"@ {
                    Ok(Some(V1CliRequestView::IdentityStatus))
                } else {
                    Err(V1CliErrorView::UnknownCommand("identity "@ + s))
                },
            }
        } else if c == "runtime"@ {
            match arg(a, 1) {
                None => Ok(Some(V1CliRequestView::RuntimeSmoke(None))),
                Some(s) => if s == "smoke"@ {
                    Ok(Some(V1CliRequestView::RuntimeSmoke(arg(a, 2))))
                } else {
                    Err(V1CliErrorView::UnknownCommand("runtime "@ + s))
                },
            }
        } else if c == "compute"@ {
            match compute_route_of(arg(a, 1)) {
                Some(route) => Ok(Some(V1CliRequestView::Compute(route))),
                None => Err(V1CliErrorView::UnknownCommand("compute "@ + arg(a, 1)->0)),
            }
        } else {
            Ok(None)
        },
    }
}

/// Parses a V1 CLI invocation (see `cli_outcome`): `Ok(None)` when the
/// arguments name no V1 command.
pub fn parse_v1_node_cli(args: &Vec<String>) -> (r: Result<Option<V1CliRequest>, V1CliError>)
    ensures
        outcome_view(r) == cli_outcome(args@),
{
    let command = match arg_at(args, 0) {
        Some(c) => c,
        None => return Ok(None),
    };
    let sub = arg_at(args, 1);
    if str_eq(command, "surface") || str_eq(command, "v1-surface") {
        Ok(Some(V1CliRequest::SurfaceManifest))
    } else if str_eq(command, "mcp") {
        match sub {
            None => Ok(Some(V1CliRequest::McpManifest)),
            Some(s) => if str_eq(s, "manifest") {
                Ok(Some(V1CliRequest::McpManifest))
            } else if str_eq(s, "dispatch") {
                match arg_at(args, 2) {
                    Some(t) => Ok(Some(V1CliRequest::McpDispatch { tool: owned(t) })),
                    None => Err(missing("mcp dispatch <tool_name>")),
                }
            } else {
                Err(unknown("mcp ", s))
            },
        }
    } else if str_eq(command, "http") {
        match sub {
            None => Ok(Some(V1CliRequest::HttpManifest)),
            Some(s) => if str_eq(s, "manifest") {
                Ok(Some(V1CliRequest::HttpManifest))
            } else if str_eq(s, "dispatch") {
                match (arg_at(args, 2), arg_at(args, 3)) {
                    (Some(m), Some(p)) => Ok(Some(V1CliRequest::HttpDispatch { method: owned(m), path: owned(p) })),
                    _ => Err(missing("http dispatch <method> <path>")),
                }
            } else if str_eq(s, "smoke") {
                Ok(Some(V1CliRequest::HttpSmoke))
            } else {
                Err(unknown("http ", s))
            },
        }
    } else if str_eq(command, "maintenance") {
        match sub {
            None => Ok(Some(V1CliRequest::MaintenanceRunOnce)),
            Some(s) => if str_eq(s, "run-once") || str_eq(s, "tick") {
                Ok(Some(V1CliRequest::MaintenanceRunOnce))
            } else if str_eq(s, "schedule-tick") {
                Ok(Some(V1CliRequest::MaintenanceScheduleTick))
            } else {
                Err(unknown("maintenance ", s))
            },
        }
    } else if str_eq(command, "chain") {
        match sub {
            None => Err(missing("chain subcommand")),
            Some(s) => if str_eq(s, "compile") || str_eq(s, "execute") {
                let compile = str_eq(s, "compile");
                match arg_at(args, 2) {
                    None => if compile {
                        Err(missing("chain compile <chain.yaml>"))
                    } else {
                        Err(missing("chain execute <chain.yaml>"))
                    },
                    Some(p) => {
                        let m = match arg_at(args, 3) {
                            Some(x) => x,
                            None => if compile {
                                "quote"
                            } else {
                                "trusted"
                            },
                        };
                        match parse_mode(m) {
                            Ok(mode) => if compile {
                                Ok(Some(V1CliRequest::ChainCompile { path: owned(p), mode }))
                            } else {
                                Ok(Some(V1CliRequest::ChainExecute { path: owned(p), mode }))
                            },
                            Err(e) => Err(e),
                        }
                    },
                }
            } else if str_eq(s, "quote") {
                match arg_at(args, 2) {
                    None => Err(missing("chain quote <chain.yaml>")),
                    Some(p) => Ok(Some(V1CliRequest::ChainQuote { path: owned(p) })),
                }
            } else {
                Err(unknown("chain ", s))
            },
        }
    } else if str_eq(command, "identity") {
        match sub {
            None => Ok(Some(V1CliRequest::IdentityStatus)),
            Some(s) => if str_eq(s, "signup") {
                Ok(Some(V1CliRequest::IdentitySignup))
            } else if str_eq(s, "login") || str_eq(s, "resume") {
                Ok(Some(V1CliRequest::AuthRun))
            } else if str_eq(s, "persist") {
                Ok(Some(V1CliRequest::IdentityPersist { state_dir: opt_owned(arg_at(args, 2)) }))
            } else if str_eq(s, "load") {
                Ok(Some(V1CliRequest::IdentityLoad { state_dir: opt_owned(arg_at(args, 2)) }))
            } else if str_eq(s, "status") {
                Ok(Some(V1CliRequest::IdentityStatus))
            } else {
                Err(unknown("identity ", s))
            },
        }
    } else if str_eq(command, "runtime") {
        match sub {
            None => Ok(Some(V1CliRequest::RuntimeSmoke { state_dir: None })),
            Some(s) => if str_eq(s, "smoke") {
                Ok(Some(V1CliRequest::RuntimeSmoke { state_dir: opt_owned(arg_at(args, 2)) }))
            } else {
                Err(unknown("runtime ", s))
            },
        }
    } else if str_eq(command, "compute") {
        let route = match sub {
            None => ComputeRouteName::Jobs,
            Some(s) => if str_eq(s, "offer") || str_eq(s, "offers") {
                ComputeRouteName::Offers
            } else if str_eq(s, "quote") {
                ComputeRouteName::Quote
            } else if str_eq(s, "purchase") {
                ComputeRouteName::Purchase
            } else if str_eq(s, "fill") {
                ComputeRouteName::Fill
            } else if str_eq(s, "jobs") {
                ComputeRouteName::Jobs
            } else if str_eq(s, "market-surface") {
                ComputeRouteName::MarketSurface
            } else {
                return Err(unknown("compute ", s));
            },
        };
        Ok(Some(V1CliRequest::Compute { route }))
    } else {
        Ok(None)
    }
}


// ---------------------------------------------------------------------------
// Laws.

/// Law: `compute <sub>` asks for the route of the same name, whatever
/// follows: `quote` for quotes, `purchase` for purchases, `fill` for fills,
/// `offer` or `offers` for offers, `jobs` (or no subcommand) for jobs and
/// `market-surface` for the market surface; any other subcommand is refused
/// as unknown. Distinct subcommands other than the two spellings of offers
/// and the default to jobs name distinct routes.
pub proof fn compute_subcommands_name_their_routes(a: Seq<String>)
    requires
        a.len() >= 1,
        a[0]@ == "compute"@,
    ensures
        a.len() == 1 ==> cli_outcome(a) == Ok::<Option<V1CliRequestView>, V1CliErrorView>(
            Some(V1CliRequestView::Compute(ComputeRouteName::Jobs)),
        ),
        a.len() >= 2 && a[1]@ == "quote"@ ==> cli_outcome(a) == Ok::<Option<V1CliRequestView>, V1CliErrorView>(
            Some(V1CliRequestView::Compute(ComputeRouteName::Quote)),
        ),
        a.len() >= 2 && a[1]@ == "purchase"@ ==> cli_outcome(a) == Ok::<Option<V1CliRequestView>, V1CliErrorView>(
            Some(V1CliRequestView::Compute(ComputeRouteName::Purchase)),
        ),
        a.len() >= 2 && a[1]@ == "fill"@ ==> cli_outcome(a) == Ok::<Option<V1CliRequestView>, V1CliErrorView>(
            Some(V1CliRequestView::Compute(ComputeRouteName::Fill)),
        ),
        a.len() >= 2 && (a[1]@ == "offer"@ || a[1]@ == "offers"@) ==> cli_outcome(a) == Ok::<
            Option<V1CliRequestView>,
            V1CliErrorView,
        >(Some(V1CliRequestView::Compute(ComputeRouteName::Offers))),
        a.len() >= 2 && a[1]@ == "jobs"@ ==> cli_outcome(a) == Ok::<Option<V1CliRequestView>, V1CliErrorView>(
            Some(V1CliRequestView::Compute(ComputeRouteName::Jobs)),
        ),
        a.len() >= 2 && a[1]@ == "market-surface"@ ==> cli_outcome(a) == Ok::<
            Option<V1CliRequestView>,
            V1CliErrorView,
        >(Some(V1CliRequestView::Compute(ComputeRouteName::MarketSurface))),
        a.len() >= 2 && !(a[1]@ == "quote"@ || a[1]@ == "purchase"@ || a[1]@ == "fill"@ || a[1]@ == "offer"@
            || a[1]@ == "offers"@ || a[1]@ == "jobs"@ || a[1]@ == "market-surface"@) ==> cli_outcome(a) == Err::<
            Option<V1CliRequestView>,
            V1CliErrorView,
        >(V1CliErrorView::UnknownCommand("compute "@ + a[1]@)),
{
    reveal_strlit("compute");
    reveal_strlit("surface");
    reveal_strlit("v1-surface");
    reveal_strlit("mcp");
    reveal_strlit("http");
    reveal_strlit("maintenance");
    reveal_strlit("chain");
    reveal_strlit("identity");
    reveal_strlit("runtime");
    let c = "compute"@;
    assert(arg(a, 0) == Some(c));
    assert(c.len() == 7);
    assert(c != "surface"@ && c != "runtime"@) by {
        assert(c[0] != "surface"@[0] && c[0] != "runtime"@[0]);
    }
    assert(c != "v1-surface"@ && c != "mcp"@ && c != "http"@ && c != "maintenance"@ && c != "chain"@ && c
        != "identity"@) by {
        assert("v1-surface"@.len() == 10 && "mcp"@.len() == 3 && "http"@.len() == 4);
        assert("maintenance"@.len() == 11 && "chain"@.len() == 5 && "identity"@.len() == 8);
    }
    reveal_strlit("offer");
    reveal_strlit("offers");
    reveal_strlit("quote");
    reveal_strlit("purchase");
    reveal_strlit("fill");
    reveal_strlit("jobs");
    reveal_strlit("market-surface");
    assert("quote"@ != "offer"@) by {
        assert("quote"@[0] != "offer"@[0]);
    }
    assert("fill"@ != "jobs"@) by {
        assert("fill"@[0] != "jobs"@[0]);
    }
    assert("offer"@.len() == 5 && "offers"@.len() == 6 && "quote"@.len() == 5 && "purchase"@.len() == 8);
    assert("fill"@.len() == 4 && "jobs"@.len() == 4 && "market-surface"@.len() == 14);
    if a.len() >= 2 {
        let x = a[1]@;
        assert(arg(a, 1) == Some(x));
        if x == "quote"@ {
            assert(compute_route_of(Some(x)) == Some(ComputeRouteName::Quote));
        } else if x == "purchase"@ {
            assert(compute_route_of(Some(x)) == Some(ComputeRouteName::Purchase));
        } else if x == "fill"@ {
            assert(compute_route_of(Some(x)) == Some(ComputeRouteName::Fill));
        } else if x == "jobs"@ {
            assert(compute_route_of(Some(x)) == Some(ComputeRouteName::Jobs));
        } else if x == "market-surface"@ {
            assert(compute_route_of(Some(x)) == Some(ComputeRouteName::MarketSurface));
        }
    } else {
        assert(arg(a, 1) is None);
    }
}

/// Law: the compute route a subcommand selects depends on the subcommand
/// alone, and two different subcommands select the same route only when
/// both spell the offers route or both select jobs.
pub proof fn compute_routes_are_distinct(s: Seq<char>, t: Seq<char>)
    requires
        compute_route_of(Some(s)) is Some,
        compute_route_of(Some(t)) is Some,
        s != t,
        !((s == "offer"@ || s == "offers"@) && (t == "offer"@ || t == "offers"@)),
    ensures
        compute_route_of(Some(s)) != compute_route_of(Some(t)),
{
    reveal_strlit("offer");
    reveal_strlit("offers");
    reveal_strlit("quote");
    reveal_strlit("purchase");
    reveal_strlit("fill");
    reveal_strlit("jobs");
    reveal_strlit("market-surface");
}


proof fn decimal_digits(n: nat)
    ensures
        decimal(n).len() > 0,
        all_digits(decimal(n)),
        digits_value(decimal(n)) == n,
    decreases n,
{
    if n >= 10 {
        decimal_digits(n / 10);
        let d = decimal(n / 10);
        let c = digit_char(n % 10);
        assert(d.push(c).drop_last() =~= d);
        assert forall|i: int| 0 <= i < d.push(c).len() implies is_digit(#[trigger] d.push(c)[i]) by {
            if i < d.len() {
                assert(d.push(c)[i] == d[i]);
            }
        }
        assert((c as u32) == 48 + n % 10);
        assert(digits_value(d.push(c)) == digits_value(d) * 10 + (n % 10));
        assert((n / 10) * 10 + n % 10 == n) by (nonlinear_arith);
        assert(decimal(n) == d.push(c));
    } else {
        let c = digit_char(n);
        assert(seq![c].drop_last() =~= Seq::<char>::empty());
        assert((c as u32) == 48 + n);
        assert(digits_value(Seq::<char>::empty()) == 0);
        assert(digits_value(seq![c]) == digits_value(seq![c].drop_last()) * 10 + ((c as u32) - ('0' as u32)));
        assert(decimal(n) == seq![c]);
    }
}

/// Parsing the decimal rendering of a 16-bit number gives the number back.
pub proof fn u16_decimal_round_trip(n: u16)
    ensures
        u16_literal(decimal(n as nat)) == Some(n),
{
    decimal_digits(n as nat);
    assert(unsigned_digits(decimal(n as nat)) == decimal(n as nat));
}

/// A route template matches a path that spells it out.
pub proof fn template_matches_itself(template: Seq<char>)
    ensures
        template_matches(template, template),
{
}

/// The characters a slug is made of.
pub open spec fn slug_char(c: char) -> bool {
    ('a' <= c && c <= 'z') || ('0' <= c && c <= '9') || c == '-'
}

proof fn slug_from_shape(s: Seq<char>, acc: Seq<char>)
    requires
        acc.len() <= 48,
        forall|i: int| 0 <= i < acc.len() ==> slug_char(#[trigger] acc[i]),
    ensures
        slug_from(s, acc).len() <= 48,
        forall|i: int| 0 <= i < slug_from(s, acc).len() ==> slug_char(#[trigger] slug_from(s, acc)[i]),
    decreases s.len(),
{
    if s.len() > 0 && acc.len() < 48 {
        let next = slug_step(acc, s[0]);
        assert forall|i: int| 0 <= i < next.len() implies slug_char(#[trigger] next[i]) by {
            if i < acc.len() {
                assert(next[i] == acc[i]);
            }
        }
        slug_from_shape(s.drop_first(), next);
    }
}

proof fn strip_leading_is_suffix(s: Seq<char>, c: char)
    ensures
        strip_leading(s, c).len() <= s.len(),
        s.subrange(s.len() - strip_leading(s, c).len(), s.len() as int) == strip_leading(s, c),
    decreases s.len(),
{
    if s.len() > 0 && s[0] == c {
        strip_leading_is_suffix(s.drop_first(), c);
        let t = strip_leading(s, c);
        assert(s.drop_first().subrange(s.len() - 1 - t.len(), s.len() - 1) =~= s.subrange(
            s.len() - t.len(),
            s.len() as int,
        ));
    } else {
        assert(s.subrange(0, s.len() as int) =~= s);
    }
}

proof fn strip_trailing_is_prefix(s: Seq<char>, c: char)
    ensures
        strip_trailing(s, c).len() <= s.len(),
        s.subrange(0, strip_trailing(s, c).len() as int) == strip_trailing(s, c),
    decreases s.len(),
{
    if s.len() > 0 && s.last() == c {
        strip_trailing_is_prefix(s.drop_last(), c);
        let t = strip_trailing(s, c);
        assert(s.drop_last().subrange(0, t.len() as int) =~= s.subrange(0, t.len() as int));
    } else {
        assert(s.subrange(0, s.len() as int) =~= s);
    }
}

/// Every slug is a non-empty run of at most 48 lowercase ASCII letters,
/// digits and dashes.
pub proof fn slug_shape(value: Seq<char>)
    ensures
        0 < slug_of(value).len() <= 48,
        forall|i: int| 0 <= i < slug_of(value).len() ==> slug_char(#[trigger] slug_of(value)[i]),
{
    let raw = slug_from(value, Seq::empty());
    slug_from_shape(value, Seq::empty());
    let l = strip_leading(raw, '-');
    strip_leading_is_suffix(raw, '-');
    strip_trailing_is_prefix(l, '-');
    let t = strip_both(raw, '-');
    assert forall|i: int| 0 <= i < t.len() implies slug_char(#[trigger] t[i]) by {
        assert(t[i] == l[i]);
        assert(l[i] == raw[raw.len() - l.len() + i]);
    }
    if t.len() == 0 {
        reveal_strlit("action");
    }
}

} // verus!
