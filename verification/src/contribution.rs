//! Live contribution sync (D2): with the persisted mainnet credential the
//! client publishes a test contribution and reads it back through its own
//! list, the contribution detail and the public feed, where it also looks for
//! a contribution by another agent.
//!
//! The run is a state machine: `ContributionSyncRun::next_action` names the
//! request to make and the `on_*` methods take its outcome.
use vstd::prelude::*;

use crate::mainnet_auth::{MainnetAuthState, MainnetIdentity};
use crate::report::{
    all_passed_views, failed_view, labelled, lines_view, one_line, passed_view, push_subtest_md,
    subtests_md, ticked, SubtestView,
};
use crate::text::{
    chars_of, lowercase_text, owned, seq_starts_with, str_eq, str_starts_with, string_of_range, to_lowercase,
    trim, trimmed,
};

verus! {

#[derive(Debug, Clone, PartialEq, Eq)]
pub struct ContributionSyncItem {
    pub id: String,
    pub handle_path: Option<String>,
    pub title: String,
    pub author_pseudo: Option<String>,
    pub agent_handle: Option<String>,
}

#[derive(Debug, Clone, PartialEq, Eq)]
pub enum ContributionSyncStatus {
    Passed,
    Failed { reason: String },
}

#[derive(Debug, Clone, PartialEq, Eq)]
pub struct ContributionSyncSubtest {
    pub name: String,
    pub proves: String,
    pub status: ContributionSyncStatus,
    pub details: Vec<String>,
}

#[derive(Debug, Clone, PartialEq, Eq)]
pub struct ContributionSyncReport {
    pub endpoint: String,
    pub identity: Option<MainnetIdentity>,
    pub published: Option<ContributionSyncItem>,
    pub peer_sample: Option<ContributionSyncItem>,
    pub subtests: Vec<ContributionSyncSubtest>,
}

pub open spec fn sync_subtest_view(t: ContributionSyncSubtest) -> SubtestView {
    SubtestView {
        name: t.name@,
        proves: t.proves@,
        reason: match t.status {
            ContributionSyncStatus::Passed => None,
            ContributionSyncStatus::Failed { reason } => Some(reason@),
        },
        details: lines_view(t.details@),
    }
}

pub open spec fn sync_subtests_view(v: Seq<ContributionSyncSubtest>) -> Seq<SubtestView> {
    v.map_values(|t: ContributionSyncSubtest| sync_subtest_view(t))
}

pub open spec fn sync_all_green(r: ContributionSyncReport) -> bool {
    all_passed_views(sync_subtests_view(r.subtests@))
}

pub open spec fn sync_identity_md(i: Option<MainnetIdentity>) -> Seq<char> {
    match i {
        Some(id) => "Identity: `"@ + id.handle_path@ + "` (`"@ + id.pseudonym@ + "`)\n\n"@,
        None => Seq::empty(),
    }
}

/// `prefix` followed by `v` in backticks, or nothing when `v` is absent.
pub open spec fn opt_ticked(prefix: Seq<char>, v: Option<String>) -> Seq<char> {
    match v {
        Some(x) => prefix + x@ + "`"@,
        None => Seq::empty(),
    }
}

pub open spec fn published_md(p: Option<ContributionSyncItem>) -> Seq<char> {
    match p {
        Some(item) => "Published contribution: `"@ + item.id@ + "`"@ + opt_ticked(" / `"@, item.handle_path)
            + "\n\n"@,
        None => Seq::empty(),
    }
}

pub open spec fn peer_md(p: Option<ContributionSyncItem>) -> Seq<char> {
    match p {
        Some(item) => "Peer sample: `"@ + item.id@ + "`"@ + opt_ticked(" from `"@, item.agent_handle)
            + "\n\n"@,
        None => Seq::empty(),
    }
}

pub open spec fn sync_markdown(r: ContributionSyncReport) -> Seq<char> {
    "# Live Contribution Sync Validation\n\n"@ + "Endpoint: `"@ + r.endpoint@ + "`\n\n"@
        + sync_identity_md(r.identity) + published_md(r.published) + peer_md(r.peer_sample)
        + "## Result\n\n"@ + (if sync_all_green(r) {
        "Live contribution sync is green; writes and reads are hitting the canonical Wire API.\n\n"@
    } else {
        "Live contribution sync failed closed; see the sub-test reasons below.\n\n"@
    }) + "## Sub-tests\n\n"@ + subtests_md(sync_subtests_view(r.subtests@))
}

/// Appends `prefix`, the value and a closing backtick when `v` is present.
fn push_opt_ticked(out: &mut String, prefix: &str, v: &Option<String>)
    ensures
        final(out)@ == old(out)@ + opt_ticked(prefix@, *v),
{
    match v {
        Some(x) => {
            out.append(prefix);
            out.append(x.as_str());
            out.append("`");
        },
        None => {
            assert(old(out)@ + Seq::<char>::empty() =~= old(out)@);
        },
    }
}

impl ContributionSyncSubtest {
    fn reason(&self) -> (r: Option<&str>)
        ensures
            match r {
                Some(x) => sync_subtest_view(*self).reason == Some(x@),
                None => sync_subtest_view(*self).reason is None,
            },
    {
        match &self.status {
            ContributionSyncStatus::Passed => None,
            ContributionSyncStatus::Failed { reason } => Some(reason.as_str()),
        }
    }
}

impl ContributionSyncReport {
    /// Whether every sub-test passed.
    pub fn all_green(&self) -> (r: bool)
        ensures
            r == sync_all_green(*self),
    {
        let mut i: usize = 0;
        while i < self.subtests.len()
            invariant
                i <= self.subtests.len(),
                forall|k: int| 0 <= k < i ==> #[trigger] sync_subtests_view(self.subtests@)[k].reason is None,
            decreases self.subtests.len() - i,
        {
            match &self.subtests[i].status {
                ContributionSyncStatus::Passed => {},
                ContributionSyncStatus::Failed { .. } => {
                    assert(sync_subtests_view(self.subtests@)[i as int].reason is Some);
                    return false;
                },
            }
            i = i + 1;
        }
        true
    }

    /// Markdown rendering: endpoint, identity, the published contribution, the
    /// peer sample, the verdict and one line per sub-test.
    pub fn to_markdown(&self) -> (out: String)
        ensures
            out@ == sync_markdown(*self),
    {
        let mut out = owned("# Live Contribution Sync Validation\n\n");
        out.append("Endpoint: `");
        out.append(self.endpoint.as_str());
        out.append("`\n\n");
        let ghost start = out@;
        match &self.identity {
            Some(identity) => {
                out.append("Identity: `");
                out.append(identity.handle_path.as_str());
                out.append("` (`");
                out.append(identity.pseudonym.as_str());
                out.append("`)\n\n");
            },
            None => {},
        }
        assert(out@ =~= start + sync_identity_md(self.identity));
        let ghost after_identity = out@;
        match &self.published {
            Some(published) => {
                out.append("Published contribution: `");
                out.append(published.id.as_str());
                out.append("`");
                push_opt_ticked(&mut out, " / `", &published.handle_path);
                out.append("\n\n");
            },
            None => {},
        }
        assert(out@ =~= after_identity + published_md(self.published));
        let ghost after_published = out@;
        match &self.peer_sample {
            Some(peer) => {
                out.append("Peer sample: `");
                out.append(peer.id.as_str());
                out.append("`");
                push_opt_ticked(&mut out, " from `", &peer.agent_handle);
                out.append("\n\n");
            },
            None => {},
        }
        assert(out@ =~= after_published + peer_md(self.peer_sample));
        out.append("## Result\n\n");
        out.append(if self.all_green() {
            "Live contribution sync is green; writes and reads are hitting the canonical Wire API.\n\n"
        } else {
            "Live contribution sync failed closed; see the sub-test reasons below.\n\n"
        });
        out.append("## Sub-tests\n\n");
        let ghost head = out@;
        let ghost views = sync_subtests_view(self.subtests@);
        let mut i: usize = 0;
        while i < self.subtests.len()
            invariant
                i <= self.subtests.len(),
                views == sync_subtests_view(self.subtests@),
                out@ == head + subtests_md(views.subrange(0, i as int)),
            decreases self.subtests.len() - i,
        {
            let t = &self.subtests[i];
            push_subtest_md(&mut out, t.name.as_str(), t.proves.as_str(), t.reason(), &t.details);
            assert(views.subrange(0, i + 1).drop_last() =~= views.subrange(0, i as int));
            i = i + 1;
            assert(out@ =~= head + subtests_md(views.subrange(0, i as int)));
        }
        assert(views.subrange(0, views.len() as int) =~= views);
        out
    }
}

/// A copy of an optional string.
fn copy_opt(v: &Option<String>) -> (r: Option<String>)
    ensures
        r == *v,
{
    match v {
        Some(x) => Some(x.clone()),
        None => None,
    }
}

impl ContributionSyncItem {
    /// A field-by-field copy.
    pub fn duplicate(&self) -> (r: Self)
        ensures
            r == *self,
    {
        ContributionSyncItem {
            id: self.id.clone(),
            handle_path: copy_opt(&self.handle_path),
            title: self.title.clone(),
            author_pseudo: copy_opt(&self.author_pseudo),
            agent_handle: copy_opt(&self.agent_handle),
        }
    }
}

/// A passed sub-test.
pub fn passed_step(name: &str, proves: &str, details: Vec<String>) -> (r: ContributionSyncSubtest)
    ensures
        sync_subtest_view(r) == passed_view(name@, proves@, lines_view(details@)),
{
    let r = ContributionSyncSubtest {
        name: owned(name),
        proves: owned(proves),
        status: ContributionSyncStatus::Passed,
        details,
    };
    assert(sync_subtest_view(r) =~= passed_view(name@, proves@, lines_view(details@)));
    r
}

/// A failed sub-test with no details.
pub fn failed_step(name: &str, proves: &str, reason: String) -> (r: ContributionSyncSubtest)
    ensures
        sync_subtest_view(r) == failed_view(name@, proves@, reason@),
{
    let r = ContributionSyncSubtest {
        name: owned(name),
        proves: owned(proves),
        status: ContributionSyncStatus::Failed { reason },
        details: Vec::new(),
    };
    assert(sync_subtest_view(r) =~= failed_view(name@, proves@, reason@));
    r
}

pub open spec fn auth_state_proves() -> Seq<char> {
    "D2 uses the D1 mainnet auth state rather than synthetic fixtures"@
}

pub open spec fn identity_proves() -> Seq<char> {
    "the live sync run is authenticated as a real Wire agent"@
}

pub open spec fn publish_proves() -> Seq<char> {
    "the reference client writes a real test contribution to canonical Wire"@
}

pub open spec fn own_proves() -> Seq<char> {
    "the contribution appears in `/wire/my/contributions` for the authenticated agent"@
}

pub open spec fn detail_proves() -> Seq<char> {
    "the contribution can be inspected through `/wire/contributions/{id}`"@
}

pub open spec fn peer_proves() -> Seq<char> {
    "the reference client can read other agents' mainnet contributions"@
}

/// The report of a run that could not load the persisted credential.
pub fn credential_unavailable_report(reason: String) -> (r: ContributionSyncReport)
    ensures
        r.endpoint@ == "unresolved"@,
        r.identity is None,
        r.published is None,
        r.peer_sample is None,
        sync_subtests_view(r.subtests@) == seq![
            failed_view("persisted-auth-state-loads"@, auth_state_proves(), reason@),
        ],
{
    let mut subtests = Vec::new();
    subtests.push(failed_step(
        "persisted-auth-state-loads",
        "D2 uses the D1 mainnet auth state rather than synthetic fixtures",
        reason,
    ));
    let r = ContributionSyncReport {
        endpoint: owned("unresolved"),
        identity: None,
        published: None,
        peer_sample: None,
        subtests,
    };
    assert(sync_subtests_view(r.subtests@) =~= seq![
        failed_view("persisted-auth-state-loads"@, auth_state_proves(), reason@),
    ]);
    r
}

/// The mainnet credential a run authenticates with, loaded from the state
/// file that mainnet auth wrote.
#[derive(Debug, Clone, PartialEq, Eq)]
pub struct PersistedMainnetCredential {
    pub endpoint: String,
    pub api_token: String,
    pub identity: MainnetIdentity,
    /// The state file path as it is shown in reports.
    pub state_path: String,
}

/// The agent's slot: its name without surrounding white space, lowercased,
/// without a leading `codex-`.
pub open spec fn agent_slot(name: Seq<char>) -> Seq<char> {
    let l = lowercase_text(trimmed(name));
    if seq_starts_with(l, "codex-"@) {
        l.skip(6)
    } else {
        l
    }
}

/// The credential in a persisted mainnet auth state, provided the state was
/// written for the selected `endpoint`. `state_path` is the state file as
/// shown in reports.
pub fn credential_from_state(state: MainnetAuthState, endpoint: &str, state_path: String) -> (r: Result<
    PersistedMainnetCredential,
    String,
>)
    ensures
        state.endpoint@ == endpoint@ ==> (r matches Ok(c) && c.endpoint@ == endpoint@ && c.api_token
            == state.api_token && c.identity.name == state.agent_name && c.identity.slot@ == agent_slot(
            state.agent_name@,
        ) && c.identity.handle_path == state.handle_path && c.identity.pseudonym == state.pseudonym
            && c.identity.agent_id == state.agent_id && c.state_path == state_path),
        state.endpoint@ != endpoint@ ==> (r matches Err(e) && e@ == "persisted auth endpoint `"@ + state.endpoint@
            + "` does not match selected endpoint `"@ + endpoint@ + "`"@),
{
    if !str_eq(state.endpoint.as_str(), endpoint) {
        let mut e = owned("persisted auth endpoint `");
        e.append(state.endpoint.as_str());
        e.append("` does not match selected endpoint `");
        e.append(endpoint);
        e.append("`");
        return Err(e);
    }
    let lowered = to_lowercase(trim(state.agent_name.as_str()).as_str());
    let slot = if str_starts_with(lowered.as_str(), "codex-") {
        let cs = chars_of(lowered.as_str());
        proof {
            reveal_strlit("codex-");
        }
        string_of_range(&cs, 6, cs.len())
    } else {
        lowered
    };
    Ok(PersistedMainnetCredential {
        endpoint: owned(endpoint),
        api_token: state.api_token,
        identity: MainnetIdentity {
            name: state.agent_name,
            slot,
            handle_path: state.handle_path,
            pseudonym: state.pseudonym,
            agent_id: state.agent_id,
        },
        state_path,
    })
}

/// The test contribution a run publishes.
#[derive(Debug, Clone, PartialEq, Eq)]
pub struct ContributionDraft {
    pub title: String,
    pub body: String,
    pub run_id: String,
}

/// The run's title: a fixed prefix and the first eight characters of the run
/// id.
pub open spec fn draft_title(run_id: Seq<char>) -> Seq<char> {
    "agent-wire-substrate-node D2 live sync "@ + run_id.take(8)
}

pub open spec fn draft_body(run_id: Seq<char>, now: Seq<char>, handle_path: Seq<char>) -> Seq<char> {
    "Reference-client D2 validation run `"@ + run_id + "` at `"@ + now + "`. Authenticated identity `"@
        + handle_path
        + "` published this live contribution through the canonical Wire API, then read it back through the own-contribution, contribution-detail, and public-feed surfaces."@
}

/// The timestamp used when the current time cannot be formatted.
pub open spec fn fallback_timestamp() -> Seq<char> {
    "1970-01-01T00:00:00Z"@
}

/// The first eight characters of `run_id` are ASCII, so they are its first
/// eight bytes.
pub open spec fn run_id_usable(run_id: Seq<char>) -> bool {
    &&& run_id.len() >= 8
    &&& forall|i: int| 0 <= i < 8 ==> (#[trigger] run_id[i] as u32) < 128
}

/// The contribution a run publishes, for the identity at `handle_path`, the
/// run id and the formatted current time (`None` when it could not be
/// formatted).
pub fn validation_draft(handle_path: &str, run_id: &str, now: Option<&str>) -> (d: ContributionDraft)
    requires
        run_id_usable(run_id@),
    ensures
        d.title@ == draft_title(run_id@),
        d.body@ == draft_body(
            run_id@,
            match now {
                Some(t) => t@,
                None => fallback_timestamp(),
            },
            handle_path@,
        ),
        d.run_id@ == run_id@,
{
    let cs = chars_of(run_id);
    let mut title = owned("agent-wire-substrate-node D2 live sync ");
    let prefix = string_of_range(&cs, 0, 8);
    title.append(prefix.as_str());
    let mut body = owned("Reference-client D2 validation run `");
    body.append(run_id);
    body.append("` at `");
    match now {
        Some(t) => body.append(t),
        None => body.append("1970-01-01T00:00:00Z"),
    }
    body.append("`. Authenticated identity `");
    body.append(handle_path);
    body.append(
        "` published this live contribution through the canonical Wire API, then read it back through the own-contribution, contribution-detail, and public-feed surfaces.",
    );
    assert(cs@.subrange(0, 8) =~= run_id@.take(8));
    ContributionDraft { title, body, run_id: owned(run_id) }
}

/// How many entries the own-list and feed reads ask for.
pub const READ_LIMIT: usize = 25;

/// Where the run stands; each stage but `Done` waits for one request's outcome.
#[derive(Debug, Clone, Copy, PartialEq, Eq, Structural)]
pub enum SyncStage {
    ValidateIdentity,
    Publish,
    ReadOwn,
    ReadDetail,
    ReadFeed,
    Done,
}

/// The request the run needs next.
pub enum SyncAction {
    ValidateIdentity { endpoint: String, token: String },
    Publish { endpoint: String, token: String, draft: ContributionDraft },
    ListOwn { endpoint: String, token: String, limit: usize },
    GetContribution { endpoint: String, token: String, id: String },
    ListFeed { endpoint: String, limit: usize },
    Finish,
}

pub struct ContributionSyncRun {
    pub credential: PersistedMainnetCredential,
    pub report: ContributionSyncReport,
    pub stage: SyncStage,
    /// The contribution to publish.
    pub draft: Option<ContributionDraft>,
    /// The contribution as the publish request returned it.
    pub published: Option<ContributionSyncItem>,
}

/// Index of the first feed item whose author pseudonym is not `own` (an item
/// without an author pseudonym counts as another agent's).
pub open spec fn is_peer_item(item: ContributionSyncItem, own: Seq<char>) -> bool {
    match item.author_pseudo {
        Some(p) => p@ != own,
        None => true,
    }
}

pub open spec fn first_peer_from(feed: Seq<ContributionSyncItem>, own: Seq<char>, from: int) -> Option<int>
    decreases feed.len() - from,
{
    if from < 0 || from >= feed.len() {
        None
    } else if is_peer_item(feed[from], own) {
        Some(from)
    } else {
        first_peer_from(feed, own, from + 1)
    }
}

/// The first peer item of the feed, if any.
pub open spec fn first_peer(feed: Seq<ContributionSyncItem>, own: Seq<char>) -> Option<int> {
    first_peer_from(feed, own, 0)
}

proof fn first_peer_from_facts(feed: Seq<ContributionSyncItem>, own: Seq<char>, from: int)
    requires
        0 <= from <= feed.len(),
        forall|k: int| 0 <= k < from ==> !is_peer_item(#[trigger] feed[k], own),
    ensures
        first_peer_from(feed, own, from) == first_peer(feed, own),
    decreases from,
{
    if from > 0 {
        first_peer_from_facts(feed, own, from - 1);
    }
}

proof fn first_peer_from_in_range(feed: Seq<ContributionSyncItem>, own: Seq<char>, from: int)
    ensures
        first_peer_from(feed, own, from) matches Some(k) ==> 0 <= from <= k < feed.len() && is_peer_item(
            feed[k],
            own,
        ),
    decreases feed.len() - from,
{
    if 0 <= from < feed.len() && !is_peer_item(feed[from], own) {
        first_peer_from_in_range(feed, own, from + 1);
    }
}

/// The peer sample is the earliest feed item not authored under the run's
/// own pseudonym, and there is none exactly when every item is the run's own.
pub proof fn peer_is_first_foreign_item(feed: Seq<ContributionSyncItem>, own: Seq<char>)
    ensures
        first_peer(feed, own) matches Some(k) ==> 0 <= k < feed.len() && is_peer_item(feed[k], own)
            && forall|j: int| 0 <= j < k ==> !is_peer_item(#[trigger] feed[j], own),
        first_peer(feed, own) is None <==> forall|j: int| 0 <= j < feed.len() ==> !is_peer_item(
            #[trigger] feed[j],
            own,
        ),
{
    first_peer_from_in_range(feed, own, 0);
    first_peer_scan(feed, own, 0);
}

/// Scanning from `from`, the first peer found has no peer before it (after
/// `from`), and nothing is found exactly when no item after `from` is a peer.
proof fn first_peer_scan(feed: Seq<ContributionSyncItem>, own: Seq<char>, from: int)
    requires
        0 <= from,
    ensures
        first_peer_from(feed, own, from) matches Some(k) ==> forall|j: int| from <= j < k ==> !is_peer_item(
            #[trigger] feed[j],
            own,
        ),
        first_peer_from(feed, own, from) is None <==> forall|j: int| from <= j < feed.len() ==> !is_peer_item(
            #[trigger] feed[j],
            own,
        ),
    decreases feed.len() - from,
{
    if from < feed.len() {
        first_peer_scan(feed, own, from + 1);
        first_peer_from_in_range(feed, own, from + 1);
    }
}

/// The index of the first feed item by another agent.
fn find_peer(feed: &Vec<ContributionSyncItem>, own: &str) -> (r: Option<usize>)
    ensures
        match first_peer(feed@, own@) {
            Some(k) => 0 <= k < feed@.len() && r == Some(k as usize),
            None => r is None,
        },
{
    proof {
        first_peer_from_in_range(feed@, own@, 0);
    }
    let mut i: usize = 0;
    while i < feed.len()
        invariant
            i <= feed.len(),
            forall|k: int| 0 <= k < i ==> !is_peer_item(#[trigger] feed@[k], own@),
        decreases feed.len() - i,
    {
        let peer = match &feed[i].author_pseudo {
            Some(p) => !str_eq(p.as_str(), own),
            None => true,
        };
        if peer {
            proof {
                first_peer_from_facts(feed@, own@, i as int);
            }
            return Some(i);
        }
        i = i + 1;
    }
    proof {
        first_peer_from_facts(feed@, own@, i as int);
    }
    None
}

/// Whether some item of `items` has the id `id`.
fn has_id(items: &Vec<ContributionSyncItem>, id: &str) -> (r: bool)
    ensures
        r == exists|k: int| 0 <= k < items@.len() && (#[trigger] items@[k]).id@ == id@,
{
    let mut i: usize = 0;
    while i < items.len()
        invariant
            i <= items.len(),
            forall|k: int| 0 <= k < i ==> (#[trigger] items@[k]).id@ != id@,
        decreases items.len() - i,
    {
        if str_eq(items[i].id.as_str(), id) {
            return true;
        }
        i = i + 1;
    }
    false
}

/// Everything but the sub-test list, the collected items and the stage stays.
pub open spec fn same_run_header(a: ContributionSyncRun, b: ContributionSyncRun) -> bool {
    &&& a.credential == b.credential
    &&& a.report.endpoint == b.report.endpoint
}

/// The run as `start` leaves it: the credential loaded, nothing validated,
/// published or sampled yet, and the identity check next.
pub open spec fn sync_started(credential: PersistedMainnetCredential, r: ContributionSyncRun) -> bool {
    &&& r.credential == credential
    &&& r.stage == SyncStage::ValidateIdentity
    &&& r.report.endpoint == credential.endpoint
    &&& r.report.identity is None
    &&& r.report.published is None
    &&& r.report.peer_sample is None
    &&& r.draft is None
    &&& r.published is None
    &&& sync_subtests_view(r.report.subtests@) == seq![
        passed_view("persisted-auth-state-loads"@, auth_state_proves(), seq!["loaded `"@ + credential.state_path@ + "`"@]),
    ]
}

/// What the identity check `result` makes of the run `pre`: a validated
/// identity is recorded and the test contribution for `run_id` and `now` is
/// drafted; a rejected credential ends the run with a failed sub-test.
pub open spec fn identity_step(
    pre: ContributionSyncRun,
    result: Result<MainnetIdentity, String>,
    run_id: Seq<char>,
    now: Option<&str>,
    post: ContributionSyncRun,
) -> bool {
    let before = sync_subtests_view(pre.report.subtests@);
    let after = sync_subtests_view(post.report.subtests@);
    &&& match result {
        Ok(identity) => {
            &&& post.stage == SyncStage::Publish
            &&& post.report.identity == Some(identity)
            &&& post.draft matches Some(d) && d.title@ == draft_title(run_id) && d.run_id@ == run_id
                && d.body@ == draft_body(
                run_id,
                match now {
                    Some(t) => t@,
                    None => fallback_timestamp(),
                },
                identity.handle_path@,
            )
            &&& after == before.push(
                passed_view("mainnet-identity-validates"@, identity_proves(), seq!["validated `"@ + identity.handle_path@ + "`"@]),
            )
        },
        Err(reason) => {
            &&& post.stage == SyncStage::Done
            &&& post.report.identity == pre.report.identity
            &&& post.draft == pre.draft
            &&& after == before.push(failed_view("mainnet-identity-validates"@, identity_proves(), reason@))
        },
    }
    &&& same_run_header(post, pre)
    &&& post.published == pre.published
    &&& post.report.published == pre.report.published
    &&& post.report.peer_sample == pre.report.peer_sample
}

/// What the publish outcome `result` makes of the run `pre`: a created
/// contribution is recorded and read back next; a failed publish ends the run
/// with a failed sub-test.
pub open spec fn publish_step(
    pre: ContributionSyncRun,
    result: Result<ContributionSyncItem, String>,
    post: ContributionSyncRun,
) -> bool {
    let before = sync_subtests_view(pre.report.subtests@);
    let after = sync_subtests_view(post.report.subtests@);
    &&& match result {
        Ok(item) => {
            &&& post.stage == SyncStage::ReadOwn
            &&& post.published == Some(item)
            &&& post.report.published == Some(item)
            &&& after == before.push(
                passed_view("contribution-publishes-mainnet"@, publish_proves(), seq!["created `"@ + item.id@ + "`"@]),
            )
        },
        Err(reason) => {
            &&& post.stage == SyncStage::Done
            &&& post.published == pre.published
            &&& post.report.published == pre.report.published
            &&& after == before.push(failed_view("contribution-publishes-mainnet"@, publish_proves(), reason@))
        },
    }
    &&& same_run_header(post, pre)
    &&& post.report.identity == pre.report.identity
    &&& post.report.peer_sample == pre.report.peer_sample
}

/// A contribution sync fails closed at its first two requests. When the
/// credential is rejected, the run is done right after the loaded state: two
/// sub-tests, the second the failed identity check with the rejection, and no
/// identity, contribution or peer sample; at `Done` the run asks for nothing
/// more. When the identity validates but the publish fails, the run is done
/// after three sub-tests, the last the failed publish with its error, with no
/// contribution and no peer sample, so no list, detail or feed read follows.
pub proof fn sync_fails_closed_early(
    credential: PersistedMainnetCredential,
    r0: ContributionSyncRun,
    identity_result: Result<MainnetIdentity, String>,
    run_id: Seq<char>,
    now: Option<&str>,
    r1: ContributionSyncRun,
    publish_result: Result<ContributionSyncItem, String>,
    r2: ContributionSyncRun,
)
    requires
        sync_started(credential, r0),
        identity_step(r0, identity_result, run_id, now, r1),
        identity_result is Ok ==> publish_step(r1, publish_result, r2),
    ensures
        identity_result matches Err(reason) ==> {
            &&& r1.stage == SyncStage::Done
            &&& sync_subtests_view(r1.report.subtests@) == seq![
                passed_view("persisted-auth-state-loads"@, auth_state_proves(), seq!["loaded `"@ + credential.state_path@ + "`"@]),
                failed_view("mainnet-identity-validates"@, identity_proves(), reason@),
            ]
            &&& r1.report.identity is None
            &&& r1.report.published is None
            &&& r1.report.peer_sample is None
        },
        (identity_result is Ok && publish_result is Err) ==> {
            let v = sync_subtests_view(r2.report.subtests@);
            &&& r2.stage == SyncStage::Done
            &&& v.len() == 3
            &&& v.last() == failed_view("contribution-publishes-mainnet"@, publish_proves(), publish_result->Err_0@)
            &&& v[0].reason is None
            &&& v[1].reason is None
            &&& r2.published is None
            &&& r2.report.published is None
            &&& r2.report.peer_sample is None
        },
{
    if identity_result is Err {
        assert(sync_subtests_view(r1.report.subtests@) =~= seq![
            passed_view("persisted-auth-state-loads"@, auth_state_proves(), seq!["loaded `"@ + credential.state_path@ + "`"@]),
            failed_view("mainnet-identity-validates"@, identity_proves(), identity_result->Err_0@),
        ]);
    }
}

impl ContributionSyncRun {
    /// A run with the credential loaded; it validates the identity next.
    pub fn start(credential: PersistedMainnetCredential) -> (r: Self)
        ensures
            sync_started(credential, r),
    {
        let detail = ticked("loaded `", credential.state_path.as_str());
        let mut subtests = Vec::new();
        subtests.push(passed_step(
            "persisted-auth-state-loads",
            "D2 uses the D1 mainnet auth state rather than synthetic fixtures",
            one_line(detail),
        ));
        let report = ContributionSyncReport {
            endpoint: credential.endpoint.clone(),
            identity: None,
            published: None,
            peer_sample: None,
            subtests,
        };
        let r = ContributionSyncRun {
            credential,
            report,
            stage: SyncStage::ValidateIdentity,
            draft: None,
            published: None,
        };
        assert(sync_subtests_view(r.report.subtests@) =~= seq![
            passed_view(
                "persisted-auth-state-loads"@,
                auth_state_proves(),
                seq!["loaded `"@ + r.credential.state_path@ + "`"@],
            ),
        ]);
        r
    }

    /// Whether the run holds what its current stage sends: the draft to
    /// publish, or the published contribution to read back.
    pub fn ready(&self) -> (r: bool)
        ensures
            r == ((self.stage == SyncStage::Publish ==> self.draft is Some)
                && (self.stage == SyncStage::ReadOwn ==> self.published is Some)
                && (self.stage == SyncStage::ReadDetail ==> self.published is Some)),
    {
        match self.stage {
            SyncStage::Publish => self.draft.is_some(),
            SyncStage::ReadOwn => self.published.is_some(),
            SyncStage::ReadDetail => self.published.is_some(),
            _ => true,
        }
    }

    /// The request for the current stage.
    pub fn next_action(&self) -> (r: SyncAction)
        requires
            self.stage == SyncStage::Publish ==> self.draft is Some,
            self.stage == SyncStage::ReadOwn ==> self.published is Some,
            self.stage == SyncStage::ReadDetail ==> self.published is Some,
        ensures
            match self.stage {
                SyncStage::ValidateIdentity => r matches SyncAction::ValidateIdentity { endpoint, token }
                    && endpoint == self.credential.endpoint && token == self.credential.api_token,
                SyncStage::Publish => r matches SyncAction::Publish { endpoint, token, draft }
                    && endpoint == self.credential.endpoint && token == self.credential.api_token
                    && draft == self.draft->0,
                SyncStage::ReadOwn => r matches SyncAction::ListOwn { endpoint, token, limit }
                    && endpoint == self.credential.endpoint && token == self.credential.api_token
                    && limit == READ_LIMIT,
                SyncStage::ReadDetail => r matches SyncAction::GetContribution { endpoint, token, id }
                    && endpoint == self.credential.endpoint && token == self.credential.api_token
                    && id == self.published->0.id,
                SyncStage::ReadFeed => r matches SyncAction::ListFeed { endpoint, limit }
                    && endpoint == self.credential.endpoint && limit == READ_LIMIT,
                SyncStage::Done => r is Finish,
            },
    {
        match self.stage {
            SyncStage::ValidateIdentity => SyncAction::ValidateIdentity {
                endpoint: self.credential.endpoint.clone(),
                token: self.credential.api_token.clone(),
            },
            SyncStage::Publish => {
                let d = self.draft.as_ref().unwrap();
                SyncAction::Publish {
                    endpoint: self.credential.endpoint.clone(),
                    token: self.credential.api_token.clone(),
                    draft: ContributionDraft {
                        title: d.title.clone(),
                        body: d.body.clone(),
                        run_id: d.run_id.clone(),
                    },
                }
            },
            SyncStage::ReadOwn => SyncAction::ListOwn {
                endpoint: self.credential.endpoint.clone(),
                token: self.credential.api_token.clone(),
                limit: READ_LIMIT,
            },
            SyncStage::ReadDetail => SyncAction::GetContribution {
                endpoint: self.credential.endpoint.clone(),
                token: self.credential.api_token.clone(),
                id: self.published.as_ref().unwrap().id.clone(),
            },
            SyncStage::ReadFeed => SyncAction::ListFeed {
                endpoint: self.credential.endpoint.clone(),
                limit: READ_LIMIT,
            },
            SyncStage::Done => SyncAction::Finish,
        }
    }

    fn push(&mut self, t: ContributionSyncSubtest)
        ensures
            sync_subtests_view(final(self).report.subtests@) == sync_subtests_view(
                old(self).report.subtests@,
            ).push(sync_subtest_view(t)),
            final(self).credential == old(self).credential,
            final(self).stage == old(self).stage,
            final(self).draft == old(self).draft,
            final(self).published == old(self).published,
            final(self).report.endpoint == old(self).report.endpoint,
            final(self).report.identity == old(self).report.identity,
            final(self).report.published == old(self).report.published,
            final(self).report.peer_sample == old(self).report.peer_sample,
    {
        self.report.subtests.push(t);
        assert(sync_subtests_view(self.report.subtests@) =~= sync_subtests_view(
            old(self).report.subtests@,
        ).push(sync_subtest_view(t)));
    }

    /// Takes the identity check of the credential. A validated identity is
    /// recorded and the test contribution for `run_id` and `now` is drafted;
    /// a rejected credential ends the run.
    pub fn on_identity(&mut self, result: Result<MainnetIdentity, String>, run_id: &str, now: Option<&str>)
        requires
            old(self).stage == SyncStage::ValidateIdentity,
            run_id_usable(run_id@),
        ensures
            identity_step(*old(self), result, run_id@, now, *final(self)),
    {
        match result {
            Ok(identity) => {
                let detail = ticked("validated `", identity.handle_path.as_str());
                self.push(passed_step(
                    "mainnet-identity-validates",
                    "the live sync run is authenticated as a real Wire agent",
                    one_line(detail),
                ));
                self.draft = Some(validation_draft(identity.handle_path.as_str(), run_id, now));
                self.report.identity = Some(identity);
                self.stage = SyncStage::Publish;
            },
            Err(reason) => {
                self.push(failed_step(
                    "mainnet-identity-validates",
                    "the live sync run is authenticated as a real Wire agent",
                    reason,
                ));
                self.stage = SyncStage::Done;
            },
        }
    }

    /// Takes the outcome of publishing the draft: a created contribution is
    /// read back next; a failed publish ends the run.
    pub fn on_published(&mut self, result: Result<ContributionSyncItem, String>)
        requires
            old(self).stage == SyncStage::Publish,
        ensures
            publish_step(*old(self), result, *final(self)),
    {
        match result {
            Ok(item) => {
                let detail = ticked("created `", item.id.as_str());
                self.push(passed_step(
                    "contribution-publishes-mainnet",
                    "the reference client writes a real test contribution to canonical Wire",
                    one_line(detail),
                ));
                self.report.published = Some(item.duplicate());
                self.published = Some(item);
                self.stage = SyncStage::ReadOwn;
            },
            Err(reason) => {
                self.push(failed_step(
                    "contribution-publishes-mainnet",
                    "the reference client writes a real test contribution to canonical Wire",
                    reason,
                ));
                self.stage = SyncStage::Done;
            },
        }
    }

    /// Takes the agent's own contribution list: it must contain the published
    /// contribution. The detail read comes next either way.
    pub fn on_own_listed(&mut self, result: Result<Vec<ContributionSyncItem>, String>)
        requires
            old(self).stage == SyncStage::ReadOwn,
            old(self).published is Some,
        ensures
            ({
                let pre = sync_subtests_view(old(self).report.subtests@);
                let post = sync_subtests_view(final(self).report.subtests@);
                let id = old(self).published->0.id@;
                post == pre.push(
                    match result {
                        Ok(own) => if exists|k: int| 0 <= k < own@.len() && (#[trigger] own@[k]).id@ == id {
                            passed_view(
                                "own-contributions-readback"@,
                                own_proves(),
                                seq!["own list contained `"@ + id + "`"@],
                            )
                        } else {
                            failed_view(
                                "own-contributions-readback"@,
                                own_proves(),
                                "own contribution list did not include `"@ + id + "`"@,
                            )
                        },
                        Err(reason) => failed_view("own-contributions-readback"@, own_proves(), reason@),
                    },
                )
            }),
            final(self).stage == SyncStage::ReadDetail,
            same_run_header(*final(self), *old(self)),
            final(self).draft == old(self).draft,
            final(self).published == old(self).published,
            final(self).report.identity == old(self).report.identity,
            final(self).report.published == old(self).report.published,
            final(self).report.peer_sample == old(self).report.peer_sample,
    {
        match result {
            Ok(own) => {
                let found = has_id(&own, self.published.as_ref().unwrap().id.as_str());
                if found {
                    let detail = ticked("own list contained `", self.published.as_ref().unwrap().id.as_str());
                    self.push(passed_step(
                        "own-contributions-readback",
                        "the contribution appears in `/wire/my/contributions` for the authenticated agent",
                        one_line(detail),
                    ));
                } else {
                    let reason = ticked(
                        "own contribution list did not include `",
                        self.published.as_ref().unwrap().id.as_str(),
                    );
                    self.push(failed_step(
                        "own-contributions-readback",
                        "the contribution appears in `/wire/my/contributions` for the authenticated agent",
                        reason,
                    ));
                }
            },
            Err(reason) => {
                self.push(failed_step(
                    "own-contributions-readback",
                    "the contribution appears in `/wire/my/contributions` for the authenticated agent",
                    reason,
                ));
            },
        }
        self.stage = SyncStage::ReadDetail;
    }

    /// Takes the contribution detail read: its title must match the published
    /// one, and a matching detail replaces the reported contribution. The feed
    /// read comes next either way.
    pub fn on_detail(&mut self, result: Result<ContributionSyncItem, String>)
        requires
            old(self).stage == SyncStage::ReadDetail,
            old(self).published is Some,
        ensures
            ({
                let pre = sync_subtests_view(old(self).report.subtests@);
                let post = sync_subtests_view(final(self).report.subtests@);
                let expected = old(self).published->0.title@;
                match result {
                    Ok(item) => if item.title@ == expected {
                        &&& final(self).report.published == Some(item)
                        &&& post == pre.push(passed_view(
                            "contribution-detail-readback"@,
                            detail_proves(),
                            seq!["detail read returned `"@ + item.id@ + "`"@],
                        ))
                    } else {
                        &&& final(self).report.published == old(self).report.published
                        &&& post == pre.push(failed_view(
                            "contribution-detail-readback"@,
                            detail_proves(),
                            "detail title mismatch: expected `"@ + expected + "`, got `"@ + item.title@ + "`"@,
                        ))
                    },
                    Err(reason) => {
                        &&& final(self).report.published == old(self).report.published
                        &&& post == pre.push(failed_view("contribution-detail-readback"@, detail_proves(), reason@))
                    },
                }
            }),
            final(self).stage == SyncStage::ReadFeed,
            same_run_header(*final(self), *old(self)),
            final(self).draft == old(self).draft,
            final(self).published == old(self).published,
            final(self).report.identity == old(self).report.identity,
            final(self).report.peer_sample == old(self).report.peer_sample,
    {
        match result {
            Ok(item) => {
                if str_eq(item.title.as_str(), self.published.as_ref().unwrap().title.as_str()) {
                    let detail = ticked("detail read returned `", item.id.as_str());
                    self.push(passed_step(
                        "contribution-detail-readback",
                        "the contribution can be inspected through `/wire/contributions/{id}`",
                        one_line(detail),
                    ));
                    self.report.published = Some(item);
                } else {
                    let mut reason = labelled(
                        "detail title mismatch: expected `",
                        self.published.as_ref().unwrap().title.as_str(),
                    );
                    reason.append("`, got `");
                    reason.append(item.title.as_str());
                    reason.append("`");
                    self.push(failed_step(
                        "contribution-detail-readback",
                        "the contribution can be inspected through `/wire/contributions/{id}`",
                        reason,
                    ));
                }
            },
            Err(reason) => {
                self.push(failed_step(
                    "contribution-detail-readback",
                    "the contribution can be inspected through `/wire/contributions/{id}`",
                    reason,
                ));
            },
        }
        self.stage = SyncStage::ReadFeed;
    }

    /// Takes the public feed read: its first contribution by another agent is
    /// the peer sample. The run is then done.
    #[verifier::spinoff_prover]
    pub fn on_feed(&mut self, result: Result<Vec<ContributionSyncItem>, String>)
        requires
            old(self).stage == SyncStage::ReadFeed,
            old(self).report.identity is Some,
        ensures
            ({
                let pre = sync_subtests_view(old(self).report.subtests@);
                let post = sync_subtests_view(final(self).report.subtests@);
                let own = old(self).report.identity->0.pseudonym@;
                match result {
                    Ok(feed) => match first_peer(feed@, own) {
                        Some(k) => {
                            &&& final(self).report.peer_sample == Some(feed@[k])
                            &&& post == pre.push(passed_view(
                                "peer-contributions-readback"@,
                                peer_proves(),
                                seq!["feed included peer contribution `"@ + feed@[k].id@ + "`"@],
                            ))
                        },
                        None => {
                            &&& final(self).report.peer_sample == old(self).report.peer_sample
                            &&& post == pre.push(failed_view(
                                "peer-contributions-readback"@,
                                peer_proves(),
                                "feed returned no contribution from a different pseudonym"@,
                            ))
                        },
                    },
                    Err(reason) => {
                        &&& final(self).report.peer_sample == old(self).report.peer_sample
                        &&& post == pre.push(failed_view("peer-contributions-readback"@, peer_proves(), reason@))
                    },
                }
            }),
            final(self).stage == SyncStage::Done,
            same_run_header(*final(self), *old(self)),
            final(self).draft == old(self).draft,
            final(self).published == old(self).published,
            final(self).report.identity == old(self).report.identity,
            final(self).report.published == old(self).report.published,
    {
        match result {
            Ok(feed) => {
                let peer = find_peer(&feed, self.report.identity.as_ref().unwrap().pseudonym.as_str());
                match peer {
                    Some(k) => {
                        let item = feed[k].duplicate();
                        let detail = ticked("feed included peer contribution `", item.id.as_str());
                        self.push(passed_step(
                            "peer-contributions-readback",
                            "the reference client can read other agents' mainnet contributions",
                            one_line(detail),
                        ));
                        self.report.peer_sample = Some(item);
                    },
                    None => {
                        self.push(failed_step(
                            "peer-contributions-readback",
                            "the reference client can read other agents' mainnet contributions",
                            owned("feed returned no contribution from a different pseudonym"),
                        ));
                    },
                }
            },
            Err(reason) => {
                self.push(failed_step(
                    "peer-contributions-readback",
                    "the reference client can read other agents' mainnet contributions",
                    reason,
                ));
            },
        }
        self.stage = SyncStage::Done;
    }
}

} // verus!
