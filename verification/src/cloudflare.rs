//! Cloudflare tunnel transport: platform artifacts, persisted tunnel state and
//! the classification of `cloudflared` log lines.
use vstd::prelude::*;

use crate::field_error::FieldError;
use crate::text::{
    join_path, lowercase_text, occurs_at, owned, path_join, seq_contains, seq_starts_with, str_contains, str_eq,
    str_starts_with, to_lowercase,
};

verus! {

#[derive(Debug, Clone, PartialEq, Eq)]
pub enum CloudflareTunnelError {
    /// A foundation value (URL, record id, topic) was rejected.
    Foundation(String),
    Io(String),
    Http(String),
    Json(String),
    UnsupportedPlatform,
    MissingTunnelToken,
    Process(String),
    NoStderr,
}

impl CloudflareTunnelError {
    /// The human-readable form of the error.
    pub fn message(&self) -> (r: String)
        ensures
            r@ == tunnel_error_text(*self),
    {
        match self {
            CloudflareTunnelError::Foundation(e) => e.clone(),
            CloudflareTunnelError::Io(e) => prefixed("io error: ", e.as_str()),
            CloudflareTunnelError::Http(e) => prefixed("http error: ", e.as_str()),
            CloudflareTunnelError::Json(e) => prefixed("json error: ", e.as_str()),
            CloudflareTunnelError::UnsupportedPlatform => owned("unsupported cloudflared platform"),
            CloudflareTunnelError::MissingTunnelToken => owned("missing tunnel token"),
            CloudflareTunnelError::Process(e) => prefixed("process error: ", e.as_str()),
            CloudflareTunnelError::NoStderr => owned("cloudflared stderr was not piped"),
        }
    }
}

pub open spec fn tunnel_error_text(e: CloudflareTunnelError) -> Seq<char> {
    match e {
        CloudflareTunnelError::Foundation(m) => m@,
        CloudflareTunnelError::Io(m) => "io error: "@ + m@,
        CloudflareTunnelError::Http(m) => "http error: "@ + m@,
        CloudflareTunnelError::Json(m) => "json error: "@ + m@,
        CloudflareTunnelError::UnsupportedPlatform => "unsupported cloudflared platform"@,
        CloudflareTunnelError::MissingTunnelToken => "missing tunnel token"@,
        CloudflareTunnelError::Process(m) => "process error: "@ + m@,
        CloudflareTunnelError::NoStderr => "cloudflared stderr was not piped"@,
    }
}

fn prefixed(prefix: &str, s: &str) -> (r: String)
    ensures
        r@ == prefix@ + s@,
{
    let mut out = owned(prefix);
    out.append(s);
    out
}

#[derive(Debug, Clone, PartialEq, Eq)]
pub enum TunnelConnectionStatus {
    Disconnected,
    Provisioning,
    Downloading,
    Connecting,
    Connected,
    Error(String),
}

impl Default for TunnelConnectionStatus {
    fn default() -> (r: Self)
        ensures
            r is Disconnected,
    {
        TunnelConnectionStatus::Disconnected
    }
}

/// Persisted tunnel state. `tunnel_url` holds the public tunnel URL text.
#[derive(Debug, Clone, PartialEq, Eq)]
pub struct TunnelState {
    pub tunnel_id: Option<String>,
    pub tunnel_url: Option<String>,
    pub tunnel_token: Option<String>,
    pub status: TunnelConnectionStatus,
}

/// The file name of the `cloudflared` binary on `target_os`.
pub fn cloudflared_binary_name(target_os: &str) -> (r: &'static str)
    ensures
        r@ == (if target_os@ == "windows"@ { "cloudflared.exe"@ } else { "cloudflared"@ }),
{
    if str_eq(target_os, "windows") {
        "cloudflared.exe"
    } else {
        "cloudflared"
    }
}

/// Where the `cloudflared` binary is installed under the node's data
/// directory: `bin/` and the platform's binary name.
pub fn cloudflared_binary_path(data_dir: &str, target_os: &str) -> (r: String)
    ensures
        r@ == path_join(
            path_join(data_dir@, "bin"@),
            if target_os@ == "windows"@ {
                "cloudflared.exe"@
            } else {
                "cloudflared"@
            },
        ),
{
    let bin = join_path(data_dir, "bin");
    join_path(bin.as_str(), cloudflared_binary_name(target_os))
}

pub open spec fn release_base() -> Seq<char> {
    "https://github.com/cloudflare/cloudflared/releases/latest/download"@
}

/// The release artifact for a platform, when one is published.
pub open spec fn download_artifact(os: Seq<char>, arch: Seq<char>) -> Option<Seq<char>> {
    if os == "macos"@ {
        if arch == "aarch64"@ {
            Some("cloudflared-darwin-arm64.tgz"@)
        } else {
            Some("cloudflared-darwin-amd64.tgz"@)
        }
    } else if os == "windows"@ {
        Some("cloudflared-windows-amd64.exe"@)
    } else if os == "linux"@ {
        if arch == "aarch64"@ {
            Some("cloudflared-linux-arm64"@)
        } else {
            Some("cloudflared-linux-amd64"@)
        }
    } else {
        None
    }
}

/// The download URL of the latest `cloudflared` release for a platform.
pub fn cloudflared_download_url_for(target_os: &str, target_arch: &str) -> (r: Result<String, CloudflareTunnelError>)
    ensures
        match download_artifact(target_os@, target_arch@) {
            Some(a) => (r matches Ok(u) && u@ == release_base() + "/"@ + a),
            None => r matches Err(CloudflareTunnelError::UnsupportedPlatform),
        },
{
    let artifact = if str_eq(target_os, "macos") {
        if str_eq(target_arch, "aarch64") {
            "cloudflared-darwin-arm64.tgz"
        } else {
            "cloudflared-darwin-amd64.tgz"
        }
    } else if str_eq(target_os, "windows") {
        "cloudflared-windows-amd64.exe"
    } else if str_eq(target_os, "linux") {
        if str_eq(target_arch, "aarch64") {
            "cloudflared-linux-arm64"
        } else {
            "cloudflared-linux-amd64"
        }
    } else {
        return Err(CloudflareTunnelError::UnsupportedPlatform);
    };
    let mut url = owned("https://github.com/cloudflare/cloudflared/releases/latest/download");
    url.append("/");
    url.append(artifact);
    Ok(url)
}

pub open spec fn marks_connected(line: Seq<char>) -> bool {
    seq_contains(line, "Registered tunnel connection"@) || seq_contains(line, "Connection registered"@)
        || seq_contains(line, "connIndex="@)
}

/// A `cloudflared` log line that reports a registered edge connection.
pub fn cloudflared_line_marks_connected(line: &str) -> (r: bool)
    ensures
        r == marks_connected(line@),
{
    str_contains(line, "Registered tunnel connection") || str_contains(line, "Connection registered")
        || str_contains(line, "connIndex=")
}

/// Benign lines that mention failure words but are not tunnel errors.
pub open spec fn benign_lower(lower: Seq<char>) -> bool {
    seq_contains(lower, "failed to sufficiently"@) || seq_contains(lower, "update check"@)
        || seq_contains(lower, "buffer size"@) || seq_contains(lower, "metrics server"@)
        || seq_contains(lower, "capacity"@) || (seq_contains(lower, " inf "@) && !seq_contains(
        lower,
        "tunnel connection failed"@,
    ))
}

pub open spec fn error_lower(lower: Seq<char>) -> bool {
    seq_contains(lower, " err "@) || seq_contains(lower, "\"level\":\"error\""@) || seq_contains(
        lower,
        "failed to connect to edge"@,
    ) || seq_contains(lower, "tunnel connection failed"@) || seq_contains(lower, "authentication failed"@)
        || (seq_contains(lower, "credential"@) && seq_contains(lower, "error"@))
}

/// Whether a `cloudflared` log line reports a tunnel error, judged on its
/// lowercased text.
pub open spec fn marks_error(line: Seq<char>) -> bool {
    let lower = lowercase_text(line);
    !benign_lower(lower) && error_lower(lower)
}

pub fn cloudflared_line_marks_error(line: &str) -> (r: bool)
    ensures
        r == marks_error(line@),
{
    let lower = to_lowercase(line);
    let l = lower.as_str();
    if str_contains(l, "failed to sufficiently") || str_contains(l, "update check") || str_contains(
        l,
        "buffer size",
    ) || str_contains(l, "metrics server") || str_contains(l, "capacity") || (str_contains(l, " inf ")
        && !str_contains(l, "tunnel connection failed")) {
        return false;
    }
    str_contains(l, " err ") || str_contains(l, "\"level\":\"error\"") || str_contains(
        l,
        "failed to connect to edge",
    ) || str_contains(l, "tunnel connection failed") || str_contains(l, "authentication failed")
        || (str_contains(l, "credential") && str_contains(l, "error"))
}

/// What one log line tells the tunnel monitor: connected, an error (carrying
/// the line), or nothing yet.
pub fn classify_cloudflared_line(line: &str) -> (r: Option<TunnelConnectionStatus>)
    ensures
        marks_connected(line@) ==> r matches Some(TunnelConnectionStatus::Connected),
        !marks_connected(line@) && marks_error(line@) ==> (r matches Some(TunnelConnectionStatus::Error(l)) && l@ == line@),
        !marks_connected(line@) && !marks_error(line@) ==> r is None,
{
    if cloudflared_line_marks_connected(line) {
        Some(TunnelConnectionStatus::Connected)
    } else if cloudflared_line_marks_error(line) {
        Some(TunnelConnectionStatus::Error(owned(line)))
    } else {
        None
    }
}

pub open spec fn node_url_prefix(node_id: Seq<char>) -> Seq<char> {
    "https://node-"@ + node_id + "."@
}

/// Persisted state is stale for a node when its tunnel URL is not the node's
/// own `https://node-<id>.` host.
pub open spec fn stale_for_node(state: TunnelState, node_id: Seq<char>) -> bool {
    match state.tunnel_url {
        Some(url) => !seq_starts_with(url@, node_url_prefix(node_id)),
        None => false,
    }
}

pub fn persisted_state_is_stale_for_node(state: &TunnelState, node_id: &str) -> (r: bool)
    ensures
        r == stale_for_node(*state, node_id@),
{
    match &state.tunnel_url {
        Some(url) => {
            let mut expected = owned("https://node-");
            expected.append(node_id);
            expected.append(".");
            !str_starts_with(url.as_str(), expected.as_str())
        },
        None => false,
    }
}

/// What to do with the persisted tunnel state before opening a tunnel.
#[derive(Debug, Clone, PartialEq, Eq)]
pub enum TunnelResolution {
    /// Reuse the persisted tunnel (its status set to `Connecting`).
    Reuse(TunnelState),
    /// The persisted state belongs to another node: discard it and provision.
    DiscardStaleAndProvision,
    /// Nothing usable is persisted: provision a new tunnel.
    Provision,
}

/// A persisted tunnel is reused when it belongs to this node and carries a
/// token; stale state is discarded; otherwise a new tunnel is provisioned.
pub fn resolve_tunnel_state(persisted: Option<TunnelState>, node_id: &str) -> (r: TunnelResolution)
    ensures
        match persisted {
            None => r is Provision,
            Some(s) => if stale_for_node(s, node_id@) {
                r is DiscardStaleAndProvision
            } else if s.tunnel_token is Some {
                (r matches TunnelResolution::Reuse(t) && t.tunnel_id == s.tunnel_id && t.tunnel_url
                    == s.tunnel_url && t.tunnel_token == s.tunnel_token && t.status is Connecting)
            } else {
                r is Provision
            },
        },
{
    match persisted {
        None => TunnelResolution::Provision,
        Some(s) => {
            if persisted_state_is_stale_for_node(&s, node_id) {
                TunnelResolution::DiscardStaleAndProvision
            } else if s.tunnel_token.is_some() {
                TunnelResolution::Reuse(TunnelState {
                    tunnel_id: s.tunnel_id,
                    tunnel_url: s.tunnel_url,
                    tunnel_token: s.tunnel_token,
                    status: TunnelConnectionStatus::Connecting,
                })
            } else {
                TunnelResolution::Provision
            }
        },
    }
}

// ---------------------------------------------------------------------------
// The tunnel driver.

/// What a tunnel is asked to expose: the local endpoint, the public URL the
/// caller would like, and the callbacks to register.
#[derive(Debug, Clone, PartialEq, Eq)]
pub struct TunnelRequest {
    pub local_endpoint: String,
    pub requested_public_url: Option<String>,
    pub callbacks: Vec<String>,
}

/// An open tunnel.
#[derive(Debug, Clone, PartialEq, Eq)]
pub struct TunnelSession {
    pub driver_name: String,
    pub public_url: String,
    pub local_endpoint: String,
    pub callbacks: Vec<String>,
}

/// The Cloudflare transport driver, with the tunnel URL it was configured
/// with, if any.
#[derive(Debug, Clone, PartialEq, Eq, Default)]
pub struct CloudflareTunnelDriver {
    pub tunnel_url: Option<String>,
}

impl CloudflareTunnelDriver {
    pub fn new(tunnel_url: Option<String>) -> (r: Self)
        ensures
            r.tunnel_url == tunnel_url,
    {
        CloudflareTunnelDriver { tunnel_url }
    }

    /// A driver for the tunnel that `state` persisted.
    pub fn from_state(state: &TunnelState) -> (r: Self)
        ensures
            r.tunnel_url == state.tunnel_url,
    {
        CloudflareTunnelDriver { tunnel_url: state.tunnel_url.clone() }
    }

    pub fn with_static_tunnel(tunnel_url: String) -> (r: Self)
        ensures
            r.tunnel_url == Some(tunnel_url),
    {
        CloudflareTunnelDriver { tunnel_url: Some(tunnel_url) }
    }

    pub fn driver_name(&self) -> (r: &'static str)
        ensures
            r@ == "cloudflare"@,
    {
        "cloudflare"
    }

    pub fn tunnel_url(&self) -> (r: Option<String>)
        ensures
            r == self.tunnel_url,
    {
        self.tunnel_url.clone()
    }

    /// Opens a session on the configured tunnel URL, else on the URL the
    /// request asks for; with neither there is no public URL to serve on.
    pub fn open_tunnel(&self, request: TunnelRequest) -> (r: Result<TunnelSession, FieldError>)
        ensures
            match (self.tunnel_url, request.requested_public_url) {
                (None, None) => r == Err::<TunnelSession, FieldError>(
                    FieldError::EmptyField { field: "public_tunnel_url" },
                ),
                (Some(url), _) | (None, Some(url)) => r matches Ok(session) && session.public_url
                    == url && session.driver_name@ == "cloudflare"@ && session.local_endpoint
                    == request.local_endpoint && session.callbacks == request.callbacks,
            },
    {
        let public_url = match &self.tunnel_url {
            Some(url) => url.clone(),
            None => match request.requested_public_url {
                Some(url) => url,
                None => {
                    return Err(FieldError::EmptyField { field: "public_tunnel_url" });
                },
            },
        };
        Ok(TunnelSession {
            driver_name: owned(self.driver_name()),
            public_url,
            local_endpoint: request.local_endpoint,
            callbacks: request.callbacks,
        })
    }
}

// ---------------------------------------------------------------------------
// Laws.

/// `needle` does not occur in `hay` when some pair of neighbouring
/// characters of `needle` never stands next to each other in `hay`.
proof fn absent_by_pair(hay: Seq<char>, needle: Seq<char>, k: int)
    requires
        0 <= k < needle.len() - 1,
        forall|i: int| 0 <= i < hay.len() - 1 ==> !(#[trigger] hay[i] == needle[k] && hay[i + 1] == needle[k + 1]),
    ensures
        !seq_contains(hay, needle),
{
    if seq_contains(hay, needle) {
        let i = choose|i: int| occurs_at(hay, needle, i);
        assert(hay.subrange(i, i + needle.len())[k] == hay[i + k]);
        assert(hay.subrange(i, i + needle.len())[k + 1] == hay[i + k + 1]);
    }
}

/// `needle` occurs in `hay` at position `i`.
proof fn present_at(hay: Seq<char>, needle: Seq<char>, i: int)
    requires
        0 <= i,
        i + needle.len() <= hay.len(),
        forall|k: int| 0 <= k < needle.len() ==> hay[i + k] == #[trigger] needle[k],
    ensures
        seq_contains(hay, needle),
{
    assert(hay.subrange(i, i + needle.len()) =~= needle);
    assert(occurs_at(hay, needle, i));
}

/// Law: the `cloudflared` build follows the target. An aarch64 target on
/// Linux or macOS gets an arm64 build and never an amd64 one; any other
/// architecture, and Windows whatever its architecture, gets an amd64 build
/// and never an arm64 one. A Linux target gets a Linux build, a macOS target
/// a Darwin build and a Windows target a Windows build; other systems have
/// none.
pub proof fn download_artifact_matches_target(os: Seq<char>, arch: Seq<char>)
    ensures
        match download_artifact(os, arch) {
            Some(a) => {
                let arm = arch == "aarch64"@ && os != "windows"@;
                &&& (arm ==> seq_contains(a, "arm64"@) && !seq_contains(a, "amd64"@))
                &&& (!arm ==> seq_contains(a, "amd64"@) && !seq_contains(a, "arm64"@))
                &&& (os == "linux"@ ==> seq_contains(a, "linux"@))
                &&& (os == "macos"@ ==> seq_contains(a, "darwin"@))
                &&& (os == "windows"@ ==> seq_contains(a, "windows"@))
            },
            None => os != "linux"@ && os != "macos"@ && os != "windows"@,
        },
{
    reveal_strlit("macos");
    reveal_strlit("linux");
    reveal_strlit("windows");
    reveal_strlit("darwin");
    reveal_strlit("aarch64");
    reveal_strlit("arm64");
    reveal_strlit("amd64");
    reveal_strlit("cloudflared-darwin-arm64.tgz");
    reveal_strlit("cloudflared-darwin-amd64.tgz");
    reveal_strlit("cloudflared-windows-amd64.exe");
    reveal_strlit("cloudflared-linux-arm64");
    reveal_strlit("cloudflared-linux-amd64");
    assert("macos"@.len() == 5 && "linux"@.len() == 5 && "windows"@.len() == 7);
    assert("macos"@[0] != "linux"@[0]);
    if os == "macos"@ {
        let a = download_artifact(os, arch)->0;
        present_at(a, "darwin"@, 12);
        if arch == "aarch64"@ {
            assert(a == "cloudflared-darwin-arm64.tgz"@);
            present_at(a, "arm64"@, 19);
            assert forall|i: int| 0 <= i < a.len() - 1 implies !(#[trigger] a[i] == 'a' && a[i + 1] == 'm') by {}
            absent_by_pair(a, "amd64"@, 0);
        } else {
            assert(a == "cloudflared-darwin-amd64.tgz"@);
            present_at(a, "amd64"@, 19);
            assert forall|i: int| 0 <= i < a.len() - 1 implies !(#[trigger] a[i] == 'r' && a[i + 1] == 'm') by {}
            absent_by_pair(a, "arm64"@, 1);
        }
    } else if os == "windows"@ {
        let a = download_artifact(os, arch)->0;
        assert(a == "cloudflared-windows-amd64.exe"@);
        present_at(a, "amd64"@, 20);
        present_at(a, "windows"@, 12);
        assert forall|i: int| 0 <= i < a.len() - 1 implies !(#[trigger] a[i] == 'r' && a[i + 1] == 'm') by {}
        absent_by_pair(a, "arm64"@, 1);
    } else if os == "linux"@ {
        let a = download_artifact(os, arch)->0;
        present_at(a, "linux"@, 12);
        if arch == "aarch64"@ {
            assert(a == "cloudflared-linux-arm64"@);
            present_at(a, "arm64"@, 18);
            assert forall|i: int| 0 <= i < a.len() - 1 implies !(#[trigger] a[i] == 'a' && a[i + 1] == 'm') by {}
            absent_by_pair(a, "amd64"@, 0);
        } else {
            assert(a == "cloudflared-linux-amd64"@);
            present_at(a, "amd64"@, 18);
            assert forall|i: int| 0 <= i < a.len() - 1 implies !(#[trigger] a[i] == 'r' && a[i + 1] == 'm') by {}
            absent_by_pair(a, "arm64"@, 1);
        }
    }
}

/// Law: a `cloudflared` log line is judged on its lowercased text. A line
/// with none of the benign markers (`failed to sufficiently`, `update
/// check`, `buffer size`, `metrics server`, `capacity`, ` inf `) is a tunnel
/// error when it carries an error marker: ` err `, `"level":"error"`,
/// `failed to connect to edge`, `tunnel connection failed`, `authentication
/// failed`, or both `credential` and `error`; `tunnel connection failed`
/// counts even beside ` inf `. A line with one of the other benign markers,
/// or with no error marker at all, is never an error.
pub proof fn cloudflared_error_markers(line: Seq<char>)
    ensures
        ({
            let lower = lowercase_text(line);
            let benign = seq_contains(lower, "failed to sufficiently"@) || seq_contains(lower, "update check"@)
                || seq_contains(lower, "buffer size"@) || seq_contains(lower, "metrics server"@) || seq_contains(
                lower,
                "capacity"@,
            );
            let marked = seq_contains(lower, " err "@) || seq_contains(lower, "\"level\":\"error\""@)
                || seq_contains(lower, "failed to connect to edge"@) || seq_contains(lower, "tunnel connection failed"@)
                || seq_contains(lower, "authentication failed"@) || (seq_contains(lower, "credential"@)
                && seq_contains(lower, "error"@));
            &&& (!benign && !seq_contains(lower, " inf "@) && marked) ==> marks_error(line)
            &&& (!benign && seq_contains(lower, "tunnel connection failed"@)) ==> marks_error(line)
            &&& (!benign && seq_contains(lower, " err "@) && !seq_contains(lower, " inf "@)) ==> marks_error(line)
            &&& benign ==> !marks_error(line)
            &&& !marked ==> !marks_error(line)
        }),
{
}

/// Law: a line that reports a registered edge connection (`Registered tunnel
/// connection`, `Connection registered` or a `connIndex=` field) marks the
/// tunnel connected, and a line with none of these never does.
pub proof fn cloudflared_connected_markers(line: Seq<char>)
    ensures
        (seq_contains(line, "Registered tunnel connection"@) || seq_contains(line, "Connection registered"@)
            || seq_contains(line, "connIndex="@)) <==> marks_connected(line),
{
}

} // verus!
