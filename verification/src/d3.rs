//! Live compute-settlement validation (D3): report, retry policy and the text
//! helpers the live run uses for node handles and query parameters.
use std::collections::hash_map::DefaultHasher;
use std::hash::{Hash, Hasher};

use vstd::prelude::*;
use vstd::string::StringSliceAdditionalSpecFns;

use crate::report::{lines_view, push_subtest_md, subtest_md};
use crate::text::{
    bool_str, bool_text, char_lowercase, chars_of, lowercase_char, owned, push_char,
    push_decimal, push_signed_decimal, signed_decimal, str_contains, seq_contains, decimal,
    string_of_range,
};

verus! {

#[derive(Debug, Clone, PartialEq, Eq)]
pub enum D3Status {
    Passed,
    Failed { reason: String },
}

#[derive(Debug, Clone, PartialEq, Eq)]
pub struct D3Subtest {
    pub name: String,
    pub proves: String,
    pub status: D3Status,
    pub details: Vec<String>,
}

#[derive(Debug, Clone, PartialEq)]
pub struct D3LiveComputeSettlementReport {
    pub endpoint: String,
    pub supabase_url: String,
    pub model_id: String,
    pub provider_node_id: Option<String>,
    pub requester_node_id: Option<String>,
    pub tunnel_url: Option<String>,
    pub offer_id: Option<String>,
    pub job_id: Option<String>,
    pub uuid_job_id: Option<String>,
    pub settlement_id: Option<String>,
    pub settlement_status: Option<String>,
    pub actual_cost: Option<i64>,
    pub provider_payout: Option<i64>,
    pub requester_adjustment: Option<i64>,
    pub subtests: Vec<D3Subtest>,
}

/// `None` for a passed sub-test, the failure reason otherwise.
pub open spec fn d3_reason(s: D3Status) -> Option<Seq<char>> {
    match s {
        D3Status::Passed => None,
        D3Status::Failed { reason } => Some(reason@),
    }
}

pub open spec fn d3_subtest_md(t: D3Subtest) -> Seq<char> {
    subtest_md(t.name@, t.proves@, d3_reason(t.status), lines_view(t.details@))
}

pub open spec fn d3_subtests_md(v: Seq<D3Subtest>) -> Seq<char>
    decreases v.len(),
{
    if v.len() == 0 {
        Seq::empty()
    } else {
        d3_subtests_md(v.drop_last()) + d3_subtest_md(v.last())
    }
}

/// A labelled line for an optional field; nothing when the field is absent.
pub open spec fn opt_md(label: Seq<char>, v: Option<String>) -> Seq<char> {
    match v {
        Some(x) => label + x@ + "`\n"@,
        None => Seq::empty(),
    }
}

pub open spec fn or_zero(v: Option<i64>) -> int {
    match v {
        Some(x) => x as int,
        None => 0,
    }
}

pub open spec fn d3_all_green(r: D3LiveComputeSettlementReport) -> bool {
    forall|i: int| 0 <= i < r.subtests@.len() ==> #[trigger] r.subtests@[i].status == D3Status::Passed
}

pub open spec fn d3_economics_md(r: D3LiveComputeSettlementReport) -> Seq<char> {
    if r.actual_cost is Some || r.provider_payout is Some || r.requester_adjustment is Some {
        "- actual_cost/provider_payout/requester_adjustment: `"@ + signed_decimal(or_zero(r.actual_cost))
            + "/"@ + signed_decimal(or_zero(r.provider_payout)) + "/"@ + signed_decimal(
            or_zero(r.requester_adjustment),
        ) + "`\n"@
    } else {
        Seq::empty()
    }
}

pub open spec fn d3_header_md(r: D3LiveComputeSettlementReport) -> Seq<char> {
    "# D3 Live Compute Settlement Validation\n\n"@ + "Endpoint: `"@ + r.endpoint@ + "`\n\n"@
        + "Supabase read surface: `"@ + r.supabase_url@ + "`\n\n"@ + "Model: `"@ + r.model_id@
        + "`\n\n"@
}

pub open spec fn d3_ids_md(r: D3LiveComputeSettlementReport) -> Seq<char> {
    opt_md("- provider_node_id: `"@, r.provider_node_id) + opt_md(
        "- requester_node_id: `"@,
        r.requester_node_id,
    ) + opt_md("- tunnel_url: `"@, r.tunnel_url) + opt_md("- offer_id: `"@, r.offer_id) + opt_md(
        "- job_id: `"@,
        r.job_id,
    ) + opt_md("- uuid_job_id: `"@, r.uuid_job_id) + opt_md("- settlement_id: `"@, r.settlement_id)
        + opt_md("- settlement_status: `"@, r.settlement_status)
}

pub open spec fn d3_result_md(r: D3LiveComputeSettlementReport) -> Seq<char> {
    "## Result\n\n"@ + (if d3_all_green(r) {
        "D3 is green: the provider accepted a real mainnet dispatch, executed a live LLM call, posted settlement, and `wire_settlements` exposes the cleared row.\n\n"@
    } else {
        "D3 failed closed; see the sub-test reasons below.\n\n"@
    })
}

pub open spec fn d3_markdown(r: D3LiveComputeSettlementReport) -> Seq<char> {
    d3_header_md(r) + d3_ids_md(r) + d3_economics_md(r) + "\n"@ + d3_result_md(r)
        + "## Sub-tests\n\n"@ + d3_subtests_md(r.subtests@)
}

/// Appends `label`, the value and a closing backtick line when `v` is present.
pub fn push_opt_md(out: &mut String, label: &str, v: &Option<String>)
    ensures
        final(out)@ == old(out)@ + opt_md(label@, *v),
{
    match v {
        Some(x) => {
            out.append(label);
            out.append(x.as_str());
            out.append("`\n");
        },
        None => {
            assert(old(out)@ + Seq::<char>::empty() =~= old(out)@);
        },
    }
}

fn i64_or_zero(v: Option<i64>) -> (r: i64)
    ensures
        r as int == or_zero(v),
{
    match v {
        Some(x) => x,
        None => 0,
    }
}

impl D3Subtest {
    fn reason(&self) -> (r: Option<&str>)
        ensures
            match r {
                Some(x) => d3_reason(self.status) == Some(x@),
                None => d3_reason(self.status) is None,
            },
    {
        match &self.status {
            D3Status::Passed => None,
            D3Status::Failed { reason } => Some(reason.as_str()),
        }
    }
}

impl D3LiveComputeSettlementReport {
    /// Whether every sub-test passed.
    pub fn all_green(&self) -> (r: bool)
        ensures
            r == d3_all_green(*self),
    {
        let mut i: usize = 0;
        while i < self.subtests.len()
            invariant
                i <= self.subtests.len(),
                forall|k: int| 0 <= k < i ==> #[trigger] self.subtests@[k].status == D3Status::Passed,
            decreases self.subtests.len() - i,
        {
            match &self.subtests[i].status {
                D3Status::Passed => {},
                D3Status::Failed { .. } => return false,
            }
            i = i + 1;
        }
        true
    }

    /// Markdown rendering: endpoints, the identifiers the run collected, the
    /// settlement economics, the verdict and one line per sub-test.
    pub fn to_markdown(&self) -> (out: String)
        ensures
            out@ == d3_markdown(*self),
    {
        let mut out = owned("# D3 Live Compute Settlement Validation\n\n");
        out.append("Endpoint: `");
        out.append(self.endpoint.as_str());
        out.append("`\n\n");
        out.append("Supabase read surface: `");
        out.append(self.supabase_url.as_str());
        out.append("`\n\n");
        out.append("Model: `");
        out.append(self.model_id.as_str());
        out.append("`\n\n");
        assert(out@ =~= d3_header_md(*self));
        let ghost after_header = out@;
        push_opt_md(&mut out, "- provider_node_id: `", &self.provider_node_id);
        push_opt_md(&mut out, "- requester_node_id: `", &self.requester_node_id);
        push_opt_md(&mut out, "- tunnel_url: `", &self.tunnel_url);
        push_opt_md(&mut out, "- offer_id: `", &self.offer_id);
        push_opt_md(&mut out, "- job_id: `", &self.job_id);
        push_opt_md(&mut out, "- uuid_job_id: `", &self.uuid_job_id);
        push_opt_md(&mut out, "- settlement_id: `", &self.settlement_id);
        push_opt_md(&mut out, "- settlement_status: `", &self.settlement_status);
        assert(out@ =~= after_header + d3_ids_md(*self));
        let ghost after_ids = out@;
        if self.actual_cost.is_some() || self.provider_payout.is_some() || self.requester_adjustment.is_some() {
            out.append("- actual_cost/provider_payout/requester_adjustment: `");
            push_signed_decimal(&mut out, i64_or_zero(self.actual_cost));
            out.append("/");
            push_signed_decimal(&mut out, i64_or_zero(self.provider_payout));
            out.append("/");
            push_signed_decimal(&mut out, i64_or_zero(self.requester_adjustment));
            out.append("`\n");
        }
        assert(out@ =~= after_ids + d3_economics_md(*self));
        out.append("\n");
        out.append("## Result\n\n");
        out.append(if self.all_green() {
            "D3 is green: the provider accepted a real mainnet dispatch, executed a live LLM call, posted settlement, and `wire_settlements` exposes the cleared row.\n\n"
        } else {
            "D3 failed closed; see the sub-test reasons below.\n\n"
        });
        out.append("## Sub-tests\n\n");
        let ghost head = out@;
        assert(head =~= d3_header_md(*self) + d3_ids_md(*self) + d3_economics_md(*self) + "\n"@
            + d3_result_md(*self) + "## Sub-tests\n\n"@);
        let mut i: usize = 0;
        while i < self.subtests.len()
            invariant
                i <= self.subtests.len(),
                out@ == head + d3_subtests_md(self.subtests@.subrange(0, i as int)),
            decreases self.subtests.len() - i,
        {
            let t = &self.subtests[i];
            push_subtest_md(&mut out, t.name.as_str(), t.proves.as_str(), t.reason(), &t.details);
            assert(self.subtests@.subrange(0, i + 1).drop_last() =~= self.subtests@.subrange(0, i as int));
            i = i + 1;
            assert(out@ =~= head + d3_subtests_md(self.subtests@.subrange(0, i as int)));
        }
        assert(self.subtests@.subrange(0, self.subtests@.len() as int) =~= self.subtests@);
        out
    }
}

/// A passed sub-test.
pub fn passed_step(name: &str, proves: &str, details: Vec<String>) -> (r: D3Subtest)
    ensures
        r.name@ == name@,
        r.proves@ == proves@,
        r.status == D3Status::Passed,
        r.details == details,
{
    D3Subtest { name: owned(name), proves: owned(proves), status: D3Status::Passed, details }
}

/// A failed sub-test with no details.
pub fn failed_step(name: &str, proves: &str, reason: String) -> (r: D3Subtest)
    ensures
        r.name@ == name@,
        r.proves@ == proves@,
        r.status == (D3Status::Failed { reason }),
        r.details@.len() == 0,
{
    D3Subtest {
        name: owned(name),
        proves: owned(proves),
        status: D3Status::Failed { reason },
        details: Vec::new(),
    }
}

// ---------------------------------------------------------------------------
// Node handles and query-string encoding.

pub open spec fn ascii_alnum(c: char) -> bool {
    ('a' <= c && c <= 'z') || ('A' <= c && c <= 'Z') || ('0' <= c && c <= '9')
}

/// Every character of `s` lowercased with `char::to_lowercase`, in order.
pub open spec fn lowered(s: Seq<char>) -> Seq<char>
    decreases s.len(),
{
    if s.len() == 0 {
        Seq::empty()
    } else {
        lowered(s.drop_last()) + char_lowercase(s.last())
    }
}

/// ASCII alphanumerics kept; every run of other characters collapsed to one
/// `-`.
pub open spec fn dash_collapsed(s: Seq<char>) -> Seq<char>
    decreases s.len(),
{
    if s.len() == 0 {
        Seq::empty()
    } else {
        let p = dash_collapsed(s.drop_last());
        let c = s.last();
        if ascii_alnum(c) {
            p.push(c)
        } else if p.len() > 0 && p.last() == '-' {
            p
        } else {
            p.push('-')
        }
    }
}

/// Position of the first character that is not `-` (or the length).
pub open spec fn first_non_dash(s: Seq<char>, from: int) -> int
    decreases s.len() - from,
{
    if from >= s.len() || s[from] != '-' {
        from
    } else {
        first_non_dash(s, from + 1)
    }
}

/// One past the last character that is not `-` (or `floor`).
pub open spec fn end_non_dash(s: Seq<char>, to: int, floor: int) -> int
    decreases to - floor,
{
    if to <= floor || s[to - 1] != '-' {
        to
    } else {
        end_non_dash(s, to - 1, floor)
    }
}

/// `s` without leading and trailing `-`.
pub open spec fn trim_dashes(s: Seq<char>) -> Seq<char> {
    let a = first_non_dash(s, 0);
    s.subrange(a, end_non_dash(s, s.len() as int, a))
}

/// A stable ASCII node handle for a display name: lowercased, non-alphanumeric
/// runs collapsed to `-`, outer dashes trimmed, at most 48 characters, and a
/// fixed fallback when nothing is left.
pub open spec fn node_handle_of(name: Seq<char>) -> Seq<char> {
    let t = trim_dashes(dash_collapsed(lowered(name)));
    if t.len() == 0 {
        "d3-kramer-node"@
    } else if t.len() <= 48 {
        t
    } else {
        t.take(48)
    }
}

proof fn first_non_dash_bounds(s: Seq<char>, from: int)
    requires
        0 <= from <= s.len(),
    ensures
        from <= first_non_dash(s, from) <= s.len(),
        forall|k: int| from <= k < first_non_dash(s, from) ==> s[k] == '-',
    decreases s.len() - from,
{
    if from < s.len() && s[from] == '-' {
        first_non_dash_bounds(s, from + 1);
    }
}

proof fn end_non_dash_bounds(s: Seq<char>, to: int, floor: int)
    requires
        0 <= floor <= to <= s.len(),
    ensures
        floor <= end_non_dash(s, to, floor) <= to,
        forall|k: int| end_non_dash(s, to, floor) <= k < to ==> s[k] == '-',
    decreases to - floor,
{
    if to > floor && s[to - 1] == '-' {
        end_non_dash_bounds(s, to - 1, floor);
    }
}

/// Appends the dash-collapsed form of `cs` to `out`, where `out` already holds
/// `dash_collapsed(prefix)`.
fn collapse_into(out: &mut Vec<char>, cs: &Vec<char>, Ghost(prefix): Ghost<Seq<char>>)
    requires
        old(out)@ == dash_collapsed(prefix),
    ensures
        final(out)@ == dash_collapsed(prefix + cs@),
{
    let mut i: usize = 0;
    while i < cs.len()
        invariant
            i <= cs.len(),
            out@ == dash_collapsed(prefix + cs@.subrange(0, i as int)),
        decreases cs.len() - i,
    {
        let c = cs[i];
        let ghost before = prefix + cs@.subrange(0, i as int);
        let ghost after = prefix + cs@.subrange(0, i + 1);
        assert(after.drop_last() =~= before);
        assert(after.last() == c);
        if ('a' <= c && c <= 'z') || ('A' <= c && c <= 'Z') || ('0' <= c && c <= '9') {
            out.push(c);
        } else if out.len() > 0 && out[out.len() - 1] == '-' {
        } else {
            out.push('-');
        }
        i = i + 1;
    }
    assert(cs@.subrange(0, cs@.len() as int) =~= cs@);
}

/// The node handle for a display name (see `node_handle_of`).
pub fn sanitize_node_handle(name: &str) -> (out: String)
    ensures
        out@ == node_handle_of(name@),
{
    let cs = chars_of(name);
    let mut collapsed: Vec<char> = Vec::new();
    let mut i: usize = 0;
    while i < cs.len()
        invariant
            cs@ == name@,
            i <= cs.len(),
            collapsed@ == dash_collapsed(lowered(name@.subrange(0, i as int))),
        decreases cs.len() - i,
    {
        let lower = lowercase_char(cs[i]);
        let ghost prefix = lowered(name@.subrange(0, i as int));
        collapse_into(&mut collapsed, &lower, Ghost(prefix));
        assert(name@.subrange(0, i + 1).drop_last() =~= name@.subrange(0, i as int));
        i = i + 1;
    }
    assert(name@.subrange(0, name@.len() as int) =~= name@);
    let ghost s = collapsed@;
    let mut a: usize = 0;
    while a < collapsed.len() && collapsed[a as usize] == '-'
        invariant
            a <= collapsed.len(),
            first_non_dash(s, 0) == first_non_dash(s, a as int),
            s == collapsed@,
        decreases collapsed.len() - a,
    {
        a = a + 1;
    }
    let mut b: usize = collapsed.len();
    while b > a && collapsed[b - 1] == '-'
        invariant
            a <= b <= collapsed.len(),
            end_non_dash(s, s.len() as int, a as int) == end_non_dash(s, b as int, a as int),
            s == collapsed@,
        decreases b - a,
    {
        b = b - 1;
    }
    if a == b {
        return owned("d3-kramer-node");
    }
    let end = if b - a <= 48 {
        b
    } else {
        a + 48
    };
    let out = string_of_range(&collapsed, a, end);
    assert(out@ =~= node_handle_of(name@));
    out
}

pub open spec fn unreserved_byte(b: u8) -> bool {
    (97 <= b && b <= 122) || (65 <= b && b <= 90) || (48 <= b && b <= 57) || b == 45 || b == 46
        || b == 95 || b == 126
}

pub open spec fn hex_digit_char(d: nat) -> char {
    if d < 10 {
        (48 + d) as char
    } else {
        (55 + d) as char
    }
}

/// One byte of a query component: unreserved bytes stay, others become `%XX`
/// with uppercase hex digits.
pub open spec fn percent_byte(b: u8) -> Seq<char> {
    if unreserved_byte(b) {
        seq![b as char]
    } else {
        seq!['%', hex_digit_char((b / 16) as nat), hex_digit_char((b % 16) as nat)]
    }
}

pub open spec fn percent_encoded(bytes: Seq<u8>) -> Seq<char>
    decreases bytes.len(),
{
    if bytes.len() == 0 {
        Seq::empty()
    } else {
        percent_encoded(bytes.drop_last()) + percent_byte(bytes.last())
    }
}

fn hex_digit(d: u8) -> (c: char)
    requires
        d < 16,
    ensures
        c == hex_digit_char(d as nat),
{
    if d < 10 {
        (48u8 + d) as char
    } else {
        (55u8 + d) as char
    }
}

/// Percent-encodes the UTF-8 bytes of `input` for use inside a URL path or
/// query component.
pub fn percent_encode_component(input: &str) -> (out: String)
    ensures
        out@ == percent_encoded(input.spec_bytes()),
{
    let bytes = input.as_bytes();
    let mut out = String::new();
    let mut i: usize = 0;
    while i < bytes.len()
        invariant
            bytes@ == input.spec_bytes(),
            i <= bytes@.len(),
            out@ == percent_encoded(bytes@.subrange(0, i as int)),
        decreases bytes@.len() - i,
    {
        let b = bytes[i];
        if (97 <= b && b <= 122) || (65 <= b && b <= 90) || (48 <= b && b <= 57) || b == 45 || b == 46
            || b == 95 || b == 126 {
            push_char(&mut out, b as char);
        } else {
            push_char(&mut out, '%');
            push_char(&mut out, hex_digit(b / 16));
            push_char(&mut out, hex_digit(b % 16));
        }
        assert(bytes@.subrange(0, i + 1).drop_last() =~= bytes@.subrange(0, i as int));
        i = i + 1;
        assert(out@ =~= percent_encoded(bytes@.subrange(0, i as int)));
    }
    assert(bytes@.subrange(0, bytes@.len() as int) =~= bytes@);
    out
}

/// Rough token count of a text: a quarter of its characters, at least one.
pub open spec fn token_estimate(s: Seq<char>) -> int {
    if s.len() / 4 >= 1 {
        (s.len() / 4) as int
    } else {
        1
    }
}

pub fn estimate_tokens(text: &str) -> (r: i64)
    requires
        text@.len() <= i64::MAX,
    ensures
        r as int == token_estimate(text@),
{
    let n = text.unicode_len();
    let q = (n / 4) as i64;
    if q >= 1 {
        q
    } else {
        1
    }
}

// ---------------------------------------------------------------------------
// Fill retries.

/// Failure reasons that indicate the provider tunnel is still propagating.
pub open spec fn retryable_reason(reason: Seq<char>) -> bool {
    seq_contains(reason, "provider_unreachable"@) || seq_contains(reason, "http_530"@) || seq_contains(
        reason,
        "HTTP 502"@,
    ) || seq_contains(reason, "HTTP 503"@) || seq_contains(reason, "HTTP 504"@)
}

pub fn fill_error_is_retryable(reason: &str) -> (r: bool)
    ensures
        r == retryable_reason(reason@),
{
    str_contains(reason, "provider_unreachable") || str_contains(reason, "http_530")
        || str_contains(reason, "HTTP 502") || str_contains(reason, "HTTP 503")
        || str_contains(reason, "HTTP 504")
}

/// How the requester retries a fill while the provider tunnel propagates.
#[derive(Debug, Clone, Copy)]
pub struct D3FillRetryPolicy {
    pub timeout_secs: u64,
    pub max_attempts: u32,
    pub backoff_millis: u64,
    pub max_jitter_millis: u64,
}

pub open spec fn default_or(v: Option<u64>, d: u64) -> u64 {
    match v {
        Some(x) => x,
        None => d,
    }
}

impl D3FillRetryPolicy {
    /// The policy from optional operator settings: a 180 s timeout (at least
    /// 1 s), 24 attempts (clamped to `1..=u32::MAX`), 5000 ms backoff (at least
    /// 250 ms) and 1000 ms jitter unless set.
    pub fn from_settings(
        timeout_secs: Option<u64>,
        max_attempts: Option<u64>,
        backoff_millis: Option<u64>,
        max_jitter_millis: Option<u64>,
    ) -> (r: Self)
        ensures
            r.timeout_secs == (if default_or(timeout_secs, 180) < 1 { 1 } else { default_or(timeout_secs, 180) }),
            r.max_attempts as u64 == (if default_or(max_attempts, 24) < 1 {
                1
            } else if default_or(max_attempts, 24) > u32::MAX {
                u32::MAX as u64
            } else {
                default_or(max_attempts, 24)
            }),
            r.backoff_millis == (if default_or(backoff_millis, 5000) < 250 { 250 } else { default_or(backoff_millis, 5000) }),
            r.max_jitter_millis == default_or(max_jitter_millis, 1000),
    {
        let timeout = match timeout_secs {
            Some(x) => x,
            None => 180,
        };
        let attempts = match max_attempts {
            Some(x) => x,
            None => 24,
        };
        let backoff = match backoff_millis {
            Some(x) => x,
            None => 5000,
        };
        let jitter = match max_jitter_millis {
            Some(x) => x,
            None => 1000,
        };
        D3FillRetryPolicy {
            timeout_secs: if timeout < 1 {
                1
            } else {
                timeout
            },
            max_attempts: if attempts < 1 {
                1
            } else if attempts > u32::MAX as u64 {
                u32::MAX
            } else {
                attempts as u32
            },
            backoff_millis: if backoff < 250 {
                250
            } else {
                backoff
            },
            max_jitter_millis: jitter,
        }
    }

    /// The pause before the next fill attempt, in nanoseconds, given the
    /// jitter drawn for this attempt; `None` when the failure is not retryable,
    /// the attempts are used up, or the timeout has passed. The pause never
    /// runs past the timeout.
    pub fn next_sleep_with_jitter(
        &self,
        reason: &str,
        attempts: u32,
        elapsed_nanos: u128,
        jitter_millis: u64,
    ) -> (r: Option<u128>)
        ensures
            r == retry_pause(*self, reason@, attempts, elapsed_nanos, jitter_millis),
    {
        if !fill_error_is_retryable(reason) || attempts >= self.max_attempts {
            return None;
        }
        let timeout: u128 = self.timeout_secs as u128 * 1_000_000_000;
        if elapsed_nanos >= timeout {
            return None;
        }
        let remaining = timeout - elapsed_nanos;
        let sleep: u128 = (self.backoff_millis as u128 + jitter_millis as u128) * 1_000_000;
        Some(if sleep > remaining {
            remaining
        } else {
            sleep
        })
    }

    /// The pause before the next fill attempt for `idempotency_key`, in
    /// nanoseconds (see `next_sleep_with_jitter`); the jitter comes from a hash
    /// of the key and attempt number.
    pub fn next_sleep(&self, reason: &str, attempts: u32, elapsed_nanos: u128, idempotency_key: &str) -> (r: Option<u128>)
        requires
            self.max_jitter_millis < u64::MAX,
        ensures
            exists|j: u64| j <= self.max_jitter_millis && r == retry_pause(*self, reason@, attempts, elapsed_nanos, j),
    {
        let jitter = retry_jitter_millis(idempotency_key, attempts, self.max_jitter_millis);
        self.next_sleep_with_jitter(reason, attempts, elapsed_nanos, jitter)
    }

    /// Backoff plus the jitter for this key and attempt, in milliseconds.
    pub fn retry_sleep_duration(&self, idempotency_key: &str, attempts: u32) -> (r: u64)
        requires
            self.backoff_millis + self.max_jitter_millis <= u64::MAX,
            self.max_jitter_millis < u64::MAX,
        ensures
            self.backoff_millis <= r <= self.backoff_millis + self.max_jitter_millis,
    {
        self.backoff_millis + retry_jitter_millis(idempotency_key, attempts, self.max_jitter_millis)
    }
}

pub open spec fn retry_pause(
    p: D3FillRetryPolicy,
    reason: Seq<char>,
    attempts: u32,
    elapsed_nanos: u128,
    jitter_millis: u64,
) -> Option<u128> {
    let timeout = p.timeout_secs * 1_000_000_000;
    let sleep = (p.backoff_millis + jitter_millis) * 1_000_000;
    if !retryable_reason(reason) || attempts >= p.max_attempts || elapsed_nanos >= timeout {
        None
    } else if sleep > timeout - elapsed_nanos {
        Some((timeout - elapsed_nanos) as u128)
    } else {
        Some(sleep as u128)
    }
}

/// Feeds the idempotency key and attempt number, as a pair, to `hasher`
/// through std's `Hash` impl for tuples. Nothing is claimed of what the
/// hasher holds afterwards: the bytes written are std's choice and may differ
/// between releases and platforms.
#[verifier::external_body]
fn hash_key_attempt(hasher: &mut DefaultHasher, idempotency_key: &str, attempts: u32) {
    (idempotency_key, attempts).hash(hasher);
}

/// std's `DefaultHasher` hash of the idempotency key and attempt number.
fn key_attempt_hash(idempotency_key: &str, attempts: u32) -> u64 {
    let mut hasher = DefaultHasher::new();
    hash_key_attempt(&mut hasher, idempotency_key, attempts);
    hasher.finish()
}

/// Jitter from a hash value: zero when no jitter is allowed, otherwise the
/// hash reduced into `0..=max_jitter_millis`.
pub fn jitter_from_hash(hash: u64, max_jitter_millis: u64) -> (r: u64)
    requires
        max_jitter_millis < u64::MAX,
    ensures
        r as int == (if max_jitter_millis == 0 { 0 } else { hash as int % (max_jitter_millis as int + 1) }),
        r <= max_jitter_millis,
{
    if max_jitter_millis == 0 {
        0
    } else {
        hash % (max_jitter_millis + 1)
    }
}

/// Deterministic jitter for a key and attempt, at most `max_jitter_millis`.
pub fn retry_jitter_millis(idempotency_key: &str, attempts: u32, max_jitter_millis: u64) -> (r: u64)
    requires
        max_jitter_millis < u64::MAX,
    ensures
        r <= max_jitter_millis,
        max_jitter_millis == 0 ==> r == 0,
{
    if max_jitter_millis == 0 {
        return 0;
    }
    jitter_from_hash(key_attempt_hash(idempotency_key, attempts), max_jitter_millis)
}

/// The error a fill reports once retries stop: the last reason, prefixed with
/// the attempt count when more than one attempt was made.
pub open spec fn fill_failure_text(attempts: u32, reason: Seq<char>) -> Seq<char> {
    if attempts > 1 {
        "fill failed after "@ + decimal(attempts as nat) + " attempts with stable idempotency key: "@
            + reason
    } else {
        reason
    }
}

pub fn fill_failure_message(attempts: u32, reason: String) -> (r: String)
    ensures
        r@ == fill_failure_text(attempts, reason@),
{
    if attempts > 1 {
        let mut out = owned("fill failed after ");
        push_decimal(&mut out, attempts as u128);
        out.append(" attempts with stable idempotency key: ");
        out.append(reason.as_str());
        out
    } else {
        reason
    }
}

// ---------------------------------------------------------------------------
// Local provider server.

/// The details reported once the provider finished dispatch, delivery and
/// settlement.
pub open spec fn completion_details_view(
    dispatch_seen: bool,
    requester_result_seen: bool,
    settlement_posted: bool,
    provider_request_id: Option<String>,
    settlement_response_trimmed: Option<String>,
) -> Seq<Seq<char>> {
    let base = seq![
        "dispatch_seen "@ + bool_text(dispatch_seen),
        "requester_result_seen "@ + bool_text(requester_result_seen),
        "settlement_posted "@ + bool_text(settlement_posted),
    ];
    let with_id = match provider_request_id {
        Some(id) => base.push("provider request id "@ + id@),
        None => base,
    };
    match settlement_response_trimmed {
        Some(r) => with_id.push("settlement response "@ + r@),
        None => with_id,
    }
}

fn labelled(label: &str, value: &str) -> (r: String)
    ensures
        r@ == label@ + value@,
{
    let mut out = owned(label);
    out.append(value);
    out
}

/// Details of the provider's completion, as reported in the D3 sub-test. The
/// settlement response is given already trimmed for the report.
pub fn provider_completion_details(
    dispatch_seen: bool,
    requester_result_seen: bool,
    settlement_posted: bool,
    provider_request_id: &Option<String>,
    settlement_response_trimmed: &Option<String>,
) -> (r: Vec<String>)
    ensures
        lines_view(r@) == completion_details_view(
            dispatch_seen,
            requester_result_seen,
            settlement_posted,
            *provider_request_id,
            *settlement_response_trimmed,
        ),
{
    let mut details: Vec<String> = Vec::new();
    details.push(labelled("dispatch_seen ", bool_str(dispatch_seen)));
    details.push(labelled("requester_result_seen ", bool_str(requester_result_seen)));
    details.push(labelled("settlement_posted ", bool_str(settlement_posted)));
    let ghost base = lines_view(details@);
    match provider_request_id {
        Some(id) => details.push(labelled("provider request id ", id.as_str())),
        None => {},
    }
    match settlement_response_trimmed {
        Some(resp) => details.push(labelled("settlement response ", resp.as_str())),
        None => {},
    }
    assert(lines_view(details@) =~= completion_details_view(
        dispatch_seen,
        requester_result_seen,
        settlement_posted,
        *provider_request_id,
        *settlement_response_trimmed,
    ));
    details
}

/// Position of the first `\r\n\r\n` in `bytes`.
pub open spec fn header_end_at(bytes: Seq<u8>, i: int) -> bool {
    0 <= i && i + 4 <= bytes.len() && bytes[i] == 13 && bytes[i + 1] == 10 && bytes[i + 2] == 13
        && bytes[i + 3] == 10
}

pub fn find_header_end(bytes: &[u8]) -> (r: Option<usize>)
    ensures
        match r {
            Some(i) => header_end_at(bytes@, i as int) && forall|k: int| 0 <= k < i ==> !header_end_at(bytes@, k),
            None => forall|k: int| !header_end_at(bytes@, k),
        },
{
    if bytes.len() < 4 {
        return None;
    }
    let mut i: usize = 0;
    while i < bytes.len() - 3
        invariant
            forall|k: int| 0 <= k < i ==> !header_end_at(bytes@, k),
            bytes.len() >= 4,
            i <= bytes.len() - 3,
        decreases bytes.len() - i,
    {
        if bytes[i] == 13 && bytes[i + 1] == 10 && bytes[i + 2] == 13 && bytes[i + 3] == 10 {
            return Some(i);
        }
        i = i + 1;
    }
    None
}

/// Law: the gateway failures seen while the provider tunnel propagates are
/// retried. A fill failure whose reason mentions `HTTP 502`, `HTTP 503`,
/// `HTTP 504`, `http_530` or `provider_unreachable` is retryable, and while
/// attempts and time are left its next pause is a wait no longer than the
/// time left; a reason with none of them is never retried.
pub proof fn gateway_failures_are_retried(
    p: D3FillRetryPolicy,
    reason: Seq<char>,
    attempts: u32,
    elapsed_nanos: u128,
    jitter_millis: u64,
)
    ensures
        ({
            let gateway = seq_contains(reason, "HTTP 502"@) || seq_contains(reason, "HTTP 503"@) || seq_contains(
                reason,
                "HTTP 504"@,
            ) || seq_contains(reason, "http_530"@) || seq_contains(reason, "provider_unreachable"@);
            let timeout = p.timeout_secs * 1_000_000_000;
            &&& gateway ==> retryable_reason(reason)
            &&& (gateway && attempts < p.max_attempts && elapsed_nanos < timeout) ==> (retry_pause(
                p,
                reason,
                attempts,
                elapsed_nanos,
                jitter_millis,
            ) matches Some(w) && w <= timeout - elapsed_nanos)
            &&& !gateway ==> !retryable_reason(reason) && retry_pause(p, reason, attempts, elapsed_nanos, jitter_millis)
                is None
        }),
{
}

/// Law: a fill is retried only while attempts and time are left, and the
/// pause before the next attempt is the backoff plus the jitter, cut short
/// so that it never runs past the timeout.
pub proof fn retry_pause_respects_limits(
    p: D3FillRetryPolicy,
    reason: Seq<char>,
    attempts: u32,
    elapsed_nanos: u128,
    jitter_millis: u64,
)
    ensures
        ({
            let timeout = p.timeout_secs * 1_000_000_000;
            let sleep = (p.backoff_millis + jitter_millis) * 1_000_000;
            let r = retry_pause(p, reason, attempts, elapsed_nanos, jitter_millis);
            &&& attempts >= p.max_attempts ==> r is None
            &&& elapsed_nanos >= timeout ==> r is None
            &&& r matches Some(w) ==> attempts < p.max_attempts && elapsed_nanos < timeout && w <= timeout
                - elapsed_nanos && w <= sleep && (w == sleep || w == timeout - elapsed_nanos)
            &&& (retryable_reason(reason) && attempts < p.max_attempts && elapsed_nanos < timeout) ==> r is Some
        }),
{
}

} // verus!
