//! Long-running stability driver: repeats the live D3 settlement cycle and
//! summarizes latency percentiles and resident-memory drift.
use vstd::prelude::*;

use crate::d3::{d3_all_green, D3LiveComputeSettlementReport, D3Status, D3Subtest};
use crate::text::{decimal, owned, push_decimal, push_signed_decimal, signed_decimal, trim_for_report, trimmed_for_report};

verus! {

broadcast use vstd::seq_lib::group_seq_properties, vstd::multiset::group_multiset_properties;

#[derive(Debug, Clone, PartialEq)]
pub struct L6CycleResult {
    pub index: usize,
    pub green: bool,
    pub elapsed_ms: u128,
    pub provider_node_id: Option<String>,
    pub requester_node_id: Option<String>,
    pub tunnel_url: Option<String>,
    pub offer_id: Option<String>,
    pub job_id: Option<String>,
    pub uuid_job_id: Option<String>,
    pub settlement_id: Option<String>,
    pub settlement_status: Option<String>,
    pub actual_cost: Option<i64>,
    pub provider_payout: Option<i64>,
    pub requester_adjustment: Option<i64>,
    pub error: Option<String>,
}

#[derive(Debug, Clone, PartialEq)]
pub struct L6StabilityReport {
    pub requested_cycles: usize,
    pub completed_cycles: usize,
    pub all_green: bool,
    pub cycle_delay_secs: u64,
    pub total_elapsed_ms: u128,
    pub p50_cycle_ms: Option<u128>,
    pub p99_cycle_ms: Option<u128>,
    pub initial_rss_kib: Option<i64>,
    pub final_rss_kib: Option<i64>,
    pub max_rss_kib: Option<i64>,
    pub rss_delta_kib: Option<i64>,
    pub cycles: Vec<L6CycleResult>,
}

/// How many cycles to run and how long to pause between them.
#[derive(Debug, Clone, PartialEq, Eq)]
pub struct L6Config {
    pub cycles: usize,
    pub cycle_delay_secs: u64,
}

impl L6Config {
    /// The configuration from optional operator settings: one cycle unless a
    /// positive count is given, and no pause unless one is given.
    pub fn from_settings(cycles: Option<usize>, cycle_delay_secs: Option<u64>) -> (r: Self)
        ensures
            r.cycles == (match cycles {
                Some(n) => if n > 0 { n } else { 1 },
                None => 1,
            }),
            r.cycle_delay_secs == (match cycle_delay_secs {
                Some(d) => d,
                None => 0,
            }),
    {
        L6Config {
            cycles: match cycles {
                Some(n) => if n > 0 {
                    n
                } else {
                    1
                },
                None => 1,
            },
            cycle_delay_secs: match cycle_delay_secs {
                Some(d) => d,
                None => 0,
            },
        }
    }
}

/// What the driver does after cycle `index` (1-based) finished.
#[derive(Debug, Clone, Copy, PartialEq, Eq, Structural)]
pub enum L6CycleAction {
    /// Stop: the cycle failed or it was the last one.
    Stop,
    /// Pause this many seconds, then run the next cycle.
    Pause(u64),
    /// Run the next cycle right away.
    Continue,
}

pub open spec fn next_cycle_action(config: L6Config, index: usize, green: bool) -> L6CycleAction {
    if !green || index >= config.cycles {
        L6CycleAction::Stop
    } else if config.cycle_delay_secs > 0 {
        L6CycleAction::Pause(config.cycle_delay_secs)
    } else {
        L6CycleAction::Continue
    }
}

/// The driver stops at the first failed cycle and after the last requested
/// one, pausing between cycles when a delay is configured.
pub fn after_cycle(config: &L6Config, index: usize, green: bool) -> (r: L6CycleAction)
    ensures
        r == next_cycle_action(*config, index, green),
{
    if !green || index >= config.cycles {
        L6CycleAction::Stop
    } else if config.cycle_delay_secs > 0 {
        L6CycleAction::Pause(config.cycle_delay_secs)
    } else {
        L6CycleAction::Continue
    }
}

pub open spec fn max_sample(max: Option<i64>, sample: Option<i64>) -> Option<i64> {
    match sample {
        Some(r) => match max {
            Some(c) => Some(if c >= r { c } else { r }),
            None => Some(r),
        },
        None => max,
    }
}

/// Folds a resident-memory sample into the running maximum.
pub fn fold_max_rss(max: Option<i64>, sample: Option<i64>) -> (r: Option<i64>)
    ensures
        r == max_sample(max, sample),
{
    match sample {
        Some(r) => match max {
            Some(c) => Some(if c >= r {
                c
            } else {
                r
            }),
            None => Some(r),
        },
        None => max,
    }
}

pub open spec fn percentile_index(len: nat, percentile: u32) -> int {
    let p: int = if percentile > 100 { 100 } else { percentile as int };
    ((len - 1) * p + 99) / 100
}

/// The `percentile`-th value of an ascending list (the percentile is capped at
/// 100), rounding the index up; `None` for an empty list.
pub open spec fn percentile_of(values: Seq<u128>, percentile: u32) -> Option<u128> {
    if values.len() == 0 {
        None
    } else {
        Some(values[percentile_index(values.len(), percentile)])
    }
}

pub fn percentile(values: &[u128], pct: u32) -> (r: Option<u128>)
    ensures
        r == percentile_of(values@, pct),
        values@.len() > 0 ==> 0 <= percentile_index(values@.len(), pct) < values@.len(),
{
    if values.len() == 0 {
        return None;
    }
    let p: u128 = if pct > 100 {
        100
    } else {
        pct as u128
    };
    let n: u128 = values.len() as u128;
    assert((n - 1) * p <= 100 * 0x1_0000_0000_0000_0000) by (nonlinear_arith)
        requires
            p <= 100,
            1 <= n <= 0x1_0000_0000_0000_0000,
    ;
    let index = ((n - 1) * p + 99) / 100;
    assert(((n - 1) * p + 99) / 100 <= n - 1) by (nonlinear_arith)
        requires
            p <= 100,
            n >= 1,
    ;
    Some(values[index as usize])
}

pub open spec fn sorted(s: Seq<u128>) -> bool {
    forall|i: int, j: int| 0 <= i <= j < s.len() ==> s[i] <= s[j]
}

/// An ascending copy of `values`.
pub fn sorted_copy(values: &Vec<u128>) -> (r: Vec<u128>)
    ensures
        sorted(r@),
        r@.to_multiset() == values@.to_multiset(),
{
    let mut r: Vec<u128> = Vec::new();
    let mut i: usize = 0;
    while i < values.len()
        invariant
            i <= values.len(),
            sorted(r@),
            r@.to_multiset() == values@.subrange(0, i as int).to_multiset(),
        decreases values.len() - i,
    {
        let x = values[i];
        let mut p: usize = 0;
        while p < r.len() && r[p] <= x
            invariant
                p <= r.len(),
                forall|k: int| 0 <= k < p ==> r@[k] <= x,
            decreases r.len() - p,
        {
            p = p + 1;
        }
        let ghost before = r@;
        r.insert(p, x);
        proof {
            assert(r@.remove(p as int) =~= before);
            assert(r@[p as int] == x);
            assert(r@.remove(p as int).to_multiset() =~= r@.to_multiset().remove(x));
            assert(r@.to_multiset() =~= before.to_multiset().insert(x));
            assert(values@.subrange(0, i + 1) =~= values@.subrange(0, i as int).push(x));
            assert forall|a: int, b: int| 0 <= a <= b < r@.len() implies r@[a] <= r@[b] by {
                if b < p {
                } else if a > p {
                    assert(r@[a] == before[a - 1]);
                    assert(r@[b] == before[b - 1]);
                } else if a == p && b > p {
                    assert(r@[b] == before[b - 1]);
                    assert(!(before[p as int] <= x));
                } else if a < p && b == p {
                } else if a < p && b > p {
                    assert(r@[b] == before[b - 1]);
                    assert(before[a] <= before[b - 1]);
                }
            }
        }
        i = i + 1;
    }
    assert(values@.subrange(0, values@.len() as int) =~= values@);
    r
}

pub open spec fn elapsed_of(cycles: Seq<L6CycleResult>) -> Seq<u128> {
    cycles.map_values(|c: L6CycleResult| c.elapsed_ms)
}

pub open spec fn cycles_green(cycles: Seq<L6CycleResult>) -> bool {
    forall|i: int| 0 <= i < cycles.len() ==> #[trigger] cycles[i].green
}

/// The run summary, given the cycles that ran and the memory samples taken.
pub open spec fn summarizes(
    r: L6StabilityReport,
    config: L6Config,
    cycles: Seq<L6CycleResult>,
    total_elapsed_ms: u128,
    initial_rss: Option<i64>,
    final_rss: Option<i64>,
    max_rss_during_run: Option<i64>,
) -> bool {
    &&& r.requested_cycles == config.cycles
    &&& r.completed_cycles == cycles.len()
    &&& r.all_green == (cycles.len() == config.cycles && cycles_green(cycles))
    &&& r.cycle_delay_secs == config.cycle_delay_secs
    &&& r.total_elapsed_ms == total_elapsed_ms
    &&& r.initial_rss_kib == initial_rss
    &&& r.final_rss_kib == final_rss
    &&& r.max_rss_kib == max_sample(max_rss_during_run, final_rss)
    &&& r.rss_delta_kib == (match (initial_rss, final_rss) {
        (Some(s), Some(e)) => Some((e - s) as i64),
        _ => None,
    })
    &&& r.cycles@ == cycles
    &&& exists|s: Seq<u128>|
        sorted(s) && s.to_multiset() == elapsed_of(cycles).to_multiset() && r.p50_cycle_ms
            == percentile_of(s, 50) && r.p99_cycle_ms == percentile_of(s, 99)
}

/// Summarizes a finished run: completion counts, the green verdict (every
/// requested cycle ran and passed), latency percentiles over the sorted cycle
/// times, and the memory drift from first to last sample.
pub fn stability_report(
    config: &L6Config,
    cycles: Vec<L6CycleResult>,
    total_elapsed_ms: u128,
    initial_rss: Option<i64>,
    final_rss: Option<i64>,
    max_rss_during_run: Option<i64>,
) -> (r: L6StabilityReport)
    requires
        (initial_rss, final_rss) matches (Some(s), Some(e)) ==> i64::MIN <= e - s <= i64::MAX,
    ensures
        summarizes(r, *config, cycles@, total_elapsed_ms, initial_rss, final_rss, max_rss_during_run),
{
    let max_rss = fold_max_rss(max_rss_during_run, final_rss);
    let rss_delta = match (initial_rss, final_rss) {
        (Some(start), Some(end)) => Some(end - start),
        _ => None,
    };
    let mut elapsed: Vec<u128> = Vec::new();
    let mut all: bool = true;
    let mut i: usize = 0;
    while i < cycles.len()
        invariant
            i <= cycles.len(),
            elapsed@ == elapsed_of(cycles@.subrange(0, i as int)),
            all == cycles_green(cycles@.subrange(0, i as int)),
        decreases cycles.len() - i,
    {
        elapsed.push(cycles[i].elapsed_ms);
        if !cycles[i].green {
            all = false;
        }
        proof {
            let a = cycles@.subrange(0, i as int);
            let b = cycles@.subrange(0, i + 1);
            assert(b =~= a.push(cycles@[i as int]));
            assert(elapsed_of(b) =~= elapsed_of(a).push(cycles@[i as int].elapsed_ms));
            if cycles_green(a) && cycles@[i as int].green {
                assert forall|k: int| 0 <= k < b.len() implies #[trigger] b[k].green by {
                    if k < i {
                        assert(b[k] == a[k]);
                    }
                }
            }
            if !cycles@[i as int].green {
                assert(!b[i as int].green);
            }
            if !cycles_green(a) {
                let k = choose|k: int| 0 <= k < a.len() && !#[trigger] a[k].green;
                assert(b[k] == a[k]);
            }
        }
        i = i + 1;
    }
    assert(cycles@.subrange(0, cycles@.len() as int) =~= cycles@);
    let sorted_elapsed = sorted_copy(&elapsed);
    let p50 = percentile(sorted_elapsed.as_slice(), 50);
    let p99 = percentile(sorted_elapsed.as_slice(), 99);
    let all_green = cycles.len() == config.cycles && all;
    let completed = cycles.len();
    L6StabilityReport {
        requested_cycles: config.cycles,
        completed_cycles: completed,
        all_green,
        cycle_delay_secs: config.cycle_delay_secs,
        total_elapsed_ms,
        p50_cycle_ms: p50,
        p99_cycle_ms: p99,
        initial_rss_kib: initial_rss,
        final_rss_kib: final_rss,
        max_rss_kib: max_rss,
        rss_delta_kib: rss_delta,
        cycles,
    }
}


/// `label`, a value and a closing backtick line, for a present number.
pub open spec fn opt_u128_md(label: Seq<char>, v: Option<u128>) -> Seq<char> {
    match v {
        Some(x) => label + decimal(x as nat) + "`\n"@,
        None => Seq::empty(),
    }
}

pub open spec fn opt_i64_md(label: Seq<char>, v: Option<i64>) -> Seq<char> {
    match v {
        Some(x) => label + signed_decimal(x as int) + "`\n"@,
        None => Seq::empty(),
    }
}

/// ` label=`value`` for a present text field.
pub open spec fn opt_tick(label: Seq<char>, v: Option<String>) -> Seq<char> {
    match v {
        Some(x) => label + x@ + "`"@,
        None => Seq::empty(),
    }
}

pub open spec fn cycle_md(c: L6CycleResult) -> Seq<char> {
    "- "@ + (if c.green {
        "PASS"@
    } else {
        "FAIL"@
    }) + " cycle `"@ + decimal(c.index as nat) + "`: elapsed_ms=`"@ + decimal(c.elapsed_ms as nat) + "`"@
        + opt_tick(" job_id=`"@, c.job_id) + opt_tick(" uuid_job_id=`"@, c.uuid_job_id) + opt_tick(
        " settlement_status=`"@,
        c.settlement_status,
    ) + (match c.actual_cost {
        Some(x) => " actual_cost=`"@ + signed_decimal(x as int) + "`"@,
        None => Seq::empty(),
    }) + opt_tick(" error=`"@, c.error) + "\n"@
}

pub open spec fn cycles_md(v: Seq<L6CycleResult>) -> Seq<char>
    decreases v.len(),
{
    if v.len() == 0 {
        Seq::empty()
    } else {
        cycles_md(v.drop_last()) + cycle_md(v.last())
    }
}

pub open spec fn stability_header_md(r: L6StabilityReport) -> Seq<char> {
    "# L6 Stability Driver\n\n"@ + "- requested_cycles: `"@ + decimal(r.requested_cycles as nat)
        + "`\n"@ + "- completed_cycles: `"@ + decimal(r.completed_cycles as nat) + "`\n"@
        + "- cycle_delay_secs: `"@ + decimal(r.cycle_delay_secs as nat) + "`\n"@
        + "- total_elapsed_ms: `"@ + decimal(r.total_elapsed_ms as nat) + "`\n"@ + opt_u128_md(
        "- p50_cycle_ms: `"@,
        r.p50_cycle_ms,
    ) + opt_u128_md("- p99_cycle_ms: `"@, r.p99_cycle_ms) + opt_i64_md("- max_rss_kib: `"@, r.max_rss_kib)
        + opt_i64_md("- rss_delta_kib: `"@, r.rss_delta_kib) + "\n"@
}

pub open spec fn stability_markdown(r: L6StabilityReport) -> Seq<char> {
    stability_header_md(r) + "## Result\n\n"@ + (if r.all_green {
        "L6 driver completed all requested cycles green. Each completed cycle passed D3 settlement validation.\n\n"@
    } else {
        "L6 driver failed closed. See the first failed cycle below.\n\n"@
    }) + "## Cycles\n\n"@ + cycles_md(r.cycles@)
}

fn push_opt_u128_md(out: &mut String, label: &str, v: Option<u128>)
    ensures
        final(out)@ == old(out)@ + opt_u128_md(label@, v),
{
    match v {
        Some(x) => {
            out.append(label);
            push_decimal(out, x);
            out.append("`\n");
        },
        None => {
            assert(old(out)@ + Seq::<char>::empty() =~= old(out)@);
        },
    }
}

fn push_opt_i64_md(out: &mut String, label: &str, v: Option<i64>)
    ensures
        final(out)@ == old(out)@ + opt_i64_md(label@, v),
{
    match v {
        Some(x) => {
            out.append(label);
            push_signed_decimal(out, x);
            out.append("`\n");
        },
        None => {
            assert(old(out)@ + Seq::<char>::empty() =~= old(out)@);
        },
    }
}

fn push_opt_tick(out: &mut String, label: &str, v: &Option<String>)
    ensures
        final(out)@ == old(out)@ + opt_tick(label@, *v),
{
    match v {
        Some(x) => {
            out.append(label);
            out.append(x.as_str());
            out.append("`");
        },
        None => {
            assert(old(out)@ + Seq::<char>::empty() =~= old(out)@);
        },
    }
}

fn push_cycle_md(out: &mut String, c: &L6CycleResult)
    ensures
        final(out)@ == old(out)@ + cycle_md(*c),
{
    out.append("- ");
    out.append(if c.green {
        "PASS"
    } else {
        "FAIL"
    });
    out.append(" cycle `");
    push_decimal(out, c.index as u128);
    out.append("`: elapsed_ms=`");
    push_decimal(out, c.elapsed_ms);
    out.append("`");
    push_opt_tick(out, " job_id=`", &c.job_id);
    push_opt_tick(out, " uuid_job_id=`", &c.uuid_job_id);
    push_opt_tick(out, " settlement_status=`", &c.settlement_status);
    let ghost mid = out@;
    match c.actual_cost {
        Some(x) => {
            out.append(" actual_cost=`");
            push_signed_decimal(out, x);
            out.append("`");
        },
        None => {},
    }
    push_opt_tick(out, " error=`", &c.error);
    out.append("\n");
    assert(out@ =~= old(out)@ + cycle_md(*c));
}

impl L6StabilityReport {
    /// The run's green verdict.
    pub fn all_green(&self) -> (r: bool)
        ensures
            r == self.all_green,
    {
        self.all_green
    }

    /// Markdown rendering: run figures, verdict and one line per cycle.
    pub fn to_markdown(&self) -> (out: String)
        ensures
            out@ == stability_markdown(*self),
    {
        let mut out = owned("# L6 Stability Driver\n\n");
        out.append("- requested_cycles: `");
        push_decimal(&mut out, self.requested_cycles as u128);
        out.append("`\n");
        out.append("- completed_cycles: `");
        push_decimal(&mut out, self.completed_cycles as u128);
        out.append("`\n");
        out.append("- cycle_delay_secs: `");
        push_decimal(&mut out, self.cycle_delay_secs as u128);
        out.append("`\n");
        out.append("- total_elapsed_ms: `");
        push_decimal(&mut out, self.total_elapsed_ms);
        out.append("`\n");
        push_opt_u128_md(&mut out, "- p50_cycle_ms: `", self.p50_cycle_ms);
        push_opt_u128_md(&mut out, "- p99_cycle_ms: `", self.p99_cycle_ms);
        push_opt_i64_md(&mut out, "- max_rss_kib: `", self.max_rss_kib);
        push_opt_i64_md(&mut out, "- rss_delta_kib: `", self.rss_delta_kib);
        out.append("\n");
        assert(out@ =~= stability_header_md(*self));
        out.append("## Result\n\n");
        out.append(if self.all_green {
            "L6 driver completed all requested cycles green. Each completed cycle passed D3 settlement validation.\n\n"
        } else {
            "L6 driver failed closed. See the first failed cycle below.\n\n"
        });
        out.append("## Cycles\n\n");
        let ghost head = out@;
        let mut i: usize = 0;
        while i < self.cycles.len()
            invariant
                i <= self.cycles.len(),
                out@ == head + cycles_md(self.cycles@.subrange(0, i as int)),
            decreases self.cycles.len() - i,
        {
            push_cycle_md(&mut out, &self.cycles[i]);
            assert(self.cycles@.subrange(0, i + 1).drop_last() =~= self.cycles@.subrange(0, i as int));
            i = i + 1;
            assert(out@ =~= head + cycles_md(self.cycles@.subrange(0, i as int)));
        }
        assert(self.cycles@.subrange(0, self.cycles@.len() as int) =~= self.cycles@);
        out
    }
}

/// The first failed sub-test, reported as `name: reason` with the reason
/// trimmed to 240 characters.
pub open spec fn first_failure(subtests: Seq<D3Subtest>) -> Option<Seq<char>>
    decreases subtests.len(),
{
    if subtests.len() == 0 {
        None
    } else {
        match subtests[0].status {
            D3Status::Failed { reason } => Some(subtests[0].name@ + ": "@ + trimmed_for_report(reason@, 240)),
            D3Status::Passed => first_failure(subtests.drop_first()),
        }
    }
}

/// One driver cycle from a D3 run: its identifiers and settlement figures,
/// its verdict, and the first failure when the run was not green.
pub fn cycle_result_from_d3(index: usize, elapsed_ms: u128, d3: D3LiveComputeSettlementReport) -> (r: L6CycleResult)
    ensures
        r.index == index,
        r.green == d3_all_green(d3),
        r.elapsed_ms == elapsed_ms,
        r.provider_node_id == d3.provider_node_id,
        r.requester_node_id == d3.requester_node_id,
        r.tunnel_url == d3.tunnel_url,
        r.offer_id == d3.offer_id,
        r.job_id == d3.job_id,
        r.uuid_job_id == d3.uuid_job_id,
        r.settlement_id == d3.settlement_id,
        r.settlement_status == d3.settlement_status,
        r.actual_cost == d3.actual_cost,
        r.provider_payout == d3.provider_payout,
        r.requester_adjustment == d3.requester_adjustment,
        match r.error {
            Some(e) => !d3_all_green(d3) && first_failure(d3.subtests@) == Some(e@),
            None => d3_all_green(d3) || first_failure(d3.subtests@) is None,
        },
{
    let green = d3.all_green();
    let mut error: Option<String> = None;
    if !green {
        let mut i: usize = 0;
        while i < d3.subtests.len() && error.is_none()
            invariant
                i <= d3.subtests.len(),
                match error {
                    Some(e) => first_failure(d3.subtests@) == Some(e@),
                    None => first_failure(d3.subtests@) == first_failure(
                        d3.subtests@.subrange(i as int, d3.subtests@.len() as int),
                    ),
                },
            decreases d3.subtests.len() - i,
        {
            let ghost rest = d3.subtests@.subrange(i as int, d3.subtests@.len() as int);
            assert(rest[0] == d3.subtests@[i as int]);
            assert(rest.drop_first() =~= d3.subtests@.subrange(i + 1, d3.subtests@.len() as int));
            match &d3.subtests[i].status {
                D3Status::Failed { reason } => {
                    let mut e = owned(d3.subtests[i].name.as_str());
                    e.append(": ");
                    e.append(trim_for_report(reason.as_str(), 240).as_str());
                    error = Some(e);
                },
                D3Status::Passed => {},
            }
            i = i + 1;
        }
        proof {
            if error is None {
                assert(d3.subtests@.subrange(d3.subtests@.len() as int, d3.subtests@.len() as int) =~= Seq::<D3Subtest>::empty());
            }
        }
    }
    L6CycleResult {
        index,
        green,
        elapsed_ms,
        provider_node_id: d3.provider_node_id,
        requester_node_id: d3.requester_node_id,
        tunnel_url: d3.tunnel_url,
        offer_id: d3.offer_id,
        job_id: d3.job_id,
        uuid_job_id: d3.uuid_job_id,
        settlement_id: d3.settlement_id,
        settlement_status: d3.settlement_status,
        actual_cost: d3.actual_cost,
        provider_payout: d3.provider_payout,
        requester_adjustment: d3.requester_adjustment,
        error,
    }
}

proof fn percentile_index_monotone(len: nat)
    requires
        len > 0,
    ensures
        0 <= percentile_index(len, 50) <= percentile_index(len, 99) < len,
{
    let m: int = len - 1;
    assert(0 <= (m * 50 + 99) / 100 <= (m * 99 + 99) / 100 <= m) by (nonlinear_arith)
        requires
            m >= 0,
    ;
}

/// The latency percentiles of a run with at least one cycle are times some
/// cycle took, and the median is no larger than the 99th percentile.
pub proof fn latency_percentiles_are_cycle_times(
    r: L6StabilityReport,
    config: L6Config,
    cycles: Seq<L6CycleResult>,
    total_elapsed_ms: u128,
    initial_rss: Option<i64>,
    final_rss: Option<i64>,
    max_rss_during_run: Option<i64>,
)
    requires
        summarizes(r, config, cycles, total_elapsed_ms, initial_rss, final_rss, max_rss_during_run),
        cycles.len() > 0,
    ensures
        r.p50_cycle_ms matches Some(p50) && r.p99_cycle_ms matches Some(p99) && p50 <= p99
            && elapsed_of(cycles).contains(p50) && elapsed_of(cycles).contains(p99),
{
    broadcast use vstd::seq_lib::group_to_multiset_ensures;

    let s = choose|s: Seq<u128>|
        sorted(s) && s.to_multiset() == elapsed_of(cycles).to_multiset() && r.p50_cycle_ms == percentile_of(s, 50)
            && r.p99_cycle_ms == percentile_of(s, 99);
    let e = elapsed_of(cycles);
    assert(s.to_multiset().len() == e.to_multiset().len());
    assert(s.len() == e.len());
    percentile_index_monotone(s.len());
    let i = percentile_index(s.len(), 50);
    let j = percentile_index(s.len(), 99);
    assert(s.contains(s[i]));
    assert(s.contains(s[j]));
    assert(s.to_multiset().count(s[i]) > 0 && e.to_multiset().count(s[i]) > 0);
    assert(s.to_multiset().count(s[j]) > 0 && e.to_multiset().count(s[j]) > 0);
}

/// Law: the stability driver, which asks `after_cycle` after each cycle and
/// stops when told to, runs cycles 1 to `k` and no more, where `k` is the
/// first failed cycle, or the last requested one when every cycle before it
/// passed: it is told to go on after each earlier cycle and to stop after
/// cycle `k`.
pub proof fn l6_driver_runs_until_first_failure(config: L6Config, greens: Seq<bool>, k: int)
    requires
        greens.len() >= config.cycles,
        1 <= k <= config.cycles,
        forall|j: int| 1 <= j < k ==> #[trigger] greens[j - 1],
        k < config.cycles ==> !greens[k - 1],
    ensures
        forall|j: int|
            1 <= j < k ==> next_cycle_action(config, j as usize, #[trigger] greens[j - 1])
                != L6CycleAction::Stop,
        next_cycle_action(config, k as usize, greens[k - 1]) == L6CycleAction::Stop,
{
}

/// Law: a stability driver run. Let `greens` be the verdicts the successive
/// D3 runs would give and `k` the first failed one (1-based), or the number
/// of requested cycles when none of those fails. The driver, asking
/// `after_cycle` after each cycle, goes on after cycles 1 to `k - 1` and stops
/// after cycle `k`; the report of the cycles it ran (cycle `j` with index `j`
/// and the `j`-th verdict) counts `k` completed out of the requested cycles,
/// lists them in order, is green exactly when every requested cycle ran and
/// passed, and has a median and a 99th-percentile cycle time, both times some
/// cycle took, the median no larger.
pub proof fn l6_driver_run_law(
    config: L6Config,
    greens: Seq<bool>,
    k: int,
    cycles: Seq<L6CycleResult>,
    r: L6StabilityReport,
    total_elapsed_ms: u128,
    initial_rss: Option<i64>,
    final_rss: Option<i64>,
    max_rss_during_run: Option<i64>,
)
    requires
        config.cycles >= 1,
        greens.len() >= config.cycles,
        1 <= k <= config.cycles,
        forall|j: int| 1 <= j < k ==> #[trigger] greens[j - 1],
        k < config.cycles ==> !greens[k - 1],
        cycles.len() == k,
        forall|j: int| 0 <= j < k ==> (#[trigger] cycles[j]).index == j + 1 && cycles[j].green == greens[j],
        summarizes(r, config, cycles, total_elapsed_ms, initial_rss, final_rss, max_rss_during_run),
    ensures
        forall|j: int|
            1 <= j < k ==> next_cycle_action(config, j as usize, #[trigger] greens[j - 1])
                != L6CycleAction::Stop,
        next_cycle_action(config, k as usize, greens[k - 1]) == L6CycleAction::Stop,
        r.cycles@.len() == k,
        r.completed_cycles == k,
        r.requested_cycles == config.cycles,
        forall|j: int| 0 <= j < k ==> (#[trigger] r.cycles@[j]).index == j + 1 && r.cycles@[j].green == greens[j],
        r.all_green == (k == config.cycles && forall|j: int| 0 <= j < config.cycles ==> #[trigger] greens[j]),
        r.p50_cycle_ms matches Some(p50) && r.p99_cycle_ms matches Some(p99) && p50 <= p99
            && elapsed_of(cycles).contains(p50) && elapsed_of(cycles).contains(p99),
{
    l6_driver_runs_until_first_failure(config, greens, k);
    latency_percentiles_are_cycle_times(r, config, cycles, total_elapsed_ms, initial_rss, final_rss, max_rss_during_run);
    if k == config.cycles && (forall|j: int| 0 <= j < config.cycles ==> #[trigger] greens[j]) {
        assert forall|i: int| 0 <= i < cycles.len() implies #[trigger] cycles[i].green by {
            assert(greens[i]);
        }
    }
    if r.all_green {
        assert forall|j: int| 0 <= j < config.cycles implies #[trigger] greens[j] by {
            assert(cycles[j].green);
        }
    }
}

} // verus!
