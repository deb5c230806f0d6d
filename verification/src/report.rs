//! Markdown rendering shared by the validation reports: every report lists
//! its sub-tests as `- PASS|FAIL `name`: proves[ Reason: why]` followed by one
//! indented line per detail.
use vstd::prelude::*;

use crate::text::owned;

verus! {

/// The character views of a list of strings.
pub open spec fn lines_view(v: Seq<String>) -> Seq<Seq<char>> {
    v.map_values(|s: String| s@)
}

/// One `  - detail` line per detail.
pub open spec fn details_md(details: Seq<Seq<char>>) -> Seq<char>
    decreases details.len(),
{
    if details.len() == 0 {
        Seq::empty()
    } else {
        details_md(details.drop_last()) + "  - "@ + details.last() + "\n"@
    }
}

/// The markdown of one sub-test; `reason` is `None` for a passed sub-test and
/// the failure reason otherwise.
pub open spec fn subtest_md(
    name: Seq<char>,
    proves: Seq<char>,
    reason: Option<Seq<char>>,
    details: Seq<Seq<char>>,
) -> Seq<char> {
    "- "@ + (if reason is None {
        "PASS"@
    } else {
        "FAIL"@
    }) + " `"@ + name + "`: "@ + proves + (match reason {
        Some(r) => " Reason: "@ + r,
        None => Seq::empty(),
    }) + "\n"@ + details_md(details)
}

/// Appends the markdown of one sub-test.
pub fn push_subtest_md(
    out: &mut String,
    name: &str,
    proves: &str,
    reason: Option<&str>,
    details: &Vec<String>,
)
    ensures
        final(out)@ == old(out)@ + subtest_md(
            name@,
            proves@,
            match reason {
                Some(r) => Some(r@),
                None => None,
            },
            lines_view(details@),
        ),
{
    out.append("- ");
    out.append(match reason {
        None => "PASS",
        Some(_) => "FAIL",
    });
    out.append(" `");
    out.append(name);
    out.append("`: ");
    out.append(proves);
    match reason {
        Some(r) => {
            out.append(" Reason: ");
            out.append(r);
        },
        None => {},
    }
    out.append("\n");
    let ghost head = out@;
    let mut i: usize = 0;
    while i < details.len()
        invariant
            i <= details.len(),
            out@ == head + details_md(lines_view(details@).subrange(0, i as int)),
        decreases details.len() - i,
    {
        out.append("  - ");
        out.append(details[i].as_str());
        out.append("\n");
        assert(lines_view(details@).subrange(0, i + 1).drop_last() =~= lines_view(details@).subrange(0, i as int));
        i = i + 1;
        assert(out@ =~= head + details_md(lines_view(details@).subrange(0, i as int)));
    }
    assert(lines_view(details@).subrange(0, details@.len() as int) =~= lines_view(details@));
    let ghost reason_view = match reason {
        Some(r) => Some(r@),
        None => None,
    };
    assert(out@ =~= old(out)@ + subtest_md(name@, proves@, reason_view, lines_view(details@)));
}

/// The abstract content of a sub-test: its name, what it proves, its failure
/// reason (`None` when it passed) and its details.
#[verifier::ext_equal]
pub struct SubtestView {
    pub name: Seq<char>,
    pub proves: Seq<char>,
    pub reason: Option<Seq<char>>,
    pub details: Seq<Seq<char>>,
}

pub open spec fn passed_view(name: Seq<char>, proves: Seq<char>, details: Seq<Seq<char>>) -> SubtestView {
    SubtestView { name, proves, reason: None, details }
}

pub open spec fn failed_view(name: Seq<char>, proves: Seq<char>, reason: Seq<char>) -> SubtestView {
    SubtestView { name, proves, reason: Some(reason), details: Seq::empty() }
}

/// Every sub-test passed, except that a finished run may end with one failed
/// sub-test.
pub open spec fn fails_closed(views: Seq<SubtestView>, done: bool) -> bool {
    forall|i: int| 0 <= i < views.len() && !(done && i == views.len() - 1) ==> (#[trigger] views[i]).reason is None
}

/// A run whose sub-tests all passed stays so when it appends a passed
/// sub-test, and, when it appends a failed one and stops, holds one failure,
/// the last. The validation runs (auth, contribution sync, D3) append
/// sub-tests this way and stop at their first failure.
pub proof fn appending_keeps_runs_fail_closed(pre: Seq<SubtestView>, passed: SubtestView, failed: SubtestView)
    requires
        fails_closed(pre, false),
        passed.reason is None,
    ensures
        fails_closed(pre.push(passed), false),
        fails_closed(pre.push(failed), true),
        fails_closed(pre.push(passed), true),
{
    assert forall|i: int| 0 <= i < pre.len() implies #[trigger] pre.push(failed)[i] == pre[i] by {}
    assert forall|i: int| 0 <= i < pre.len() implies #[trigger] pre.push(passed)[i] == pre[i] by {}
}

/// The markdown of a list of sub-tests.
pub open spec fn subtests_md(v: Seq<SubtestView>) -> Seq<char>
    decreases v.len(),
{
    if v.len() == 0 {
        Seq::empty()
    } else {
        subtests_md(v.drop_last()) + subtest_md(v.last().name, v.last().proves, v.last().reason, v.last().details)
    }
}

/// Every sub-test passed.
pub open spec fn all_passed_views(v: Seq<SubtestView>) -> bool {
    forall|i: int| 0 <= i < v.len() ==> #[trigger] v[i].reason is None
}

/// `label` followed by `value`.
pub fn labelled(label: &str, value: &str) -> (r: String)
    ensures
        r@ == label@ + value@,
{
    let mut out = owned(label);
    out.append(value);
    out
}

/// `opening` (which ends in a backtick), `value` and a closing backtick.
pub fn ticked(opening: &str, value: &str) -> (r: String)
    ensures
        r@ == opening@ + value@ + "`"@,
{
    let mut out = owned(opening);
    out.append(value);
    out.append("`");
    out
}

/// A one-element list of lines.
pub fn one_line(s: String) -> (r: Vec<String>)
    ensures
        lines_view(r@) == seq![s@],
{
    let mut v = Vec::new();
    v.push(s);
    assert(lines_view(v@) =~= seq![s@]);
    v
}

} // verus!
