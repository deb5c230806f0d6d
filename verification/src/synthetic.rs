//! Reports of the deterministic synthetic validation layers (single graph,
//! two bridged graphs) and of the live LLM layer's sub-tests.
use vstd::prelude::*;

use crate::report::{
    all_passed_views, failed_view, lines_view, passed_view, push_subtest_md, subtests_md, SubtestView,
};
use crate::text::{chars_contain, chars_of, owned, seq_contains};

verus! {

#[derive(Debug, Clone, PartialEq, Eq)]
pub enum Layer3Status {
    Passed,
    Failed { reason: String },
}

#[derive(Debug, Clone, PartialEq, Eq)]
pub struct Layer3Subtest {
    pub name: String,
    pub proves: String,
    pub status: Layer3Status,
    pub details: Vec<String>,
}

#[derive(Debug, Clone, PartialEq, Eq)]
pub struct Layer3SyntheticReport {
    pub name: String,
    pub graph_slug: String,
    pub subtests: Vec<Layer3Subtest>,
}

#[derive(Debug, Clone, PartialEq, Eq)]
pub enum Layer4Status {
    Passed,
    Failed { reason: String },
}

#[derive(Debug, Clone, PartialEq, Eq)]
pub struct Layer4Subtest {
    pub name: String,
    pub proves: String,
    pub status: Layer4Status,
    pub details: Vec<String>,
}

#[derive(Debug, Clone, PartialEq, Eq)]
pub struct Layer4SyntheticReport {
    pub name: String,
    pub graphs: Vec<String>,
    pub subtests: Vec<Layer4Subtest>,
}

#[derive(Debug, Clone, PartialEq, Eq)]
pub enum Layer5Status {
    Passed,
    Failed { reason: String },
}

#[derive(Debug, Clone, PartialEq, Eq)]
pub struct Layer5Subtest {
    pub name: String,
    pub proves: String,
    pub status: Layer5Status,
    pub details: Vec<String>,
}

pub open spec fn layer3_view(t: Layer3Subtest) -> SubtestView {
    SubtestView {
        name: t.name@,
        proves: t.proves@,
        reason: match t.status {
            Layer3Status::Passed => None,
            Layer3Status::Failed { reason } => Some(reason@),
        },
        details: lines_view(t.details@),
    }
}

pub open spec fn layer3_views(v: Seq<Layer3Subtest>) -> Seq<SubtestView> {
    v.map_values(|t: Layer3Subtest| layer3_view(t))
}

pub open spec fn layer4_view(t: Layer4Subtest) -> SubtestView {
    SubtestView {
        name: t.name@,
        proves: t.proves@,
        reason: match t.status {
            Layer4Status::Passed => None,
            Layer4Status::Failed { reason } => Some(reason@),
        },
        details: lines_view(t.details@),
    }
}

pub open spec fn layer4_views(v: Seq<Layer4Subtest>) -> Seq<SubtestView> {
    v.map_values(|t: Layer4Subtest| layer4_view(t))
}

pub open spec fn layer5_view(t: Layer5Subtest) -> SubtestView {
    SubtestView {
        name: t.name@,
        proves: t.proves@,
        reason: match t.status {
            Layer5Status::Passed => None,
            Layer5Status::Failed { reason } => Some(reason@),
        },
        details: lines_view(t.details@),
    }
}

/// The sub-test an outcome records: passed with the outcome's details, or
/// failed with its reason and no details.
pub open spec fn outcome_view(name: Seq<char>, proves: Seq<char>, outcome: Result<Vec<String>, String>) -> SubtestView {
    match outcome {
        Ok(details) => passed_view(name, proves, lines_view(details@)),
        Err(reason) => failed_view(name, proves, reason@),
    }
}

/// `parts` joined with `sep` (`[String]::join`).
pub open spec fn joined(parts: Seq<Seq<char>>, sep: Seq<char>) -> Seq<char>
    decreases parts.len(),
{
    if parts.len() == 0 {
        Seq::empty()
    } else if parts.len() == 1 {
        parts[0]
    } else {
        joined(parts.drop_last(), sep) + sep + parts.last()
    }
}

pub open spec fn layer3_markdown(r: Layer3SyntheticReport) -> Seq<char> {
    "# Layer 3 Single-Graph Synthetic Validation\n\n"@ + "Synthetic graph: "@ + r.graph_slug@ + "\n\n"@
        + "This harness is deterministic and in-memory. It exercises substrate-tier contracts, traits, and node composition without live LLM calls, live database access, deploy, live smoke, or npm publish.\n\n"@
        + "## Result\n\n"@ + (if all_passed_views(layer3_views(r.subtests@)) {
        "All 10 Layer 3 sub-tests are green.\n\n"@
    } else {
        "One or more Layer 3 sub-tests failed; see reasons below.\n\n"@
    }) + "## Sub-tests\n\n"@ + subtests_md(layer3_views(r.subtests@))
}

pub open spec fn layer4_markdown(r: Layer4SyntheticReport) -> Seq<char> {
    "# Layer 4 Two-Graph Bridged Synthetic Validation\n\n"@ + "Synthetic graphs: "@ + joined(
        lines_view(r.graphs@),
        ", "@,
    ) + "\n\n"@
        + "This harness is deterministic and in-memory. It exercises cross-graph identity, mid-slug references, one-shot reputation snapshots, bridge economics, and firewall asymmetry without live LLM calls, live database access, deploy, live smoke, or npm publish.\n\n"@
        + "## Result\n\n"@ + (if all_passed_views(layer4_views(r.subtests@)) {
        "All 9 Layer 4 sub-tests are green.\n\n"@
    } else {
        "One or more Layer 4 sub-tests failed; see reasons below.\n\n"@
    }) + "## Sub-tests\n\n"@ + subtests_md(layer4_views(r.subtests@))
}

impl Layer3Subtest {
    fn reason(&self) -> (r: Option<&str>)
        ensures
            match r {
                Some(x) => layer3_view(*self).reason == Some(x@),
                None => layer3_view(*self).reason is None,
            },
    {
        match &self.status {
            Layer3Status::Passed => None,
            Layer3Status::Failed { reason } => Some(reason.as_str()),
        }
    }
}

impl Layer4Subtest {
    fn reason(&self) -> (r: Option<&str>)
        ensures
            match r {
                Some(x) => layer4_view(*self).reason == Some(x@),
                None => layer4_view(*self).reason is None,
            },
    {
        match &self.status {
            Layer4Status::Passed => None,
            Layer4Status::Failed { reason } => Some(reason.as_str()),
        }
    }
}

impl Layer3SyntheticReport {
    /// Whether every sub-test passed.
    pub fn all_green(&self) -> (r: bool)
        ensures
            r == all_passed_views(layer3_views(self.subtests@)),
    {
        let mut i: usize = 0;
        while i < self.subtests.len()
            invariant
                i <= self.subtests.len(),
                forall|k: int| 0 <= k < i ==> #[trigger] layer3_views(self.subtests@)[k].reason is None,
            decreases self.subtests.len() - i,
        {
            if self.subtests[i].reason().is_some() {
                assert(layer3_views(self.subtests@)[i as int].reason is Some);
                return false;
            }
            i = i + 1;
        }
        true
    }

    /// Markdown rendering: the graph, the harness's scope, the verdict and one
    /// line per sub-test.
    pub fn to_markdown(&self) -> (out: String)
        ensures
            out@ == layer3_markdown(*self),
    {
        let mut out = owned("# Layer 3 Single-Graph Synthetic Validation\n\n");
        out.append("Synthetic graph: ");
        out.append(self.graph_slug.as_str());
        out.append("\n\n");
        out.append(
            "This harness is deterministic and in-memory. It exercises substrate-tier contracts, traits, and node composition without live LLM calls, live database access, deploy, live smoke, or npm publish.\n\n",
        );
        out.append("## Result\n\n");
        out.append(if self.all_green() {
            "All 10 Layer 3 sub-tests are green.\n\n"
        } else {
            "One or more Layer 3 sub-tests failed; see reasons below.\n\n"
        });
        out.append("## Sub-tests\n\n");
        let ghost head = out@;
        let ghost views = layer3_views(self.subtests@);
        let mut i: usize = 0;
        while i < self.subtests.len()
            invariant
                i <= self.subtests.len(),
                views == layer3_views(self.subtests@),
                out@ == head + subtests_md(views.subrange(0, i as int)),
            decreases self.subtests.len() - i,
        {
            let t = &self.subtests[i];
            push_subtest_md(&mut out, t.name.as_str(), t.proves.as_str(), t.reason(), &t.details);
            assert(views.subrange(0, i + 1).drop_last() =~= views.subrange(0, i as int));
            i = i + 1;
            assert(out@ =~= head + subtests_md(views.subrange(0, i as int)));
        }
        assert(views.subrange(0, views.len() as int) =~= views);
        out
    }

    /// Records the outcome of one sub-test.
    pub fn record(&mut self, name: &str, proves: &str, outcome: Result<Vec<String>, String>)
        ensures
            layer3_views(final(self).subtests@) == layer3_views(old(self).subtests@).push(
                outcome_view(name@, proves@, outcome),
            ),
            final(self).name == old(self).name,
            final(self).graph_slug == old(self).graph_slug,
    {
        let ghost o = outcome;
        let (status, details) = match outcome {
            Ok(details) => (Layer3Status::Passed, details),
            Err(reason) => (Layer3Status::Failed { reason }, Vec::new()),
        };
        let t = Layer3Subtest { name: owned(name), proves: owned(proves), status, details };
        assert(layer3_view(t) =~= outcome_view(name@, proves@, o));
        self.subtests.push(t);
        assert(layer3_views(self.subtests@) =~= layer3_views(old(self).subtests@).push(layer3_view(t)));
    }
}

impl Layer4SyntheticReport {
    /// Whether every sub-test passed.
    pub fn all_green(&self) -> (r: bool)
        ensures
            r == all_passed_views(layer4_views(self.subtests@)),
    {
        let mut i: usize = 0;
        while i < self.subtests.len()
            invariant
                i <= self.subtests.len(),
                forall|k: int| 0 <= k < i ==> #[trigger] layer4_views(self.subtests@)[k].reason is None,
            decreases self.subtests.len() - i,
        {
            if self.subtests[i].reason().is_some() {
                assert(layer4_views(self.subtests@)[i as int].reason is Some);
                return false;
            }
            i = i + 1;
        }
        true
    }

    /// Markdown rendering: the graphs, the harness's scope, the verdict and
    /// one line per sub-test.
    pub fn to_markdown(&self) -> (out: String)
        ensures
            out@ == layer4_markdown(*self),
    {
        let mut out = owned("# Layer 4 Two-Graph Bridged Synthetic Validation\n\n");
        out.append("Synthetic graphs: ");
        let ghost before = out@;
        let ghost graphs = lines_view(self.graphs@);
        let mut g: usize = 0;
        while g < self.graphs.len()
            invariant
                g <= self.graphs.len(),
                graphs == lines_view(self.graphs@),
                out@ == before + joined(graphs.subrange(0, g as int), ", "@),
            decreases self.graphs.len() - g,
        {
            if g > 0 {
                out.append(", ");
            }
            out.append(self.graphs[g].as_str());
            assert(graphs.subrange(0, g + 1).drop_last() =~= graphs.subrange(0, g as int));
            g = g + 1;
            assert(out@ =~= before + joined(graphs.subrange(0, g as int), ", "@));
        }
        assert(graphs.subrange(0, graphs.len() as int) =~= graphs);
        out.append("\n\n");
        out.append(
            "This harness is deterministic and in-memory. It exercises cross-graph identity, mid-slug references, one-shot reputation snapshots, bridge economics, and firewall asymmetry without live LLM calls, live database access, deploy, live smoke, or npm publish.\n\n",
        );
        out.append("## Result\n\n");
        out.append(if self.all_green() {
            "All 9 Layer 4 sub-tests are green.\n\n"
        } else {
            "One or more Layer 4 sub-tests failed; see reasons below.\n\n"
        });
        out.append("## Sub-tests\n\n");
        let ghost head = out@;
        let ghost views = layer4_views(self.subtests@);
        let mut i: usize = 0;
        while i < self.subtests.len()
            invariant
                i <= self.subtests.len(),
                views == layer4_views(self.subtests@),
                out@ == head + subtests_md(views.subrange(0, i as int)),
            decreases self.subtests.len() - i,
        {
            let t = &self.subtests[i];
            push_subtest_md(&mut out, t.name.as_str(), t.proves.as_str(), t.reason(), &t.details);
            assert(views.subrange(0, i + 1).drop_last() =~= views.subrange(0, i as int));
            i = i + 1;
            assert(out@ =~= head + subtests_md(views.subrange(0, i as int)));
        }
        assert(views.subrange(0, views.len() as int) =~= views);
        out
    }

    /// Records the outcome of one sub-test.
    pub fn record(&mut self, name: &str, proves: &str, outcome: Result<Vec<String>, String>)
        ensures
            layer4_views(final(self).subtests@) == layer4_views(old(self).subtests@).push(
                outcome_view(name@, proves@, outcome),
            ),
            final(self).name == old(self).name,
            final(self).graphs == old(self).graphs,
    {
        let ghost o = outcome;
        let (status, details) = match outcome {
            Ok(details) => (Layer4Status::Passed, details),
            Err(reason) => (Layer4Status::Failed { reason }, Vec::new()),
        };
        let t = Layer4Subtest { name: owned(name), proves: owned(proves), status, details };
        assert(layer4_view(t) =~= outcome_view(name@, proves@, o));
        self.subtests.push(t);
        assert(layer4_views(self.subtests@) =~= layer4_views(old(self).subtests@).push(layer4_view(t)));
    }
}

/// The Layer 5 sub-test an outcome records.
pub fn layer5_record(name: &str, proves: &str, outcome: Result<Vec<String>, String>) -> (t: Layer5Subtest)
    ensures
        layer5_view(t) == outcome_view(name@, proves@, outcome),
{
    let ghost o = outcome;
    let (status, details) = match outcome {
        Ok(details) => (Layer5Status::Passed, details),
        Err(reason) => (Layer5Status::Failed { reason }, Vec::new()),
    };
    let t = Layer5Subtest { name: owned(name), proves: owned(proves), status, details };
    assert(layer5_view(t) =~= outcome_view(name@, proves@, o));
    t
}

// ---------------------------------------------------------------------------
// The live LLM layer's content check.

/// The marker a live completion must echo back.
pub open spec fn layer5_sentinel() -> Seq<char> {
    "SUBSTRATE_ROUNDTRIP_OK"@
}

pub open spec fn ascii_upper(c: char) -> char {
    if 'a' <= c && c <= 'z' {
        ((c as u32) - 32) as char
    } else {
        c
    }
}

pub open spec fn ascii_uppercased(s: Seq<char>) -> Seq<char> {
    s.map_values(|c: char| ascii_upper(c))
}

/// A completion passes the content check when, ASCII letters taken in upper
/// case, it contains the sentinel.
pub fn content_has_sentinel(text: &str) -> (r: bool)
    ensures
        r == seq_contains(ascii_uppercased(text@), layer5_sentinel()),
{
    let cs = chars_of(text);
    let mut upper: Vec<char> = Vec::new();
    let mut i: usize = 0;
    while i < cs.len()
        invariant
            cs@ == text@,
            i <= cs.len(),
            upper@ == ascii_uppercased(text@.subrange(0, i as int)),
        decreases cs.len() - i,
    {
        let c = cs[i];
        let u = if 'a' <= c && c <= 'z' {
            let b: u8 = ((c as u32) - 32) as u8;
            b as char
        } else {
            c
        };
        upper.push(u);
        i = i + 1;
        assert(upper@ =~= ascii_uppercased(text@.subrange(0, i as int)));
    }
    assert(text@.subrange(0, text@.len() as int) =~= text@);
    let sentinel = chars_of("SUBSTRATE_ROUNDTRIP_OK");
    chars_contain(&upper, &sentinel)
}

} // verus!
