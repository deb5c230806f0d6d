//! Cross-graph references: `graph/epoch/kind/sequence`.
//!
//! A reference names an item in a graph: the graph's slug, a numeric epoch, a
//! kind slug and a numeric sequence, separated by `/`. Slugs use lowercase
//! ASCII letters, digits and `-`; numbers are ASCII decimal digits without
//! leading zeros. A reference in this shape is already canonical.
use vstd::prelude::*;

use crate::text::{chars_of, debug_quoted, debug_text, owned, string_of};

verus! {

/// Scanner state over the characters of a candidate reference.
pub struct RefScan {
    /// Index of the `/`-separated segment being read (0 to 3).
    pub segment: nat,
    /// Characters read so far in the current segment.
    pub len: nat,
    /// The current numeric segment began with `0`.
    pub leading_zero: bool,
    /// No character so far broke the grammar.
    pub ok: bool,
}

pub open spec fn slug_char(c: char) -> bool {
    ('a' <= c && c <= 'z') || ('0' <= c && c <= '9') || c == '-'
}

pub open spec fn digit_char(c: char) -> bool {
    '0' <= c && c <= '9'
}

/// Segments 1 (epoch) and 3 (sequence) are numbers; 0 (graph) and 2 (kind)
/// are slugs.
pub open spec fn numeric_segment(segment: nat) -> bool {
    segment == 1 || segment == 3
}

pub open spec fn scan_start() -> RefScan {
    RefScan { segment: 0, len: 0, leading_zero: false, ok: true }
}

pub open spec fn scan_failed(st: RefScan) -> RefScan {
    RefScan { ok: false, ..st }
}

pub open spec fn scan_step(st: RefScan, c: char) -> RefScan {
    if !st.ok {
        st
    } else if c == '/' {
        if st.len == 0 || st.segment >= 3 {
            scan_failed(st)
        } else {
            RefScan { segment: st.segment + 1, len: 0, leading_zero: false, ok: true }
        }
    } else if numeric_segment(st.segment) {
        if !digit_char(c) || st.leading_zero {
            scan_failed(st)
        } else {
            RefScan { len: st.len + 1, leading_zero: st.len == 0 && c == '0', ..st }
        }
    } else if !slug_char(c) {
        scan_failed(st)
    } else {
        RefScan { len: st.len + 1, ..st }
    }
}

pub open spec fn scan(s: Seq<char>) -> RefScan
    decreases s.len(),
{
    if s.len() == 0 {
        scan_start()
    } else {
        scan_step(scan(s.drop_last()), s.last())
    }
}

/// `s` is a canonical cross-graph reference.
pub open spec fn is_cross_graph_ref(s: Seq<char>) -> bool {
    let st = scan(s);
    st.ok && st.segment == 3 && st.len > 0
}

pub open spec fn not_a_ref_msg(s: Seq<char>) -> Seq<char> {
    "job_ref="@ + debug_text(s) + " is not a canonical cross-graph ref"@
}

/// Parses `s` and renders it back: the canonical form, or why `s` is not a
/// reference.
pub open spec fn canonical_ref(s: Seq<char>) -> Result<Seq<char>, Seq<char>> {
    if is_cross_graph_ref(s) {
        Ok(s)
    } else {
        Err(not_a_ref_msg(s))
    }
}

/// Whether `s` is a canonical cross-graph reference.
pub fn is_canonical_ref(s: &str) -> (r: bool)
    ensures
        r == is_cross_graph_ref(s@),
{
    let cs = chars_of(s);
    let mut segment: usize = 0;
    let mut len: usize = 0;
    let mut leading_zero = false;
    let mut ok = true;
    let mut i: usize = 0;
    while i < cs.len()
        invariant
            cs@ == s@,
            i <= cs.len(),
            segment <= 3,
            len <= i,
            scan(s@.subrange(0, i as int)) == (RefScan {
                segment: segment as nat,
                len: len as nat,
                leading_zero,
                ok,
            }),
        decreases cs.len() - i,
    {
        let c = cs[i];
        let ghost before = RefScan { segment: segment as nat, len: len as nat, leading_zero, ok };
        if !ok {
        } else if c == '/' {
            if len == 0 || segment >= 3 {
                ok = false;
            } else {
                segment = segment + 1;
                len = 0;
                leading_zero = false;
            }
        } else if segment == 1 || segment == 3 {
            if !('0' <= c && c <= '9') || leading_zero {
                ok = false;
            } else {
                leading_zero = len == 0 && c == '0';
                len = len + 1;
            }
        } else if !(('a' <= c && c <= 'z') || ('0' <= c && c <= '9') || c == '-') {
            ok = false;
        } else {
            len = len + 1;
        }
        assert(s@.subrange(0, i + 1).drop_last() =~= s@.subrange(0, i as int));
        assert(scan(s@.subrange(0, i + 1)) == scan_step(before, c));
        i = i + 1;
    }
    assert(s@.subrange(0, s@.len() as int) =~= s@);
    ok && segment == 3 && len > 0
}

/// Parses `job_ref` as a cross-graph reference and renders it back in
/// canonical form; a string that is not a reference is refused.
pub fn canonical_job_ref(job_ref: &str) -> (r: Result<String, String>)
    ensures
        match r {
            Ok(k) => canonical_ref(job_ref@) == Ok::<Seq<char>, Seq<char>>(k@),
            Err(e) => canonical_ref(job_ref@) == Err::<Seq<char>, Seq<char>>(e@),
        },
{
    if is_canonical_ref(job_ref) {
        Ok(owned(job_ref))
    } else {
        let mut msg = owned("job_ref=");
        msg.append(debug_quoted(job_ref).as_str());
        msg.append(" is not a canonical cross-graph ref");
        Err(msg)
    }
}


/// How many `/` occur in `s`.
pub open spec fn slash_count(s: Seq<char>) -> nat
    decreases s.len(),
{
    if s.len() == 0 {
        0
    } else {
        slash_count(s.drop_last()) + if s.last() == '/' {
            1nat
        } else {
            0nat
        }
    }
}

/// The characters of the third `/`-separated segment of `s`.
pub open spec fn third_segment(s: Seq<char>) -> Seq<char>
    decreases s.len(),
{
    if s.len() == 0 {
        Seq::empty()
    } else {
        let p = third_segment(s.drop_last());
        if slash_count(s.drop_last()) == 2 && s.last() != '/' {
            p.push(s.last())
        } else {
            p
        }
    }
}

/// The mid slug of a reference: its third segment, between the epoch and
/// the sequence; a string that is no reference has none.
pub open spec fn mid_slug(s: Seq<char>) -> Option<Seq<char>> {
    if is_cross_graph_ref(s) {
        Some(third_segment(s))
    } else {
        None
    }
}

pub fn ref_mid_slug(s: &str) -> (r: Option<String>)
    ensures
        match r {
            Some(m) => mid_slug(s@) == Some(m@),
            None => mid_slug(s@) is None,
        },
{
    if !is_canonical_ref(s) {
        return None;
    }
    let cs = chars_of(s);
    let mut out: Vec<char> = Vec::new();
    let mut slashes: usize = 0;
    let mut i: usize = 0;
    while i < cs.len()
        invariant
            cs@ == s@,
            i <= cs.len(),
            slashes == slash_count(s@.subrange(0, i as int)),
            slashes <= i,
            out@ == third_segment(s@.subrange(0, i as int)),
        decreases cs.len() - i,
    {
        let c = cs[i];
        assert(s@.subrange(0, i + 1).drop_last() =~= s@.subrange(0, i as int));
        if slashes == 2 && c != '/' {
            out.push(c);
        }
        if c == '/' {
            slashes = slashes + 1;
        }
        i = i + 1;
    }
    assert(s@.subrange(0, s@.len() as int) =~= s@);
    Some(string_of(&out))
}

} // verus!
