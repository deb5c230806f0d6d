//! The D3 provider's local HTTP endpoint: reading a request head, routing a
//! request, and the status line of a reply.
use vstd::prelude::*;

use crate::d3::find_header_end;
use crate::text::{chars_of, owned, push_char, split_words, str_eq, trim, trimmed, words};
use crate::v1::{all_digits, ascii_lower, digits_value, unsigned_digits};

verus! {

/// What the provider does with a request.
#[derive(Debug, Clone, Copy, PartialEq, Eq, Structural)]
pub enum ProviderRoute {
    /// `GET /health`: report liveness.
    Health,
    /// `POST /v1/compute/job-result`: the requester's result arrived.
    JobResult,
    /// `POST /v1/compute/job-dispatch`: Wire dispatches a job.
    JobDispatch,
    NotFound,
}

pub open spec fn route_of(method: Seq<char>, path: Seq<char>) -> ProviderRoute {
    if method == "GET"@ && path == "/health"@ {
        ProviderRoute::Health
    } else if method == "POST"@ && path == "/v1/compute/job-result"@ {
        ProviderRoute::JobResult
    } else if method == "POST"@ && path == "/v1/compute/job-dispatch"@ {
        ProviderRoute::JobDispatch
    } else {
        ProviderRoute::NotFound
    }
}

pub fn provider_route(method: &str, path: &str) -> (r: ProviderRoute)
    ensures
        r == route_of(method@, path@),
{
    if str_eq(method, "GET") && str_eq(path, "/health") {
        ProviderRoute::Health
    } else if str_eq(method, "POST") && str_eq(path, "/v1/compute/job-result") {
        ProviderRoute::JobResult
    } else if str_eq(method, "POST") && str_eq(path, "/v1/compute/job-dispatch") {
        ProviderRoute::JobDispatch
    } else {
        ProviderRoute::NotFound
    }
}

pub open spec fn status_reason(status: u16) -> Seq<char> {
    if status == 202 {
        "Accepted"@
    } else if status == 404 {
        "Not Found"@
    } else {
        "OK"@
    }
}

/// The reason phrase of a reply's status line.
pub fn status_text(status: u16) -> (r: &'static str)
    ensures
        r@ == status_reason(status),
{
    if status == 202 {
        "Accepted"
    } else if status == 404 {
        "Not Found"
    } else {
        "OK"
    }
}

/// The largest request head the provider buffers.
pub const MAX_HEAD_BYTES: usize = 65536;

/// Where reading a request head stands after the bytes received so far.
#[derive(Debug, Clone, Copy, PartialEq, Eq, Structural)]
pub enum HeadScan {
    /// The head ends at this offset (where the blank line starts).
    Complete(usize),
    TooLarge,
    NeedMore,
}

/// The head is complete once the bytes contain a blank line; without one,
/// more than `MAX_HEAD_BYTES` bytes are refused.
pub fn scan_head(bytes: &[u8]) -> (r: HeadScan)
    ensures
        match r {
            HeadScan::Complete(i) => crate::d3::header_end_at(bytes@, i as int) && forall|k: int|
                0 <= k < i ==> !crate::d3::header_end_at(bytes@, k),
            HeadScan::TooLarge => (forall|k: int| !crate::d3::header_end_at(bytes@, k)) && bytes@.len()
                > MAX_HEAD_BYTES,
            HeadScan::NeedMore => (forall|k: int| !crate::d3::header_end_at(bytes@, k)) && bytes@.len()
                <= MAX_HEAD_BYTES,
        },
{
    match find_header_end(bytes) {
        Some(i) => HeadScan::Complete(i),
        None => if bytes.len() > MAX_HEAD_BYTES {
            HeadScan::TooLarge
        } else {
            HeadScan::NeedMore
        },
    }
}

/// The state of a left-to-right scan for `\r\n`-separated lines: the
/// completed lines and the line in progress.
pub open spec fn scan_lines(s: Seq<char>) -> (Seq<Seq<char>>, Seq<char>)
    decreases s.len(),
{
    if s.len() == 0 {
        (Seq::empty(), Seq::empty())
    } else {
        let (done, cur) = scan_lines(s.drop_last());
        if s.last() == '\n' && cur.len() > 0 && cur.last() == '\r' {
            (done.push(cur.drop_last()), Seq::empty())
        } else {
            (done, cur.push(s.last()))
        }
    }
}

/// The `\r\n`-separated lines of `s` (`str::split("\r\n")`).
pub open spec fn crlf_lines(s: Seq<char>) -> Seq<Seq<char>> {
    let (done, cur) = scan_lines(s);
    done.push(cur)
}

fn split_crlf(s: &str) -> (out: Vec<String>)
    ensures
        out@.map_values(|l: String| l@) == crlf_lines(s@),
{
    let cs = chars_of(s);
    let mut done: Vec<String> = Vec::new();
    let mut cur: Vec<char> = Vec::new();
    let mut i: usize = 0;
    while i < cs.len()
        invariant
            cs@ == s@,
            i <= cs.len(),
            (done@.map_values(|l: String| l@), cur@) == scan_lines(s@.take(i as int)),
        decreases cs.len() - i,
    {
        assert(s@.take(i + 1).drop_last() =~= s@.take(i as int));
        let c = cs[i];
        let n = cur.len();
        if c == '\n' && n > 0 && cur[n - 1] == '\r' {
            let line = crate::text::string_of_range(&cur, 0, n - 1);
            assert(cur@.subrange(0, n - 1) =~= cur@.drop_last());
            done.push(line);
            cur = Vec::new();
        } else {
            cur.push(c);
        }
        i = i + 1;
        assert(done@.map_values(|l: String| l@) =~= scan_lines(s@.take(i as int)).0);
        assert(cur@ =~= scan_lines(s@.take(i as int)).1);
    }
    assert(s@.take(cs@.len() as int) =~= s@);
    let last = crate::text::string_of(&cur);
    done.push(last);
    assert(done@.map_values(|l: String| l@) =~= crlf_lines(s@));
    done
}

/// What `usize::from_str` reports for a string it refuses (std's error
/// message).
pub uninterp spec fn usize_parse_error(s: Seq<char>) -> Seq<char>;

/// What `usize::from_str` accepts: an optional `+` and at least one decimal
/// digit, with a value that fits in a `usize`.
pub open spec fn usize_literal(s: Seq<char>) -> Option<usize> {
    let d = unsigned_digits(s);
    if d.len() > 0 && all_digits(d) && digits_value(d) <= usize::MAX {
        Some(digits_value(d) as usize)
    } else {
        None
    }
}

/// Calls std's `usize::from_str`. What it accepts and the value it returns
/// follow its documentation (an optional `+` and decimal digits, without
/// overflow); the message of a refusal is std's, named `usize_parse_error`.
#[verifier::external_body]
fn parse_usize(s: &str) -> (r: Result<usize, String>)
    ensures
        match usize_literal(s@) {
            Some(n) => r == Ok::<usize, String>(n),
            None => r matches Err(e) && e@ == usize_parse_error(s@),
        },
{
    match s.parse::<usize>() {
        Ok(n) => Ok(n),
        Err(e) => Err(e.to_string()),
    }
}

/// `a` and `b` are equal ignoring ASCII case.
pub open spec fn eq_ignore_ascii_case(a: Seq<char>, b: Seq<char>) -> bool {
    a.len() == b.len() && forall|i: int| 0 <= i < a.len() ==> ascii_lower(#[trigger] a[i]) == ascii_lower(b[i])
}

/// The position of the first `:` in a header line.
pub open spec fn colon_at(line: Seq<char>) -> Option<int> {
    if exists|i: int| 0 <= i < line.len() && line[i] == ':' {
        Some(choose|i: int| 0 <= i < line.len() && line[i] == ':' && forall|j: int| 0 <= j < i ==> line[j] != ':')
    } else {
        None
    }
}

/// The content length the header lines set: the last `Content-Length` value
/// seen (names compared without ASCII case, values without surrounding white
/// space), starting from `acc`; an unparsable value stops the scan.
pub open spec fn content_length_from(lines: Seq<Seq<char>>, acc: usize) -> Result<usize, Seq<char>>
    decreases lines.len(),
{
    if lines.len() == 0 {
        Ok(acc)
    } else {
        let line = lines[0];
        match colon_at(line) {
            Some(k) => if eq_ignore_ascii_case(line.take(k), "content-length"@) {
                let value = trimmed(line.skip(k + 1));
                match usize_literal(value) {
                    Some(n) => content_length_from(lines.drop_first(), n),
                    None => Err("invalid content-length: "@ + usize_parse_error(value)),
                }
            } else {
                content_length_from(lines.drop_first(), acc)
            },
            None => content_length_from(lines.drop_first(), acc),
        }
    }
}

/// The part of `s` before its first `?` (all of `s` without one).
pub open spec fn before_query(s: Seq<char>) -> Seq<char> {
    if exists|i: int| 0 <= i < s.len() && s[i] == '?' {
        s.take(choose|i: int| 0 <= i < s.len() && s[i] == '?' && forall|j: int| 0 <= j < i ==> s[j] != '?')
    } else {
        s
    }
}

/// A parsed request head.
#[derive(Debug, Clone, PartialEq, Eq)]
pub struct RequestHead {
    pub method: String,
    pub path: String,
    pub content_length: usize,
}

/// The request head's meaning: the request line's first word is the method,
/// its second (without a query) the path, and the header lines give the
/// content length (0 when absent).
pub open spec fn head_of(text: Seq<char>) -> Result<(Seq<char>, Seq<char>, usize), Seq<char>> {
    let lines = crlf_lines(text);
    let w = words(lines[0]);
    if w.len() == 0 {
        Err("missing method"@)
    } else if w.len() == 1 {
        Err("missing path"@)
    } else {
        match content_length_from(lines.drop_first(), 0) {
            Ok(n) => Ok((w[0], before_query(w[1]), n)),
            Err(e) => Err(e),
        }
    }
}

fn first_index_of(cs: &Vec<char>, c: char) -> (r: Option<usize>)
    ensures
        match r {
            Some(i) => i < cs@.len() && cs@[i as int] == c && forall|j: int| 0 <= j < i ==> cs@[j] != c,
            None => forall|j: int| 0 <= j < cs@.len() ==> cs@[j] != c,
        },
{
    let mut i: usize = 0;
    while i < cs.len()
        invariant
            i <= cs.len(),
            forall|j: int| 0 <= j < i ==> cs@[j] != c,
        decreases cs.len() - i,
    {
        if cs[i] == c {
            return Some(i);
        }
        i = i + 1;
    }
    None
}

proof fn first_index_unique(s: Seq<char>, c: char, i: int, k: int)
    requires
        0 <= i < s.len(),
        s[i] == c,
        forall|j: int| 0 <= j < i ==> s[j] != c,
        0 <= k < s.len(),
        s[k] == c,
        forall|j: int| 0 <= j < k ==> s[j] != c,
    ensures
        i == k,
{
}

/// The part of `s` before its first `?`.
fn strip_query(s: &str) -> (r: String)
    ensures
        r@ == before_query(s@),
{
    let cs = chars_of(s);
    match first_index_of(&cs, '?') {
        Some(i) => {
            proof {
                let k = choose|k: int| 0 <= k < s@.len() && s@[k] == '?' && forall|j: int| 0 <= j < k ==> s@[j] != '?';
                first_index_unique(s@, '?', i as int, k);
            }
            let r = crate::text::string_of_range(&cs, 0, i);
            assert(cs@.subrange(0, i as int) =~= s@.take(i as int));
            r
        },
        None => crate::text::string_of(&cs),
    }
}

fn ascii_lower_char(c: char) -> (r: char)
    ensures
        r == ascii_lower(c),
{
    if 'A' <= c && c <= 'Z' {
        let b: u8 = ((c as u32) + 32) as u8;
        b as char
    } else {
        c
    }
}

fn eq_ignore_case(a: &Vec<char>, b: &Vec<char>) -> (r: bool)
    ensures
        r == eq_ignore_ascii_case(a@, b@),
{
    if a.len() != b.len() {
        return false;
    }
    let mut i: usize = 0;
    while i < a.len()
        invariant
            a@.len() == b@.len(),
            i <= a.len(),
            forall|j: int| 0 <= j < i ==> ascii_lower(#[trigger] a@[j]) == ascii_lower(b@[j]),
        decreases a.len() - i,
    {
        if ascii_lower_char(a[i]) != ascii_lower_char(b[i]) {
            return false;
        }
        i = i + 1;
    }
    true
}

/// Parses a request head: method, path and content length.
pub fn parse_request_head(text: &str) -> (r: Result<RequestHead, String>)
    ensures
        match head_of(text@) {
            Ok((m, p, n)) => r matches Ok(h) && h.method@ == m && h.path@ == p && h.content_length == n,
            Err(e) => r matches Err(x) && x@ == e,
        },
{
    let lines = split_crlf(text);
    let ghost lv = crlf_lines(text@);
    assert(lines@.len() == lv.len());
    assert(lines@[0]@ == lv[0]);
    let parts = split_words(lines[0].as_str());
    assert(parts@.len() == words(lv[0]).len());
    if parts.len() == 0 {
        return Err(owned("missing method"));
    }
    if parts.len() == 1 {
        return Err(owned("missing path"));
    }
    assert(parts@[0]@ == words(lv[0])[0]);
    assert(parts@[1]@ == words(lv[0])[1]);
    let name_pattern = chars_of("content-length");
    let mut content_length: usize = 0;
    let mut i: usize = 1;
    assert(lv.drop_first() =~= lv.subrange(1, lv.len() as int));
    while i < lines.len()
        invariant
            lines@.map_values(|l: String| l@) == lv,
            lv == crlf_lines(text@),
            words(lv[0]).len() >= 2,
            1 <= i <= lines@.len(),
            name_pattern@ == "content-length"@,
            content_length_from(lv.subrange(i as int, lv.len() as int), content_length)
                == content_length_from(lv.drop_first(), 0),
        decreases lines.len() - i,
    {
        let ghost rest = lv.subrange(i as int, lv.len() as int);
        assert(rest[0] == lv[i as int]);
        assert(rest.drop_first() =~= lv.subrange(i + 1, lv.len() as int));
        assert(lines@[i as int]@ == lv[i as int]);
        let cs = chars_of(lines[i].as_str());
        match first_index_of(&cs, ':') {
            Some(k) => {
                proof {
                    let line = lv[i as int];
                    assert(line[k as int] == ':');
                    let kk = choose|kk: int| 0 <= kk < line.len() && line[kk] == ':' && forall|j: int| 0 <= j < kk ==> line[j] != ':';
                    first_index_unique(line, ':', k as int, kk);
                    assert(colon_at(line) == Some(k as int));
                }
                let name_text = crate::text::string_of_range(&cs, 0, k);
                let name = chars_of(name_text.as_str());
                assert(name@ =~= cs@.take(k as int));
                if eq_ignore_case(&name, &name_pattern) {
                    let raw = crate::text::string_of_range(&cs, k + 1, cs.len());
                    assert(cs@.subrange(k + 1, cs@.len() as int) =~= cs@.skip(k + 1));
                    let value = trim(raw.as_str());
                    match parse_usize(value.as_str()) {
                        Ok(n) => {
                            content_length = n;
                        },
                        Err(e) => {
                            let mut m = owned("invalid content-length: ");
                            m.append(e.as_str());
                            assert(content_length_from(rest, content_length) == Err::<usize, Seq<char>>(m@));
                            return Err(m);
                        },
                    }
                }
            },
            None => {},
        }
        i = i + 1;
    }
    assert(lv.subrange(i as int, lv.len() as int) =~= Seq::<Seq<char>>::empty());
    let path = strip_query(parts[1].as_str());
    Ok(RequestHead { method: parts[0].clone(), path, content_length })
}

/// The bytes of the body that a request of `content_length` bytes has, given
/// where its head ends and how many bytes were read: from after the blank
/// line up to the content length, cut at what was read.
pub fn body_range(header_end: usize, content_length: usize, read: usize) -> (r: (usize, usize))
    requires
        header_end + 4 <= read,
    ensures
        r.0 == header_end + 4,
        r.1 == if header_end + 4 + content_length < read { header_end + 4 + content_length } else { read as int },
{
    let start = header_end + 4;
    let end = if content_length < read - start {
        start + content_length
    } else {
        read
    };
    (start, end)
}

} // verus!
