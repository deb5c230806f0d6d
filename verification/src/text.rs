//! Character-level text helpers shared by the reports and parsers.
//!
//! Every helper works on the `Seq<char>` view of a string, so the contracts of
//! the report renderers and classifiers can be stated as plain sequence
//! expressions.
use vstd::prelude::*;

verus! {

/// `needle` occurs in `hay` starting at character position `i`.
pub open spec fn occurs_at(hay: Seq<char>, needle: Seq<char>, i: int) -> bool {
    &&& 0 <= i
    &&& i + needle.len() <= hay.len()
    &&& hay.subrange(i, i + needle.len()) =~= needle
}

/// `needle` occurs somewhere in `hay` (the empty needle occurs everywhere).
pub open spec fn seq_contains(hay: Seq<char>, needle: Seq<char>) -> bool {
    exists|i: int| occurs_at(hay, needle, i)
}

pub open spec fn seq_starts_with(s: Seq<char>, prefix: Seq<char>) -> bool {
    occurs_at(s, prefix, 0)
}

pub open spec fn seq_ends_with(s: Seq<char>, suffix: Seq<char>) -> bool {
    occurs_at(s, suffix, s.len() - suffix.len())
}

/// The ASCII digit character for `d < 10`.
pub open spec fn digit_char(d: nat) -> char {
    (48 + d) as char
}

/// Decimal rendering of a natural number, without leading zeros.
pub open spec fn decimal(n: nat) -> Seq<char>
    decreases n,
{
    if n < 10 {
        seq![digit_char(n)]
    } else {
        decimal(n / 10).push(digit_char(n % 10))
    }
}

/// Decimal rendering of an integer, with a leading `-` for negative values.
pub open spec fn signed_decimal(n: int) -> Seq<char> {
    if n < 0 {
        seq!['-'] + decimal((-n) as nat)
    } else {
        decimal(n as nat)
    }
}

/// What Rust's `Debug` formatting prints for a string slice (the quoted,
/// escaped form).
pub uninterp spec fn debug_text(s: Seq<char>) -> Seq<char>;

/// What `str::to_lowercase` returns for a string.
pub uninterp spec fn lowercase_text(s: Seq<char>) -> Seq<char>;

/// Renders `s` the way `{:?}` renders a string slice.
///
/// Calls std's `Debug` impl for `str`. The contract names the result
/// `debug_text(s@)` and claims nothing else about it: quoting and escaping are
/// std's.
#[verifier::external_body]
pub(crate) fn debug_quoted(s: &str) -> (r: String)
    ensures
        r@ == debug_text(s@),
{
    format!("{s:?}")
}

/// Calls std's `str::to_lowercase`. The result is named `lowercase_text(s@)`;
/// Unicode case mapping is std's and is not restated here.
#[verifier::external_body]
pub(crate) fn to_lowercase(s: &str) -> (r: String)
    ensures
        r@ == lowercase_text(s@),
{
    s.to_lowercase()
}

/// Calls std's `String::push`: the string afterwards is the old one with `c`
/// appended.
#[verifier::external_body]
pub(crate) fn push_char(s: &mut String, c: char)
    ensures
        final(s)@ == old(s)@.push(c),
{
    s.push(c);
}

/// The characters of `s`, in order.
pub fn chars_of(s: &str) -> (out: Vec<char>)
    ensures
        out@ == s@,
{
    let mut out: Vec<char> = Vec::new();
    let n = s.unicode_len();
    let mut i: usize = 0;
    while i < n
        invariant
            n == s@.len(),
            i <= n,
            out@ == s@.subrange(0, i as int),
        decreases n - i,
    {
        out.push(s.get_char(i));
        i = i + 1;
    }
    assert(out@ =~= s@);
    out
}

/// The string made of the characters `cs[from..to]`.
pub fn string_of_range(cs: &Vec<char>, from: usize, to: usize) -> (out: String)
    requires
        from <= to <= cs.len(),
    ensures
        out@ == cs@.subrange(from as int, to as int),
{
    let mut out = String::new();
    let mut i: usize = from;
    while i < to
        invariant
            from <= i <= to <= cs.len(),
            out@ == cs@.subrange(from as int, i as int),
        decreases to - i,
    {
        push_char(&mut out, cs[i]);
        i = i + 1;
        assert(out@ =~= cs@.subrange(from as int, i as int));
    }
    out
}

/// The string made of the characters `cs`.
pub fn string_of(cs: &Vec<char>) -> (out: String)
    ensures
        out@ == cs@,
{
    let out = string_of_range(cs, 0, cs.len());
    assert(cs@.subrange(0, cs@.len() as int) =~= cs@);
    out
}

/// An owned copy of `s`.
pub fn owned(s: &str) -> (out: String)
    ensures
        out@ == s@,
{
    String::from_str(s)
}

/// Whether `needle` occurs in `hay` at position `i`.
pub fn matches_at(hay: &Vec<char>, needle: &Vec<char>, i: usize) -> (r: bool)
    ensures
        r == occurs_at(hay@, needle@, i as int),
{
    if needle.len() > hay.len() || i > hay.len() - needle.len() {
        return false;
    }
    let mut j: usize = 0;
    while j < needle.len()
        invariant
            i + needle.len() <= hay.len(),
            j <= needle.len(),
            forall|k: int| 0 <= k < j ==> hay@[i + k] == needle@[k],
        decreases needle.len() - j,
    {
        if hay[i + j] != needle[j] {
            assert(hay@.subrange(i as int, i + needle.len())[j as int] != needle@[j as int]);
            return false;
        }
        j = j + 1;
    }
    assert(hay@.subrange(i as int, i + needle.len()) =~= needle@);
    true
}

/// A copy of `s`.
pub fn copy_string(s: &String) -> (r: String)
    ensures
        r == *s,
{
    s.clone()
}

/// Whether `needle` occurs somewhere in `hay`.
pub fn chars_contain(hay: &Vec<char>, needle: &Vec<char>) -> (r: bool)
    ensures
        r == seq_contains(hay@, needle@),
{
    if needle.len() > hay.len() {
        assert(forall|i: int| !occurs_at(hay@, needle@, i));
        return false;
    }
    let last = hay.len() - needle.len();
    let mut i: usize = 0;
    while i <= last
        invariant
            last == hay.len() - needle.len(),
            needle.len() <= hay.len(),
            i <= last + 1,
            forall|k: int| 0 <= k < i ==> !occurs_at(hay@, needle@, k),
        decreases last + 1 - i,
    {
        if matches_at(hay, needle, i) {
            return true;
        }
        i = i + 1;
    }
    assert(forall|k: int| !occurs_at(hay@, needle@, k));
    false
}

/// `str::contains` on the character view.
pub fn str_contains(hay: &str, needle: &str) -> (r: bool)
    ensures
        r == seq_contains(hay@, needle@),
{
    let h = chars_of(hay);
    let n = chars_of(needle);
    chars_contain(&h, &n)
}

/// `str::starts_with` on the character view.
pub fn str_starts_with(s: &str, prefix: &str) -> (r: bool)
    ensures
        r == seq_starts_with(s@, prefix@),
{
    let h = chars_of(s);
    let p = chars_of(prefix);
    matches_at(&h, &p, 0)
}

/// `str::ends_with` on the character view.
pub fn str_ends_with(s: &str, suffix: &str) -> (r: bool)
    ensures
        r == seq_ends_with(s@, suffix@),
{
    let h = chars_of(s);
    let p = chars_of(suffix);
    if p.len() > h.len() {
        return false;
    }
    matches_at(&h, &p, h.len() - p.len())
}

/// Character-wise equality of two strings.
pub fn str_eq(a: &str, b: &str) -> (r: bool)
    ensures
        r == (a@ == b@),
{
    let x = chars_of(a);
    let y = chars_of(b);
    if x.len() != y.len() {
        return false;
    }
    let r = matches_at(&x, &y, 0);
    proof {
        if r {
            assert(x@.subrange(0, y@.len() as int) =~= x@);
        }
    }
    r
}

/// The ASCII digit for `d < 10`.
pub fn digit(d: u8) -> (c: char)
    requires
        d < 10,
    ensures
        c == digit_char(d as nat),
{
    let c = match d {
        0 => '0',
        1 => '1',
        2 => '2',
        3 => '3',
        4 => '4',
        5 => '5',
        6 => '6',
        7 => '7',
        8 => '8',
        _ => '9',
    };
    c
}

/// Appends the decimal rendering of `n`.
pub fn push_decimal(out: &mut String, n: u128)
    ensures
        final(out)@ == old(out)@ + decimal(n as nat),
    decreases n,
{
    if n >= 10 {
        push_decimal(out, n / 10);
    }
    let d = (n % 10) as u8;
    push_char(out, digit(d));
    proof {
        if n >= 10 {
            assert(decimal(n as nat) == decimal((n / 10) as nat).push(digit_char((n % 10) as nat)));
        }
    }
    assert(final(out)@ =~= old(out)@ + decimal(n as nat));
}

/// Appends the decimal rendering of a signed value.
pub fn push_signed_decimal(out: &mut String, n: i64)
    ensures
        final(out)@ == old(out)@ + signed_decimal(n as int),
{
    if n < 0 {
        push_char(out, '-');
        let magnitude: u128 = (0i128 - n as i128) as u128;
        push_decimal(out, magnitude);
        assert(final(out)@ =~= old(out)@ + signed_decimal(n as int));
    } else {
        push_decimal(out, n as u128);
    }
}


/// What `char::to_lowercase` yields for a character (one or more characters).
pub uninterp spec fn char_lowercase(c: char) -> Seq<char>;

/// Calls std's `char::to_lowercase` and collects what it yields. The result is
/// named `char_lowercase(c)`; Unicode case mapping is std's.
#[verifier::external_body]
pub(crate) fn lowercase_char(c: char) -> (r: Vec<char>)
    ensures
        r@ == char_lowercase(c),
{
    c.to_lowercase().collect()
}

pub open spec fn bool_text(b: bool) -> Seq<char> {
    if b {
        "true"@
    } else {
        "false"@
    }
}

/// `bool`'s `Display`.
pub fn bool_str(b: bool) -> (r: &'static str)
    ensures
        r@ == bool_text(b),
{
    if b {
        "true"
    } else {
        "false"
    }
}

/// `s` with every newline replaced by a space.
pub open spec fn newlines_to_spaces(s: Seq<char>) -> Seq<char> {
    s.map_values(|c: char| if c == '\n' { ' ' } else { c })
}

/// Report-friendly form of `s`: newlines become spaces, and text longer than
/// `max` characters is cut to its first `max` characters followed by `...`.
pub open spec fn trimmed_for_report(s: Seq<char>, max: nat) -> Seq<char> {
    let compact = newlines_to_spaces(s);
    if compact.len() <= max {
        compact
    } else {
        compact.take(max as int) + "..."@
    }
}

pub fn trim_for_report(input: &str, max: usize) -> (out: String)
    ensures
        out@ == trimmed_for_report(input@, max as nat),
{
    let cs = chars_of(input);
    let mut out = String::new();
    let limit = if cs.len() <= max {
        cs.len()
    } else {
        max
    };
    let mut i: usize = 0;
    while i < limit
        invariant
            cs@ == input@,
            limit <= cs.len(),
            i <= limit,
            out@ == newlines_to_spaces(input@).take(i as int),
        decreases limit - i,
    {
        let c = cs[i];
        push_char(&mut out, if c == '\n' {
            ' '
        } else {
            c
        });
        i = i + 1;
        assert(out@ =~= newlines_to_spaces(input@).take(i as int));
    }
    if cs.len() > max {
        out.append("...");
    } else {
        assert(newlines_to_spaces(input@).take(i as int) =~= newlines_to_spaces(input@));
    }
    out
}



/// `s` without its trailing `c` characters (`str::trim_end_matches` with a
/// character pattern).
pub open spec fn strip_trailing(s: Seq<char>, c: char) -> Seq<char>
    decreases s.len(),
{
    if s.len() > 0 && s.last() == c {
        strip_trailing(s.drop_last(), c)
    } else {
        s
    }
}

/// `s` with every trailing `/` removed.
pub fn trim_trailing_slashes(s: &str) -> (out: String)
    ensures
        out@ == strip_trailing(s@, '/'),
{
    let cs = chars_of(s);
    let mut end: usize = cs.len();
    assert(cs@.subrange(0, end as int) =~= s@);
    while end > 0 && cs[end - 1] == '/'
        invariant
            cs@ == s@,
            end <= cs.len(),
            strip_trailing(cs@.subrange(0, end as int), '/') == strip_trailing(s@, '/'),
        decreases end,
    {
        assert(cs@.subrange(0, end as int).drop_last() =~= cs@.subrange(0, end - 1));
        end = end - 1;
    }
    let out = string_of_range(&cs, 0, end);
    proof {
        let t = cs@.subrange(0, end as int);
        if end > 0 {
            assert(t.last() == cs@[end - 1]);
        }
        assert(strip_trailing(t, '/') == t);
    }
    out
}

/// `endpoint` without trailing slashes, followed by `path`.
pub fn join_endpoint(endpoint: &str, path: &str) -> (out: String)
    ensures
        out@ == strip_trailing(endpoint@, '/') + path@,
{
    let mut out = trim_trailing_slashes(endpoint);
    out.append(path);
    out
}

/// `s` without its leading `c` characters.
pub open spec fn strip_leading(s: Seq<char>, c: char) -> Seq<char>
    decreases s.len(),
{
    if s.len() > 0 && s[0] == c {
        strip_leading(s.drop_first(), c)
    } else {
        s
    }
}

proof fn strip_leading_skip(s: Seq<char>, c: char, i: int)
    requires
        0 <= i <= s.len(),
        forall|k: int| 0 <= k < i ==> s[k] == c,
    ensures
        strip_leading(s.subrange(i, s.len() as int), c) == strip_leading(s, c),
    decreases i,
{
    if i > 0 {
        strip_leading_skip(s, c, i - 1);
        assert(s.subrange(i - 1, s.len() as int).drop_first() =~= s.subrange(i, s.len() as int));
    } else {
        assert(s.subrange(0, s.len() as int) =~= s);
    }
}

/// Index of the first character of `cs` that is not `c`.
fn skip_leading(cs: &Vec<char>, c: char) -> (i: usize)
    ensures
        i <= cs.len(),
        strip_leading(cs@, c) == cs@.subrange(i as int, cs@.len() as int),
{
    let mut i: usize = 0;
    while i < cs.len() && cs[i] == c
        invariant
            i <= cs.len(),
            forall|k: int| 0 <= k < i ==> cs@[k] == c,
        decreases cs.len() - i,
    {
        i = i + 1;
    }
    proof {
        strip_leading_skip(cs@, c, i as int);
        let t = cs@.subrange(i as int, cs@.len() as int);
        if t.len() > 0 {
            assert(t[0] == cs@[i as int]);
        }
    }
    i
}

/// `s` without its leading `c` characters (`str::trim_start_matches` with a
/// character pattern).
pub fn trim_leading_char(s: &str, c: char) -> (out: String)
    ensures
        out@ == strip_leading(s@, c),
{
    let cs = chars_of(s);
    let i = skip_leading(&cs, c);
    string_of_range(&cs, i, cs.len())
}

/// `s` without its leading and trailing `c` characters (`str::trim_matches`
/// with a character pattern).
pub open spec fn strip_both(s: Seq<char>, c: char) -> Seq<char> {
    strip_trailing(strip_leading(s, c), c)
}

pub fn trim_char(s: &str, c: char) -> (out: String)
    ensures
        out@ == strip_both(s@, c),
{
    let inner = trim_leading_char(s, c);
    let cs = chars_of(inner.as_str());
    let mut end: usize = cs.len();
    assert(cs@.subrange(0, end as int) =~= inner@);
    while end > 0 && cs[end - 1] == c
        invariant
            cs@ == inner@,
            end <= cs.len(),
            strip_trailing(cs@.subrange(0, end as int), c) == strip_trailing(inner@, c),
        decreases end,
    {
        assert(cs@.subrange(0, end as int).drop_last() =~= cs@.subrange(0, end - 1));
        end = end - 1;
    }
    let out = string_of_range(&cs, 0, end);
    proof {
        let t = cs@.subrange(0, end as int);
        if end > 0 {
            assert(t.last() == cs@[end - 1]);
        }
        assert(strip_trailing(t, c) == t);
    }
    out
}

/// Unicode `White_Space`, the characters `char::is_whitespace` accepts.
pub open spec fn is_white_space(c: char) -> bool {
    let u = c as u32;
    ||| 0x9 <= u <= 0xD
    ||| u == 0x20
    ||| u == 0x85
    ||| u == 0xA0
    ||| u == 0x1680
    ||| 0x2000 <= u <= 0x200A
    ||| u == 0x2028
    ||| u == 0x2029
    ||| u == 0x202F
    ||| u == 0x205F
    ||| u == 0x3000
}

pub fn white_space(c: char) -> (r: bool)
    ensures
        r == is_white_space(c),
{
    let u = c as u32;
    (0x9 <= u && u <= 0xD) || u == 0x20 || u == 0x85 || u == 0xA0 || u == 0x1680 || (0x2000 <= u && u
        <= 0x200A) || u == 0x2028 || u == 0x2029 || u == 0x202F || u == 0x205F || u == 0x3000
}

/// `s` without leading white space.
pub open spec fn trim_ws_start(s: Seq<char>) -> Seq<char>
    decreases s.len(),
{
    if s.len() > 0 && is_white_space(s[0]) {
        trim_ws_start(s.drop_first())
    } else {
        s
    }
}

/// `s` without trailing white space.
pub open spec fn trim_ws_end(s: Seq<char>) -> Seq<char>
    decreases s.len(),
{
    if s.len() > 0 && is_white_space(s.last()) {
        trim_ws_end(s.drop_last())
    } else {
        s
    }
}

/// `s` without leading and trailing white space (`str::trim`).
pub open spec fn trimmed(s: Seq<char>) -> Seq<char> {
    trim_ws_end(trim_ws_start(s))
}

proof fn trim_ws_start_skip(s: Seq<char>, i: int)
    requires
        0 <= i <= s.len(),
        forall|k: int| 0 <= k < i ==> is_white_space(#[trigger] s[k]),
    ensures
        trim_ws_start(s.subrange(i, s.len() as int)) == trim_ws_start(s),
    decreases i,
{
    if i > 0 {
        trim_ws_start_skip(s, i - 1);
        assert(s.subrange(i - 1, s.len() as int).drop_first() =~= s.subrange(i, s.len() as int));
    } else {
        assert(s.subrange(0, s.len() as int) =~= s);
    }
}

/// `s` without leading and trailing white space.
pub fn trim(s: &str) -> (out: String)
    ensures
        out@ == trimmed(s@),
{
    let cs = chars_of(s);
    let mut i: usize = 0;
    while i < cs.len() && white_space(cs[i])
        invariant
            cs@ == s@,
            i <= cs.len(),
            forall|k: int| 0 <= k < i ==> is_white_space(#[trigger] cs@[k]),
        decreases cs.len() - i,
    {
        i = i + 1;
    }
    proof {
        trim_ws_start_skip(s@, i as int);
        let t = s@.subrange(i as int, s@.len() as int);
        if t.len() > 0 {
            assert(t[0] == s@[i as int]);
        }
    }
    let ghost start = s@.subrange(i as int, s@.len() as int);
    let mut end: usize = cs.len();
    assert(cs@.subrange(i as int, end as int) =~= start);
    while end > i && white_space(cs[end - 1])
        invariant
            cs@ == s@,
            i <= end <= cs.len(),
            trim_ws_end(cs@.subrange(i as int, end as int)) == trim_ws_end(start),
        decreases end,
    {
        assert(cs@.subrange(i as int, end as int).drop_last() =~= cs@.subrange(i as int, end - 1));
        end = end - 1;
    }
    let out = string_of_range(&cs, i, end);
    proof {
        let t = cs@.subrange(i as int, end as int);
        if end > i {
            assert(t.last() == cs@[end - 1]);
        }
        assert(trim_ws_end(t) == t);
    }
    out
}

/// The state of a left-to-right scan for white-space separated words: the
/// completed words and the word in progress (empty between words).
pub open spec fn scan_words(s: Seq<char>) -> (Seq<Seq<char>>, Seq<char>)
    decreases s.len(),
{
    if s.len() == 0 {
        (Seq::empty(), Seq::empty())
    } else {
        let (done, cur) = scan_words(s.drop_last());
        if is_white_space(s.last()) {
            if cur.len() > 0 {
                (done.push(cur), Seq::empty())
            } else {
                (done, cur)
            }
        } else {
            (done, cur.push(s.last()))
        }
    }
}

/// The white-space separated words of `s` (`str::split_whitespace`).
pub open spec fn words(s: Seq<char>) -> Seq<Seq<char>> {
    let (done, cur) = scan_words(s);
    if cur.len() > 0 {
        done.push(cur)
    } else {
        done
    }
}

/// The white-space separated words of `s`.
pub fn split_words(s: &str) -> (out: Vec<String>)
    ensures
        out@.map_values(|w: String| w@) == words(s@),
{
    let cs = chars_of(s);
    let mut done: Vec<String> = Vec::new();
    let mut cur = String::new();
    let mut i: usize = 0;
    while i < cs.len()
        invariant
            cs@ == s@,
            i <= cs.len(),
            (done@.map_values(|w: String| w@), cur@) == scan_words(s@.take(i as int)),
        decreases cs.len() - i,
    {
        assert(s@.take(i + 1).drop_last() =~= s@.take(i as int));
        let c = cs[i];
        if white_space(c) {
            if cur.unicode_len() > 0 {
                let w = cur;
                done.push(w);
                cur = String::new();
            }
        } else {
            push_char(&mut cur, c);
        }
        i = i + 1;
        assert(done@.map_values(|w: String| w@) =~= scan_words(s@.take(i as int)).0);
    }
    assert(s@.take(cs@.len() as int) =~= s@);
    if cur.unicode_len() > 0 {
        done.push(cur);
    }
    assert(done@.map_values(|w: String| w@) =~= words(s@));
    done
}

/// The characters of `s` before its first `\n` (all of `s` when it has none).
pub open spec fn first_line(s: Seq<char>) -> Seq<char>
    decreases s.len(),
{
    if s.len() == 0 {
        s
    } else if first_line(s.drop_last()).len() < s.len() - 1 {
        first_line(s.drop_last())
    } else if s.last() == '\n' {
        s.drop_last()
    } else {
        s
    }
}

/// `dir` joined with the relative file name `file` (as `Path::join` joins a
/// relative path on Unix).
pub open spec fn path_join(dir: Seq<char>, file: Seq<char>) -> Seq<char> {
    if dir.len() == 0 {
        file
    } else if dir.last() == '/' {
        dir + file
    } else {
        dir + "/"@ + file
    }
}

/// `dir` joined with the relative name `file`.
pub fn join_path(dir: &str, file: &str) -> (r: String)
    ensures
        r@ == path_join(dir@, file@),
{
    let n = dir.unicode_len();
    let mut r = owned(dir);
    if n > 0 && dir.get_char(n - 1) != '/' {
        r.append("/");
    }
    r.append(file);
    r
}

/// The UTF-8 encoding of a concatenation is the concatenation of the
/// encodings.
proof fn lemma_encode_utf8_concat(a: Seq<char>, b: Seq<char>)
    ensures
        vstd::utf8::encode_utf8(a + b) == vstd::utf8::encode_utf8(a) + vstd::utf8::encode_utf8(b),
    decreases a.len(),
{
    if a.len() > 0 {
        lemma_encode_utf8_concat(a.drop_first(), b);
        assert((a + b).drop_first() =~= a.drop_first() + b);
        assert((a + b)[0] == a[0]);
        assert(vstd::utf8::encode_utf8(a + b) =~= vstd::utf8::encode_utf8(a) + vstd::utf8::encode_utf8(b));
    } else {
        assert(a + b =~= b);
        assert(vstd::utf8::encode_utf8(a) =~= Seq::<u8>::empty());
        assert(vstd::utf8::encode_utf8(a) + vstd::utf8::encode_utf8(b) =~= vstd::utf8::encode_utf8(b));
    }
}

/// The most bytes of a response body a report quotes.
pub const REPORT_EXCERPT_BYTES: usize = 300;

/// A response body as a report quotes it: without surrounding white space;
/// a body longer than 300 bytes is cut after its first 300 bytes and marked
/// with `...`.
pub fn trim_report(value: &str) -> (r: String)
    requires
        vstd::utf8::encode_utf8(trimmed(value@)).len() <= usize::MAX,
        vstd::utf8::encode_utf8(trimmed(value@)).len() > 300 ==> vstd::utf8::is_char_boundary(
            vstd::utf8::encode_utf8(trimmed(value@)),
            300,
        ),
    ensures
        vstd::utf8::encode_utf8(trimmed(value@)).len() <= 300 ==> r@ == trimmed(value@),
        vstd::utf8::encode_utf8(trimmed(value@)).len() > 300 ==> vstd::utf8::encode_utf8(r@)
            == vstd::utf8::encode_utf8(trimmed(value@)).subrange(0, 300) + vstd::utf8::encode_utf8(
            "..."@,
        ),
{
    let t = trim(value);
    let text = t.as_str();
    if text.len() > REPORT_EXCERPT_BYTES {
        let (head, _) = text.split_at(REPORT_EXCERPT_BYTES);
        let mut out = owned(head);
        out.append("...");
        proof {
            assert(text@ == trimmed(value@));
            assert(vstd::utf8::encode_utf8(head@) =~= vstd::utf8::encode_utf8(trimmed(value@)).subrange(0, 300));
            assert(out@ == head@ + "..."@);
            lemma_encode_utf8_concat(head@, "..."@);
        }
        out
    } else {
        t
    }
}

} // verus!
