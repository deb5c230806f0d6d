//! The job dispatch a D3 provider receives, and the two results it posts
//! back: the completion to the requester and the usage to the settlement
//! callback.
use vstd::prelude::*;

use crate::d3::{estimate_tokens, token_estimate};
use crate::handle_canonicalization::{items_view, lookup, members_view, JsonValue, JsonView};
use crate::text::{chars_of, owned, push_signed_decimal, signed_decimal};
use crate::v1::{all_digits, digits_value, is_digit};

verus! {

/// The fields of a dispatch that the provider acts on.
pub struct D3Dispatch {
    pub job_id: String,
    pub model_id: String,
    pub callback_url: String,
    pub callback_token: String,
    pub requester_callback_url: String,
    pub requester_delivery_jwt: String,
    pub messages: JsonValue,
    pub max_tokens: u64,
}

/// The text of the member `key` of `v`, when it is a string.
pub open spec fn str_member(v: JsonView, key: Seq<char>) -> Option<Seq<char>> {
    match lookup(v, key) {
        Some(JsonView::Str(s)) => Some(s),
        _ => None,
    }
}

/// The settlement callback's bearer token: `callback_auth.token`.
pub open spec fn callback_token_of(d: JsonView) -> Option<Seq<char>> {
    match lookup(d, "callback_auth"@) {
        Some(auth) => str_member(auth, "token"@),
        None => None,
    }
}

/// A JSON number as an unsigned 64-bit integer: written as decimal digits
/// alone, with a value that fits.
pub open spec fn json_u64(v: JsonView) -> Option<u64> {
    match v {
        JsonView::Number(t) => if t.len() > 0 && all_digits(t) && digits_value(t) <= u64::MAX {
            Some(digits_value(t) as u64)
        } else {
            None
        },
        _ => None,
    }
}

/// Why a dispatch is refused: the first required field, in the order the
/// provider reads them, that is missing or not a string (`messages` may be
/// any value).
pub open spec fn dispatch_error(d: JsonView) -> Option<Seq<char>> {
    if str_member(d, "job_id"@) is None {
        Some("dispatch missing job_id"@)
    } else if str_member(d, "model_id"@) is None {
        Some("dispatch missing model_id"@)
    } else if str_member(d, "callback_url"@) is None {
        Some("dispatch missing callback_url"@)
    } else if callback_token_of(d) is None {
        Some("dispatch missing callback_auth.token"@)
    } else if str_member(d, "requester_callback_url"@) is None {
        Some("dispatch missing requester_callback_url"@)
    } else if str_member(d, "requester_delivery_jwt"@) is None {
        Some("dispatch missing requester_delivery_jwt"@)
    } else if lookup(d, "messages"@) is None {
        Some("dispatch missing messages"@)
    } else {
        None
    }
}

/// The completion budget: the dispatch's `max_tokens` when it is an unsigned
/// integer, else the configured default.
pub open spec fn dispatch_max_tokens(d: JsonView, default_max_tokens: u64) -> u64 {
    match lookup(d, "max_tokens"@) {
        Some(v) => match json_u64(v) {
            Some(n) => n,
            None => default_max_tokens,
        },
        None => default_max_tokens,
    }
}

impl JsonValue {
    /// A copy of the whole tree.
    pub fn duplicate(&self) -> (r: JsonValue)
        ensures
            r@ == self@,
        decreases self,
    {
        match self {
            JsonValue::Null => JsonValue::Null,
            JsonValue::Bool(b) => JsonValue::Bool(*b),
            JsonValue::Number(n) => JsonValue::Number(n.clone()),
            JsonValue::Str(s) => JsonValue::Str(s.clone()),
            JsonValue::Array(items) => {
                let mut out: Vec<JsonValue> = Vec::new();
                let mut i: usize = 0;
                while i < items.len()
                    invariant
                        *self == JsonValue::Array(*items),
                        i <= items.len(),
                        items_view(out@) == items_view(items@.subrange(0, i as int)),
                    decreases items.len() - i,
                {
                    proof {
                        assert(decreases_to!(*items => items[i as int]));
                        assert(decreases_to!(*self => self->Array_0));
                    }
                    let c = items[i].duplicate();
                    proof {
                        let pre = items@.subrange(0, i as int);
                        let next = items@.subrange(0, i + 1);
                        assert(next.drop_last() =~= pre);
                        assert(out@.push(c).drop_last() =~= out@);
                    }
                    out.push(c);
                    i = i + 1;
                }
                assert(items@.subrange(0, items@.len() as int) =~= items@);
                JsonValue::Array(out)
            },
            JsonValue::Object(members) => {
                let mut out: Vec<(String, JsonValue)> = Vec::new();
                let mut i: usize = 0;
                while i < members.len()
                    invariant
                        *self == JsonValue::Object(*members),
                        i <= members.len(),
                        members_view(out@) == members_view(members@.subrange(0, i as int)),
                    decreases members.len() - i,
                {
                    proof {
                        assert(decreases_to!(*members => members[i as int]));
                        assert(decreases_to!(*self => self->Object_0));
                    }
                    let c = members[i].1.duplicate();
                    let entry = (members[i].0.clone(), c);
                    proof {
                        let pre = members@.subrange(0, i as int);
                        let next = members@.subrange(0, i + 1);
                        assert(next.drop_last() =~= pre);
                        assert(out@.push(entry).drop_last() =~= out@);
                    }
                    out.push(entry);
                    i = i + 1;
                }
                assert(members@.subrange(0, members@.len() as int) =~= members@);
                JsonValue::Object(out)
            },
        }
    }
}

/// The text of the member `key` of `v`, when it is a string.
fn str_field(v: &JsonValue, key: &str) -> (r: Option<String>)
    ensures
        match r {
            Some(s) => str_member(v@, key@) == Some(s@),
            None => str_member(v@, key@) is None,
        },
{
    match v.get(key) {
        Some(JsonValue::Str(s)) => Some(s.clone()),
        _ => None,
    }
}

/// Reads a JSON number as an unsigned 64-bit integer.
pub fn json_as_u64(v: &JsonValue) -> (r: Option<u64>)
    ensures
        r == json_u64(v@),
{
    match v {
        JsonValue::Number(text) => {
            let cs = chars_of(text.as_str());
            if cs.len() == 0 {
                return None;
            }
            let mut value: u128 = 0;
            let mut i: usize = 0;
            while i < cs.len()
                invariant
                    cs@ == text@,
                    *v == JsonValue::Number(*text),
                    i <= cs.len(),
                    forall|k: int| 0 <= k < i ==> is_digit(#[trigger] cs@[k]),
                    value as nat == digits_value(cs@.take(i as int)),
                    value <= u64::MAX,
                decreases cs.len() - i,
            {
                let c = cs[i];
                if !('0' <= c && c <= '9') {
                    assert(!all_digits(text@)) by {
                        assert(!is_digit(text@[i as int]));
                    }
                    return None;
                }
                let digit = (c as u32) - ('0' as u32);
                assert(cs@.take(i + 1).drop_last() =~= cs@.take(i as int));
                let next: u128 = value * 10 + digit as u128;
                if next > 18446744073709551615u128 {
                    proof {
                        if all_digits(text@) {
                            lemma_prefix_value_bounds(text@, i + 1);
                        }
                    }
                    return None;
                }
                value = next;
                i = i + 1;
            }
            assert(cs@.take(i as int) =~= text@);
            Some(value as u64)
        },
        _ => None,
    }
}

/// A prefix of a digit string is worth no more than the whole string.
proof fn lemma_prefix_value_bounds(s: Seq<char>, i: int)
    requires
        0 <= i <= s.len(),
        all_digits(s),
    ensures
        digits_value(s.take(i)) <= digits_value(s),
    decreases s.len() - i,
{
    if i < s.len() {
        lemma_prefix_value_bounds(s, i + 1);
        assert(s.take(i + 1).drop_last() =~= s.take(i));
    } else {
        assert(s.take(i) =~= s);
    }
}

/// Reads the fields of a job dispatch, refusing it, with the name of the
/// field, when a required one is missing or not a string.
pub fn parse_d3_dispatch(d: &JsonValue, default_max_tokens: u64) -> (r: Result<D3Dispatch, String>)
    ensures
        match r {
            Ok(x) => {
                &&& dispatch_error(d@) is None
                &&& str_member(d@, "job_id"@) == Some(x.job_id@)
                &&& str_member(d@, "model_id"@) == Some(x.model_id@)
                &&& str_member(d@, "callback_url"@) == Some(x.callback_url@)
                &&& callback_token_of(d@) == Some(x.callback_token@)
                &&& str_member(d@, "requester_callback_url"@) == Some(x.requester_callback_url@)
                &&& str_member(d@, "requester_delivery_jwt"@) == Some(x.requester_delivery_jwt@)
                &&& lookup(d@, "messages"@) == Some(x.messages@)
                &&& x.max_tokens == dispatch_max_tokens(d@, default_max_tokens)
            },
            Err(e) => dispatch_error(d@) == Some(e@),
        },
{
    let job_id = match str_field(d, "job_id") {
        Some(s) => s,
        None => return Err(owned("dispatch missing job_id")),
    };
    let model_id = match str_field(d, "model_id") {
        Some(s) => s,
        None => return Err(owned("dispatch missing model_id")),
    };
    let callback_url = match str_field(d, "callback_url") {
        Some(s) => s,
        None => return Err(owned("dispatch missing callback_url")),
    };
    let callback_token = match d.get("callback_auth") {
        Some(auth) => str_field(auth, "token"),
        None => None,
    };
    let callback_token = match callback_token {
        Some(s) => s,
        None => return Err(owned("dispatch missing callback_auth.token")),
    };
    let requester_callback_url = match str_field(d, "requester_callback_url") {
        Some(s) => s,
        None => return Err(owned("dispatch missing requester_callback_url")),
    };
    let requester_delivery_jwt = match str_field(d, "requester_delivery_jwt") {
        Some(s) => s,
        None => return Err(owned("dispatch missing requester_delivery_jwt")),
    };
    let messages = match d.get("messages") {
        Some(m) => m.duplicate(),
        None => return Err(owned("dispatch missing messages")),
    };
    let max_tokens = match d.get("max_tokens") {
        Some(v) => match json_as_u64(v) {
            Some(n) => n,
            None => default_max_tokens,
        },
        None => default_max_tokens,
    };
    Ok(
        D3Dispatch {
            job_id,
            model_id,
            callback_url,
            callback_token,
            requester_callback_url,
            requester_delivery_jwt,
            messages,
            max_tokens,
        },
    )
}

/// The prompt a D3 validation job carries.
pub open spec fn d3_prompt_text() -> Seq<char> {
    "Return exactly this sentence: D3 live compute settlement green."@
}

/// The prompt a D3 validation job carries.
pub fn d3_prompt() -> (r: &'static str)
    ensures
        r@ == d3_prompt_text(),
{
    proof {
        reveal_strlit("Return exactly this sentence: D3 live compute settlement green.");
    }
    "Return exactly this sentence: D3 live compute settlement green."
}

pub open spec fn str_json(s: Seq<char>) -> JsonView {
    JsonView::Str(s)
}

pub open spec fn int_json(n: int) -> JsonView {
    JsonView::Number(signed_decimal(n))
}

/// What the provider posts to the requester: the completion for the job.
pub open spec fn requester_result_view(job_id: Seq<char>, content: Seq<char>, model_id: Seq<char>) -> JsonView {
    JsonView::Object(
        seq![
            ("type"@, str_json("success"@)),
            ("job_id"@, str_json(job_id)),
            (
                "result"@,
                JsonView::Object(
                    seq![
                        ("content"@, str_json(content)),
                        ("model_used"@, str_json(model_id)),
                        ("finish_reason"@, str_json("stop"@)),
                    ],
                ),
            ),
        ],
    )
}

/// What the provider posts to the settlement callback: the usage of the job,
/// with the prompt's and the completion's estimated token counts.
pub open spec fn settlement_view(job_id: Seq<char>, content: Seq<char>, model_id: Seq<char>, latency_ms: int) -> JsonView {
    JsonView::Object(
        seq![
            ("type"@, str_json("success"@)),
            ("job_id"@, str_json(job_id)),
            (
                "result"@,
                JsonView::Object(
                    seq![
                        ("input_tokens"@, int_json(token_estimate(d3_prompt_text()))),
                        ("output_tokens"@, int_json(token_estimate(content))),
                        ("model_used"@, str_json(model_id)),
                        ("latency_ms"@, int_json(latency_ms)),
                        ("finish_reason"@, str_json("stop"@)),
                    ],
                ),
            ),
        ],
    )
}

proof fn lemma_members_push(s: Seq<(String, JsonValue)>, x: (String, JsonValue))
    ensures
        members_view(s.push(x)) == members_view(s).push((x.0@, x.1@)),
{
    assert(s.push(x).drop_last() =~= s);
}

fn text_json(s: &str) -> (r: JsonValue)
    ensures
        r@ == str_json(s@),
{
    JsonValue::Str(owned(s))
}

fn int_value(n: i64) -> (r: JsonValue)
    ensures
        r@ == int_json(n as int),
{
    let mut t = String::new();
    push_signed_decimal(&mut t, n);
    JsonValue::Number(t)
}

/// Appends the member `key: value` to `members`.
fn add_member(members: &mut Vec<(String, JsonValue)>, key: &str, value: JsonValue)
    ensures
        members_view(final(members)@) == members_view(old(members)@).push((key@, value@)),
{
    let entry = (owned(key), value);
    proof {
        lemma_members_push(members@, entry);
    }
    members.push(entry);
}

/// The job result for the requester.
pub fn requester_result_payload(job_id: &str, content: &str, model_id: &str) -> (r: JsonValue)
    ensures
        r@ == requester_result_view(job_id@, content@, model_id@),
{
    let mut result: Vec<(String, JsonValue)> = Vec::new();
    add_member(&mut result, "content", text_json(content));
    add_member(&mut result, "model_used", text_json(model_id));
    add_member(&mut result, "finish_reason", text_json("stop"));
    let mut top: Vec<(String, JsonValue)> = Vec::new();
    add_member(&mut top, "type", text_json("success"));
    add_member(&mut top, "job_id", text_json(job_id));
    assert(members_view(result@) =~= seq![
        ("content"@, str_json(content@)),
        ("model_used"@, str_json(model_id@)),
        ("finish_reason"@, str_json("stop"@)),
    ]);
    let inner = JsonValue::Object(result);
    assert(inner@ == JsonView::Object(members_view(result@)));
    add_member(&mut top, "result", inner);
    assert(members_view(top@) =~= seq![
        ("type"@, str_json("success"@)),
        ("job_id"@, str_json(job_id@)),
        ("result"@, inner@),
    ]);
    let r = JsonValue::Object(top);
    r
}

/// The usage report for the settlement callback.
pub fn settlement_payload(job_id: &str, content: &str, model_id: &str, latency_ms: i64) -> (r: JsonValue)
    requires
        content@.len() <= i64::MAX,
    ensures
        r@ == settlement_view(job_id@, content@, model_id@, latency_ms as int),
{
    let prompt = d3_prompt();
    proof {
        reveal_strlit("Return exactly this sentence: D3 live compute settlement green.");
    }
    let input_tokens = estimate_tokens(prompt);
    let output_tokens = estimate_tokens(content);
    let mut result: Vec<(String, JsonValue)> = Vec::new();
    add_member(&mut result, "input_tokens", int_value(input_tokens));
    add_member(&mut result, "output_tokens", int_value(output_tokens));
    add_member(&mut result, "model_used", text_json(model_id));
    add_member(&mut result, "latency_ms", int_value(latency_ms));
    add_member(&mut result, "finish_reason", text_json("stop"));
    let mut top: Vec<(String, JsonValue)> = Vec::new();
    add_member(&mut top, "type", text_json("success"));
    add_member(&mut top, "job_id", text_json(job_id));
    assert(members_view(result@) =~= seq![
        ("input_tokens"@, int_json(token_estimate(d3_prompt_text()))),
        ("output_tokens"@, int_json(token_estimate(content@))),
        ("model_used"@, str_json(model_id@)),
        ("latency_ms"@, int_json(latency_ms as int)),
        ("finish_reason"@, str_json("stop"@)),
    ]);
    let inner = JsonValue::Object(result);
    assert(inner@ == JsonView::Object(members_view(result@)));
    add_member(&mut top, "result", inner);
    assert(members_view(top@) =~= seq![
        ("type"@, str_json("success"@)),
        ("job_id"@, str_json(job_id@)),
        ("result"@, inner@),
    ]);
    let r = JsonValue::Object(top);
    r
}

} // verus!
