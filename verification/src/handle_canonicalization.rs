//! Shaping of MCP tool responses around handle paths.
//!
//! A response is a JSON tree. In every object that carries a primary handle
//! (`handle_path`, `message_handle`, ...), the diagnostic identifiers beside
//! it (`id`, `agent_id`, `message_id`, ...) are dropped, unless the caller
//! asked for ids. Objects without a handle keep their identifiers, and the
//! event payloads of `wire_wait` pass through untouched.
use vstd::prelude::*;

use crate::text::str_eq;
use crate::v1::McpTool;

verus! {

/// Options for shaping a response.
#[derive(Clone, Copy, Debug, Default, PartialEq, Eq, Structural)]
pub struct HandleCanonicalizationOptions {
    /// Keep diagnostic identifiers beside handles.
    pub include_ids: bool,
}

/// A JSON value. Numbers keep their text; object members keep their order.
#[derive(Debug, PartialEq, Eq)]
pub enum JsonValue {
    Null,
    Bool(bool),
    Number(String),
    Str(String),
    Array(Vec<JsonValue>),
    Object(Vec<(String, JsonValue)>),
}

/// The mathematical form of a JSON value.
pub enum JsonView {
    Null,
    Bool(bool),
    Number(Seq<char>),
    Str(Seq<char>),
    Array(Seq<JsonView>),
    Object(Seq<(Seq<char>, JsonView)>),
}

pub open spec fn json_view(v: JsonValue) -> JsonView
    decreases v,
{
    match v {
        JsonValue::Null => JsonView::Null,
        JsonValue::Bool(b) => JsonView::Bool(b),
        JsonValue::Number(n) => JsonView::Number(n@),
        JsonValue::Str(s) => JsonView::Str(s@),
        JsonValue::Array(items) => JsonView::Array(items_view(items@)),
        JsonValue::Object(members) => JsonView::Object(members_view(members@)),
    }
}

pub open spec fn items_view(s: Seq<JsonValue>) -> Seq<JsonView>
    decreases s,
{
    if s.len() == 0 {
        Seq::empty()
    } else {
        items_view(s.drop_last()).push(json_view(s.last()))
    }
}

pub open spec fn members_view(s: Seq<(String, JsonValue)>) -> Seq<(Seq<char>, JsonView)>
    decreases s,
{
    if s.len() == 0 {
        Seq::empty()
    } else {
        members_view(s.drop_last()).push((s.last().0@, json_view(s.last().1)))
    }
}

impl View for JsonValue {
    type V = JsonView;

    open spec fn view(&self) -> JsonView {
        json_view(*self)
    }
}

/// The value of the first member named `key`.
pub open spec fn member_value(ms: Seq<(Seq<char>, JsonView)>, key: Seq<char>) -> Option<JsonView>
    decreases ms.len(),
{
    if ms.len() == 0 {
        None
    } else {
        match member_value(ms.drop_last(), key) {
            Some(x) => Some(x),
            None => if ms.last().0 == key {
                Some(ms.last().1)
            } else {
                None
            },
        }
    }
}

/// The value under `key` when `v` is an object that has such a member.
pub open spec fn lookup(v: JsonView, key: Seq<char>) -> Option<JsonView> {
    match v {
        JsonView::Object(ms) => member_value(ms, key),
        _ => None,
    }
}

impl JsonValue {
    /// The value of the first member named `key`, when `self` is an object.
    pub fn get(&self, key: &str) -> (r: Option<&JsonValue>)
        ensures
            match r {
                Some(x) => lookup(self@, key@) == Some(x@),
                None => lookup(self@, key@) is None,
            },
    {
        match self {
            JsonValue::Object(members) => {
                let mut i: usize = 0;
                while i < members.len()
                    invariant
                        *self == JsonValue::Object(*members),
                        i <= members.len(),
                        member_value(members_view(members@.subrange(0, i as int)), key@) is None,
                    decreases members.len() - i,
                {
                    let ghost pre = members@.subrange(0, i as int);
                    let ghost next = members@.subrange(0, i + 1);
                    proof {
                        assert(next.drop_last() =~= pre);
                        let x = (members@[i as int].0@, json_view(members@[i as int].1));
                        assert(members_view(next) == members_view(pre).push(x));
                        assert(members_view(pre).push(x).drop_last() =~= members_view(pre));
                    }
                    if str_eq(members[i].0.as_str(), key) {
                        proof {
                            let x = (members@[i as int].0@, json_view(members@[i as int].1));
                            assert(members_view(next).last() == x);
                            assert(member_value(members_view(next), key@) == Some(x.1));
                            lemma_member_value_prefix(members@, i + 1, key@);
                        }
                        return Some(&members[i].1);
                    }
                    i = i + 1;
                }
                assert(members@.subrange(0, members@.len() as int) =~= members@);
                None
            },
            _ => None,
        }
    }
}

/// Once a prefix of the members holds `key`, the whole object answers the
/// same.
proof fn lemma_member_value_prefix(s: Seq<(String, JsonValue)>, n: int, key: Seq<char>)
    requires
        0 <= n <= s.len(),
        member_value(members_view(s.subrange(0, n)), key) is Some,
    ensures
        member_value(members_view(s), key) == member_value(members_view(s.subrange(0, n)), key),
    decreases s.len() - n,
{
    if n < s.len() {
        let pre = s.subrange(0, n);
        let next = s.subrange(0, n + 1);
        assert(next.drop_last() =~= pre);
        let x = (s[n].0@, json_view(s[n].1));
        assert(members_view(next) == members_view(pre).push(x));
        assert(members_view(pre).push(x).drop_last() =~= members_view(pre));
        lemma_member_value_prefix(s, n + 1, key);
    } else {
        assert(s.subrange(0, n) =~= s);
    }
}

// ---------------------------------------------------------------------------
// What a response becomes.

/// Keys that name an object by its handle.
pub open spec fn is_primary_handle_key(k: Seq<char>) -> bool {
    ||| k == "handle_path"@
    ||| k == "message_handle"@
    ||| k == "operator_handle"@
    ||| k == "agent_handle"@
    ||| k == "handle"@
    ||| k == "from_handle"@
    ||| k == "to_handle"@
}

/// Keys that carry a diagnostic identifier.
pub open spec fn is_diagnostic_id_key(k: Seq<char>) -> bool {
    ||| k == "id"@
    ||| k == "agent_id"@
    ||| k == "pseudo_id"@
    ||| k == "pseudonym"@
    ||| k == "message_id"@
    ||| k == "contribution_id"@
    ||| k == "item_id"@
    ||| k == "operator_id"@
    ||| k == "from_id"@
    ||| k == "to_id"@
}

/// Some member of the object is a primary handle.
pub open spec fn has_primary_handle(ms: Seq<(Seq<char>, JsonView)>) -> bool {
    exists|i: int| 0 <= i < ms.len() && is_primary_handle_key(#[trigger] ms[i].0)
}

/// `v` with the diagnostic identifiers dropped from every object that has a
/// primary handle (none dropped when `include_ids`), at every depth.
pub open spec fn canonical(v: JsonView, include_ids: bool) -> JsonView
    decreases v,
{
    match v {
        JsonView::Array(items) => JsonView::Array(canonical_items(items, include_ids)),
        JsonView::Object(ms) => JsonView::Object(
            canonical_members(ms, has_primary_handle(ms) && !include_ids, include_ids),
        ),
        _ => v,
    }
}

pub open spec fn canonical_items(s: Seq<JsonView>, include_ids: bool) -> Seq<JsonView>
    decreases s,
{
    if s.len() == 0 {
        Seq::empty()
    } else {
        canonical_items(s.drop_last(), include_ids).push(canonical(s.last(), include_ids))
    }
}

/// The members of an object, each value shaped in turn; diagnostic ids are
/// left out when `drop_ids`.
pub open spec fn canonical_members(
    s: Seq<(Seq<char>, JsonView)>,
    drop_ids: bool,
    include_ids: bool,
) -> Seq<(Seq<char>, JsonView)>
    decreases s,
{
    if s.len() == 0 {
        Seq::empty()
    } else {
        let rest = canonical_members(s.drop_last(), drop_ids, include_ids);
        if drop_ids && is_diagnostic_id_key(s.last().0) {
            rest
        } else {
            rest.push((s.last().0, canonical(s.last().1, include_ids)))
        }
    }
}

/// The response a tool hands back: `wire_wait` events as they came, any
/// other response shaped around its handles.
pub open spec fn shaped_response(tool: McpTool, response: JsonView, include_ids: bool) -> JsonView {
    if tool == McpTool::WireWait {
        response
    } else {
        canonical(response, include_ids)
    }
}

// ---------------------------------------------------------------------------
// Views of vectors, element by element.

proof fn lemma_members_view(s: Seq<(String, JsonValue)>)
    ensures
        members_view(s).len() == s.len(),
        forall|j: int|
            0 <= j < s.len() ==> #[trigger] members_view(s)[j] == (s[j].0@, json_view(s[j].1)),
    decreases s.len(),
{
    if s.len() > 0 {
        lemma_members_view(s.drop_last());
    }
}

fn is_primary_handle_name(k: &str) -> (r: bool)
    ensures
        r == is_primary_handle_key(k@),
{
    str_eq(k, "handle_path") || str_eq(k, "message_handle") || str_eq(k, "operator_handle")
        || str_eq(k, "agent_handle") || str_eq(k, "handle") || str_eq(k, "from_handle")
        || str_eq(k, "to_handle")
}

fn is_diagnostic_id_name(k: &str) -> (r: bool)
    ensures
        r == is_diagnostic_id_key(k@),
{
    str_eq(k, "id") || str_eq(k, "agent_id") || str_eq(k, "pseudo_id") || str_eq(k, "pseudonym")
        || str_eq(k, "message_id") || str_eq(k, "contribution_id") || str_eq(k, "item_id")
        || str_eq(k, "operator_id") || str_eq(k, "from_id") || str_eq(k, "to_id")
}

fn object_has_primary_handle(members: &Vec<(String, JsonValue)>) -> (r: bool)
    ensures
        r == has_primary_handle(members_view(members@)),
{
    proof {
        lemma_members_view(members@);
    }
    let mut i: usize = 0;
    while i < members.len()
        invariant
            i <= members.len(),
            members_view(members@).len() == members@.len(),
            forall|j: int|
                0 <= j < members@.len() ==> #[trigger] members_view(members@)[j] == (
                    members@[j].0@,
                    json_view(members@[j].1),
                ),
            forall|j: int| 0 <= j < i ==> !is_primary_handle_key(#[trigger] members@[j].0@),
        decreases members.len() - i,
    {
        if is_primary_handle_name(members[i].0.as_str()) {
            assert(is_primary_handle_key(members_view(members@)[i as int].0));
            return true;
        }
        i = i + 1;
    }
    assert forall|j: int| 0 <= j < members_view(members@).len() implies !is_primary_handle_key(
        #[trigger] members_view(members@)[j].0,
    ) by {
        assert(members_view(members@)[j].0 == members@[j].0@);
    }
    false
}

/// Shapes `v` and everything below it.
pub fn canonicalize_value(v: &JsonValue, include_ids: bool) -> (r: JsonValue)
    ensures
        r@ == canonical(v@, include_ids),
    decreases v,
{
    match v {
        JsonValue::Null => JsonValue::Null,
        JsonValue::Bool(b) => JsonValue::Bool(*b),
        JsonValue::Number(n) => JsonValue::Number(n.clone()),
        JsonValue::Str(s) => JsonValue::Str(s.clone()),
        JsonValue::Array(items) => {
            let mut out: Vec<JsonValue> = Vec::new();
            let mut i: usize = 0;
            while i < items.len()
                invariant
                    *v == JsonValue::Array(*items),
                    i <= items.len(),
                    items_view(out@) == canonical_items(
                        items_view(items@.subrange(0, i as int)),
                        include_ids,
                    ),
                decreases items.len() - i,
            {
                proof {
                    assert(decreases_to!(*items => items[i as int]));
                    assert(decreases_to!(*v => v->Array_0));
                }
                let c = canonicalize_value(&items[i], include_ids);
                proof {
                    let pre = items@.subrange(0, i as int);
                    let next = items@.subrange(0, i + 1);
                    assert(next.drop_last() =~= pre);
                    assert(items_view(next) == items_view(pre).push(json_view(items@[i as int])));
                    let pv = items_view(pre);
                    assert(pv.push(json_view(items@[i as int])).drop_last() =~= pv);
                    assert(out@.push(c).drop_last() =~= out@);
                }
                out.push(c);
                i = i + 1;
            }
            assert(items@.subrange(0, items@.len() as int) =~= items@);
            JsonValue::Array(out)
        },
        JsonValue::Object(members) => {
            let drop_ids = !include_ids && object_has_primary_handle(members);
            let mut out: Vec<(String, JsonValue)> = Vec::new();
            let mut i: usize = 0;
            while i < members.len()
                invariant
                    *v == JsonValue::Object(*members),
                    i <= members.len(),
                    drop_ids == (has_primary_handle(members_view(members@)) && !include_ids),
                    members_view(out@) == canonical_members(
                        members_view(members@.subrange(0, i as int)),
                        drop_ids,
                        include_ids,
                    ),
                decreases members.len() - i,
            {
                let key = &members[i].0;
                let ghost pre = members@.subrange(0, i as int);
                let ghost next = members@.subrange(0, i + 1);
                proof {
                    assert(next.drop_last() =~= pre);
                    let pv = members_view(pre);
                    let x = (members@[i as int].0@, json_view(members@[i as int].1));
                    assert(members_view(next) == pv.push(x));
                    assert(pv.push(x).drop_last() =~= pv);
                }
                if drop_ids && is_diagnostic_id_name(key.as_str()) {
                } else {
                    proof {
                        assert(decreases_to!(*members => members[i as int]));
                        assert(decreases_to!(*v => v->Object_0));
                    }
                    let c = canonicalize_value(&members[i].1, include_ids);
                    let entry = (key.clone(), c);
                    proof {
                        assert(out@.push(entry).drop_last() =~= out@);
                    }
                    out.push(entry);
                }
                i = i + 1;
            }
            assert(members@.subrange(0, members@.len() as int) =~= members@);
            JsonValue::Object(out)
        },
    }
}

/// Shapes a tool's response: the event payloads of `wire_wait` are handed
/// back as they came; any other response loses, in each object that carries
/// a primary handle, its diagnostic identifiers, unless
/// `options.include_ids`.
pub fn canonicalize_mcp_response(
    tool: McpTool,
    response: JsonValue,
    options: HandleCanonicalizationOptions,
) -> (r: JsonValue)
    ensures
        r@ == shaped_response(tool, response@, options.include_ids),
{
    if tool == McpTool::WireWait {
        return response;
    }
    canonicalize_value(&response, options.include_ids)
}

// ---------------------------------------------------------------------------
// Laws of shaping.

/// No object that carries a primary handle holds a diagnostic id, at any
/// depth.
pub open spec fn ids_hidden(v: JsonView) -> bool
    decreases v,
{
    match v {
        JsonView::Array(items) => items_ids_hidden(items),
        JsonView::Object(ms) => {
            &&& has_primary_handle(ms) ==> no_diagnostic_ids(ms)
            &&& members_ids_hidden(ms)
        },
        _ => true,
    }
}

pub open spec fn no_diagnostic_ids(ms: Seq<(Seq<char>, JsonView)>) -> bool {
    forall|j: int| 0 <= j < ms.len() ==> !is_diagnostic_id_key(#[trigger] ms[j].0)
}

pub open spec fn items_ids_hidden(s: Seq<JsonView>) -> bool
    decreases s,
{
    s.len() == 0 || (items_ids_hidden(s.drop_last()) && ids_hidden(s.last()))
}

pub open spec fn members_ids_hidden(s: Seq<(Seq<char>, JsonView)>) -> bool
    decreases s,
{
    s.len() == 0 || (members_ids_hidden(s.drop_last()) && ids_hidden(s.last().1))
}

proof fn lemma_with_ids(v: JsonView)
    ensures
        canonical(v, true) == v,
    decreases v,
{
    match v {
        JsonView::Array(items) => lemma_with_ids_items(items),
        JsonView::Object(ms) => lemma_with_ids_members(ms),
        _ => {},
    }
}

proof fn lemma_with_ids_items(s: Seq<JsonView>)
    ensures
        canonical_items(s, true) == s,
    decreases s,
{
    if s.len() > 0 {
        lemma_with_ids_items(s.drop_last());
        lemma_with_ids(s.last());
        assert(s.drop_last().push(s.last()) =~= s);
    }
}

proof fn lemma_with_ids_members(s: Seq<(Seq<char>, JsonView)>)
    ensures
        canonical_members(s, false, true) == s,
    decreases s,
{
    if s.len() > 0 {
        lemma_with_ids_members(s.drop_last());
        lemma_with_ids(s.last().1);
        assert(s.drop_last().push((s.last().0, s.last().1)) =~= s);
    }
}

proof fn lemma_hidden(v: JsonView)
    ensures
        ids_hidden(canonical(v, false)),
    decreases v,
{
    match v {
        JsonView::Array(items) => lemma_hidden_items(items),
        JsonView::Object(ms) => {
            let d = has_primary_handle(ms);
            let cm = canonical_members(ms, d, false);
            lemma_hidden_members(ms, d);
            if has_primary_handle(cm) {
                let j = choose|j: int| 0 <= j < cm.len() && is_primary_handle_key(#[trigger] cm[j].0);
                let i = choose|i: int| 0 <= i < ms.len() && #[trigger] ms[i].0 == cm[j].0;
                assert(is_primary_handle_key(ms[i].0));
            }
        },
        _ => {},
    }
}

proof fn lemma_hidden_items(s: Seq<JsonView>)
    ensures
        items_ids_hidden(canonical_items(s, false)),
    decreases s,
{
    if s.len() > 0 {
        lemma_hidden_items(s.drop_last());
        lemma_hidden(s.last());
        let c = canonical_items(s.drop_last(), false);
        assert(c.push(canonical(s.last(), false)).drop_last() =~= c);
    }
}

/// Shaped members hide their ids at every depth; with `drop_ids` no
/// diagnostic id is left; and every key kept was a key of the input.
proof fn lemma_hidden_members(s: Seq<(Seq<char>, JsonView)>, drop_ids: bool)
    ensures
        members_ids_hidden(canonical_members(s, drop_ids, false)),
        drop_ids ==> no_diagnostic_ids(canonical_members(s, drop_ids, false)),
        forall|j: int|
            0 <= j < canonical_members(s, drop_ids, false).len() ==> exists|i: int|
                0 <= i < s.len() && #[trigger] s[i].0 == #[trigger] canonical_members(
                    s,
                    drop_ids,
                    false,
                )[j].0,
    decreases s,
{
    if s.len() > 0 {
        let pre = s.drop_last();
        lemma_hidden_members(pre, drop_ids);
        let rest = canonical_members(pre, drop_ids, false);
        let cm = canonical_members(s, drop_ids, false);
        if !(drop_ids && is_diagnostic_id_key(s.last().0)) {
            lemma_hidden(s.last().1);
            let x = (s.last().0, canonical(s.last().1, false));
            assert(cm == rest.push(x));
            assert(rest.push(x).drop_last() =~= rest);
            assert forall|j: int| 0 <= j < cm.len() implies exists|i: int|
                0 <= i < s.len() && #[trigger] s[i].0 == #[trigger] cm[j].0 by {
                if j < rest.len() {
                    let i = choose|i: int| 0 <= i < pre.len() && #[trigger] pre[i].0 == rest[j].0;
                    assert(s[i].0 == cm[j].0);
                } else {
                    assert(s[s.len() - 1].0 == cm[j].0);
                }
            }
        } else {
            assert forall|j: int| 0 <= j < cm.len() implies exists|i: int|
                0 <= i < s.len() && #[trigger] s[i].0 == #[trigger] cm[j].0 by {
                let i = choose|i: int| 0 <= i < pre.len() && #[trigger] pre[i].0 == rest[j].0;
                assert(s[i].0 == cm[j].0);
            }
        }
    }
}

proof fn lemma_fixed_point(v: JsonView)
    requires
        ids_hidden(v),
    ensures
        canonical(v, false) == v,
    decreases v,
{
    match v {
        JsonView::Array(items) => lemma_fixed_items(items),
        JsonView::Object(ms) => lemma_fixed_members(ms, has_primary_handle(ms)),
        _ => {},
    }
}

proof fn lemma_fixed_items(s: Seq<JsonView>)
    requires
        items_ids_hidden(s),
    ensures
        canonical_items(s, false) == s,
    decreases s,
{
    if s.len() > 0 {
        lemma_fixed_items(s.drop_last());
        lemma_fixed_point(s.last());
        assert(s.drop_last().push(s.last()) =~= s);
    }
}

proof fn lemma_fixed_members(s: Seq<(Seq<char>, JsonView)>, drop_ids: bool)
    requires
        members_ids_hidden(s),
        drop_ids ==> no_diagnostic_ids(s),
    ensures
        canonical_members(s, drop_ids, false) == s,
    decreases s,
{
    if s.len() > 0 {
        let pre = s.drop_last();
        assert(drop_ids ==> no_diagnostic_ids(pre)) by {
            if drop_ids {
                assert forall|j: int| 0 <= j < pre.len() implies !is_diagnostic_id_key(
                    #[trigger] pre[j].0,
                ) by {
                    assert(pre[j] == s[j]);
                }
            }
        }
        lemma_fixed_members(pre, drop_ids);
        lemma_fixed_point(s.last().1);
        if drop_ids {
            assert(!is_diagnostic_id_key(s[s.len() - 1].0));
        }
        assert(pre.push((s.last().0, s.last().1)) =~= s);
    }
}

/// With `include_ids`, a response comes back exactly as it was.
pub proof fn include_ids_keeps_response(v: JsonView)
    ensures
        canonical(v, true) == v,
{
    lemma_with_ids(v);
}

/// Without `include_ids`, no object of the shaped response that carries a
/// primary handle holds a diagnostic id, at any depth.
pub proof fn shaped_response_hides_ids(v: JsonView)
    ensures
        ids_hidden(canonical(v, false)),
{
    lemma_hidden(v);
}

/// Shaping a shaped response changes nothing.
pub proof fn shaping_is_idempotent(v: JsonView, include_ids: bool)
    ensures
        canonical(canonical(v, include_ids), include_ids) == canonical(v, include_ids),
{
    if include_ids {
        lemma_with_ids(v);
        lemma_with_ids(canonical(v, true));
    } else {
        lemma_hidden(v);
        lemma_fixed_point(canonical(v, false));
    }
}

/// Some member of the object is named `k`.
pub open spec fn has_key(ms: Seq<(Seq<char>, JsonView)>, k: Seq<char>) -> bool {
    exists|i: int| 0 <= i < ms.len() && #[trigger] ms[i].0 == k
}

proof fn lemma_member_keys(s: Seq<(Seq<char>, JsonView)>, drop_ids: bool, include_ids: bool, k: Seq<char>)
    ensures
        has_key(canonical_members(s, drop_ids, include_ids), k) <==> (has_key(s, k) && !(drop_ids
            && is_diagnostic_id_key(k))),
    decreases s.len(),
{
    if s.len() > 0 {
        let pre = s.drop_last();
        lemma_member_keys(pre, drop_ids, include_ids, k);
        let rest = canonical_members(pre, drop_ids, include_ids);
        let cm = canonical_members(s, drop_ids, include_ids);
        if has_key(s, k) && !(drop_ids && is_diagnostic_id_key(k)) {
            let i = choose|i: int| 0 <= i < s.len() && #[trigger] s[i].0 == k;
            if i < pre.len() {
                assert(pre[i].0 == k);
                let m = choose|m: int| 0 <= m < rest.len() && #[trigger] rest[m].0 == k;
                assert(cm[m] == rest[m]);
            } else {
                assert(cm.last().0 == k);
                assert(cm[cm.len() - 1].0 == k);
            }
        }
        if has_key(cm, k) {
            let m = choose|m: int| 0 <= m < cm.len() && #[trigger] cm[m].0 == k;
            if m < rest.len() {
                assert(rest[m].0 == k);
                let i = choose|i: int| 0 <= i < pre.len() && #[trigger] pre[i].0 == k;
                assert(s[i].0 == k);
            } else {
                assert(s[s.len() - 1].0 == k);
            }
        }
    }
}

/// Shaping drops nothing but diagnostic ids, and those only from an object
/// that carries a primary handle (and only without `include_ids`): a member
/// of an object survives shaping exactly when it is not such an id.
pub proof fn shaping_drops_only_ids_beside_handles(
    members: Seq<(Seq<char>, JsonView)>,
    include_ids: bool,
    k: Seq<char>,
)
    ensures
        canonical(JsonView::Object(members), include_ids) matches JsonView::Object(out) && (has_key(out, k)
            <==> (has_key(members, k) && !(has_primary_handle(members) && !include_ids
            && is_diagnostic_id_key(k)))),
{
    lemma_member_keys(members, has_primary_handle(members) && !include_ids, include_ids, k);
}

} // verus!
