use wire_substrate::d3_dispatch::{
    d3_prompt, json_as_u64, parse_d3_dispatch, requester_result_payload, settlement_payload,
};
use wire_substrate::handle_canonicalization::JsonValue;

fn s(text: &str) -> JsonValue {
    JsonValue::Str(text.to_owned())
}

fn n(text: &str) -> JsonValue {
    JsonValue::Number(text.to_owned())
}

fn obj(members: Vec<(&str, JsonValue)>) -> JsonValue {
    JsonValue::Object(
        members
            .into_iter()
            .map(|(k, v)| (k.to_owned(), v))
            .collect(),
    )
}

fn messages() -> JsonValue {
    JsonValue::Array(vec![obj(vec![("role", s("user")), ("content", s(d3_prompt()))])])
}

fn dispatch(max_tokens: Option<JsonValue>) -> JsonValue {
    let mut members = vec![
        ("job_id", s("job-1")),
        ("model_id", s("model-a")),
        ("callback_url", s("https://market.test/settle")),
        ("callback_auth", obj(vec![("token", s("cb-token"))])),
        ("requester_callback_url", s("https://requester.test/result")),
        ("requester_delivery_jwt", s("jwt-1")),
        ("messages", messages()),
    ];
    if let Some(v) = max_tokens {
        members.push(("max_tokens", v));
    }
    obj(members)
}

fn without(value: JsonValue, key: &str) -> JsonValue {
    match value {
        JsonValue::Object(members) => JsonValue::Object(members.into_iter().filter(|(k, _)| k != key).collect()),
        other => other,
    }
}

#[test]
fn reads_every_dispatch_field() {
    let d = parse_d3_dispatch(&dispatch(None), 256).expect("dispatch parses");
    assert_eq!(d.job_id, "job-1");
    assert_eq!(d.model_id, "model-a");
    assert_eq!(d.callback_url, "https://market.test/settle");
    assert_eq!(d.callback_token, "cb-token");
    assert_eq!(d.requester_callback_url, "https://requester.test/result");
    assert_eq!(d.requester_delivery_jwt, "jwt-1");
    assert_eq!(d.messages, messages());
    assert_eq!(d.max_tokens, 256);
}

#[test]
fn max_tokens_comes_from_the_dispatch_when_it_is_an_unsigned_integer() {
    assert_eq!(parse_d3_dispatch(&dispatch(Some(n("64"))), 256).unwrap().max_tokens, 64);
    assert_eq!(parse_d3_dispatch(&dispatch(Some(n("1.5"))), 256).unwrap().max_tokens, 256);
    assert_eq!(parse_d3_dispatch(&dispatch(Some(n("-3"))), 256).unwrap().max_tokens, 256);
    assert_eq!(parse_d3_dispatch(&dispatch(Some(s("64"))), 256).unwrap().max_tokens, 256);
}

#[test]
fn json_numbers_read_as_u64_only_when_they_fit() {
    assert_eq!(json_as_u64(&n("18446744073709551615")), Some(u64::MAX));
    assert_eq!(json_as_u64(&n("18446744073709551616")), None);
    assert_eq!(json_as_u64(&n("0")), Some(0));
    assert_eq!(json_as_u64(&n("")), None);
    assert_eq!(json_as_u64(&n("1e3")), None);
    assert_eq!(json_as_u64(&s("7")), None);
}

#[test]
fn a_dispatch_missing_a_field_is_refused_with_its_name() {
    let cases = [
        ("job_id", "dispatch missing job_id"),
        ("model_id", "dispatch missing model_id"),
        ("callback_url", "dispatch missing callback_url"),
        ("callback_auth", "dispatch missing callback_auth.token"),
        ("requester_callback_url", "dispatch missing requester_callback_url"),
        ("requester_delivery_jwt", "dispatch missing requester_delivery_jwt"),
        ("messages", "dispatch missing messages"),
    ];
    for (key, error) in cases {
        assert_eq!(parse_d3_dispatch(&without(dispatch(None), key), 256).err().as_deref(), Some(error));
    }
}

#[test]
fn a_dispatch_field_that_is_not_a_string_counts_as_missing() {
    let mut d = without(dispatch(None), "job_id");
    if let JsonValue::Object(members) = &mut d {
        members.insert(0, ("job_id".to_owned(), n("17")));
    }
    assert_eq!(parse_d3_dispatch(&d, 256).err().as_deref(), Some("dispatch missing job_id"));

    let mut d = without(dispatch(None), "callback_auth");
    if let JsonValue::Object(members) = &mut d {
        members.push(("callback_auth".to_owned(), obj(vec![("bearer", s("cb-token"))])));
    }
    assert_eq!(
        parse_d3_dispatch(&d, 256).err().as_deref(),
        Some("dispatch missing callback_auth.token")
    );
}

#[test]
fn the_requester_result_carries_the_completion() {
    let payload = requester_result_payload("job-1", "D3 live compute settlement green.", "model-a");
    assert_eq!(
        payload,
        obj(vec![
            ("type", s("success")),
            ("job_id", s("job-1")),
            (
                "result",
                obj(vec![
                    ("content", s("D3 live compute settlement green.")),
                    ("model_used", s("model-a")),
                    ("finish_reason", s("stop")),
                ]),
            ),
        ])
    );
}

#[test]
fn the_settlement_carries_estimated_usage_and_latency() {
    // The prompt has 63 characters (15 tokens); the completion 33 (8 tokens).
    let payload = settlement_payload("job-1", "D3 live compute settlement green.", "model-a", 1234);
    assert_eq!(
        payload,
        obj(vec![
            ("type", s("success")),
            ("job_id", s("job-1")),
            (
                "result",
                obj(vec![
                    ("input_tokens", n("15")),
                    ("output_tokens", n("8")),
                    ("model_used", s("model-a")),
                    ("latency_ms", n("1234")),
                    ("finish_reason", s("stop")),
                ]),
            ),
        ])
    );
    let empty = settlement_payload("job-2", "", "model-a", 0);
    let JsonValue::Object(members) = empty else { panic!("object") };
    let JsonValue::Object(result) = &members[2].1 else { panic!("object") };
    assert_eq!(result[1], ("output_tokens".to_owned(), n("1")));
    assert_eq!(result[3], ("latency_ms".to_owned(), n("0")));
}
