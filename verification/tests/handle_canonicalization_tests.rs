use wire_substrate::handle_canonicalization::{
    canonicalize_mcp_response, canonicalize_value, HandleCanonicalizationOptions, JsonValue,
};
use wire_substrate::v1::McpTool;

fn s(text: &str) -> JsonValue {
    JsonValue::Str(text.to_owned())
}

fn obj(members: Vec<(&str, JsonValue)>) -> JsonValue {
    JsonValue::Object(
        members
            .into_iter()
            .map(|(k, v)| (k.to_owned(), v))
            .collect(),
    )
}

fn field<'a>(value: &'a JsonValue, key: &str) -> &'a JsonValue {
    value.get(key).expect("member present")
}

fn wait_payload() -> JsonValue {
    obj(vec![
        (
            "events",
            JsonValue::Array(vec![obj(vec![
                ("id", s("14690")),
                ("message_id", s("d0d1d2d3-0000-4000-8000-000000000005")),
                ("message_handle", s("msg/kramer/2026-05-09/dm-456def")),
            ])]),
        ),
        ("next_cursor", s("wv1.cursor")),
    ])
}

#[test]
fn contribution_responses_default_to_handle_paths() {
    let shaped = canonicalize_mcp_response(
        McpTool::WireContribute,
        obj(vec![
            ("id", s("d0d1d2d3-0000-4000-8000-000000000001")),
            ("handle_path", s("agent/playful/kramer/contributions/hello")),
            (
                "contribution",
                obj(vec![
                    ("id", s("d0d1d2d3-0000-4000-8000-000000000002")),
                    ("agent_id", s("wire_agent_f50af3f9")),
                    ("handle_path", s("agent/playful/kramer/contributions/hello")),
                    ("title", s("hello")),
                ]),
            ),
        ]),
        HandleCanonicalizationOptions::default(),
    );

    assert_eq!(
        field(&shaped, "handle_path"),
        &s("agent/playful/kramer/contributions/hello")
    );
    assert!(shaped.get("id").is_none());
    assert!(field(&shaped, "contribution").get("id").is_none());
    assert!(field(&shaped, "contribution").get("agent_id").is_none());
    assert_eq!(field(field(&shaped, "contribution"), "title"), &s("hello"));
}

#[test]
fn include_ids_preserves_diagnostic_identifiers() {
    let shaped = canonicalize_mcp_response(
        McpTool::WireInspect,
        obj(vec![
            ("id", s("d0d1d2d3-0000-4000-8000-000000000003")),
            ("handle_path", s("agent/playful/kramer/contributions/inspect-me")),
        ]),
        HandleCanonicalizationOptions { include_ids: true },
    );

    assert_eq!(
        field(&shaped, "handle_path"),
        &s("agent/playful/kramer/contributions/inspect-me")
    );
    assert_eq!(
        field(&shaped, "id"),
        &s("d0d1d2d3-0000-4000-8000-000000000003")
    );
}

#[test]
fn message_responses_default_to_message_handles() {
    let shaped = canonicalize_mcp_response(
        McpTool::WireMessages,
        obj(vec![(
            "message",
            obj(vec![
                ("id", s("d0d1d2d3-0000-4000-8000-000000000004")),
                ("message_id", s("d0d1d2d3-0000-4000-8000-000000000004")),
                ("message_handle", s("msg/kramer/2026-05-09/dm-123abc")),
                ("from_id", s("wire_agent_partner")),
                ("from_handle", s("agent/playful/partner-orchestrator")),
                ("to_id", s("wire_agent_f50af3f9")),
                ("to_handle", s("agent/playful/codex-kramer")),
            ]),
        )]),
        HandleCanonicalizationOptions::default(),
    );

    let message = field(&shaped, "message");
    assert_eq!(
        field(message, "message_handle"),
        &s("msg/kramer/2026-05-09/dm-123abc")
    );
    assert_eq!(
        field(message, "from_handle"),
        &s("agent/playful/partner-orchestrator")
    );
    assert_eq!(field(message, "to_handle"), &s("agent/playful/codex-kramer"));
    assert!(message.get("id").is_none());
    assert!(message.get("message_id").is_none());
    assert!(message.get("from_id").is_none());
    assert!(message.get("to_id").is_none());
}

#[test]
fn wire_wait_event_payloads_are_not_rewritten() {
    assert_eq!(
        canonicalize_mcp_response(
            McpTool::WireWait,
            wait_payload(),
            HandleCanonicalizationOptions::default()
        ),
        wait_payload()
    );
}

#[test]
fn objects_without_handle_context_keep_identifiers() {
    let shaped = canonicalize_mcp_response(
        McpTool::WireStatus,
        obj(vec![(
            "cursor",
            obj(vec![("id", s("14691")), ("next", s("wv1.cursor"))]),
        )]),
        HandleCanonicalizationOptions::default(),
    );

    assert_eq!(field(field(&shaped, "cursor"), "id"), &s("14691"));
}

#[test]
fn wait_payload_shaped_as_another_tool_loses_event_ids() {
    let shaped = canonicalize_mcp_response(
        McpTool::WireStatus,
        wait_payload(),
        HandleCanonicalizationOptions::default(),
    );
    let expected = obj(vec![
        (
            "events",
            JsonValue::Array(vec![obj(vec![(
                "message_handle",
                s("msg/kramer/2026-05-09/dm-456def"),
            )])]),
        ),
        ("next_cursor", s("wv1.cursor")),
    ]);
    assert_eq!(shaped, expected);
}

#[test]
fn shaping_twice_equals_shaping_once() {
    let once = canonicalize_value(&wait_payload(), false);
    let twice = canonicalize_value(&once, false);
    assert_eq!(once, twice);
}

#[test]
fn include_ids_returns_response_unchanged() {
    let payload = obj(vec![
        ("id", s("7")),
        ("handle", s("agent/playful/kramer")),
        ("count", JsonValue::Number("3".to_owned())),
        ("ok", JsonValue::Bool(true)),
        ("none", JsonValue::Null),
    ]);
    let shaped = canonicalize_value(&payload, true);
    assert_eq!(shaped, payload);
}

#[test]
fn scalars_and_arrays_keep_their_values() {
    let payload = JsonValue::Array(vec![
        JsonValue::Number("1.5".to_owned()),
        s("id"),
        JsonValue::Null,
    ]);
    let shaped = canonicalize_value(&payload, false);
    assert_eq!(shaped, payload);
}

#[test]
fn get_returns_first_member_with_the_key() {
    let value = obj(vec![("a", s("first")), ("a", s("second"))]);
    assert_eq!(value.get("a"), Some(&s("first")));
    assert!(value.get("b").is_none());
    assert!(s("a").get("a").is_none());
}
