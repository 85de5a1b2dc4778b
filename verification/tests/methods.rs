//! What clients ask of the gateway, and how it answers.

use frankclaw::config::{FrankClawConfig, RawMapping, WebhookMapping};
use frankclaw::error::FrankClawError;
use frankclaw::gateway::canvas::{CanvasBlock, CanvasBlockKind, CanvasStore};
use frankclaw::gateway::chat::{ChatResponse, StreamDelta};
use frankclaw::gateway::cron::validate_cron_job;
use frankclaw::gateway::methods::{
    canvas_clear, canvas_export, canvas_export_checked, canvas_get, canvas_patch, canvas_set,
    chat_cancel, chat_cancel_done, chat_delta, chat_send, chat_send_done, cron_add, document_value,
    merge_metadata, parse_session_key_param, sanitize_canvas_export_name, sessions_delete, sessions_get,
    sessions_list, sessions_patch, sessions_reset, tool_approval_done, tool_approval_requested,
    tool_approval_resolve, usage_get_done, webhooks_test, webhooks_test_done, ApprovalOutcome,
    SessionUsage,
};
use frankclaw::gateway::protocol::{EventType, Reply, RequestFrame, ResponseFrame};
use frankclaw::gateway::webhooks::{execute_request, resolve_request};
use frankclaw::json::{JsonNumber, JsonValue};
use frankclaw::types::{RequestId, SessionKey, Timestamp};

const NOW: Timestamp = Timestamp {
    secs: 1_710_000_000,
    nanos: 0,
};

fn json_value(value: &serde_json::Value) -> JsonValue {
    match value {
        serde_json::Value::Null => JsonValue::Null,
        serde_json::Value::Bool(b) => JsonValue::Bool(*b),
        serde_json::Value::Number(n) => {
            if let Some(n) = n.as_u64() {
                JsonValue::Number(JsonNumber::Unsigned(n))
            } else if let Some(n) = n.as_i64() {
                JsonValue::Number(JsonNumber::Negative(n))
            } else {
                JsonValue::Number(JsonNumber::Literal(n.to_string()))
            }
        }
        serde_json::Value::String(s) => JsonValue::Text(s.clone()),
        serde_json::Value::Array(items) => JsonValue::Array(items.iter().map(json_value).collect()),
        serde_json::Value::Object(members) => JsonValue::Object(
            members
                .iter()
                .map(|(key, value)| (key.clone(), json_value(value)))
                .collect(),
        ),
    }
}

fn json(text: &str) -> JsonValue {
    json_value(&serde_json::from_str(text).expect("test JSON should parse"))
}

fn request(id: &str, params: &str) -> RequestFrame {
    RequestFrame {
        id: RequestId::Text(id.into()),
        params: json(params),
    }
}

fn result(response: ResponseFrame) -> JsonValue {
    match response.reply {
        Reply::Done(value) => value,
        other => panic!("expected a result, got {other:?}"),
    }
}

fn refusal(response: ResponseFrame) -> u16 {
    match response.reply {
        Reply::Refused { code, .. } => code,
        other => panic!("expected a refusal, got {other:?}"),
    }
}

fn answer(content: &str, session: &str) -> ChatResponse {
    ChatResponse {
        session_key: SessionKey::from_raw(session),
        model_id: "mock-model".into(),
        content: content.into(),
        usage: json(r#"{ "input_tokens": 1, "output_tokens": 2 }"#),
    }
}

#[test]
fn sessions_get_returns_session_entry() {
    let key = "agent:main:web:default:user-1";
    let request = request("1", &format!(r#"{{ "session_key": "{key}" }}"#));
    let session_key = parse_session_key_param(&request).expect("key");
    assert_eq!(session_key.as_str(), key);
    let response = sessions_get(
        &request.id,
        Ok(Some(json(&format!(r#"{{ "key": "{key}" }}"#)))),
    );
    assert_eq!(result(response).get_str_at("session", "key"), Some(key));
    assert_eq!(refusal(sessions_get(&request.id, Ok(None))), 404);
}

#[test]
fn sessions_reset_clears_transcript_entries() {
    let key = SessionKey::from_raw("agent:main:web:default:user-1");
    let (response, event) = sessions_reset(&RequestId::Text("1".into()), &key, Ok(()));
    assert_eq!(result(response).get_str("status"), Some("reset"));
    let event = event.expect("event");
    assert_eq!(event.event, EventType::SessionUpdated);
    assert_eq!(event.payload.get_str("action"), Some("reset"));
}

#[test]
fn chat_send_streams_delta_events_to_requesting_client() {
    let request = request("stream-1", r#"{ "message": "hello", "stream": true }"#);
    let send = chat_send(&request, 1000).expect("turn");
    assert_eq!(send.chat.message, "hello");
    assert!(send.stream);
    for (delta, kind, text) in [
        (StreamDelta::Text("hello ".into()), "text", Some("hello ")),
        (StreamDelta::Text("world".into()), "text", Some("world")),
        (StreamDelta::Done { usage: JsonValue::Null }, "done", None),
    ] {
        let event = chat_delta(&request.id, delta);
        assert_eq!(event.event, EventType::ChatDelta);
        assert_eq!(event.payload.get_str("request_id"), Some("stream-1"));
        assert_eq!(event.payload.get_str("kind"), Some(kind));
        if let Some(text) = text {
            assert_eq!(event.payload.get_str("delta"), Some(text));
        }
    }
    let (response, event) = chat_send_done(&request.id, Ok(answer("hello world", "a:b:c")), "");
    assert_eq!(result(response).get_str("content"), Some("hello world"));
    assert_eq!(event.event, EventType::ChatComplete);
}

#[test]
fn chat_send_refuses_empty_and_long_messages() {
    let empty = chat_send(&request("1", r#"{ "message": " " }"#), 1000);
    assert!(empty.is_err());
    let long = chat_send(&request("1", r#"{ "message": "hello" }"#), 4);
    assert!(long.is_err());
    let (response, event) =
        chat_send_done(&RequestId::Number(7), Err(FrankClawError::TurnCancelled), "cancelled");
    assert!(matches!(
        response.reply,
        Reply::Failed {
            status: Some(499),
            ..
        }
    ));
    assert_eq!(event.event, EventType::ChatAborted);
}

#[test]
fn webhooks_test_executes_runtime_chat() {
    let mut config = FrankClawConfig::default();
    config.hooks.enabled = true;
    config.hooks.token = Some("secret".into());
    config.hooks.mappings = vec![RawMapping::Mapping(WebhookMapping {
        id: "incoming".into(),
        session_key: Some(SessionKey::from_raw("default:web:hook-control")),
        ..WebhookMapping::default()
    })];
    let request = request(
        "1",
        r#"{ "mapping_id": "incoming", "payload": { "message": "hello from hook" } }"#,
    );
    let (mapping_id, payload) = webhooks_test(&request).expect("asked");
    let resolved = resolve_request(&config, mapping_id, payload).expect("resolved");
    let chat = execute_request(resolved);
    assert_eq!(chat.message, "hello from hook");
    assert_eq!(
        chat.session_key.expect("session").as_str(),
        "default:web:hook-control"
    );
    let response = webhooks_test_done(
        &request.id,
        Ok(answer("mock reply", "default:web:hook-control")),
    );
    assert_eq!(result(response).get_str("content"), Some("mock reply"));
}

#[test]
fn canvas_set_and_clear_roundtrip() {
    let mut store = CanvasStore::new();
    let set = canvas_set(
        &mut store,
        &request(
            "1",
            r#"{ "canvas_id": "ops", "title": "Ops", "body": "Current deployment summary",
                 "session_key": "default:web:control" }"#,
        ),
        Some(vec![CanvasBlock {
            kind: CanvasBlockKind::Note,
            text: "deploy window open".into(),
            meta: None,
        }]),
        NOW,
    );
    let _ = result(set.0);
    assert_eq!(store.get("ops").expect("canvas should exist").title, "Ops");
    assert_eq!(store.get("ops").expect("canvas should exist").blocks.len(), 1);

    let got = result(canvas_get(&store, &request("2", r#"{ "canvas_id": "ops" }"#)));
    let canvas = got.get("canvas").expect("canvas");
    assert_eq!(canvas.get_str("body"), Some("Current deployment summary"));
    assert_eq!(canvas.get_u64("revision"), Some(1));

    let export = result(canvas_export(
        &store,
        &request("export", r#"{ "canvas_id": "ops", "format": "markdown" }"#),
        "",
    ));
    assert_eq!(export.get_str("filename"), Some("ops.md"));
    assert!(export
        .get_str("content")
        .expect("export should include markdown content")
        .contains("Current deployment summary"));

    let patch = canvas_patch(
        &mut store,
        &request("3", r###"{ "canvas_id": "ops", "append_blocks": [{ "kind": "markdown", "text": "## Next steps" }] }"###),
        Some(vec![CanvasBlock {
            kind: CanvasBlockKind::Markdown,
            text: "## Next steps".into(),
            meta: None,
        }]),
        NOW,
    );
    let _ = result(patch.0);
    assert_eq!(store.get("ops").expect("canvas should exist").blocks.len(), 2);

    let stale = canvas_patch(
        &mut store,
        &request("3b", r#"{ "canvas_id": "ops", "title": "x", "expected_revision": 1 }"#),
        Some(Vec::new()),
        NOW,
    );
    assert_eq!(refusal(stale.0), 409);
    let malformed = canvas_patch(
        &mut store,
        &request("3c", r#"{ "canvas_id": "ops", "append_blocks": 7 }"#),
        None,
        NOW,
    );
    assert_eq!(refusal(malformed.0), 400);

    let cleared = canvas_clear(&mut store, &request("4", r#"{ "canvas_id": "ops" }"#));
    let _ = result(cleared.0);
    assert!(store.get("ops").is_none());
}

#[test]
fn chat_cancel_stops_active_run() {
    let request = request("cancel-1", r#"{ "request_id": "req-42" }"#);
    let run = chat_cancel(&request).expect("run");
    assert_eq!(run, "req-42");
    let response = chat_cancel_done(&request.id, &run, true);
    assert_eq!(result(response).get_str("status"), Some("cancelled"));
}

#[test]
fn chat_cancel_returns_404_for_unknown_run() {
    let request = request("cancel-2", r#"{ "request_id": "nonexistent" }"#);
    let run = chat_cancel(&request).expect("run");
    assert_eq!(refusal(chat_cancel_done(&request.id, &run, false)), 404);
}

#[test]
fn chat_cancel_requires_request_id() {
    let refused = chat_cancel(&request("cancel-3", "{}")).expect_err("no run");
    assert_eq!(refusal(refused), 400);
}

#[test]
fn sessions_delete_removes_session() {
    let key = SessionKey::from_raw("agent:main:web:default:user-del");
    let (response, event) = sessions_delete(&RequestId::Text("del-1".into()), &key, Ok(()));
    assert_eq!(result(response).get_str("status"), Some("deleted"));
    assert!(event.is_some());
}

#[test]
fn sessions_delete_requires_session_key() {
    let refused = parse_session_key_param(&request("del-2", "{}")).expect_err("no key");
    assert_eq!(refusal(refused), 400);
}

#[test]
fn sessions_patch_updates_metadata() {
    let request = request(
        "patch-1",
        r#"{ "session_key": "agent:main:web:default:user-patch",
             "patch": { "label": "new", "extra": 42 } }"#,
    );
    let updated = sessions_patch(&request, Ok(Some(json(r#"{ "label": "old", "kept": true }"#))))
        .expect("patched");
    assert_eq!(updated.get_str("label"), Some("new"));
    assert_eq!(updated.get_u64("extra"), Some(42));
    assert_eq!(updated.get_bool("kept"), Some(true));
    let replaced = merge_metadata(JsonValue::Null, &json(r#"{ "a": 1 }"#));
    assert_eq!(replaced.get_u64("a"), Some(1));
}

#[test]
fn sessions_patch_returns_404_for_missing_session() {
    let request = request(
        "patch-2",
        r#"{ "session_key": "nonexistent:session", "patch": { "label": "test" } }"#,
    );
    let refused = sessions_patch(&request, Ok(None)).expect_err("no session");
    assert_eq!(refusal(refused), 404);
}

#[test]
fn usage_get_returns_session_usage() {
    let usage = SessionUsage {
        key: SessionKey::from_raw("agent:main:web:default:user-usage"),
        channel: "web".into(),
        created_at: JsonValue::Null,
        last_message_at: JsonValue::Null,
        metadata: json(
            r#"{ "total_input_tokens": 100, "total_output_tokens": 50, "total_turns": 3,
                 "last_model": "gpt-4o" }"#,
        ),
        cost_usd: JsonValue::Number(JsonNumber::Literal("0.0025".into())),
    };
    let response = usage_get_done(
        &RequestId::Text("usage-1".into()),
        &vec![usage],
        JsonValue::Number(JsonNumber::Literal("0.0025".into())),
    );
    let value = result(response);
    let totals = value.get("totals").expect("totals");
    assert_eq!(totals.get_u64("input_tokens"), Some(100));
    assert_eq!(totals.get_u64("output_tokens"), Some(50));
    assert_eq!(totals.get_u64("turns"), Some(3));
    assert_eq!(value.get_u64("count"), Some(1));
}

#[test]
fn pages_have_defaults() {
    let page = sessions_list(&request("1", "{}"));
    assert_eq!(page.agent_id.as_str(), "default");
    assert_eq!(page.limit, 50);
    assert_eq!(page.offset, 0);
}

#[test]
fn export_names_are_safe() {
    assert_eq!(sanitize_canvas_export_name("ops board/1"), "ops-board-1");
}

#[test]
fn cron_jobs_are_checked() {
    assert!(cron_add(&request("1", "{}"), 0).is_err());
    let job = frankclaw::config::CronJob {
        id: "nightly".into(),
        agent_id: frankclaw::types::AgentId::new("default"),
        session_key: SessionKey::from_raw("default:cron:nightly"),
        prompt: " ".into(),
    };
    assert!(validate_cron_job(&job).is_err());
}

#[test]
fn tool_approvals_are_asked_for_and_resolved() {
    let asked = tool_approval_requested(json(r#"{ "approval_id": "a-1" }"#));
    assert_eq!(asked.event, EventType::ToolApprovalRequested);
    assert_eq!(asked.payload.get_str("approval_id"), Some("a-1"));
    let request = request("1", r#"{ "approval_id": "a-1", "decision": "deny" }"#);
    let answer = tool_approval_resolve(&request).expect("answer");
    let (response, event) = tool_approval_done(&request.id, &answer, ApprovalOutcome::Taken);
    assert_eq!(result(response).get_str("decision"), Some("deny"));
    assert_eq!(event.expect("event").event, EventType::ToolApprovalResolved);
    let (gone, _) = tool_approval_done(&request.id, &answer, ApprovalOutcome::Expired);
    assert_eq!(refusal(gone), 410);
}

#[test]
fn canvas_export_answers_only_with_the_document() {
    let mut store = CanvasStore::new();
    let set = canvas_set(
        &mut store,
        &request("1", r#"{ "canvas_id": "ops", "title": "Ops" }"#),
        Some(vec![CanvasBlock {
            kind: CanvasBlockKind::Metric,
            text: "Load".into(),
            meta: Some(json(r#"{ "value": 0.5 }"#)),
        }]),
        NOW,
    );
    let _ = result(set.0);
    let ask = request("2", r#"{ "canvas_id": "ops", "format": "json" }"#);
    let pretty = r#"{
  "id": "ops",
  "title": "Ops",
  "body": "",
  "session_key": null,
  "blocks": [{ "kind": "metric", "text": "Load", "meta": { "value": 0.5 } }],
  "revision": 1,
  "updated_at": "UPDATED"
}"#;
    let document = store.get("ops").expect("canvas");
    let shown = document_value(&document);
    let pretty = pretty.replace("UPDATED", shown.get_str("updated_at").expect("time"));
    let export = result(canvas_export_checked(&store, &ask, &pretty).expect("answer"));
    assert_eq!(export.get_str("content"), Some(pretty.as_str()));
    assert_eq!(export.get_str("filename"), Some("ops.json"));
    assert!(canvas_export_checked(&store, &ask, "{}").is_none());
    assert!(canvas_export_checked(&store, &ask, "no json").is_none());
    let other = request("3", r#"{ "canvas_id": "none", "format": "json" }"#);
    assert_eq!(refusal(canvas_export_checked(&store, &other, "").expect("answer")), 404);
}
