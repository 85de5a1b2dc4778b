//! The gateway: sessions, canvases, delivery, health, webhooks and limits.

use dashmap::DashMap;
use frankclaw::config::{
    AuthMode, BindMode, ChannelConfig, ChannelSecurityPolicy, FrankClawConfig, ProviderConfig,
    RateLimitConfig, RawMapping, WebhookMapping,
};
use frankclaw::error::FrankClawError;
use frankclaw::gateway::acp::{
    AcpServer, AcpServerOptions, AcpSession, AcpStep, JsonRpcRequest, RpcAnswer, RpcErrorCode,
};
use frankclaw::gateway::canvas::{
    export_document, render_block_with, render_document_with, render_markdown_block, CanvasBlock,
    CanvasBlockKind, CanvasDocument, CanvasExportFormat, CanvasPatch, CanvasStore,
};
use frankclaw::gateway::chat::StreamDelta;
use frankclaw::gateway::delivery::{
    last_reply_from_metadata, send_outbound_chunk, set_last_reply_in_metadata,
    split_outbound_message, split_text, Delivery, DeliveryStatus, DeliveryStep, SendState,
    SendStep, StoredReplyMetadata,
};
use frankclaw::gateway::health_monitor::{
    check_interval, is_unhealthy, ChannelHealth, MAX_RESTARTS_PER_HOUR, RESTART_COOLDOWN_SECS,
};
use frankclaw::gateway::http::{
    content_disposition, extract_credential, media_download_handler, resolve_bind_addr,
    web_inbound_handler, web_inbound_text_or_placeholder, webhook_handler, webhook_payload,
    whatsapp_webhook_gate, whatsapp_webhook_inbound_handler, whatsapp_webhook_verify_handler,
    AuthCredential, AuthQuery, Headers, HttpReply, WebInboundAttachment, WebInboundRequest,
    WebhookStep, WhatsAppStep, WhatsAppVerifyQuery,
};
use frankclaw::gateway::inbound::{
    admit_message, chat_complete, group_allowed, pairing_reply, process_inbound_message,
    process_inbound_message_with_target, send_error_reply, Admission, Draft, InboundStep,
};
use frankclaw::gateway::openai_api::{
    authenticate_bearer, chat_completions_handler, handle_non_streaming, models_handler, sse_event,
    sse_last, ApiMessage, ApiResponseMessage, ApiUsage, BearerCheck, ChatCompletionRequest,
    ChatCompletionResponse, Choice, ErrorResponse, ModelObject, ModelsResponse, StreamChoice,
    StreamChunk, StreamDeltaContent,
};
use frankclaw::gateway::rate_limit::AuthRateLimiter;
use frankclaw::gateway::reload::{
    merge_reloadable_config, reload, restart_sensitive_config_changed,
};
use frankclaw::gateway::tunnel::{
    extract_url_from_line, extract_url_from_stream, tunnel_command, tunnel_config_from_env, Tunnel,
    TunnelConfig, TunnelOutput,
};
use frankclaw::gateway::webhooks::{
    extract_by_path, extract_message, message_from_text, resolve_mapping, resolve_request,
    verify_signature, verify_timestamp, MAX_WEBHOOK_AGE_SECS,
};
use frankclaw::channels::whatsapp::WhatsAppChannel;
use frankclaw::json::{JsonNumber, JsonValue};
use frankclaw::media::MediaId;
use frankclaw::message::{HealthStatus, InboundMessage, OutboundMessage, SendResult};
use frankclaw::signature::encode_signature;
use frankclaw::text;
use frankclaw::text_map::TextMap;
use frankclaw::time::{is_representable, parse_unix_timestamp};
use frankclaw::types::{ChannelId, SessionKey, Timestamp};

const SECOND: u64 = 1_000_000_000;

const NOW: Timestamp = Timestamp {
    secs: 1_710_000_000,
    nanos: 0,
};

fn json_value(value: &serde_json::Value) -> JsonValue {
    match value {
        serde_json::Value::Null => JsonValue::Null,
        serde_json::Value::Bool(b) => JsonValue::Bool(*b),
        serde_json::Value::Number(n) => {
            if let Some(n) = n.as_u64() {
                JsonValue::Number(JsonNumber::Unsigned(n))
            } else if let Some(n) = n.as_i64() {
                JsonValue::Number(JsonNumber::Negative(n))
            } else {
                JsonValue::Number(JsonNumber::Literal(n.to_string()))
            }
        }
        serde_json::Value::String(s) => JsonValue::Text(s.clone()),
        serde_json::Value::Array(items) => JsonValue::Array(items.iter().map(json_value).collect()),
        serde_json::Value::Object(members) => JsonValue::Object(
            members
                .iter()
                .map(|(key, value)| (key.clone(), json_value(value)))
                .collect(),
        ),
    }
}

fn json(text: &str) -> JsonValue {
    json_value(&serde_json::from_str(text).expect("test JSON should parse"))
}

// Agent sessions

fn acp_session(id: &str, touched: u64) -> AcpSession {
    AcpSession {
        session_id: id.to_string(),
        session_key: SessionKey::from_raw(&format!("acp:{id}")),
        created_at: touched,
        last_touched: touched,
    }
}

fn acp_server(options: AcpServerOptions, sessions: Vec<AcpSession>) -> AcpServer {
    let mut server = AcpServer::new(options, 0);
    let held: DashMap<String, AcpSession> = DashMap::new();
    for session in sessions {
        held.insert(session.session_id.clone(), session);
    }
    server.sessions = held;
    server
}

#[test]
fn options_defaults() {
    let opts = AcpServerOptions::default();
    assert_eq!(opts.max_sessions, 5000);
    assert_eq!(opts.session_ttl, 86400 * SECOND as u128);
    assert_eq!(opts.rate_limit_per_window, 120);
}

#[test]
fn session_ttl_eviction() {
    let options = AcpServerOptions {
        session_ttl: 1_000_000,
        ..AcpServerOptions::default()
    };
    let mut server = acp_server(options, vec![acp_session("old", 0)]);

    server.evict_expired(100 * SECOND + 5_000_000);
    assert_eq!(server.session_count(), 0);
}

#[test]
fn session_lru_eviction() {
    let mut server = acp_server(
        AcpServerOptions::default(),
        vec![acp_session("old", SECOND), acp_session("recent", 190 * SECOND)],
    );

    server.evict_lru();

    assert_eq!(server.session_count(), 1);
    assert!(server.sessions.contains_key("recent"));
}

#[test]
fn rate_limiter_logic() {
    let options = AcpServerOptions {
        rate_limit_per_window: 3,
        ..AcpServerOptions::default()
    };
    let mut server = acp_server(options, Vec::new());

    for _ in 0..3 {
        assert!(server.check_rate_limit(SECOND));
    }

    // 4th should exceed.
    assert!(!server.check_rate_limit(SECOND));
    // Another window begins.
    assert!(server.check_rate_limit(20 * SECOND));
}

#[test]
fn acp_session_fields() {
    let session = acp_session("test-123", 7);
    assert_eq!(session.session_id, "test-123");
    assert_eq!(session.created_at, session.last_touched);
}

#[test]
fn acp_requests_are_answered() {
    let options = AcpServerOptions {
        max_sessions: 1,
        ..AcpServerOptions::default()
    };
    let mut server = acp_server(options, Vec::new());
    let request = |method: &str, params: &str| JsonRpcRequest {
        id: None,
        method: method.to_string(),
        params: json(params),
    };

    let first = server.handle_request(&request("newSession", "{}"), "1.0", SECOND);
    let id = match first {
        AcpStep::Answer(RpcAnswer::Success(result)) => {
            result.get_str("sessionId").expect("id").to_string()
        }
        other => panic!("unexpected {other:?}"),
    };
    assert!(MediaId::parse(&id).is_some());
    assert!(server.sessions.contains_key(id.as_str()));

    // The limit is one session: the second one takes the place of the first.
    let _ = server.handle_request(&request("newSession", "{}"), "1.0", 2 * SECOND);
    assert_eq!(server.session_count(), 1);
    assert!(!server.sessions.contains_key(id.as_str()));

    let lost = server.handle_request(
        &request("loadSession", &format!(r#"{{ "sessionId": "{id}" }}"#)),
        "1.0",
        3 * SECOND,
    );
    assert!(matches!(
        lost,
        AcpStep::Answer(RpcAnswer::Failure {
            code: RpcErrorCode::SessionNotFound,
            ..
        })
    ));
    let called = AcpServer::handle_call_tool_done(Ok(("clock".to_string(), json("12"))));
    match called {
        RpcAnswer::Success(result) => assert_eq!(result.get_u64("output"), Some(12)),
        other => panic!("unexpected {other:?}"),
    }
    assert!(matches!(
        AcpServer::handle_list_tools(Err(FrankClawError::TurnCancelled)),
        RpcAnswer::Broken(FrankClawError::TurnCancelled)
    ));
    let unknown = server.handle_request(&request("fly", "{}"), "1.0", 3 * SECOND);
    assert!(matches!(
        unknown,
        AcpStep::Answer(RpcAnswer::Failure {
            code: RpcErrorCode::MethodNotFound,
            ..
        })
    ));
}

// Canvases

fn block(kind: CanvasBlockKind, text: &str, meta: Option<&str>) -> CanvasBlock {
    CanvasBlock {
        kind,
        text: text.into(),
        meta: meta.map(json),
    }
}

#[test]
fn export_document_renders_markdown_snapshot() {
    let document = CanvasDocument {
        id: "ops".into(),
        title: "Ops Runbook".into(),
        body: "Current deployment summary".into(),
        session_key: Some("default:web:control".into()),
        blocks: vec![
            block(CanvasBlockKind::Note, "deploy window open", None),
            block(CanvasBlockKind::Checklist, "verify smoke tests\nnotify team", None),
        ],
        revision: 3,
        updated_at: Timestamp {
            secs: 1_710_000_000,
            nanos: 0,
        },
    };

    let export = export_document(
        &document,
        CanvasExportFormat::Markdown,
        "",
    );
    assert!(export.contains("# Ops Runbook"));
    assert!(export.contains("Session: default:web:control"));
    assert!(export.contains("> deploy window open"));
    assert!(export.contains("- [ ] verify smoke tests"));
    assert!(export.contains("Updated: 2024-03-09T16:00:00+00:00"));
    assert!(export.contains("Revision: 3"));
}

#[test]
fn export_document_renders_structured_component_blocks() {
    let document = CanvasDocument {
        id: "status".into(),
        title: String::new(),
        body: String::new(),
        session_key: None,
        blocks: vec![
            block(CanvasBlockKind::Status, "Gateway healthy", Some(r#"{ "level": "ok" }"#)),
            block(CanvasBlockKind::Metric, "Open sessions", Some(r#"{ "value": 12 }"#)),
        ],
        revision: 1,
        updated_at: Timestamp {
            secs: 1_710_000_123,
            nanos: 0,
        },
    };

    let export = export_document(
        &document,
        CanvasExportFormat::Markdown,
        "",
    );
    assert!(export.contains("**Status (ok)**"));
    assert!(export.contains("**Metric:** Open sessions = 12"));
}

#[test]
fn metric_blocks_show_any_value() {
    let show = |meta: &str| render_markdown_block(&block(CanvasBlockKind::Metric, "Load", Some(meta)));
    assert_eq!(show(r#"{ "value": true }"#), "**Metric:** Load = true");
    assert_eq!(show(r#"{ "value": null }"#), "**Metric:** Load = null");
    assert_eq!(show(r#"{ "value": -3 }"#), "**Metric:** Load = -3");
    assert_eq!(show(r#"{ "value": 0.5 }"#), "**Metric:** Load = 0.5");
    assert_eq!(show(r#"{ "value": "high" }"#), "**Metric:** Load = high");
    assert_eq!(
        show(r#"{ "value": { "b": [1, "x"], "a": {} } }"#),
        r#"**Metric:** Load = {"a":{},"b":[1,"x"]}"#
    );
    assert_eq!(show("{}"), "**Metric:** Load");
    let plain = block(CanvasBlockKind::Metric, "Load", Some(r#"{ "value": 7 }"#));
    assert_eq!(render_block_with(&plain, "seven"), "**Metric:** Load = seven");
}

#[test]
fn documents_are_laid_out_in_sections() {
    let document = CanvasDocument {
        id: "status".into(),
        title: " Board ".into(),
        body: String::new(),
        session_key: None,
        blocks: vec![block(CanvasBlockKind::Markdown, "text", None)],
        revision: 2,
        updated_at: NOW,
    };
    assert_eq!(
        render_document_with(&document, "today", &vec![String::new()]),
        "# Board\n\nCanvas: status\nRevision: 2\nUpdated: today\n\ntext"
    );
}

#[test]
fn first_and_last_moments_have_a_date() {
    let at = |secs: i64| CanvasDocument {
        id: "ops".into(),
        title: String::new(),
        body: String::new(),
        session_key: None,
        blocks: Vec::new(),
        revision: 1,
        updated_at: Timestamp { secs, nanos: 0 },
    };
    let shown = |secs: i64| export_document(&at(secs), CanvasExportFormat::Markdown, "");
    assert!(shown(-8_334_601_228_800).contains("Updated: -262143-01-01T00:00:00+00:00"));
    assert!(shown(8_210_266_876_799).contains("Updated: +262142-12-31T23:59:59+00:00"));
    assert!(!is_representable(Timestamp { secs: -8_334_601_228_801, nanos: 0 }));
    assert!(parse_unix_timestamp("-8334601228800").is_some());
    assert!(parse_unix_timestamp("-8334601228801").is_none());
    assert!(parse_unix_timestamp("8210266876800").is_none());
}

#[test]
fn canvas_revisions_go_up() {
    let mut store = CanvasStore::new();
    let document = CanvasDocument {
        id: "ops".into(),
        title: "Ops".into(),
        body: "first".into(),
        session_key: None,
        blocks: Vec::new(),
        revision: 99,
        updated_at: NOW,
    };
    assert_eq!(store.set(document).revision, 1);
    let patched = store.patch(
        "ops",
        CanvasPatch {
            title: None,
            body: Some("second".into()),
            session_key: None,
            append_blocks: vec![block(CanvasBlockKind::Markdown, "## Next", None)],
        },
        NOW,
    );
    assert_eq!(patched.revision, 2);
    assert_eq!(patched.title, "Ops");
    assert_eq!(patched.body, "second");
    assert_eq!(store.get("ops").expect("stored").blocks.len(), 1);
    store.clear("ops");
    assert!(store.get("ops").is_none());
    assert_eq!(CanvasStore::key_for(None, Some("a:b:c")), "session:a:b:c");
    assert_eq!(CanvasStore::key_for(Some(" "), None), "main");
}

// Delivery

fn outbound(text: &str, reply_to: Option<&str>) -> OutboundMessage {
    OutboundMessage {
        channel: ChannelId::new("discord"),
        account_id: "default".into(),
        to: "channel-1".into(),
        thread_id: None,
        text: text.into(),
        attachments: Vec::new(),
        reply_to: reply_to.map(|id| id.to_string()),
    }
}

#[test]
fn split_text_prefers_word_boundaries() {
    let chunks = split_text("one two three four five", 9);
    assert_eq!(chunks, vec!["one two", "three", "four five"]);
}

#[test]
fn words_are_not_broken() {
    let pieces = split_text("a bbbbbbbbbbbb cc dddd", 5);
    assert_eq!(pieces, vec!["a", "bbbbb", "bbbbb", "bb", "cc", "dddd"]);
}

#[test]
fn deliver_outbound_message_splits_long_discord_messages() {
    let mut delivery = Delivery::new(&outbound(&"word ".repeat(600), None));
    let mut sent: Vec<OutboundMessage> = Vec::new();
    let record = loop {
        sent.push(delivery.next().clone());
        let outcome = SendResult::Sent {
            platform_message_id: format!("msg-{}", sent.len()),
        };
        delivery = match delivery.on_outcome(Ok(outcome)) {
            DeliveryStep::Send(next) => next,
            DeliveryStep::Finished(record) => break record,
            other => panic!("unexpected {other:?}"),
        };
    };

    assert!(sent.len() > 1);
    assert_eq!(record.status, DeliveryStatus::Sent);
    assert_eq!(record.chunks.len(), sent.len());
    assert_eq!(record.attempts, sent.len());
    assert_eq!(record.platform_message_id, Some(format!("msg-{}", sent.len())));
    assert!(record.chunks.iter().zip(&sent).all(|(chunk, message)| chunk.text == message.text));
    assert!(sent.iter().all(|message| message.text.chars().count() <= 1900));
}

#[test]
fn deliver_outbound_message_only_replies_on_first_chunk() {
    let message = outbound(&"word ".repeat(600), Some("incoming-42"));
    let sent = Delivery::new(&message).pieces;

    assert!(sent.len() > 1);
    assert_eq!(sent[0].reply_to.as_deref(), Some("incoming-42"));
    assert!(sent.iter().skip(1).all(|message| message.reply_to.is_none()));
}

#[test]
fn delivery_stops_at_a_piece_that_fails() {
    let delivery = Delivery::new(&outbound(&"word ".repeat(600), None));
    assert_eq!(split_outbound_message(&outbound(&"word ".repeat(600), None)).len(), 2);
    let mut delivery = match delivery.on_outcome(Ok(SendResult::Sent {
        platform_message_id: "msg-1".into(),
    })) {
        DeliveryStep::Send(next) => next,
        other => panic!("unexpected {other:?}"),
    };
    for wait in [1, 2] {
        delivery = match delivery.on_outcome(Ok(SendResult::Failed { reason: "no".into() })) {
            DeliveryStep::Retry { after_secs, delivery } => {
                assert_eq!(after_secs, wait);
                delivery
            }
            other => panic!("unexpected {other:?}"),
        };
    }
    match delivery.on_outcome(Ok(SendResult::Failed { reason: "gone".into() })) {
        DeliveryStep::Finished(record) => {
            assert_eq!(record.status, DeliveryStatus::Failed);
            assert_eq!(record.error.as_deref(), Some("gone"));
            assert_eq!(record.attempts, 4);
            assert_eq!(record.chunks.len(), 2);
            assert_eq!(record.platform_message_id.as_deref(), Some("msg-1"));
        }
        other => panic!("unexpected {other:?}"),
    }
}

#[test]
fn delivery_gives_up_on_an_error() {
    let mut delivery = Delivery::new(&outbound("hello", None));
    for _ in 0..2 {
        delivery = match delivery.on_outcome(Err(FrankClawError::TurnCancelled)) {
            DeliveryStep::Retry { delivery, .. } => delivery,
            other => panic!("unexpected {other:?}"),
        };
    }
    assert!(matches!(
        delivery.on_outcome(Err(FrankClawError::TurnCancelled)),
        DeliveryStep::GiveUp(FrankClawError::TurnCancelled)
    ));
}

#[test]
fn rate_limited_chunks_are_tried_again() {
    let step = send_outbound_chunk(
        "hello",
        SendState::new(),
        Ok(SendResult::RateLimited {
            retry_after_secs: Some(0),
        }),
    );
    match step {
        SendStep::Retry { after_secs, state } => {
            assert_eq!(after_secs, 1);
            assert_eq!(state.attempts, 1);
        }
        other => panic!("unexpected {other:?}"),
    }
    let failed = send_outbound_chunk(
        "hello",
        SendState {
            attempts: 2,
            last_retry_after: Some(4),
        },
        Ok(SendResult::Failed {
            reason: "blocked".into(),
        }),
    );
    match failed {
        SendStep::Done(chunk) => {
            assert_eq!(chunk.status, DeliveryStatus::Failed);
            assert_eq!(chunk.error.as_deref(), Some("blocked"));
        }
        other => panic!("unexpected {other:?}"),
    }
}

#[test]
fn last_replies_read_back() {
    let mut metadata = json(r#"{ "other": { "preserve": true } }"#);
    let reply = StoredReplyMetadata {
        channel: "web".into(),
        account_id: "default".into(),
        recipient_id: "user-1".into(),
        thread_id: None,
        reply_to: Some("incoming-1".into()),
        content: "mock reply".into(),
        platform_message_id: Some("outgoing-1".into()),
        status: "sent".into(),
        attempts: 1,
        retry_after_secs: None,
        error: None,
        chunks: Vec::new(),
        recorded_at: Timestamp {
            secs: 1_710_000_000,
            nanos: 123_000_000,
        },
    };
    assert!(set_last_reply_in_metadata(&mut metadata, &reply).is_ok());
    let read = last_reply_from_metadata(&metadata).expect("reply");
    assert_eq!(read.content, "mock reply");
    assert_eq!(read.recorded_at, reply.recorded_at);
    assert_eq!(read.reply_to.as_deref(), Some("incoming-1"));
    assert_eq!(metadata.get("other").expect("other").get_bool("preserve"), Some(true));
    assert!(last_reply_from_metadata(&json("{}")).is_none());
}

// Health

#[test]
fn channel_health_detects_status_change() {
    let mut ch = ChannelHealth::new();

    // First observation is always a change.
    assert!(ch.status_changed(&HealthStatus::Connected));
    ch.last_status = Some(HealthStatus::Connected);

    // Same status = no change.
    assert!(!ch.status_changed(&HealthStatus::Connected));

    // Different status = change.
    assert!(ch.status_changed(&HealthStatus::Disconnected {
        reason: "timeout".into()
    }));

    ch.last_status = Some(HealthStatus::Disconnected {
        reason: "timeout".into(),
    });

    // Same disconnect reason = no change.
    assert!(!ch.status_changed(&HealthStatus::Disconnected {
        reason: "timeout".into()
    }));

    // Different reason = change.
    assert!(ch.status_changed(&HealthStatus::Disconnected {
        reason: "auth failure".into()
    }));
}

#[test]
fn channel_health_restart_respects_cooldown() {
    let mut ch = ChannelHealth::new();

    // First restart should be allowed.
    assert!(ch.try_restart(SECOND));

    // Immediate second restart should be denied (cooldown).
    assert!(!ch.try_restart(SECOND));
    assert!(ch.try_restart((RESTART_COOLDOWN_SECS + 1) * SECOND));
}

#[test]
fn channel_health_restart_rate_limiting() {
    let mut ch = ChannelHealth::new();

    // Manually fill restart history to max.
    let now = 10_000 * SECOND;
    for _ in 0..MAX_RESTARTS_PER_HOUR {
        ch.restart_history.push(now);
    }
    // Even with no cooldown issue, rate limit should kick in.
    ch.last_restart_at = Some(now - (RESTART_COOLDOWN_SECS + 1) * SECOND);
    assert!(!ch.try_restart(now));
}

#[test]
fn is_unhealthy_identifies_disconnected() {
    assert!(is_unhealthy(&HealthStatus::Disconnected {
        reason: "test".into()
    }));
    assert!(!is_unhealthy(&HealthStatus::Connected));
    assert!(!is_unhealthy(&HealthStatus::NotConfigured));
    assert!(!is_unhealthy(&HealthStatus::Degraded {
        reason: "slow".into()
    }));
    assert_eq!(check_interval(None), Some(300));
    assert_eq!(check_interval(Some(0)), None);
}

// The completion interface

#[test]
fn error_response_serializes_correctly() {
    let json = ErrorResponse::new("invalid_request_error", "test message").to_json();
    assert_eq!(json.get_str_at("error", "type"), Some("invalid_request_error"));
    assert_eq!(json.get_str_at("error", "message"), Some("test message"));
}

fn first<'a>(value: &'a JsonValue, key: &str) -> &'a JsonValue {
    &value.get_array(key).expect("array")[0]
}

#[test]
fn chat_completion_response_matches_openai_format() {
    let resp = ChatCompletionResponse {
        id: "chatcmpl-123".into(),
        object: "chat.completion",
        created: 1000,
        model: "gpt-4".into(),
        choices: vec![Choice {
            index: 0,
            message: ApiResponseMessage {
                role: "assistant",
                content: "Hello!".into(),
            },
            finish_reason: "stop",
        }],
        usage: ApiUsage {
            prompt_tokens: 10,
            completion_tokens: 5,
            total_tokens: 15,
        },
    };
    let json = resp.to_json();
    assert_eq!(json.get_str("object"), Some("chat.completion"));
    assert_eq!(first(&json, "choices").get_str_at("message", "role"), Some("assistant"));
    assert_eq!(first(&json, "choices").get_str("finish_reason"), Some("stop"));
    assert_eq!(json.get("usage").expect("usage").get_u64("total_tokens"), Some(15));
}

#[test]
fn stream_chunk_matches_openai_format() {
    let chunk = StreamChunk {
        id: "chatcmpl-123".into(),
        object: "chat.completion.chunk",
        created: 1000,
        model: "gpt-4".into(),
        choices: vec![StreamChoice {
            index: 0,
            delta: StreamDeltaContent {
                role: None,
                content: Some("Hello".into()),
            },
            finish_reason: None,
        }],
    };
    let json = chunk.to_json();
    assert_eq!(json.get_str("object"), Some("chat.completion.chunk"));
    let choice = first(&json, "choices");
    assert_eq!(choice.get_str_at("delta", "content"), Some("Hello"));
    assert!(choice.get("delta").expect("delta").get("role").is_none());
    assert!(matches!(choice.get("finish_reason"), None | Some(JsonValue::Null)));
}

#[test]
fn models_response_matches_openai_format() {
    let resp = ModelsResponse {
        object: "list",
        data: vec![ModelObject {
            id: "gpt-4".into(),
            object: "model",
            created: 0,
            owned_by: "openai".into(),
        }],
    };
    let json = resp.to_json();
    assert_eq!(json.get_str("object"), Some("list"));
    assert_eq!(first(&json, "data").get_str("id"), Some("gpt-4"));
    assert_eq!(first(&json, "data").get_str("object"), Some("model"));
    let listed = models_handler(vec![("m".to_string(), "ollama".to_string())]).to_json();
    assert_eq!(first(&listed, "data").get_str("id"), Some("m"));
}

#[test]
fn completions_take_the_last_user_message() {
    let request = |messages: Vec<ApiMessage>| ChatCompletionRequest {
        model: "gpt-4".into(),
        messages,
        max_tokens: Some(5),
        temperature: None,
        stream: None,
    };
    let message = |role: &str, content: &str| ApiMessage {
        role: role.into(),
        content: content.into(),
    };
    let completion = chat_completions_handler(request(vec![
        message("user", "first"),
        message("assistant", "answer"),
        message("user", "second"),
    ]))
    .expect("completion");
    assert_eq!(completion.chat.message, "second");
    assert_eq!(completion.chat.model_id.as_deref(), Some("gpt-4"));
    assert!(!completion.stream);
    assert!(chat_completions_handler(request(Vec::new())).is_err());

    let response = handle_non_streaming(
        "chatcmpl-1".into(),
        7,
        frankclaw::gateway::chat::ChatResponse {
            session_key: SessionKey::from_raw("a:b:c"),
            model_id: "gpt-4".into(),
            content: "Hello!".into(),
            usage: JsonValue::Null,
        },
        10,
        5,
    );
    assert_eq!(response.usage.total_tokens, 15);
    assert_eq!(response.choices[0].message.content, "Hello!");
    assert_eq!(sse_event("{}"), "data: {}\n\n");
    assert!(sse_last("{}").ends_with("data: [DONE]\n\n"));
}

// Tunnels

#[test]
fn extract_url_from_line_finds_https() {
    let line = "INFO: tunnel started at https://abc.trycloudflare.com finished";
    let url = extract_url_from_line(line, "https://").unwrap();
    assert_eq!(url, "https://abc.trycloudflare.com");
}

#[test]
fn extract_url_from_line_finds_http() {
    let line = "listening on http://localhost:8080";
    let url = extract_url_from_line(line, "http://").unwrap();
    assert_eq!(url, "http://localhost:8080");
}

#[test]
fn extract_url_from_line_with_logfmt_prefix() {
    let line = "t=2024 lvl=info msg=started url=https://abc.ngrok-free.app addr=localhost:8080";
    let url = extract_url_from_line(line, "url=https://").unwrap();
    assert_eq!(url, "https://abc.ngrok-free.app");
}

#[test]
fn extract_url_from_line_no_match() {
    let line = "no urls here at all";
    assert!(extract_url_from_line(line, "https://").is_none());
}

#[test]
fn extract_url_from_line_url_at_end() {
    let line = "tunnel: https://example.com";
    let url = extract_url_from_line(line, "https://").unwrap();
    assert_eq!(url, "https://example.com");
}

#[test]
fn custom_command_placeholder_expansion() {
    let cmd = "bore local --to bore.pub --port {port}";
    let expanded = text::replace(&text::replace(cmd, "{host}", "127.0.0.1"), "{port}", "8080");
    assert_eq!(expanded, "bore local --to bore.pub --port 8080");

    let config = TunnelConfig::Custom {
        command: cmd.into(),
        url_pattern: None,
    };
    let command = tunnel_command(&config, "127.0.0.1", 8080).expect("command");
    assert_eq!(command.program, "bore");
    assert_eq!(command.args, vec!["local", "--to", "bore.pub", "--port", "8080"]);
}

#[test]
fn tunnel_public_url_none_before_start() {
    let tunnel = Tunnel {
        name: "test".into(),
        public_url: None,
    };
    assert!(tunnel.public_url().is_none());
}

#[test]
fn tunnel_public_url_returns_value() {
    let tunnel = Tunnel {
        name: "test".into(),
        public_url: Some("https://example.com".into()),
    };
    assert_eq!(tunnel.public_url().unwrap(), "https://example.com");
}

#[test]
fn tunnel_stop_clears_url() {
    let mut tunnel = Tunnel {
        name: "test".into(),
        public_url: Some("https://example.com".into()),
    };
    tunnel.stop();
    assert!(tunnel.public_url().is_none());
}

#[test]
fn custom_tunnel_empty_command_errors() {
    let config = TunnelConfig::Custom {
        command: String::new(),
        url_pattern: None,
    };
    assert!(tunnel_command(&config, "localhost", 8080).is_err());
}

#[test]
fn extract_url_timeout_on_no_match() {
    assert!(extract_url_from_stream(TunnelOutput::Ended, "https://").is_err());
    assert!(extract_url_from_stream(TunnelOutput::TimedOut { secs: 1 }, "https://").is_err());
    assert_eq!(
        extract_url_from_stream(
            TunnelOutput::Url("https://tunnel.example.com".into()),
            "https://"
        )
        .ok(),
        Some("https://tunnel.example.com".to_string())
    );
    assert!(tunnel_config_from_env(&TextMap::new()).is_none());
}

// Webhooks

fn hooks_config(mapping: WebhookMapping) -> FrankClawConfig {
    let mut config = FrankClawConfig::default();
    config.hooks.enabled = true;
    config.hooks.token = Some("secret".into());
    config.hooks.mappings = vec![RawMapping::Mapping(mapping)];
    config
}

fn mapping(id: &str) -> WebhookMapping {
    WebhookMapping {
        id: id.into(),
        ..WebhookMapping::default()
    }
}

#[test]
fn verify_signature_accepts_matching_hmac() {
    let config = hooks_config(mapping("incoming"));
    let body = br#"{"message":"hello"}"#;
    let signature = encode_signature("secret", body);

    assert!(verify_signature(&config, body, Some(&signature)).is_ok());
    assert!(matches!(
        verify_signature(&config, body, None),
        Err(FrankClawError::AuthRequired)
    ));
    assert!(matches!(
        verify_signature(&config, b"other", Some(&signature)),
        Err(FrankClawError::AuthFailed)
    ));
}

#[test]
fn extract_message_reads_mapping_text_field() {
    let mapping = WebhookMapping {
        id: "incoming".into(),
        text_field: "prompt".into(),
        ..WebhookMapping::default()
    };

    let message = extract_message(&mapping, &json(r#"{ "prompt": "hello" }"#))
        .expect("message should extract");
    assert_eq!(message, "hello");
}

#[test]
fn verify_timestamp_accepts_recent() {
    assert!(verify_timestamp(Some("1710000000"), 1_710_000_000).is_ok());
}

#[test]
fn verify_timestamp_rejects_old() {
    let old = (1_710_000_000 - MAX_WEBHOOK_AGE_SECS - 10).to_string();
    assert!(verify_timestamp(Some(&old), 1_710_000_000).is_err());
}

#[test]
fn verify_timestamp_rejects_future() {
    let future = (1_710_000_000 + MAX_WEBHOOK_AGE_SECS + 10).to_string();
    assert!(verify_timestamp(Some(&future), 1_710_000_000).is_err());
}

#[test]
fn verify_timestamp_allows_missing() {
    assert!(verify_timestamp(None, 1_710_000_000).is_ok());
}

#[test]
fn extract_message_uses_json_path() {
    let mapping = WebhookMapping {
        id: "nested".into(),
        json_path: Some("data.message.text".into()),
        ..WebhookMapping::default()
    };
    let payload = json(r#"{ "data": { "message": { "text": "nested value" } } }"#);
    let msg = extract_message(&mapping, &payload).unwrap();
    assert_eq!(msg, "nested value");
}

#[test]
fn extract_message_json_path_missing() {
    let mapping = WebhookMapping {
        id: "bad".into(),
        json_path: Some("data.missing.field".into()),
        ..WebhookMapping::default()
    };
    assert!(extract_message(&mapping, &json(r#"{ "data": {} }"#)).is_err());
}

#[test]
fn extract_message_applies_template() {
    let mapping = WebhookMapping {
        id: "tmpl".into(),
        text_field: "message".into(),
        template: Some("Webhook received: {text}".into()),
        ..WebhookMapping::default()
    };
    let msg = extract_message(&mapping, &json(r#"{ "message": "hello" }"#)).unwrap();
    assert_eq!(msg, "Webhook received: hello");
}

#[test]
fn extract_by_path_handles_non_string() {
    let payload = json(r#"{ "data": { "count": 42 } }"#);
    let result = extract_by_path(&payload, "data.count");
    assert_eq!(result, Some("42".into()));
}

#[test]
fn extract_by_path_returns_none_for_null() {
    let payload = json(r#"{ "data": null }"#);
    assert!(extract_by_path(&payload, "data").is_none());
}

#[test]
fn resolve_request_reuses_mapping_and_payload_validation() {
    let config = hooks_config(WebhookMapping {
        id: "incoming".into(),
        text_field: "prompt".into(),
        ..WebhookMapping::default()
    });

    let request = resolve_request(&config, "incoming", &json(r#"{ "prompt": "hello" }"#))
        .expect("request should resolve");
    assert_eq!(request.mapping.id, "incoming");
    assert_eq!(request.message, "hello");
    assert!(resolve_mapping(&config, "other").is_err());
}

#[test]
fn webhook_http_route_verifies_signature() {
    let config = hooks_config(mapping("incoming"));
    let body = br#"{"message":"hello"}"#;
    let headers = |signature: String| Headers {
        entries: vec![("x-frankclaw-signature".to_string(), Some(signature))],
    };
    let good = headers(encode_signature("secret", body));
    match webhook_handler(&config, "incoming", &good, body, 1_710_000_000) {
        WebhookStep::Turn(turn) => assert_eq!(turn.message, "hello"),
        other => panic!("unexpected {other:?}"),
    }
    let bad = headers("sha256=00".to_string());
    assert!(matches!(
        webhook_handler(&config, "incoming", &bad, body, 1_710_000_000),
        WebhookStep::Reply(HttpReply::Failure {
            error: FrankClawError::AuthFailed,
            ..
        })
    ));
    let broken = headers(encode_signature("secret", b"{"));
    match webhook_handler(&config, "incoming", &broken, b"{", 1_710_000_000) {
        WebhookStep::Reply(HttpReply::Document { status, body }) => {
            assert_eq!(status, 400);
            let error = body.get_str("error").expect("error");
            assert!(error.starts_with("invalid webhook JSON: "));
        }
        other => panic!("unexpected {other:?}"),
    }
}

#[test]
fn webhook_payloads_become_turns() {
    let config = hooks_config(WebhookMapping {
        id: "incoming".into(),
        json_path: Some("data".into()),
        ..WebhookMapping::default()
    });
    let payload = json(r#"{ "data": { "b": 1, "a": false } }"#);
    match webhook_payload(&config, "incoming", Ok(payload)) {
        WebhookStep::Turn(turn) => assert_eq!(turn.message, r#"{"a":false,"b":1}"#),
        other => panic!("unexpected {other:?}"),
    }
    assert!(matches!(
        webhook_payload(&config, "incoming", Ok(json("{}"))),
        WebhookStep::Reply(HttpReply::Failure { fallback: 400, .. })
    ));
    assert!(matches!(
        webhook_payload(&config, "incoming", Err("bad".into())),
        WebhookStep::Reply(HttpReply::Document { status: 400, .. })
    ));
    let plain = mapping("plain");
    assert_eq!(message_from_text(&plain, Some(" hi ".into())).expect("text"), "hi");
    assert!(message_from_text(&plain, None).is_err());
}

#[test]
fn whatsapp_webhook_route_rejects_unsigned_payloads_when_app_secret_is_configured() {
    let channel = WhatsAppChannel::new(
        "access-token".to_string(),
        "12345",
        "verify-me".to_string(),
        Some("app-secret".to_string()),
    );
    let config = FrankClawConfig::default();
    let none = Headers { entries: Vec::new() };
    assert!(whatsapp_webhook_gate(Some(&channel), &config, &none, b"{}").is_some());
    let signed = Headers {
        entries: vec![(
            "x-hub-signature-256".to_string(),
            Some(encode_signature("app-secret", b"{}")),
        )],
    };
    assert!(whatsapp_webhook_gate(Some(&channel), &config, &signed, b"{}").is_none());
    let take = |headers: &Headers, body: &[u8]| {
        whatsapp_webhook_inbound_handler(Some(&channel), &config, headers, body, NOW)
    };
    assert!(matches!(
        take(&none, b"{}"),
        WhatsAppStep::Reply(HttpReply::Failure { fallback: 401, .. })
    ));
    assert!(matches!(
        take(&signed, b"{}"),
        WhatsAppStep::Reply(HttpReply::Document { status: 202, .. })
    ));
}

#[test]
fn whatsapp_webhook_route_verifies_the_token() {
    let channel = WhatsAppChannel::new(
        "access-token".to_string(),
        "12345",
        "verify-me".to_string(),
        None,
    );
    let query = |token: &str| WhatsAppVerifyQuery {
        hub_mode: Some("subscribe".to_string()),
        hub_challenge: Some("challenge-1".to_string()),
        hub_verify_token: Some(token.to_string()),
    };
    match whatsapp_webhook_verify_handler(Some(&channel), query("verify-me")) {
        HttpReply::Plain { status, text } => {
            assert_eq!(status, 200);
            assert_eq!(text, "challenge-1");
        }
        other => panic!("unexpected {other:?}"),
    }
    assert!(!matches!(
        whatsapp_webhook_verify_handler(Some(&channel), query("wrong")),
        HttpReply::Plain { status: 200, .. }
    ));
}

// Login limits

fn limiter() -> AuthRateLimiter {
    AuthRateLimiter::new(RateLimitConfig {
        max_attempts: 3,
        window_secs: 60,
        lockout_secs: 300,
    })
}

#[test]
fn allows_under_limit() {
    let mut limiter = limiter();
    limiter.record_failure("1.2.3.4", SECOND);
    limiter.record_failure("1.2.3.4", SECOND);
    assert!(limiter.is_locked("1.2.3.4", SECOND).is_none());
}

#[test]
fn locks_at_limit() {
    let mut limiter = limiter();
    for _ in 0..3 {
        limiter.record_failure("1.2.3.4", SECOND);
    }
    assert_eq!(
        limiter.is_locked("1.2.3.4", SECOND),
        Some(300 * SECOND as u128)
    );
    assert!(limiter.is_locked("5.6.7.8", SECOND).is_none());
    assert!(limiter.is_locked("1.2.3.4", 301 * SECOND).is_none());
}

#[test]
fn success_clears() {
    let mut limiter = limiter();
    for _ in 0..3 {
        limiter.record_failure("1.2.3.4", SECOND);
    }
    limiter.record_success("1.2.3.4");
    assert!(limiter.is_locked("1.2.3.4", SECOND).is_none());
}

#[test]
fn cleanup_keeps_locked_addresses() {
    let mut limiter = limiter();
    for _ in 0..3 {
        limiter.record_failure("1.2.3.4", SECOND);
    }
    limiter.cleanup(200 * SECOND);
    assert!(limiter.is_locked("1.2.3.4", 200 * SECOND).is_some());
    limiter.cleanup(362 * SECOND);
    assert!(limiter.attempts.get("1.2.3.4").is_none());
}

#[test]
fn cleanup_forgets_old_failures() {
    let mut limiter = limiter();
    limiter.record_failure("1.2.3.4", 0);
    limiter.record_failure("1.2.3.4", 60 * SECOND);
    limiter.cleanup(360 * SECOND - 1);
    assert!(limiter.attempts.get("1.2.3.4").is_some());
    limiter.cleanup(360 * SECOND);
    assert!(limiter.attempts.get("1.2.3.4").is_none());

    // A lockout shorter than the window: what lies in the window stays.
    let mut short = AuthRateLimiter::new(RateLimitConfig {
        max_attempts: 3,
        window_secs: 60,
        lockout_secs: 10,
    });
    short.record_failure("1.2.3.4", 0);
    short.record_failure("1.2.3.4", 60 * SECOND);
    short.cleanup(70 * SECOND);
    let left = &short.attempts.get("1.2.3.4").expect("entry").failures;
    assert_eq!(left, &vec![60 * SECOND]);
}

// Reloading

fn reloadable(port: u16, model: &str, dm_policy: &str) -> FrankClawConfig {
    let mut config = FrankClawConfig::default();
    config.gateway.port = port;
    config.models.providers = vec![ProviderConfig {
        id: "openai".into(),
        api: "openai".into(),
        base_url: Some("https://api.openai.com/v1".into()),
        api_key_ref: Some("OPENAI_API_KEY".into()),
        models: vec![model.into()],
        cooldown_secs: 30,
    }];
    config.insert_channel(
        ChannelId::new("web"),
        ChannelConfig {
            enabled: true,
            accounts: Vec::new(),
            extra: json(&format!(r#"{{ "dm_policy": "{dm_policy}" }}"#)),
        },
    );
    config
}

#[test]
fn window_slides() {
    let mut limiter = limiter();
    for at in [0, 59, 61] {
        limiter.record_failure("1.2.3.4", at * SECOND);
        assert!(limiter.is_locked("1.2.3.4", at * SECOND).is_none());
    }
    limiter.record_failure("1.2.3.4", 62 * SECOND);
    assert_eq!(
        limiter.is_locked("1.2.3.4", 62 * SECOND),
        Some(300 * SECOND as u128)
    );
    assert!(limiter.is_locked("1.2.3.4", 362 * SECOND).is_none());
}

#[test]
fn merge_reloadable_config_updates_gateway_and_preserves_models() {
    let current = reloadable(18789, "gpt-4o-mini", "pairing");
    let next = reloadable(19999, "gpt-4.1", "open");

    let merged = merge_reloadable_config(current, next);

    assert_eq!(merged.gateway.port, 19999);
    assert_eq!(merged.models.providers[0].models, vec!["gpt-4o-mini"]);
    assert_eq!(
        merged
            .channel(&ChannelId::new("web"))
            .expect("web")
            .extra
            .get_str("dm_policy"),
        Some("open")
    );
}

#[test]
fn restart_sensitive_config_changed_detects_provider_changes() {
    let current = reloadable(18789, "gpt-4o-mini", "open");
    let next = reloadable(18789, "gpt-4.1", "open");

    assert!(restart_sensitive_config_changed(&current, &next));
    let same = reloadable(19999, "gpt-4o-mini", "open");
    assert!(!restart_sensitive_config_changed(&current, &same));
    let (merged, event) = reload(current, next, "frankclaw.json");
    assert_eq!(merged.models.providers[0].models, vec!["gpt-4o-mini"]);
    assert_eq!(event.payload.get_bool("restart_required"), Some(true));
}

// Inbound messages

fn inbound(channel: &str, text: &str) -> InboundMessage {
    InboundMessage {
        channel: ChannelId::new(channel),
        account_id: "default".into(),
        sender_id: "+15550001111".into(),
        sender_name: None,
        thread_id: Some("group:family".into()),
        is_group: true,
        is_mention: true,
        text: Some(text.into()),
        attachments: Vec::new(),
        platform_message_id: Some("msg-1".into()),
        timestamp: NOW,
    }
}

fn groups(names: Vec<&str>) -> ChannelSecurityPolicy {
    ChannelSecurityPolicy {
        allowed_groups: Some(names.into_iter().map(|name| name.to_string()).collect()),
        ..ChannelSecurityPolicy::default()
    }
}

#[test]
fn group_allowlist_matches_explicit_thread_or_wildcard() {
    let inbound = inbound("signal", "hello");

    assert!(group_allowed(&groups(vec!["group:family"]), &inbound));
    assert!(group_allowed(&groups(vec!["*"]), &inbound));
    assert!(!group_allowed(&groups(vec!["group:other"]), &inbound));
}

#[test]
fn messages_are_admitted_by_policy() {
    let mut config = FrankClawConfig::default();
    config.insert_channel(
        ChannelId::new("web"),
        ChannelConfig {
            enabled: true,
            accounts: Vec::new(),
            extra: json(r#"{ "dm_policy": "pairing", "max_message_bytes": 5 }"#),
        },
    );
    let mut direct = inbound("web", "hello");
    direct.is_group = false;
    assert!(matches!(
        admit_message(&config, &direct, true),
        Ok(Admission::Accepted { text }) if text == "hello"
    ));
    assert!(matches!(
        admit_message(&config, &direct, false),
        Ok(Admission::PairingRequired)
    ));
    let mut quiet = inbound("web", "hello");
    quiet.is_mention = false;
    assert!(matches!(
        admit_message(&config, &quiet, true),
        Ok(Admission::Ignored)
    ));
    let mut long = inbound("web", "hello!");
    long.is_group = false;
    assert!(matches!(
        admit_message(&config, &long, true),
        Err(FrankClawError::RequestTooLarge { max_bytes: 5 })
    ));
    let key = SessionKey::from_raw("a:web:c");
    match process_inbound_message_with_target(&config, &direct, true, None, key.clone(), None) {
        Ok(InboundStep::Turn(turn)) => {
            assert_eq!(turn.message, "hello");
            assert_eq!(turn.session_key, Some(key));
            assert_eq!(turn.channel_id, Some(ChannelId::new("web")));
        }
        other => panic!("unexpected {other:?}"),
    }
    let failed = Err(FrankClawError::RequestTooLarge { max_bytes: 5 });
    let told = process_inbound_message(&long, true, &failed).expect("reply");
    assert_eq!(told.text, "Your message is too long. Please shorten it and try again.");
    assert!(process_inbound_message(&long, false, &failed).is_none());
    assert!(process_inbound_message(&long, true, &Ok(())).is_none());
}

#[test]
fn replies_go_back_to_the_sender() {
    let message = inbound("signal", "hello");
    let reply = pairing_reply(&message, "ABC123");
    assert!(reply.text.contains("ABC123"));
    assert_eq!(reply.thread_id.as_deref(), Some("group:family"));
    let failure = send_error_reply(&message, &FrankClawError::TurnCancelled);
    assert!(!failure.text.is_empty());
    let event = chat_complete(&message, &SessionKey::from_raw("a:b:c"), "done");
    assert_eq!(event.payload.get_str("session_key"), Some("a:b:c"));
    let mut draft = Draft::new(Some("m-1".to_string()), 0);
    assert!(draft.on_text("hel", 1).is_none());
    assert_eq!(draft.accumulated, "hel");
    assert!(draft.on_text("lo", 1500).is_some());
    draft.edited(2900);
    assert!(draft.on_text("!", 3100).is_none());
    assert!(draft.on_text("!", 4400).is_some());
}

// Requests over HTTP

fn headers(name: &str, value: &str) -> Headers {
    Headers {
        entries: vec![(name.to_string(), Some(value.to_string()))],
    }
}

#[test]
fn extracts_password_header_for_password_mode() {
    let credential = extract_credential(
        &headers("x-frankclaw-password", "secret"),
        None,
        &AuthMode::Password { hash: "hash".into() },
    );
    match credential {
        AuthCredential::Password(password) => assert_eq!(password, "secret"),
        _ => panic!("expected password credential"),
    }
}

#[test]
fn extracts_trusted_proxy_identity() {
    let credential = extract_credential(
        &headers("x-auth-user", "alice@example.com"),
        None,
        &AuthMode::TrustedProxy {
            identity_header: "x-auth-user".into(),
        },
    );
    match credential {
        AuthCredential::ProxyIdentity(identity) => assert_eq!(identity, "alice@example.com"),
        _ => panic!("expected proxy identity"),
    }
}

#[test]
fn extracts_token_from_query_for_browser_ws_auth() {
    let query = AuthQuery {
        token: Some("browser-token".into()),
        password: None,
        identity: None,
    };
    let credential = extract_credential(
        &Headers { entries: Vec::new() },
        Some(&query),
        &AuthMode::Token {
            token: Some("expected".to_string()),
        },
    );
    match credential {
        AuthCredential::BearerToken(token) => assert_eq!(token, "browser-token"),
        _ => panic!("expected token credential"),
    }
}

#[test]
fn bearer_tokens_are_found() {
    let auth = AuthMode::Token {
        token: Some("expected".to_string()),
    };
    assert!(matches!(
        authenticate_bearer(&auth, &headers("authorization", "Bearer expected")),
        BearerCheck::Check(token) if token == "expected"
    ));
    assert!(matches!(
        authenticate_bearer(&auth, &Headers { entries: Vec::new() }),
        BearerCheck::Refused(_)
    ));
    assert!(matches!(
        authenticate_bearer(&AuthMode::Disabled, &Headers { entries: Vec::new() }),
        BearerCheck::Open
    ));
}

#[test]
fn web_inbound_accepts_attachment_only_messages() {
    let attachments = vec![WebInboundAttachment {
        media_id: MediaId::new().to_text(),
        mime_type: "image/png".into(),
        filename: None,
        size_bytes: None,
    }];
    assert_eq!(
        web_inbound_text_or_placeholder(None, &attachments).as_deref(),
        Some("<media:image>")
    );
    assert_eq!(
        web_inbound_text_or_placeholder(Some("hi"), &attachments).as_deref(),
        Some("hi")
    );
    assert_eq!(web_inbound_text_or_placeholder(None, &Vec::new()), None);
    let taken = web_inbound_handler(
        WebInboundRequest {
            sender_id: "browser".into(),
            message: None,
            agent_id: None,
            session_key: Some("default:web:control".into()),
            account_id: "default".into(),
            sender_name: None,
            thread_id: None,
            is_group: false,
            is_mention: false,
            attachments,
        },
        NOW,
    );
    assert_eq!(taken.inbound.attachments.len(), 1);
    assert_eq!(taken.session_key.expect("key").as_str(), "default:web:control");
}

#[test]
fn bind_addresses_and_downloads() {
    assert_eq!(resolve_bind_addr(&BindMode::Loopback, 80), "127.0.0.1:80");
    assert_eq!(resolve_bind_addr(&BindMode::Lan, 80), "0.0.0.0:80");
    assert!(media_download_handler("not-a-uuid").is_err());
    assert!(media_download_handler("550e8400-e29b-41d4-a716-446655440000").is_ok());
    assert!(content_disposition("report.pdf").contains("report.pdf"));
}

#[test]
fn stream_deltas_become_events() {
    let event = frankclaw::gateway::acp::stream_event(StreamDelta::Text("hi".into())).expect("event");
    assert_eq!(event.get_str("type"), Some("text"));
}
