//! The channels: what they read, what they write, and how they are loaded.

use frankclaw::channels::discord;
use frankclaw::channels::inbound_media::infer_inbound_mime_type;
use frankclaw::channels::slack;
use frankclaw::channels::socket::{frame_document, SocketFrame};
use frankclaw::channels::web::WebChannel;
use frankclaw::channels::whatsapp;
use frankclaw::channels::whatsapp::{
    classify_whatsapp_send_error, is_processable_message_type, AttachmentKind, WhatsAppChannel,
};
use frankclaw::channels::{load_from_config, ChannelSet};
use frankclaw::config::{ChannelConfig, FrankClawConfig};
use frankclaw::error::FrankClawError;
use frankclaw::json::{JsonNumber, JsonValue};
use frankclaw::media::MediaId;
use frankclaw::message::{
    DeleteMessageTarget, EditMessageTarget, OutboundAttachment, OutboundMessage,
};
use frankclaw::text_map::TextMap;
use frankclaw::types::{ChannelId, Timestamp};
use hmac::{Hmac, Mac};
use sha2::Sha256;

fn json_value(value: &serde_json::Value) -> JsonValue {
    match value {
        serde_json::Value::Null => JsonValue::Null,
        serde_json::Value::Bool(b) => JsonValue::Bool(*b),
        serde_json::Value::Number(n) => {
            if let Some(n) = n.as_u64() {
                JsonValue::Number(JsonNumber::Unsigned(n))
            } else if let Some(n) = n.as_i64() {
                JsonValue::Number(JsonNumber::Negative(n))
            } else {
                JsonValue::Number(JsonNumber::Literal(n.to_string()))
            }
        }
        serde_json::Value::String(s) => JsonValue::Text(s.clone()),
        serde_json::Value::Array(items) => JsonValue::Array(items.iter().map(json_value).collect()),
        serde_json::Value::Object(members) => JsonValue::Object(
            members
                .iter()
                .map(|(key, value)| (key.clone(), json_value(value)))
                .collect(),
        ),
    }
}

fn json(text: &str) -> JsonValue {
    json_value(&serde_json::from_str(text).expect("test JSON should parse"))
}

const NOW: Timestamp = Timestamp {
    secs: 1_700_000_000,
    nanos: 0,
};

fn outbound(channel: &str, to: &str, text: &str) -> OutboundMessage {
    OutboundMessage {
        channel: ChannelId::new(channel),
        account_id: "default".into(),
        to: to.into(),
        thread_id: None,
        text: text.into(),
        attachments: Vec::new(),
        reply_to: None,
    }
}

// Discord

#[test]
fn parse_message_create_detects_group_mentions() {
    let inbound = discord::parse_message_create(
        &json(
            r#"{
                "id": "msg-1",
                "channel_id": "chan-1",
                "guild_id": "guild-1",
                "content": "<@999> hello",
                "timestamp": "2026-03-10T12:00:00Z",
                "author": { "id": "user-1", "username": "alice", "bot": false },
                "mentions": [{ "id": "999" }]
            }"#,
        ),
        Some("999"),
        NOW,
    )
    .expect("message should parse");

    assert!(inbound.is_group);
    assert!(inbound.is_mention);
    assert_eq!(inbound.thread_id.as_deref(), Some("chan-1"));
    // 2026-03-10T12:00:00Z
    assert_eq!(inbound.timestamp.secs, 1_773_144_000);
    assert_eq!(inbound.timestamp.nanos, 0);
}

#[test]
fn parse_message_create_skips_bot_messages() {
    let inbound = discord::parse_message_create(
        &json(
            r#"{
                "id": "msg-1",
                "channel_id": "chan-1",
                "content": "hello",
                "author": { "id": "bot-1", "username": "bot", "bot": true }
            }"#,
        ),
        Some("999"),
        NOW,
    );

    assert!(inbound.is_none());
}

#[test]
fn build_send_body_uses_content_field() {
    let body = discord::build_send_body(&outbound("discord", "chan-1", "hello"), "hello");

    assert_eq!(body.get_str("content"), Some("hello"));
}

#[test]
fn build_send_body_includes_reply_reference_when_present() {
    let mut msg = outbound("discord", "chan-1", "hello");
    msg.reply_to = Some("msg-99".into());
    let body = discord::build_send_body(&msg, "hello");

    assert_eq!(
        body.get_str_at("message_reference", "message_id"),
        Some("msg-99")
    );
    let allowed = body.get("allowed_mentions").expect("allowed_mentions");
    assert_eq!(allowed.get_array("parse").expect("parse").len(), 0);
}

#[test]
fn build_edit_request_prefers_thread_target() {
    let (channel_id, body) = discord::build_edit_request(
        &EditMessageTarget {
            account_id: "default".into(),
            to: "chan-1".into(),
            thread_id: Some("thread-9".into()),
            platform_message_id: "msg-99".into(),
        },
        "updated",
    );

    assert_eq!(channel_id, "thread-9");
    assert_eq!(body.get_str("content"), Some("updated"));
}

#[test]
fn delete_uses_thread_target_channel() {
    let target = DeleteMessageTarget {
        account_id: "default".into(),
        to: "chan-1".into(),
        thread_id: Some("thread-9".into()),
        platform_message_id: "msg-99".into(),
    };

    assert_eq!(target.thread_id.as_deref().unwrap_or(&target.to), "thread-9");
    assert_eq!(
        discord::delete_path(&target),
        "/channels/thread-9/messages/msg-99"
    );
}

#[test]
fn parse_message_create_collects_attachment_metadata() {
    let inbound = discord::parse_message_create(
        &json(
            r#"{
                "id": "msg-1",
                "channel_id": "chan-1",
                "content": "",
                "timestamp": "2026-03-10T12:00:00Z",
                "author": { "id": "user-1", "username": "alice", "bot": false },
                "attachments": [
                    {
                        "filename": "image.png",
                        "content_type": "image/png",
                        "size": 1234,
                        "url": "https://cdn.discordapp.com/file.png"
                    }
                ]
            }"#,
        ),
        Some("999"),
        NOW,
    )
    .expect("message should parse");

    assert_eq!(inbound.attachments.len(), 1);
    assert_eq!(inbound.attachments[0].filename.as_deref(), Some("image.png"));
    assert_eq!(inbound.attachments[0].mime_type, "image/png");
    assert_eq!(inbound.attachments[0].size_bytes, Some(1234));
}

#[test]
fn discord_message_without_time_takes_the_present() {
    let inbound = discord::parse_message_create(
        &json(
            r#"{ "id": "m", "channel_id": "c", "content": "hi", "timestamp": "yesterday",
                 "author": { "id": "u" } }"#,
        ),
        None,
        NOW,
    )
    .expect("message should parse");

    assert_eq!(inbound.timestamp.secs, NOW.secs);
    assert!(!inbound.is_group);
    assert_eq!(inbound.text.as_deref(), Some("hi"));
}

#[test]
fn discord_gateway_handshake() {
    assert_eq!(
        discord::gateway_url(&json(r#"{ "url": "wss://gateway.discord.gg" }"#)).ok(),
        Some("wss://gateway.discord.gg/?v=10&encoding=json".to_string())
    );
    assert!(discord::gateway_url(&json("{}")).is_err());
    assert_eq!(
        discord::heartbeat_interval_ms(&json(r#"{ "op": 10, "d": { "heartbeat_interval": 41250 } }"#)).ok(),
        Some(41250)
    );
    assert!(discord::heartbeat_interval_ms(&json(r#"{ "op": 10 }"#)).is_err());
    let identify = discord::identify("secret", "linux");
    assert_eq!(identify.get_u64("op"), Some(2));
    assert_eq!(identify.get_str_at("d", "token"), Some("secret"));
}

// Slack

#[test]
fn parse_event_message_detects_group_mentions_and_threads() {
    let inbound = slack::parse_event_message(
        &json(
            r#"{
                "type": "message",
                "channel": "C123",
                "channel_type": "channel",
                "user": "U123",
                "text": "<@UBOT> hello",
                "ts": "1710000000.123456",
                "thread_ts": "1710000000.000001"
            }"#,
        ),
        Some("UBOT"),
        NOW,
    )
    .expect("message should parse");

    assert!(inbound.is_group);
    assert!(inbound.is_mention);
    assert_eq!(
        inbound.thread_id.as_deref(),
        Some("C123:thread:1710000000.000001")
    );
    assert_eq!(inbound.timestamp.secs, 1_710_000_000);
}

#[test]
fn parse_event_message_skips_bot_messages() {
    let inbound = slack::parse_event_message(
        &json(
            r#"{
                "type": "message",
                "channel": "C123",
                "user": "U123",
                "bot_id": "B123",
                "text": "hello",
                "ts": "1710000000.123456"
            }"#,
        ),
        Some("UBOT"),
        NOW,
    );

    assert!(inbound.is_none());
}

#[test]
fn parse_event_message_collects_files_and_uses_media_placeholder() {
    let inbound = slack::parse_event_message(
        &json(
            r#"{
                "type": "message",
                "channel": "C123",
                "channel_type": "channel",
                "user": "U123",
                "ts": "1710000000.123456",
                "files": [{
                    "name": "report.pdf",
                    "mimetype": "application/pdf",
                    "size": 2048,
                    "url_private": "https://files.example/report.pdf"
                }]
            }"#,
        ),
        None,
        NOW,
    )
    .expect("message should parse");

    assert_eq!(inbound.text.as_deref(), Some("<media:attachment>"));
    assert_eq!(inbound.attachments.len(), 1);
    assert_eq!(inbound.attachments[0].filename.as_deref(), Some("report.pdf"));
    assert_eq!(
        inbound.attachments[0].url.as_deref(),
        Some("https://files.example/report.pdf")
    );
}

#[test]
fn build_send_body_includes_thread_ts_when_target_is_thread() {
    let mut msg = outbound("slack", "C123", "hello");
    msg.thread_id = Some("C123:thread:1710000000.000001".into());
    let body = slack::build_send_body(&msg, "hello");

    assert_eq!(body.get_str("channel"), Some("C123"));
    assert_eq!(body.get_str("thread_ts"), Some("1710000000.000001"));
}

#[test]
fn build_send_body_uses_reply_to_as_thread_anchor_when_not_already_threaded() {
    let mut msg = outbound("slack", "C123", "hello");
    msg.reply_to = Some("1710000000.123456".into());
    let body = slack::build_send_body(&msg, "hello");

    assert_eq!(body.get_str("channel"), Some("C123"));
    assert_eq!(body.get_str("thread_ts"), Some("1710000000.123456"));
    assert_eq!(body.get_bool("reply_broadcast"), Some(false));
}

#[test]
fn build_edit_body_uses_channel_from_thread_target() {
    let body = slack::build_edit_body(
        &EditMessageTarget {
            account_id: "default".into(),
            to: "C123".into(),
            thread_id: Some("C123:thread:1710000000.000001".into()),
            platform_message_id: "1710000000.123456".into(),
        },
        "updated",
    );

    assert_eq!(body.get_str("channel"), Some("C123"));
    assert_eq!(body.get_str("ts"), Some("1710000000.123456"));
    assert_eq!(body.get_str("text"), Some("updated"));
}

#[test]
fn build_delete_body_uses_channel_from_thread_target() {
    let body = slack::build_delete_body(&DeleteMessageTarget {
        account_id: "default".into(),
        to: "C123".into(),
        thread_id: Some("C123:thread:1710000000.000001".into()),
        platform_message_id: "1710000000.123456".into(),
    });

    assert_eq!(body.get_str("channel"), Some("C123"));
    assert_eq!(body.get_str("ts"), Some("1710000000.123456"));
}

#[test]
fn slack_thread_targets_read_back() {
    let odd = slack::encode_thread_target("C123", Some("1:thread:2"));
    assert_eq!(
        slack::parse_thread_target(Some(&odd), "other"),
        ("C123".to_string(), Some("1:thread:2".to_string()))
    );
    let target = slack::encode_thread_target("C123", Some("1710000000.000001"));
    assert_eq!(target, "C123:thread:1710000000.000001");
    assert_eq!(
        slack::parse_thread_target(Some(&target), "other"),
        ("C123".to_string(), Some("1710000000.000001".to_string()))
    );
    assert_eq!(slack::encode_thread_target("C123", None), "C123");
    assert_eq!(
        slack::parse_thread_target(Some("C123"), "other"),
        ("C123".to_string(), None)
    );
    assert_eq!(
        slack::parse_thread_target(None, "other"),
        ("other".to_string(), None)
    );
}

#[test]
fn slack_answers_and_frames() {
    assert_eq!(
        slack::socket_mode_url(&json(r#"{ "ok": true, "url": "wss://slack" }"#)).ok(),
        Some("wss://slack".to_string())
    );
    assert!(slack::socket_mode_url(&json(r#"{ "ok": false, "error": "bad" }"#)).is_err());
    let event = slack::on_frame(
        &json(
            r#"{ "envelope_id": "e-1", "type": "events_api",
                 "payload": { "event": { "type": "message", "channel": "D1", "user": "U1",
                                          "text": "hi", "ts": "1710000000.1" } } }"#,
        ),
        None,
        NOW,
    );
    assert_eq!(
        event.receipt.expect("receipt").get_str("envelope_id"),
        Some("e-1")
    );
    assert_eq!(
        event.message.expect("message").text.as_deref(),
        Some("hi")
    );
    assert_eq!(slack::parse_retry_after(Some("30")), Some(30));
    assert_eq!(slack::parse_retry_after(Some("soon")), None);
    assert_eq!(slack::parse_slack_timestamp("1710000000.5").expect("time").secs, 1_710_000_000);
}

// Web

#[test]
fn drain_outbound_only_returns_messages_for_requested_recipient() {
    let mut channel = WebChannel::new();
    channel.send(outbound("web", "browser-a", "hello a"));
    let mut second = outbound("web", "browser-b", "hello b");
    second.attachments = vec![OutboundAttachment {
        media_id: MediaId::new(),
        mime_type: "image/png".into(),
        filename: Some("photo.png".into()),
        url: Some("/api/media/test".into()),
        bytes: b"png".to_vec(),
    }];
    channel.send(second);

    let a = channel.drain_outbound("default", "browser-a");
    let b = channel.drain_outbound("default", "browser-b");

    assert_eq!(a.len(), 1);
    assert_eq!(a[0].text, "hello a");
    assert_eq!(b.len(), 1);
    assert_eq!(b[0].text, "hello b");
    assert_eq!(b[0].attachments.len(), 1);
    assert!(channel.drain_outbound("default", "browser-a").is_empty());
}

// WhatsApp

#[test]
fn parse_webhook_payload_extracts_text_messages() {
    let payload = json(
        r#"{ "entry": [{ "changes": [{ "value": {
            "metadata": { "phone_number_id": "12345" },
            "contacts": [{ "wa_id": "15551234567", "profile": { "name": "Alice" } }],
            "messages": [{
                "from": "15551234567",
                "id": "wamid.1",
                "timestamp": "1710000000",
                "type": "text",
                "text": { "body": "hello" }
            }]
        } }] }] }"#,
    );

    let messages = whatsapp::parse_webhook_payload(&payload, NOW);
    assert_eq!(messages.len(), 1);
    assert_eq!(messages[0].account_id, "12345");
    assert_eq!(messages[0].sender_id, "15551234567");
    assert_eq!(messages[0].sender_name.as_deref(), Some("Alice"));
    assert_eq!(messages[0].text.as_deref(), Some("hello"));
    assert_eq!(messages[0].timestamp.secs, 1_710_000_000);
}

#[test]
fn parse_webhook_payload_extracts_media_messages_without_text_body() {
    let payload = json(
        r#"{ "entry": [{ "changes": [{ "value": {
            "metadata": { "phone_number_id": "12345" },
            "messages": [{
                "from": "15551234567",
                "id": "wamid.2",
                "timestamp": "1710000001",
                "type": "image",
                "image": { "mime_type": "image/png" }
            }]
        } }] }] }"#,
    );

    let messages = whatsapp::parse_webhook_payload(&payload, NOW);
    assert_eq!(messages.len(), 1);
    assert_eq!(messages[0].text.as_deref(), Some("<media:image>"));
    assert_eq!(messages[0].attachments.len(), 1);
    assert_eq!(messages[0].attachments[0].mime_type, "image/png");
}

#[test]
fn parse_webhook_payload_extracts_interactive_reply_titles() {
    let payload = json(
        r#"{ "entry": [{ "changes": [{ "value": {
            "metadata": { "phone_number_id": "12345" },
            "messages": [{
                "from": "15551234567",
                "id": "wamid.3",
                "timestamp": "1710000002",
                "type": "interactive",
                "interactive": { "button_reply": { "id": "btn-1", "title": "Yes, continue" } }
            }]
        } }] }] }"#,
    );

    let messages = whatsapp::parse_webhook_payload(&payload, NOW);
    assert_eq!(messages.len(), 1);
    assert_eq!(messages[0].text.as_deref(), Some("Yes, continue"));
}

#[test]
fn parse_webhook_payload_normalizes_parameterized_audio_mime() {
    let payload = json(
        r#"{ "entry": [{ "changes": [{ "value": {
            "metadata": { "phone_number_id": "12345" },
            "messages": [{
                "from": "15551234567",
                "id": "wamid.4",
                "timestamp": "1710000003",
                "type": "audio",
                "audio": { "mime_type": "Audio/Ogg; codecs=opus" }
            }]
        } }] }] }"#,
    );

    let messages = whatsapp::parse_webhook_payload(&payload, NOW);
    assert_eq!(messages.len(), 1);
    assert_eq!(messages[0].text.as_deref(), Some("<media:audio>"));
    assert_eq!(messages[0].attachments[0].mime_type, "audio/ogg");
}

#[test]
fn build_send_body_includes_reply_context() {
    let mut msg = outbound("whatsapp", "15551234567", "hello");
    msg.reply_to = Some("wamid.1".into());
    let body = whatsapp::build_send_body(&msg, "hello");

    assert_eq!(body.get_str("to"), Some("15551234567"));
    assert_eq!(body.get_str_at("text", "body"), Some("hello"));
    assert_eq!(body.get_str_at("context", "message_id"), Some("wamid.1"));
}

#[test]
fn build_media_send_body_uses_document_payload() {
    let mut msg = outbound("whatsapp", "15551234567", "See attached");
    msg.reply_to = Some("wamid.1".into());
    let body = whatsapp::build_media_send_body(
        &msg,
        AttachmentKind::Document,
        "report.pdf",
        "media-1",
        "See attached",
    );

    assert_eq!(body.get_str("type"), Some("document"));
    assert_eq!(body.get_str_at("document", "id"), Some("media-1"));
    assert_eq!(body.get_str_at("document", "filename"), Some("report.pdf"));
    assert_eq!(body.get_str_at("document", "caption"), Some("See attached"));
    assert_eq!(body.get_str_at("context", "message_id"), Some("wamid.1"));
}

#[test]
fn build_media_send_body_omits_caption_for_audio() {
    let msg = outbound("whatsapp", "15551234567", "ignored");
    let body = whatsapp::build_media_send_body(
        &msg,
        AttachmentKind::Audio,
        "voice.ogg",
        "media-2",
        "ignored",
    );

    assert_eq!(body.get_str("type"), Some("audio"));
    assert_eq!(body.get_str_at("audio", "id"), Some("media-2"));
    assert!(body.get("audio").expect("audio").get("caption").is_none());
}

fn signed_channel() -> WhatsAppChannel {
    WhatsAppChannel::new(
        "access-token".to_string(),
        "12345",
        "verify-token".to_string(),
        Some("app-secret".to_string()),
    )
}

#[test]
fn verify_signature_accepts_valid_prefixed_header() {
    let channel = signed_channel();
    let body = br#"{"entry":[{"id":"1"}]}"#;

    let mut mac = Hmac::<Sha256>::new_from_slice(b"app-secret").expect("hmac should initialize");
    mac.update(body);
    let bytes = mac.finalize().into_bytes();
    let signature = format!(
        "sha256={}",
        bytes.iter().map(|byte| format!("{byte:02x}")).collect::<String>()
    );

    assert!(channel.verify_signature(body, Some(&signature)).is_ok());
}

#[test]
fn verify_signature_rejects_missing_or_invalid_headers_when_secret_is_configured() {
    let channel = signed_channel();
    let body = br#"{"entry":[{"id":"1"}]}"#;

    assert!(matches!(
        channel.verify_signature(body, None),
        Err(FrankClawError::AuthRequired)
    ));
    assert!(matches!(
        channel.verify_signature(body, Some("sha256=deadbeef")),
        Err(FrankClawError::AuthFailed)
    ));
}

#[test]
fn whatsapp_endpoints_and_tokens() {
    let channel = signed_channel();
    assert!(channel.verify_token_matches(" verify-token "));
    assert!(!channel.verify_token_matches("verify-tokem"));
    assert_eq!(channel.auth_header(), "Bearer access-token");
    assert_eq!(
        channel.messages_endpoint(),
        "https://graph.facebook.com/v19.0/12345/messages"
    );
}

#[test]
fn is_processable_message_type_accepts_content_types() {
    for t in ["text", "image", "video", "audio", "document", "sticker", "interactive", "button"] {
        assert!(is_processable_message_type(t), "should accept {t}");
    }
}

#[test]
fn is_processable_message_type_rejects_non_content_types() {
    for t in ["reaction", "status", "system", "ephemeral", "order", "unknown"] {
        assert!(!is_processable_message_type(t), "should reject {t}");
    }
}

#[test]
fn parse_webhook_payload_skips_reaction_messages() {
    let payload = json(
        r#"{ "entry": [{ "changes": [{ "value": {
            "metadata": { "phone_number_id": "12345" },
            "contacts": [{ "wa_id": "15551234567", "profile": { "name": "User" } }],
            "messages": [
                {
                    "from": "15551234567",
                    "type": "reaction",
                    "id": "wamid.reaction1",
                    "timestamp": "1700000000",
                    "reaction": { "message_id": "wamid.1", "emoji": "👍" }
                },
                {
                    "from": "15551234567",
                    "type": "text",
                    "id": "wamid.text1",
                    "timestamp": "1700000000",
                    "text": { "body": "hello" }
                }
            ]
        } }] }] }"#,
    );

    let messages = whatsapp::parse_webhook_payload(&payload, NOW);
    assert_eq!(messages.len(), 1);
    assert_eq!(messages[0].text.as_deref(), Some("hello"));
}

#[test]
fn classify_whatsapp_send_error_provides_helpful_messages() {
    assert!(classify_whatsapp_send_error(131030, "").contains("not a WhatsApp user"));
    assert!(classify_whatsapp_send_error(131031, "").contains("blocked"));
}

#[test]
fn classify_whatsapp_send_error_passes_through_unknown_codes() {
    assert_eq!(classify_whatsapp_send_error(0, "some error"), "some error");
}

// Media types

#[test]
fn prefers_explicit_mime_type_when_present() {
    assert_eq!(
        infer_inbound_mime_type(
            Some("image/custom"),
            Some("photo.png"),
            Some("https://example.test/photo.jpg"),
        ),
        "image/custom"
    );
}

#[test]
fn infers_from_filename_when_provider_omits_type() {
    assert_eq!(
        infer_inbound_mime_type(None, Some("voice-note.m4a"), None),
        "audio/mp4"
    );
}

#[test]
fn infers_from_url_when_filename_is_missing() {
    assert_eq!(
        infer_inbound_mime_type(
            None,
            None,
            Some("https://cdn.example.test/path/report.pdf?sig=1")
        ),
        "application/pdf"
    );
}

// Loading

fn channel_config(accounts: Vec<JsonValue>) -> ChannelConfig {
    ChannelConfig {
        enabled: true,
        accounts,
        extra: JsonValue::Object(Vec::new()),
    }
}

fn load(id: &str, account: &str) -> ChannelSet {
    let mut config = FrankClawConfig::default();
    config.insert_channel(ChannelId::new(id), channel_config(vec![json(account)]));
    load_from_config(&TextMap::new(), &config).expect("channels should load")
}

#[test]
fn load_from_config_builds_web_channel() {
    let mut config = FrankClawConfig::default();
    config.insert_channel(ChannelId::new("web"), channel_config(Vec::new()));

    let channels = load_from_config(&TextMap::new(), &config).expect("channels should load");
    assert!(channels.web().is_some());
    assert!(channels.get(&ChannelId::new("web")).is_some());
}

#[test]
fn load_from_config_builds_telegram_from_inline_token() {
    let channels = load("telegram", r#"{ "bot_token": "test-token" }"#);
    let channel = channels
        .get(&ChannelId::new("telegram"))
        .expect("telegram channel should exist");
    assert_eq!(channel.label(), "Telegram");
}

#[test]
fn load_from_config_builds_discord_from_inline_token() {
    let channels = load("discord", r#"{ "bot_token": "test-token" }"#);
    let channel = channels
        .get(&ChannelId::new("discord"))
        .expect("discord channel should exist");
    assert_eq!(channel.label(), "Discord");
}

#[test]
fn load_from_config_builds_slack_from_inline_tokens() {
    let channels = load(
        "slack",
        r#"{ "app_token": "xapp-test", "bot_token": "xoxb-test" }"#,
    );
    let channel = channels
        .get(&ChannelId::new("slack"))
        .expect("slack channel should exist");
    assert_eq!(channel.label(), "Slack");
}

#[test]
fn load_from_config_builds_signal_from_inline_base_url() {
    let channels = load(
        "signal",
        r#"{ "base_url": "http://127.0.0.1:8080", "account": "+15551234567" }"#,
    );
    let channel = channels
        .get(&ChannelId::new("signal"))
        .expect("signal channel should exist");
    assert_eq!(channel.label(), "Signal");
}

#[test]
fn load_from_config_builds_whatsapp_from_inline_values() {
    let channels = load(
        "whatsapp",
        r#"{ "access_token": "test-token", "phone_number_id": "123456789", "verify_token": "verify-me" }"#,
    );
    let handle = channels.whatsapp().expect("handle");
    assert_eq!(handle.access_token, "test-token");
    assert_eq!(handle.phone_number_id, "123456789");
    assert_eq!(handle.verify_token, "verify-me");
    assert!(handle.app_secret.is_none());
    let channel = channels
        .get(&ChannelId::new("whatsapp"))
        .expect("whatsapp channel should exist");
    assert_eq!(channel.label(), "WhatsApp");
    assert!(channels.whatsapp().is_some());
}

#[test]
fn load_from_config_reads_the_environment() {
    let mut vars: TextMap<String> = TextMap::new();
    let mut config = FrankClawConfig::default();
    config.insert_channel(
        ChannelId::new("discord"),
        channel_config(vec![json(r#"{ "bot_token_env": "MY_TOKEN" }"#)]),
    );
    assert!(load_from_config(&vars, &config).is_err());
    vars.insert("MY_TOKEN", "abc".to_string());
    assert!(load_from_config(&vars, &config).is_ok());
}

#[test]
fn socket_frames_bring_documents() {
    let text = |text: &str| SocketFrame::Text(text.to_string());
    let hello = discord::parse_gateway_message(text(r#"{ "op": 10, "s": -1, "x": 1.5 }"#)).expect("hello");
    assert_eq!(hello.get_u64("op"), Some(10));
    assert_eq!(hello.get_i64("s"), Some(-1));
    assert!(hello.get_u64("x").is_none());
    let channel_says = |r: Result<JsonValue, FrankClawError>| match r {
        Err(FrankClawError::Channel { channel, msg }) => format!("{channel}: {msg}"),
        other => panic!("unexpected {other:?}"),
    };
    assert!(channel_says(discord::parse_gateway_message(text("{")))
        .starts_with("discord: discord gateway sent invalid JSON: "));
    assert_eq!(
        channel_says(slack::parse_socket_frame(SocketFrame::Close)),
        "slack: slack socket mode closed"
    );
    assert_eq!(
        channel_says(frame_document("slack", "peer", Err("bad".into()))),
        "slack: peer sent invalid JSON: bad"
    );
}
