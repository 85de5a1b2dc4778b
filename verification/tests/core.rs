//! Identifiers, texts, times, signatures and the configuration.

use frankclaw::config::{
    config_notation, AuthMode, BindMode, ChannelConfig, ChannelDmPolicy, ConfigNotation,
    FrankClawConfig, ProviderConfig, RawMapping, WebhookMapping,
};
use frankclaw::error::FrankClawError;
use frankclaw::json::{same_value, JsonNumber, JsonObject, JsonValue};
use frankclaw::media::MediaId;
use frankclaw::signature::{decode_hex, encode_hex, encode_signature, signature_matches};
use frankclaw::text;
use frankclaw::text_map::TextMap;
use frankclaw::time;
use frankclaw::types::{clamp_id, AgentId, ChannelId, SessionKey, Timestamp, MAX_ID_LEN};

fn json_value(value: &serde_json::Value) -> JsonValue {
    match value {
        serde_json::Value::Null => JsonValue::Null,
        serde_json::Value::Bool(b) => JsonValue::Bool(*b),
        serde_json::Value::Number(n) => {
            if let Some(n) = n.as_u64() {
                JsonValue::Number(JsonNumber::Unsigned(n))
            } else if let Some(n) = n.as_i64() {
                JsonValue::Number(JsonNumber::Negative(n))
            } else {
                JsonValue::Number(JsonNumber::Literal(n.to_string()))
            }
        }
        serde_json::Value::String(s) => JsonValue::Text(s.clone()),
        serde_json::Value::Array(items) => JsonValue::Array(items.iter().map(json_value).collect()),
        serde_json::Value::Object(members) => JsonValue::Object(
            members
                .iter()
                .map(|(key, value)| (key.clone(), json_value(value)))
                .collect(),
        ),
    }
}

fn json(text: &str) -> JsonValue {
    json_value(&serde_json::from_str(text).expect("test JSON should parse"))
}

// Identifiers

#[test]
fn agent_id_clamps_long_input() {
    let long = "x".repeat(1000);
    let id = AgentId::new(&long);
    assert_eq!(id.as_str().len(), MAX_ID_LEN);
}

#[test]
fn agent_id_preserves_normal_input() {
    assert_eq!(AgentId::new("default").as_str(), "default");
}

#[test]
fn channel_id_clamps_long_input() {
    let long = "c".repeat(1000);
    let id = ChannelId::new(&long);
    assert_eq!(id.as_str().len(), MAX_ID_LEN);
}

#[test]
fn session_key_from_raw_clamps_long_input() {
    let long = "k".repeat(5000);
    let key = SessionKey::from_raw(&long);
    assert_eq!(key.as_str().len(), 800);
}

#[test]
fn identifiers_are_cut_between_characters() {
    // Two bytes per character: the limit falls into the middle of one.
    let long = "\u{e9}".repeat(200);
    let id = AgentId::new(&long);
    assert_eq!(id.as_str(), "\u{e9}".repeat(127));
    assert_eq!(clamp_id(&long).len(), 254);
    let key = SessionKey::from_raw(&"\u{20ac}".repeat(300));
    assert_eq!(key.as_str(), "\u{20ac}".repeat(266));
    let wide = format!("a{}", "\u{1f600}".repeat(100));
    assert_eq!(clamp_id(&wide).len(), 253);
}

#[test]
fn session_key_from_raw_preserves_normal_input() {
    let key = SessionKey::from_raw("agent:web:user123");
    assert_eq!(key.as_str(), "agent:web:user123");
    assert_eq!(ChannelId::new("web").as_str(), "web");
}

#[test]
fn session_key_parse_round_trips() {
    let agent = AgentId::new("a1");
    let key = SessionKey::new(&agent, &ChannelId::new("web"), "user42");
    let (a, c, acct) = key.parse().unwrap();
    assert_eq!(a.as_str(), "a1");
    assert_eq!(c.as_str(), "web");
    assert_eq!(acct, "user42");
}

#[test]
fn session_key_account_may_hold_colons() {
    let (agent, channel, account) = SessionKey::from_raw("a:b:c:d").parse().expect("three parts");
    assert_eq!(agent.as_str(), "a");
    assert_eq!(channel.as_str(), "b");
    assert_eq!(account, "c:d");
}

#[test]
fn session_key_parse_rejects_malformed() {
    let key = SessionKey::from_raw("no-colons");
    assert!(key.parse().is_none());
}

#[test]
fn media_id_parse_rejects_invalid() {
    assert!(MediaId::parse("not-a-uuid").is_none());
    assert!(MediaId::parse("").is_none());
}

#[test]
fn media_id_parse_accepts_valid_uuid() {
    assert!(MediaId::parse("550e8400-e29b-41d4-a716-446655440000").is_some());
}

#[test]
fn media_id_text_reads_back() {
    let text = "550e8400-e29b-41d4-a716-446655440000";
    let id = MediaId::parse(" 550E8400-E29B-41D4-A716-446655440000 ").expect("valid");
    assert_eq!(id.to_text(), text);
    assert_eq!(id.0, 0x550e8400_e29b_41d4_a716_446655440000);
    let fresh = MediaId::new();
    assert_eq!(MediaId::parse(&fresh.to_text()), Some(fresh));
    assert_ne!(fresh, MediaId::new());
}

// Texts

#[test]
fn texts_are_split_and_joined() {
    assert_eq!(text::split("a.b..c", '.'), vec!["a", "b", "", "c"]);
    assert_eq!(text::lines("a\nb\r\n\nc\n"), vec!["a", "b", "", "c"]);
    assert_eq!(text::lines("a\r"), vec!["a\r"]);
    assert!(text::lines("").is_empty());
    assert_eq!(text::replace("a{x}b{x}", "{x}", "-"), "a-b-");
    assert_eq!(text::split_words("  one two\tthree "), vec!["one", "two", "three"]);
    assert_eq!(text::to_ascii_lower("Ab-É"), "ab-É");
    assert!(text::blank(" \t\n"));
    assert!(!text::blank(" x "));
}

#[test]
fn numbers_are_read_and_written() {
    assert_eq!(text::parse_unsigned("18446744073709551615"), Some(u64::MAX));
    assert_eq!(text::parse_unsigned("18446744073709551616"), None);
    assert_eq!(text::parse_unsigned("+7"), Some(7));
    assert_eq!(text::parse_unsigned(""), None);
    assert_eq!(text::parse_unsigned("-1"), None);
    assert_eq!(text::parse_signed("-9223372036854775808"), Some(i64::MIN));
    assert_eq!(text::parse_signed("9223372036854775808"), None);
    assert_eq!(text::decimal_of(1205), "1205");
}

#[test]
fn secrets_are_equal_only_when_identical() {
    assert!(text::same_secret("secret", "secret"));
    assert!(!text::same_secret("secret", "secreT"));
    assert!(!text::same_secret("secret", "secret1"));
}

#[test]
fn text_maps_hold_one_value_per_key() {
    let mut map: TextMap<u32> = TextMap::new();
    map.insert("a", 1);
    map.insert("b", 2);
    map.insert("a", 3);
    assert_eq!(map.get("a"), Some(&3));
    map.remove("a");
    assert_eq!(map.get("a"), None);
    assert_eq!(map.get("b"), Some(&2));
}

// JSON

#[test]
fn json_values_are_read_by_name() {
    let value = json(r#"{ "a": { "b": "text" }, "n": 7, "t": true, "l": [1, 2], "x": null }"#);
    assert_eq!(value.get_str_at("a", "b"), Some("text"));
    assert_eq!(value.get_u64("n"), Some(7));
    assert_eq!(value.get_bool("t"), Some(true));
    assert_eq!(value.get_array("l").expect("array").len(), 2);
    assert_eq!(value.get_str("n"), None);
    assert!(value.get("missing").is_none());
}

#[test]
fn json_objects_compare_without_order() {
    assert!(same_value(
        &json(r#"{ "a": 1, "b": [true, null] }"#),
        &json(r#"{ "b": [true, null], "a": 1 }"#)
    ));
    assert!(!same_value(&json(r#"{ "a": 1 }"#), &json(r#"{ "a": 1, "b": 2 }"#)));
    assert!(!same_value(&json("[1, 2]"), &json("[2, 1]")));
}

#[test]
fn json_objects_keep_the_last_value() {
    let mut object = JsonObject::new();
    object.put_text("key", "old");
    object.put_text("key", "new");
    object.put_unsigned("n", 3);
    let value = object.finish();
    assert_eq!(value.get_str("key"), Some("new"));
    assert_eq!(value.get_u64("n"), Some(3));
}

// Times

#[test]
fn times_have_calendar_dates() {
    let moment = Timestamp {
        secs: 1_710_000_000,
        nanos: 0,
    };
    assert!(time::is_representable(moment));
    assert!(!time::is_representable(Timestamp {
        secs: i64::MAX,
        nanos: 0,
    }));
    assert_eq!(
        time::parse_unix_timestamp("1710000000").map(|t| t.secs),
        Some(1_710_000_000)
    );
    assert_eq!(time::parse_unix_timestamp("soon"), None);
}

// Signatures

#[test]
fn hex_reads_back() {
    let bytes = vec![0u8, 1, 0x7f, 0x80, 0xff];
    let hex = encode_hex(&bytes);
    assert_eq!(hex, "00017f80ff");
    assert_eq!(decode_hex(&hex), Some(bytes));
    assert_eq!(decode_hex("ABcd"), Some(vec![0xab, 0xcd]));
    assert_eq!(decode_hex("abc"), None);
    assert_eq!(decode_hex("zz"), None);
}

#[test]
fn signatures_match_their_body() {
    // Test case 2 of RFC 4231.
    let signature = encode_signature("Jefe", b"what do ya want for nothing?");
    assert_eq!(
        signature,
        "sha256=5bdcc146bf60754e6a042426089575c75a003f089d2739839dec58b964ec3843"
    );
    assert!(signature_matches("Jefe", b"what do ya want for nothing?", &signature));
    assert!(!signature_matches("Jefe", b"something else", &signature));
    assert!(!signature_matches("Jeff", b"what do ya want for nothing?", &signature));
}

// Configuration

fn is_valid(config: &FrankClawConfig) -> bool {
    config.validate(Ok(()), true).is_ok()
}

fn complaint(config: &FrankClawConfig) -> String {
    match config.validate(Ok(()), true) {
        Err(FrankClawError::ConfigValidation { msg }) => msg,
        other => panic!("expected a broken rule, got {other:?}"),
    }
}

fn provider(id: &str, api: &str, key: Option<&str>, model: &str) -> ProviderConfig {
    ProviderConfig {
        id: id.into(),
        api: api.into(),
        base_url: None,
        api_key_ref: key.map(|key| key.to_string()),
        models: vec![model.into()],
        cooldown_secs: 30,
    }
}

fn with_channel(id: &str, accounts: Vec<JsonValue>, extra: &str) -> FrankClawConfig {
    let mut config = FrankClawConfig::default();
    config.insert_channel(
        ChannelId::new(id),
        ChannelConfig {
            enabled: true,
            accounts,
            extra: json(extra),
        },
    );
    config
}

#[test]
fn default_config_is_valid() {
    let config = FrankClawConfig::default();
    assert!(is_valid(&config));
    assert_eq!(config.gateway.port, 18789);
    assert!(config.security.encrypt_sessions);
}

#[test]
fn duplicate_provider_ids_fail_validation() {
    let mut config = FrankClawConfig::default();
    config.models.providers = vec![
        provider("openai", "openai", Some("OPENAI_API_KEY"), "gpt-4o-mini"),
        provider("openai", "ollama", None, "llama3"),
    ];

    assert!(!is_valid(&config));
    assert_eq!(complaint(&config), "duplicate model provider id 'openai'");
}

#[test]
fn openai_provider_requires_api_key_ref() {
    let mut config = FrankClawConfig::default();
    config.models.providers = vec![provider("openai", "openai", None, "gpt-4o-mini")];

    assert!(!is_valid(&config));
}

#[test]
fn invalid_dm_policy_fails_validation() {
    let config = with_channel("web", Vec::new(), r#"{ "dm_policy": "wide_open" }"#);
    assert!(!is_valid(&config));
}

#[test]
fn channel_security_policy_defaults_to_pairing_and_mentions() {
    let policy = ChannelConfig {
        enabled: true,
        accounts: Vec::new(),
        extra: json("{}"),
    }
    .security_policy()
    .expect("policy should parse");

    assert_eq!(policy.dm_policy, ChannelDmPolicy::Pairing);
    assert!(policy.require_mention_for_groups);
    assert!(policy.allow_from.is_empty());
    assert!(policy.allowed_groups.is_none());
}

#[test]
fn channel_security_policy_parses_group_allowlist() {
    let policy = ChannelConfig {
        enabled: true,
        accounts: Vec::new(),
        extra: json(r#"{ "groups": ["group:family", "*"] }"#),
    }
    .security_policy()
    .expect("policy should parse");

    assert_eq!(
        policy.allowed_groups,
        Some(vec!["group:family".to_string(), "*".to_string()])
    );
}

#[test]
fn invalid_group_allowlist_fails_validation() {
    let config = with_channel(
        "signal",
        vec![json(r#"{ "base_url": "http://127.0.0.1:8080", "account": "+15551234567" }"#)],
        r#"{ "groups": [42] }"#,
    );

    assert!(!is_valid(&config));
}

#[test]
fn enabled_channel_without_credentials_fails_validation() {
    for (name, account) in [
        ("telegram", "{}"),
        ("discord", "{}"),
        ("signal", r#"{ "account": "+15551234567" }"#),
    ] {
        assert!(!is_valid(&with_channel(name, vec![json(account)], "{}")));
    }
}

#[test]
fn whatsapp_channel_requires_access_token_phone_number_and_verify_token() {
    let config = with_channel(
        "whatsapp",
        vec![json(r#"{ "access_token": "test-token", "phone_number_id": "123456789" }"#)],
        "{}",
    );

    assert!(!is_valid(&config));
}

#[test]
fn unsupported_enabled_channel_fails_validation() {
    let config = with_channel(
        "mattermost",
        vec![json(r#"{ "bot_token": "test-token" }"#)],
        "{}",
    );

    assert!(!is_valid(&config));
}

#[test]
fn slack_channel_requires_app_and_bot_tokens() {
    let config = with_channel("slack", vec![json(r#"{ "bot_token": "xoxb-test" }"#)], "{}");

    assert!(!is_valid(&config));
}

#[test]
fn hooks_require_token_and_mapping_when_enabled() {
    let mut config = FrankClawConfig::default();
    config.hooks.enabled = true;

    assert!(!is_valid(&config));

    config.hooks.token = Some("secret".into());
    config.hooks.mappings = vec![RawMapping::Mapping(WebhookMapping {
        id: "incoming".into(),
        text_field: "message".into(),
        ..WebhookMapping::default()
    })];
    assert!(is_valid(&config));

    config.hooks.mappings.push(RawMapping::Malformed("missing field `id`".into()));
    assert_eq!(complaint(&config), "invalid webhook mapping: missing field `id`");
}

#[test]
fn webhook_mapping_rejects_mismatched_agent_and_session() {
    let mut config = FrankClawConfig::default();
    config.hooks.enabled = true;
    config.hooks.token = Some("secret".into());
    config.hooks.mappings = vec![RawMapping::Mapping(WebhookMapping {
        id: "incoming".into(),
        agent_id: Some(AgentId::new("main")),
        session_key: Some(SessionKey::from_raw("other:web:default")),
        text_field: "message".into(),
        ..WebhookMapping::default()
    })];

    assert!(!is_valid(&config));
}

#[test]
fn invalid_bind_address_fails_validation() {
    let mut config = FrankClawConfig::default();
    config.gateway.bind = BindMode::Address("not-an-ip".into());
    assert!(config.validate(Ok(()), false).is_err());
    assert!(config.validate(Ok(()), true).is_ok());
}

#[test]
fn broken_authentication_settings_come_first() {
    let mut config = FrankClawConfig::default();
    config.gateway.max_connections = 0;
    config.gateway.auth = AuthMode::Token { token: None };
    let verdict = Err(FrankClawError::ConfigValidation {
        msg: "token auth needs a token".into(),
    });
    match config.validate(verdict, true) {
        Err(FrankClawError::ConfigValidation { msg }) => assert_eq!(msg, "token auth needs a token"),
        other => panic!("unexpected {other:?}"),
    }
    assert_eq!(complaint(&config), "gateway.max_connections must be greater than 0");
}

#[test]
fn later_channels_replace_earlier_ones() {
    let mut config = with_channel("web", Vec::new(), r#"{ "dm_policy": "open" }"#);
    config.insert_channel(
        ChannelId::new("web"),
        ChannelConfig {
            enabled: false,
            accounts: Vec::new(),
            extra: json("{}"),
        },
    );
    assert_eq!(config.channels.len(), 1);
    assert!(!config.channel(&ChannelId::new("web")).expect("web").enabled);
}

#[test]
fn configuration_files_tell_their_notation() {
    assert_eq!(config_notation("\n { \"gateway\": {} }"), ConfigNotation::Json);
    assert_eq!(config_notation("[gateway]\nport = 19999\n"), ConfigNotation::Toml);
}
