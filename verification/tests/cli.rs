//! The command line: audits, checks, setup, the interactive chat.

use frankclaw::cli::audit::{
    audit_auth, audit_channel_policies, audit_encryption, audit_inline_secrets, audit_network,
    in_category, run_security_audit, show_mode, sort_findings, AuditedFiles, BashPolicy, Category,
    Finding, SandboxMode, Severity, ToolPosture, ToolRiskLevel,
};
use frankclaw::cli::doctor::{
    browser_probe, browser_runtime_status_with_policy, browser_warnings, check_file_permissions,
    collect_browser_tool_warnings_with_policy, collect_doctor_warnings, configuration_checks,
    database_checks, doctor_summary, port_check, provider_check, run_doctor,
    run_doctor_without_config, security_checks, CheckResult, ConfigProblem, DatabaseProbe,
    Endpoint, Exposure, Observed, PortProbe, SystemFacts,
};
use frankclaw::cli::messages::{
    delete_targets_from_last_reply, edit_target, mark_last_reply_metadata_deleted,
    rewrite_last_reply_metadata_for_edit,
};
use frankclaw::cli::notice::Notice;
use frankclaw::cli::repl::{
    complete, parse_line, slash_commands, InputEvent, InputStep, ReplCommand, ReplConfig,
};
use frankclaw::cli::secrets::{load_master_key_from_env, redact_config, KeyProblem};
use frankclaw::cli::service::{
    daemon_pid_status, display_exposure_surface, locale, read_pid_file, remote_check,
    render_systemd_unit, start_args, supported_channel_example, ExposureSurface, stop_step, StopStep,
};
use frankclaw::cli::setup::{
    build_onboard_config, build_setup_config, may_write, next_steps, prompt_choice, prompt_yes_no,
    SetupAnswers,
};
use frankclaw::config::{AuthMode, BindMode, ChannelConfig, FrankClawConfig, ProviderConfig};
use frankclaw::gateway::chat::ChatResponse;
use frankclaw::gateway::delivery::{
    last_reply_from_metadata, set_last_reply_in_metadata, StoredReplyChunk, StoredReplyMetadata,
};
use frankclaw::json::{JsonNumber, JsonValue};
use frankclaw::text_map::TextMap;
use frankclaw::types::{ChannelId, SessionKey, Timestamp};

fn json_value(value: &serde_json::Value) -> JsonValue {
    match value {
        serde_json::Value::Null => JsonValue::Null,
        serde_json::Value::Bool(b) => JsonValue::Bool(*b),
        serde_json::Value::Number(n) => {
            if let Some(n) = n.as_u64() {
                JsonValue::Number(JsonNumber::Unsigned(n))
            } else if let Some(n) = n.as_i64() {
                JsonValue::Number(JsonNumber::Negative(n))
            } else {
                JsonValue::Number(JsonNumber::Literal(n.to_string()))
            }
        }
        serde_json::Value::String(s) => JsonValue::Text(s.clone()),
        serde_json::Value::Array(items) => JsonValue::Array(items.iter().map(json_value).collect()),
        serde_json::Value::Object(members) => JsonValue::Object(
            members
                .iter()
                .map(|(key, value)| (key.clone(), json_value(value)))
                .collect(),
        ),
    }
}

fn json(text: &str) -> JsonValue {
    json_value(&serde_json::from_str(text).expect("test JSON should parse"))
}

fn posture(approves_mutating: bool, risks: Vec<ToolRiskLevel>) -> ToolPosture {
    ToolPosture {
        bash: BashPolicy::DenyAll,
        sandbox: SandboxMode::Off,
        sandbox_available: false,
        approval_level: "readonly".into(),
        approves_mutating,
        approves_destructive: false,
        risks,
    }
}

fn with_channel(id: &str, account: &str, extra: &str) -> FrankClawConfig {
    let mut config = FrankClawConfig::default();
    config.insert_channel(
        ChannelId::new(id),
        ChannelConfig {
            enabled: true,
            accounts: vec![json(account)],
            extra: json(extra),
        },
    );
    config
}

fn with_tools(tools: Vec<&str>) -> FrankClawConfig {
    let mut config = FrankClawConfig::default();
    config.agents.agents[0].1.tools = tools.into_iter().map(|tool| tool.to_string()).collect();
    config
}

fn says(notices: &Vec<Notice>, text: &str) -> bool {
    notices.iter().any(|notice| notice.text().contains(text))
}

// Last replies

fn chunk(content: &str, id: &str) -> StoredReplyChunk {
    StoredReplyChunk {
        content: content.into(),
        platform_message_id: Some(id.into()),
        status: "sent".into(),
        attempts: 1,
        retry_after_secs: None,
        error: None,
    }
}

fn reply_metadata_json(chunks: Vec<StoredReplyChunk>) -> JsonValue {
    let reply = StoredReplyMetadata {
        channel: "telegram".into(),
        account_id: "default".into(),
        recipient_id: "user-1".into(),
        thread_id: Some("thread-1".into()),
        reply_to: Some("incoming-1".into()),
        content: "old reply".into(),
        platform_message_id: Some("msg-1".into()),
        status: "sent".into(),
        attempts: 1,
        retry_after_secs: None,
        error: None,
        chunks,
        recorded_at: Timestamp {
            secs: 1_710_000_000,
            nanos: 5,
        },
    };
    let mut metadata = json(r#"{ "other": { "preserve": true } }"#);
    set_last_reply_in_metadata(&mut metadata, &reply).expect("metadata should be written");
    metadata
}

fn preserved(metadata: &JsonValue) -> bool {
    metadata.get("other").and_then(|other| other.get_bool("preserve")) == Some(true)
}

#[test]
fn rewrite_last_reply_metadata_for_edit_updates_content_and_preserves_other_metadata() {
    let mut metadata = reply_metadata_json(vec![chunk("old reply", "msg-1")]);

    let rewritten = rewrite_last_reply_metadata_for_edit(&mut metadata, "new reply")
        .expect("metadata rewrite should succeed");

    assert_eq!(rewritten.content, "new reply");
    assert_eq!(rewritten.chunks[0].content, "new reply");
    assert!(preserved(&metadata));
    let last = last_reply_from_metadata(&metadata).expect("last reply should exist");
    assert_eq!(last.content, "new reply");
}

#[test]
fn rewrite_last_reply_metadata_for_edit_rejects_chunked_replies() {
    let mut metadata = reply_metadata_json(vec![chunk("first", "msg-1"), chunk("second", "msg-2")]);

    let err = rewrite_last_reply_metadata_for_edit(&mut metadata, "new reply")
        .expect_err("chunked replies should be rejected");

    assert!(err.text().contains("chunked replies"));
}

#[test]
fn delete_targets_from_last_reply_prefers_chunk_ids_when_present() {
    let metadata = reply_metadata_json(vec![chunk("first", "msg-1"), chunk("second", "msg-2")]);
    let last_reply = last_reply_from_metadata(&metadata).expect("last reply should exist");

    let targets =
        delete_targets_from_last_reply(&last_reply).expect("delete targets should resolve");

    assert_eq!(targets, vec!["msg-1".to_string(), "msg-2".to_string()]);
}

#[test]
fn mark_last_reply_metadata_deleted_clears_platform_ids_and_marks_chunks() {
    let mut metadata = reply_metadata_json(vec![chunk("old reply", "msg-1")]);

    let deleted =
        mark_last_reply_metadata_deleted(&mut metadata).expect("metadata delete should succeed");

    assert_eq!(deleted.status, "deleted");
    assert!(deleted.platform_message_id.is_none());
    assert_eq!(deleted.chunks[0].status, "deleted");
    assert!(deleted.chunks[0].platform_message_id.is_none());
    assert!(preserved(&metadata));
    assert!(delete_targets_from_last_reply(&deleted).is_err());
    assert!(edit_target(&deleted).is_err());
}

#[test]
fn metadata_without_a_reply_cannot_be_edited() {
    let mut metadata = json("{}");
    assert!(rewrite_last_reply_metadata_for_edit(&mut metadata, "x").is_err());
    assert!(mark_last_reply_metadata_deleted(&mut metadata).is_err());
    let reply = last_reply_from_metadata(&reply_metadata_json(Vec::new())).expect("reply");
    let target = edit_target(&reply).expect("target");
    assert_eq!(target.to, "user-1");
    assert_eq!(target.platform_message_id, "msg-1");
}

// Setup

#[test]
fn onboard_whatsapp_profile_uses_env_refs_and_token_auth() {
    let config = build_onboard_config("whatsapp", "gateway-token")
        .expect("onboard config should build");

    assert!(matches!(config.gateway.auth, AuthMode::Token { .. }));
    let channel = config
        .channel(&ChannelId::new("whatsapp"))
        .expect("whatsapp channel should exist");
    assert_eq!(
        channel.accounts[0].get_str("access_token_env"),
        Some("WHATSAPP_ACCESS_TOKEN")
    );
    assert_eq!(
        channel.accounts[0].get_str("app_secret_env"),
        Some("WHATSAPP_APP_SECRET")
    );
    assert!(config.validate(Ok(()), true).is_ok());
}

#[test]
fn build_onboard_config_rejects_unknown_channel_profiles() {
    let err = build_onboard_config("matrix", "gateway-token")
        .expect_err("unsupported channel should fail");

    assert!(err.text().contains("unsupported onboard channel"));
}

#[test]
fn setup_writes_valid_config_file() {
    let answers = SetupAnswers {
        provider: 0,
        api_key_env: String::new(),
        ollama_url: String::new(),
        anthropic_model: "sonnet".into(),
        model: String::new(),
        channel: 0,
        port: String::new(),
        encrypt: true,
    };
    let config = build_setup_config(&answers, "test-token").expect("config should build");

    assert!(config.validate(Ok(()), true).is_ok());
    assert_eq!(config.gateway.port, 18789);
    assert_eq!(config.models.providers.len(), 1);
    assert_eq!(config.models.providers[0].id, "openai");
    assert!(config.channel(&ChannelId::new("web")).is_some());
    assert!(says(&next_steps(&answers), "export OPENAI_API_KEY=..."));
    let other = SetupAnswers {
        provider: 1,
        ..answers
    };
    let made = build_setup_config(&other, "test-token").expect("config should build");
    assert_eq!(made.models.default_model.as_deref(), Some("sonnet"));
    let wrong = SetupAnswers {
        port: "65536".into(),
        ..other
    };
    assert!(build_setup_config(&wrong, "test-token").is_err());
}

#[test]
fn setup_asks_before_it_overwrites() {
    assert!(may_write(false, false, ""));
    assert!(may_write(true, true, ""));
    assert!(may_write(true, false, "YES"));
    assert!(!may_write(true, false, ""));
    assert!(!may_write(true, false, "no"));
}

#[test]
fn setup_anthropic_provider_config_is_valid() {
    let config = ProviderConfig {
        id: "anthropic".into(),
        api: "anthropic".into(),
        base_url: None,
        api_key_ref: Some("ANTHROPIC_API_KEY".into()),
        models: vec!["sonnet-4-6-20250514".into()],
        cooldown_secs: 30,
    };
    assert_eq!(config.api, "anthropic");
    assert!(config.api_key_ref.is_some());
}

#[test]
fn setup_ollama_provider_has_base_url_and_no_key() {
    let config = ProviderConfig {
        id: "ollama".into(),
        api: "ollama".into(),
        base_url: Some("http://127.0.0.1:11434".into()),
        api_key_ref: None,
        models: vec!["llama3.1".into()],
        cooldown_secs: 30,
    };
    assert!(config.base_url.is_some());
    assert!(config.api_key_ref.is_none());
    let made = build_setup_config(
        &SetupAnswers {
            provider: 2,
            api_key_env: String::new(),
            ollama_url: String::new(),
            anthropic_model: String::new(),
            model: String::new(),
            channel: 5,
            port: "8080".into(),
            encrypt: false,
        },
        "t",
    )
    .expect("config");
    assert_eq!(made.models.providers[0].base_url.as_deref(), Some("http://127.0.0.1:11434"));
    assert_eq!(made.models.providers[0].models, config.models);
    assert_eq!(made.gateway.port, 8080);
    assert!(made.channel(&ChannelId::new("signal")).is_some());
}

#[test]
fn answers_are_read() {
    assert_eq!(prompt_choice("", 3, 1), (1, true));
    assert_eq!(prompt_choice("3", 3, 1), (2, true));
    assert_eq!(prompt_choice("4", 3, 1), (1, false));
    assert_eq!(prompt_choice("x", 3, 1), (1, false));
    assert!(prompt_yes_no("YES", false));
    assert!(!prompt_yes_no("no", true));
    assert!(prompt_yes_no("", true));
}

// Service

#[test]
fn render_systemd_unit_contains_execstart() {
    let unit = render_systemd_unit(
        "/usr/local/bin/frankclaw",
        "/etc/frankclaw.json",
        "/var/lib/frankclaw",
    );

    assert!(unit.contains("ExecStart=/usr/local/bin/frankclaw gateway --config /etc/frankclaw.json --state-dir /var/lib/frankclaw"));
    assert!(unit.contains("WantedBy=default.target"));
}

#[test]
fn supported_channel_example_returns_embedded_snippet() {
    let example = supported_channel_example("telegram").expect("telegram example should exist");

    assert!(example.contains("TELEGRAM_BOT_TOKEN"));
    assert!(supported_channel_example("matrix").is_none());
}

#[test]
fn supported_channel_examples_parse_as_json() {
    for channel in ["web", "telegram", "discord", "slack", "signal", "whatsapp", "email"] {
        let example = supported_channel_example(channel).expect("example should exist");
        let value: serde_json::Value = serde_json::from_str(example).expect("valid JSON");
        assert!(value["channels"][channel].is_object());
    }
}

#[test]
fn processes_get_time_to_end() {
    assert_eq!(stop_step(0, false), StopStep::Done);
    assert_eq!(stop_step(0, true), StopStep::WaitAndLook);
    assert_eq!(stop_step(19, true), StopStep::WaitAndLook);
    assert_eq!(stop_step(20, true), StopStep::Force);
    assert_eq!(stop_step(20, false), StopStep::Done);
}

#[test]
fn read_pid_file_returns_none_for_missing_file() {
    assert!(read_pid_file(None).is_none());
}

#[test]
fn read_pid_file_returns_pid_for_valid_file() {
    assert_eq!(read_pid_file(Some("12345\n")), Some(12345));
}

#[test]
fn read_pid_file_returns_none_for_invalid_content() {
    assert_eq!(read_pid_file(Some("not-a-pid")), None);
    assert_eq!(read_pid_file(Some("4294967296")), None);
}

#[test]
fn daemon_pid_status_shows_running_for_current_pid() {
    let status = daemon_pid_status(Some(1234), true);
    assert!(status.is_some());
    assert!(status.unwrap().text().contains("running"));
}

#[test]
fn daemon_pid_status_shows_stale_for_dead_pid() {
    let status = daemon_pid_status(Some(99_999_999), false);
    assert!(status.is_some());
    assert!(status.unwrap().text().contains("stale"));
}

#[test]
fn daemons_are_started_with_arguments() {
    assert_eq!(
        start_args(Some("/etc/f.json"), "/var/lib/f", Some(8080)),
        vec!["gateway", "--config", "/etc/f.json", "--state-dir", "/var/lib/f", "--port", "8080"]
    );
    assert_eq!(start_args(None, "s", None), vec!["gateway", "--state-dir", "s"]);
    assert_eq!(locale(None, Some("pt_BR.UTF-8")), "pt-BR");
    assert_eq!(locale(Some("de"), Some("pt_BR.UTF-8")), "de");
    assert_eq!(locale(None, None), "en");
    assert!(remote_check(true, false, true).is_err());
    assert!(remote_check(false, false, true).is_ok());
    assert_eq!(
        display_exposure_surface(&ExposureSurface::PublicAddress("1.2.3.4".into())),
        "public_address:1.2.3.4"
    );
}

// Warnings and checks

#[test]
fn collect_doctor_warnings_flags_missing_envs_and_unsigned_whatsapp_webhooks() {
    let mut config = with_channel(
        "whatsapp",
        r#"{
            "access_token_env": "FRANKCLAW_TEST_MISSING_WHATSAPP_TOKEN",
            "phone_number_id_env": "FRANKCLAW_TEST_MISSING_WHATSAPP_PHONE",
            "verify_token_env": "FRANKCLAW_TEST_MISSING_WHATSAPP_VERIFY"
        }"#,
        "{}",
    );
    config.models.providers = vec![ProviderConfig {
        id: "openai".into(),
        api: "openai".into(),
        base_url: None,
        api_key_ref: Some("FRANKCLAW_TEST_MISSING_OPENAI_KEY".into()),
        models: vec!["gpt-4o-mini".into()],
        cooldown_secs: 30,
    }];

    let warnings = collect_doctor_warnings(
        &config,
        &TextMap::new(),
        "/tmp/missing-state",
        false,
        Ok(Vec::new()),
        Vec::new(),
    )
    .expect("doctor warnings should collect");

    assert!(says(&warnings, "FRANKCLAW_TEST_MISSING_OPENAI_KEY"));
    assert!(says(&warnings, "FRANKCLAW_TEST_MISSING_WHATSAPP_TOKEN"));
    assert!(says(&warnings, "WHATSAPP_APP_SECRET") || says(&warnings, "app_secret configured"));
    assert!(says(&warnings, "does not exist yet"));
}

#[test]
fn collect_doctor_warnings_flags_inline_secrets_and_open_group_surface() {
    let config = with_channel(
        "discord",
        r#"{ "bot_token": "inline-secret" }"#,
        r#"{ "require_mention_for_groups": false }"#,
    );

    let warnings = collect_doctor_warnings(
        &config,
        &TextMap::new(),
        "/tmp/state",
        true,
        Ok(vec!["exposed".to_string()]),
        Vec::new(),
    )
    .expect("doctor warnings should collect");

    assert!(says(&warnings, "stores 'bot_token' inline"));
    assert!(says(&warnings, "accepts group messages without mention gating"));
    assert_eq!(warnings.last().expect("warning").text(), "exposed");
}

#[test]
fn warnings_need_a_sound_configuration() {
    let mut vars: TextMap<String> = TextMap::new();
    vars.insert("FRANKCLAW_MASTER_KEY", "!!!".to_string());
    let config = FrankClawConfig::default();
    let bad_key =
        collect_doctor_warnings(&config, &vars, "/tmp/state", true, Ok(Vec::new()), Vec::new());
    assert!(bad_key.expect_err("bad key").text().contains("valid base64"));
    let bad_policy = with_channel("web", "{}", r#"{ "dm_policy": "nobody" }"#);
    let failed = collect_doctor_warnings(
        &bad_policy,
        &TextMap::new(),
        "/tmp/state",
        true,
        Ok(Vec::new()),
        Vec::new(),
    );
    assert!(failed.expect_err("bad policy").text().contains("'web'"));
}

#[test]
fn collect_browser_tool_warnings_flags_unreachable_non_loopback_devtools() {
    let config = with_tools(vec!["browser.close"]);

    let probe = collect_browser_tool_warnings_with_policy(
        &config,
        Some("http://10.0.0.8:6553/"),
        &posture(false, vec![ToolRiskLevel::ReadOnly]),
    )
    .expect("browser tools are enabled");
    assert_eq!(probe.connect, Some(("10.0.0.8".to_string(), 6553)));
    let warnings = browser_warnings(probe, false);

    assert!(says(&warnings, "non-loopback host"));
    assert!(says(&warnings, "docker compose up -d chromium"));
}

#[test]
fn collect_browser_tool_warnings_flags_gated_mutation_tools() {
    let config = with_tools(vec!["browser.type"]);

    let probe = collect_browser_tool_warnings_with_policy(
        &config,
        Some("http://127.0.0.1:9222/"),
        &posture(false, vec![ToolRiskLevel::Mutating]),
    )
    .expect("browser tools are enabled");

    assert!(says(&browser_warnings(probe, true), "FRANKCLAW_TOOL_APPROVAL=mutating"));
}

#[test]
fn browser_runtime_status_reports_mutation_gate_state() {
    let config = with_tools(vec!["browser.open", "browser.click"]);
    let risks = || vec![ToolRiskLevel::ReadOnly, ToolRiskLevel::Mutating];

    let endpoint = "http://127.0.0.1:9222/";
    let gated_posture = posture(false, risks());
    let probe = collect_browser_tool_warnings_with_policy(&config, Some(endpoint), &gated_posture)
        .expect("browser tools are enabled");
    let warnings = browser_warnings(probe, true);
    let gated =
        browser_runtime_status_with_policy(&config, Some(endpoint), &gated_posture, &warnings)
            .expect("status should exist");
    assert!(gated.contains("blocked"));

    let open_posture = posture(true, risks());
    let probe = collect_browser_tool_warnings_with_policy(&config, Some(endpoint), &open_posture)
        .expect("browser tools are enabled");
    let warnings = browser_warnings(probe, true);
    let enabled =
        browser_runtime_status_with_policy(&config, Some(endpoint), &open_posture, &warnings)
            .expect("status should exist");
    assert!(enabled.contains(&format!("mutations enabled at {}", endpoint)));
    let none = FrankClawConfig::default();
    assert!(collect_browser_tool_warnings_with_policy(&none, None, &open_posture).is_none());
}

#[test]
fn browser_endpoints_are_parsed() {
    let config = with_tools(vec!["browser.open"]);
    let plain = posture(false, Vec::new());
    let probe = collect_browser_tool_warnings_with_policy(&config, Some("not a url"), &plain)
        .expect("browser tools are enabled");
    assert!(says(&probe.warnings, "not a valid URL"));
    assert!(probe.connect.is_none());
    let probe = collect_browser_tool_warnings_with_policy(&config, None, &plain)
        .expect("browser tools are enabled");
    assert_eq!(probe.connect, Some(("127.0.0.1".to_string(), 9222)));
    let hostless = browser_probe(
        "data:,x",
        Ok(Endpoint {
            host: None,
            port: None,
        }),
        false,
    );
    assert!(says(&hostless.warnings, "no host"));
}

#[test]
fn check_result_prefixes_are_correct() {
    assert_eq!(CheckResult::Pass("ok".to_string()).prefix(), "[PASS]");
    assert_eq!(CheckResult::Warn("hmm".to_string()).prefix(), "[WARN]");
    assert_eq!(CheckResult::Fail("bad".to_string()).prefix(), "[FAIL]");
    assert_eq!(CheckResult::Info("fyi".to_string()).prefix(), "[INFO]");
}

#[test]
fn check_result_is_fail_only_for_fail_variant() {
    assert!(!CheckResult::Pass("ok".to_string()).is_fail());
    assert!(!CheckResult::Warn("hmm".to_string()).is_fail());
    assert!(CheckResult::Fail("bad".to_string()).is_fail());
    assert!(!CheckResult::Info("fyi".to_string()).is_fail());
}

#[test]
fn check_file_permissions_detects_world_readable() {
    let results = check_file_permissions(Some(0o100644), "test file");
    assert!(!results.is_empty());
    assert!(matches!(results[0], CheckResult::Warn(_)));
    assert!(results[0].message().text().contains("0644"));

    let results = check_file_permissions(Some(0o100600), "test file");
    assert!(!results.is_empty());
    assert!(matches!(results[0], CheckResult::Pass(_)));
    assert!(check_file_permissions(None, "test file").is_empty());
    assert_eq!(show_mode(0o100750), "0750");
}

#[test]
fn checks_come_to_a_summary() {
    let mut checks = configuration_checks(Some(0o600), Vec::new(), "loopback", &Vec::new());
    assert_eq!(doctor_summary(&checks.iter().collect()).text(), "all checks passed");
    checks.push(port_check(8080, &PortProbe::InUse));
    assert_eq!(doctor_summary(&checks.iter().collect()).text(), "1 warnings");
    checks.extend(database_checks(&DatabaseProbe::Broken("locked".into()), None));
    assert_eq!(doctor_summary(&checks.iter().collect()).text(), "1 critical issues and 1 warnings");
    let provider = ProviderConfig {
        id: "openai".into(),
        api: "openai".into(),
        base_url: None,
        api_key_ref: Some("KEY".into()),
        models: vec!["m".into()],
        cooldown_secs: 30,
    };
    let mut vars: TextMap<String> = TextMap::new();
    assert!(provider_check(&provider, &vars).0.is_warn());
    vars.insert("KEY", "secret".to_string());
    assert_eq!(
        provider_check(&provider, &vars).1.as_deref(),
        Some("https://api.openai.com")
    );
    let secured = security_checks(&FrankClawConfig::default(), &vars).expect("checks");
    assert_eq!(secured.len(), 2);
    assert!(secured[0].is_warn());
}

fn system_facts() -> SystemFacts {
    SystemFacts {
        version: "1.0".into(),
        rust: "rustc 1".into(),
        os: "linux".into(),
        arch: "x86_64".into(),
        state_dir: "/state".into(),
    }
}

fn observed(exposure: Result<Exposure, String>) -> Observed {
    Observed {
        config_mode: Some(0o600),
        state_exists: true,
        state_mode: Some(0o700),
        database: DatabaseProbe::Healthy,
        database_mode: Some(0o600),
        port: PortProbe::Free,
        reached: vec![Err("timed out".into()), Ok(())],
        exposure,
        browser: Vec::new(),
    }
}

#[test]
fn doctor_reports_section_by_section() {
    let mut config = FrankClawConfig::default();
    config.models.providers.push(ProviderConfig {
        id: "main".into(),
        api: "openai".into(),
        base_url: Some("http://models.local".into()),
        api_key_ref: Some("KEY".into()),
        models: vec!["m".into(), "n".into()],
        cooldown_secs: 30,
    });
    config.models.providers.push(ProviderConfig {
        id: "spare".into(),
        api: "openai".into(),
        base_url: None,
        api_key_ref: None,
        models: Vec::new(),
        cooldown_secs: 30,
    });
    let mut vars: TextMap<String> = TextMap::new();
    vars.insert("KEY", "secret".to_string());
    let exposure = Exposure { summary: "local".into(), warnings: vec!["open door".into()] };
    let report = run_doctor(&system_facts(), &config, &vars, observed(Ok(exposure)));

    let titles: Vec<String> = report.sections.iter().map(|s| s.title.text()).collect();
    assert_eq!(
        titles,
        [
            "System",
            "Configuration",
            "State directory",
            "Database",
            "Network",
            "Providers",
            "Channels",
            "Security",
        ]
    );
    let providers: Vec<String> =
        report.sections[5].checks.iter().map(|c| c.message().text()).collect();
    assert_eq!(
        providers,
        [
            "provider 'main' (openai) has a key and 2 models",
            "http://models.local is unreachable: timed out",
            "provider 'spare' (openai) has no API key",
        ]
    );
    let warnings: usize = report
        .sections
        .iter()
        .map(|s| s.checks.iter().filter(|c| c.is_warn()).count())
        .sum();
    assert_eq!(report.end.expect("summary").text(), format!("{warnings} warnings"));
}

#[test]
fn doctor_stops_where_exposure_is_unknown() {
    let config = FrankClawConfig::default();
    let vars: TextMap<String> = TextMap::new();
    let mut seen = observed(Err("no address".into()));
    seen.reached.clear();
    let report = run_doctor(&system_facts(), &config, &vars, seen);
    assert_eq!(report.sections.len(), 1);
    assert_eq!(report.end.expect_err("error").text(), "no address");
}

#[test]
fn doctor_stops_without_a_configuration() {
    for (problem, text) in [
        (
            ConfigProblem::Unreadable("bad json".into()),
            "failed to load the configuration: bad json",
        ),
        (ConfigProblem::Invalid("bad port".into()), "configuration is invalid: bad port"),
    ] {
        let report = run_doctor_without_config(&system_facts(), &problem);
        assert_eq!(report.sections.len(), 2);
        assert!(report.sections[1].checks[0].is_fail());
        assert_eq!(report.sections[1].checks[0].message().text(), text);
        assert_eq!(report.end.expect("end").text(), "Critical issues found.");
    }
}

// Audit

fn findings_of(audit: impl Fn(&mut Vec<Finding>)) -> Vec<Finding> {
    let mut findings = Vec::new();
    audit(&mut findings);
    findings
}

#[test]
fn audit_auth_flags_no_auth() {
    let config = FrankClawConfig::default();
    let findings = findings_of(|findings| audit_auth(&config, findings));

    assert!(!findings.is_empty());
    assert!(findings
        .iter()
        .any(|f| f.severity == Severity::High && f.category == Category::Auth));
}

fn with_token(token: &str) -> FrankClawConfig {
    let mut config = FrankClawConfig::default();
    config.gateway.auth = AuthMode::Token {
        token: Some(token.to_string()),
    };
    config
}

#[test]
fn audit_auth_passes_with_token() {
    let config = with_token("a-long-enough-token-here");
    let findings = findings_of(|findings| audit_auth(&config, findings));

    assert!(findings.iter().all(|f| f.severity < Severity::High));
}

#[test]
fn audit_auth_warns_short_token() {
    let config = with_token("short");
    let findings = findings_of(|findings| audit_auth(&config, findings));

    assert!(findings
        .iter()
        .any(|f| f.severity == Severity::Medium && f.message.text().contains("shorter")));
}

#[test]
fn audit_inline_secrets_detects_inline_bot_token() {
    let config = with_channel("telegram", r#"{ "bot_token": "123456:ABC-DEF" }"#, "{}");
    let findings = findings_of(|findings| audit_inline_secrets(&config, findings));

    assert!(findings.iter().any(|f| f.severity == Severity::High
        && f.message.text().contains("bot_token")
        && f.message.text().contains("inline")));
}

#[test]
fn audit_encryption_warns_when_disabled() {
    let mut config = FrankClawConfig::default();
    config.security.encrypt_sessions = false;
    let findings = findings_of(|findings| audit_encryption(&config, &TextMap::new(), findings));

    assert!(findings
        .iter()
        .any(|f| f.category == Category::Encryption && f.message.text().contains("disabled")));
}

#[test]
fn audit_network_flags_exposed_no_auth() {
    let mut config = FrankClawConfig::default();
    config.gateway.bind = BindMode::Lan;
    let findings = findings_of(|findings| audit_network(&config, findings));

    assert!(findings.iter().any(|f| f.severity == Severity::Critical
        && f.message.text().contains("network-exposed")));
}

#[test]
fn audit_network_ok_for_loopback() {
    let config = FrankClawConfig::default();
    let findings = findings_of(|findings| audit_network(&config, findings));

    assert!(findings.is_empty());
}

#[test]
fn audit_channel_policies_flags_ungated_groups() {
    let config = with_channel(
        "discord",
        r#"{ "bot_token_env": "DISCORD_BOT_TOKEN" }"#,
        r#"{ "require_mention_for_groups": false }"#,
    );
    let findings = findings_of(|findings| audit_channel_policies(&config, findings));

    assert!(findings.iter().any(|f| f.message.text().contains("group messages")));
}

fn no_files() -> AuditedFiles {
    AuditedFiles {
        config_path: "/tmp/nonexistent-config.json".into(),
        config_mode: None,
        state_dir: "/tmp/nonexistent-state".into(),
        state_mode: None,
        database_path: "/tmp/nonexistent-state/sessions.db".into(),
        database_mode: None,
    }
}

#[test]
fn audit_ssrf_disabled_is_critical() {
    let mut config = FrankClawConfig::default();
    config.security.ssrf_protection = false;
    let report = run_security_audit(
        &config,
        &TextMap::new(),
        &posture(false, Vec::new()),
        true,
        &no_files(),
    );

    assert_eq!(report.exit_code, 1);
    assert_eq!(report.findings[0].severity, Severity::Critical);
    for pair in report.findings.windows(2) {
        assert!(pair[0].severity >= pair[1].severity);
    }
}

#[test]
fn audit_passes_without_high_findings() {
    let mut config = with_token("a-long-enough-token-here");
    config.security.encrypt_media = true;
    let mut vars: TextMap<String> = TextMap::new();
    vars.insert(
        "FRANKCLAW_MASTER_KEY",
        "AAAAAAAAAAAAAAAAAAAAAAAAAAAAAAAAAAAAAAAAAAA=".to_string(),
    );
    let report = run_security_audit(&config, &vars, &posture(false, Vec::new()), true, &no_files());
    assert_eq!(report.exit_code, 0);
    let tools = in_category(&report.findings, Category::Tools);
    assert_eq!(tools.len(), 1);
    assert!(report.findings[tools[0]].message.text().contains("readonly"));
    assert!(in_category(&report.findings, Category::Network).is_empty());
}

#[test]
fn equal_findings_keep_their_order() {
    let finding = |severity: Severity, text: &str| Finding {
        severity,
        category: Category::Auth,
        message: Notice::plain(text),
        remediation: Notice::plain(""),
    };
    let sorted = sort_findings(&vec![
        finding(Severity::Low, "a"),
        finding(Severity::High, "b"),
        finding(Severity::Low, "c"),
    ]);
    let texts: Vec<String> = sorted.iter().map(|f| f.message.text()).collect();
    assert_eq!(texts, vec!["b", "a", "c"]);
}

#[test]
fn severity_ordering_is_correct() {
    assert!(Severity::Critical > Severity::High);
    assert!(Severity::High > Severity::Medium);
    assert!(Severity::Medium > Severity::Low);
    assert!(Severity::Low > Severity::Info);
    assert_eq!(Severity::Medium.label(), " MED");
}

// Secrets

#[test]
fn master_keys_are_read_from_the_environment() {
    let mut vars: TextMap<String> = TextMap::new();
    assert!(matches!(load_master_key_from_env(&vars), Ok(None)));
    vars.insert("FRANKCLAW_MASTER_KEY", "  ".to_string());
    assert_eq!(load_master_key_from_env(&vars), Err(KeyProblem::Empty));
    vars.insert("FRANKCLAW_MASTER_KEY", "!!".to_string());
    assert_eq!(load_master_key_from_env(&vars), Err(KeyProblem::NotBase64));
    vars.insert("FRANKCLAW_MASTER_KEY", "AAAA".to_string());
    assert_eq!(load_master_key_from_env(&vars), Err(KeyProblem::WrongLength));
    // 32 bytes of 0xff, in the standard and in the URL-safe alphabet.
    let bytes = vec![0xffu8; 32];
    vars.insert(
        "FRANKCLAW_MASTER_KEY",
        format!(" {}8= ", "/".repeat(42)),
    );
    assert_eq!(load_master_key_from_env(&vars), Ok(Some(bytes.clone())));
    vars.insert("FRANKCLAW_MASTER_KEY", format!("{}8", "_".repeat(42)));
    assert_eq!(load_master_key_from_env(&vars), Ok(Some(bytes)));
}

#[test]
fn secrets_are_redacted() {
    let shown = redact_config(&json(
        r#"{
            "gateway": { "port": 1, "auth": { "mode": "token", "token": "secret", "hash": "h" } },
            "models": { "providers": [{ "id": "a", "api_key_ref": "KEY" }, { "id": "b" }] },
            "other": { "token": "kept" }
        }"#,
    ));
    let auth = shown.get("gateway").and_then(|g| g.get("auth")).expect("auth");
    assert_eq!(auth.get_str("token"), Some("[REDACTED]"));
    assert_eq!(auth.get_str("hash"), Some("[REDACTED]"));
    assert_eq!(auth.get_str("mode"), Some("token"));
    let providers = shown
        .get("models")
        .and_then(|m| m.get_array("providers"))
        .expect("providers");
    assert_eq!(providers[0].get_str("api_key_ref"), Some("[REDACTED]"));
    assert_eq!(providers[1].get_str("api_key_ref"), None);
    assert_eq!(shown.get_str_at("other", "token"), Some("kept"));
}

// Interactive chat

#[test]
fn slash_commands_are_defined() {
    let commands = slash_commands();
    assert!(commands.len() >= 7);
    // All commands must start with /
    for (cmd, _desc) in commands {
        assert!(cmd.starts_with('/'), "command should start with /: {cmd}");
    }
}

#[test]
fn repl_helper_completes_slash_commands() {
    let (start, completions) = complete("/he", 3);
    assert_eq!(start, 0);
    assert!(completions.contains(&"/help".to_string()));
}

#[test]
fn repl_helper_no_completions_without_slash() {
    let (_, completions) = complete("hello", 5);
    assert!(completions.is_empty());
}

#[test]
fn repl_helper_completes_multiple() {
    // "/e" should match /exit
    let (_, completions) = complete("/e", 2);
    assert!(completions.contains(&"/exit".to_string()));
}

#[test]
fn repl_helper_no_match_for_unknown() {
    let (_, completions) = complete("/zzz", 4);
    assert!(completions.is_empty());
}

#[test]
fn lines_become_commands() {
    assert!(matches!(parse_line("  "), ReplCommand::Nothing));
    assert!(matches!(parse_line("/quit"), ReplCommand::Quit));
    assert!(matches!(parse_line("/model"), ReplCommand::ShowModel));
    assert!(matches!(parse_line("/model  gpt-4 "), ReplCommand::Model(id) if id == "gpt-4"));
    assert!(matches!(parse_line("/think 0"), ReplCommand::ThinkingOff));
    assert!(matches!(parse_line("/think 2048"), ReplCommand::Thinking(2048)));
    assert!(matches!(parse_line("/think 4294967296"), ReplCommand::ThinkingUsage));
    assert!(matches!(parse_line("/fly away"), ReplCommand::Unknown(name) if name == "fly"));
    assert!(matches!(parse_line(" hi there "), ReplCommand::Message(text) if text == "hi there"));
}

#[test]
fn commands_change_the_chat() {
    let mut chat = ReplConfig {
        agent_id: None,
        session_key: None,
        model_id: None,
        thinking_budget: None,
    };
    assert_eq!(chat.prompt(), "you (new)> ");
    chat.perform(&parse_line("/model gpt-4"));
    chat.perform(&parse_line("/think 10"));
    let request = chat.request("hello");
    assert_eq!(request.model_id.as_deref(), Some("gpt-4"));
    assert_eq!(request.thinking_budget, Some(10));
    let printed = chat.answered(
        ChatResponse {
            session_key: SessionKey::from_raw("a:b:c"),
            model_id: "gpt-4".into(),
            content: "hi".into(),
            usage: JsonValue::Null,
        },
        false,
        3,
        4,
    );
    assert_eq!(printed, "\nassistant> hi\n\n[gpt-4: 3 in / 4 out]\n");
    assert_eq!(chat.prompt(), "you> ");
    chat.perform(&parse_line("/clear"));
    assert_eq!(chat.prompt(), "you (new)> ");
}

// Messages

#[test]
fn notices_are_worded() {
    let notice = Notice::with("warn.missing_env", "id", "openai").and("env", "%{id}");
    assert_eq!(
        notice.text(),
        "provider 'openai' needs environment variable '%{id}', which is not set"
    );
    assert_eq!(Notice::new("no.such.key").text(), "no.such.key");
}

#[test]
fn chat_ends_on_control_keys_and_quit() {
    let mut chat = ReplConfig {
        agent_id: None,
        session_key: None,
        model_id: None,
        thinking_budget: None,
    };
    assert!(matches!(chat.on_input(InputEvent::Interrupted), InputStep::Leave));
    assert!(matches!(chat.on_input(InputEvent::EndOfInput), InputStep::Leave));
    assert!(matches!(chat.on_input(InputEvent::Line(" /exit ".into())), InputStep::Leave));
    assert!(matches!(
        chat.on_input(InputEvent::Failed("gone".into())),
        InputStep::Fail(err) if err == "gone"
    ));
    assert!(matches!(
        chat.on_input(InputEvent::Line("/model small".into())),
        InputStep::Answer(ReplCommand::Model(id)) if id == "small"
    ));
    assert_eq!(chat.model_id.as_deref(), Some("small"));
}
