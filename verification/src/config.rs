//! The configuration and its rules.

use crate::error::{config_invalid, outcome_is, ErrorView, FrankClawError};
use crate::json::{items_view, lemma_items, JsonValue, JsonView};
use crate::message::clone_text;
use crate::text::{blank, cat2, cat3, cat5, is_blank, starts_with, str_eq, trimmed_start};
use crate::types::{parsed_key, AgentId, ChannelId, SessionKey};
use vstd::prelude::*;

verus! {

/// How clients prove who they are.
#[derive(Clone, Debug)]
pub enum AuthMode {
    /// Anyone may connect.
    Disabled,
    /// A shared bearer token.
    Token { token: Option<String> },
    /// A password, stored as its hash.
    Password { hash: String },
    /// A proxy in front names the user in a header.
    TrustedProxy { identity_header: String },
    /// Tailscale names the user.
    Tailscale,
}

/// Limits on failed logins.
#[derive(Clone, Copy, Debug, PartialEq, Eq, Structural)]
pub struct RateLimitConfig {
    pub max_attempts: u32,
    pub window_secs: u64,
    pub lockout_secs: u64,
}

impl Default for RateLimitConfig {
    fn default() -> (r: RateLimitConfig)
        ensures
            r == (RateLimitConfig { max_attempts: 10, window_secs: 60, lockout_secs: 300 }),
    {
        RateLimitConfig { max_attempts: 10, window_secs: 60, lockout_secs: 300 }
    }
}

/// How to bind the listening socket.
#[derive(Clone, Debug)]
pub enum BindMode {
    /// 127.0.0.1 only (safest default).
    Loopback,
    /// 0.0.0.0 (LAN accessible). Requires auth.
    Lan,
    /// A specific address.
    Address(String),
}

impl Default for BindMode {
    fn default() -> (r: BindMode)
        ensures
            r is Loopback,
    {
        BindMode::Loopback
    }
}

/// TLS configuration.
#[derive(Clone, Debug)]
pub struct TlsConfig {
    pub cert_path: String,
    pub key_path: String,
}

/// Gateway network configuration.
#[derive(Clone, Debug)]
pub struct GatewayConfig {
    /// TCP port to listen on.
    pub port: u16,
    /// Bind address.
    pub bind: BindMode,
    /// Authentication mode.
    pub auth: AuthMode,
    /// Rate limiting for auth failures.
    pub rate_limit: RateLimitConfig,
    /// Certificate and key; none for plain HTTP.
    pub tls: Option<TlsConfig>,
    /// Maximum WebSocket message size in bytes.
    pub max_ws_message_bytes: usize,
    /// Maximum concurrent WebSocket connections.
    pub max_connections: usize,
    /// Channel health check interval in seconds; 0 disables monitoring.
    pub health_check_interval_secs: Option<u64>,
}

impl Default for GatewayConfig {
    fn default() -> (r: GatewayConfig)
        ensures
            r.port == 18789,
            r.bind is Loopback,
            r.auth is Disabled,
            r.rate_limit == (RateLimitConfig {
                max_attempts: 10,
                window_secs: 60,
                lockout_secs: 300,
            }),
            r.tls is None,
            r.max_ws_message_bytes == 4 * 1024 * 1024,
            r.max_connections == 64,
            r.health_check_interval_secs is None,
    {
        GatewayConfig {
            port: 18789,
            bind: BindMode::default(),
            auth: AuthMode::Disabled,
            rate_limit: RateLimitConfig::default(),
            tls: None,
            max_ws_message_bytes: 4 * 1024 * 1024,
            max_connections: 64,
            health_check_interval_secs: None,
        }
    }
}

/// Where an agent's code runs.
#[derive(Clone, Debug)]
pub enum SandboxConfig {
    Disabled,
    Docker { image: String, memory_limit_mb: u64, timeout_secs: u64 },
    Podman { image: String, memory_limit_mb: u64, timeout_secs: u64 },
    Bubblewrap { network: bool, timeout_secs: u64 },
}

impl Default for SandboxConfig {
    fn default() -> (r: SandboxConfig)
        ensures
            r is Disabled,
    {
        SandboxConfig::Disabled
    }
}

/// The memory of a sandbox, in megabytes, where the configuration names none.
pub fn default_sandbox_memory() -> (r: u64)
    ensures
        r == 512,
{
    512
}

/// The time limit of a sandbox, in seconds, where the configuration names none.
pub fn default_sandbox_timeout() -> (r: u64)
    ensures
        r == 300,
{
    300
}

/// Definition of a single agent.
#[derive(Clone, Debug)]
pub struct AgentDef {
    pub name: String,
    pub model: Option<String>,
    pub system_prompt: Option<String>,
    pub workspace: Option<String>,
    pub sandbox: SandboxConfig,
    pub tools: Vec<String>,
    pub skills: Vec<String>,
}

impl Default for AgentDef {
    fn default() -> (r: AgentDef)
        ensures
            r.name@ == "Default Agent"@,
            r.model is None,
            r.system_prompt is None,
            r.workspace is None,
            r.sandbox is Disabled,
            r.tools@.len() == 0,
            r.skills@.len() == 0,
    {
        AgentDef {
            name: "Default Agent".to_owned(),
            model: None,
            system_prompt: None,
            workspace: None,
            sandbox: SandboxConfig::default(),
            tools: Vec::new(),
            skills: Vec::new(),
        }
    }
}

/// The agents and which of them serves by default.
#[derive(Clone, Debug)]
pub struct AgentsConfig {
    pub default_agent: AgentId,
    pub agents: Vec<(AgentId, AgentDef)>,
}

/// True when an agent of that name is defined.
pub open spec fn has_agent(agents: Seq<(AgentId, AgentDef)>, id: Seq<char>) -> bool {
    exists|i: int| 0 <= i < agents.len() && (#[trigger] agents[i]).0@ == id
}

impl AgentsConfig {
    /// True when an agent of that name is defined.
    pub fn contains(&self, id: &AgentId) -> (r: bool)
        ensures
            r == has_agent(self.agents@, id@),
    {
        let mut i: usize = 0;
        while i < self.agents.len()
            invariant
                i <= self.agents@.len(),
                forall|k: int| 0 <= k < i ==> (#[trigger] self.agents@[k]).0@ != id@,
            decreases self.agents@.len() - i,
        {
            if self.agents[i].0 == *id {
                return true;
            }
            i = i + 1;
        }
        false
    }
}

impl Default for AgentsConfig {
    fn default() -> (r: AgentsConfig)
        ensures
            r.default_agent@ == "default"@,
            r.agents@.len() == 1,
            r.agents@[0].0@ == "default"@,
            r.agents@[0].1.name@ == "Default Agent"@,
            r.agents@[0].1.model is None,
            r.agents@[0].1.system_prompt is None,
            r.agents@[0].1.workspace is None,
            r.agents@[0].1.sandbox is Disabled,
            r.agents@[0].1.tools@.len() == 0,
            r.agents@[0].1.skills@.len() == 0,
    {
        let mut agents: Vec<(AgentId, AgentDef)> = Vec::new();
        agents.push((AgentId::default_agent(), AgentDef::default()));
        AgentsConfig { default_agent: AgentId::default_agent(), agents }
    }
}

/// Per-channel configuration. What only the channel's own code reads stays in
/// `extra` as it was written.
#[derive(Debug)]
pub struct ChannelConfig {
    pub enabled: bool,
    pub accounts: Vec<JsonValue>,
    pub extra: JsonValue,
}

/// Who may write to a channel directly.
#[derive(Clone, Copy, Debug, PartialEq, Eq, Structural)]
pub enum ChannelDmPolicy {
    Open,
    Allowlist,
    Pairing,
    Disabled,
}

/// The policy of a given name.
pub open spec fn dm_policy_named(name: Seq<char>) -> Option<ChannelDmPolicy> {
    if name == "open"@ {
        Some(ChannelDmPolicy::Open)
    } else if name == "allowlist"@ {
        Some(ChannelDmPolicy::Allowlist)
    } else if name == "pairing"@ {
        Some(ChannelDmPolicy::Pairing)
    } else if name == "disabled"@ {
        Some(ChannelDmPolicy::Disabled)
    } else {
        None
    }
}

impl ChannelDmPolicy {
    /// The policy of a given name.
    pub fn named(name: &str) -> (r: Option<ChannelDmPolicy>)
        ensures
            r == dm_policy_named(name@),
    {
        if str_eq(name, "open") {
            Some(ChannelDmPolicy::Open)
        } else if str_eq(name, "allowlist") {
            Some(ChannelDmPolicy::Allowlist)
        } else if str_eq(name, "pairing") {
            Some(ChannelDmPolicy::Pairing)
        } else if str_eq(name, "disabled") {
            Some(ChannelDmPolicy::Disabled)
        } else {
            None
        }
    }
}

/// What a channel lets through.
#[derive(Clone, Debug)]
pub struct ChannelSecurityPolicy {
    pub dm_policy: ChannelDmPolicy,
    pub allow_from: Vec<String>,
    pub allowed_groups: Option<Vec<String>>,
    pub require_mention_for_groups: bool,
    pub max_message_bytes: Option<usize>,
}

/// What a policy says.
pub struct PolicyView {
    pub dm_policy: ChannelDmPolicy,
    pub allow_from: Seq<Seq<char>>,
    pub allowed_groups: Option<Seq<Seq<char>>>,
    pub require_mention_for_groups: bool,
    pub max_message_bytes: Option<usize>,
}

impl View for ChannelSecurityPolicy {
    type V = PolicyView;

    open spec fn view(&self) -> PolicyView {
        PolicyView {
            dm_policy: self.dm_policy,
            allow_from: self.allow_from.deep_view(),
            allowed_groups: self.allowed_groups.deep_view(),
            require_mention_for_groups: self.require_mention_for_groups,
            max_message_bytes: self.max_message_bytes,
        }
    }
}

/// The policy of a channel that sets nothing.
pub open spec fn default_policy() -> PolicyView {
    PolicyView {
        dm_policy: ChannelDmPolicy::Pairing,
        allow_from: Seq::empty(),
        allowed_groups: None,
        require_mention_for_groups: true,
        max_message_bytes: None,
    }
}

impl Default for ChannelSecurityPolicy {
    fn default() -> (r: ChannelSecurityPolicy)
        ensures
            r@ == default_policy(),
    {
        let r = ChannelSecurityPolicy {
            dm_policy: ChannelDmPolicy::Pairing,
            allow_from: Vec::new(),
            allowed_groups: None,
            require_mention_for_groups: true,
            max_message_bytes: None,
        };
        assert(r@.allow_from =~= Seq::empty());
        r
    }
}

/// True when every item is a string.
pub open spec fn all_texts(items: Seq<JsonView>) -> bool {
    forall|i: int| 0 <= i < items.len() ==> (#[trigger] items[i]) is Text
}

/// The texts of string items.
pub open spec fn texts(items: Seq<JsonView>) -> Seq<Seq<char>> {
    Seq::new(items.len(), |i: int| items[i]->Text_0)
}

/// The texts of the items, when all are strings.
fn texts_of(items: &Vec<JsonValue>) -> (r: Option<Vec<String>>)
    ensures
        r is Some == all_texts(items_view(items@)),
        r is Some ==> r->0.deep_view() == texts(items_view(items@)),
{
    proof {
        lemma_items(items@);
    }
    let mut out: Vec<String> = Vec::new();
    let mut i: usize = 0;
    while i < items.len()
        invariant
            i <= items@.len(),
            items_view(items@).len() == items@.len(),
            forall|k: int|
                0 <= k < items@.len() ==> #[trigger] items_view(items@)[k] == items@[k]@,
            out@.len() == i,
            forall|k: int|
                0 <= k < i ==> #[trigger] items_view(items@)[k] is Text && out@[k]@
                    == items_view(items@)[k]->Text_0,
        decreases items@.len() - i,
    {
        assert(items_view(items@)[i as int] == items@[i as int]@);
        match items[i].as_str() {
            Some(s) => {
                out.push(s.to_owned());
            },
            None => {
                return None;
            },
        }
        i = i + 1;
    }
    assert(out.deep_view() =~= texts(items_view(items@)));
    Some(out)
}

/// The rule that a channel's settings break, if any.
pub open spec fn policy_problem(extra: JsonView) -> Option<ErrorView> {
    if extra.text_member("dm_policy"@) is Some && dm_policy_named(
        extra.text_member("dm_policy"@)->0,
    ) is None {
        Some(
            ErrorView::ConfigValidation(
                "invalid dm_policy '"@ + extra.text_member("dm_policy"@)->0
                    + "'; expected open, allowlist, pairing, disabled"@,
            ),
        )
    } else if extra.member("allow_from"@) is Some && extra.items_member("allow_from"@) is None {
        Some(ErrorView::ConfigValidation("allow_from must be an array of sender ids"@))
    } else if extra.member("allow_from"@) is Some && !all_texts(
        extra.items_member("allow_from"@)->0,
    ) {
        Some(ErrorView::ConfigValidation("allow_from entries must be strings"@))
    } else if extra.member("groups"@) is Some && extra.items_member("groups"@) is None {
        Some(ErrorView::ConfigValidation("groups must be an array of group or thread ids"@))
    } else if extra.member("groups"@) is Some && !all_texts(extra.items_member("groups"@)->0) {
        Some(ErrorView::ConfigValidation("groups entries must be strings"@))
    } else if extra.member("max_message_bytes"@) is Some && extra.unsigned_member(
        "max_message_bytes"@,
    ) is None {
        Some(ErrorView::ConfigValidation("max_message_bytes must be a positive integer"@))
    } else if extra.member("max_message_bytes"@) is Some && extra.unsigned_member(
        "max_message_bytes"@,
    )->0 as usize == 0 {
        Some(ErrorView::ConfigValidation("max_message_bytes must be greater than 0"@))
    } else {
        None
    }
}

/// The policy that a channel's settings spell out.
pub open spec fn policy_of(extra: JsonView) -> PolicyView {
    PolicyView {
        dm_policy: match extra.text_member("dm_policy"@) {
            Some(name) => dm_policy_named(name)->0,
            None => ChannelDmPolicy::Pairing,
        },
        allow_from: match extra.items_member("allow_from"@) {
            Some(items) => texts(items),
            None => Seq::empty(),
        },
        allowed_groups: match extra.items_member("groups"@) {
            Some(items) => Some(texts(items)),
            None => None,
        },
        require_mention_for_groups: match extra.bool_member("require_mention_for_groups"@) {
            Some(b) => b,
            None => true,
        },
        max_message_bytes: match extra.unsigned_member("max_message_bytes"@) {
            Some(n) => Some(n as usize),
            None => None,
        },
    }
}

impl ChannelConfig {
    /// The channel's policy, or the rule that its settings break.
    pub fn security_policy(&self) -> (r: Result<ChannelSecurityPolicy, FrankClawError>)
        ensures
            outcome_is(r, policy_problem(self.extra@)),
            r is Ok ==> r->Ok_0@ == policy_of(self.extra@),
    {
        let mut dm_policy = ChannelDmPolicy::Pairing;
        if let Some(raw) = self.extra.get_str("dm_policy") {
            match ChannelDmPolicy::named(raw) {
                Some(named) => {
                    dm_policy = named;
                },
                None => {
                    return Err(
                        config_invalid(
                            cat3(
                                "invalid dm_policy '",
                                raw,
                                "'; expected open, allowlist, pairing, disabled",
                            ).as_str(),
                        ),
                    );
                },
            }
        }
        let mut allow_from: Vec<String> = Vec::new();
        assert(allow_from.deep_view() =~= Seq::empty());
        if let Some(raw) = self.extra.get("allow_from") {
            match raw.as_array() {
                Some(items) => match texts_of(items) {
                    Some(found) => {
                        allow_from = found;
                    },
                    None => {
                        return Err(config_invalid("allow_from entries must be strings"));
                    },
                },
                None => {
                    return Err(config_invalid("allow_from must be an array of sender ids"));
                },
            }
        }
        let mut allowed_groups: Option<Vec<String>> = None;
        if let Some(raw) = self.extra.get("groups") {
            match raw.as_array() {
                Some(items) => match texts_of(items) {
                    Some(found) => {
                        allowed_groups = Some(found);
                    },
                    None => {
                        return Err(config_invalid("groups entries must be strings"));
                    },
                },
                None => {
                    return Err(config_invalid("groups must be an array of group or thread ids"));
                },
            }
        }
        let mut require_mention_for_groups = true;
        if let Some(raw) = self.extra.get_bool("require_mention_for_groups") {
            require_mention_for_groups = raw;
        }
        let mut max_message_bytes: Option<usize> = None;
        if let Some(raw) = self.extra.get("max_message_bytes") {
            match raw.as_u64() {
                Some(n) => {
                    let value: usize = n as usize;
                    if value == 0 {
                        return Err(config_invalid("max_message_bytes must be greater than 0"));
                    }
                    max_message_bytes = Some(value);
                },
                None => {
                    return Err(config_invalid("max_message_bytes must be a positive integer"));
                },
            }
        }
        Ok(
            ChannelSecurityPolicy {
                dm_policy,
                allow_from,
                allowed_groups,
                require_mention_for_groups,
                max_message_bytes,
            },
        )
    }
}

/// True of a text that is there and holds more than white space.
pub open spec fn filled(s: Option<Seq<char>>) -> bool {
    s is Some && !is_blank(s->0)
}

/// True when the account holds a text under `key` that is not blank.
pub fn has_filled(account: &JsonValue, key: &str) -> (r: bool)
    ensures
        r == filled(account@.text_member(key@)),
{
    match account.get_str(key) {
        Some(value) => !blank(value),
        None => false,
    }
}

/// What the first account of a channel lacks: a text under one of two names,
/// or the name of an environment variable under one of two others.
pub open spec fn source_problem(
    channel: ChannelConfig,
    name: Seq<char>,
    inline: (Seq<char>, Seq<char>),
    env: (Seq<char>, Seq<char>),
    label: Seq<char>,
) -> Option<ErrorView> {
    if channel.accounts@.len() == 0 {
        Some(ErrorView::ConfigValidation(name + " channel requires at least one account"@))
    } else {
        let account = channel.accounts@[0]@;
        if filled(account.text_member(inline.0)) || filled(account.text_member(inline.1)) || filled(
            account.text_member(env.0),
        ) || filled(account.text_member(env.1)) {
            None
        } else {
            Some(
                ErrorView::ConfigValidation(
                    name + " channel requires a non-empty "@ + label + " or "@ + (label
                        + " env reference"@),
                ),
            )
        }
    }
}

/// Checks that the first account names a value, inline or by environment
/// variable.
fn validate_channel_account_value_source(
    channel: &ChannelConfig,
    name: &str,
    inline: (&str, &str),
    env: (&str, &str),
    label: &str,
) -> (r: Result<(), FrankClawError>)
    ensures
        outcome_is(
            r,
            source_problem(
                *channel,
                name@,
                (inline.0@, inline.1@),
                (env.0@, env.1@),
                label@,
            ),
        ),
{
    if channel.accounts.len() == 0 {
        return Err(config_invalid(cat2(name, " channel requires at least one account").as_str()));
    }
    let account = &channel.accounts[0];
    if has_filled(account, inline.0) || has_filled(account, inline.1) {
        return Ok(());
    }
    if has_filled(account, env.0) || has_filled(account, env.1) {
        return Ok(());
    }
    Err(
        config_invalid(
            cat5(
                name,
                " channel requires a non-empty ",
                label,
                " or ",
                cat2(label, " env reference").as_str(),
            ).as_str(),
        ),
    )
}

/// The rule on credentials that a channel breaks, if any.
pub open spec fn channel_problem(id: Seq<char>, channel: ChannelConfig) -> Option<ErrorView> {
    if !channel.enabled || id == "web"@ {
        None
    } else if id == "telegram"@ || id == "discord"@ {
        source_problem(
            channel,
            id,
            ("bot_token"@, "token"@),
            ("bot_token_env"@, "token_env"@),
            "bot token"@,
        )
    } else if id == "signal"@ {
        source_problem(
            channel,
            id,
            ("base_url"@, "http_url"@),
            ("base_url_env"@, "http_url_env"@),
            "base URL"@,
        )
    } else if id == "whatsapp"@ {
        let access = source_problem(
            channel,
            id,
            ("access_token"@, "token"@),
            ("access_token_env"@, "token_env"@),
            "access token"@,
        );
        let phone = source_problem(
            channel,
            id,
            ("phone_number_id"@, "phone_number_id"@),
            ("phone_number_id_env"@, "phone_number_id_env"@),
            "phone number id"@,
        );
        let verify = source_problem(
            channel,
            id,
            ("verify_token"@, "verify_token"@),
            ("verify_token_env"@, "verify_token_env"@),
            "verify token"@,
        );
        if access is Some {
            access
        } else if phone is Some {
            phone
        } else {
            verify
        }
    } else if id == "slack"@ {
        let app = source_problem(
            channel,
            id,
            ("app_token"@, "app_token"@),
            ("app_token_env"@, "app_token_env"@),
            "app token"@,
        );
        let bot = source_problem(
            channel,
            id,
            ("bot_token"@, "token"@),
            ("bot_token_env"@, "token_env"@),
            "bot token"@,
        );
        if app is Some {
            app
        } else {
            bot
        }
    } else {
        Some(
            ErrorView::ConfigValidation(
                "unsupported enabled channel '"@ + id
                    + "'; currently supported: web, telegram, discord, signal, slack, whatsapp"@,
            ),
        )
    }
}

/// Checks that an enabled channel is one that is supported and has its
/// credentials.
pub fn validate_channel_config(channel_id: &ChannelId, channel: &ChannelConfig) -> (r: Result<
    (),
    FrankClawError,
>)
    ensures
        outcome_is(r, channel_problem(channel_id@, *channel)),
{
    if !channel.enabled {
        return Ok(());
    }
    let id = channel_id.as_str();
    if str_eq(id, "web") {
        Ok(())
    } else if str_eq(id, "telegram") || str_eq(id, "discord") {
        validate_channel_account_value_source(
            channel,
            id,
            ("bot_token", "token"),
            ("bot_token_env", "token_env"),
            "bot token",
        )
    } else if str_eq(id, "signal") {
        validate_channel_account_value_source(
            channel,
            id,
            ("base_url", "http_url"),
            ("base_url_env", "http_url_env"),
            "base URL",
        )
    } else if str_eq(id, "whatsapp") {
        let access = validate_channel_account_value_source(
            channel,
            id,
            ("access_token", "token"),
            ("access_token_env", "token_env"),
            "access token",
        );
        if access.is_err() {
            return access;
        }
        let phone = validate_channel_account_value_source(
            channel,
            id,
            ("phone_number_id", "phone_number_id"),
            ("phone_number_id_env", "phone_number_id_env"),
            "phone number id",
        );
        if phone.is_err() {
            return phone;
        }
        validate_channel_account_value_source(
            channel,
            id,
            ("verify_token", "verify_token"),
            ("verify_token_env", "verify_token_env"),
            "verify token",
        )
    } else if str_eq(id, "slack") {
        let app = validate_channel_account_value_source(
            channel,
            id,
            ("app_token", "app_token"),
            ("app_token_env", "app_token_env"),
            "app token",
        );
        if app.is_err() {
            return app;
        }
        validate_channel_account_value_source(
            channel,
            id,
            ("bot_token", "token"),
            ("bot_token_env", "token_env"),
            "bot token",
        )
    } else {
        Err(
            config_invalid(
                cat3(
                    "unsupported enabled channel '",
                    id,
                    "'; currently supported: web, telegram, discord, signal, slack, whatsapp",
                ).as_str(),
            ),
        )
    }
}

/// Configuration for a model provider.
#[derive(Clone, Debug)]
pub struct ProviderConfig {
    pub id: String,
    pub api: String,
    pub base_url: Option<String>,
    /// Reference to API key (env var name or secret ref).
    pub api_key_ref: Option<String>,
    pub models: Vec<String>,
    pub cooldown_secs: u64,
}

/// Model provider configuration.
#[derive(Clone, Debug)]
pub struct ModelsConfig {
    pub providers: Vec<ProviderConfig>,
    pub default_model: Option<String>,
}

impl Default for ModelsConfig {
    fn default() -> (r: ModelsConfig)
        ensures
            r.providers@.len() == 0,
            r.default_model is None,
    {
        ModelsConfig { providers: Vec::new(), default_model: None }
    }
}

/// The rule that the provider at `i` breaks, if any.
pub open spec fn provider_problem(providers: Seq<ProviderConfig>, i: int) -> Option<ErrorView> {
    let p = providers[i];
    if is_blank(p.id@) {
        Some(ErrorView::ConfigValidation("model provider id cannot be empty"@))
    } else if exists|k: int| 0 <= k < i && (#[trigger] providers[k]).id@ == p.id@ {
        Some(ErrorView::ConfigValidation("duplicate model provider id '"@ + p.id@ + "'"@))
    } else if p.api@ != "openai"@ && p.api@ != "anthropic"@ && p.api@ != "ollama"@ {
        Some(
            ErrorView::ConfigValidation(
                "unsupported model provider api '"@ + p.api@
                    + "'; expected openai, anthropic, or ollama"@,
            ),
        )
    } else if (p.api@ == "openai"@ || p.api@ == "anthropic"@) && !filled(
        p.api_key_ref.deep_view(),
    ) {
        Some(
            ErrorView::ConfigValidation(
                "provider '"@ + p.id@ + "' requires a non-empty api_key_ref"@,
            ),
        )
    } else {
        None
    }
}

/// The first rule that a provider from `i` on breaks, if any.
pub open spec fn providers_problem(providers: Seq<ProviderConfig>, i: int) -> Option<ErrorView>
    decreases providers.len() - i,
{
    if i < 0 || i >= providers.len() {
        None
    } else if provider_problem(providers, i) is Some {
        provider_problem(providers, i)
    } else {
        providers_problem(providers, i + 1)
    }
}

fn is_filled(s: &Option<String>) -> (r: bool)
    ensures
        r == filled(s.deep_view()),
{
    match s {
        Some(s) => !blank(s.as_str()),
        None => false,
    }
}

fn validate_providers(providers: &Vec<ProviderConfig>) -> (r: Result<(), FrankClawError>)
    ensures
        outcome_is(r, providers_problem(providers@, 0)),
{
    let mut i: usize = 0;
    while i < providers.len()
        invariant
            i <= providers@.len(),
            providers_problem(providers@, 0) == providers_problem(providers@, i as int),
        decreases providers@.len() - i,
    {
        let p = &providers[i];
        if blank(p.id.as_str()) {
            return Err(config_invalid("model provider id cannot be empty"));
        }
        let mut k: usize = 0;
        while k < i
            invariant
                k <= i < providers@.len(),
                p == providers@[i as int],
                !is_blank(p.id@),
                providers_problem(providers@, 0) == providers_problem(providers@, i as int),
                forall|m: int| 0 <= m < k ==> (#[trigger] providers@[m]).id@ != p.id@,
            decreases i - k,
        {
            if providers[k].id == p.id {
                return Err(
                    config_invalid(
                        cat3("duplicate model provider id '", p.id.as_str(), "'").as_str(),
                    ),
                );
            }
            k = k + 1;
        }
        let keyed = str_eq(p.api.as_str(), "openai") || str_eq(p.api.as_str(), "anthropic");
        if !keyed && !str_eq(p.api.as_str(), "ollama") {
            return Err(
                config_invalid(
                    cat3(
                        "unsupported model provider api '",
                        p.api.as_str(),
                        "'; expected openai, anthropic, or ollama",
                    ).as_str(),
                ),
            );
        }
        if keyed && !is_filled(&p.api_key_ref) {
            return Err(
                config_invalid(
                    cat3("provider '", p.id.as_str(), "' requires a non-empty api_key_ref").as_str(),
                ),
            );
        }
        i = i + 1;
    }
    Ok(())
}

/// Session defaults. The session store reads its settings itself, so they stay
/// as they were written; null stands for the store's own default.
#[derive(Debug)]
pub struct SessionConfig {
    pub scoping: JsonValue,
    pub reset: JsonValue,
    pub pruning: JsonValue,
}

impl Default for SessionConfig {
    fn default() -> (r: SessionConfig)
        ensures
            r.scoping@ is Null,
            r.reset@ is Null,
            r.pruning@ is Null,
    {
        SessionConfig { scoping: JsonValue::Null, reset: JsonValue::Null, pruning: JsonValue::Null }
    }
}

/// A scheduled job as the configuration gives it: decoded, or the decoder's
/// complaint.
#[derive(Debug)]
pub enum RawCronJob {
    Job(CronJob),
    Malformed(String),
}

/// A prompt that runs on a schedule.
#[derive(Debug)]
pub struct CronJob {
    pub id: String,
    pub agent_id: AgentId,
    pub session_key: SessionKey,
    pub prompt: String,
}

impl Clone for CronJob {
    fn clone(&self) -> (r: CronJob)
        ensures
            r == *self,
    {
        CronJob {
            id: self.id.clone(),
            agent_id: self.agent_id.clone(),
            session_key: self.session_key.clone(),
            prompt: self.prompt.clone(),
        }
    }
}

/// Cron defaults.
#[derive(Debug)]
pub struct CronConfig {
    pub enabled: bool,
    pub jobs: Vec<RawCronJob>,
}

impl Default for CronConfig {
    fn default() -> (r: CronConfig)
        ensures
            !r.enabled,
            r.jobs@.len() == 0,
    {
        CronConfig { enabled: false, jobs: Vec::new() }
    }
}

/// How requests to one webhook become messages.
#[derive(Debug)]
pub struct WebhookMapping {
    pub id: String,
    pub agent_id: Option<AgentId>,
    pub session_key: Option<SessionKey>,
    pub text_field: String,
    /// Dot-notation path to the text (e.g. "data.message.text"). When set, it
    /// is used instead of `text_field`.
    pub json_path: Option<String>,
    /// Template around the text; `{text}` stands for the extracted value.
    pub template: Option<String>,
    /// Route replies to a specific channel.
    pub channel_id: Option<ChannelId>,
    /// Max concurrent executions for this mapping.
    pub max_concurrent: usize,
    /// Fixed-window rate limit (requests per minute).
    pub rate_limit_per_minute: Option<u32>,
}

impl Clone for WebhookMapping {
    fn clone(&self) -> (r: WebhookMapping)
        ensures
            r == *self,
    {
        WebhookMapping {
            id: self.id.clone(),
            agent_id: match &self.agent_id {
                Some(id) => Some(id.clone()),
                None => None,
            },
            session_key: match &self.session_key {
                Some(key) => Some(key.clone()),
                None => None,
            },
            text_field: self.text_field.clone(),
            json_path: clone_text(&self.json_path),
            template: clone_text(&self.template),
            channel_id: match &self.channel_id {
                Some(id) => Some(id.clone()),
                None => None,
            },
            max_concurrent: self.max_concurrent,
            rate_limit_per_minute: self.rate_limit_per_minute,
        }
    }
}

/// The number of executions at a time where a mapping names none.
pub fn default_max_concurrent() -> (r: usize)
    ensures
        r == 8,
{
    8
}

impl Default for WebhookMapping {
    fn default() -> (r: WebhookMapping)
        ensures
            r.id@ == Seq::<char>::empty(),
            r.agent_id is None,
            r.session_key is None,
            r.text_field@ == "message"@,
            r.json_path is None,
            r.template is None,
            r.channel_id is None,
            r.max_concurrent == 8,
            r.rate_limit_per_minute is None,
    {
        WebhookMapping {
            id: String::new(),
            agent_id: None,
            session_key: None,
            text_field: "message".to_owned(),
            json_path: None,
            template: None,
            channel_id: None,
            max_concurrent: default_max_concurrent(),
            rate_limit_per_minute: None,
        }
    }
}

/// A webhook mapping as the configuration gives it: decoded, or the decoder's
/// complaint.
#[derive(Debug)]
pub enum RawMapping {
    Mapping(WebhookMapping),
    Malformed(String),
}

/// Hooks configuration.
#[derive(Debug)]
pub struct HooksConfig {
    pub enabled: bool,
    pub token: Option<String>,
    pub max_body_bytes: Option<usize>,
    pub mappings: Vec<RawMapping>,
}

impl Default for HooksConfig {
    fn default() -> (r: HooksConfig)
        ensures
            !r.enabled,
            r.token is None,
            r.max_body_bytes is None,
            r.mappings@.len() == 0,
    {
        HooksConfig { enabled: false, token: None, max_body_bytes: None, mappings: Vec::new() }
    }
}

/// True when the mapping pins a session that belongs to another agent.
pub open spec fn foreign_session(m: WebhookMapping) -> bool {
    match (m.agent_id, m.session_key) {
        (Some(agent), Some(key)) => match parsed_key(key@) {
            Some((session_agent, _, _)) => session_agent != agent@,
            None => false,
        },
        _ => false,
    }
}

/// The rule that the mapping at `i` breaks, if any.
pub open spec fn mapping_problem(mappings: Seq<RawMapping>, i: int) -> Option<ErrorView> {
    match mappings[i] {
        RawMapping::Malformed(err) => Some(
            ErrorView::ConfigValidation("invalid webhook mapping: "@ + err@),
        ),
        RawMapping::Mapping(m) => if is_blank(m.id@) {
            Some(ErrorView::ConfigValidation("webhook mapping id cannot be empty"@))
        } else if exists|k: int|
            0 <= k < i && (#[trigger] mappings[k]) is Mapping && mappings[k]->Mapping_0.id@
                == m.id@ {
            Some(ErrorView::ConfigValidation("duplicate webhook mapping '"@ + m.id@ + "'"@))
        } else if is_blank(m.text_field@) {
            Some(
                ErrorView::ConfigValidation(
                    "webhook mapping '"@ + m.id@ + "' text_field cannot be empty"@,
                ),
            )
        } else if foreign_session(m) {
            Some(
                ErrorView::ConfigValidation(
                    "webhook mapping '"@ + m.id@ + "' session '"@ + m.session_key->0@
                        + "' does not belong to agent '"@ + m.agent_id->0@ + "'"@,
                ),
            )
        } else {
            None
        },
    }
}

/// The first rule that a mapping from `i` on breaks, if any.
pub open spec fn mappings_problem(mappings: Seq<RawMapping>, i: int) -> Option<ErrorView>
    decreases mappings.len() - i,
{
    if i < 0 || i >= mappings.len() {
        None
    } else if mapping_problem(mappings, i) is Some {
        mapping_problem(mappings, i)
    } else {
        mappings_problem(mappings, i + 1)
    }
}

/// The rule that the hooks break, if any.
pub open spec fn hooks_problem(hooks: HooksConfig) -> Option<ErrorView> {
    if !hooks.enabled {
        None
    } else if !filled(hooks.token.deep_view()) {
        Some(ErrorView::ConfigValidation("hooks.enabled requires a non-empty hooks.token"@))
    } else if hooks.mappings@.len() == 0 {
        Some(ErrorView::ConfigValidation("hooks.enabled requires at least one mapping"@))
    } else {
        mappings_problem(hooks.mappings@, 0)
    }
}

impl HooksConfig {
    /// The mappings, or the rule that the hooks break. Hooks that are off have
    /// no mappings.
    pub fn parsed_mappings(&self) -> (r: Result<Vec<WebhookMapping>, FrankClawError>)
        ensures
            outcome_is(r, hooks_problem(*self)),
            r is Ok && !self.enabled ==> r->Ok_0@.len() == 0,
            r is Ok && self.enabled ==> r->Ok_0@.len() == self.mappings@.len() && forall|i: int|
                0 <= i < self.mappings@.len() ==> self.mappings@[i] == RawMapping::Mapping(
                    #[trigger] r->Ok_0@[i],
                ),
    {
        if !self.enabled {
            return Ok(Vec::new());
        }
        if !is_filled(&self.token) {
            return Err(config_invalid("hooks.enabled requires a non-empty hooks.token"));
        }
        if self.mappings.len() == 0 {
            return Err(config_invalid("hooks.enabled requires at least one mapping"));
        }
        let mut out: Vec<WebhookMapping> = Vec::new();
        let mut i: usize = 0;
        while i < self.mappings.len()
            invariant
                i <= self.mappings@.len(),
                hooks_problem(*self) == mappings_problem(self.mappings@, i as int),
                out@.len() == i,
                forall|k: int|
                    0 <= k < i ==> self.mappings@[k] == RawMapping::Mapping(#[trigger] out@[k]),
            decreases self.mappings@.len() - i,
        {
            let m = match &self.mappings[i] {
                RawMapping::Malformed(err) => {
                    return Err(
                        config_invalid(cat2("invalid webhook mapping: ", err.as_str()).as_str()),
                    );
                },
                RawMapping::Mapping(m) => m,
            };
            if blank(m.id.as_str()) {
                return Err(config_invalid("webhook mapping id cannot be empty"));
            }
            let mut k: usize = 0;
            while k < i
                invariant
                    k <= i < self.mappings@.len(),
                    out@.len() == i,
                    self.mappings@[i as int] == RawMapping::Mapping(*m),
                    !is_blank(m.id@),
                    hooks_problem(*self) == mappings_problem(self.mappings@, i as int),
                    forall|j: int|
                        0 <= j < i ==> self.mappings@[j] == RawMapping::Mapping(#[trigger] out@[j]),
                    forall|j: int| 0 <= j < k ==> (#[trigger] out@[j]).id@ != m.id@,
                decreases i - k,
            {
                if out[k].id == m.id {
                    assert(self.mappings@[k as int] is Mapping);
                    return Err(
                        config_invalid(
                            cat3("duplicate webhook mapping '", m.id.as_str(), "'").as_str(),
                        ),
                    );
                }
                k = k + 1;
            }
            assert(forall|j: int|
                0 <= j < i && (#[trigger] self.mappings@[j]) is Mapping
                    ==> self.mappings@[j]->Mapping_0 == out@[j]);
            if blank(m.text_field.as_str()) {
                return Err(
                    config_invalid(
                        cat3(
                            "webhook mapping '",
                            m.id.as_str(),
                            "' text_field cannot be empty",
                        ).as_str(),
                    ),
                );
            }
            if let Some(agent_id) = &m.agent_id {
                if let Some(session_key) = &m.session_key {
                    if let Some((session_agent, _channel, _account)) = session_key.parse() {
                        if session_agent != *agent_id {
                            return Err(
                                config_invalid(
                                    cat3(
                                        cat5(
                                            "webhook mapping '",
                                            m.id.as_str(),
                                            "' session '",
                                            session_key.as_str(),
                                            "' does not belong to agent '",
                                        ).as_str(),
                                        agent_id.as_str(),
                                        "'",
                                    ).as_str(),
                                ),
                            );
                        }
                    }
                }
            }
            out.push(m.clone());
            i = i + 1;
        }
        Ok(out)
    }
}

/// Logging configuration.
#[derive(Clone, Debug)]
pub struct LoggingConfig {
    pub level: String,
    pub format: LogFormat,
    /// Redact sensitive values in logs.
    pub redact_secrets: bool,
}

impl Default for LoggingConfig {
    fn default() -> (r: LoggingConfig)
        ensures
            r.level@ == "info"@,
            r.format == LogFormat::Pretty,
            r.redact_secrets,
    {
        LoggingConfig { level: "info".to_owned(), format: LogFormat::Pretty, redact_secrets: true }
    }
}

/// The form of log lines.
#[derive(Clone, Copy, Debug, PartialEq, Eq, Structural)]
pub enum LogFormat {
    Pretty,
    Json,
    Compact,
}

/// Media pipeline configuration.
#[derive(Clone, Debug)]
pub struct MediaConfig {
    pub max_file_size_bytes: u64,
    pub ttl_hours: u64,
    pub storage_path: Option<String>,
}

impl Default for MediaConfig {
    fn default() -> (r: MediaConfig)
        ensures
            r.max_file_size_bytes == 5 * 1024 * 1024,
            r.ttl_hours == 2,
            r.storage_path is None,
    {
        MediaConfig { max_file_size_bytes: 5 * 1024 * 1024, ttl_hours: 2, storage_path: None }
    }
}

/// Security hardening options.
#[derive(Clone, Copy, Debug, PartialEq, Eq, Structural)]
pub struct SecurityConfig {
    /// Encrypt sessions at rest.
    pub encrypt_sessions: bool,
    /// Encrypt media files at rest.
    pub encrypt_media: bool,
    /// Require authentication for LAN/public bind modes. Always true: no
    /// configuration file can set it.
    pub require_auth_for_network: bool,
    /// Block SSRF to private IP ranges.
    pub ssrf_protection: bool,
    /// Maximum request body size for webhooks (bytes).
    pub max_webhook_body_bytes: usize,
}

impl Default for SecurityConfig {
    fn default() -> (r: SecurityConfig)
        ensures
            r == (SecurityConfig {
                encrypt_sessions: true,
                encrypt_media: false,
                require_auth_for_network: true,
                ssrf_protection: true,
                max_webhook_body_bytes: 1048576,
            }),
    {
        SecurityConfig {
            encrypt_sessions: true,
            encrypt_media: false,
            require_auth_for_network: true,
            ssrf_protection: true,
            max_webhook_body_bytes: 1024 * 1024,
        }
    }
}

/// Media understanding configuration (vision + transcription).
#[derive(Clone, Debug)]
pub struct MediaUnderstandingConfig {
    /// Enable automatic media understanding for non-vision models.
    pub enabled: bool,
    /// Vision provider: "openai", "anthropic", "ollama", or "none".
    pub vision_provider: String,
    /// Model for vision analysis.
    pub vision_model: Option<String>,
    /// Base URL for the vision provider API.
    pub vision_base_url: Option<String>,
    /// API key env var for vision provider.
    pub vision_api_key_ref: Option<String>,
    /// Transcription provider: "openai" or "none".
    pub transcription_provider: String,
    /// Model for audio transcription.
    pub transcription_model: Option<String>,
    /// Base URL for the transcription provider API.
    pub transcription_base_url: Option<String>,
    /// API key env var for transcription provider.
    pub transcription_api_key_ref: Option<String>,
    /// Automatically transcribe voice messages from channels.
    pub auto_transcribe_voice: bool,
}

impl Default for MediaUnderstandingConfig {
    fn default() -> (r: MediaUnderstandingConfig)
        ensures
            !r.enabled,
            r.vision_provider@ == "none"@,
            r.vision_model is None,
            r.vision_base_url is None,
            r.vision_api_key_ref is None,
            r.transcription_provider@ == "none"@,
            r.transcription_model is None,
            r.transcription_base_url is None,
            r.transcription_api_key_ref is None,
            !r.auto_transcribe_voice,
    {
        MediaUnderstandingConfig {
            enabled: false,
            vision_provider: "none".to_owned(),
            vision_model: None,
            vision_base_url: None,
            vision_api_key_ref: None,
            transcription_provider: "none".to_owned(),
            transcription_model: None,
            transcription_base_url: None,
            transcription_api_key_ref: None,
            auto_transcribe_voice: false,
        }
    }
}

/// Memory/RAG configuration.
#[derive(Clone, Debug)]
pub struct MemoryConfig {
    pub enabled: bool,
    /// Embedding provider: "openai", "ollama", or "none".
    pub embedding_provider: String,
    /// Embedding model name.
    pub embedding_model: Option<String>,
    /// Base URL for the embedding provider API.
    pub embedding_base_url: Option<String>,
    /// API key env var for embedding provider.
    pub embedding_api_key_ref: Option<String>,
    /// Chunk size target in characters.
    pub chunk_size: usize,
    /// Directory to sync for memory content.
    pub memory_dir: Option<String>,
    /// Enable embedding cache.
    pub cache_embeddings: bool,
}

impl Default for MemoryConfig {
    fn default() -> (r: MemoryConfig)
        ensures
            !r.enabled,
            r.embedding_provider@ == "none"@,
            r.embedding_model is None,
            r.embedding_base_url is None,
            r.embedding_api_key_ref is None,
            r.chunk_size == 1500,
            r.memory_dir is None,
            r.cache_embeddings,
    {
        MemoryConfig {
            enabled: false,
            embedding_provider: "none".to_owned(),
            embedding_model: None,
            embedding_base_url: None,
            embedding_api_key_ref: None,
            chunk_size: 1500,
            memory_dir: None,
            cache_embeddings: true,
        }
    }
}

/// Named browser profile for CDP connections.
#[derive(Clone, Debug)]
pub struct BrowserProfileConfig {
    pub name: String,
    pub cdp_port: Option<u16>,
    pub cdp_url: Option<String>,
    pub color: String,
}

/// Top-level FrankClaw configuration.
#[derive(Debug)]
pub struct FrankClawConfig {
    pub gateway: GatewayConfig,
    pub agents: AgentsConfig,
    pub channels: Vec<(ChannelId, ChannelConfig)>,
    pub models: ModelsConfig,
    pub session: SessionConfig,
    pub cron: CronConfig,
    pub hooks: HooksConfig,
    pub logging: LoggingConfig,
    pub media: MediaConfig,
    pub security: SecurityConfig,
    pub memory: MemoryConfig,
    pub understanding: MediaUnderstandingConfig,
    /// Named browser profiles for CDP connections.
    pub browser_profiles: Vec<BrowserProfileConfig>,
}

/// The index of the first channel of a given name; the length when there is
/// none.
pub open spec fn channel_index(channels: Seq<(ChannelId, ChannelConfig)>, id: Seq<char>) -> int
    decreases channels.len(),
{
    if channels.len() == 0 {
        0
    } else if channels[0].0@ == id {
        0
    } else {
        1 + channel_index(channels.drop_first(), id)
    }
}

/// What `channel_index` finds.
pub proof fn lemma_channel_index(channels: Seq<(ChannelId, ChannelConfig)>, id: Seq<char>)
    ensures
        0 <= channel_index(channels, id) <= channels.len(),
        channel_index(channels, id) < channels.len() ==> channels[channel_index(channels, id)].0@
            == id,
        forall|k: int|
            0 <= k < channel_index(channels, id) ==> (#[trigger] channels[k]).0@ != id,
    decreases channels.len(),
{
    if channels.len() > 0 && channels[0].0@ != id {
        let rest = channels.drop_first();
        lemma_channel_index(rest, id);
        assert forall|k: int| 0 <= k < channel_index(channels, id) implies (
        #[trigger] channels[k]).0@ != id by {
            if k > 0 {
                assert(rest[k - 1] == channels[k]);
            }
        }
    }
}

proof fn lemma_channel_index_is(
    channels: Seq<(ChannelId, ChannelConfig)>,
    id: Seq<char>,
    i: int,
)
    requires
        0 <= i <= channels.len(),
        i < channels.len() ==> channels[i].0@ == id,
        forall|k: int| 0 <= k < i ==> (#[trigger] channels[k]).0@ != id,
    ensures
        channel_index(channels, id) == i,
{
    lemma_channel_index(channels, id);
    if channel_index(channels, id) < i {
        assert(channels[channel_index(channels, id)].0@ == id);
    }
    if i < channel_index(channels, id) {
        assert(channels[i].0@ != id);
    }
}

/// True when no two channels share a name.
pub open spec fn distinct_channels(channels: Seq<(ChannelId, ChannelConfig)>) -> bool {
    forall|i: int, j: int|
        0 <= i < j < channels.len() ==> (#[trigger] channels[i]).0@ != (#[trigger] channels[j]).0@
}

/// The rule that the channel at `i` breaks, if any.
pub open spec fn channel_entry_problem(
    channels: Seq<(ChannelId, ChannelConfig)>,
    i: int,
) -> Option<ErrorView> {
    if policy_problem(channels[i].1.extra@) is Some {
        policy_problem(channels[i].1.extra@)
    } else {
        channel_problem(channels[i].0@, channels[i].1)
    }
}

/// The first rule that a channel from `i` on breaks, if any.
pub open spec fn channels_problem(
    channels: Seq<(ChannelId, ChannelConfig)>,
    i: int,
) -> Option<ErrorView>
    decreases channels.len() - i,
{
    if i < 0 || i >= channels.len() {
        None
    } else if channel_entry_problem(channels, i) is Some {
        channel_entry_problem(channels, i)
    } else {
        channels_problem(channels, i + 1)
    }
}

/// The first rule that a configuration breaks, if any. Whether its
/// authentication settings and its bind address are sound is given.
pub open spec fn config_problem(
    config: FrankClawConfig,
    auth: Option<ErrorView>,
    bind_is_ip: bool,
) -> Option<ErrorView> {
    if auth is Some {
        auth
    } else if !has_agent(config.agents.agents@, config.agents.default_agent@) {
        Some(
            ErrorView::ConfigValidation(
                "default agent '"@ + config.agents.default_agent@
                    + "' is not present in agents map"@,
            ),
        )
    } else if providers_problem(config.models.providers@, 0) is Some {
        providers_problem(config.models.providers@, 0)
    } else if config.models.default_model is Some && is_blank(config.models.default_model->0@) {
        Some(ErrorView::ConfigValidation("models.default_model cannot be empty"@))
    } else if config.gateway.max_connections == 0 {
        Some(ErrorView::ConfigValidation("gateway.max_connections must be greater than 0"@))
    } else if config.gateway.max_ws_message_bytes == 0 {
        Some(ErrorView::ConfigValidation("gateway.max_ws_message_bytes must be greater than 0"@))
    } else if config.gateway.bind is Address && !bind_is_ip {
        Some(
            ErrorView::ConfigValidation(
                "gateway.bind address '"@ + config.gateway.bind->Address_0@
                    + "' is not a valid IP address"@,
            ),
        )
    } else if channels_problem(config.channels@, 0) is Some {
        channels_problem(config.channels@, 0)
    } else {
        hooks_problem(config.hooks)
    }
}

impl FrankClawConfig {
    /// True when no two channels share a name.
    pub open spec fn wf(&self) -> bool {
        distinct_channels(self.channels@)
    }

    /// The settings of the channel `id`.
    pub fn channel(&self, id: &ChannelId) -> (r: Option<&ChannelConfig>)
        ensures
            r is Some == (channel_index(self.channels@, id@) < self.channels@.len()),
            r is Some ==> *r->0 == self.channels@[channel_index(self.channels@, id@)].1,
    {
        let mut i: usize = 0;
        while i < self.channels.len()
            invariant
                i <= self.channels@.len(),
                forall|k: int| 0 <= k < i ==> (#[trigger] self.channels@[k]).0@ != id@,
            decreases self.channels@.len() - i,
        {
            if self.channels[i].0 == *id {
                proof {
                    lemma_channel_index_is(self.channels@, id@, i as int);
                }
                return Some(&self.channels[i].1);
            }
            i = i + 1;
        }
        proof {
            lemma_channel_index_is(self.channels@, id@, i as int);
        }
        None
    }

    /// Sets the settings of the channel `id`.
    pub fn insert_channel(&mut self, id: ChannelId, channel: ChannelConfig)
        requires
            old(self).wf(),
        ensures
            final(self).wf(),
            ({
                let i = channel_index(old(self).channels@, id@);
                let before = old(self).channels@;
                *final(self) == (FrankClawConfig {
                    channels: final(self).channels,
                    ..*old(self)
                }) && final(self).channels@ == if i < before.len() {
                    before.update(i, (id, channel))
                } else {
                    before.push((id, channel))
                }
            }),
    {
        let mut i: usize = 0;
        while i < self.channels.len()
            invariant
                i <= self.channels@.len(),
                *self == *old(self),
                old(self).wf(),
                forall|k: int| 0 <= k < i ==> (#[trigger] self.channels@[k]).0@ != id@,
            decreases self.channels@.len() - i,
        {
            if self.channels[i].0 == id {
                proof {
                    lemma_channel_index_is(self.channels@, id@, i as int);
                }
                self.channels.set(i, (id, channel));
                proof {
                    let before = old(self).channels@;
                    assert forall|a: int, b: int| 0 <= a < b < self.channels@.len() implies (
                    #[trigger] self.channels@[a]).0@ != (#[trigger] self.channels@[b]).0@ by {
                        assert(before[a].0@ != before[b].0@);
                    }
                }
                return ;
            }
            i = i + 1;
        }
        proof {
            lemma_channel_index_is(self.channels@, id@, i as int);
        }
        self.channels.push((id, channel));
    }

    /// Checks the configuration: the first rule that it breaks, in order.
    /// `auth` is the verdict on the authentication settings, and `bind_is_ip`
    /// tells whether the bind address, where one is set, is an IP address.
    pub fn validate(&self, auth: Result<(), FrankClawError>, bind_is_ip: bool) -> (r: Result<
        (),
        FrankClawError,
    >)
        ensures
            outcome_is(
                r,
                config_problem(
                    *self,
                    match auth {
                        Ok(_) => None,
                        Err(e) => Some(e@),
                    },
                    bind_is_ip,
                ),
            ),
    {
        if auth.is_err() {
            return auth;
        }
        if !self.agents.contains(&self.agents.default_agent) {
            return Err(
                config_invalid(
                    cat3(
                        "default agent '",
                        self.agents.default_agent.as_str(),
                        "' is not present in agents map",
                    ).as_str(),
                ),
            );
        }
        let providers = validate_providers(&self.models.providers);
        if providers.is_err() {
            return providers;
        }
        if let Some(default_model) = &self.models.default_model {
            if blank(default_model.as_str()) {
                return Err(config_invalid("models.default_model cannot be empty"));
            }
        }
        if self.gateway.max_connections == 0 {
            return Err(config_invalid("gateway.max_connections must be greater than 0"));
        }
        if self.gateway.max_ws_message_bytes == 0 {
            return Err(config_invalid("gateway.max_ws_message_bytes must be greater than 0"));
        }
        if let BindMode::Address(address) = &self.gateway.bind {
            if !bind_is_ip {
                return Err(
                    config_invalid(
                        cat3(
                            "gateway.bind address '",
                            address.as_str(),
                            "' is not a valid IP address",
                        ).as_str(),
                    ),
                );
            }
        }
        let mut i: usize = 0;
        while i < self.channels.len()
            invariant
                i <= self.channels@.len(),
                auth is Ok,
                channels_problem(self.channels@, 0) == channels_problem(self.channels@, i as int),
                config_problem(*self, None, bind_is_ip) == if channels_problem(self.channels@, 0)
                    is Some {
                    channels_problem(self.channels@, 0)
                } else {
                    hooks_problem(self.hooks)
                },
            decreases self.channels@.len() - i,
        {
            match self.channels[i].1.security_policy() {
                Ok(_) => {},
                Err(err) => {
                    return Err(err);
                },
            }
            let checked = validate_channel_config(&self.channels[i].0, &self.channels[i].1);
            if checked.is_err() {
                return checked;
            }
            i = i + 1;
        }
        match self.hooks.parsed_mappings() {
            Ok(_) => Ok(()),
            Err(err) => Err(err),
        }
    }
}

/// How a configuration file is written.
#[derive(Clone, Copy, Debug, PartialEq, Eq, Structural)]
pub enum ConfigNotation {
    Json,
    Toml,
}

/// How a configuration file is written: in JSON where it begins with a brace,
/// else in TOML.
pub fn config_notation(content: &str) -> (r: ConfigNotation)
    ensures
        r == if "{"@.is_prefix_of(trimmed_start(content@)) {
            ConfigNotation::Json
        } else {
            ConfigNotation::Toml
        },
{
    if starts_with(content.trim_start(), "{") {
        ConfigNotation::Json
    } else {
        ConfigNotation::Toml
    }
}

/// True of a configuration that sets nothing but its port, its authentication,
/// its models, its channels and whether sessions are encrypted.
pub open spec fn starts_from_defaults(c: FrankClawConfig) -> bool {
    &&& c.gateway.bind is Loopback
    &&& c.gateway.rate_limit == (RateLimitConfig {
        max_attempts: 10,
        window_secs: 60,
        lockout_secs: 300,
    })
    &&& c.gateway.tls is None
    &&& c.gateway.max_ws_message_bytes == 4 * 1024 * 1024
    &&& c.gateway.max_connections == 64
    &&& c.gateway.health_check_interval_secs is None
    &&& c.agents.default_agent@ == "default"@
    &&& c.agents.agents@.len() == 1
    &&& c.agents.agents@[0].0@ == "default"@
    &&& c.agents.agents@[0].1.name@ == "Default Agent"@
    &&& c.agents.agents@[0].1.model is None
    &&& c.agents.agents@[0].1.system_prompt is None
    &&& c.agents.agents@[0].1.workspace is None
    &&& c.agents.agents@[0].1.sandbox is Disabled
    &&& c.agents.agents@[0].1.tools@.len() == 0
    &&& c.agents.agents@[0].1.skills@.len() == 0
    &&& c.session.scoping@ is Null
    &&& c.session.reset@ is Null
    &&& c.session.pruning@ is Null
    &&& !c.cron.enabled
    &&& c.cron.jobs@.len() == 0
    &&& !c.hooks.enabled
    &&& c.hooks.token is None
    &&& c.hooks.max_body_bytes is None
    &&& c.hooks.mappings@.len() == 0
    &&& c.logging.level@ == "info"@
    &&& c.logging.format == LogFormat::Pretty
    &&& c.logging.redact_secrets
    &&& c.media.max_file_size_bytes == 5 * 1024 * 1024
    &&& c.media.ttl_hours == 2
    &&& c.media.storage_path is None
    &&& c.security == (SecurityConfig {
        encrypt_sessions: c.security.encrypt_sessions,
        encrypt_media: false,
        require_auth_for_network: true,
        ssrf_protection: true,
        max_webhook_body_bytes: 1048576,
    })
    &&& !c.memory.enabled
    &&& c.memory.embedding_provider@ == "none"@
    &&& c.memory.embedding_model is None
    &&& c.memory.embedding_base_url is None
    &&& c.memory.embedding_api_key_ref is None
    &&& c.memory.chunk_size == 1500
    &&& c.memory.memory_dir is None
    &&& c.memory.cache_embeddings
    &&& !c.understanding.enabled
    &&& c.understanding.vision_provider@ == "none"@
    &&& c.understanding.vision_model is None
    &&& c.understanding.vision_base_url is None
    &&& c.understanding.vision_api_key_ref is None
    &&& c.understanding.transcription_provider@ == "none"@
    &&& c.understanding.transcription_model is None
    &&& c.understanding.transcription_base_url is None
    &&& c.understanding.transcription_api_key_ref is None
    &&& !c.understanding.auto_transcribe_voice
    &&& c.browser_profiles@.len() == 0
}

impl Default for FrankClawConfig {
    fn default() -> (r: FrankClawConfig)
        ensures
            r.wf(),
            starts_from_defaults(r),
            r.gateway.port == 18789,
            r.gateway.auth is Disabled,
            r.channels@.len() == 0,
            r.models.providers@.len() == 0,
            r.models.default_model is None,
            r.security.encrypt_sessions,
            config_problem(r, None, true) is None,
    {
        let r = FrankClawConfig {
            gateway: GatewayConfig::default(),
            agents: AgentsConfig::default(),
            channels: Vec::new(),
            models: ModelsConfig::default(),
            session: SessionConfig::default(),
            cron: CronConfig::default(),
            hooks: HooksConfig::default(),
            logging: LoggingConfig::default(),
            media: MediaConfig::default(),
            security: SecurityConfig::default(),
            memory: MemoryConfig::default(),
            understanding: MediaUnderstandingConfig::default(),
            browser_profiles: Vec::new(),
        };
        assert(r.agents.agents@[0].0@ == r.agents.default_agent@);
        r
    }
}

proof fn lemma_providers_sound(providers: Seq<ProviderConfig>, i: int, k: int)
    requires
        0 <= i <= k < providers.len(),
        providers_problem(providers, i) is None,
    ensures
        provider_problem(providers, k) is None,
    decreases k - i,
{
    if i < k {
        lemma_providers_sound(providers, i + 1, k);
    }
}

proof fn lemma_channels_sound(channels: Seq<(ChannelId, ChannelConfig)>, i: int, k: int)
    requires
        0 <= i <= k < channels.len(),
        channels_problem(channels, i) is None,
    ensures
        channel_entry_problem(channels, k) is None,
    decreases k - i,
{
    if i < k {
        lemma_channels_sound(channels, i + 1, k);
    }
}

proof fn lemma_mappings_sound(mappings: Seq<RawMapping>, i: int, k: int)
    requires
        0 <= i <= k < mappings.len(),
        mappings_problem(mappings, i) is None,
    ensures
        mapping_problem(mappings, k) is None,
    decreases k - i,
{
    if i < k {
        lemma_mappings_sound(mappings, i + 1, k);
    }
}

/// In a valid configuration the default agent is defined.
pub proof fn law_valid_default_agent(config: FrankClawConfig, bind_is_ip: bool)
    requires
        config_problem(config, None, bind_is_ip) is None,
    ensures
        has_agent(config.agents.agents@, config.agents.default_agent@),
{
}

/// In a valid configuration, of two providers each has an id of its own.
pub proof fn law_valid_providers(config: FrankClawConfig, bind_is_ip: bool, i: int, j: int)
    requires
        config_problem(config, None, bind_is_ip) is None,
        0 <= i < j < config.models.providers@.len(),
    ensures
        !is_blank(config.models.providers@[i].id@),
        !is_blank(config.models.providers@[j].id@),
        config.models.providers@[i].id@ != config.models.providers@[j].id@,
{
    let providers = config.models.providers@;
    lemma_providers_sound(providers, 0, i);
    lemma_providers_sound(providers, 0, j);
}

/// In a valid configuration every channel has a policy, and every enabled one
/// is supported and has its credentials.
pub proof fn law_valid_channels(config: FrankClawConfig, bind_is_ip: bool, i: int)
    requires
        config_problem(config, None, bind_is_ip) is None,
        0 <= i < config.channels@.len(),
    ensures
        policy_problem(config.channels@[i].1.extra@) is None,
        channel_problem(config.channels@[i].0@, config.channels@[i].1) is None,
{
    lemma_channels_sound(config.channels@, 0, i);
}

/// In a valid configuration with hooks, there is a token, every mapping was
/// decoded, and of two mappings each has an id of its own.
pub proof fn law_valid_mappings(config: FrankClawConfig, bind_is_ip: bool, i: int, j: int)
    requires
        config_problem(config, None, bind_is_ip) is None,
        config.hooks.enabled,
        0 <= i < j < config.hooks.mappings@.len(),
    ensures
        filled(config.hooks.token.deep_view()),
        config.hooks.mappings@[i] is Mapping,
        config.hooks.mappings@[j] is Mapping,
        config.hooks.mappings@[i]->Mapping_0.id@ != config.hooks.mappings@[j]->Mapping_0.id@,
{
    let mappings = config.hooks.mappings@;
    lemma_mappings_sound(mappings, 0, i);
    lemma_mappings_sound(mappings, 0, j);
}

} // verus!
