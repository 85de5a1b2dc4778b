//! Making a first configuration.

use crate::cli::notice::{note, note_with, Notice, NoticeView};
use crate::config::{
    channel_problem, channels_problem, config_problem, filled, policy_problem, provider_problem,
    providers_problem, starts_from_defaults, AuthMode, ChannelConfig, FrankClawConfig,
    ProviderConfig,
};
use crate::json::{items_view, lemma_items, number, JsonObject, JsonValue, JsonView};
use crate::text::{
    ascii_lower, is_blank, is_white, lemma_trimmed, parse_unsigned, str_eq, to_ascii_lower,
    unsigned_of,
};
use crate::types::ChannelId;
use vstd::prelude::*;
use vstd::string::*;

verus! {

/// True of the channels that a starter configuration can be made for.
pub open spec fn has_profile(channel: Seq<char>) -> bool {
    channel == "web"@ || channel == "telegram"@ || channel == "whatsapp"@ || channel == "slack"@
        || channel == "discord"@ || channel == "signal"@ || channel == "email"@
}

/// The accounts of a starter configuration. Credentials are named by
/// environment variable.
pub open spec fn profile_accounts(channel: Seq<char>) -> Seq<JsonView> {
    if channel == "telegram"@ {
        seq![
            JsonView::Object(map!["bot_token_env"@ => JsonView::Text("TELEGRAM_BOT_TOKEN"@)]),
        ]
    } else if channel == "whatsapp"@ {
        seq![
            JsonView::Object(
                map![
                    "access_token_env"@ => JsonView::Text("WHATSAPP_ACCESS_TOKEN"@),
                    "phone_number_id_env"@ => JsonView::Text("WHATSAPP_PHONE_NUMBER_ID"@),
                    "verify_token_env"@ => JsonView::Text("WHATSAPP_VERIFY_TOKEN"@),
                    "app_secret_env"@ => JsonView::Text("WHATSAPP_APP_SECRET"@),
                ],
            ),
        ]
    } else if channel == "slack"@ {
        seq![
            JsonView::Object(
                map![
                    "app_token_env"@ => JsonView::Text("SLACK_APP_TOKEN"@),
                    "bot_token_env"@ => JsonView::Text("SLACK_BOT_TOKEN"@),
                ],
            ),
        ]
    } else if channel == "discord"@ {
        seq![JsonView::Object(map!["bot_token_env"@ => JsonView::Text("DISCORD_BOT_TOKEN"@)])]
    } else if channel == "signal"@ {
        seq![
            JsonView::Object(
                map![
                    "base_url_env"@ => JsonView::Text("SIGNAL_BASE_URL"@),
                    "account_env"@ => JsonView::Text("SIGNAL_ACCOUNT"@),
                ],
            ),
        ]
    } else if channel == "email"@ {
        seq![
            JsonView::Object(
                map![
                    "imap_server"@ => JsonView::Text("imap.gmail.com"@),
                    "imap_port"@ => number(993),
                    "smtp_server"@ => JsonView::Text("smtp.gmail.com"@),
                    "smtp_port"@ => number(587),
                    "imap_user_env"@ => JsonView::Text("EMAIL_USER"@),
                    "imap_password_env"@ => JsonView::Text("EMAIL_PASSWORD"@),
                    "smtp_user_env"@ => JsonView::Text("EMAIL_USER"@),
                    "smtp_password_env"@ => JsonView::Text("EMAIL_PASSWORD"@),
                    "smtp_from_env"@ => JsonView::Text("EMAIL_USER"@),
                    "poll_interval_secs"@ => number(30),
                    "allowed_senders"@ => JsonView::Array(Seq::empty()),
                ],
            ),
        ]
    } else {
        Seq::empty()
    }
}

/// The other settings of a starter configuration.
pub open spec fn profile_extra(channel: Seq<char>) -> JsonView {
    if channel == "web"@ {
        JsonView::Object(map!["dm_policy"@ => JsonView::Text("open"@)])
    } else {
        JsonView::Object(Map::empty())
    }
}

/// True of the starter settings of a channel.
pub open spec fn is_profile(c: ChannelConfig, channel: Seq<char>) -> bool {
    &&& c.enabled
    &&& items_view(c.accounts@) == profile_accounts(channel)
    &&& c.extra@ == profile_extra(channel)
}

fn email_account() -> (r: JsonValue)
    ensures
        seq![r@] == profile_accounts("email"@),
{
    let mut o = JsonObject::new();
    o.put_text("imap_server", "imap.gmail.com");
    o.put_unsigned("imap_port", 993);
    o.put_text("smtp_server", "smtp.gmail.com");
    o.put_unsigned("smtp_port", 587);
    o.put_text("imap_user_env", "EMAIL_USER");
    o.put_text("imap_password_env", "EMAIL_PASSWORD");
    o.put_text("smtp_user_env", "EMAIL_USER");
    o.put_text("smtp_password_env", "EMAIL_PASSWORD");
    o.put_text("smtp_from_env", "EMAIL_USER");
    o.put_unsigned("poll_interval_secs", 30);
    let senders: Vec<JsonValue> = Vec::new();
    proof {
        lemma_items(senders@);
        assert(items_view(senders@) =~= Seq::empty());
        lemma_channel_names();
    }
    o.put("allowed_senders", JsonValue::Array(senders));
    o.finish()
}

/// The names of the channels differ.
proof fn lemma_channel_names()
    ensures
        "email"@ != "web"@,
        "email"@ != "telegram"@,
        "email"@ != "whatsapp"@,
        "email"@ != "slack"@,
        "email"@ != "discord"@,
        "email"@ != "signal"@,
        "web"@ != "telegram"@,
        "web"@ != "whatsapp"@,
        "web"@ != "slack"@,
        "web"@ != "discord"@,
        "web"@ != "signal"@,
        "telegram"@ != "whatsapp"@,
        "telegram"@ != "slack"@,
        "telegram"@ != "discord"@,
        "telegram"@ != "signal"@,
        "whatsapp"@ != "slack"@,
        "whatsapp"@ != "discord"@,
        "whatsapp"@ != "signal"@,
        "slack"@ != "discord"@,
        "slack"@ != "signal"@,
        "discord"@ != "signal"@,
{
    reveal_strlit("web");
    reveal_strlit("telegram");
    reveal_strlit("whatsapp");
    reveal_strlit("slack");
    reveal_strlit("discord");
    reveal_strlit("signal");
    reveal_strlit("email");
    assert("web"@.len() == 3);
    assert("telegram"@.len() == 8);
    assert("whatsapp"@.len() == 8);
    assert("slack"@.len() == 5);
    assert("discord"@.len() == 7);
    assert("signal"@.len() == 6);
    assert("email"@.len() == 5);
    assert("telegram"@[0] != "whatsapp"@[0]);
    assert("slack"@[0] != "email"@[0]);
}

fn known_profile(channel: &str) -> (r: ChannelConfig)
    requires
        has_profile(channel@),
    ensures
        is_profile(r, channel@),
{
    let mut accounts: Vec<JsonValue> = Vec::new();
    let mut extra = JsonObject::new();
    let mut o = JsonObject::new();
    proof {
        lemma_channel_names();
    }
    if str_eq(channel, "web") {
        extra.put_text("dm_policy", "open");
    } else if str_eq(channel, "telegram") {
        o.put_text("bot_token_env", "TELEGRAM_BOT_TOKEN");
        accounts.push(o.finish());
    } else if str_eq(channel, "whatsapp") {
        o.put_text("access_token_env", "WHATSAPP_ACCESS_TOKEN");
        o.put_text("phone_number_id_env", "WHATSAPP_PHONE_NUMBER_ID");
        o.put_text("verify_token_env", "WHATSAPP_VERIFY_TOKEN");
        o.put_text("app_secret_env", "WHATSAPP_APP_SECRET");
        accounts.push(o.finish());
    } else if str_eq(channel, "slack") {
        o.put_text("app_token_env", "SLACK_APP_TOKEN");
        o.put_text("bot_token_env", "SLACK_BOT_TOKEN");
        accounts.push(o.finish());
    } else if str_eq(channel, "discord") {
        o.put_text("bot_token_env", "DISCORD_BOT_TOKEN");
        accounts.push(o.finish());
    } else if str_eq(channel, "signal") {
        o.put_text("base_url_env", "SIGNAL_BASE_URL");
        o.put_text("account_env", "SIGNAL_ACCOUNT");
        accounts.push(o.finish());
    } else {
        accounts.push(email_account());
    }
    proof {
        lemma_items(accounts@);
        if accounts@.len() == 1 {
            assert(items_view(accounts@) =~= seq![accounts@[0]@]);
        }
        assert(items_view(accounts@) =~= profile_accounts(channel@));
    }
    ChannelConfig { enabled: true, accounts, extra: extra.finish() }
}

/// The starter settings of a channel; none for a channel without a profile.
pub fn channel_profile(channel: &str) -> (r: Option<ChannelConfig>)
    ensures
        r is Some == has_profile(channel@),
        r is Some ==> is_profile(r->0, channel@),
{
    if str_eq(channel, "web") || str_eq(channel, "telegram") || str_eq(channel, "whatsapp")
        || str_eq(channel, "slack") || str_eq(channel, "discord") || str_eq(channel, "signal")
        || str_eq(channel, "email") {
        Some(known_profile(channel))
    } else {
        None
    }
}

/// What a provider's settings say.
pub struct ProviderView {
    pub id: Seq<char>,
    pub api: Seq<char>,
    pub base_url: Option<Seq<char>>,
    pub api_key_ref: Option<Seq<char>>,
    pub models: Seq<Seq<char>>,
    pub cooldown_secs: u64,
}

impl View for ProviderConfig {
    type V = ProviderView;

    open spec fn view(&self) -> ProviderView {
        ProviderView {
            id: self.id@,
            api: self.api@,
            base_url: self.base_url.deep_view(),
            api_key_ref: self.api_key_ref.deep_view(),
            models: self.models.deep_view(),
            cooldown_secs: self.cooldown_secs,
        }
    }
}

/// True of the configuration with one provider, one channel, a token, and
/// defaults elsewhere.
pub open spec fn is_starter(
    c: FrankClawConfig,
    port: u16,
    token: Seq<char>,
    provider: ProviderView,
    model: Seq<char>,
    channel: Seq<char>,
    encrypt: bool,
) -> bool {
    &&& c.wf()
    &&& starts_from_defaults(c)
    &&& c.gateway.port == port
    &&& c.gateway.auth is Token
    &&& c.gateway.auth->token is Some
    &&& c.gateway.auth->token->0@ == token
    &&& c.models.providers@.len() == 1
    &&& c.models.providers@[0]@ == provider
    &&& c.models.default_model is Some
    &&& c.models.default_model->0@ == model
    &&& c.channels@.len() == 1
    &&& c.channels@[0].0@ == channel
    &&& is_profile(c.channels@[0].1, channel)
    &&& c.security.encrypt_sessions == encrypt
}

fn starter(
    port: u16,
    token: &str,
    provider: ProviderConfig,
    model: String,
    channel: &str,
    profile: ChannelConfig,
    encrypt: bool,
) -> (r: FrankClawConfig)
    requires
        is_profile(profile, channel@),
    ensures
        is_starter(r, port, token@, provider@, model@, channel@, encrypt),
{
    let mut config = FrankClawConfig::default();
    config.gateway.port = port;
    config.gateway.auth = AuthMode::Token { token: Some(token.to_owned()) };
    let mut providers: Vec<ProviderConfig> = Vec::new();
    providers.push(provider);
    config.models.providers = providers;
    config.models.default_model = Some(model);
    config.security.encrypt_sessions = encrypt;
    config.insert_channel(ChannelId(channel.to_owned()), profile);
    config
}

/// The provider of an onboarding configuration.
pub open spec fn onboard_provider() -> ProviderView {
    ProviderView {
        id: "openai"@,
        api: "openai"@,
        base_url: None,
        api_key_ref: Some("OPENAI_API_KEY"@),
        models: seq!["gpt-4o-mini"@],
        cooldown_secs: 30,
    }
}

/// The starter configuration for a channel, with token authentication.
pub fn build_onboard_config(channel: &str, gateway_token: &str) -> (r: Result<
    FrankClawConfig,
    Notice,
>)
    ensures
        r is Ok == has_profile(channel@),
        r is Ok ==> is_starter(
            r->Ok_0,
            18789,
            gateway_token@,
            onboard_provider(),
            "gpt-4o-mini"@,
            channel@,
            true,
        ),
        r is Err ==> r->Err_0@ == note_with("cmd.onboard.unsupported"@, "channel"@, channel@),
{
    let profile = match channel_profile(channel) {
        Some(profile) => profile,
        None => return Err(Notice::with("cmd.onboard.unsupported", "channel", channel)),
    };
    let mut models: Vec<String> = Vec::new();
    models.push("gpt-4o-mini".to_owned());
    assert(models.deep_view() =~= seq!["gpt-4o-mini"@]);
    let provider = ProviderConfig {
        id: "openai".to_owned(),
        api: "openai".to_owned(),
        base_url: None,
        api_key_ref: Some("OPENAI_API_KEY".to_owned()),
        models,
        cooldown_secs: 30,
    };
    Ok(
        starter(
            18789,
            gateway_token,
            provider,
            "gpt-4o-mini".to_owned(),
            channel,
            profile,
            true,
        ),
    )
}

/// A provider that the setup offers.
pub struct ProviderChoice {
    /// The id of the provider, which is also the name of its interface.
    pub id: &'static str,
    /// The variable that holds the key, where nothing else is said.
    pub default_env: &'static str,
    pub needs_key: bool,
}

/// The id of the provider that the setup offers at `i`.
pub open spec fn choice_id(i: int) -> Seq<char> {
    if i == 0 {
        "openai"@
    } else if i == 1 {
        "anthropic"@
    } else {
        "ollama"@
    }
}

/// The variable with the key of the provider at `i`, where nothing else is
/// said.
pub open spec fn choice_env(i: int) -> Seq<char> {
    if i == 0 {
        "OPENAI_API_KEY"@
    } else if i == 1 {
        "ANTHROPIC_API_KEY"@
    } else {
        ""@
    }
}

/// The model of the provider at `i`, where nothing else is said. That of
/// Anthropic is given.
pub open spec fn choice_model(i: int, anthropic: Seq<char>) -> Seq<char> {
    if i == 0 {
        "gpt-4o-mini"@
    } else if i == 1 {
        anthropic
    } else {
        "llama3.1"@
    }
}

/// The model of the provider at `i`, where nothing else is said. That of
/// Anthropic is given.
pub fn default_model(i: usize, anthropic: &str) -> (r: &str)
    requires
        i < 3,
    ensures
        r@ == choice_model(i as int, anthropic@),
{
    if i == 0 {
        "gpt-4o-mini"
    } else if i == 1 {
        anthropic
    } else {
        "llama3.1"
    }
}

/// The provider that the setup offers at `i`: OpenAI, Anthropic or Ollama, of
/// which the last needs no key.
pub fn provider_choice(i: usize) -> (r: ProviderChoice)
    requires
        i < 3,
    ensures
        r.id@ == choice_id(i as int),
        r.default_env@ == choice_env(i as int),
        r.needs_key == (i != 2),
{
    if i == 0 {
        ProviderChoice {
            id: "openai",
            default_env: "OPENAI_API_KEY",
            needs_key: true,
        }
    } else if i == 1 {
        ProviderChoice {
            id: "anthropic",
            default_env: "ANTHROPIC_API_KEY",
            needs_key: true,
        }
    } else {
        ProviderChoice {
            id: "ollama",
            default_env: "",
            needs_key: false,
        }
    }
}

/// The channel that the setup offers at `i`.
pub open spec fn choice_channel(i: int) -> Seq<char> {
    if i == 0 {
        "web"@
    } else if i == 1 {
        "telegram"@
    } else if i == 2 {
        "discord"@
    } else if i == 3 {
        "slack"@
    } else if i == 4 {
        "whatsapp"@
    } else {
        "signal"@
    }
}

/// The channel that the setup offers at `i`.
pub fn channel_choice(i: usize) -> (r: &'static str)
    requires
        i < 6,
    ensures
        r@ == choice_channel(i as int),
{
    if i == 0 {
        "web"
    } else if i == 1 {
        "telegram"
    } else if i == 2 {
        "discord"
    } else if i == 3 {
        "slack"
    } else if i == 4 {
        "whatsapp"
    } else {
        "signal"
    }
}

/// What the user answered. An empty text takes the default.
#[derive(Debug)]
pub struct SetupAnswers {
    pub provider: usize,
    pub api_key_env: String,
    pub ollama_url: String,
    /// The model of Anthropic, where `model` is empty.
    pub anthropic_model: String,
    pub model: String,
    pub channel: usize,
    pub port: String,
    pub encrypt: bool,
}

/// An answer, or the default where it is empty.
pub open spec fn or_default(answer: Seq<char>, default: Seq<char>) -> Seq<char> {
    if answer.len() == 0 {
        default
    } else {
        answer
    }
}

fn pick(answer: &str, default: &str) -> (r: String)
    ensures
        r@ == or_default(answer@, default@),
{
    if answer.unicode_len() == 0 {
        default.to_owned()
    } else {
        answer.to_owned()
    }
}

/// The port that an answer names.
pub open spec fn port_of(answer: Seq<char>) -> Option<u16> {
    if answer.len() == 0 {
        Some(18789)
    } else if unsigned_of(answer) is Some && unsigned_of(answer)->0 <= u16::MAX {
        Some(unsigned_of(answer)->0 as u16)
    } else {
        None
    }
}

fn parse_port(answer: &str) -> (r: Option<u16>)
    ensures
        r == port_of(answer@),
{
    if answer.unicode_len() == 0 {
        return Some(18789);
    }
    match parse_unsigned(answer) {
        Some(n) => if n <= u16::MAX as u64 {
            Some(n as u16)
        } else {
            None
        },
        None => None,
    }
}

/// The model that the answers name.
pub open spec fn setup_model(a: SetupAnswers) -> Seq<char> {
    or_default(a.model@, choice_model(a.provider as int, a.anthropic_model@))
}

/// The provider that the answers name.
pub open spec fn setup_provider(a: SetupAnswers) -> ProviderView {
    ProviderView {
        id: choice_id(a.provider as int),
        api: choice_id(a.provider as int),
        base_url: if a.provider == 2 {
            Some(or_default(a.ollama_url@, "http://127.0.0.1:11434"@))
        } else {
            None
        },
        api_key_ref: if a.provider == 2 {
            None
        } else {
            Some(or_default(a.api_key_env@, choice_env(a.provider as int)))
        },
        models: seq![setup_model(a)],
        cooldown_secs: 30,
    }
}

/// The configuration that the answers make. Only the port can be answered
/// wrongly.
pub fn build_setup_config(answers: &SetupAnswers, gateway_token: &str) -> (r: Result<
    FrankClawConfig,
    Notice,
>)
    requires
        answers.provider < 3,
        answers.channel < 6,
    ensures
        r is Ok == port_of(answers.port@) is Some,
        r is Ok ==> is_starter(
            r->Ok_0,
            port_of(answers.port@)->0,
            gateway_token@,
            setup_provider(*answers),
            setup_model(*answers),
            choice_channel(answers.channel as int),
            answers.encrypt,
        ),
        r is Err ==> r->Err_0@ == note("setup.invalid_port"@),
{
    let choice = provider_choice(answers.provider);
    let api_key_ref = if choice.needs_key {
        Some(pick(answers.api_key_env.as_str(), choice.default_env))
    } else {
        None
    };
    let base_url = if answers.provider == 2 {
        Some(pick(answers.ollama_url.as_str(), "http://127.0.0.1:11434"))
    } else {
        None
    };
    let model = pick(
        answers.model.as_str(),
        default_model(answers.provider, answers.anthropic_model.as_str()),
    );
    let port: u16 = match parse_port(answers.port.as_str()) {
        Some(port) => port,
        None => return Err(Notice::new("setup.invalid_port")),
    };
    let mut models: Vec<String> = Vec::new();
    models.push(model.clone());
    assert(models.deep_view() =~= seq![model@]);
    let provider = ProviderConfig {
        id: choice.id.to_owned(),
        api: choice.id.to_owned(),
        base_url,
        api_key_ref,
        models,
        cooldown_secs: 30,
    };
    let channel = channel_choice(answers.channel);
    let profile = known_profile(channel);
    Ok(starter(port, gateway_token, provider, model, channel, profile, answers.encrypt))
}

/// What the user is told once the configuration is written.
pub open spec fn setup_steps(a: SetupAnswers) -> Seq<NoticeView> {
    (if a.encrypt {
        seq![note("setup.encryption_on"@), note("setup.encryption_cmd"@)]
    } else {
        Seq::empty()
    }) + seq![note("setup.next_steps"@)] + (if a.provider != 2 {
        seq![
            note_with(
                "setup.export_key"@,
                "env"@,
                or_default(a.api_key_env@, choice_env(a.provider as int)),
            ),
        ]
    } else {
        Seq::empty()
    }) + (if a.channel != 0 {
        seq![note("setup.export_channel"@)]
    } else {
        Seq::empty()
    }) + seq![note("setup.verify_config"@), note("setup.start_gateway"@)]
}

/// What the user is told once the configuration is written.
pub fn next_steps(answers: &SetupAnswers) -> (r: Vec<Notice>)
    requires
        answers.provider < 3,
        answers.channel < 6,
    ensures
        r.deep_view() == setup_steps(*answers),
{
    let mut out: Vec<Notice> = Vec::new();
    if answers.encrypt {
        out.push(Notice::new("setup.encryption_on"));
        out.push(Notice::new("setup.encryption_cmd"));
    }
    out.push(Notice::new("setup.next_steps"));
    if answers.provider != 2 {
        let choice = provider_choice(answers.provider);
        let env = pick(answers.api_key_env.as_str(), choice.default_env);
        out.push(Notice::with("setup.export_key", "env", env.as_str()));
    }
    if answers.channel != 0 {
        out.push(Notice::new("setup.export_channel"));
    }
    out.push(Notice::new("setup.verify_config"));
    out.push(Notice::new("setup.start_gateway"));
    assert(out.deep_view() =~= setup_steps(*answers));
    out
}

/// A text that begins with something other than space is not blank.
proof fn lemma_solid_start(s: Seq<char>)
    requires
        s.len() > 0,
        !is_white(s[0]),
    ensures
        !is_blank(s),
{
    lemma_trimmed(s);
}

/// True of a provider's settings that the rules accept.
pub open spec fn provider_is_sound(p: ProviderView) -> bool {
    &&& !is_blank(p.id)
    &&& p.api == "ollama"@ || ((p.api == "openai"@ || p.api == "anthropic"@) && filled(
        p.api_key_ref,
    ))
}

/// A starter configuration with a sound provider breaks no rule, whatever its
/// channel. Only the mail channel is not one that the rules know.
proof fn lemma_starter_is_valid(
    c: FrankClawConfig,
    port: u16,
    token: Seq<char>,
    provider: ProviderView,
    model: Seq<char>,
    channel: Seq<char>,
    encrypt: bool,
    bind_is_ip: bool,
)
    requires
        is_starter(c, port, token, provider, model, channel, encrypt),
        provider_is_sound(provider),
        !is_blank(model),
        has_profile(channel),
        channel != "email"@,
    ensures
        config_problem(c, None, bind_is_ip) is None,
{
    lemma_channel_names();
    assert(c.agents.agents@[0].0@ == c.agents.default_agent@);
    assert(c.models.providers@[0]@ == provider);
    assert(providers_problem(c.models.providers@, 1) is None);
    let p = c.models.providers@[0];
    assert(p.id@ == provider.id && p.api@ == provider.api);
    assert(p.api_key_ref.deep_view() == provider.api_key_ref);
    assert(p.api@ == "ollama"@ ==> p.api@ != "openai"@ && p.api@ != "anthropic"@) by {
        reveal_strlit("ollama");
        reveal_strlit("openai");
        reveal_strlit("anthropic");
        assert("ollama"@[1] != "openai"@[1]);
        assert("anthropic"@.len() == 9);
        assert("ollama"@.len() == 6);
    }
    assert(provider_problem(c.models.providers@, 0) is None);
    lemma_profile_is_valid(c.channels@[0].1, channel);
    assert(channels_problem(c.channels@, 1) is None);
}

proof fn lemma_profile_is_valid(c: ChannelConfig, channel: Seq<char>)
    requires
        is_profile(c, channel),
        has_profile(channel),
        channel != "email"@,
    ensures
        channel_problem(channel, c) is None,
        policy_problem(c.extra@) is None,
{
    lemma_channel_names();
    lemma_items(c.accounts@);
    reveal_strlit("TELEGRAM_BOT_TOKEN");
    reveal_strlit("DISCORD_BOT_TOKEN");
    reveal_strlit("SLACK_APP_TOKEN");
    reveal_strlit("SLACK_BOT_TOKEN");
    reveal_strlit("WHATSAPP_ACCESS_TOKEN");
    reveal_strlit("WHATSAPP_PHONE_NUMBER_ID");
    reveal_strlit("WHATSAPP_VERIFY_TOKEN");
    reveal_strlit("SIGNAL_BASE_URL");
    reveal_strlit("bot_token_env");
    reveal_strlit("app_token_env");
    reveal_strlit("access_token_env");
    reveal_strlit("phone_number_id_env");
    reveal_strlit("verify_token_env");
    reveal_strlit("app_secret_env");
    reveal_strlit("base_url_env");
    reveal_strlit("account_env");
    lemma_solid_start("TELEGRAM_BOT_TOKEN"@);
    lemma_solid_start("DISCORD_BOT_TOKEN"@);
    lemma_solid_start("SLACK_APP_TOKEN"@);
    lemma_solid_start("SLACK_BOT_TOKEN"@);
    lemma_solid_start("WHATSAPP_ACCESS_TOKEN"@);
    lemma_solid_start("WHATSAPP_PHONE_NUMBER_ID"@);
    lemma_solid_start("WHATSAPP_VERIFY_TOKEN"@);
    lemma_solid_start("SIGNAL_BASE_URL"@);
    assert("bot_token_env"@.len() == 13);
    assert("app_token_env"@.len() == 13);
    assert("app_token_env"@[0] != "bot_token_env"@[0]);
    assert("access_token_env"@.len() == 16);
    assert("phone_number_id_env"@.len() == 19);
    assert("verify_token_env"@.len() == 16);
    assert("access_token_env"@[0] != "verify_token_env"@[0]);
    assert("app_secret_env"@.len() == 14);
    assert("base_url_env"@.len() == 12);
    assert("account_env"@.len() == 11);
    reveal_strlit("dm_policy");
    reveal_strlit("allow_from");
    reveal_strlit("groups");
    reveal_strlit("max_message_bytes");
    assert("dm_policy"@.len() == 9);
    assert("allow_from"@.len() == 10);
    assert("groups"@.len() == 6);
    assert("max_message_bytes"@.len() == 17);
    if channel != "web"@ {
        assert(c.accounts@[0]@ == items_view(c.accounts@)[0]);
        assert(c.accounts@[0]@ == profile_accounts(channel)[0]);
    }
}

/// The configuration that onboarding makes breaks no rule, whatever its channel.
/// Only the mail channel is not one that the rules know.
pub proof fn law_onboard_config_is_valid(
    c: FrankClawConfig,
    token: Seq<char>,
    channel: Seq<char>,
    bind_is_ip: bool,
)
    requires
        is_starter(c, 18789, token, onboard_provider(), "gpt-4o-mini"@, channel, true),
        has_profile(channel),
        channel != "email"@,
    ensures
        config_problem(c, None, bind_is_ip) is None,
{
    reveal_strlit("openai");
    reveal_strlit("OPENAI_API_KEY");
    reveal_strlit("gpt-4o-mini");
    lemma_solid_start("openai"@);
    lemma_solid_start("OPENAI_API_KEY"@);
    lemma_solid_start("gpt-4o-mini"@);
    lemma_starter_is_valid(
        c,
        18789,
        token,
        onboard_provider(),
        "gpt-4o-mini"@,
        channel,
        true,
        bind_is_ip,
    );
}

/// The provider of the setup is sound, and its model has a name, unless one of
/// the two is nothing but space.
proof fn lemma_setup_provider_is_sound(a: SetupAnswers)
    requires
        a.provider < 3,
        a.api_key_env@.len() == 0 || !is_blank(a.api_key_env@),
        a.model@.len() == 0 || !is_blank(a.model@),
        a.provider == 1 && a.model@.len() == 0 ==> !is_blank(a.anthropic_model@),
    ensures
        provider_is_sound(setup_provider(a)),
        !is_blank(setup_model(a)),
{
    reveal_strlit("openai");
    reveal_strlit("anthropic");
    reveal_strlit("ollama");
    reveal_strlit("OPENAI_API_KEY");
    reveal_strlit("ANTHROPIC_API_KEY");
    reveal_strlit("gpt-4o-mini");
    reveal_strlit("llama3.1");
    lemma_solid_start("openai"@);
    lemma_solid_start("anthropic"@);
    lemma_solid_start("ollama"@);
    lemma_solid_start("OPENAI_API_KEY"@);
    lemma_solid_start("ANTHROPIC_API_KEY"@);
    lemma_solid_start("gpt-4o-mini"@);
    lemma_solid_start("llama3.1"@);
}

/// The configuration that the setup makes breaks no rule, unless the name of the
/// key's variable or of the model is nothing but space.
pub proof fn law_setup_config_is_valid(
    c: FrankClawConfig,
    port: u16,
    token: Seq<char>,
    a: SetupAnswers,
    bind_is_ip: bool,
)
    requires
        a.provider < 3,
        a.channel < 6,
        a.api_key_env@.len() == 0 || !is_blank(a.api_key_env@),
        a.model@.len() == 0 || !is_blank(a.model@),
        a.provider == 1 && a.model@.len() == 0 ==> !is_blank(a.anthropic_model@),
        is_starter(
            c,
            port,
            token,
            setup_provider(a),
            setup_model(a),
            choice_channel(a.channel as int),
            a.encrypt,
        ),
    ensures
        config_problem(c, None, bind_is_ip) is None,
{
    lemma_channel_names();
    lemma_setup_provider_is_sound(a);
    lemma_starter_is_valid(
        c,
        port,
        token,
        setup_provider(a),
        setup_model(a),
        choice_channel(a.channel as int),
        a.encrypt,
        bind_is_ip,
    );
}

/// Whether the setup may write its configuration: where none is there or it is
/// forced, without asking; else where the answer to the question, which has no
/// for its default, is yes.
pub fn may_write(there: bool, force: bool, answer: &str) -> (r: bool)
    ensures
        r == (!there || force || ascii_lower(answer@) == "y"@ || ascii_lower(answer@) == "yes"@),
{
    proof {
        reveal_strlit("y");
        reveal_strlit("yes");
        assert(ascii_lower(answer@).len() == answer@.len());
    }
    !there || force || prompt_yes_no(answer, false)
}

/// The option, counted from one, that an answer names among `count`.
pub open spec fn named_option(answer: Seq<char>, count: int) -> Option<int> {
    if unsigned_of(answer) is Some && 1 <= unsigned_of(answer)->0 <= count {
        Some(unsigned_of(answer)->0 - 1)
    } else {
        None
    }
}

/// The option that an answer names, and whether it named one. An empty answer
/// takes the default, and so does one that names no option.
pub fn prompt_choice(answer: &str, count: usize, default: usize) -> (r: (usize, bool))
    ensures
        answer@.len() == 0 ==> r == (default, true),
        answer@.len() > 0 && named_option(answer@, count as int) is Some ==> r.0 == named_option(
            answer@,
            count as int,
        )->0 && r.1,
        answer@.len() > 0 && named_option(answer@, count as int) is None ==> r == (default, false),
{
    if answer.unicode_len() == 0 {
        return (default, true);
    }
    match parse_unsigned(answer) {
        Some(n) => if n >= 1 && n <= count as u64 {
            ((n - 1) as usize, true)
        } else {
            (default, false)
        },
        None => (default, false),
    }
}

/// The hint after a question of yes or no.
pub fn yes_no_hint(default_yes: bool) -> (r: &'static str)
    ensures
        r@ == if default_yes {
            "[Y/n]"@
        } else {
            "[y/N]"@
        },
{
    if default_yes {
        "[Y/n]"
    } else {
        "[y/N]"
    }
}

/// Whether an answer means yes: `y` or `yes`, in either case. An empty answer
/// takes the default.
pub fn prompt_yes_no(answer: &str, default_yes: bool) -> (r: bool)
    ensures
        r == if answer@.len() == 0 {
            default_yes
        } else {
            ascii_lower(answer@) == "y"@ || ascii_lower(answer@) == "yes"@
        },
{
    if answer.unicode_len() == 0 {
        return default_yes;
    }
    let lower = to_ascii_lower(answer);
    str_eq(lower.as_str(), "y") || str_eq(lower.as_str(), "yes")
}

} // verus!
