//! The security audit of a configuration.

use crate::channels::Environment;
use crate::cli::notice::{note, note_with, Notice, NoticeView};
use crate::cli::secrets::{load_master_key_from_env, master_key};
use crate::config::{
    filled, has_filled, policy_of, policy_problem, AgentDef, AuthMode, BindMode, ChannelConfig,
    FrankClawConfig, GatewayConfig, ProviderConfig, SecurityConfig,
};
use crate::json::{JsonValue, JsonView};
use crate::text::{
    blank, byte_len, bytes_len, cat2, cat3, decimal, decimal_of, is_blank, join, join_texts, str_eq,
};
use crate::types::{AgentId, ChannelId};
use vstd::prelude::*;
use vstd::string::*;

verus! {

/// How bad a finding is.
#[derive(Clone, Copy, Debug, PartialEq, Eq, PartialOrd, Ord, Structural)]
pub enum Severity {
    Info,
    Low,
    Medium,
    High,
    Critical,
}

/// The label of a severity, four characters wide.
pub open spec fn severity_label(severity: Severity) -> Seq<char> {
    match severity {
        Severity::Info => "INFO"@,
        Severity::Low => " LOW"@,
        Severity::Medium => " MED"@,
        Severity::High => "HIGH"@,
        Severity::Critical => "CRIT"@,
    }
}

impl Severity {
    /// The label of a severity, four characters wide.
    pub fn label(self) -> (r: &'static str)
        ensures
            r@ == severity_label(self),
    {
        match self {
            Severity::Info => "INFO",
            Severity::Low => " LOW",
            Severity::Medium => " MED",
            Severity::High => "HIGH",
            Severity::Critical => "CRIT",
        }
    }
}

/// What a finding is about, in alphabetical order.
#[derive(Clone, Copy, Debug, PartialEq, Eq, Structural)]
pub enum Category {
    Auth,
    Channels,
    Encryption,
    Filesystem,
    Media,
    Network,
    Secrets,
    Tools,
}

/// The categories in the order in which a report shows them.
pub open spec fn categories() -> Seq<Category> {
    seq![
        Category::Auth,
        Category::Channels,
        Category::Encryption,
        Category::Filesystem,
        Category::Media,
        Category::Network,
        Category::Secrets,
        Category::Tools,
    ]
}

impl Category {
    /// The heading over the findings of a category.
    pub fn heading(self) -> (r: &'static str)
        ensures
            r@ == match self {
                Category::Auth => "AUTH"@,
                Category::Channels => "CHANNELS"@,
                Category::Encryption => "ENCRYPTION"@,
                Category::Filesystem => "FILESYSTEM"@,
                Category::Media => "MEDIA"@,
                Category::Network => "NETWORK"@,
                Category::Secrets => "SECRETS"@,
                Category::Tools => "TOOLS"@,
            },
    {
        match self {
            Category::Auth => "AUTH",
            Category::Channels => "CHANNELS",
            Category::Encryption => "ENCRYPTION",
            Category::Filesystem => "FILESYSTEM",
            Category::Media => "MEDIA",
            Category::Network => "NETWORK",
            Category::Secrets => "SECRETS",
            Category::Tools => "TOOLS",
        }
    }

    /// The categories in the order in which a report shows them.
    pub fn all() -> (r: Vec<Category>)
        ensures
            r@ == categories(),
    {
        let mut all: Vec<Category> = Vec::new();
        all.push(Category::Auth);
        all.push(Category::Channels);
        all.push(Category::Encryption);
        all.push(Category::Filesystem);
        all.push(Category::Media);
        all.push(Category::Network);
        all.push(Category::Secrets);
        all.push(Category::Tools);
        assert(all@ =~= categories());
        all
    }
}

/// Something that the audit found, and what to do about it.
#[derive(Debug)]
pub struct Finding {
    pub severity: Severity,
    pub category: Category,
    pub message: Notice,
    pub remediation: Notice,
}

/// What a finding says.
pub struct FindingView {
    pub severity: Severity,
    pub category: Category,
    pub message: NoticeView,
    pub remediation: NoticeView,
}

impl View for Finding {
    type V = FindingView;

    open spec fn view(&self) -> FindingView {
        FindingView {
            severity: self.severity,
            category: self.category,
            message: self.message@,
            remediation: self.remediation@,
        }
    }
}

impl DeepView for Finding {
    type V = FindingView;

    open spec fn deep_view(&self) -> FindingView {
        self@
    }
}

/// A finding.
pub open spec fn found(
    severity: Severity,
    category: Category,
    message: NoticeView,
    remediation: NoticeView,
) -> FindingView {
    FindingView { severity, category, message, remediation }
}

fn report(
    findings: &mut Vec<Finding>,
    severity: Severity,
    category: Category,
    message: Notice,
    remediation: Notice,
)
    ensures
        final(findings).deep_view() == old(findings).deep_view() + seq![
            found(severity, category, message@, remediation@),
        ],
{
    let ghost before = findings.deep_view();
    findings.push(Finding { severity, category, message, remediation });
    assert(findings.deep_view() =~= before + seq![
        found(severity, category, message@, remediation@),
    ]);
}

/// What all items give, in a row.
pub open spec fn flat<A, B>(items: Seq<A>, each: spec_fn(A) -> Seq<B>) -> Seq<B>
    decreases items.len(),
{
    if items.len() == 0 {
        Seq::empty()
    } else {
        flat(items.drop_last(), each) + each(items.last())
    }
}

/// What one more item adds.
pub proof fn lemma_flat_next<A, B>(items: Seq<A>, each: spec_fn(A) -> Seq<B>, i: int)
    requires
        0 <= i < items.len(),
    ensures
        flat(items.take(i + 1), each) == flat(items.take(i), each) + each(items[i]),
{
    assert(items.take(i + 1).drop_last() =~= items.take(i));
}

/// True when a variable is set to something that is not blank.
pub open spec fn env_set(vars: Map<Seq<char>, String>, name: Seq<char>) -> bool {
    vars.dom().contains(name) && !is_blank(vars[name]@)
}

/// True when a variable is set to something that is not blank.
pub fn has_env(vars: &Environment, name: &str) -> (r: bool)
    requires
        vars.wf(),
    ensures
        r == env_set(vars@, name@),
{
    match vars.get(name) {
        Some(value) => !blank(value.as_str()),
        None => false,
    }
}

/// The findings on how clients prove who they are.
pub open spec fn auth_findings(gateway: GatewayConfig) -> Seq<FindingView> {
    match gateway.auth {
        AuthMode::Disabled => seq![
            found(
                Severity::High,
                Category::Auth,
                note("audit.auth.disabled"@),
                note("audit.auth.disabled_fix"@),
            ),
        ],
        AuthMode::Token { token: Some(token) } => if byte_len(token@) < 16 {
            seq![
                found(
                    Severity::Medium,
                    Category::Auth,
                    note("audit.auth.token_short"@),
                    note("audit.auth.token_short_fix"@),
                ),
            ]
        } else {
            Seq::empty()
        },
        AuthMode::Password { hash } => if is_blank(hash@) {
            seq![
                found(
                    Severity::High,
                    Category::Auth,
                    note("audit.auth.password_empty"@),
                    note("audit.auth.password_empty_fix"@),
                ),
            ]
        } else {
            Seq::empty()
        },
        _ => Seq::empty(),
    }
}

/// Audits how clients prove who they are.
pub fn audit_auth(config: &FrankClawConfig, findings: &mut Vec<Finding>)
    ensures
        final(findings).deep_view() == old(findings).deep_view() + auth_findings(config.gateway),
{
    let ghost before = findings.deep_view();
    match &config.gateway.auth {
        AuthMode::Disabled => {
            report(
                findings,
                Severity::High,
                Category::Auth,
                Notice::new("audit.auth.disabled"),
                Notice::new("audit.auth.disabled_fix"),
            );
        },
        AuthMode::Token { token } => {
            if let Some(token) = token {
                if bytes_len(token.as_str()) < 16 {
                    report(
                        findings,
                        Severity::Medium,
                        Category::Auth,
                        Notice::new("audit.auth.token_short"),
                        Notice::new("audit.auth.token_short_fix"),
                    );
                }
            }
        },
        AuthMode::Password { hash } => {
            if blank(hash.as_str()) {
                report(
                    findings,
                    Severity::High,
                    Category::Auth,
                    Notice::new("audit.auth.password_empty"),
                    Notice::new("audit.auth.password_empty_fix"),
                );
            }
        },
        _ => {},
    }
    assert(findings.deep_view() =~= before + auth_findings(config.gateway));
}

/// The settings that may hold a secret, each with the setting that names an
/// environment variable instead.
pub open spec fn secret_settings() -> Seq<(Seq<char>, Seq<char>)> {
    seq![
        ("bot_token"@, "bot_token_env"@),
        ("token"@, "token_env"@),
        ("app_token"@, "app_token_env"@),
        ("access_token"@, "access_token_env"@),
        ("verify_token"@, "verify_token_env"@),
        ("app_secret"@, "app_secret_env"@),
    ]
}

/// The settings that may hold a secret, each with the setting that names an
/// environment variable instead.
pub fn secret_keys() -> (r: Vec<(&'static str, &'static str)>)
    ensures
        r@.len() == secret_settings().len(),
        forall|i: int|
            0 <= i < r@.len() ==> ((#[trigger] r@[i]).0@, r@[i].1@) == secret_settings()[i],
{
    let mut keys: Vec<(&'static str, &'static str)> = Vec::new();
    keys.push(("bot_token", "bot_token_env"));
    keys.push(("token", "token_env"));
    keys.push(("app_token", "app_token_env"));
    keys.push(("access_token", "access_token_env"));
    keys.push(("verify_token", "verify_token_env"));
    keys.push(("app_secret", "app_secret_env"));
    keys
}

/// The finding on a provider without a reference to its key.
pub open spec fn provider_key_ref() -> spec_fn(ProviderConfig) -> Seq<FindingView> {
    |p: ProviderConfig|
        if p.api_key_ref is None && p.api@ != "ollama"@ {
            seq![
                found(
                    Severity::Medium,
                    Category::Secrets,
                    note_with("audit.secrets.no_key_ref"@, "id"@, p.id@),
                    note_with("audit.secrets.no_key_ref_fix"@, "id"@, p.id@),
                ),
            ]
        } else {
            Seq::empty()
        }
}

/// The findings on one setting of an account that may hold a secret.
pub open spec fn inline_setting(channel: Seq<char>, account: JsonView) -> spec_fn(
    (Seq<char>, Seq<char>),
) -> Seq<FindingView> {
    |s: (Seq<char>, Seq<char>)|
        if filled(account.text_member(s.0)) {
            seq![
                found(
                    Severity::High,
                    Category::Secrets,
                    note_with("audit.secrets.inline"@, "channel"@, channel).and("key"@, s.0),
                    note_with("audit.secrets.inline_fix"@, "key"@, s.0).and("env_key"@, s.1),
                ),
            ]
        } else {
            Seq::empty()
        }
}

/// The findings on the secrets in an account.
pub open spec fn inline_account(channel: Seq<char>) -> spec_fn(JsonValue) -> Seq<FindingView> {
    |account: JsonValue| flat(secret_settings(), inline_setting(channel, account@))
}

/// The findings on the secrets in a channel.
pub open spec fn inline_channel() -> spec_fn((ChannelId, ChannelConfig)) -> Seq<FindingView> {
    |c: (ChannelId, ChannelConfig)| flat(c.1.accounts@, inline_account(c.0@))
}

/// The findings on secrets in the configuration itself.
pub open spec fn inline_findings(config: FrankClawConfig) -> Seq<FindingView> {
    flat(config.models.providers@, provider_key_ref()) + flat(config.channels@, inline_channel())
        + match config.gateway.auth {
        AuthMode::Token { token: Some(_) } => seq![
            found(
                Severity::Low,
                Category::Secrets,
                note("audit.secrets.token_inline"@),
                note("audit.secrets.token_inline_fix"@),
            ),
        ],
        _ => Seq::empty(),
    }
}

fn audit_account_secrets(channel: &str, account: &JsonValue, findings: &mut Vec<Finding>)
    ensures
        final(findings).deep_view() == old(findings).deep_view() + inline_account(channel@)(
            *account,
        ),
{
    let ghost before = findings.deep_view();
    let keys = secret_keys();
    let ghost settings = secret_settings();
    let ghost each = inline_setting(channel@, account@);
    let mut i: usize = 0;
    assert(findings.deep_view() =~= before + flat(settings.take(0), each));
    while i < keys.len()
        invariant
            i <= keys@.len(),
            settings == secret_settings(),
            keys@.len() == settings.len(),
            forall|k: int|
                0 <= k < keys@.len() ==> ((#[trigger] keys@[k]).0@, keys@[k].1@) == settings[k],
            each == inline_setting(channel@, account@),
            findings.deep_view() == before + flat(settings.take(i as int), each),
        decreases keys@.len() - i,
    {
        proof {
            lemma_flat_next(settings, each, i as int);
            assert((keys@[i as int].0@, keys@[i as int].1@) == settings[i as int]);
        }
        let (key, env_key) = keys[i];
        if has_filled(account, key) {
            report(
                findings,
                Severity::High,
                Category::Secrets,
                Notice::with("audit.secrets.inline", "channel", channel).and("key", key),
                Notice::with("audit.secrets.inline_fix", "key", key).and("env_key", env_key),
            );
        }
        assert(findings.deep_view() =~= before + flat(settings.take(i + 1), each));
        i = i + 1;
    }
    assert(settings.take(i as int) =~= settings);
}

fn audit_channel_secrets(channels: &Vec<(ChannelId, ChannelConfig)>, findings: &mut Vec<Finding>)
    ensures
        final(findings).deep_view() == old(findings).deep_view() + flat(
            channels@,
            inline_channel(),
        ),
{
    let ghost before = findings.deep_view();
    let ghost each = inline_channel();
    let mut i: usize = 0;
    assert(findings.deep_view() =~= before + flat(channels@.take(0), each));
    while i < channels.len()
        invariant
            i <= channels@.len(),
            each == inline_channel(),
            findings.deep_view() == before + flat(channels@.take(i as int), each),
        decreases channels@.len() - i,
    {
        let accounts = &channels[i].1.accounts;
        let ghost outer = findings.deep_view();
        let ghost inner = inline_account(channels@[i as int].0@);
        let mut j: usize = 0;
        assert(findings.deep_view() =~= outer + flat(accounts@.take(0), inner));
        while j < accounts.len()
            invariant
                i < channels@.len(),
                *accounts == channels@[i as int].1.accounts,
                j <= accounts@.len(),
                inner == inline_account(channels@[i as int].0@),
                findings.deep_view() == outer + flat(accounts@.take(j as int), inner),
            decreases accounts@.len() - j,
        {
            proof {
                lemma_flat_next(accounts@, inner, j as int);
            }
            audit_account_secrets(channels[i].0.as_str(), &accounts[j], findings);
            assert(findings.deep_view() =~= outer + flat(accounts@.take(j + 1), inner));
            j = j + 1;
        }
        proof {
            assert(accounts@.take(j as int) =~= accounts@);
            lemma_flat_next(channels@, each, i as int);
            assert(findings.deep_view() =~= before + flat(channels@.take(i + 1), each));
        }
        i = i + 1;
    }
    assert(channels@.take(i as int) =~= channels@);
}

/// Audits the configuration for secrets that stand in it.
pub fn audit_inline_secrets(config: &FrankClawConfig, findings: &mut Vec<Finding>)
    ensures
        final(findings).deep_view() == old(findings).deep_view() + inline_findings(*config),
{
    let ghost before = findings.deep_view();
    let providers = &config.models.providers;
    let ghost each = provider_key_ref();
    let mut i: usize = 0;
    assert(findings.deep_view() =~= before + flat(providers@.take(0), each));
    while i < providers.len()
        invariant
            i <= providers@.len(),
            each == provider_key_ref(),
            findings.deep_view() == before + flat(providers@.take(i as int), each),
        decreases providers@.len() - i,
    {
        proof {
            lemma_flat_next(providers@, each, i as int);
        }
        let provider = &providers[i];
        if provider.api_key_ref.is_none() && !str_eq(provider.api.as_str(), "ollama") {
            let id = provider.id.as_str();
            report(
                findings,
                Severity::Medium,
                Category::Secrets,
                Notice::with("audit.secrets.no_key_ref", "id", id),
                Notice::with("audit.secrets.no_key_ref_fix", "id", id),
            );
        }
        assert(findings.deep_view() =~= before + flat(providers@.take(i + 1), each));
        i = i + 1;
    }
    assert(providers@.take(i as int) =~= providers@);
    audit_channel_secrets(&config.channels, findings);
    if let AuthMode::Token { token: Some(_) } = &config.gateway.auth {
        report(
            findings,
            Severity::Low,
            Category::Secrets,
            Notice::new("audit.secrets.token_inline"),
            Notice::new("audit.secrets.token_inline_fix"),
        );
    }
    assert(findings.deep_view() =~= before + inline_findings(*config));
}

/// The settings that name an environment variable.
pub open spec fn env_settings() -> Seq<Seq<char>> {
    seq![
        "bot_token_env"@,
        "token_env"@,
        "app_token_env"@,
        "access_token_env"@,
        "verify_token_env"@,
        "app_secret_env"@,
        "base_url_env"@,
        "account_env"@,
        "phone_number_id_env"@,
    ]
}

fn env_keys() -> (r: Vec<&'static str>)
    ensures
        r@.len() == env_settings().len(),
        forall|i: int| 0 <= i < r@.len() ==> (#[trigger] r@[i])@ == env_settings()[i],
{
    let mut keys: Vec<&'static str> = Vec::new();
    keys.push("bot_token_env");
    keys.push("token_env");
    keys.push("app_token_env");
    keys.push("access_token_env");
    keys.push("verify_token_env");
    keys.push("app_secret_env");
    keys.push("base_url_env");
    keys.push("account_env");
    keys.push("phone_number_id_env");
    keys
}

/// The finding on a provider whose key is not in the environment.
pub open spec fn provider_env(vars: Map<Seq<char>, String>) -> spec_fn(ProviderConfig) -> Seq<
    FindingView,
> {
    |p: ProviderConfig|
        match p.api_key_ref {
            Some(env) => if env_set(vars, env@) {
                Seq::empty()
            } else {
                seq![
                    found(
                        Severity::Medium,
                        Category::Secrets,
                        note_with("audit.secrets.missing_env"@, "id"@, p.id@).and("env"@, env@),
                        note_with("audit.secrets.missing_env_fix"@, "env"@, env@),
                    ),
                ]
            },
            None => Seq::empty(),
        }
}

/// The finding on one setting of an account that names a variable.
pub open spec fn env_setting(
    vars: Map<Seq<char>, String>,
    channel: Seq<char>,
    account: JsonView,
) -> spec_fn(Seq<char>) -> Seq<FindingView> {
    |key: Seq<char>|
        match account.text_member(key) {
            Some(env) => if env_set(vars, env) {
                Seq::empty()
            } else {
                seq![
                    found(
                        Severity::Medium,
                        Category::Secrets,
                        note_with("audit.secrets.channel_missing_env"@, "channel"@, channel).and(
                            "env"@,
                            env,
                        ).and("key"@, key),
                        note_with("audit.secrets.channel_missing_env_fix"@, "env"@, env),
                    ),
                ]
            },
            None => Seq::empty(),
        }
}

/// The findings on the variables that an account names.
pub open spec fn env_account(vars: Map<Seq<char>, String>, channel: Seq<char>) -> spec_fn(
    JsonValue,
) -> Seq<FindingView> {
    |account: JsonValue| flat(env_settings(), env_setting(vars, channel, account@))
}

/// The findings on the variables that a channel names.
pub open spec fn env_channel(vars: Map<Seq<char>, String>) -> spec_fn(
    (ChannelId, ChannelConfig),
) -> Seq<FindingView> {
    |c: (ChannelId, ChannelConfig)| flat(c.1.accounts@, env_account(vars, c.0@))
}

/// The findings on variables that are not set.
pub open spec fn env_findings(config: FrankClawConfig, vars: Map<Seq<char>, String>) -> Seq<
    FindingView,
> {
    flat(config.models.providers@, provider_env(vars)) + flat(config.channels@, env_channel(vars))
}

fn audit_account_env(
    vars: &Environment,
    channel: &str,
    account: &JsonValue,
    findings: &mut Vec<Finding>,
)
    requires
        vars.wf(),
    ensures
        final(findings).deep_view() == old(findings).deep_view() + env_account(vars@, channel@)(
            *account,
        ),
{
    let ghost before = findings.deep_view();
    let keys = env_keys();
    let ghost settings = env_settings();
    let ghost each = env_setting(vars@, channel@, account@);
    let mut i: usize = 0;
    assert(findings.deep_view() =~= before + flat(settings.take(0), each));
    while i < keys.len()
        invariant
            vars.wf(),
            i <= keys@.len(),
            settings == env_settings(),
            keys@.len() == settings.len(),
            forall|k: int| 0 <= k < keys@.len() ==> (#[trigger] keys@[k])@ == settings[k],
            each == env_setting(vars@, channel@, account@),
            findings.deep_view() == before + flat(settings.take(i as int), each),
        decreases keys@.len() - i,
    {
        proof {
            lemma_flat_next(settings, each, i as int);
        }
        let key = keys[i];
        assert(key@ == settings[i as int]);
        if let Some(env) = account.get_str(key) {
            if !has_env(vars, env) {
                report(
                    findings,
                    Severity::Medium,
                    Category::Secrets,
                    Notice::with("audit.secrets.channel_missing_env", "channel", channel).and(
                        "env",
                        env,
                    ).and("key", key),
                    Notice::with("audit.secrets.channel_missing_env_fix", "env", env),
                );
            }
        }
        assert(findings.deep_view() =~= before + flat(settings.take(i + 1), each));
        i = i + 1;
    }
    assert(settings.take(i as int) =~= settings);
}

fn audit_channel_env(
    vars: &Environment,
    channels: &Vec<(ChannelId, ChannelConfig)>,
    findings: &mut Vec<Finding>,
)
    requires
        vars.wf(),
    ensures
        final(findings).deep_view() == old(findings).deep_view() + flat(
            channels@,
            env_channel(vars@),
        ),
{
    let ghost before = findings.deep_view();
    let ghost each = env_channel(vars@);
    let mut i: usize = 0;
    assert(findings.deep_view() =~= before + flat(channels@.take(0), each));
    while i < channels.len()
        invariant
            vars.wf(),
            i <= channels@.len(),
            each == env_channel(vars@),
            findings.deep_view() == before + flat(channels@.take(i as int), each),
        decreases channels@.len() - i,
    {
        let accounts = &channels[i].1.accounts;
        let ghost outer = findings.deep_view();
        let ghost inner = env_account(vars@, channels@[i as int].0@);
        let mut j: usize = 0;
        assert(findings.deep_view() =~= outer + flat(accounts@.take(0), inner));
        while j < accounts.len()
            invariant
                vars.wf(),
                i < channels@.len(),
                *accounts == channels@[i as int].1.accounts,
                j <= accounts@.len(),
                inner == env_account(vars@, channels@[i as int].0@),
                findings.deep_view() == outer + flat(accounts@.take(j as int), inner),
            decreases accounts@.len() - j,
        {
            proof {
                lemma_flat_next(accounts@, inner, j as int);
            }
            audit_account_env(vars, channels[i].0.as_str(), &accounts[j], findings);
            assert(findings.deep_view() =~= outer + flat(accounts@.take(j + 1), inner));
            j = j + 1;
        }
        proof {
            assert(accounts@.take(j as int) =~= accounts@);
            lemma_flat_next(channels@, each, i as int);
            assert(findings.deep_view() =~= before + flat(channels@.take(i + 1), each));
        }
        i = i + 1;
    }
    assert(channels@.take(i as int) =~= channels@);
}

/// Audits the configuration for variables that are not set.
pub fn audit_missing_env_vars(
    config: &FrankClawConfig,
    vars: &Environment,
    findings: &mut Vec<Finding>,
)
    requires
        vars.wf(),
    ensures
        final(findings).deep_view() == old(findings).deep_view() + env_findings(*config, vars@),
{
    let ghost before = findings.deep_view();
    let providers = &config.models.providers;
    let ghost each = provider_env(vars@);
    let mut i: usize = 0;
    assert(findings.deep_view() =~= before + flat(providers@.take(0), each));
    while i < providers.len()
        invariant
            vars.wf(),
            i <= providers@.len(),
            each == provider_env(vars@),
            findings.deep_view() == before + flat(providers@.take(i as int), each),
        decreases providers@.len() - i,
    {
        proof {
            lemma_flat_next(providers@, each, i as int);
        }
        let provider = &providers[i];
        if let Some(env) = &provider.api_key_ref {
            if !has_env(vars, env.as_str()) {
                report(
                    findings,
                    Severity::Medium,
                    Category::Secrets,
                    Notice::with("audit.secrets.missing_env", "id", provider.id.as_str()).and(
                        "env",
                        env.as_str(),
                    ),
                    Notice::with("audit.secrets.missing_env_fix", "env", env.as_str()),
                );
            }
        }
        assert(findings.deep_view() =~= before + flat(providers@.take(i + 1), each));
        i = i + 1;
    }
    assert(providers@.take(i as int) =~= providers@);
    audit_channel_env(vars, &config.channels, findings);
    assert(findings.deep_view() =~= before + env_findings(*config, vars@));
}

/// The findings on encryption at rest.
pub open spec fn encryption_findings(
    security: SecurityConfig,
    vars: Map<Seq<char>, String>,
) -> Seq<FindingView> {
    let sessions = if !security.encrypt_sessions {
        seq![
            found(
                Severity::Medium,
                Category::Encryption,
                note("audit.encrypt.sessions_off"@),
                note("audit.encrypt.sessions_off_fix"@),
            ),
        ]
    } else if master_key(vars) is Err || master_key(vars)->Ok_0 is None {
        seq![
            found(
                Severity::High,
                Category::Encryption,
                note("audit.encrypt.no_master_key"@),
                note("audit.encrypt.no_master_key_fix"@),
            ),
        ]
    } else {
        Seq::empty()
    };
    sessions + if security.encrypt_media {
        Seq::empty()
    } else {
        seq![
            found(
                Severity::Low,
                Category::Encryption,
                note("audit.encrypt.media_off"@),
                note("audit.encrypt.media_off_fix"@),
            ),
        ]
    }
}

/// Audits encryption at rest.
pub fn audit_encryption(config: &FrankClawConfig, vars: &Environment, findings: &mut Vec<Finding>)
    requires
        vars.wf(),
    ensures
        final(findings).deep_view() == old(findings).deep_view() + encryption_findings(
            config.security,
            vars@,
        ),
{
    let ghost before = findings.deep_view();
    let has_key = match load_master_key_from_env(vars) {
        Ok(Some(_)) => true,
        _ => false,
    };
    if !config.security.encrypt_sessions {
        report(
            findings,
            Severity::Medium,
            Category::Encryption,
            Notice::new("audit.encrypt.sessions_off"),
            Notice::new("audit.encrypt.sessions_off_fix"),
        );
    } else if !has_key {
        report(
            findings,
            Severity::High,
            Category::Encryption,
            Notice::new("audit.encrypt.no_master_key"),
            Notice::new("audit.encrypt.no_master_key_fix"),
        );
    }
    if !config.security.encrypt_media {
        report(
            findings,
            Severity::Low,
            Category::Encryption,
            Notice::new("audit.encrypt.media_off"),
            Notice::new("audit.encrypt.media_off_fix"),
        );
    }
    assert(findings.deep_view() =~= before + encryption_findings(config.security, vars@));
}

/// The findings on what the network can reach.
pub open spec fn network_findings(gateway: GatewayConfig) -> Seq<FindingView> {
    if gateway.bind is Loopback {
        Seq::empty()
    } else {
        let auth = if gateway.auth is Disabled {
            seq![
                found(
                    Severity::Critical,
                    Category::Network,
                    note("audit.network.exposed_no_auth"@),
                    note("audit.network.exposed_no_auth_fix"@),
                ),
            ]
        } else {
            Seq::empty()
        };
        auth + if gateway.tls is None {
            seq![
                found(
                    Severity::High,
                    Category::Network,
                    note("audit.network.no_tls"@),
                    note("audit.network.no_tls_fix"@),
                ),
            ]
        } else {
            Seq::empty()
        }
    }
}

/// Audits what the network can reach.
pub fn audit_network(config: &FrankClawConfig, findings: &mut Vec<Finding>)
    ensures
        final(findings).deep_view() == old(findings).deep_view() + network_findings(
            config.gateway,
        ),
{
    let ghost before = findings.deep_view();
    let exposed = match config.gateway.bind {
        BindMode::Loopback => false,
        _ => true,
    };
    if exposed {
        if let AuthMode::Disabled = config.gateway.auth {
            report(
                findings,
                Severity::Critical,
                Category::Network,
                Notice::new("audit.network.exposed_no_auth"),
                Notice::new("audit.network.exposed_no_auth_fix"),
            );
        }
        if config.gateway.tls.is_none() {
            report(
                findings,
                Severity::High,
                Category::Network,
                Notice::new("audit.network.no_tls"),
                Notice::new("audit.network.no_tls_fix"),
            );
        }
    }
    assert(findings.deep_view() =~= before + network_findings(config.gateway));
}

/// True of the channels on which groups can write.
pub open spec fn needs_guard(channel: Seq<char>) -> bool {
    channel == "telegram"@ || channel == "discord"@ || channel == "slack"@ || channel == "signal"@
        || channel == "whatsapp"@ || channel == "email"@
}

/// True of the channels on which groups can write.
pub fn group_surface_needs_guard(channel_id: &str) -> (r: bool)
    ensures
        r == needs_guard(channel_id@),
{
    str_eq(channel_id, "telegram") || str_eq(channel_id, "discord") || str_eq(channel_id, "slack")
        || str_eq(channel_id, "signal") || str_eq(channel_id, "whatsapp") || str_eq(
        channel_id,
        "email",
    )
}

/// True when an account says how to verify webhook signatures.
pub open spec fn has_app_secret(account: JsonView) -> bool {
    filled(account.text_member("app_secret"@)) || filled(account.text_member("app_secret_env"@))
}

/// True when some account says how to verify webhook signatures.
pub open spec fn some_app_secret(accounts: Seq<JsonValue>) -> bool {
    exists|i: int| 0 <= i < accounts.len() && has_app_secret((#[trigger] accounts[i])@)
}

fn find_app_secret(accounts: &Vec<JsonValue>) -> (r: bool)
    ensures
        r == some_app_secret(accounts@),
{
    let mut i: usize = 0;
    while i < accounts.len()
        invariant
            i <= accounts@.len(),
            forall|k: int| 0 <= k < i ==> !has_app_secret((#[trigger] accounts@[k])@),
        decreases accounts@.len() - i,
    {
        if has_filled(&accounts[i], "app_secret") || has_filled(&accounts[i], "app_secret_env") {
            assert(has_app_secret(accounts@[i as int]@));
            return true;
        }
        i = i + 1;
    }
    false
}

/// True when groups can write to a channel unasked and unlisted.
pub open spec fn groups_open(channel: Seq<char>, extra: JsonView) -> bool {
    needs_guard(channel) && !policy_of(extra).require_mention_for_groups && policy_of(
        extra,
    ).allowed_groups is None
}

/// The findings on the policy of a channel.
pub open spec fn channel_policy() -> spec_fn((ChannelId, ChannelConfig)) -> Seq<FindingView> {
    |c: (ChannelId, ChannelConfig)|
        if !c.1.enabled {
            Seq::empty()
        } else if policy_problem(c.1.extra@) is Some {
            seq![
                found(
                    Severity::High,
                    Category::Channels,
                    note_with("audit.channels.invalid_policy"@, "channel"@, c.0@),
                    note("audit.channels.invalid_policy_fix"@),
                ),
            ]
        } else {
            let groups = if groups_open(c.0@, c.1.extra@) {
                seq![
                    found(
                        Severity::Medium,
                        Category::Channels,
                        note_with("audit.channels.open_groups"@, "channel"@, c.0@),
                        note_with("audit.channels.open_groups_fix"@, "channel"@, c.0@),
                    ),
                ]
            } else {
                Seq::empty()
            };
            groups + if c.0@ == "whatsapp"@ && !some_app_secret(c.1.accounts@) {
                seq![
                    found(
                        Severity::High,
                        Category::Channels,
                        note("audit.channels.whatsapp_no_secret"@),
                        note("audit.channels.whatsapp_no_secret_fix"@),
                    ),
                ]
            } else {
                Seq::empty()
            }
        }
}

/// Audits what the channels let through. A channel that is off is left out.
pub fn audit_channel_policies(config: &FrankClawConfig, findings: &mut Vec<Finding>)
    ensures
        final(findings).deep_view() == old(findings).deep_view() + flat(
            config.channels@,
            channel_policy(),
        ),
{
    let ghost before = findings.deep_view();
    let channels = &config.channels;
    let ghost each = channel_policy();
    let mut i: usize = 0;
    assert(findings.deep_view() =~= before + flat(channels@.take(0), each));
    while i < channels.len()
        invariant
            i <= channels@.len(),
            each == channel_policy(),
            findings.deep_view() == before + flat(channels@.take(i as int), each),
        decreases channels@.len() - i,
    {
        proof {
            lemma_flat_next(channels@, each, i as int);
        }
        let id = channels[i].0.as_str();
        let channel = &channels[i].1;
        if channel.enabled {
            match channel.security_policy() {
                Err(_) => {
                    report(
                        findings,
                        Severity::High,
                        Category::Channels,
                        Notice::with("audit.channels.invalid_policy", "channel", id),
                        Notice::new("audit.channels.invalid_policy_fix"),
                    );
                },
                Ok(policy) => {
                    if group_surface_needs_guard(id) && !policy.require_mention_for_groups
                        && policy.allowed_groups.is_none() {
                        report(
                            findings,
                            Severity::Medium,
                            Category::Channels,
                            Notice::with("audit.channels.open_groups", "channel", id),
                            Notice::with("audit.channels.open_groups_fix", "channel", id),
                        );
                    }
                    if str_eq(id, "whatsapp") && !find_app_secret(&channel.accounts) {
                        report(
                            findings,
                            Severity::High,
                            Category::Channels,
                            Notice::new("audit.channels.whatsapp_no_secret"),
                            Notice::new("audit.channels.whatsapp_no_secret_fix"),
                        );
                    }
                },
            }
        }
        assert(findings.deep_view() =~= before + flat(channels@.take(i + 1), each));
        i = i + 1;
    }
    assert(channels@.take(i as int) =~= channels@);
}

/// How much harm a tool can do.
#[derive(Clone, Copy, Debug, PartialEq, Eq, Structural)]
pub enum ToolRiskLevel {
    ReadOnly,
    Mutating,
    Destructive,
}

/// What the bash tool may run.
#[derive(Debug)]
pub enum BashPolicy {
    AllowAll,
    DenyAll,
    Allowlist(Vec<String>),
}

/// Where the bash tool runs.
#[derive(Clone, Copy, Debug, PartialEq, Eq, Structural)]
pub enum SandboxMode {
    Off,
    AiJail,
    AiJailLockdown,
}

/// What is known of the tools: their policies, and the risk of each tool that
/// the agents have.
#[derive(Debug)]
pub struct ToolPosture {
    pub bash: BashPolicy,
    pub sandbox: SandboxMode,
    /// Whether the sandbox is installed.
    pub sandbox_available: bool,
    /// The name of the approval level.
    pub approval_level: String,
    /// Whether mutating tools run without asking.
    pub approves_mutating: bool,
    /// Whether destructive tools run without asking.
    pub approves_destructive: bool,
    pub risks: Vec<ToolRiskLevel>,
}

/// True when some tool changes something.
pub open spec fn some_mutating(risks: Seq<ToolRiskLevel>) -> bool {
    exists|i: int| 0 <= i < risks.len() && #[trigger] risks[i] != ToolRiskLevel::ReadOnly
}

impl ToolPosture {
    /// True when some tool of the agents changes something.
    pub fn has_mutating_tools(&self) -> (r: bool)
        ensures
            r == some_mutating(self.risks@),
    {
        let mut i: usize = 0;
        while i < self.risks.len()
            invariant
                i <= self.risks@.len(),
                forall|k: int| 0 <= k < i ==> #[trigger] self.risks@[k] == ToolRiskLevel::ReadOnly,
            decreases self.risks@.len() - i,
        {
            match self.risks[i] {
                ToolRiskLevel::ReadOnly => {},
                _ => {
                    assert(self.risks@[i as int] != ToolRiskLevel::ReadOnly);
                    return true;
                },
            }
            i = i + 1;
        }
        false
    }
}

/// The tools of one agent.
pub open spec fn agent_tools() -> spec_fn((AgentId, AgentDef)) -> Seq<Seq<char>> {
    |a: (AgentId, AgentDef)| a.1.tools.deep_view()
}

/// The tools of all agents.
pub open spec fn tools_of(config: FrankClawConfig) -> Seq<Seq<char>> {
    flat(config.agents.agents@, agent_tools())
}

/// The tools of all agents.
pub fn configured_tools(config: &FrankClawConfig) -> (r: Vec<String>)
    ensures
        r.deep_view() == tools_of(*config),
{
    let agents = &config.agents.agents;
    let ghost each = agent_tools();
    let mut out: Vec<String> = Vec::new();
    let mut i: usize = 0;
    assert(out.deep_view() =~= flat(agents@.take(0), each));
    while i < agents.len()
        invariant
            i <= agents@.len(),
            each == agent_tools(),
            out.deep_view() == flat(agents@.take(i as int), each),
        decreases agents@.len() - i,
    {
        proof {
            lemma_flat_next(agents@, each, i as int);
        }
        let ghost before = out.deep_view();
        let tools = &agents[i].1.tools;
        let ghost all = tools.deep_view();
        let mut j: usize = 0;
        assert(out.deep_view() =~= before + all.take(0));
        while j < tools.len()
            invariant
                j <= tools@.len(),
                all == tools.deep_view(),
                out.deep_view() == before + all.take(j as int),
            decreases tools@.len() - j,
        {
            let ghost inner = out.deep_view();
            let tool = tools[j].clone();
            out.push(tool);
            proof {
                assert(out.deep_view() =~= inner.push(tool@));
                assert(all[j as int] == tool@);
                assert(out.deep_view() =~= before + all.take(j + 1));
            }
            j = j + 1;
        }
        assert(all.take(j as int) =~= all);
        i = i + 1;
    }
    assert(agents@.take(i as int) =~= agents@);
    out
}

/// True when some agent has the tool.
pub fn has_tool(config: &FrankClawConfig, name: &str) -> (r: bool)
    ensures
        r == tools_of(*config).contains(name@),
{
    let tools = configured_tools(config);
    let ghost all = tools.deep_view();
    let mut i: usize = 0;
    while i < tools.len()
        invariant
            i <= tools@.len(),
            all == tools.deep_view(),
            all == tools_of(*config),
            forall|k: int| 0 <= k < i ==> #[trigger] all[k] != name@,
        decreases tools@.len() - i,
    {
        if str_eq(tools[i].as_str(), name) {
            assert(all[i as int] == name@);
            return true;
        }
        i = i + 1;
    }
    false
}

/// The findings on the bash tool.
pub open spec fn bash_findings(posture: ToolPosture) -> Seq<FindingView> {
    let policy = match posture.bash {
        BashPolicy::AllowAll => found(
            Severity::Critical,
            Category::Tools,
            note("audit.tools.bash_allow_all"@),
            note("audit.tools.bash_allow_all_fix"@),
        ),
        BashPolicy::DenyAll => found(
            Severity::Info,
            Category::Tools,
            note("audit.tools.bash_deny_all"@),
            note("audit.tools.bash_deny_all_fix"@),
        ),
        BashPolicy::Allowlist(allowed) => found(
            Severity::Low,
            Category::Tools,
            note_with("audit.tools.bash_allowlist"@, "count"@, decimal(allowed@.len())).and(
                "commands"@,
                join(allowed.deep_view(), ", "@),
            ),
            note("audit.tools.bash_allowlist_fix"@),
        ),
    };
    seq![policy] + match posture.sandbox {
        SandboxMode::Off => if posture.bash is DenyAll {
            Seq::empty()
        } else {
            seq![
                found(
                    Severity::Medium,
                    Category::Tools,
                    note("audit.tools.no_sandbox"@),
                    note("audit.tools.no_sandbox_fix"@),
                ),
            ]
        },
        SandboxMode::AiJail => if posture.sandbox_available {
            seq![
                found(
                    Severity::Info,
                    Category::Tools,
                    note("audit.tools.sandbox_aijail"@),
                    note("audit.tools.sandbox_aijail_fix"@),
                ),
            ]
        } else {
            seq![
                found(
                    Severity::High,
                    Category::Tools,
                    note_with("audit.tools.sandbox_missing"@, "mode"@, "ai-jail"@),
                    note("audit.tools.sandbox_missing_fix"@),
                ),
            ]
        },
        SandboxMode::AiJailLockdown => if posture.sandbox_available {
            seq![
                found(
                    Severity::Info,
                    Category::Tools,
                    note("audit.tools.sandbox_lockdown"@),
                    note("audit.tools.sandbox_lockdown_fix"@),
                ),
            ]
        } else {
            seq![
                found(
                    Severity::High,
                    Category::Tools,
                    note_with("audit.tools.sandbox_missing"@, "mode"@, "ai-jail-lockdown"@),
                    note("audit.tools.sandbox_missing_fix"@),
                ),
            ]
        },
    }
}

fn audit_bash(posture: &ToolPosture, findings: &mut Vec<Finding>)
    ensures
        final(findings).deep_view() == old(findings).deep_view() + bash_findings(*posture),
{
    let ghost before = findings.deep_view();
    match &posture.bash {
        BashPolicy::AllowAll => {
            report(
                findings,
                Severity::Critical,
                Category::Tools,
                Notice::new("audit.tools.bash_allow_all"),
                Notice::new("audit.tools.bash_allow_all_fix"),
            );
        },
        BashPolicy::DenyAll => {
            report(
                findings,
                Severity::Info,
                Category::Tools,
                Notice::new("audit.tools.bash_deny_all"),
                Notice::new("audit.tools.bash_deny_all_fix"),
            );
        },
        BashPolicy::Allowlist(allowed) => {
            report(
                findings,
                Severity::Low,
                Category::Tools,
                Notice::with(
                    "audit.tools.bash_allowlist",
                    "count",
                    decimal_of(allowed.len() as u64).as_str(),
                ).and("commands", join_texts(allowed, ", ").as_str()),
                Notice::new("audit.tools.bash_allowlist_fix"),
            );
        },
    }
    let denied = match posture.bash {
        BashPolicy::DenyAll => true,
        _ => false,
    };
    match posture.sandbox {
        SandboxMode::Off => {
            if !denied {
                report(
                    findings,
                    Severity::Medium,
                    Category::Tools,
                    Notice::new("audit.tools.no_sandbox"),
                    Notice::new("audit.tools.no_sandbox_fix"),
                );
            }
        },
        SandboxMode::AiJail => {
            if posture.sandbox_available {
                report(
                    findings,
                    Severity::Info,
                    Category::Tools,
                    Notice::new("audit.tools.sandbox_aijail"),
                    Notice::new("audit.tools.sandbox_aijail_fix"),
                );
            } else {
                report(
                    findings,
                    Severity::High,
                    Category::Tools,
                    Notice::with("audit.tools.sandbox_missing", "mode", "ai-jail"),
                    Notice::new("audit.tools.sandbox_missing_fix"),
                );
            }
        },
        SandboxMode::AiJailLockdown => {
            if posture.sandbox_available {
                report(
                    findings,
                    Severity::Info,
                    Category::Tools,
                    Notice::new("audit.tools.sandbox_lockdown"),
                    Notice::new("audit.tools.sandbox_lockdown_fix"),
                );
            } else {
                report(
                    findings,
                    Severity::High,
                    Category::Tools,
                    Notice::with("audit.tools.sandbox_missing", "mode", "ai-jail-lockdown"),
                    Notice::new("audit.tools.sandbox_missing_fix"),
                );
            }
        },
    }
    assert(findings.deep_view() =~= before + bash_findings(*posture));
}

/// The findings on what tools may do without asking.
pub open spec fn approval_findings(posture: ToolPosture) -> Seq<FindingView> {
    let level = seq![
        found(
            Severity::Info,
            Category::Tools,
            note_with("audit.tools.approval_level"@, "level"@, posture.approval_level@),
            note("audit.tools.approval_level_fix"@),
        ),
    ];
    let mutating = if some_mutating(posture.risks@) && posture.approves_mutating {
        seq![
            found(
                Severity::Medium,
                Category::Tools,
                note("audit.tools.mutating_approved"@),
                note("audit.tools.mutating_approved_fix"@),
            ),
        ]
    } else {
        Seq::empty()
    };
    let destructive = if posture.approves_destructive {
        seq![
            found(
                Severity::High,
                Category::Tools,
                note("audit.tools.destructive_approved"@),
                note("audit.tools.destructive_approved_fix"@),
            ),
        ]
    } else {
        Seq::empty()
    };
    level + mutating + destructive
}

/// The findings on the tools.
pub open spec fn tool_findings(config: FrankClawConfig, posture: ToolPosture) -> Seq<FindingView> {
    (if tools_of(config).contains("bash"@) {
        bash_findings(posture)
    } else {
        Seq::empty()
    }) + approval_findings(posture)
}

/// Audits the tools.
pub fn audit_tool_policies(
    config: &FrankClawConfig,
    posture: &ToolPosture,
    findings: &mut Vec<Finding>,
)
    ensures
        final(findings).deep_view() == old(findings).deep_view() + tool_findings(*config, *posture),
{
    let ghost before = findings.deep_view();
    if has_tool(config, "bash") {
        audit_bash(posture, findings);
    }
    report(
        findings,
        Severity::Info,
        Category::Tools,
        Notice::with("audit.tools.approval_level", "level", posture.approval_level.as_str()),
        Notice::new("audit.tools.approval_level_fix"),
    );
    if posture.has_mutating_tools() && posture.approves_mutating {
        report(
            findings,
            Severity::Medium,
            Category::Tools,
            Notice::new("audit.tools.mutating_approved"),
            Notice::new("audit.tools.mutating_approved_fix"),
        );
    }
    if posture.approves_destructive {
        report(
            findings,
            Severity::High,
            Category::Tools,
            Notice::new("audit.tools.destructive_approved"),
            Notice::new("audit.tools.destructive_approved_fix"),
        );
    }
    assert(findings.deep_view() =~= before + tool_findings(*config, *posture));
}

/// The findings on the scanning of files.
pub open spec fn scanning_findings(scanning: bool) -> Seq<FindingView> {
    if scanning {
        seq![
            found(
                Severity::Info,
                Category::Media,
                note("audit.media.scanning_on"@),
                note("audit.media.scanning_on_fix"@),
            ),
        ]
    } else {
        seq![
            found(
                Severity::Low,
                Category::Media,
                note("audit.media.scanning_off"@),
                note("audit.media.scanning_off_fix"@),
            ),
        ]
    }
}

/// Audits the scanning of files; `scanning` tells whether a scanner is set up.
pub fn audit_file_scanning(scanning: bool, findings: &mut Vec<Finding>)
    ensures
        final(findings).deep_view() == old(findings).deep_view() + scanning_findings(scanning),
{
    if scanning {
        report(
            findings,
            Severity::Info,
            Category::Media,
            Notice::new("audit.media.scanning_on"),
            Notice::new("audit.media.scanning_on_fix"),
        );
    } else {
        report(
            findings,
            Severity::Low,
            Category::Media,
            Notice::new("audit.media.scanning_off"),
            Notice::new("audit.media.scanning_off_fix"),
        );
    }
}

/// True when a file mode gives the group or others any permission.
pub open spec fn open_to_others(mode: u32) -> bool {
    mode % 64 != 0
}

/// The permissions of a file mode in octal, four digits wide.
pub open spec fn mode_text(mode: u32) -> Seq<char> {
    "0"@ + decimal((mode as nat / 64) % 8) + (decimal((mode as nat / 8) % 8) + decimal(
        mode as nat % 8,
    ))
}

/// The permissions of a file mode in octal, four digits wide.
pub fn show_mode(mode: u32) -> (r: String)
    ensures
        r@ == mode_text(mode),
{
    let low = cat2(
        decimal_of(((mode / 8) % 8) as u64).as_str(),
        decimal_of((mode % 8) as u64).as_str(),
    );
    cat3("0", decimal_of(((mode / 64) % 8) as u64).as_str(), low.as_str())
}

/// The files that hold secrets, with the modes of those that exist.
#[derive(Debug)]
pub struct AuditedFiles {
    pub config_path: String,
    pub config_mode: Option<u32>,
    pub state_dir: String,
    pub state_mode: Option<u32>,
    pub database_path: String,
    pub database_mode: Option<u32>,
}

/// The finding on one file.
pub open spec fn file_finding(
    mode: Option<u32>,
    path: Seq<char>,
    severity: Severity,
    message: Seq<char>,
    fix: Seq<char>,
) -> Seq<FindingView> {
    if mode is Some && open_to_others(mode->0) {
        seq![
            found(
                severity,
                Category::Filesystem,
                note_with(message, "mode"@, mode_text(mode->0)),
                note_with(fix, "path"@, path),
            ),
        ]
    } else {
        Seq::empty()
    }
}

/// The findings on who can read the files.
pub open spec fn file_findings(files: AuditedFiles) -> Seq<FindingView> {
    file_finding(
        files.config_mode,
        files.config_path@,
        Severity::High,
        "audit.fs.config_world_readable"@,
        "audit.fs.config_world_readable_fix"@,
    ) + file_finding(
        files.state_mode,
        files.state_dir@,
        Severity::Medium,
        "audit.fs.state_world_readable"@,
        "audit.fs.state_world_readable_fix"@,
    ) + file_finding(
        files.database_mode,
        files.database_path@,
        Severity::High,
        "audit.fs.db_world_readable"@,
        "audit.fs.db_world_readable_fix"@,
    )
}

fn audit_file(
    mode: Option<u32>,
    path: &str,
    severity: Severity,
    message: &'static str,
    fix: &'static str,
    findings: &mut Vec<Finding>,
)
    ensures
        final(findings).deep_view() == old(findings).deep_view() + file_finding(
            mode,
            path@,
            severity,
            message@,
            fix@,
        ),
{
    let ghost before = findings.deep_view();
    if let Some(mode) = mode {
        if mode % 64 != 0 {
            report(
                findings,
                severity,
                Category::Filesystem,
                Notice::with(message, "mode", show_mode(mode).as_str()),
                Notice::with(fix, "path", path),
            );
        }
    }
    assert(findings.deep_view() =~= before + file_finding(mode, path@, severity, message@, fix@));
}

/// Audits who can read the files.
pub fn audit_file_permissions(files: &AuditedFiles, findings: &mut Vec<Finding>)
    ensures
        final(findings).deep_view() == old(findings).deep_view() + file_findings(*files),
{
    let ghost before = findings.deep_view();
    audit_file(
        files.config_mode,
        files.config_path.as_str(),
        Severity::High,
        "audit.fs.config_world_readable",
        "audit.fs.config_world_readable_fix",
        findings,
    );
    audit_file(
        files.state_mode,
        files.state_dir.as_str(),
        Severity::Medium,
        "audit.fs.state_world_readable",
        "audit.fs.state_world_readable_fix",
        findings,
    );
    audit_file(
        files.database_mode,
        files.database_path.as_str(),
        Severity::High,
        "audit.fs.db_world_readable",
        "audit.fs.db_world_readable_fix",
        findings,
    );
    assert(findings.deep_view() =~= before + file_findings(*files));
}

/// The finding on requests to private addresses.
pub open spec fn ssrf_findings(security: SecurityConfig) -> Seq<FindingView> {
    if security.ssrf_protection {
        Seq::empty()
    } else {
        seq![
            found(
                Severity::Critical,
                Category::Network,
                note("audit.network.ssrf_off"@),
                note("audit.network.ssrf_off_fix"@),
            ),
        ]
    }
}

/// All findings, in the order in which they are made.
pub open spec fn all_findings(
    config: FrankClawConfig,
    vars: Map<Seq<char>, String>,
    posture: ToolPosture,
    scanning: bool,
    files: AuditedFiles,
) -> Seq<FindingView> {
    auth_findings(config.gateway) + inline_findings(config) + env_findings(config, vars)
        + encryption_findings(config.security, vars) + network_findings(config.gateway) + flat(
        config.channels@,
        channel_policy(),
    ) + tool_findings(config, posture) + scanning_findings(scanning) + file_findings(files)
        + ssrf_findings(config.security)
}

/// The findings of one severity, in order.
pub open spec fn of_severity(findings: Seq<FindingView>, severity: Severity) -> Seq<FindingView>
    decreases findings.len(),
{
    if findings.len() == 0 {
        Seq::empty()
    } else if findings.last().severity == severity {
        of_severity(findings.drop_last(), severity).push(findings.last())
    } else {
        of_severity(findings.drop_last(), severity)
    }
}

/// The findings with the worst first. Among equally bad ones the order stays.
pub open spec fn worst_first(findings: Seq<FindingView>) -> Seq<FindingView> {
    of_severity(findings, Severity::Critical) + of_severity(findings, Severity::High) + of_severity(
        findings,
        Severity::Medium,
    ) + of_severity(findings, Severity::Low) + of_severity(findings, Severity::Info)
}

fn copy_notice(n: &Notice) -> (r: Notice)
    ensures
        r@ == n@,
{
    let mut args: Vec<(&'static str, String)> = Vec::new();
    let mut i: usize = 0;
    while i < n.args.len()
        invariant
            i <= n.args@.len(),
            args@.len() == i,
            forall|k: int|
                0 <= k < i ==> (#[trigger] args@[k]).0@ == n.args@[k].0@ && args@[k].1@
                    == n.args@[k].1@,
        decreases n.args@.len() - i,
    {
        args.push((n.args[i].0, n.args[i].1.clone()));
        i = i + 1;
    }
    let r = Notice { key: n.key, args };
    assert(r@.args =~= n@.args);
    r
}

fn take_severity(findings: &Vec<Finding>, severity: Severity, out: &mut Vec<Finding>)
    ensures
        final(out).deep_view() == old(out).deep_view() + of_severity(
            findings.deep_view(),
            severity,
        ),
{
    let ghost all = findings.deep_view();
    let ghost before = out.deep_view();
    let mut i: usize = 0;
    assert(out.deep_view() =~= before + of_severity(all.take(0), severity));
    while i < findings.len()
        invariant
            i <= findings@.len(),
            all == findings.deep_view(),
            out.deep_view() == before + of_severity(all.take(i as int), severity),
        decreases findings@.len() - i,
    {
        proof {
            let front = all.take(i + 1);
            assert(front.last() == findings@[i as int]@);
            assert(front.drop_last() =~= all.take(i as int));
        }
        let finding = &findings[i];
        if finding.severity == severity {
            report(
                out,
                severity,
                finding.category,
                copy_notice(&finding.message),
                copy_notice(&finding.remediation),
            );
        }
        assert(out.deep_view() =~= before + of_severity(all.take(i + 1), severity));
        i = i + 1;
    }
    assert(all.take(i as int) =~= all);
}

/// The findings with the worst first. Among equally bad ones the order stays.
pub fn sort_findings(findings: &Vec<Finding>) -> (r: Vec<Finding>)
    ensures
        r.deep_view() == worst_first(findings.deep_view()),
{
    let mut out: Vec<Finding> = Vec::new();
    take_severity(findings, Severity::Critical, &mut out);
    take_severity(findings, Severity::High, &mut out);
    take_severity(findings, Severity::Medium, &mut out);
    take_severity(findings, Severity::Low, &mut out);
    take_severity(findings, Severity::Info, &mut out);
    assert(out.deep_view() =~= worst_first(findings.deep_view()));
    out
}

/// The indexes of the findings of a category, in order.
pub fn in_category(findings: &Vec<Finding>, category: Category) -> (r: Vec<usize>)
    ensures
        forall|a: int, b: int| 0 <= a < b < r@.len() ==> #[trigger] r@[a] < #[trigger] r@[b],
        forall|k: int|
            0 <= k < r@.len() ==> (#[trigger] r@[k]) < findings@.len()
                && findings@[r@[k] as int].category == category,
        forall|i: int|
            0 <= i < findings@.len() && (#[trigger] findings@[i]).category == category ==> exists|
                k: int,
            |
                0 <= k < r@.len() && #[trigger] r@[k] == i,
{
    let mut out: Vec<usize> = Vec::new();
    let mut i: usize = 0;
    while i < findings.len()
        invariant
            i <= findings@.len(),
            forall|a: int, b: int|
                0 <= a < b < out@.len() ==> #[trigger] out@[a] < #[trigger] out@[b],
            forall|k: int|
                0 <= k < out@.len() ==> (#[trigger] out@[k]) < i
                    && findings@[out@[k] as int].category == category,
            forall|j: int|
                0 <= j < i && (#[trigger] findings@[j]).category == category ==> exists|k: int|
                    0 <= k < out@.len() && #[trigger] out@[k] == j,
        decreases findings@.len() - i,
    {
        let ghost before = out@;
        if findings[i].category == category {
            out.push(i);
            assert(out@[before.len() as int] == i);
        }
        assert forall|j: int|
            0 <= j < i + 1 && (#[trigger] findings@[j]).category == category implies exists|k: int|
            0 <= k < out@.len() && #[trigger] out@[k] == j by {
            if j < i {
                let k = choose|k: int| 0 <= k < before.len() && #[trigger] before[k] == j;
                assert(out@[k] == j);
            }
        }
        i = i + 1;
    }
    out
}

/// The number of findings of a severity.
pub fn count_severity(findings: &Vec<Finding>, severity: Severity) -> (r: usize)
    ensures
        r == of_severity(findings.deep_view(), severity).len(),
{
    let ghost all = findings.deep_view();
    let mut n: usize = 0;
    let mut i: usize = 0;
    while i < findings.len()
        invariant
            i <= findings@.len(),
            n <= i,
            all == findings.deep_view(),
            n == of_severity(all.take(i as int), severity).len(),
        decreases findings@.len() - i,
    {
        proof {
            let front = all.take(i + 1);
            assert(front.last() == findings@[i as int]@);
            assert(front.drop_last() =~= all.take(i as int));
        }
        if findings[i].severity == severity {
            n = n + 1;
        }
        i = i + 1;
    }
    assert(all.take(i as int) =~= all);
    n
}

/// The exit code of an audit: one where something critical or high was found.
pub open spec fn exit_code(findings: Seq<FindingView>) -> i32 {
    if of_severity(findings, Severity::Critical).len() > 0 || of_severity(
        findings,
        Severity::High,
    ).len() > 0 {
        1
    } else {
        0
    }
}

/// The report of an audit: the findings with the worst first, and the exit
/// code.
#[derive(Debug)]
pub struct AuditReport {
    pub findings: Vec<Finding>,
    pub exit_code: i32,
}

/// Audits a configuration, with what is known of the environment, the tools,
/// the scanner and the files.
pub fn run_security_audit(
    config: &FrankClawConfig,
    vars: &Environment,
    posture: &ToolPosture,
    scanning: bool,
    files: &AuditedFiles,
) -> (r: AuditReport)
    requires
        vars.wf(),
    ensures
        r.findings.deep_view() == worst_first(
            all_findings(*config, vars@, *posture, scanning, *files),
        ),
        r.exit_code == exit_code(all_findings(*config, vars@, *posture, scanning, *files)),
{
    let mut findings: Vec<Finding> = Vec::new();
    audit_auth(config, &mut findings);
    audit_inline_secrets(config, &mut findings);
    audit_missing_env_vars(config, vars, &mut findings);
    audit_encryption(config, vars, &mut findings);
    audit_network(config, &mut findings);
    audit_channel_policies(config, &mut findings);
    audit_tool_policies(config, posture, &mut findings);
    audit_file_scanning(scanning, &mut findings);
    audit_file_permissions(files, &mut findings);
    if !config.security.ssrf_protection {
        report(
            &mut findings,
            Severity::Critical,
            Category::Network,
            Notice::new("audit.network.ssrf_off"),
            Notice::new("audit.network.ssrf_off_fix"),
        );
    }
    assert(findings.deep_view() =~= all_findings(*config, vars@, *posture, scanning, *files));
    let critical: usize = count_severity(&findings, Severity::Critical);
    let high: usize = count_severity(&findings, Severity::High);
    let code: i32 = if critical > 0 || high > 0 {
        1
    } else {
        0
    };
    AuditReport { findings: sort_findings(&findings), exit_code: code }
}

/// How bad a severity is, as a number.
pub open spec fn rank(severity: Severity) -> int {
    match severity {
        Severity::Info => 0,
        Severity::Low => 1,
        Severity::Medium => 2,
        Severity::High => 3,
        Severity::Critical => 4,
    }
}

proof fn lemma_of_severity(findings: Seq<FindingView>, severity: Severity)
    ensures
        forall|i: int|
            0 <= i < of_severity(findings, severity).len() ==> (#[trigger] of_severity(
                findings,
                severity,
            )[i]).severity == severity,
        of_severity(findings, severity).len() > 0 <==> exists|i: int|
            0 <= i < findings.len() && (#[trigger] findings[i]).severity == severity,
    decreases findings.len(),
{
    if findings.len() > 0 {
        let front = findings.drop_last();
        lemma_of_severity(front, severity);
        if findings.last().severity == severity {
            assert(findings[findings.len() - 1].severity == severity);
        }
        if exists|i: int| 0 <= i < front.len() && (#[trigger] front[i]).severity == severity {
            let i = choose|i: int|
                0 <= i < front.len() && (#[trigger] front[i]).severity == severity;
            assert(findings[i].severity == severity);
        }
        if exists|i: int| 0 <= i < findings.len() && (#[trigger] findings[i]).severity
            == severity {
            let i = choose|i: int|
                0 <= i < findings.len() && (#[trigger] findings[i]).severity == severity;
            if i < front.len() {
                assert(front[i].severity == severity);
            }
        }
    }
}

/// A report goes from the worst finding to the least.
pub proof fn law_report_is_sorted(findings: Seq<FindingView>, a: int, b: int)
    requires
        0 <= a < b < worst_first(findings).len(),
    ensures
        rank(worst_first(findings)[a].severity) >= rank(worst_first(findings)[b].severity),
{
    lemma_of_severity(findings, Severity::Critical);
    lemma_of_severity(findings, Severity::High);
    lemma_of_severity(findings, Severity::Medium);
    lemma_of_severity(findings, Severity::Low);
    lemma_of_severity(findings, Severity::Info);
}

proof fn lemma_of_severity_multiset(findings: Seq<FindingView>)
    ensures
        worst_first(findings).to_multiset() =~= findings.to_multiset(),
    decreases findings.len(),
{
    broadcast use vstd::seq_lib::group_to_multiset_ensures;

    let c = of_severity(findings, Severity::Critical);
    let h = of_severity(findings, Severity::High);
    let m = of_severity(findings, Severity::Medium);
    let l = of_severity(findings, Severity::Low);
    let i = of_severity(findings, Severity::Info);
    vstd::seq_lib::lemma_multiset_commutative(c, h);
    vstd::seq_lib::lemma_multiset_commutative(c + h, m);
    vstd::seq_lib::lemma_multiset_commutative(c + h + m, l);
    vstd::seq_lib::lemma_multiset_commutative(c + h + m + l, i);
    if findings.len() > 0 {
        let front = findings.drop_last();
        lemma_of_severity_multiset(front);
        let c0 = of_severity(front, Severity::Critical);
        let h0 = of_severity(front, Severity::High);
        let m0 = of_severity(front, Severity::Medium);
        let l0 = of_severity(front, Severity::Low);
        let i0 = of_severity(front, Severity::Info);
        vstd::seq_lib::lemma_multiset_commutative(c0, h0);
        vstd::seq_lib::lemma_multiset_commutative(c0 + h0, m0);
        vstd::seq_lib::lemma_multiset_commutative(c0 + h0 + m0, l0);
        vstd::seq_lib::lemma_multiset_commutative(c0 + h0 + m0 + l0, i0);
        assert(findings =~= front.push(findings.last()));
    }
}

/// A report holds each finding as often as it was made, and nothing else.
pub proof fn law_report_is_complete(findings: Seq<FindingView>)
    ensures
        worst_first(findings).to_multiset() == findings.to_multiset(),
{
    lemma_of_severity_multiset(findings);
}

/// An audit fails exactly when something critical or high was found.
pub proof fn law_audit_fails_on_high(findings: Seq<FindingView>)
    ensures
        exit_code(findings) == 1 <==> exists|i: int|
            0 <= i < findings.len() && rank((#[trigger] findings[i]).severity) >= rank(
                Severity::High,
            ),
{
    lemma_of_severity(findings, Severity::Critical);
    lemma_of_severity(findings, Severity::High);
    if exit_code(findings) == 1 {
        if of_severity(findings, Severity::Critical).len() > 0 {
            let i = choose|i: int|
                0 <= i < findings.len() && (#[trigger] findings[i]).severity == Severity::Critical;
            assert(rank(findings[i].severity) >= rank(Severity::High));
        } else {
            let i = choose|i: int|
                0 <= i < findings.len() && (#[trigger] findings[i]).severity == Severity::High;
            assert(rank(findings[i].severity) >= rank(Severity::High));
        }
    }
}

/// A gateway that the network can reach without proof of identity fails the
/// audit.
pub proof fn law_open_gateway_fails_audit(
    config: FrankClawConfig,
    vars: Map<Seq<char>, String>,
    posture: ToolPosture,
    scanning: bool,
    files: AuditedFiles,
)
    requires
        !(config.gateway.bind is Loopback),
        config.gateway.auth is Disabled,
    ensures
        exit_code(all_findings(config, vars, posture, scanning, files)) == 1,
{
    let all = all_findings(config, vars, posture, scanning, files);
    assert(all[0].severity == Severity::High) by {
        assert(auth_findings(config.gateway)[0].severity == Severity::High);
    }
    lemma_of_severity(all, Severity::High);
}

} // verus!
