//! Checks of an installation: what to warn of, and how it fares.

use crate::channels::Environment;
use crate::cli::audit::{
    flat, group_surface_needs_guard, groups_open, has_app_secret, has_env, lemma_flat_next,
    mode_text, open_to_others, secret_keys, secret_settings, show_mode, some_mutating, tools_of,
    configured_tools, env_set, ToolPosture,
};
use crate::cli::notice::{note, note_with, notice_text, plain, Notice, NoticeView};
use crate::cli::secrets::{key_problem_text, load_master_key_from_env, master_key};
use crate::config::{
    filled, has_filled, policy_problem, AuthMode, ChannelConfig, FrankClawConfig, ProviderConfig,
};
use crate::json::{JsonValue, JsonView};
use crate::text::{cat3, decimal, decimal_of, join, join_texts, starts_with, str_eq, trimmed};
use crate::types::ChannelId;
use vstd::prelude::*;
use vstd::string::*;

verus! {

/// A message, where it applies.
pub open spec fn when(applies: bool, message: NoticeView) -> Seq<NoticeView> {
    if applies {
        seq![message]
    } else {
        Seq::empty()
    }
}

fn warn(out: &mut Vec<Notice>, message: Notice)
    ensures
        final(out).deep_view() == old(out).deep_view() + seq![message@],
{
    let ghost before = out.deep_view();
    out.push(message);
    assert(out.deep_view() =~= before + seq![message@]);
}

/// The settings of an account that the environment is searched for.
pub open spec fn doctor_settings() -> Seq<Seq<char>> {
    seq![
        "bot_token_env"@,
        "token_env"@,
        "app_token_env"@,
        "base_url_env"@,
        "phone_number_id_env"@,
        "verify_token_env"@,
        "access_token_env"@,
        "app_secret_env"@,
    ]
}

fn doctor_keys() -> (r: Vec<&'static str>)
    ensures
        r@.len() == doctor_settings().len(),
        forall|i: int| 0 <= i < r@.len() ==> (#[trigger] r@[i])@ == doctor_settings()[i],
{
    let mut keys: Vec<&'static str> = Vec::new();
    keys.push("bot_token_env");
    keys.push("token_env");
    keys.push("app_token_env");
    keys.push("base_url_env");
    keys.push("phone_number_id_env");
    keys.push("verify_token_env");
    keys.push("access_token_env");
    keys.push("app_secret_env");
    keys
}

/// The warning on a provider whose key is not in the environment.
pub open spec fn provider_warning(vars: Map<Seq<char>, String>) -> spec_fn(ProviderConfig) -> Seq<
    NoticeView,
> {
    |p: ProviderConfig|
        match p.api_key_ref {
            Some(env) => when(
                !env_set(vars, env@),
                note_with("warn.missing_env"@, "id"@, p.id@).and("env"@, env@),
            ),
            None => Seq::empty(),
        }
}

/// The warning on one setting of an account that names a variable.
pub open spec fn env_warning(
    vars: Map<Seq<char>, String>,
    channel: Seq<char>,
    account: JsonView,
) -> spec_fn(Seq<char>) -> Seq<NoticeView> {
    |key: Seq<char>|
        match account.text_member(key) {
            Some(env) => when(
                !env_set(vars, env),
                note_with("warn.channel_missing_env"@, "channel"@, channel).and("env"@, env).and(
                    "key"@,
                    key,
                ),
            ),
            None => Seq::empty(),
        }
}

/// The warning on one setting of an account that may hold a secret.
pub open spec fn inline_warning(channel: Seq<char>, account: JsonView) -> spec_fn(
    (Seq<char>, Seq<char>),
) -> Seq<NoticeView> {
    |s: (Seq<char>, Seq<char>)|
        when(
            filled(account.text_member(s.0)),
            note_with("warn.channel_inline_secret"@, "channel"@, channel).and("key"@, s.0).and(
                "env_key"@,
                s.1,
            ),
        )
}

/// The warnings on an account.
pub open spec fn account_warning(vars: Map<Seq<char>, String>, channel: Seq<char>) -> spec_fn(
    JsonValue,
) -> Seq<NoticeView> {
    |account: JsonValue|
        flat(doctor_settings(), env_warning(vars, channel, account@)) + flat(
            secret_settings(),
            inline_warning(channel, account@),
        ) + when(
            channel == "whatsapp"@ && !has_app_secret(account@),
            note("warn.whatsapp_no_secret"@),
        )
}

/// The warnings on a channel.
pub open spec fn channel_warning(vars: Map<Seq<char>, String>) -> spec_fn(
    (ChannelId, ChannelConfig),
) -> Seq<NoticeView> {
    |c: (ChannelId, ChannelConfig)|
        when(
            groups_open(c.0@, c.1.extra@),
            note_with("warn.channel_open_groups"@, "channel"@, c.0@),
        ) + flat(c.1.accounts@, account_warning(vars, c.0@))
}

/// What is wrong with the first channel, from the `i`-th on, whose policy is
/// invalid.
pub open spec fn policy_failure(channels: Seq<(ChannelId, ChannelConfig)>, i: int) -> Option<
    NoticeView,
>
    decreases channels.len() - i,
{
    if i < 0 || i >= channels.len() {
        None
    } else if policy_problem(channels[i].1.extra@) is Some {
        Some(note_with("warn.invalid_channel_policy"@, "channel"@, channels[i].0@))
    } else {
        policy_failure(channels, i + 1)
    }
}

/// The warnings on the settings as a whole.
pub open spec fn general_warnings(
    config: FrankClawConfig,
    vars: Map<Seq<char>, String>,
    state_dir: Seq<char>,
    state_exists: bool,
) -> Seq<NoticeView> {
    when(config.models.providers@.len() == 0, note("warn.no_providers"@)) + when(
        config.channels@.len() == 0,
        note("warn.no_channels"@),
    ) + when(!config.security.encrypt_sessions, note("warn.encrypt_off"@)) + when(
        config.security.encrypt_sessions && master_key(vars)->Ok_0 is None,
        note("warn.encrypt_no_key"@),
    ) + when(!state_exists, note_with("warn.state_missing"@, "path"@, state_dir))
}

/// What keeps the warnings from being collected: a bad master key where one is
/// needed, an invalid channel policy, or exposure that could not be assessed.
pub open spec fn doctor_failure(
    config: FrankClawConfig,
    vars: Map<Seq<char>, String>,
    exposure: Result<Seq<Seq<char>>, Seq<char>>,
) -> Option<NoticeView> {
    if config.security.encrypt_sessions && master_key(vars) is Err {
        Some(plain(key_problem_text(master_key(vars)->Err_0)))
    } else if policy_failure(config.channels@, 0) is Some {
        policy_failure(config.channels@, 0)
    } else {
        match exposure {
            Ok(_) => None,
            Err(problem) => Some(plain(problem)),
        }
    }
}

/// All warnings.
pub open spec fn doctor_warnings(
    config: FrankClawConfig,
    vars: Map<Seq<char>, String>,
    state_dir: Seq<char>,
    state_exists: bool,
    exposure: Seq<Seq<char>>,
    browser: Seq<NoticeView>,
) -> Seq<NoticeView> {
    general_warnings(config, vars, state_dir, state_exists) + flat(
        config.models.providers@,
        provider_warning(vars),
    ) + flat(config.channels@, channel_warning(vars)) + exposure.map_values(
        |w: Seq<char>| plain(w),
    ) + browser
}

fn warn_of_account(
    vars: &Environment,
    channel: &str,
    account: &JsonValue,
    out: &mut Vec<Notice>,
)
    requires
        vars.wf(),
    ensures
        final(out).deep_view() == old(out).deep_view() + account_warning(vars@, channel@)(
            *account,
        ),
{
    let ghost before = out.deep_view();
    let keys = doctor_keys();
    let ghost settings = doctor_settings();
    let ghost each = env_warning(vars@, channel@, account@);
    let mut i: usize = 0;
    assert(out.deep_view() =~= before + flat(settings.take(0), each));
    while i < keys.len()
        invariant
            vars.wf(),
            i <= keys@.len(),
            settings == doctor_settings(),
            keys@.len() == settings.len(),
            forall|k: int| 0 <= k < keys@.len() ==> (#[trigger] keys@[k])@ == settings[k],
            each == env_warning(vars@, channel@, account@),
            out.deep_view() == before + flat(settings.take(i as int), each),
        decreases keys@.len() - i,
    {
        proof {
            lemma_flat_next(settings, each, i as int);
        }
        let key = keys[i];
        assert(key@ == settings[i as int]);
        if let Some(env) = account.get_str(key) {
            if !has_env(vars, env) {
                warn(
                    out,
                    Notice::with("warn.channel_missing_env", "channel", channel).and(
                        "env",
                        env,
                    ).and("key", key),
                );
            }
        }
        assert(out.deep_view() =~= before + flat(settings.take(i + 1), each));
        i = i + 1;
    }
    assert(settings.take(i as int) =~= settings);
    let ghost middle = out.deep_view();
    let pairs = secret_keys();
    let ghost secrets = secret_settings();
    let ghost inline = inline_warning(channel@, account@);
    let mut j: usize = 0;
    assert(out.deep_view() =~= middle + flat(secrets.take(0), inline));
    while j < pairs.len()
        invariant
            j <= pairs@.len(),
            secrets == secret_settings(),
            pairs@.len() == secrets.len(),
            forall|k: int|
                0 <= k < pairs@.len() ==> ((#[trigger] pairs@[k]).0@, pairs@[k].1@) == secrets[k],
            inline == inline_warning(channel@, account@),
            out.deep_view() == middle + flat(secrets.take(j as int), inline),
        decreases pairs@.len() - j,
    {
        proof {
            lemma_flat_next(secrets, inline, j as int);
            assert((pairs@[j as int].0@, pairs@[j as int].1@) == secrets[j as int]);
        }
        let (key, env_key) = pairs[j];
        if has_filled(account, key) {
            warn(
                out,
                Notice::with("warn.channel_inline_secret", "channel", channel).and("key", key).and(
                    "env_key",
                    env_key,
                ),
            );
        }
        assert(out.deep_view() =~= middle + flat(secrets.take(j + 1), inline));
        j = j + 1;
    }
    assert(secrets.take(j as int) =~= secrets);
    if str_eq(channel, "whatsapp") && !has_filled(account, "app_secret") && !has_filled(
        account,
        "app_secret_env",
    ) {
        warn(out, Notice::new("warn.whatsapp_no_secret"));
    }
    assert(out.deep_view() =~= before + account_warning(vars@, channel@)(*account));
}

fn warn_of_channel(
    vars: &Environment,
    id: &ChannelId,
    channel: &ChannelConfig,
    open_groups: bool,
    out: &mut Vec<Notice>,
)
    requires
        vars.wf(),
        open_groups == groups_open(id@, channel.extra@),
    ensures
        final(out).deep_view() == old(out).deep_view() + channel_warning(vars@)((*id, *channel)),
{
    let ghost before = out.deep_view();
    if open_groups {
        warn(out, Notice::with("warn.channel_open_groups", "channel", id.as_str()));
    }
    let ghost middle = out.deep_view();
    let accounts = &channel.accounts;
    let ghost each = account_warning(vars@, id@);
    let mut i: usize = 0;
    assert(out.deep_view() =~= middle + flat(accounts@.take(0), each));
    while i < accounts.len()
        invariant
            vars.wf(),
            i <= accounts@.len(),
            each == account_warning(vars@, id@),
            out.deep_view() == middle + flat(accounts@.take(i as int), each),
        decreases accounts@.len() - i,
    {
        proof {
            lemma_flat_next(accounts@, each, i as int);
        }
        warn_of_account(vars, id.as_str(), &accounts[i], out);
        assert(out.deep_view() =~= middle + flat(accounts@.take(i + 1), each));
        i = i + 1;
    }
    assert(accounts@.take(i as int) =~= accounts@);
    assert(out.deep_view() =~= before + channel_warning(vars@)((*id, *channel)));
}

fn warn_of_providers(
    vars: &Environment,
    providers: &Vec<ProviderConfig>,
    out: &mut Vec<Notice>,
)
    requires
        vars.wf(),
    ensures
        final(out).deep_view() == old(out).deep_view() + flat(providers@, provider_warning(vars@)),
{
    let ghost before = out.deep_view();
    let ghost each = provider_warning(vars@);
    let mut i: usize = 0;
    assert(out.deep_view() =~= before + flat(providers@.take(0), each));
    while i < providers.len()
        invariant
            vars.wf(),
            i <= providers@.len(),
            each == provider_warning(vars@),
            out.deep_view() == before + flat(providers@.take(i as int), each),
        decreases providers@.len() - i,
    {
        proof {
            lemma_flat_next(providers@, each, i as int);
        }
        if let Some(env) = &providers[i].api_key_ref {
            if !has_env(vars, env.as_str()) {
                warn(
                    out,
                    Notice::with("warn.missing_env", "id", providers[i].id.as_str()).and(
                        "env",
                        env.as_str(),
                    ),
                );
            }
        }
        assert(out.deep_view() =~= before + flat(providers@.take(i + 1), each));
        i = i + 1;
    }
    assert(providers@.take(i as int) =~= providers@);
}

/// What to warn of in a configuration: `exposure` is what the exposure
/// assessment gave, `browser` the warnings on the browser.
pub fn collect_doctor_warnings(
    config: &FrankClawConfig,
    vars: &Environment,
    state_dir: &str,
    state_exists: bool,
    exposure: Result<Vec<String>, String>,
    browser: Vec<Notice>,
) -> (r: Result<Vec<Notice>, Notice>)
    requires
        vars.wf(),
    ensures
        ({
            let exposed = match exposure {
                Ok(warnings) => Ok(warnings.deep_view()),
                Err(problem) => Err(problem@),
            };
            match doctor_failure(*config, vars@, exposed) {
                Some(problem) => r is Err && r->Err_0@ == problem,
                None => {
                    &&& r is Ok
                    &&& r->Ok_0.deep_view() == doctor_warnings(
                        *config,
                        vars@,
                        state_dir@,
                        state_exists,
                        exposed->Ok_0,
                        browser.deep_view(),
                    )
                },
            }
        }),
{
    let mut out: Vec<Notice> = Vec::new();
    assert(out.deep_view() =~= Seq::empty());
    if config.models.providers.len() == 0 {
        warn(&mut out, Notice::new("warn.no_providers"));
    }
    if config.channels.len() == 0 {
        warn(&mut out, Notice::new("warn.no_channels"));
    }
    if !config.security.encrypt_sessions {
        warn(&mut out, Notice::new("warn.encrypt_off"));
    } else {
        match load_master_key_from_env(vars) {
            Err(problem) => {
                return Err(Notice::plain(problem.message()));
            },
            Ok(None) => {
                warn(&mut out, Notice::new("warn.encrypt_no_key"));
            },
            Ok(Some(_)) => {},
        }
    }
    if !state_exists {
        warn(&mut out, Notice::with("warn.state_missing", "path", state_dir));
    }
    assert(out.deep_view() =~= general_warnings(*config, vars@, state_dir@, state_exists));
    warn_of_providers(vars, &config.models.providers, &mut out);
    let channels = &config.channels;
    let ghost each = channel_warning(vars@);
    let ghost before = out.deep_view();
    let mut i: usize = 0;
    assert(out.deep_view() =~= before + flat(channels@.take(0), each));
    while i < channels.len()
        invariant
            vars.wf(),
            i <= channels@.len(),
            *channels == config.channels,
            !(config.security.encrypt_sessions && master_key(vars@) is Err),
            each == channel_warning(vars@),
            policy_failure(channels@, 0) == policy_failure(channels@, i as int),
            out.deep_view() == before + flat(channels@.take(i as int), each),
        decreases channels@.len() - i,
    {
        proof {
            lemma_flat_next(channels@, each, i as int);
        }
        let id = &channels[i].0;
        let channel = &channels[i].1;
        let policy = match channel.security_policy() {
            Ok(policy) => policy,
            Err(_) => {
                return Err(Notice::with("warn.invalid_channel_policy", "channel", id.as_str()));
            },
        };
        let open_groups = group_surface_needs_guard(id.as_str())
            && !policy.require_mention_for_groups && policy.allowed_groups.is_none();
        warn_of_channel(vars, id, channel, open_groups, &mut out);
        assert(out.deep_view() =~= before + flat(channels@.take(i + 1), each));
        i = i + 1;
    }
    assert(channels@.take(i as int) =~= channels@);
    let exposure = match exposure {
        Ok(warnings) => warnings,
        Err(problem) => {
            return Err(Notice::plain(problem.as_str()));
        },
    };
    warn_plainly(&exposure, &mut out);
    let ghost head = out.deep_view();
    let mut browser = browser;
    let ghost tail = browser.deep_view();
    let ghost last = browser@;
    let ghost first = out@;
    out.append(&mut browser);
    assert(out.deep_view() =~= head + tail) by {
        assert(out@ == first + last);
    }
    assert(out.deep_view() =~= doctor_warnings(
        *config,
        vars@,
        state_dir@,
        state_exists,
        exposure.deep_view(),
        tail,
    ));
    Ok(out)
}

fn warn_plainly(texts: &Vec<String>, out: &mut Vec<Notice>)
    ensures
        final(out).deep_view() == old(out).deep_view() + texts.deep_view().map_values(
            |w: Seq<char>| plain(w),
        ),
{
    let ghost before = out.deep_view();
    let ghost all = texts.deep_view();
    let mut i: usize = 0;
    assert(out.deep_view() =~= before + all.take(0).map_values(|w: Seq<char>| plain(w)));
    while i < texts.len()
        invariant
            i <= texts@.len(),
            all == texts.deep_view(),
            out.deep_view() == before + all.take(i as int).map_values(|w: Seq<char>| plain(w)),
        decreases texts@.len() - i,
    {
        warn(out, Notice::plain(texts[i].as_str()));
        proof {
            assert(all[i as int] == texts@[i as int]@);
            assert(out.deep_view() =~= before + all.take(i + 1).map_values(
                |w: Seq<char>| plain(w),
            ));
        }
        i = i + 1;
    }
    assert(all.take(i as int) =~= all);
}

/// What the `url` crate makes of a URL: its host and its port, where it names
/// or implies them, or why it is none.
pub uninterp spec fn url_endpoint(text: Seq<char>) -> Result<
    (Option<Seq<char>>, Option<u16>),
    Seq<char>,
>;

/// The host and the port of a URL.
#[derive(Debug)]
pub struct Endpoint {
    pub host: Option<String>,
    pub port: Option<u16>,
}

/// What a parsed URL says.
pub open spec fn endpoint_view(parsed: Result<Endpoint, String>) -> Result<
    (Option<Seq<char>>, Option<u16>),
    Seq<char>,
> {
    match parsed {
        Ok(endpoint) => Ok((endpoint.host.deep_view(), endpoint.port)),
        Err(problem) => Err(problem@),
    }
}

/// Calls `Url::parse` of the `url` crate, and on its result `host_str` and
/// `port_or_known_default`. What comes out, or the text of the error, is a
/// function of the text, which `url_endpoint` names.
#[verifier::external_body]
fn parse_endpoint(text: &str) -> (r: Result<Endpoint, String>)
    ensures
        endpoint_view(r) == url_endpoint(text@),
{
    match url::Url::parse(text) {
        Ok(url) => Ok(
            Endpoint {
                host: url.host_str().map(|host| host.to_string()),
                port: url.port_or_known_default(),
            },
        ),
        Err(problem) => Err(problem.to_string()),
    }
}

/// True when some tool drives a browser.
pub open spec fn drives_browser(tools: Seq<Seq<char>>) -> bool {
    exists|i: int| 0 <= i < tools.len() && "browser."@.is_prefix_of(#[trigger] tools[i])
}

/// True when some agent has a tool that drives a browser.
pub fn browser_tools_enabled(config: &FrankClawConfig) -> (r: bool)
    ensures
        r == drives_browser(tools_of(*config)),
{
    let tools = configured_tools(config);
    let ghost all = tools.deep_view();
    let mut i: usize = 0;
    while i < tools.len()
        invariant
            i <= tools@.len(),
            all == tools.deep_view(),
            all == tools_of(*config),
            forall|k: int| 0 <= k < i ==> !"browser."@.is_prefix_of(#[trigger] all[k]),
        decreases tools@.len() - i,
    {
        if starts_with(tools[i].as_str(), "browser.") {
            assert("browser."@.is_prefix_of(all[i as int]));
            return true;
        }
        i = i + 1;
    }
    false
}

/// Where the browser is, where nothing else is said.
pub open spec fn default_endpoint() -> Seq<char> {
    "http://127.0.0.1:9222/"@
}

/// Where the browser is: as configured, without surrounding space.
pub open spec fn endpoint_of(configured: Option<Seq<char>>) -> Seq<char> {
    if filled(configured) {
        trimmed(configured->0)
    } else {
        default_endpoint()
    }
}

/// A browser endpoint, what to warn of before it is tried, and what to connect
/// to.
#[derive(Debug)]
pub struct BrowserProbe {
    pub endpoint: String,
    pub warnings: Vec<Notice>,
    pub connect: Option<(String, u16)>,
}

/// A host and a port.
pub open spec fn target_view(target: Option<(String, u16)>) -> Option<(Seq<char>, u16)> {
    match target {
        Some((host, port)) => Some((host@, port)),
        None => None,
    }
}

/// The warnings on an endpoint before it is tried.
pub open spec fn endpoint_warnings(
    parsed: Result<(Option<Seq<char>>, Option<u16>), Seq<char>>,
    blocked: bool,
) -> Seq<NoticeView> {
    match parsed {
        Err(problem) => seq![note_with("browser.invalid_url"@, "error"@, problem)],
        Ok((host, _)) => when(blocked, note("browser.mutations_blocked"@)) + match host {
            Some(name) => when(
                name != "127.0.0.1"@ && name != "localhost"@,
                note_with("browser.non_loopback"@, "host"@, name),
            ),
            None => seq![note("browser.no_host"@)],
        },
    }
}

/// What to connect to: the host, and the port or that of the browser.
pub open spec fn endpoint_target(
    parsed: Result<(Option<Seq<char>>, Option<u16>), Seq<char>>,
) -> Option<(Seq<char>, u16)> {
    match parsed {
        Ok((Some(host), port)) => Some(
            (
                host,
                match port {
                    Some(port) => port,
                    None => 9222,
                },
            ),
        ),
        _ => None,
    }
}

/// The probe of an endpoint, given what its URL says and whether mutating tools
/// are blocked.
pub fn browser_probe(endpoint: &str, parsed: Result<Endpoint, String>, blocked: bool) -> (r:
    BrowserProbe)
    ensures
        r.endpoint@ == endpoint@,
        r.warnings.deep_view() == endpoint_warnings(endpoint_view(parsed), blocked),
        target_view(r.connect) == endpoint_target(endpoint_view(parsed)),
{
    let mut warnings: Vec<Notice> = Vec::new();
    assert(warnings.deep_view() =~= Seq::empty());
    let parsed = match parsed {
        Ok(parsed) => parsed,
        Err(problem) => {
            warn(
                &mut warnings,
                Notice::with("browser.invalid_url", "error", problem.as_str()),
            );
            assert(warnings.deep_view() =~= seq![
                note_with("browser.invalid_url"@, "error"@, problem@),
            ]);
            return BrowserProbe { endpoint: endpoint.to_owned(), warnings, connect: None };
        },
    };
    if blocked {
        warn(&mut warnings, Notice::new("browser.mutations_blocked"));
    }
    let connect = match parsed.host {
        Some(host) => {
            if !str_eq(host.as_str(), "127.0.0.1") && !str_eq(host.as_str(), "localhost") {
                warn(&mut warnings, Notice::with("browser.non_loopback", "host", host.as_str()));
            }
            let port: u16 = match parsed.port {
                Some(port) => port,
                None => 9222,
            };
            Some((host, port))
        },
        None => {
            warn(&mut warnings, Notice::new("browser.no_host"));
            None
        },
    };
    assert(warnings.deep_view() =~= endpoint_warnings(
        Ok((parsed.host.deep_view(), parsed.port)),
        blocked,
    ));
    BrowserProbe { endpoint: endpoint.to_owned(), warnings, connect }
}

/// True when the agents have mutating tools that would not run.
pub open spec fn mutations_blocked(posture: ToolPosture) -> bool {
    some_mutating(posture.risks@) && !posture.approves_mutating
}

/// The probe of the browser; none where no agent drives one.
pub fn collect_browser_tool_warnings_with_policy(
    config: &FrankClawConfig,
    browser_endpoint: Option<&str>,
    posture: &ToolPosture,
) -> (r: Option<BrowserProbe>)
    ensures
        r is Some == drives_browser(tools_of(*config)),
        r is Some ==> {
            let endpoint = endpoint_of(
                match browser_endpoint {
                    Some(text) => Some(text@),
                    None => None,
                },
            );
            let parsed = url_endpoint(endpoint);
            &&& r->0.endpoint@ == endpoint
            &&& r->0.warnings.deep_view() == endpoint_warnings(parsed, mutations_blocked(*posture))
            &&& target_view(r->0.connect) == endpoint_target(parsed)
        },
{
    if !browser_tools_enabled(config) {
        return None;
    }
    let endpoint = match browser_endpoint {
        Some(text) => if crate::text::blank(text) {
            "http://127.0.0.1:9222/"
        } else {
            text.trim()
        },
        None => "http://127.0.0.1:9222/",
    };
    let blocked = posture.has_mutating_tools() && !posture.approves_mutating;
    Some(browser_probe(endpoint, parse_endpoint(endpoint), blocked))
}

/// The warnings on the browser, once it was tried.
pub fn browser_warnings(probe: BrowserProbe, reachable: bool) -> (r: Vec<Notice>)
    ensures
        r.deep_view() == probe.warnings.deep_view() + when(
            probe.connect is Some && !reachable,
            note_with("browser.unreachable"@, "endpoint"@, probe.endpoint@),
        ),
{
    let ghost before = probe.warnings.deep_view();
    let mut warnings = probe.warnings;
    if probe.connect.is_some() && !reachable {
        warn(
            &mut warnings,
            Notice::with("browser.unreachable", "endpoint", probe.endpoint.as_str()),
        );
    }
    assert(warnings.deep_view() =~= before + when(
        probe.connect is Some && !reachable,
        note_with("browser.unreachable"@, "endpoint"@, probe.endpoint@),
    ));
    warnings
}

/// The texts of messages.
pub open spec fn texts_of(notices: Seq<NoticeView>) -> Seq<Seq<char>> {
    notices.map_values(|n: NoticeView| notice_text(n))
}

/// What mutating tools may do, in a word or two.
pub open spec fn mutation_state(posture: ToolPosture) -> Seq<char> {
    if some_mutating(posture.risks@) {
        if posture.approves_mutating {
            "cmd.status.mutations_enabled"@
        } else {
            "cmd.status.mutations_gated"@
        }
    } else {
        "cmd.status.read_only"@
    }
}

/// How the browser stands: its warnings, or what its tools may do and where it
/// is. None where no agent drives one and nothing is to be warned of.
pub fn browser_runtime_status_with_policy(
    config: &FrankClawConfig,
    browser_endpoint: Option<&str>,
    posture: &ToolPosture,
    warnings: &Vec<Notice>,
) -> (r: Option<String>)
    ensures
        r.deep_view() == if warnings@.len() > 0 {
            Some(join(texts_of(warnings.deep_view()), " | "@))
        } else if drives_browser(tools_of(*config)) {
            Some(
                notice_text(note(mutation_state(*posture))) + " at "@ + match browser_endpoint {
                    Some(text) => text@,
                    None => default_endpoint(),
                },
            )
        } else {
            None
        },
{
    if warnings.len() > 0 {
        let mut texts: Vec<String> = Vec::new();
        let mut i: usize = 0;
        while i < warnings.len()
            invariant
                i <= warnings@.len(),
                texts@.len() == i,
                forall|k: int|
                    0 <= k < i ==> (#[trigger] texts@[k])@ == notice_text(warnings@[k]@),
            decreases warnings@.len() - i,
        {
            texts.push(warnings[i].text());
            i = i + 1;
        }
        assert(texts.deep_view() =~= texts_of(warnings.deep_view()));
        return Some(join_texts(&texts, " | "));
    }
    if !browser_tools_enabled(config) {
        return None;
    }
    let state = if posture.has_mutating_tools() {
        if posture.approves_mutating {
            Notice::new("cmd.status.mutations_enabled")
        } else {
            Notice::new("cmd.status.mutations_gated")
        }
    } else {
        Notice::new("cmd.status.read_only")
    };
    let endpoint = match browser_endpoint {
        Some(text) => text,
        None => "http://127.0.0.1:9222/",
    };
    Some(cat3(state.text().as_str(), " at ", endpoint))
}

/// Outcome of a single diagnostic check.
#[derive(Debug)]
pub enum CheckResult<M> {
    Pass(M),
    Warn(M),
    Fail(M),
    Info(M),
}

impl<M> CheckResult<M> {
    /// What stands before the message.
    pub fn prefix(&self) -> (r: &'static str)
        ensures
            r@ == match self {
                CheckResult::Pass(_) => "[PASS]"@,
                CheckResult::Warn(_) => "[WARN]"@,
                CheckResult::Fail(_) => "[FAIL]"@,
                CheckResult::Info(_) => "[INFO]"@,
            },
    {
        match self {
            CheckResult::Pass(_) => "[PASS]",
            CheckResult::Warn(_) => "[WARN]",
            CheckResult::Fail(_) => "[FAIL]",
            CheckResult::Info(_) => "[INFO]",
        }
    }

    /// The message.
    pub fn message(&self) -> (r: &M)
        ensures
            *r == match *self {
                CheckResult::Pass(m) => m,
                CheckResult::Warn(m) => m,
                CheckResult::Fail(m) => m,
                CheckResult::Info(m) => m,
            },
    {
        match self {
            CheckResult::Pass(m) => m,
            CheckResult::Warn(m) => m,
            CheckResult::Fail(m) => m,
            CheckResult::Info(m) => m,
        }
    }

    /// True of a check that failed.
    pub fn is_fail(&self) -> (r: bool)
        ensures
            r == (self is Fail),
    {
        match self {
            CheckResult::Fail(_) => true,
            _ => false,
        }
    }

    /// True of a check that gave a warning.
    pub fn is_warn(&self) -> (r: bool)
        ensures
            r == (self is Warn),
    {
        match self {
            CheckResult::Warn(_) => true,
            _ => false,
        }
    }
}

impl View for CheckResult<Notice> {
    type V = CheckResult<NoticeView>;

    open spec fn view(&self) -> CheckResult<NoticeView> {
        match self {
            CheckResult::Pass(m) => CheckResult::Pass(m@),
            CheckResult::Warn(m) => CheckResult::Warn(m@),
            CheckResult::Fail(m) => CheckResult::Fail(m@),
            CheckResult::Info(m) => CheckResult::Info(m@),
        }
    }
}

impl DeepView for CheckResult<Notice> {
    type V = CheckResult<NoticeView>;

    open spec fn deep_view(&self) -> CheckResult<NoticeView> {
        self@
    }
}

fn check(out: &mut Vec<CheckResult<Notice>>, result: CheckResult<Notice>)
    ensures
        final(out).deep_view() == old(out).deep_view() + seq![result@],
{
    let ghost before = out.deep_view();
    out.push(result);
    assert(out.deep_view() =~= before + seq![result@]);
}

/// The facts on the system.
pub open spec fn system_results(
    version: Seq<char>,
    rust: Seq<char>,
    os: Seq<char>,
    arch: Seq<char>,
    state_dir: Seq<char>,
) -> Seq<CheckResult<NoticeView>> {
    seq![
        CheckResult::Info(note_with("doctor.info.version"@, "version"@, version)),
        CheckResult::Info(note_with("doctor.info.rust"@, "version"@, rust)),
        CheckResult::Info(note_with("doctor.info.os"@, "os"@, os)),
        CheckResult::Info(note_with("doctor.info.arch"@, "arch"@, arch)),
        CheckResult::Info(note_with("doctor.info.state_dir"@, "path"@, state_dir)),
    ]
}

/// The facts on the system.
pub fn system_checks(version: &str, rust: &str, os: &str, arch: &str, state_dir: &str) -> (r: Vec<
    CheckResult<Notice>,
>)
    ensures
        r.deep_view() == system_results(version@, rust@, os@, arch@, state_dir@),
{
    let mut out: Vec<CheckResult<Notice>> = Vec::new();
    out.push(CheckResult::Info(Notice::with("doctor.info.version", "version", version)));
    out.push(CheckResult::Info(Notice::with("doctor.info.rust", "version", rust)));
    out.push(CheckResult::Info(Notice::with("doctor.info.os", "os", os)));
    out.push(CheckResult::Info(Notice::with("doctor.info.arch", "arch", arch)));
    out.push(CheckResult::Info(Notice::with("doctor.info.state_dir", "path", state_dir)));
    assert(out.deep_view() =~= system_results(version@, rust@, os@, arch@, state_dir@));
    out
}

/// The check of who can read a file or a directory, where it exists.
pub open spec fn permission_result(
    mode: Option<u32>,
    label: Seq<char>,
    open_key: Seq<char>,
    closed_key: Seq<char>,
) -> Seq<CheckResult<NoticeView>> {
    match mode {
        Some(mode) => if open_to_others(mode) {
            seq![
                CheckResult::Warn(
                    note_with(open_key, "label"@, label).and("mode"@, mode_text(mode)),
                ),
            ]
        } else {
            seq![
                CheckResult::Pass(
                    note_with(closed_key, "label"@, label).and("mode"@, mode_text(mode)),
                ),
            ]
        },
        None => Seq::empty(),
    }
}

fn check_permissions(
    mode: Option<u32>,
    label: &str,
    open_key: &'static str,
    closed_key: &'static str,
) -> (r: Vec<CheckResult<Notice>>)
    ensures
        r.deep_view() == permission_result(mode, label@, open_key@, closed_key@),
{
    let mut out: Vec<CheckResult<Notice>> = Vec::new();
    assert(out.deep_view() =~= Seq::empty());
    if let Some(mode) = mode {
        let text = show_mode(mode);
        if mode % 64 != 0 {
            check(
                &mut out,
                CheckResult::Warn(
                    Notice::with(open_key, "label", label).and("mode", text.as_str()),
                ),
            );
        } else {
            check(
                &mut out,
                CheckResult::Pass(
                    Notice::with(closed_key, "label", label).and("mode", text.as_str()),
                ),
            );
        }
    }
    assert(out.deep_view() =~= permission_result(mode, label@, open_key@, closed_key@));
    out
}

/// The check of who can read a file, where it exists.
pub fn check_file_permissions(mode: Option<u32>, label: &str) -> (r: Vec<CheckResult<Notice>>)
    ensures
        r.deep_view() == permission_result(mode, label@, "perms.file_warn"@, "perms.file_ok"@),
{
    check_permissions(mode, label, "perms.file_warn", "perms.file_ok")
}

/// The check of who can read a directory, where it exists.
pub fn check_dir_permissions(mode: Option<u32>, label: &str) -> (r: Vec<CheckResult<Notice>>)
    ensures
        r.deep_view() == permission_result(mode, label@, "perms.dir_warn"@, "perms.dir_ok"@),
{
    check_permissions(mode, label, "perms.dir_warn", "perms.dir_ok")
}

fn append_checks(out: &mut Vec<CheckResult<Notice>>, more: Vec<CheckResult<Notice>>)
    ensures
        final(out).deep_view() == old(out).deep_view() + more.deep_view(),
{
    let ghost first = out@;
    let mut more = more;
    let ghost last = more@;
    out.append(&mut more);
    assert(out@ == first + last);
    assert(out.deep_view() =~= old(out).deep_view() + last.map_values(
        |c: CheckResult<Notice>| c.deep_view(),
    ));
}

/// Messages as warnings.
pub open spec fn as_warnings(messages: Seq<NoticeView>) -> Seq<CheckResult<NoticeView>> {
    messages.map_values(|m: NoticeView| CheckResult::Warn(m))
}

/// The checks of a valid configuration.
pub open spec fn configuration_results(
    mode: Option<u32>,
    warnings: Seq<NoticeView>,
    summary: Seq<char>,
    exposure: Seq<Seq<char>>,
) -> Seq<CheckResult<NoticeView>> {
    seq![CheckResult::Pass(note("doctor.config.valid"@))] + permission_result(
        mode,
        "config file"@,
        "perms.file_warn"@,
        "perms.file_ok"@,
    ) + as_warnings(warnings) + (if warnings.len() == 0 {
        seq![CheckResult::Pass(note("doctor.config.no_misconfig"@))]
    } else {
        Seq::empty()
    }) + seq![CheckResult::Info(note_with("doctor.info.exposure"@, "summary"@, summary))]
        + as_warnings(exposure.map_values(|w: Seq<char>| plain(w)))
}

/// The checks of a valid configuration: who can read it, what was warned of,
/// and how exposed the gateway is.
pub fn configuration_checks(
    mode: Option<u32>,
    warnings: Vec<Notice>,
    exposure_summary: &str,
    exposure_warnings: &Vec<String>,
) -> (r: Vec<CheckResult<Notice>>)
    ensures
        r.deep_view() == configuration_results(
            mode,
            warnings.deep_view(),
            exposure_summary@,
            exposure_warnings.deep_view(),
        ),
{
    let mut out: Vec<CheckResult<Notice>> = Vec::new();
    assert(out.deep_view() =~= Seq::empty());
    check(&mut out, CheckResult::Pass(Notice::new("doctor.config.valid")));
    append_checks(&mut out, check_file_permissions(mode, "config file"));
    let none = warnings.len() == 0;
    let ghost all = warnings.deep_view();
    append_checks(&mut out, warn_checks(warnings));
    if none {
        check(&mut out, CheckResult::Pass(Notice::new("doctor.config.no_misconfig")));
    }
    check(
        &mut out,
        CheckResult::Info(Notice::with("doctor.info.exposure", "summary", exposure_summary)),
    );
    let mut exposed: Vec<Notice> = Vec::new();
    assert(exposed.deep_view() =~= Seq::empty());
    warn_plainly(exposure_warnings, &mut exposed);
    assert(exposed.deep_view() =~= exposure_warnings.deep_view().map_values(
        |w: Seq<char>| plain(w),
    ));
    append_checks(&mut out, warn_checks(exposed));
    assert(out.deep_view() =~= configuration_results(
        mode,
        all,
        exposure_summary@,
        exposure_warnings.deep_view(),
    ));
    out
}

fn warn_checks(messages: Vec<Notice>) -> (r: Vec<CheckResult<Notice>>)
    ensures
        r.deep_view() == as_warnings(messages.deep_view()),
{
    let ghost all = messages.deep_view();
    let mut rest = messages;
    let mut backward: Vec<CheckResult<Notice>> = Vec::new();
    while rest.len() > 0
        invariant
            rest@.len() + backward@.len() == all.len(),
            forall|k: int| 0 <= k < rest@.len() ==> (#[trigger] rest@[k])@ == all[k],
            forall|k: int|
                0 <= k < backward@.len() ==> (#[trigger] backward@[k])@ == CheckResult::Warn(
                    all[all.len() - 1 - k],
                ),
        decreases rest@.len(),
    {
        let ghost n = rest@.len();
        match rest.pop() {
            Some(message) => {
                assert(message@ == all[n - 1]);
                backward.push(CheckResult::Warn(message));
            },
            None => {},
        }
    }
    let mut out: Vec<CheckResult<Notice>> = Vec::new();
    while backward.len() > 0
        invariant
            out@.len() + backward@.len() == all.len(),
            forall|k: int|
                0 <= k < out@.len() ==> (#[trigger] out@[k])@ == CheckResult::Warn(all[k]),
            forall|k: int|
                0 <= k < backward@.len() ==> (#[trigger] backward@[k])@ == CheckResult::Warn(
                    all[all.len() - 1 - k],
                ),
        decreases backward@.len(),
    {
        let ghost n = backward@.len();
        match backward.pop() {
            Some(result) => {
                assert(result@ == CheckResult::Warn(all[all.len() - n]));
                out.push(result);
            },
            None => {},
        }
    }
    assert(out.deep_view() =~= as_warnings(all));
    out
}

/// The checks of the state directory.
pub open spec fn state_results(exists: bool, mode: Option<u32>, path: Seq<char>) -> Seq<
    CheckResult<NoticeView>,
> {
    if exists {
        seq![CheckResult::Pass(note("doctor.state.exists"@))] + permission_result(
            mode,
            "state directory"@,
            "perms.dir_warn"@,
            "perms.dir_ok"@,
        )
    } else {
        seq![CheckResult::Warn(note_with("doctor.state.missing"@, "path"@, path))]
    }
}

/// The checks of the state directory.
pub fn state_checks(exists: bool, mode: Option<u32>, path: &str) -> (r: Vec<CheckResult<Notice>>)
    ensures
        r.deep_view() == state_results(exists, mode, path@),
{
    let mut out: Vec<CheckResult<Notice>> = Vec::new();
    assert(out.deep_view() =~= Seq::empty());
    if exists {
        check(&mut out, CheckResult::Pass(Notice::new("doctor.state.exists")));
        append_checks(&mut out, check_dir_permissions(mode, "state directory"));
    } else {
        check(&mut out, CheckResult::Warn(Notice::with("doctor.state.missing", "path", path)));
    }
    assert(out.deep_view() =~= state_results(exists, mode, path@));
    out
}

/// How the session database answered.
#[derive(Debug)]
pub enum DatabaseProbe {
    Missing,
    Healthy,
    Broken(String),
}

/// The checks of the session database.
pub open spec fn database_results(probe: DatabaseProbe, mode: Option<u32>) -> Seq<
    CheckResult<NoticeView>,
> {
    let permissions = permission_result(
        mode,
        "sessions.db"@,
        "perms.file_warn"@,
        "perms.file_ok"@,
    );
    match probe {
        DatabaseProbe::Missing => seq![CheckResult::Info(note("doctor.db.missing"@))],
        DatabaseProbe::Healthy => seq![CheckResult::Pass(note("doctor.db.valid"@))] + permissions,
        DatabaseProbe::Broken(problem) => seq![
            CheckResult::Fail(note_with("doctor.db.error"@, "error"@, problem@)),
        ] + permissions,
    }
}

/// The checks of the session database.
pub fn database_checks(probe: &DatabaseProbe, mode: Option<u32>) -> (r: Vec<CheckResult<Notice>>)
    ensures
        r.deep_view() == database_results(*probe, mode),
{
    let mut out: Vec<CheckResult<Notice>> = Vec::new();
    assert(out.deep_view() =~= Seq::empty());
    match probe {
        DatabaseProbe::Missing => {
            check(&mut out, CheckResult::Info(Notice::new("doctor.db.missing")));
        },
        DatabaseProbe::Healthy => {
            check(&mut out, CheckResult::Pass(Notice::new("doctor.db.valid")));
            append_checks(&mut out, check_file_permissions(mode, "sessions.db"));
        },
        DatabaseProbe::Broken(problem) => {
            check(
                &mut out,
                CheckResult::Fail(Notice::with("doctor.db.error", "error", problem.as_str())),
            );
            append_checks(&mut out, check_file_permissions(mode, "sessions.db"));
        },
    }
    assert(out.deep_view() =~= database_results(*probe, mode));
    out
}

/// Whether the gateway's port could be bound.
#[derive(Debug)]
pub enum PortProbe {
    Free,
    InUse,
    Unknown(String),
}

/// The check of the gateway's port.
pub open spec fn port_result(port: u16, probe: PortProbe) -> CheckResult<NoticeView> {
    let text = decimal(port as nat);
    match probe {
        PortProbe::Free => CheckResult::Pass(note_with("doctor.port.available"@, "port"@, text)),
        PortProbe::InUse => CheckResult::Warn(note_with("doctor.port.in_use"@, "port"@, text)),
        PortProbe::Unknown(problem) => CheckResult::Warn(
            note_with("doctor.port.check_error"@, "port"@, text).and("error"@, problem@),
        ),
    }
}

/// The check of the gateway's port.
pub fn port_check(port: u16, probe: &PortProbe) -> (r: CheckResult<Notice>)
    ensures
        r@ == port_result(port, *probe),
{
    let text = decimal_of(port as u64);
    match probe {
        PortProbe::Free => CheckResult::Pass(
            Notice::with("doctor.port.available", "port", text.as_str()),
        ),
        PortProbe::InUse => CheckResult::Warn(
            Notice::with("doctor.port.in_use", "port", text.as_str()),
        ),
        PortProbe::Unknown(problem) => CheckResult::Warn(
            Notice::with("doctor.port.check_error", "port", text.as_str()).and(
                "error",
                problem.as_str(),
            ),
        ),
    }
}

/// Where a provider is, where nothing else is said; empty where that is
/// unknown.
pub open spec fn provider_url(provider: ProviderConfig) -> Seq<char> {
    match provider.base_url {
        Some(url) => url@,
        None => if provider.api@ == "openai"@ {
            "https://api.openai.com"@
        } else if provider.api@ == "anthropic"@ {
            "https://api.anthropic.com"@
        } else {
            ""@
        },
    }
}

/// True when the key of a provider is in the environment.
pub open spec fn provider_has_key(provider: ProviderConfig, vars: Map<Seq<char>, String>) -> bool {
    match provider.api_key_ref {
        Some(env) => env_set(vars, env@),
        None => false,
    }
}

/// The check of a provider's key.
pub open spec fn provider_standing(
    provider: ProviderConfig,
    vars: Map<Seq<char>, String>,
) -> CheckResult<NoticeView> {
    if provider_has_key(provider, vars) {
        CheckResult::Pass(
            note_with("doctor.provider.ok"@, "id"@, provider.id@).and("api"@, provider.api@).and(
                "count"@,
                decimal(provider.models@.len()),
            ),
        )
    } else {
        CheckResult::Warn(
            note_with("doctor.provider.no_key"@, "id"@, provider.id@).and("api"@, provider.api@),
        )
    }
}

/// Where to try to reach a provider. One without a key is not tried.
pub open spec fn provider_probe(
    provider: ProviderConfig,
    vars: Map<Seq<char>, String>,
) -> Option<Seq<char>> {
    if provider_has_key(provider, vars) && provider_url(provider).len() > 0 {
        Some(provider_url(provider))
    } else {
        None
    }
}

/// The check of a provider, and where to try to reach it. A provider without a
/// key is not tried.
pub fn provider_check(provider: &ProviderConfig, vars: &Environment) -> (r: (
    CheckResult<Notice>,
    Option<String>,
))
    requires
        vars.wf(),
    ensures
        r.0@ == provider_standing(*provider, vars@),
        r.1.deep_view() == provider_probe(*provider, vars@),
{
    let has_key = match &provider.api_key_ref {
        Some(env) => has_env(vars, env.as_str()),
        None => false,
    };
    if !has_key {
        let message = Notice::with("doctor.provider.no_key", "id", provider.id.as_str()).and(
            "api",
            provider.api.as_str(),
        );
        return (CheckResult::Warn(message), None);
    }
    let message = Notice::with("doctor.provider.ok", "id", provider.id.as_str()).and(
        "api",
        provider.api.as_str(),
    ).and("count", decimal_of(provider.models.len() as u64).as_str());
    let url = match &provider.base_url {
        Some(url) => url.as_str(),
        None => if str_eq(provider.api.as_str(), "openai") {
            "https://api.openai.com"
        } else if str_eq(provider.api.as_str(), "anthropic") {
            "https://api.anthropic.com"
        } else {
            ""
        },
    };
    let probe = if url.unicode_len() == 0 {
        None
    } else {
        Some(url.to_owned())
    };
    (CheckResult::Pass(message), probe)
}

/// The check of a provider that was tried.
pub open spec fn reach_result(
    url: Seq<char>,
    outcome: Result<(), String>,
) -> CheckResult<NoticeView> {
    match outcome {
        Ok(_) => CheckResult::Pass(note_with("doctor.provider.reachable"@, "url"@, url)),
        Err(problem) => CheckResult::Warn(
            note_with("doctor.provider.unreachable"@, "url"@, url).and("error"@, problem@),
        ),
    }
}

/// The check of a provider that was tried.
pub fn reach_check(url: &str, outcome: &Result<(), String>) -> (r: CheckResult<Notice>)
    ensures
        r@ == reach_result(url@, *outcome),
{
    match outcome {
        Ok(_) => CheckResult::Pass(Notice::with("doctor.provider.reachable", "url", url)),
        Err(problem) => CheckResult::Warn(
            Notice::with("doctor.provider.unreachable", "url", url).and("error", problem.as_str()),
        ),
    }
}

/// The checks of one provider, given how it answered where it was tried.
pub open spec fn provider_result(
    provider: ProviderConfig,
    vars: Map<Seq<char>, String>,
    outcome: Result<(), String>,
) -> Seq<CheckResult<NoticeView>> {
    match provider_probe(provider, vars) {
        Some(url) => seq![provider_standing(provider, vars), reach_result(url, outcome)],
        None => seq![provider_standing(provider, vars)],
    }
}

/// The checks of the first `n` providers.
pub open spec fn provider_results(
    providers: Seq<ProviderConfig>,
    vars: Map<Seq<char>, String>,
    reached: Seq<Result<(), String>>,
    n: nat,
) -> Seq<CheckResult<NoticeView>>
    decreases n,
{
    if n == 0 {
        Seq::empty()
    } else {
        provider_results(providers, vars, reached, (n - 1) as nat) + provider_result(
            providers[n - 1],
            vars,
            reached[n - 1],
        )
    }
}

/// The checks of the providers.
pub open spec fn providers_section(
    providers: Seq<ProviderConfig>,
    vars: Map<Seq<char>, String>,
    reached: Seq<Result<(), String>>,
) -> Seq<CheckResult<NoticeView>> {
    if providers.len() == 0 {
        seq![CheckResult::Warn(note("doctor.provider.none"@))]
    } else {
        provider_results(providers, vars, reached, providers.len())
    }
}

/// The checks of the providers. `reached` tells how each of them answered; what
/// it says of one that is not tried does not count.
pub fn provider_checks(
    config: &FrankClawConfig,
    vars: &Environment,
    reached: &Vec<Result<(), String>>,
) -> (r: Vec<CheckResult<Notice>>)
    requires
        vars.wf(),
        reached@.len() == config.models.providers@.len(),
    ensures
        r.deep_view() == providers_section(config.models.providers@, vars@, reached@),
{
    let providers = &config.models.providers;
    let mut out: Vec<CheckResult<Notice>> = Vec::new();
    assert(out.deep_view() =~= Seq::empty());
    if providers.len() == 0 {
        check(&mut out, CheckResult::Warn(Notice::new("doctor.provider.none")));
        assert(out.deep_view() =~= seq![CheckResult::Warn(note("doctor.provider.none"@))]);
        return out;
    }
    let mut i: usize = 0;
    while i < providers.len()
        invariant
            i <= providers@.len(),
            vars.wf(),
            reached@.len() == providers@.len(),
            out.deep_view() == provider_results(providers@, vars@, reached@, i as nat),
        decreases providers@.len() - i,
    {
        let ghost before = out.deep_view();
        let (standing, probe) = provider_check(&providers[i], vars);
        check(&mut out, standing);
        if let Some(url) = probe {
            check(&mut out, reach_check(url.as_str(), &reached[i]));
        }
        assert(out.deep_view() =~= before + provider_result(
            providers@[i as int],
            vars@,
            reached@[i as int],
        ));
        i = i + 1;
    }
    out
}

/// The check of one channel.
pub open spec fn channel_result() -> spec_fn((ChannelId, ChannelConfig)) -> Seq<
    CheckResult<NoticeView>,
> {
    |c: (ChannelId, ChannelConfig)|
        if c.1.enabled {
            seq![
                CheckResult::Pass(
                    note_with("doctor.channel.enabled"@, "id"@, c.0@).and(
                        "count"@,
                        decimal(c.1.accounts@.len()),
                    ),
                ),
            ]
        } else {
            seq![CheckResult::Info(note_with("doctor.channel.disabled"@, "id"@, c.0@))]
        }
}

/// The checks of the channels.
pub open spec fn channels_section(channels: Seq<(ChannelId, ChannelConfig)>) -> Seq<
    CheckResult<NoticeView>,
> {
    if channels.len() == 0 {
        seq![CheckResult::Warn(note("doctor.channel.none"@))]
    } else {
        flat(channels, channel_result())
    }
}

/// The checks of the channels.
pub fn channel_checks(config: &FrankClawConfig) -> (r: Vec<CheckResult<Notice>>)
    ensures
        r.deep_view() == channels_section(config.channels@),
{
    let mut out: Vec<CheckResult<Notice>> = Vec::new();
    assert(out.deep_view() =~= Seq::empty());
    let channels = &config.channels;
    if channels.len() == 0 {
        check(&mut out, CheckResult::Warn(Notice::new("doctor.channel.none")));
        assert(out.deep_view() =~= seq![CheckResult::Warn(note("doctor.channel.none"@))]);
        return out;
    }
    let ghost each = channel_result();
    let mut i: usize = 0;
    assert(out.deep_view() =~= flat(channels@.take(0), each));
    while i < channels.len()
        invariant
            i <= channels@.len(),
            each == channel_result(),
            out.deep_view() == flat(channels@.take(i as int), each),
        decreases channels@.len() - i,
    {
        proof {
            lemma_flat_next(channels@, each, i as int);
        }
        let id = channels[i].0.as_str();
        if channels[i].1.enabled {
            let count = decimal_of(channels[i].1.accounts.len() as u64);
            check(
                &mut out,
                CheckResult::Pass(
                    Notice::with("doctor.channel.enabled", "id", id).and("count", count.as_str()),
                ),
            );
        } else {
            check(
                &mut out,
                CheckResult::Info(Notice::with("doctor.channel.disabled", "id", id)),
            );
        }
        i = i + 1;
    }
    assert(channels@.take(i as int) =~= channels@);
    out
}

/// The check of encryption.
pub open spec fn encryption_result(encrypt: bool, has_key: bool) -> CheckResult<NoticeView> {
    if !encrypt {
        CheckResult::Warn(note("doctor.security.encrypt_off"@))
    } else if has_key {
        CheckResult::Pass(note("doctor.security.encrypt_ok"@))
    } else {
        CheckResult::Warn(note("doctor.security.encrypt_no_key"@))
    }
}

/// The check of authentication.
pub open spec fn auth_result(auth: AuthMode) -> CheckResult<NoticeView> {
    match auth {
        AuthMode::Disabled => CheckResult::Warn(note("doctor.security.auth_none"@)),
        AuthMode::Token { .. } => CheckResult::Pass(note("doctor.security.auth_token"@)),
        AuthMode::Password { .. } => CheckResult::Pass(note("doctor.security.auth_password"@)),
        AuthMode::TrustedProxy { .. } => CheckResult::Pass(note("doctor.security.auth_proxy"@)),
        AuthMode::Tailscale => CheckResult::Pass(note("doctor.security.auth_tailscale"@)),
    }
}

/// The checks of encryption and authentication.
pub open spec fn security_section(config: FrankClawConfig, vars: Map<Seq<char>, String>) -> Seq<
    CheckResult<NoticeView>,
> {
    seq![
        encryption_result(
            config.security.encrypt_sessions,
            master_key(vars) is Ok && master_key(vars)->Ok_0 is Some,
        ),
        auth_result(config.gateway.auth),
    ]
}

/// The checks of encryption and authentication. A bad master key where one is
/// needed ends them.
pub fn security_checks(config: &FrankClawConfig, vars: &Environment) -> (r: Result<
    Vec<CheckResult<Notice>>,
    Notice,
>)
    requires
        vars.wf(),
    ensures
        if config.security.encrypt_sessions && master_key(vars@) is Err {
            r is Err && r->Err_0@ == plain(key_problem_text(master_key(vars@)->Err_0))
        } else {
            r is Ok && r->Ok_0.deep_view() == security_section(*config, vars@)
        },
{
    let mut out: Vec<CheckResult<Notice>> = Vec::new();
    let encryption = if config.security.encrypt_sessions {
        match load_master_key_from_env(vars) {
            Err(problem) => {
                return Err(Notice::plain(problem.message()));
            },
            Ok(Some(_)) => CheckResult::Pass(Notice::new("doctor.security.encrypt_ok")),
            Ok(None) => CheckResult::Warn(Notice::new("doctor.security.encrypt_no_key")),
        }
    } else {
        CheckResult::Warn(Notice::new("doctor.security.encrypt_off"))
    };
    out.push(encryption);
    let auth = match &config.gateway.auth {
        AuthMode::Disabled => CheckResult::Warn(Notice::new("doctor.security.auth_none")),
        AuthMode::Token { .. } => CheckResult::Pass(Notice::new("doctor.security.auth_token")),
        AuthMode::Password { .. } => CheckResult::Pass(
            Notice::new("doctor.security.auth_password"),
        ),
        AuthMode::TrustedProxy { .. } => CheckResult::Pass(
            Notice::new("doctor.security.auth_proxy"),
        ),
        AuthMode::Tailscale => CheckResult::Pass(Notice::new("doctor.security.auth_tailscale")),
    };
    out.push(auth);
    assert(out.deep_view() =~= seq![encryption@, auth@]);
    Ok(out)
}

/// The number of checks that failed.
pub open spec fn fails(checks: Seq<CheckResult<NoticeView>>) -> nat {
    checks.filter(|c: CheckResult<NoticeView>| c is Fail).len()
}

/// The number of checks that gave a warning.
pub open spec fn warns(checks: Seq<CheckResult<NoticeView>>) -> nat {
    checks.filter(|c: CheckResult<NoticeView>| c is Warn).len()
}

/// What the checks come to.
pub open spec fn summary_of(checks: Seq<CheckResult<NoticeView>>) -> NoticeView {
    if fails(checks) > 0 {
        note_with("doctor.summary.critical"@, "fails"@, decimal(fails(checks))).and(
            "warns"@,
            decimal(warns(checks)),
        )
    } else if warns(checks) > 0 {
        note_with("doctor.summary.warnings"@, "warns"@, decimal(warns(checks)))
    } else {
        note("doctor.summary.ok"@)
    }
}

/// What the checks come to.
pub fn doctor_summary(checks: &Vec<&CheckResult<Notice>>) -> (r: Notice)
    ensures
        r@ == summary_of(checks.deep_view()),
{
    let ghost all = checks.deep_view();
    let mut failed: usize = 0;
    let mut warned: usize = 0;
    let mut i: usize = 0;
    reveal(Seq::filter);
    while i < checks.len()
        invariant
            i <= checks@.len(),
            all == checks.deep_view(),
            failed <= i,
            warned <= i,
            failed == fails(all.take(i as int)),
            warned == warns(all.take(i as int)),
        decreases checks@.len() - i,
    {
        proof {
            reveal(Seq::filter);
            let front = all.take(i + 1);
            assert(front.last() == checks@[i as int]@);
            assert(front.drop_last() =~= all.take(i as int));
        }
        if checks[i].is_fail() {
            failed = failed + 1;
        } else if checks[i].is_warn() {
            warned = warned + 1;
        }
        i = i + 1;
    }
    assert(all.take(i as int) =~= all);
    if failed > 0 {
        Notice::with("doctor.summary.critical", "fails", decimal_of(failed as u64).as_str()).and(
            "warns",
            decimal_of(warned as u64).as_str(),
        )
    } else if warned > 0 {
        Notice::with("doctor.summary.warnings", "warns", decimal_of(warned as u64).as_str())
    } else {
        Notice::new("doctor.summary.ok")
    }
}

/// A part of a report: its title and its checks.
#[derive(Debug)]
pub struct Section {
    pub title: Notice,
    pub checks: Vec<CheckResult<Notice>>,
}

/// What a part of a report says.
pub struct SectionView {
    pub title: NoticeView,
    pub checks: Seq<CheckResult<NoticeView>>,
}

impl View for Section {
    type V = SectionView;

    open spec fn view(&self) -> SectionView {
        SectionView { title: self.title@, checks: self.checks.deep_view() }
    }
}

impl DeepView for Section {
    type V = SectionView;

    open spec fn deep_view(&self) -> SectionView {
        self@
    }
}

/// A report on an installation: its parts, and what they come to. An error ends
/// it early.
#[derive(Debug)]
pub struct DoctorReport {
    pub sections: Vec<Section>,
    pub end: Result<Notice, Notice>,
}

/// What a report says.
pub struct ReportView {
    pub sections: Seq<SectionView>,
    pub end: Result<NoticeView, NoticeView>,
}

impl View for DoctorReport {
    type V = ReportView;

    open spec fn view(&self) -> ReportView {
        ReportView {
            sections: self.sections.deep_view(),
            end: match self.end {
                Ok(summary) => Ok(summary@),
                Err(problem) => Err(problem@),
            },
        }
    }
}

/// The checks of a part.
pub open spec fn section_checks() -> spec_fn(SectionView) -> Seq<CheckResult<NoticeView>> {
    |s: SectionView| s.checks
}

/// The checks of all parts, in order.
pub open spec fn all_checks(sections: Seq<SectionView>) -> Seq<CheckResult<NoticeView>> {
    flat(sections, section_checks())
}

fn gather(sections: &Vec<Section>) -> (r: Vec<&CheckResult<Notice>>)
    ensures
        r.deep_view() == all_checks(sections.deep_view()),
{
    let ghost all = sections.deep_view();
    let mut out: Vec<&CheckResult<Notice>> = Vec::new();
    let mut i: usize = 0;
    assert(out.deep_view() =~= all_checks(all.take(0)));
    while i < sections.len()
        invariant
            i <= sections@.len(),
            all == sections.deep_view(),
            out.deep_view() == all_checks(all.take(i as int)),
        decreases sections@.len() - i,
    {
        let checks = &sections[i].checks;
        let ghost before = out.deep_view();
        let mut j: usize = 0;
        assert(before + checks.deep_view().take(0) =~= before);
        while j < checks.len()
            invariant
                j <= checks@.len(),
                out.deep_view() == before + checks.deep_view().take(j as int),
            decreases checks@.len() - j,
        {
            let ghost so_far = out.deep_view();
            out.push(&checks[j]);
            assert(out.deep_view() =~= so_far.push(checks@[j as int]@));
            assert(out.deep_view() =~= before + checks.deep_view().take(j + 1));
            j = j + 1;
        }
        proof {
            assert(checks.deep_view().take(j as int) =~= checks.deep_view());
            lemma_flat_next(all, section_checks(), i as int);
        }
        i = i + 1;
    }
    assert(all.take(i as int) =~= all);
    out
}

/// How exposed the gateway is.
#[derive(Debug)]
pub struct Exposure {
    pub summary: String,
    pub warnings: Vec<String>,
}

/// The system that a report is made on.
#[derive(Debug)]
pub struct SystemFacts {
    pub version: String,
    pub rust: String,
    pub os: String,
    pub arch: String,
    pub state_dir: String,
}

/// What was seen of an installation: who can read its files, how the database,
/// the port and each provider answered, how exposed the gateway is, and what is
/// to be warned of in the browser. A mode is there where the file is.
#[derive(Debug)]
pub struct Observed {
    pub config_mode: Option<u32>,
    pub state_exists: bool,
    pub state_mode: Option<u32>,
    pub database: DatabaseProbe,
    pub database_mode: Option<u32>,
    pub port: PortProbe,
    pub reached: Vec<Result<(), String>>,
    pub exposure: Result<Exposure, String>,
    pub browser: Vec<Notice>,
}

/// The part on the system.
pub open spec fn system_section(facts: SystemFacts) -> SectionView {
    SectionView {
        title: note("doctor.section.system"@),
        checks: system_results(facts.version@, facts.rust@, facts.os@, facts.arch@, facts.state_dir@),
    }
}

fn system_part(facts: &SystemFacts) -> (r: Section)
    ensures
        r@ == system_section(*facts),
{
    Section {
        title: Notice::new("doctor.section.system"),
        checks: system_checks(
            facts.version.as_str(),
            facts.rust.as_str(),
            facts.os.as_str(),
            facts.arch.as_str(),
            facts.state_dir.as_str(),
        ),
    }
}

fn add_part(sections: &mut Vec<Section>, title: &'static str, checks: Vec<CheckResult<Notice>>)
    ensures
        final(sections).deep_view() == old(sections).deep_view().push(
            SectionView { title: note(title@), checks: checks.deep_view() },
        ),
{
    let ghost before = sections.deep_view();
    let part = Section { title: Notice::new(title), checks };
    let ghost added = part@;
    sections.push(part);
    assert(sections.deep_view() =~= before.push(added));
}

/// Why there is no configuration to check.
#[derive(Debug)]
pub enum ConfigProblem {
    /// It could not be loaded.
    Unreadable(String),
    /// It breaks a rule.
    Invalid(String),
}

/// The report on an installation without a configuration to check.
pub open spec fn report_without_config(facts: SystemFacts, problem: ConfigProblem) -> ReportView {
    let failure = match problem {
        ConfigProblem::Unreadable(error) => note_with(
            "doctor.config.load_failed"@,
            "error"@,
            error@,
        ),
        ConfigProblem::Invalid(error) => note_with(
            "doctor.config.validation_failed"@,
            "error"@,
            error@,
        ),
    };
    ReportView {
        sections: seq![
            system_section(facts),
            SectionView {
                title: note("doctor.section.configuration"@),
                checks: seq![CheckResult::Fail(failure)],
            },
        ],
        end: Ok(note("doctor.config.critical_issues"@)),
    }
}

/// The report on an installation without a configuration to check.
pub fn run_doctor_without_config(facts: &SystemFacts, problem: &ConfigProblem) -> (r: DoctorReport)
    ensures
        r@ == report_without_config(*facts, *problem),
{
    let failure = match problem {
        ConfigProblem::Unreadable(error) => Notice::with(
            "doctor.config.load_failed",
            "error",
            error.as_str(),
        ),
        ConfigProblem::Invalid(error) => Notice::with(
            "doctor.config.validation_failed",
            "error",
            error.as_str(),
        ),
    };
    let mut checks: Vec<CheckResult<Notice>> = Vec::new();
    checks.push(CheckResult::Fail(failure));
    assert(checks.deep_view() =~= seq![CheckResult::Fail(failure@)]);
    let mut sections: Vec<Section> = Vec::new();
    sections.push(system_part(facts));
    assert(sections.deep_view() =~= seq![system_section(*facts)]);
    add_part(&mut sections, "doctor.section.configuration", checks);
    let r = DoctorReport { sections, end: Ok(Notice::new("doctor.config.critical_issues")) };
    assert(r@.sections =~= report_without_config(*facts, *problem).sections);
    r
}

/// The warnings of an assessment of exposure.
pub open spec fn exposure_warnings(exposure: Result<Exposure, String>) -> Result<
    Seq<Seq<char>>,
    Seq<char>,
> {
    match exposure {
        Ok(e) => Ok(e.warnings.deep_view()),
        Err(problem) => Err(problem@),
    }
}

/// The parts of the report on a valid configuration.
pub open spec fn doctor_sections(
    facts: SystemFacts,
    config: FrankClawConfig,
    vars: Map<Seq<char>, String>,
    seen: Observed,
) -> Seq<SectionView> {
    seq![
        system_section(facts),
        SectionView {
            title: note("doctor.section.configuration"@),
            checks: configuration_results(
                seen.config_mode,
                doctor_warnings(
                    config,
                    vars,
                    facts.state_dir@,
                    seen.state_exists,
                    seen.exposure->Ok_0.warnings.deep_view(),
                    seen.browser.deep_view(),
                ),
                seen.exposure->Ok_0.summary@,
                seen.exposure->Ok_0.warnings.deep_view(),
            ),
        },
        SectionView {
            title: note("doctor.section.state_directory"@),
            checks: state_results(seen.state_exists, seen.state_mode, facts.state_dir@),
        },
        SectionView {
            title: note("doctor.section.database"@),
            checks: database_results(seen.database, seen.database_mode),
        },
        SectionView {
            title: note("doctor.section.network"@),
            checks: seq![port_result(config.gateway.port, seen.port)],
        },
        SectionView {
            title: note("doctor.section.providers"@),
            checks: providers_section(config.models.providers@, vars, seen.reached@),
        },
        SectionView {
            title: note("doctor.section.channels"@),
            checks: channels_section(config.channels@),
        },
        SectionView {
            title: note("doctor.section.security"@),
            checks: security_section(config, vars),
        },
    ]
}

/// The report on an installation whose configuration is valid. What keeps its
/// warnings from being collected ends it after the first part.
pub open spec fn doctor_report(
    facts: SystemFacts,
    config: FrankClawConfig,
    vars: Map<Seq<char>, String>,
    seen: Observed,
) -> ReportView {
    match doctor_failure(config, vars, exposure_warnings(seen.exposure)) {
        Some(problem) => ReportView { sections: seq![system_section(facts)], end: Err(problem) },
        None => {
            let sections = doctor_sections(facts, config, vars, seen);
            ReportView { sections, end: Ok(summary_of(all_checks(sections))) }
        },
    }
}

fn copy_texts(texts: &Vec<String>) -> (r: Vec<String>)
    ensures
        r.deep_view() == texts.deep_view(),
{
    let mut out: Vec<String> = Vec::new();
    let mut i: usize = 0;
    while i < texts.len()
        invariant
            i <= texts@.len(),
            out@.len() == i,
            forall|k: int| 0 <= k < i ==> (#[trigger] out@[k])@ == texts@[k]@,
        decreases texts@.len() - i,
    {
        out.push(texts[i].clone());
        i = i + 1;
    }
    assert(out.deep_view() =~= texts.deep_view());
    out
}

/// The report on an installation whose configuration is valid.
pub fn run_doctor(
    facts: &SystemFacts,
    config: &FrankClawConfig,
    vars: &Environment,
    seen: Observed,
) -> (r: DoctorReport)
    requires
        vars.wf(),
        seen.reached@.len() == config.models.providers@.len(),
    ensures
        r@ == doctor_report(*facts, *config, vars@, seen),
{
    let ghost expected = doctor_report(*facts, *config, vars@, seen);
    let mut sections: Vec<Section> = Vec::new();
    sections.push(system_part(facts));
    assert(sections.deep_view() =~= seq![system_section(*facts)]);
    let exposed = match &seen.exposure {
        Ok(exposure) => Ok(copy_texts(&exposure.warnings)),
        Err(problem) => Err(problem.clone()),
    };
    let warnings = match collect_doctor_warnings(
        config,
        vars,
        facts.state_dir.as_str(),
        seen.state_exists,
        exposed,
        seen.browser,
    ) {
        Ok(warnings) => warnings,
        Err(problem) => {
            return DoctorReport { sections, end: Err(problem) };
        },
    };
    let (summary, exposure) = match &seen.exposure {
        Ok(exposure) => (exposure.summary.as_str(), &exposure.warnings),
        Err(problem) => {
            return DoctorReport { sections, end: Err(Notice::plain(problem.as_str())) };
        },
    };
    add_part(
        &mut sections,
        "doctor.section.configuration",
        configuration_checks(seen.config_mode, warnings, summary, exposure),
    );
    add_part(
        &mut sections,
        "doctor.section.state_directory",
        state_checks(seen.state_exists, seen.state_mode, facts.state_dir.as_str()),
    );
    add_part(
        &mut sections,
        "doctor.section.database",
        database_checks(&seen.database, seen.database_mode),
    );
    let mut network: Vec<CheckResult<Notice>> = Vec::new();
    assert(network.deep_view() =~= Seq::empty());
    check(&mut network, port_check(config.gateway.port, &seen.port));
    assert(network.deep_view() =~= seq![port_result(config.gateway.port, seen.port)]);
    add_part(&mut sections, "doctor.section.network", network);
    add_part(
        &mut sections,
        "doctor.section.providers",
        provider_checks(config, vars, &seen.reached),
    );
    add_part(&mut sections, "doctor.section.channels", channel_checks(config));
    match security_checks(config, vars) {
        Ok(checks) => {
            add_part(&mut sections, "doctor.section.security", checks);
        },
        Err(problem) => {
            return DoctorReport { sections, end: Err(problem) };
        },
    }
    assert(sections.deep_view() =~= expected.sections);
    let summary = doctor_summary(&gather(&sections));
    DoctorReport { sections, end: Ok(summary) }
}

} // verus!
