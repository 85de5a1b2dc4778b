//! The messaging channels: how each platform's messages look, and which
//! channels a configuration turns on.

pub mod discord;
pub mod inbound_media;
pub mod media_text;
pub mod slack;
pub mod socket;
pub mod web;
pub mod whatsapp;

use crate::channels::web::WebChannel;
use crate::channels::whatsapp::WhatsAppChannel;
use crate::config::{ChannelConfig, FrankClawConfig};
use crate::error::{config_invalid, ErrorView, FrankClawError};
use crate::json::{JsonValue, JsonView};
use crate::message::OutboundMessage;
use crate::text::{blank, cat2, cat3, cat5, is_blank, str_eq, trimmed};
use crate::text_map::TextMap;
use crate::types::ChannelId;
use vstd::prelude::*;

verus! {

/// The environment: the values of its variables.
pub type Environment = TextMap<String>;

/// A channel with the credentials that it needs.
#[derive(Debug)]
pub enum LoadedChannel {
    Web,
    Telegram { bot_token: String },
    Discord { bot_token: String },
    Signal { base_url: String, account_id: Option<String> },
    WhatsApp {
        access_token: String,
        phone_number_id: String,
        verify_token: String,
        app_secret: Option<String>,
    },
    Slack { app_token: String, bot_token: String },
}

/// What a loaded channel is.
pub enum LoadedView {
    Web,
    Telegram(Seq<char>),
    Discord(Seq<char>),
    Signal(Seq<char>, Option<Seq<char>>),
    WhatsApp(Seq<char>, Seq<char>, Seq<char>, Option<Seq<char>>),
    Slack(Seq<char>, Seq<char>),
}

impl View for LoadedChannel {
    type V = LoadedView;

    open spec fn view(&self) -> LoadedView {
        match self {
            LoadedChannel::Web => LoadedView::Web,
            LoadedChannel::Telegram { bot_token } => LoadedView::Telegram(bot_token@),
            LoadedChannel::Discord { bot_token } => LoadedView::Discord(bot_token@),
            LoadedChannel::Signal { base_url, account_id } => LoadedView::Signal(
                base_url@,
                account_id.deep_view(),
            ),
            LoadedChannel::WhatsApp { access_token, phone_number_id, verify_token, app_secret }
                => LoadedView::WhatsApp(
                access_token@,
                phone_number_id@,
                verify_token@,
                app_secret.deep_view(),
            ),
            LoadedChannel::Slack { app_token, bot_token } => LoadedView::Slack(
                app_token@,
                bot_token@,
            ),
        }
    }
}

impl LoadedChannel {
    /// The channel's name for people.
    pub open spec fn label_text(self) -> Seq<char> {
        match self {
            LoadedChannel::Web => "Web Chat"@,
            LoadedChannel::Telegram { .. } => "Telegram"@,
            LoadedChannel::Discord { .. } => "Discord"@,
            LoadedChannel::Signal { .. } => "Signal"@,
            LoadedChannel::WhatsApp { .. } => "WhatsApp"@,
            LoadedChannel::Slack { .. } => "Slack"@,
        }
    }

    /// The channel's name for people.
    pub fn label(&self) -> (r: &'static str)
        ensures
            r@ == self.label_text(),
    {
        match self {
            LoadedChannel::Web => "Web Chat",
            LoadedChannel::Telegram { .. } => "Telegram",
            LoadedChannel::Discord { .. } => "Discord",
            LoadedChannel::Signal { .. } => "Signal",
            LoadedChannel::WhatsApp { .. } => "WhatsApp",
            LoadedChannel::Slack { .. } => "Slack",
        }
    }
}

/// The first of two texts of an account that is not blank, trimmed.
pub open spec fn inline_value(account: JsonView, keys: (Seq<char>, Seq<char>)) -> Option<
    Seq<char>,
> {
    if crate::config::filled(account.text_member(keys.0)) {
        Some(trimmed(account.text_member(keys.0)->0))
    } else if crate::config::filled(account.text_member(keys.1)) {
        Some(trimmed(account.text_member(keys.1)->0))
    } else {
        None
    }
}

fn filled_text(account: &JsonValue, key: &str) -> (r: Option<String>)
    ensures
        r.deep_view() == if crate::config::filled(account@.text_member(key@)) {
            Some(trimmed(account@.text_member(key@)->0))
        } else {
            None
        },
{
    match account.get_str(key) {
        Some(value) => {
            let value = value.trim();
            if value.is_empty() {
                None
            } else {
                Some(value.to_owned())
            }
        },
        None => None,
    }
}

fn resolve_inline_value(account: &JsonValue, keys: (&str, &str)) -> (r: Option<String>)
    ensures
        r.deep_view() == inline_value(account@, (keys.0@, keys.1@)),
{
    match filled_text(account, keys.0) {
        Some(value) => Some(value),
        None => filled_text(account, keys.1),
    }
}

/// The value of an environment variable that a channel refers to, or what is
/// wrong with the reference.
pub open spec fn env_value(
    vars: Map<Seq<char>, String>,
    name: Seq<char>,
    channel: Seq<char>,
    label: Seq<char>,
) -> Result<Seq<char>, ErrorView> {
    let env = trimmed(name);
    if env.len() == 0 {
        Err(
            ErrorView::ConfigValidation(
                "channel '"@ + channel + "' references an empty environment variable for "@
                    + label,
            ),
        )
    } else if !vars.dom().contains(env) {
        Err(
            ErrorView::ConfigValidation(
                "channel '"@ + channel + "' references missing environment variable '"@ + env
                    + "'"@,
            ),
        )
    } else if is_blank(vars[env]@) {
        Err(
            ErrorView::ConfigValidation(
                "channel '"@ + channel + "' environment variable '"@ + env + "' is empty"@,
            ),
        )
    } else {
        Ok(vars[env]@)
    }
}

/// True when the result is the text, or the error, that is expected.
pub open spec fn text_outcome(
    r: Result<String, FrankClawError>,
    expected: Result<Seq<char>, ErrorView>,
) -> bool {
    match expected {
        Ok(s) => r is Ok && r->Ok_0@ == s,
        Err(e) => r is Err && r->Err_0@ == e,
    }
}

fn resolve_env_value(vars: &Environment, env_name: &str, channel: &str, label: &str) -> (r: Result<
    String,
    FrankClawError,
>)
    requires
        vars.wf(),
    ensures
        text_outcome(r, env_value(vars@, env_name@, channel@, label@)),
{
    let env = env_name.trim();
    if env.is_empty() {
        return Err(
            config_invalid(
                cat2(
                    cat3(
                        "channel '",
                        channel,
                        "' references an empty environment variable for ",
                    ).as_str(),
                    label,
                ).as_str(),
            ),
        );
    }
    match vars.get(env) {
        Some(value) => if blank(value.as_str()) {
            Err(
                config_invalid(
                    cat5("channel '", channel, "' environment variable '", env, "' is empty").as_str(),
                ),
            )
        } else {
            Ok(value.clone())
        },
        None => Err(
            config_invalid(
                cat5(
                    "channel '",
                    channel,
                    "' references missing environment variable '",
                    env,
                    "'",
                ).as_str(),
            ),
        ),
    }
}

/// The environment variable that an account refers to: the first of two
/// references that is a text.
pub open spec fn env_reference(account: JsonView, keys: (Seq<char>, Seq<char>)) -> Option<
    Seq<char>,
> {
    if account.text_member(keys.0) is Some {
        account.text_member(keys.0)
    } else {
        account.text_member(keys.1)
    }
}

fn find_env_reference<'a>(account: &'a JsonValue, keys: (&str, &str)) -> (r: Option<&'a str>)
    ensures
        r is Some == env_reference(account@, (keys.0@, keys.1@)) is Some,
        r is Some ==> r->0@ == env_reference(account@, (keys.0@, keys.1@))->0,
{
    match account.get_str(keys.0) {
        Some(name) => Some(name),
        None => account.get_str(keys.1),
    }
}

/// A value of a channel: inline, by the reference of its account, or by the
/// variable that is named for it.
pub open spec fn channel_value(
    vars: Map<Seq<char>, String>,
    account: JsonView,
    inline: (Seq<char>, Seq<char>),
    env: (Seq<char>, Seq<char>),
    default_env: Seq<char>,
    channel: Seq<char>,
    label: Seq<char>,
) -> Result<Seq<char>, ErrorView> {
    match inline_value(account, inline) {
        Some(value) => Ok(value),
        None => match env_reference(account, env) {
            Some(name) => env_value(vars, name, channel, label),
            None => env_value(vars, default_env, channel, label),
        },
    }
}

fn resolve_channel_value(
    vars: &Environment,
    account: &JsonValue,
    inline: (&str, &str),
    env: (&str, &str),
    default_env: &str,
    channel: &str,
    label: &str,
) -> (r: Result<String, FrankClawError>)
    requires
        vars.wf(),
    ensures
        text_outcome(
            r,
            channel_value(
                vars@,
                account@,
                (inline.0@, inline.1@),
                (env.0@, env.1@),
                default_env@,
                channel@,
                label@,
            ),
        ),
{
    if let Some(value) = resolve_inline_value(account, inline) {
        return Ok(value);
    }
    match find_env_reference(account, env) {
        Some(name) => resolve_env_value(vars, name, channel, label),
        None => resolve_env_value(vars, default_env, channel, label),
    }
}

/// A value that a channel can do without.
pub open spec fn optional_value(
    vars: Map<Seq<char>, String>,
    account: JsonView,
    inline: (Seq<char>, Seq<char>),
    env: (Seq<char>, Seq<char>),
) -> Result<Option<Seq<char>>, ErrorView> {
    match inline_value(account, inline) {
        Some(value) => Ok(Some(value)),
        None => match env_reference(account, env) {
            Some(name) => match env_value(vars, name, "signal"@, "value"@) {
                Ok(value) => Ok(Some(value)),
                Err(e) => Err(e),
            },
            None => Ok(None),
        },
    }
}

fn resolve_optional_channel_value(
    vars: &Environment,
    account: &JsonValue,
    inline: (&str, &str),
    env: (&str, &str),
) -> (r: Result<Option<String>, FrankClawError>)
    requires
        vars.wf(),
    ensures
        match optional_value(vars@, account@, (inline.0@, inline.1@), (env.0@, env.1@)) {
            Ok(value) => r is Ok && r->Ok_0.deep_view() == value,
            Err(e) => r is Err && r->Err_0@ == e,
        },
{
    if let Some(value) = resolve_inline_value(account, inline) {
        return Ok(Some(value));
    }
    match find_env_reference(account, env) {
        Some(name) => match resolve_env_value(vars, name, "signal", "value") {
            Ok(value) => Ok(Some(value)),
            Err(e) => Err(e),
        },
        None => Ok(None),
    }
}

/// The Telegram or Discord bot token of an account.
pub open spec fn bot_token(
    vars: Map<Seq<char>, String>,
    account: JsonView,
    default_env: Seq<char>,
    channel: Seq<char>,
) -> Result<Seq<char>, ErrorView> {
    channel_value(
        vars,
        account,
        ("bot_token"@, "token"@),
        ("bot_token_env"@, "token_env"@),
        default_env,
        channel,
        "secret"@,
    )
}

/// The Signal channel of an account.
pub open spec fn signal_channel(vars: Map<Seq<char>, String>, account: JsonView) -> Result<
    LoadedView,
    ErrorView,
> {
    match channel_value(
        vars,
        account,
        ("base_url"@, "http_url"@),
        ("base_url_env"@, "http_url_env"@),
        "SIGNAL_BASE_URL"@,
        "signal"@,
        "base URL"@,
    ) {
        Ok(base_url) => match optional_value(
            vars,
            account,
            ("account"@, "signal_number"@),
            ("account_env"@, "signal_number_env"@),
        ) {
            Ok(account_id) => Ok(LoadedView::Signal(base_url, account_id)),
            Err(e) => Err(e),
        },
        Err(e) => Err(e),
    }
}

/// The WhatsApp channel of an account.
pub open spec fn whatsapp_channel(vars: Map<Seq<char>, String>, account: JsonView) -> Result<
    LoadedView,
    ErrorView,
> {
    let access_token = channel_value(
        vars,
        account,
        ("access_token"@, "token"@),
        ("access_token_env"@, "token_env"@),
        "WHATSAPP_ACCESS_TOKEN"@,
        "whatsapp"@,
        "secret"@,
    );
    let phone_number_id = channel_value(
        vars,
        account,
        ("phone_number_id"@, "phone_number_id"@),
        ("phone_number_id_env"@, "phone_number_id_env"@),
        "WHATSAPP_PHONE_NUMBER_ID"@,
        "whatsapp"@,
        "phone number id"@,
    );
    let verify_token = channel_value(
        vars,
        account,
        ("verify_token"@, "verify_token"@),
        ("verify_token_env"@, "verify_token_env"@),
        "WHATSAPP_VERIFY_TOKEN"@,
        "whatsapp"@,
        "verify token"@,
    );
    let app_secret = optional_value(
        vars,
        account,
        ("app_secret"@, "app_secret"@),
        ("app_secret_env"@, "app_secret_env"@),
    );
    if access_token is Err {
        Err(access_token->Err_0)
    } else if phone_number_id is Err {
        Err(phone_number_id->Err_0)
    } else if verify_token is Err {
        Err(verify_token->Err_0)
    } else if app_secret is Err {
        Err(app_secret->Err_0)
    } else {
        Ok(
            LoadedView::WhatsApp(
                access_token->Ok_0,
                phone_number_id->Ok_0,
                verify_token->Ok_0,
                app_secret->Ok_0,
            ),
        )
    }
}

/// The Slack channel of an account.
pub open spec fn slack_channel(vars: Map<Seq<char>, String>, account: JsonView) -> Result<
    LoadedView,
    ErrorView,
> {
    let app_token = channel_value(
        vars,
        account,
        ("app_token"@, "app_token"@),
        ("app_token_env"@, "app_token_env"@),
        "SLACK_APP_TOKEN"@,
        "slack"@,
        "secret"@,
    );
    let bot = bot_token(vars, account, "SLACK_BOT_TOKEN"@, "slack"@);
    if app_token is Err {
        Err(app_token->Err_0)
    } else if bot is Err {
        Err(bot->Err_0)
    } else {
        Ok(LoadedView::Slack(app_token->Ok_0, bot->Ok_0))
    }
}

/// The channel that a configuration asks for, or why it cannot be had.
pub open spec fn channel_built(
    vars: Map<Seq<char>, String>,
    id: Seq<char>,
    config: ChannelConfig,
) -> Result<LoadedView, ErrorView> {
    if id == "web"@ {
        Ok(LoadedView::Web)
    } else if id == "telegram"@ || id == "discord"@ || id == "signal"@ || id == "whatsapp"@ || id
        == "slack"@ {
        if config.accounts@.len() == 0 {
            Err(ErrorView::ConfigValidation(id + " channel requires at least one account"@))
        } else {
            let account = config.accounts@[0]@;
            if id == "telegram"@ {
                match bot_token(vars, account, "TELEGRAM_BOT_TOKEN"@, "telegram"@) {
                    Ok(token) => Ok(LoadedView::Telegram(token)),
                    Err(e) => Err(e),
                }
            } else if id == "discord"@ {
                match bot_token(vars, account, "DISCORD_BOT_TOKEN"@, "discord"@) {
                    Ok(token) => Ok(LoadedView::Discord(token)),
                    Err(e) => Err(e),
                }
            } else if id == "signal"@ {
                signal_channel(vars, account)
            } else if id == "whatsapp"@ {
                whatsapp_channel(vars, account)
            } else {
                slack_channel(vars, account)
            }
        }
    } else {
        Err(
            ErrorView::ConfigValidation(
                "unsupported enabled channel '"@ + id
                    + "'; currently supported: web, telegram, discord, signal, slack, whatsapp"@,
            ),
        )
    }
}

/// True when the result is the channel, or the error, that is expected.
pub open spec fn load_outcome(
    r: Result<LoadedChannel, FrankClawError>,
    expected: Result<LoadedView, ErrorView>,
) -> bool {
    match expected {
        Ok(c) => r is Ok && r->Ok_0@ == c,
        Err(e) => r is Err && r->Err_0@ == e,
    }
}

fn build_signal(vars: &Environment, account: &JsonValue) -> (r: Result<
    LoadedChannel,
    FrankClawError,
>)
    requires
        vars.wf(),
    ensures
        load_outcome(r, signal_channel(vars@, account@)),
{
    let base_url = resolve_channel_value(
        vars,
        account,
        ("base_url", "http_url"),
        ("base_url_env", "http_url_env"),
        "SIGNAL_BASE_URL",
        "signal",
        "base URL",
    )?;
    let account_id = resolve_optional_channel_value(
        vars,
        account,
        ("account", "signal_number"),
        ("account_env", "signal_number_env"),
    )?;
    Ok(LoadedChannel::Signal { base_url, account_id })
}

fn build_whatsapp(vars: &Environment, account: &JsonValue) -> (r: Result<
    LoadedChannel,
    FrankClawError,
>)
    requires
        vars.wf(),
    ensures
        load_outcome(r, whatsapp_channel(vars@, account@)),
{
    let access_token = resolve_channel_value(
        vars,
        account,
        ("access_token", "token"),
        ("access_token_env", "token_env"),
        "WHATSAPP_ACCESS_TOKEN",
        "whatsapp",
        "secret",
    )?;
    let phone_number_id = resolve_channel_value(
        vars,
        account,
        ("phone_number_id", "phone_number_id"),
        ("phone_number_id_env", "phone_number_id_env"),
        "WHATSAPP_PHONE_NUMBER_ID",
        "whatsapp",
        "phone number id",
    )?;
    let verify_token = resolve_channel_value(
        vars,
        account,
        ("verify_token", "verify_token"),
        ("verify_token_env", "verify_token_env"),
        "WHATSAPP_VERIFY_TOKEN",
        "whatsapp",
        "verify token",
    )?;
    let app_secret = resolve_optional_channel_value(
        vars,
        account,
        ("app_secret", "app_secret"),
        ("app_secret_env", "app_secret_env"),
    )?;
    Ok(LoadedChannel::WhatsApp { access_token, phone_number_id, verify_token, app_secret })
}

fn build_slack(vars: &Environment, account: &JsonValue) -> (r: Result<
    LoadedChannel,
    FrankClawError,
>)
    requires
        vars.wf(),
    ensures
        load_outcome(r, slack_channel(vars@, account@)),
{
    let app_token = resolve_channel_value(
        vars,
        account,
        ("app_token", "app_token"),
        ("app_token_env", "app_token_env"),
        "SLACK_APP_TOKEN",
        "slack",
        "secret",
    )?;
    let bot_token = resolve_channel_value(
        vars,
        account,
        ("bot_token", "token"),
        ("bot_token_env", "token_env"),
        "SLACK_BOT_TOKEN",
        "slack",
        "secret",
    )?;
    Ok(LoadedChannel::Slack { app_token, bot_token })
}

/// The channel that a configuration asks for, or why it cannot be had.
pub fn build_channel(
    vars: &Environment,
    channel_id: &ChannelId,
    channel_config: &ChannelConfig,
) -> (r: Result<LoadedChannel, FrankClawError>)
    requires
        vars.wf(),
    ensures
        load_outcome(r, channel_built(vars@, channel_id@, *channel_config)),
{
    let id = channel_id.as_str();
    if str_eq(id, "web") {
        return Ok(LoadedChannel::Web);
    }
    let telegram = str_eq(id, "telegram");
    let discord = str_eq(id, "discord");
    let signal = str_eq(id, "signal");
    let whatsapp = str_eq(id, "whatsapp");
    if !telegram && !discord && !signal && !whatsapp && !str_eq(id, "slack") {
        return Err(
            config_invalid(
                cat3(
                    "unsupported enabled channel '",
                    id,
                    "'; currently supported: web, telegram, discord, signal, slack, whatsapp",
                ).as_str(),
            ),
        );
    }
    if channel_config.accounts.len() == 0 {
        return Err(config_invalid(cat2(id, " channel requires at least one account").as_str()));
    }
    let account = &channel_config.accounts[0];
    if telegram {
        let bot_token = resolve_channel_value(
            vars,
            account,
            ("bot_token", "token"),
            ("bot_token_env", "token_env"),
            "TELEGRAM_BOT_TOKEN",
            "telegram",
            "secret",
        )?;
        Ok(LoadedChannel::Telegram { bot_token })
    } else if discord {
        let bot_token = resolve_channel_value(
            vars,
            account,
            ("bot_token", "token"),
            ("bot_token_env", "token_env"),
            "DISCORD_BOT_TOKEN",
            "discord",
            "secret",
        )?;
        Ok(LoadedChannel::Discord { bot_token })
    } else if signal {
        build_signal(vars, account)
    } else if whatsapp {
        build_whatsapp(vars, account)
    } else {
        build_slack(vars, account)
    }
}

/// The channels that are turned on, with the state of those that the gateway
/// serves itself.
#[derive(Debug)]
pub struct ChannelSet {
    pub channels: Vec<(ChannelId, LoadedChannel)>,
    pub web: Option<WebChannel>,
    pub whatsapp: Option<WhatsAppChannel>,
}

/// The index of the first channel from `i` on of a given name; the length when
/// there is none.
pub open spec fn loaded_index(
    channels: Seq<(ChannelId, LoadedChannel)>,
    id: Seq<char>,
    i: int,
) -> int
    decreases channels.len() - i,
{
    if i < 0 || i >= channels.len() {
        channels.len() as int
    } else if channels[i].0@ == id {
        i
    } else {
        loaded_index(channels, id, i + 1)
    }
}

impl ChannelSet {
    /// A set of the given parts.
    pub fn from_parts(
        channels: Vec<(ChannelId, LoadedChannel)>,
        web: Option<WebChannel>,
        whatsapp: Option<WhatsAppChannel>,
    ) -> (r: ChannelSet)
        ensures
            r.channels == channels,
            r.web == web,
            r.whatsapp == whatsapp,
    {
        ChannelSet { channels, web, whatsapp }
    }

    /// All channels.
    pub fn channels(&self) -> (r: &Vec<(ChannelId, LoadedChannel)>)
        ensures
            *r == self.channels,
    {
        &self.channels
    }

    /// The channel of a given name.
    pub fn get(&self, id: &ChannelId) -> (r: Option<&LoadedChannel>)
        ensures
            r is Some == (loaded_index(self.channels@, id@, 0) < self.channels@.len()),
            r is Some ==> *r->0 == self.channels@[loaded_index(self.channels@, id@, 0)].1,
    {
        let mut i: usize = 0;
        while i < self.channels.len()
            invariant
                i <= self.channels@.len(),
                loaded_index(self.channels@, id@, 0) == loaded_index(
                    self.channels@,
                    id@,
                    i as int,
                ),
            decreases self.channels@.len() - i,
        {
            if self.channels[i].0 == *id {
                return Some(&self.channels[i].1);
            }
            i = i + 1;
        }
        None
    }

    /// The web channel, where it is turned on.
    pub fn web(&self) -> (r: Option<&WebChannel>)
        ensures
            r is Some == self.web is Some,
            r is Some ==> *r->0 == self.web->0,
    {
        match &self.web {
            Some(web) => Some(web),
            None => None,
        }
    }

    /// The WhatsApp channel, where it is turned on.
    pub fn whatsapp(&self) -> (r: Option<&WhatsAppChannel>)
        ensures
            r is Some == self.whatsapp is Some,
            r is Some ==> *r->0 == self.whatsapp->0,
    {
        match &self.whatsapp {
            Some(whatsapp) => Some(whatsapp),
            None => None,
        }
    }
}

/// The channels that are turned on, in order; the first error where
/// one cannot be had.
pub open spec fn channels_loaded(
    vars: Map<Seq<char>, String>,
    channels: Seq<(ChannelId, ChannelConfig)>,
) -> Result<Seq<(Seq<char>, LoadedView)>, ErrorView>
    decreases channels.len(),
{
    if channels.len() == 0 {
        Ok(Seq::empty())
    } else {
        match channels_loaded(vars, channels.drop_last()) {
            Err(e) => Err(e),
            Ok(before) => if !channels.last().1.enabled {
                Ok(before)
            } else {
                match channel_built(vars, channels.last().0@, channels.last().1) {
                    Err(e) => Err(e),
                    Ok(c) => Ok(before.push((channels.last().0@, c))),
                }
            },
        }
    }
}

/// What the channels of a set are.
pub open spec fn loaded_views(channels: Seq<(ChannelId, LoadedChannel)>) -> Seq<
    (Seq<char>, LoadedView),
> {
    Seq::new(channels.len(), |i: int| (channels[i].0@, channels[i].1@))
}

proof fn lemma_channels_error(
    vars: Map<Seq<char>, String>,
    channels: Seq<(ChannelId, ChannelConfig)>,
    i: int,
)
    requires
        0 <= i <= channels.len(),
        channels_loaded(vars, channels.take(i)) is Err,
    ensures
        channels_loaded(vars, channels) == channels_loaded(vars, channels.take(i)),
    decreases channels.len() - i,
{
    if i < channels.len() {
        assert(channels.take(i + 1).drop_last() =~= channels.take(i));
        lemma_channels_error(vars, channels, i + 1);
    } else {
        assert(channels.take(i) =~= channels);
    }
}

/// True when a web channel is among the loaded ones.
pub open spec fn has_web(loaded: Seq<(Seq<char>, LoadedView)>) -> bool {
    exists|i: int| 0 <= i < loaded.len() && (#[trigger] loaded[i]).1 is Web
}

/// The last WhatsApp channel among the loaded ones.
pub open spec fn last_whatsapp(loaded: Seq<(Seq<char>, LoadedView)>) -> Option<LoadedView>
    decreases loaded.len(),
{
    if loaded.len() == 0 {
        None
    } else if loaded.last().1 is WhatsApp {
        Some(loaded.last().1)
    } else {
        last_whatsapp(loaded.drop_last())
    }
}

/// True when a handle holds the credentials of a WhatsApp channel, or there is
/// neither.
pub open spec fn handles_whatsapp(
    handle: Option<WhatsAppChannel>,
    channel: Option<LoadedView>,
) -> bool {
    match channel {
        Some(LoadedView::WhatsApp(access_token, phone_number_id, verify_token, app_secret)) => {
            &&& handle is Some
            &&& handle->0.access_token@ == access_token
            &&& handle->0.phone_number_id@ == trimmed(phone_number_id)
            &&& handle->0.verify_token@ == verify_token
            &&& handle->0.app_secret.deep_view() == app_secret
        },
        _ => handle is None,
    }
}

/// True when a handle is a web channel where nothing waits, and is there where
/// a web channel is.
pub open spec fn handles_web(
    handle: Option<WebChannel>,
    loaded: Seq<(Seq<char>, LoadedView)>,
) -> bool {
    &&& handle is Some <==> has_web(loaded)
    &&& handle is Some ==> handle->0.wf() && handle->0.outbound@ == Map::<
        Seq<char>,
        Vec<OutboundMessage>,
    >::empty()
}

/// Loads the channels that a configuration turns on, in its order; the first
/// one that cannot be had is the error.
pub fn load_from_config(vars: &Environment, config: &FrankClawConfig) -> (r: Result<
    ChannelSet,
    FrankClawError,
>)
    requires
        vars.wf(),
    ensures
        match channels_loaded(vars@, config.channels@) {
            Ok(loaded) => r is Ok && loaded_views(r->Ok_0.channels@) == loaded && handles_web(
                r->Ok_0.web,
                loaded,
            ) && handles_whatsapp(r->Ok_0.whatsapp, last_whatsapp(loaded)),
            Err(e) => r is Err && r->Err_0@ == e,
        },
{
    let mut channels: Vec<(ChannelId, LoadedChannel)> = Vec::new();
    let mut web: Option<WebChannel> = None;
    let mut whatsapp: Option<WhatsAppChannel> = None;
    let ghost all = config.channels@;
    let mut i: usize = 0;
    assert(loaded_views(channels@) =~= Seq::empty());
    assert(all.take(0) =~= Seq::empty());
    while i < config.channels.len()
        invariant
            i <= all.len(),
            all == config.channels@,
            vars.wf(),
            channels_loaded(vars@, all.take(i as int)) == Ok::<_, ErrorView>(
                loaded_views(channels@),
            ),
            handles_web(web, loaded_views(channels@)),
            handles_whatsapp(whatsapp, last_whatsapp(loaded_views(channels@))),
        decreases all.len() - i,
    {
        let ghost before = loaded_views(channels@);
        proof {
            assert(all.take(i + 1).drop_last() =~= all.take(i as int));
            assert(all.take(i + 1).last() == all[i as int]);
        }
        if config.channels[i].1.enabled {
            let built = match build_channel(vars, &config.channels[i].0, &config.channels[i].1) {
                Ok(built) => built,
                Err(err) => {
                    proof {
                        lemma_channels_error(vars@, all, i + 1);
                    }
                    return Err(err);
                },
            };
            match &built {
                LoadedChannel::Web => {
                    web = Some(WebChannel::new());
                },
                LoadedChannel::WhatsApp {
                    access_token,
                    phone_number_id,
                    verify_token,
                    app_secret,
                } => {
                    whatsapp = Some(
                        WhatsAppChannel::new(
                            access_token.clone(),
                            phone_number_id.as_str(),
                            verify_token.clone(),
                            crate::message::clone_text(app_secret),
                        ),
                    );
                },
                _ => {},
            }
            let entry = (config.channels[i].0.clone(), built);
            channels.push(entry);
            proof {
                let after = loaded_views(channels@);
                assert(after =~= before.push((entry.0@, entry.1@)));
                assert(after[before.len() as int] == (entry.0@, entry.1@));
                assert forall|k: int| 0 <= k < before.len() implies after[k] == before[k] by {}
                if has_web(before) {
                    let k = choose|k: int|
                        0 <= k < before.len() && (#[trigger] before[k]).1 is Web;
                    assert(after[k].1 is Web);
                }
                assert(after.drop_last() =~= before);
                if has_web(after) && !(entry.1@ is Web) {
                    let k = choose|k: int| 0 <= k < after.len() && (#[trigger] after[k]).1 is Web;
                    assert(before[k].1 is Web);
                }
            }
        }
        i = i + 1;
    }
    assert(all.take(i as int) =~= all);
    Ok(ChannelSet::from_parts(channels, web, whatsapp))
}

} // verus!
