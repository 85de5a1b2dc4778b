//! Settings: what a configuration says is what holds, a configuration with a
//! mistake is turned down, and each channel gets its own credentials.

use crate::channels::{
    build_channel, load_from_config, loaded_views, ChannelSet, Environment, LoadedChannel,
};
use crate::config::{
    all_texts, channel_index, channels_problem, config_notation, lemma_channel_index,
    policy_problem, providers_problem, validate_channel_config, AgentsConfig, ChannelConfig,
    ChannelSecurityPolicy, ConfigNotation, FrankClawConfig, ProviderConfig,
};
use crate::error::FrankClawError;
use crate::json::JsonView;
use crate::laws::inbound::{direct_policy, well_set};
use crate::laws::terms::{flag, inner, listed, said, whole};
use crate::text::{is_blank, trimmed, trimmed_start};
use crate::types::{AgentId, ChannelId};
use vstd::prelude::*;

verus! {

/// A channel whose settings hold no mistake has the policy that they spell out;
/// one with a mistake has none.
pub proof fn law_policy(channel: &ChannelConfig, r: Result<ChannelSecurityPolicy, FrankClawError>)
    requires
        call_ensures(ChannelConfig::security_policy, (channel,), r),
    ensures
        well_set(channel.extra@) ==> r is Ok,
        r is Err ==> r->Err_0 is ConfigValidation,
        said(channel.extra@, "dm_policy"@) is Some && said(channel.extra@, "dm_policy"@)->0
            != "open"@ && said(channel.extra@, "dm_policy"@)->0 != "allowlist"@ && said(
            channel.extra@,
            "dm_policy"@,
        )->0 != "pairing"@ && said(channel.extra@, "dm_policy"@)->0 != "disabled"@ ==> r is Err,
        inner(channel.extra@, "allow_from"@) is Some && listed(channel.extra@, "allow_from"@)
            is None ==> r is Err,
        inner(channel.extra@, "groups"@) is Some && listed(channel.extra@, "groups"@) is None ==> r
            is Err,
        inner(channel.extra@, "max_message_bytes"@) is Some && whole(
            channel.extra@,
            "max_message_bytes"@,
        ) is None ==> r is Err,
        whole(channel.extra@, "max_message_bytes"@) == Some(0nat) ==> r is Err,
        r is Ok ==> {
            let set = channel.extra@;
            let policy = r->Ok_0;
            let allowed = listed(set, "allow_from"@);
            let groups = listed(set, "groups"@);
            &&& policy.dm_policy is Open <==> direct_policy(set, "open"@)
            &&& policy.dm_policy is Allowlist <==> direct_policy(set, "allowlist"@)
            &&& policy.dm_policy is Pairing <==> direct_policy(set, "pairing"@)
            &&& policy.dm_policy is Disabled <==> direct_policy(set, "disabled"@)
            &&& allowed is None ==> policy.allow_from@.len() == 0
            &&& allowed is Some ==> policy.allow_from@.len() == allowed->0.len()
            &&& allowed is Some ==> forall|i: int|
                0 <= i < policy.allow_from@.len() ==> JsonView::Text(
                    (#[trigger] policy.allow_from@[i])@,
                ) == allowed->0[i]
            &&& groups is None <==> policy.allowed_groups is None
            &&& groups is Some ==> policy.allowed_groups->0@.len() == groups->0.len()
            &&& groups is Some ==> forall|i: int|
                0 <= i < policy.allowed_groups->0@.len() ==> JsonView::Text(
                    (#[trigger] policy.allowed_groups->0@[i])@,
                ) == groups->0[i]
            &&& policy.require_mention_for_groups == (flag(set, "require_mention_for_groups"@)
                != Some(false))
            &&& whole(set, "max_message_bytes"@) is None <==> policy.max_message_bytes is None
            &&& policy.max_message_bytes is Some && whole(set, "max_message_bytes"@)->0
                <= usize::MAX ==> policy.max_message_bytes->0 == whole(
                set,
                "max_message_bytes"@,
            )->0
        },
{
    reveal_strlit("open");
    reveal_strlit("allowlist");
    reveal_strlit("pairing");
    reveal_strlit("disabled");
    assert("open"@.len() == 4);
    assert("allowlist"@.len() == 9);
    assert("pairing"@.len() == 7);
    assert("disabled"@.len() == 8);
    let set = channel.extra@;
    if listed(set, "allow_from"@) is Some {
        assert(all_texts(listed(set, "allow_from"@)->0) <==> forall|i: int|
            0 <= i < listed(set, "allow_from"@)->0.len() ==> (
            #[trigger] listed(set, "allow_from"@)->0[i]) is Text);
    }
    if r is Ok {
        let policy = r->Ok_0;
        assert(policy@.allow_from == policy.allow_from.deep_view());
        assert(policy.allow_from.deep_view().len() == policy.allow_from@.len());
        assert forall|i: int| 0 <= i < policy.allow_from@.len() && listed(set, "allow_from"@)
            is Some implies JsonView::Text((#[trigger] policy.allow_from@[i])@) == listed(
            set,
            "allow_from"@,
        )->0[i] by {
            assert(policy.allow_from.deep_view()[i] == policy.allow_from@[i]@);
            assert(listed(set, "allow_from"@)->0[i] is Text);
        }
        assert(policy@.allowed_groups == policy.allowed_groups.deep_view());
        if policy.allowed_groups is Some {
            let v = policy.allowed_groups->0;
            assert(v.deep_view().len() == v@.len());
            assert forall|i: int| 0 <= i < v@.len() implies JsonView::Text((#[trigger] v@[i])@)
                == listed(set, "groups"@)->0[i] by {
                assert(v.deep_view()[i] == v@[i]@);
                assert(listed(set, "groups"@)->0[i] is Text);
            }
        }
    }
}

proof fn lemma_providers_hold(providers: Seq<ProviderConfig>, i: int, k: int)
    requires
        0 <= i <= k < providers.len(),
        providers_problem(providers, i) is None,
    ensures
        !is_blank(providers[k].id@),
        forall|j: int| 0 <= j < k ==> (#[trigger] providers[j]).id@ != providers[k].id@,
        providers[k].api@ == "openai"@ || providers[k].api@ == "anthropic"@ || providers[k].api@
            == "ollama"@,
        providers[k].api@ == "openai"@ || providers[k].api@ == "anthropic"@
            ==> providers[k].api_key_ref is Some && !is_blank(providers[k].api_key_ref->0@),
    decreases k - i,
{
    if i < k {
        lemma_providers_hold(providers, i + 1, k);
    }
}

/// In a configuration that is accepted the default agent is there, every
/// provider is of a known kind with a name of its own and a key where it needs
/// one, and no limit is zero.
pub proof fn law_accepted_configuration(
    config: &FrankClawConfig,
    auth: Result<(), FrankClawError>,
    bind_is_ip: bool,
    k: int,
    r: Result<(), FrankClawError>,
)
    requires
        call_ensures(FrankClawConfig::validate, (config, auth, bind_is_ip), r),
    ensures
        auth is Err ==> r is Err && r->Err_0@ == auth->Err_0@,
        r is Ok ==> {
            &&& exists|i: int|
                0 <= i < config.agents.agents@.len() && (#[trigger] config.agents.agents@[i]).0@
                    == config.agents.default_agent@
            &&& config.gateway.max_connections > 0
            &&& config.gateway.max_ws_message_bytes > 0
            &&& config.gateway.bind is Address ==> bind_is_ip
            &&& config.models.default_model is Some ==> !is_blank(config.models.default_model->0@)
        },
        r is Ok && 0 <= k < config.models.providers@.len() ==> {
            let p = config.models.providers@[k];
            &&& !is_blank(p.id@)
            &&& p.api@ == "openai"@ || p.api@ == "anthropic"@ || p.api@ == "ollama"@
            &&& p.api@ != "ollama"@ ==> p.api_key_ref is Some && !is_blank(p.api_key_ref->0@)
            &&& forall|j: int|
                0 <= j < k ==> (#[trigger] config.models.providers@[j]).id@ != p.id@
        },
{
    if r is Ok && 0 <= k < config.models.providers@.len() {
        lemma_providers_hold(config.models.providers@, 0, k);
    }
}

/// A configuration is accepted where its parts are: a known default agent, no
/// limit of zero, and no provider, channel or webhook that could be wrong.
pub proof fn law_plain_configuration_is_accepted(
    config: &FrankClawConfig,
    auth: Result<(), FrankClawError>,
    bind_is_ip: bool,
    at: int,
    r: Result<(), FrankClawError>,
)
    requires
        call_ensures(FrankClawConfig::validate, (config, auth, bind_is_ip), r),
        auth is Ok,
        0 <= at < config.agents.agents@.len(),
        config.agents.agents@[at].0@ == config.agents.default_agent@,
        config.models.providers@.len() == 0,
        config.models.default_model is None,
        config.gateway.max_connections > 0,
        config.gateway.max_ws_message_bytes > 0,
        config.gateway.bind is Address ==> bind_is_ip,
        config.channels@.len() == 0,
        !config.hooks.enabled,
    ensures
        r is Ok,
{
}

proof fn lemma_channels_hold(channels: Seq<(ChannelId, ChannelConfig)>, i: int, k: int)
    requires
        0 <= i <= k < channels.len(),
        channels_problem(channels, i) is None,
    ensures
        policy_problem(channels[k].1.extra@) is None,
        crate::config::channel_problem(channels[k].0@, channels[k].1) is None,
    decreases k - i,
{
    if i < k {
        lemma_channels_hold(channels, i + 1, k);
    }
}

/// In a configuration that is accepted, every channel has a policy and passes
/// the check on its own, and the webhooks are in order.
pub proof fn law_accepted_channels(
    config: &FrankClawConfig,
    auth: Result<(), FrankClawError>,
    bind_is_ip: bool,
    k: int,
    r: Result<(), FrankClawError>,
    policy: Result<ChannelSecurityPolicy, FrankClawError>,
    own: Result<(), FrankClawError>,
    hooks: Result<Vec<crate::config::WebhookMapping>, FrankClawError>,
)
    requires
        call_ensures(FrankClawConfig::validate, (config, auth, bind_is_ip), r),
        r is Ok,
        0 <= k < config.channels@.len(),
        call_ensures(ChannelConfig::security_policy, (&config.channels@[k].1,), policy),
        call_ensures(
            validate_channel_config,
            (&config.channels@[k].0, &config.channels@[k].1),
            own,
        ),
        call_ensures(crate::config::HooksConfig::parsed_mappings, (&config.hooks,), hooks),
    ensures
        policy is Ok,
        own is Ok,
        hooks is Ok,
{
    lemma_channels_hold(config.channels@, 0, k);
}

/// True of an account with a text under `key` that is more than white space.
pub open spec fn gives(account: JsonView, key: Seq<char>) -> bool {
    said(account, key) is Some && !is_blank(said(account, key)->0)
}

/// True of an account with a text under one of four names.
pub open spec fn gives_one(
    account: JsonView,
    a: Seq<char>,
    b: Seq<char>,
    c: Seq<char>,
    d: Seq<char>,
) -> bool {
    gives(account, a) || gives(account, b) || gives(account, c) || gives(account, d)
}

/// A channel that is off, and the web channel, need nothing; any other one needs
/// an account that gives its credentials or says where they are; and only the
/// six that are known can be turned on.
pub proof fn law_channel_needs(
    id: &ChannelId,
    channel: &ChannelConfig,
    r: Result<(), FrankClawError>,
)
    requires
        call_ensures(validate_channel_config, (id, channel), r),
    ensures
        !channel.enabled || id@ == "web"@ ==> r is Ok,
        channel.enabled && id@ != "web"@ && channel.accounts@.len() == 0 ==> r is Err,
        channel.enabled && id@ != "web"@ && id@ != "telegram"@ && id@ != "discord"@ && id@
            != "signal"@ && id@ != "whatsapp"@ && id@ != "slack"@ ==> r is Err,
        channel.enabled && channel.accounts@.len() > 0 ==> {
            let account = channel.accounts@[0]@;
            let bot = gives_one(account, "bot_token"@, "token"@, "bot_token_env"@, "token_env"@);
            &&& id@ == "telegram"@ ==> (r is Ok <==> bot)
            &&& id@ == "discord"@ ==> (r is Ok <==> bot)
            &&& id@ == "signal"@ ==> (r is Ok <==> gives_one(
                account,
                "base_url"@,
                "http_url"@,
                "base_url_env"@,
                "http_url_env"@,
            ))
            &&& id@ == "slack"@ ==> (r is Ok <==> bot && (gives(account, "app_token"@) || gives(
                account,
                "app_token_env"@,
            )))
            &&& id@ == "whatsapp"@ ==> (r is Ok <==> gives_one(
                account,
                "access_token"@,
                "token"@,
                "access_token_env"@,
                "token_env"@,
            ) && (gives(account, "phone_number_id"@) || gives(account, "phone_number_id_env"@)) && (
            gives(account, "verify_token"@) || gives(account, "verify_token_env"@)))
        },
{
    lemma_channel_names();
}

proof fn lemma_channel_names()
    ensures
        "web"@.len() == 3,
        "telegram"@.len() == 8,
        "discord"@.len() == 7,
        "signal"@.len() == 6,
        "whatsapp"@.len() == 8,
        "slack"@.len() == 5,
        "telegram"@[0] == 't',
        "whatsapp"@[0] == 'w',
{
    reveal_strlit("web");
    reveal_strlit("telegram");
    reveal_strlit("discord");
    reveal_strlit("signal");
    reveal_strlit("whatsapp");
    reveal_strlit("slack");
}

/// The value that an account gives for a credential: a text of its own under
/// one of two names, else the environment variable that it names under one of
/// two others, else the usual variable. There is none where the variable is
/// missing or blank.
pub open spec fn credential(
    vars: Map<Seq<char>, String>,
    account: JsonView,
    a: Seq<char>,
    b: Seq<char>,
    env_a: Seq<char>,
    env_b: Seq<char>,
    usual: Seq<char>,
) -> Option<Seq<char>> {
    if gives(account, a) {
        Some(trimmed(said(account, a)->0))
    } else if gives(account, b) {
        Some(trimmed(said(account, b)->0))
    } else {
        let name = if said(account, env_a) is Some {
            trimmed(said(account, env_a)->0)
        } else if said(account, env_b) is Some {
            trimmed(said(account, env_b)->0)
        } else {
            trimmed(usual)
        };
        if name.len() > 0 && vars.dom().contains(name) && !is_blank(vars[name]@) {
            Some(vars[name]@)
        } else {
            None
        }
    }
}

/// A Telegram or Discord bot gets the token of its first account, and cannot be
/// had without one; the web channel needs none.
pub proof fn law_bots_get_their_token(
    vars: &Environment,
    id: &ChannelId,
    config: &ChannelConfig,
    r: Result<LoadedChannel, FrankClawError>,
)
    requires
        call_ensures(build_channel, (vars, id, config), r),
    ensures
        id@ == "web"@ ==> r is Ok && r->Ok_0 is Web,
        id@ == "telegram"@ && config.accounts@.len() > 0 ==> {
            let token = credential(
                vars@,
                config.accounts@[0]@,
                "bot_token"@,
                "token"@,
                "bot_token_env"@,
                "token_env"@,
                "TELEGRAM_BOT_TOKEN"@,
            );
            (r is Ok <==> token is Some) && (r is Ok ==> r->Ok_0 is Telegram
                && r->Ok_0->Telegram_bot_token@ == token->0)
        },
        id@ == "discord"@ && config.accounts@.len() > 0 ==> {
            let token = credential(
                vars@,
                config.accounts@[0]@,
                "bot_token"@,
                "token"@,
                "bot_token_env"@,
                "token_env"@,
                "DISCORD_BOT_TOKEN"@,
            );
            (r is Ok <==> token is Some) && (r is Ok ==> r->Ok_0 is Discord
                && r->Ok_0->Discord_bot_token@ == token->0)
        },
        id@ != "web"@ && config.accounts@.len() == 0 ==> r is Err,
        id@ != "web"@ && id@ != "telegram"@ && id@ != "discord"@ && id@ != "signal"@ && id@
            != "whatsapp"@ && id@ != "slack"@ ==> r is Err,
{
    lemma_channel_names();
}

/// Slack and WhatsApp get each of their credentials from its own place, and
/// cannot be had where one is missing.
pub proof fn law_platforms_get_their_credentials(
    vars: &Environment,
    id: &ChannelId,
    config: &ChannelConfig,
    r: Result<LoadedChannel, FrankClawError>,
)
    requires
        call_ensures(build_channel, (vars, id, config), r),
        config.accounts@.len() > 0,
    ensures
        id@ == "slack"@ ==> {
            let account = config.accounts@[0]@;
            let app = credential(
                vars@,
                account,
                "app_token"@,
                "app_token"@,
                "app_token_env"@,
                "app_token_env"@,
                "SLACK_APP_TOKEN"@,
            );
            let bot = credential(
                vars@,
                account,
                "bot_token"@,
                "token"@,
                "bot_token_env"@,
                "token_env"@,
                "SLACK_BOT_TOKEN"@,
            );
            &&& r is Ok <==> app is Some && bot is Some
            &&& r is Ok ==> r->Ok_0 is Slack && r->Ok_0->app_token@ == app->0
                && r->Ok_0->Slack_bot_token@ == bot->0
        },
        id@ == "whatsapp"@ ==> {
            let account = config.accounts@[0]@;
            let access = credential(
                vars@,
                account,
                "access_token"@,
                "token"@,
                "access_token_env"@,
                "token_env"@,
                "WHATSAPP_ACCESS_TOKEN"@,
            );
            let phone = credential(
                vars@,
                account,
                "phone_number_id"@,
                "phone_number_id"@,
                "phone_number_id_env"@,
                "phone_number_id_env"@,
                "WHATSAPP_PHONE_NUMBER_ID"@,
            );
            let verify = credential(
                vars@,
                account,
                "verify_token"@,
                "verify_token"@,
                "verify_token_env"@,
                "verify_token_env"@,
                "WHATSAPP_VERIFY_TOKEN"@,
            );
            &&& r is Ok ==> access is Some && phone is Some && verify is Some && r->Ok_0
                is WhatsApp && r->Ok_0->access_token@ == access->0 && r->Ok_0->phone_number_id@
                == phone->0 && r->Ok_0->verify_token@ == verify->0
            &&& r is Ok && gives(account, "app_secret"@) ==> r->Ok_0->app_secret is Some
                && r->Ok_0->app_secret->0@ == trimmed(said(account, "app_secret"@)->0)
            &&& r is Ok && said(account, "app_secret"@) is None && said(account, "app_secret_env"@)
                is None ==> r->Ok_0->app_secret is None
            &&& access is Some && phone is Some && verify is Some && (gives(account, "app_secret"@)
                || said(account, "app_secret_env"@) is None) ==> r is Ok
        },
        id@ == "signal"@ ==> {
            let account = config.accounts@[0]@;
            let url = credential(
                vars@,
                account,
                "base_url"@,
                "http_url"@,
                "base_url_env"@,
                "http_url_env"@,
                "SIGNAL_BASE_URL"@,
            );
            &&& r is Ok ==> url is Some && r->Ok_0 is Signal && r->Ok_0->base_url@ == url->0
            &&& r is Ok && gives(account, "account"@) ==> r->Ok_0->account_id is Some
                && r->Ok_0->account_id->0@ == trimmed(said(account, "account"@)->0)
            &&& url is Some && gives(account, "account"@) ==> r is Ok
        },
{
    lemma_channel_names();
}

/// One more channel is loaded behind the others where it is on and can be had;
/// one that is off is passed over; and the first that cannot be had is the
/// error.
pub proof fn law_channels_are_loaded(
    vars: &Environment,
    front: &FrankClawConfig,
    all: &FrankClawConfig,
    built: Result<LoadedChannel, FrankClawError>,
    r_front: Result<ChannelSet, FrankClawError>,
    r_all: Result<ChannelSet, FrankClawError>,
)
    requires
        call_ensures(load_from_config, (vars, front), r_front),
        call_ensures(load_from_config, (vars, all), r_all),
        all.channels@.len() == front.channels@.len() + 1,
        all.channels@.drop_last() == front.channels@,
        call_ensures(
            build_channel,
            (vars, &all.channels@.last().0, &all.channels@.last().1),
            built,
        ),
    ensures
        front.channels@.len() == 0 ==> r_front is Ok && r_front->Ok_0.channels@.len() == 0
            && r_front->Ok_0.web is None && r_front->Ok_0.whatsapp is None,
        r_front is Err ==> r_all is Err && r_all->Err_0@ == r_front->Err_0@,
        r_front is Ok && !all.channels@.last().1.enabled ==> r_all is Ok
            && r_all->Ok_0.channels@.len() == r_front->Ok_0.channels@.len(),
        r_front is Ok && all.channels@.last().1.enabled ==> (r_all is Ok <==> built is Ok),
        r_front is Ok && all.channels@.last().1.enabled && built is Err ==> r_all->Err_0@
            == built->Err_0@,
        r_front is Ok && r_all is Ok && all.channels@.last().1.enabled ==> {
            let n = r_front->Ok_0.channels@.len() as int;
            &&& r_all->Ok_0.channels@.len() == n + 1
            &&& r_all->Ok_0.channels@[n].0@ == all.channels@.last().0@
            &&& r_all->Ok_0.channels@[n].1@ == built->Ok_0@
        },
        r_front is Ok && r_all is Ok ==> forall|i: int|
            0 <= i < r_front->Ok_0.channels@.len() ==> (#[trigger] r_all->Ok_0.channels@[i]).0@
                == r_front->Ok_0.channels@[i].0@ && r_all->Ok_0.channels@[i].1@
                == r_front->Ok_0.channels@[i].1@,
{
    if front.channels@.len() == 0 {
        assert(loaded_views(r_front->Ok_0.channels@).len() == 0);
    }
    if r_front is Ok {
        let less = loaded_views(r_front->Ok_0.channels@);
        assert(less.len() == r_front->Ok_0.channels@.len());
        if r_all is Ok {
            let more = loaded_views(r_all->Ok_0.channels@);
            assert(more.len() == r_all->Ok_0.channels@.len());
            assert forall|i: int| 0 <= i < less.len() implies (
            #[trigger] r_all->Ok_0.channels@[i]).0@ == r_front->Ok_0.channels@[i].0@
                && r_all->Ok_0.channels@[i].1@ == r_front->Ok_0.channels@[i].1@ by {
                assert(more[i] == less[i]);
            }
            if all.channels@.last().1.enabled {
                assert(more[less.len() as int] == (all.channels@.last().0@, built->Ok_0@));
            }
        }
    }
}

/// The gateway serves the web where a web channel is on, and WhatsApp with the
/// credentials of the WhatsApp channel that is on.
pub proof fn law_served_channels(
    vars: &Environment,
    config: &FrankClawConfig,
    at: int,
    r: Result<ChannelSet, FrankClawError>,
)
    requires
        call_ensures(load_from_config, (vars, config), r),
        r is Ok,
    ensures
        r->Ok_0.web is Some <==> exists|i: int|
            0 <= i < r->Ok_0.channels@.len() && (#[trigger] r->Ok_0.channels@[i]).1 is Web,
        0 <= at < r->Ok_0.channels@.len() && r->Ok_0.channels@[at].1 is WhatsApp && (forall|k: int|
            at < k < r->Ok_0.channels@.len() ==> !((#[trigger] r->Ok_0.channels@[k]).1
                is WhatsApp)) ==> {
            let c = r->Ok_0.channels@[at].1;
            &&& r->Ok_0.whatsapp is Some
            &&& r->Ok_0.whatsapp->0.access_token@ == c->access_token@
            &&& r->Ok_0.whatsapp->0.phone_number_id@ == trimmed(c->phone_number_id@)
            &&& r->Ok_0.whatsapp->0.verify_token@ == c->verify_token@
            &&& r->Ok_0.whatsapp->0.app_secret.deep_view() == c->app_secret.deep_view()
        },
        (forall|k: int|
            0 <= k < r->Ok_0.channels@.len() ==> !((#[trigger] r->Ok_0.channels@[k]).1 is WhatsApp))
            ==> r->Ok_0.whatsapp is None,
{
    let set = r->Ok_0.channels@;
    let views = loaded_views(set);
    assert(views.len() == set.len());
    assert forall|i: int| 0 <= i < set.len() implies (#[trigger] views[i]).1 == set[i].1@ by {}
    if r->Ok_0.web is Some {
        let i = choose|i: int| 0 <= i < views.len() && (#[trigger] views[i]).1 is Web;
        assert(set[i].1 is Web);
    }
    if exists|i: int| 0 <= i < set.len() && (#[trigger] set[i]).1 is Web {
        let i = choose|i: int| 0 <= i < set.len() && (#[trigger] set[i]).1 is Web;
        assert(views[i].1 is Web);
    }
    if 0 <= at < set.len() && set[at].1 is WhatsApp && (forall|k: int|
        at < k < set.len() ==> !((#[trigger] set[k]).1 is WhatsApp)) {
        assert forall|k: int| at < k < views.len() implies !((#[trigger] views[k]).1
            is WhatsApp) by {
            assert(!(set[k].1 is WhatsApp));
        }
        assert(views[at].1 is WhatsApp);
        lemma_last_whatsapp(views, at);
    }
    if forall|k: int| 0 <= k < set.len() ==> !((#[trigger] set[k]).1 is WhatsApp) {
        assert forall|k: int| 0 <= k < views.len() implies !((#[trigger] views[k]).1
            is WhatsApp) by {
            assert(!(set[k].1 is WhatsApp));
        }
        lemma_no_whatsapp(views);
    }
}

proof fn lemma_last_whatsapp(views: Seq<(Seq<char>, crate::channels::LoadedView)>, at: int)
    requires
        0 <= at < views.len(),
        views[at].1 is WhatsApp,
        forall|k: int| at < k < views.len() ==> !((#[trigger] views[k]).1 is WhatsApp),
    ensures
        crate::channels::last_whatsapp(views) == Some(views[at].1),
    decreases views.len(),
{
    if at < views.len() - 1 {
        assert(!(views[views.len() - 1].1 is WhatsApp));
        let front = views.drop_last();
        assert forall|k: int| at < k < front.len() implies !((#[trigger] front[k]).1
            is WhatsApp) by {
            assert(front[k] == views[k]);
        }
        lemma_last_whatsapp(front, at);
    }
}

proof fn lemma_no_whatsapp(views: Seq<(Seq<char>, crate::channels::LoadedView)>)
    requires
        forall|k: int| 0 <= k < views.len() ==> !((#[trigger] views[k]).1 is WhatsApp),
    ensures
        crate::channels::last_whatsapp(views) is None,
    decreases views.len(),
{
    if views.len() > 0 {
        assert(!(views[views.len() - 1].1 is WhatsApp));
        let front = views.drop_last();
        assert forall|k: int| 0 <= k < front.len() implies !((#[trigger] front[k]).1
            is WhatsApp) by {
            assert(front[k] == views[k]);
        }
        lemma_no_whatsapp(front);
    }
}

/// A channel that is asked for by name is the first of that name.
pub proof fn law_channel_by_name(
    config: &FrankClawConfig,
    id: &ChannelId,
    at: int,
    r: Option<&ChannelConfig>,
)
    requires
        call_ensures(FrankClawConfig::channel, (config, id), r),
    ensures
        0 <= at < config.channels@.len() && config.channels@[at].0@ == id@ && (forall|k: int|
            0 <= k < at ==> (#[trigger] config.channels@[k]).0@ != id@) ==> r is Some && *r->0
            == config.channels@[at].1,
        (forall|k: int| 0 <= k < config.channels@.len() ==> (#[trigger] config.channels@[k]).0@
            != id@) ==> r is None,
{
    lemma_channel_index(config.channels@, id@);
    let i = channel_index(config.channels@, id@);
    if 0 <= at < config.channels@.len() && config.channels@[at].0@ == id@ && (forall|k: int|
        0 <= k < at ==> (#[trigger] config.channels@[k]).0@ != id@) {
        if i < at {
            assert(config.channels@[i].0@ != id@);
        }
        if at < i {
            assert(config.channels@[at].0@ != id@);
        }
    }
}

/// A channel that was put into a configuration is the one that is found there,
/// and every other channel stays.
pub proof fn law_channel_is_put(
    config: &mut FrankClawConfig,
    id: ChannelId,
    channel: ChannelConfig,
    asked: &ChannelId,
    before: Option<&ChannelConfig>,
    after: &FrankClawConfig,
    r: Option<&ChannelConfig>,
)
    requires
        call_ensures(FrankClawConfig::channel, (&*old(config), asked), before),
        call_ensures(FrankClawConfig::insert_channel, (config, id, channel), ()),
        *after == *final(config),
        call_ensures(FrankClawConfig::channel, (after, asked), r),
    ensures
        asked@ == id@ ==> r is Some && *r->0 == channel,
        asked@ != id@ ==> r is Some == before is Some,
        asked@ != id@ && r is Some ==> *r->0 == *before->0,
{
    let b = old(config).channels@;
    let a = final(config).channels@;
    let i = channel_index(b, id@);
    lemma_channel_index(b, id@);
    lemma_channel_index(b, asked@);
    lemma_channel_index(a, asked@);
    let p = channel_index(b, asked@);
    let q = channel_index(a, asked@);
    if asked@ == id@ {
        assert(a[i].0@ == id@);
        if q < i {
            assert(a[q] == b[q]);
        }
        if q > i {
            assert(a[i].0@ != id@);
        }
    } else {
        if q < a.len() && q < b.len() && q != i {
            assert(a[q] == b[q]);
        }
        if p < b.len() {
            assert(a[p].0@ == asked@);
        }
        if q < p && q < a.len() {
            assert(a[q].0@ == asked@);
            if q < b.len() {
                assert(b[q].0@ == asked@ || q == i);
            }
        }
        if p < q && p < b.len() {
            assert(a[p].0@ != asked@);
        }
    }
}

/// A configuration that begins with a brace is written in JSON, any other one in
/// TOML.
pub proof fn law_notation(content: &str, r: ConfigNotation)
    requires
        call_ensures(config_notation, (content,), r),
    ensures
        r is Json <==> trimmed_start(content@).len() > 0 && trimmed_start(content@)[0] == '{',
{
    reveal_strlit("{");
    let s = trimmed_start(content@);
    if s.len() > 0 && s[0] == '{' {
        assert(s.take(1) =~= "{"@);
        assert("{"@.is_prefix_of(s));
    }
    if "{"@.is_prefix_of(s) {
        assert(s.take(1)[0] == s[0]);
    }
}

/// Where nothing is configured the gateway serves this machine alone, encrypts
/// sessions, keeps requests from private addresses and hides secrets in its
/// logs; and such a configuration is in order.
pub proof fn law_defaults(
    config: FrankClawConfig,
    auth: Result<(), FrankClawError>,
    r: Result<(), FrankClawError>,
)
    requires
        call_ensures(FrankClawConfig::default, (), config),
        auth is Ok,
        call_ensures(FrankClawConfig::validate, (&config, auth, true), r),
    ensures
        r is Ok,
        config.gateway.bind is Loopback,
        config.gateway.port == 18789,
        config.gateway.rate_limit.max_attempts == 10,
        config.gateway.rate_limit.window_secs == 60,
        config.gateway.rate_limit.lockout_secs == 300,
        config.gateway.max_connections == 64,
        config.gateway.max_ws_message_bytes == 4194304,
        config.security.encrypt_sessions,
        config.security.ssrf_protection,
        config.security.require_auth_for_network,
        config.security.max_webhook_body_bytes == 1048576,
        config.logging.redact_secrets,
        config.channels@.len() == 0,
        config.models.providers@.len() == 0,
        !config.hooks.enabled,
        !config.cron.enabled,
        config.agents.default_agent@ == "default"@,
{
}

/// A channel that sets nothing lets in paired senders alone, and groups only
/// where they mention the bot.
pub proof fn law_default_policy(policy: ChannelSecurityPolicy)
    requires
        call_ensures(ChannelSecurityPolicy::default, (), policy),
    ensures
        policy.dm_policy is Pairing,
        policy.allow_from@.len() == 0,
        policy.allowed_groups is None,
        policy.require_mention_for_groups,
        policy.max_message_bytes is None,
{
    assert(policy@.allow_from == policy.allow_from.deep_view());
    assert(policy.allow_from.deep_view().len() == policy.allow_from@.len());
    assert(policy@.allowed_groups == policy.allowed_groups.deep_view());
}

/// An agent is known exactly if it is one of those that are configured.
pub proof fn law_known_agents(agents: &AgentsConfig, id: &AgentId, r: bool)
    requires
        call_ensures(AgentsConfig::contains, (agents, id), r),
    ensures
        r <==> exists|i: int|
            0 <= i < agents.agents@.len() && (#[trigger] agents.agents@[i]).0@ == id@,
{
}

proof fn lemma_providers_pass(providers: Seq<ProviderConfig>, i: int)
    requires
        0 <= i <= providers.len(),
        forall|k: int| 0 <= k < providers.len() ==> provider_in_order(#[trigger] providers[k]),
        forall|j: int, k: int|
            0 <= j < k < providers.len() ==> (#[trigger] providers[j]).id@ != (
            #[trigger] providers[k]).id@,
    ensures
        providers_problem(providers, i) is None,
    decreases providers.len() - i,
{
    if i < providers.len() {
        assert(provider_in_order(providers[i]));
        assert forall|j: int| 0 <= j < i implies (#[trigger] providers[j]).id@
            != providers[i].id@ by {}
        lemma_providers_pass(providers, i + 1);
    }
}

/// True of a provider with a name, of a known kind, and with a key where that
/// kind needs one.
pub open spec fn provider_in_order(p: ProviderConfig) -> bool {
    &&& !is_blank(p.id@)
    &&& p.api@ == "openai"@ || p.api@ == "anthropic"@ || p.api@ == "ollama"@
    &&& p.api@ == "openai"@ || p.api@ == "anthropic"@ ==> p.api_key_ref is Some && !is_blank(
        p.api_key_ref->0@,
    )
}

proof fn lemma_channels_pass(channels: Seq<(ChannelId, ChannelConfig)>, i: int)
    requires
        0 <= i <= channels.len(),
        forall|k: int|
            0 <= k < channels.len() ==> policy_problem((#[trigger] channels[k]).1.extra@) is None
                && crate::config::channel_problem(channels[k].0@, channels[k].1) is None,
    ensures
        channels_problem(channels, i) is None,
    decreases channels.len() - i,
{
    if i < channels.len() {
        assert(policy_problem(channels[i].1.extra@) is None);
        lemma_channels_pass(channels, i + 1);
    }
}

/// A configuration is accepted where its default agent is known, its providers
/// are in order with a name each, no limit is zero, its only channel, if it has
/// one, has a policy and its credentials, and its webhooks are in order.
pub proof fn law_configuration_is_accepted(
    config: &FrankClawConfig,
    auth: Result<(), FrankClawError>,
    bind_is_ip: bool,
    at: int,
    policy: Result<ChannelSecurityPolicy, FrankClawError>,
    own: Result<(), FrankClawError>,
    hooks: Result<Vec<crate::config::WebhookMapping>, FrankClawError>,
    r: Result<(), FrankClawError>,
)
    requires
        call_ensures(FrankClawConfig::validate, (config, auth, bind_is_ip), r),
        auth is Ok,
        0 <= at < config.agents.agents@.len(),
        config.agents.agents@[at].0@ == config.agents.default_agent@,
        forall|k: int|
            0 <= k < config.models.providers@.len() ==> provider_in_order(
                #[trigger] config.models.providers@[k],
            ),
        forall|j: int, k: int|
            0 <= j < k < config.models.providers@.len() ==> (
            #[trigger] config.models.providers@[j]).id@ != (
            #[trigger] config.models.providers@[k]).id@,
        config.models.default_model is None || !is_blank(config.models.default_model->0@),
        config.gateway.max_connections > 0,
        config.gateway.max_ws_message_bytes > 0,
        config.gateway.bind is Address ==> bind_is_ip,
        config.channels@.len() <= 1,
        config.channels@.len() == 1 ==> call_ensures(
            ChannelConfig::security_policy,
            (&config.channels@[0].1,),
            policy,
        ) && policy is Ok,
        config.channels@.len() == 1 ==> call_ensures(
            validate_channel_config,
            (&config.channels@[0].0, &config.channels@[0].1),
            own,
        ) && own is Ok,
        call_ensures(crate::config::HooksConfig::parsed_mappings, (&config.hooks,), hooks),
        hooks is Ok,
    ensures
        r is Ok,
{
    lemma_providers_pass(config.models.providers@, 0);
    assert forall|k: int| 0 <= k < config.channels@.len() implies policy_problem(
        (#[trigger] config.channels@[k]).1.extra@,
    ) is None && crate::config::channel_problem(
        config.channels@[k].0@,
        config.channels@[k].1,
    ) is None by {
        assert(k == 0);
    }
    lemma_channels_pass(config.channels@, 0);
}

} // verus!
