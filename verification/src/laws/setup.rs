//! Setting up: a configuration that the setup writes is one that the gateway
//! takes, with what the user answered in it; and running as a service.

use crate::cli::notice::Notice;
use crate::cli::service::{
    agent_line, daemon_pid_status, locale, read_pid_file, remote_check, render_systemd_unit,
    start_args, stop_step, StopStep,
};
use crate::cli::setup::{
    build_onboard_config, build_setup_config, channel_profile, law_onboard_config_is_valid,
    may_write, next_steps, prompt_choice, prompt_yes_no, SetupAnswers,
};
use crate::config::{ChannelConfig, FrankClawConfig};
use crate::error::FrankClawError;
use crate::json::{items_view, lemma_items};
use crate::laws::terms::{said, stands_in};
use crate::text::{before_first, decimal, lower_char, replace, trimmed, unsigned_of};
use vstd::prelude::*;

verus! {

/// A starter configuration can be made for the seven channels that there are. It
/// turns on the channel that was asked for and no other, lets clients in with
/// the token that was given and with nothing else, and encrypts sessions.
pub proof fn law_onboarding(channel: &str, token: &str, r: Result<FrankClawConfig, Notice>)
    requires
        call_ensures(build_onboard_config, (channel, token), r),
    ensures
        r is Ok <==> channel@ == "web"@ || channel@ == "telegram"@ || channel@ == "whatsapp"@
            || channel@ == "slack"@ || channel@ == "discord"@ || channel@ == "signal"@ || channel@
            == "email"@,
        r is Ok ==> {
            let c = r->Ok_0;
            &&& c.channels@.len() == 1 && c.channels@[0].0@ == channel@ && c.channels@[0].1.enabled
            &&& c.gateway.auth is Token && c.gateway.auth->token is Some
                && c.gateway.auth->token->0@ == token@
            &&& c.gateway.bind is Loopback && c.gateway.port == 18789
            &&& c.security.encrypt_sessions
            &&& c.models.providers@.len() == 1 && c.models.providers@[0].api@ == "openai"@
            &&& c.models.providers@[0].api_key_ref is Some
                && c.models.providers@[0].api_key_ref->0@ == "OPENAI_API_KEY"@
            &&& c.models.default_model is Some && c.models.default_model->0@ == "gpt-4o-mini"@
        },
{
    if r is Ok {
        let p = r->Ok_0.models.providers@[0];
        assert(p@.api == p.api@);
        assert(p@.api_key_ref == p.api_key_ref.deep_view());
    }
}

/// The configuration that was made for a channel that the gateway serves is one
/// that it takes.
pub proof fn law_onboarding_is_taken(
    channel: &str,
    token: &str,
    auth: Result<(), FrankClawError>,
    bind_is_ip: bool,
    r: Result<FrankClawConfig, Notice>,
    verdict: Result<(), FrankClawError>,
)
    requires
        call_ensures(build_onboard_config, (channel, token), r),
        r is Ok,
        channel@ != "email"@,
        auth is Ok,
        call_ensures(FrankClawConfig::validate, (&r->Ok_0, auth, bind_is_ip), verdict),
    ensures
        verdict is Ok,
{
    law_onboard_config_is_valid(r->Ok_0, token@, channel@, bind_is_ip);
}

/// The setup makes the configuration that was asked for: the provider, its key
/// or its address, the model, the channel, the port and the encryption that the
/// user chose, and the usual ones where the answer was empty.
pub proof fn law_setup(a: &SetupAnswers, token: &str, r: Result<FrankClawConfig, Notice>)
    requires
        a.provider < 3,
        a.channel < 6,
        call_ensures(build_setup_config, (a, token), r),
    ensures
        r is Ok <==> a.port@.len() == 0 || unsigned_of(a.port@) is Some && unsigned_of(a.port@)->0
            <= u16::MAX,
        r is Ok ==> {
            let c = r->Ok_0;
            let p = c.models.providers@[0];
            &&& a.port@.len() == 0 ==> c.gateway.port == 18789
            &&& a.port@.len() > 0 ==> c.gateway.port == unsigned_of(a.port@)->0
            &&& c.gateway.auth is Token && c.gateway.auth->token is Some
                && c.gateway.auth->token->0@ == token@
            &&& c.gateway.bind is Loopback
            &&& c.security.encrypt_sessions == a.encrypt
            &&& c.models.providers@.len() == 1
            &&& a.provider == 0 ==> p.api@ == "openai"@
            &&& a.provider == 1 ==> p.api@ == "anthropic"@
            &&& a.provider == 2 ==> p.api@ == "ollama"@ && p.api_key_ref is None
            &&& a.provider != 2 ==> p.api_key_ref is Some && p.base_url is None
            &&& a.provider != 2 && a.api_key_env@.len() > 0 ==> p.api_key_ref->0@ == a.api_key_env@
            &&& a.provider == 0 && a.api_key_env@.len() == 0 ==> p.api_key_ref->0@
                == "OPENAI_API_KEY"@
            &&& a.provider == 1 && a.api_key_env@.len() == 0 ==> p.api_key_ref->0@
                == "ANTHROPIC_API_KEY"@
            &&& a.provider == 2 && a.ollama_url@.len() > 0 ==> p.base_url is Some && p.base_url->0@
                == a.ollama_url@
            &&& c.models.default_model is Some
            &&& a.model@.len() > 0 ==> c.models.default_model->0@ == a.model@
            &&& a.model@.len() == 0 && a.provider == 1 ==> c.models.default_model->0@
                == a.anthropic_model@
            &&& p.models@.len() == 1 && p.models@[0]@ == c.models.default_model->0@
            &&& c.channels@.len() == 1 && c.channels@[0].1.enabled
            &&& a.channel == 0 ==> c.channels@[0].0@ == "web"@
            &&& a.channel == 1 ==> c.channels@[0].0@ == "telegram"@
            &&& a.channel == 2 ==> c.channels@[0].0@ == "discord"@
            &&& a.channel == 3 ==> c.channels@[0].0@ == "slack"@
            &&& a.channel == 4 ==> c.channels@[0].0@ == "whatsapp"@
            &&& a.channel == 5 ==> c.channels@[0].0@ == "signal"@
        },
{
    if r is Ok {
        let p = r->Ok_0.models.providers@[0];
        assert(p@.api == p.api@);
        assert(p@.api_key_ref == p.api_key_ref.deep_view());
        assert(p@.base_url == p.base_url.deep_view());
        assert(p@.models == p.models.deep_view());
        assert(p.models.deep_view().len() == p.models@.len());
        assert(p.models.deep_view()[0] == p.models@[0]@);
    }
}

/// The starter settings of a channel name the variables that its credentials
/// are read from; on the web anybody may write.
pub proof fn law_starter_settings(channel: &str, r: Option<ChannelConfig>)
    requires
        call_ensures(channel_profile, (channel,), r),
    ensures
        channel@ == "web"@ ==> r is Some && said(r->0.extra@, "dm_policy"@) == Some("open"@),
        channel@ == "telegram"@ ==> r is Some && r->0.accounts@.len() == 1 && said(
            r->0.accounts@[0]@,
            "bot_token_env"@,
        ) == Some("TELEGRAM_BOT_TOKEN"@),
        channel@ == "discord"@ ==> r is Some && r->0.accounts@.len() == 1 && said(
            r->0.accounts@[0]@,
            "bot_token_env"@,
        ) == Some("DISCORD_BOT_TOKEN"@),
        channel@ == "slack"@ ==> r is Some && r->0.accounts@.len() == 1 && said(
            r->0.accounts@[0]@,
            "app_token_env"@,
        ) == Some("SLACK_APP_TOKEN"@) && said(r->0.accounts@[0]@, "bot_token_env"@) == Some(
            "SLACK_BOT_TOKEN"@,
        ),
        channel@ == "signal"@ ==> r is Some && r->0.accounts@.len() == 1 && said(
            r->0.accounts@[0]@,
            "base_url_env"@,
        ) == Some("SIGNAL_BASE_URL"@),
        channel@ != "web"@ && r is Some ==> said(r->0.extra@, "dm_policy"@) is None,
        r is Some ==> r->0.enabled,
{
    reveal_strlit("web");
    reveal_strlit("telegram");
    reveal_strlit("whatsapp");
    reveal_strlit("slack");
    reveal_strlit("discord");
    reveal_strlit("signal");
    reveal_strlit("email");
    assert("web"@.len() == 3);
    assert("telegram"@.len() == 8 && "telegram"@[0] == 't');
    assert("whatsapp"@.len() == 8 && "whatsapp"@[0] == 'w');
    assert("slack"@.len() == 5 && "slack"@[0] == 's');
    assert("discord"@.len() == 7);
    assert("signal"@.len() == 6);
    assert("email"@.len() == 5 && "email"@[0] == 'e');
    reveal_strlit("app_token_env");
    reveal_strlit("bot_token_env");
    reveal_strlit("base_url_env");
    reveal_strlit("account_env");
    assert("app_token_env"@[0] == 'a' && "bot_token_env"@[0] == 'b');
    assert("base_url_env"@.len() == 12);
    assert("account_env"@.len() == 11);
    if r is Some {
        lemma_items(r->0.accounts@);
        assert(items_view(r->0.accounts@).len() == r->0.accounts@.len());
        if r->0.accounts@.len() > 0 {
            assert(items_view(r->0.accounts@)[0] == r->0.accounts@[0]@);
        }
    }
}

/// A configuration that is there is overwritten only by force or on a yes.
pub proof fn law_nothing_is_overwritten(there: bool, force: bool, answer: &str, r: bool, yes: bool)
    requires
        call_ensures(may_write, (there, force, answer), r),
        call_ensures(prompt_yes_no, (answer, false), yes),
    ensures
        r <==> !there || force || yes,
        there && !force && answer@.len() == 0 ==> !r,
{
    reveal_strlit("y");
    reveal_strlit("yes");
    assert(crate::text::ascii_lower(answer@).len() == answer@.len());
}

/// Yes is `y` or `yes` in either case, an empty answer is the default, and
/// anything else is no.
pub proof fn law_yes(answer: &str, default_yes: bool, r: bool)
    requires
        call_ensures(prompt_yes_no, (answer, default_yes), r),
    ensures
        answer@.len() == 0 ==> r == default_yes,
        answer@.len() > 0 ==> (r <==> answer@.map_values(|c: char| lower_char(c)) == "y"@
            || answer@.map_values(|c: char| lower_char(c)) == "yes"@),
{
    assert(answer@.map_values(|c: char| lower_char(c)) =~= crate::text::ascii_lower(answer@));
}

/// An option is chosen by its number, counted from one; anything else is the
/// default.
pub proof fn law_choice(answer: &str, count: usize, default: usize, r: (usize, bool))
    requires
        call_ensures(prompt_choice, (answer, count, default), r),
    ensures
        answer@.len() == 0 ==> r.0 == default && r.1,
        answer@.len() > 0 && unsigned_of(answer@) is Some && 1 <= unsigned_of(answer@)->0 <= count
            ==> r.0 + 1 == unsigned_of(answer@)->0 && r.1,
        answer@.len() > 0 && (unsigned_of(answer@) is None || unsigned_of(answer@)->0 < 1
            || unsigned_of(answer@)->0 > count) ==> r.0 == default && !r.1,
{
}

/// A process file names the process whose number it holds, white space aside.
pub proof fn law_process_file(content: &str, r: Option<u32>, none: Option<u32>)
    requires
        call_ensures(read_pid_file, (Some(content),), r),
        call_ensures(read_pid_file, (None,), none),
    ensures
        none is None,
        r is Some <==> unsigned_of(trimmed(content@)) is Some && unsigned_of(trimmed(content@))->0
            <= u32::MAX,
        r is Some ==> r->0 == unsigned_of(trimmed(content@))->0,
{
}

/// The gateway is started with the files and the port that it is told to use.
pub proof fn law_how_it_is_started(
    config: Option<&str>,
    state: &str,
    port: Option<u16>,
    r: Vec<String>,
)
    requires
        call_ensures(start_args, (config, state, port), r),
    ensures
        r@.len() >= 3,
        r@[0]@ == "gateway"@,
        config is Some ==> r@[1]@ == "--config"@ && r@[2]@ == config->0@ && r@[3]@ == "--state-dir"@
            && r@[4]@ == state@,
        config is None ==> r@[1]@ == "--state-dir"@ && r@[2]@ == state@,
        port is Some ==> r@[r@.len() - 2]@ == "--port"@ && r@.last()@ == decimal(port->0 as nat),
        port is None ==> r@.last()@ == state@,
{
    let v = r.deep_view();
    assert(v.len() == r@.len());
    assert forall|i: int| 0 <= i < r@.len() implies (#[trigger] r@[i])@ == v[i] by {}
}

/// The unit of the service runs the program with the configuration and the state
/// that it is given, and works in the state directory.
pub proof fn law_service_unit(program: &str, config: &str, state: &str, r: String)
    requires
        call_ensures(render_systemd_unit, (program, config, state), r),
    ensures
        stands_in(
            "ExecStart="@ + program@ + " gateway --config "@ + config@ + " --state-dir "@ + state@,
            r@,
        ),
        stands_in("WorkingDirectory="@ + state@, r@),
{
    let head =
        "[Unit]\nDescription=FrankClaw Gateway\nAfter=network-online.target\nWants=network-online.target\n\n[Service]\nType=simple\nExecStart="@;
    let tail =
        "\nRestart=on-failure\nRestartSec=5\nEnvironment=RUST_LOG=info\n# Environment=FRANKCLAW_MASTER_KEY=...\n\n[Install]\nWantedBy=default.target\n"@;
    reveal_strlit(
        "[Unit]\nDescription=FrankClaw Gateway\nAfter=network-online.target\nWants=network-online.target\n\n[Service]\nType=simple\nExecStart=",
    );
    reveal_strlit("ExecStart=");
    reveal_strlit("\nWorkingDirectory=");
    reveal_strlit("WorkingDirectory=");
    let n = head.len() - 10;
    assert(head =~= head.take(n) + "ExecStart="@);
    let line = "ExecStart="@ + program@ + " gateway --config "@ + config@ + " --state-dir "@
        + state@;
    assert(r@ =~= (head.take(n) + line) + ("\nWorkingDirectory="@ + state@ + tail));
    assert("\nWorkingDirectory="@ =~= seq!['\n'] + "WorkingDirectory="@);
    let place = "WorkingDirectory="@ + state@;
    assert(r@ =~= ((head.take(n) + line + seq!['\n']) + place) + tail);
}

/// A process that was asked to end is given time twenty times, then it is ended
/// by force.
pub proof fn law_stopping(looks: u32, alive: bool, r: StopStep)
    requires
        call_ensures(stop_step, (looks, alive), r),
    ensures
        r is Done <==> !alive,
        r is WaitAndLook <==> alive && looks < 20,
        r is Force <==> alive && looks >= 20,
{
}

/// The gateway is fit for the public where it is ready for that, and for remote
/// use where it is ready for that.
pub proof fn law_remote(public: bool, public_ready: bool, remote_ready: bool, r: Result<(), Notice>)
    requires
        call_ensures(remote_check, (public, public_ready, remote_ready), r),
    ensures
        public ==> (r is Ok <==> public_ready),
        !public ==> (r is Ok <==> remote_ready),
{
}

/// The language is the one that was asked for, else that of the system without
/// its encoding, else English.
pub proof fn law_language(
    asked: Option<&str>,
    lang: Option<&str>,
    bare: &str,
    low: &str,
    dash: &str,
    plain: String,
    r: String,
)
    requires
        call_ensures(locale, (asked, lang), r),
        lang is Some ==> bare@ == before_first(lang->0@, '.'),
        low@ == "_"@,
        dash@ == "-"@,
        call_ensures(replace, (bare, low, dash), plain),
    ensures
        asked is Some ==> r@ == asked->0@,
        asked is None && lang is Some ==> r@ == plain@,
        asked is None && lang is None ==> r@ == "en"@,
{
}

/// Who sets up encryption is told how to make the key, who chose a provider with
/// a key which variable to set, and everybody how to start.
pub proof fn law_next_steps(a: &SetupAnswers, r: Vec<Notice>)
    requires
        a.provider < 3,
        a.channel < 6,
        call_ensures(next_steps, (a,), r),
    ensures
        r@.len() >= 3,
        r@.last().key@ == "setup.start_gateway"@,
        a.encrypt ==> r@[0].key@ == "setup.encryption_on"@ && r@[1].key@ == "setup.encryption_cmd"@,
        !a.encrypt ==> r@[0].key@ == "setup.next_steps"@,
        a.provider != 2 ==> ({
            let at: int = if a.encrypt {
                3
            } else {
                1
            };
            r@[at].key@ == "setup.export_key"@ && (a.api_key_env@.len() > 0
                ==> r@[at]@.args.contains(("env"@, a.api_key_env@)))
        }),
{
    let v = r.deep_view();
    assert(v.len() == r@.len());
    assert forall|i: int| 0 <= i < r@.len() implies (#[trigger] r@[i]).key@ == v[i].key by {
        assert(v[i] == r@[i]@);
    }
    if a.provider != 2 {
        let at: int = if a.encrypt {
            3
        } else {
            1
        };
        assert(v[at] == r@[at]@);
        assert(v[at].args.contains(v[at].args[0]));
    }
}

/// How a background process stands is told by its number, and nothing where
/// there is none.
pub proof fn law_process_status(pid: Option<u32>, alive: bool, r: Option<Notice>)
    requires
        call_ensures(daemon_pid_status, (pid, alive), r),
    ensures
        r is Some <==> pid is Some,
        r is Some && alive ==> r->0.key@ == "daemon.running"@,
        r is Some && !alive ==> r->0.key@ == "daemon.not_running"@,
        r is Some ==> r->0@.args.contains(("pid"@, decimal(pid->0 as nat))),
{
    if r is Some {
        assert(r->0@.args.contains(r->0@.args[0]));
    }
}

/// The line on an agent shows its own model, else the default one.
pub proof fn law_agent_line(
    id: &str,
    model: &Option<String>,
    default: &Option<String>,
    tools: &Vec<String>,
    skills: &Vec<String>,
    unset: &str,
    r: String,
)
    requires
        call_ensures(agent_line, (id, model, default, tools, skills, unset), r),
    ensures
        ({
            let shown = if *model is Some {
                (*model)->0@
            } else if *default is Some {
                (*default)->0@
            } else {
                unset@
            };
            &&& ("  "@ + id@ + "  model="@ + shown + "  tools="@).is_prefix_of(r@)
            &&& tools@.len() == 0 ==> ("  "@ + id@ + "  model="@ + shown + "  tools="@ + "-"@
                + "  skills="@).is_prefix_of(r@)
        }),
{
    let shown = if *model is Some {
        (*model)->0@
    } else if *default is Some {
        (*default)->0@
    } else {
        unset@
    };
    let head = "  "@ + id@ + "  model="@ + shown + "  tools="@;
    let t = crate::cli::service::row_of(tools.deep_view());
    let s = crate::cli::service::row_of(skills.deep_view());
    assert(r@ == head + (t + "  skills="@ + s));
    assert(r@.take(head.len() as int) =~= head);
    if tools@.len() == 0 {
        assert(tools.deep_view().len() == 0);
        let more = head + "-"@ + "  skills="@;
        assert(r@ =~= more + s);
        assert(r@.take(more.len() as int) =~= more);
    }
}

} // verus!
