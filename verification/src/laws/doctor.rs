//! The doctor: each thing that is wrong is warned of, and a report is good only
//! if nothing is.

use crate::channels::Environment;
use crate::cli::audit::{configured_tools, flat, secret_settings};
use crate::cli::doctor::{
    account_warning, all_checks, browser_probe, browser_tools_enabled, browser_warnings,
    channel_checks, channel_warning, check_dir_permissions, check_file_permissions,
    collect_doctor_warnings, database_checks, doctor_settings, doctor_summary, env_warning, fails,
    general_warnings, inline_warning, policy_failure, port_check, provider_check, provider_checks,
    provider_warning, reach_check, run_doctor, run_doctor_without_config, section_checks,
    security_checks, state_checks, warns, BrowserProbe, CheckResult, ConfigProblem, DatabaseProbe,
    DoctorReport, Endpoint, Observed, PortProbe, SystemFacts,
};
use crate::cli::notice::{Notice, NoticeView};
use crate::cli::secrets::{load_master_key_from_env, KeyProblem};
use crate::config::{
    policy_problem, ChannelConfig, ChannelSecurityPolicy, FrankClawConfig, ProviderConfig,
};
use crate::error::FrankClawError;
use crate::laws::audit::{lemma_either, lemma_flat, lemma_flat_none};
use crate::laws::settings::gives;
use crate::text::{decimal, is_blank};
use crate::types::ChannelId;
use vstd::prelude::*;

verus! {

/// True of a list of messages with one under a given key.
pub open spec fn warned(notices: Seq<Notice>, key: Seq<char>) -> bool {
    exists|i: int| 0 <= i < notices.len() && (#[trigger] notices[i]).key@ == key
}

proof fn lemma_warned(v: Vec<Notice>, x: NoticeView)
    requires
        v.deep_view().contains(x),
    ensures
        warned(v@, x.key),
{
    let i = choose|i: int| 0 <= i < v.deep_view().len() && v.deep_view()[i] == x;
    assert(v.deep_view().len() == v@.len());
    assert(v.deep_view()[i] == v@[i]@);
    assert(v@[i]@.key == v@[i].key@);
}

/// True of the one check of a list.
pub open spec fn only(r: Vec<CheckResult<Notice>>, c: CheckResult<Notice>) -> bool {
    r@.len() == 1 && r@[0] == c
}

/// A file or a directory that is there is good exactly if nobody but its owner
/// can get at it.
pub proof fn law_permissions(
    mode: Option<u32>,
    label: &str,
    file: Vec<CheckResult<Notice>>,
    dir: Vec<CheckResult<Notice>>,
)
    requires
        call_ensures(check_file_permissions, (mode, label), file),
        call_ensures(check_dir_permissions, (mode, label), dir),
    ensures
        mode is None ==> file@.len() == 0 && dir@.len() == 0,
        mode is Some ==> file@.len() == 1 && dir@.len() == 1,
        mode is Some && mode->0 % 64 == 0 ==> file@[0] is Pass && dir@[0] is Pass,
        mode is Some && mode->0 % 64 != 0 ==> file@[0] is Warn && dir@[0] is Warn,
{
    assert(file.deep_view().len() == file@.len());
    assert(dir.deep_view().len() == dir@.len());
    if mode is Some {
        assert(file.deep_view()[0] == file@[0]@);
        assert(dir.deep_view()[0] == dir@[0]@);
    }
}

/// A state directory that is missing is warned of; a database that is broken is
/// a failure, one that is missing is not.
pub proof fn law_state_and_database(
    exists_: bool,
    mode: Option<u32>,
    path: &str,
    probe: &DatabaseProbe,
    state: Vec<CheckResult<Notice>>,
    database: Vec<CheckResult<Notice>>,
)
    requires
        call_ensures(state_checks, (exists_, mode, path), state),
        call_ensures(database_checks, (probe, mode), database),
    ensures
        state@.len() > 0,
        exists_ ==> state@[0] is Pass,
        !exists_ ==> state@.len() == 1 && state@[0] is Warn,
        exists_ && mode is Some && mode->0 % 64 != 0 ==> state@.len() == 2 && state@[1] is Warn,
        database@.len() > 0,
        database@[0] is Fail <==> probe is Broken,
        database@[0] is Pass <==> probe is Healthy,
        database@[0] is Info <==> probe is Missing,
        !(probe is Missing) && mode is Some && mode->0 % 64 != 0 ==> database@.len() == 2
            && database@[1] is Warn,
{
    assert(state.deep_view().len() == state@.len());
    assert(database.deep_view().len() == database@.len());
    assert(state.deep_view()[0] == state@[0]@);
    assert(database.deep_view()[0] == database@[0]@);
    if state@.len() == 2 {
        assert(state.deep_view()[1] == state@[1]@);
    }
    if database@.len() == 2 {
        assert(database.deep_view()[1] == database@[1]@);
    }
}

/// A port that is free is good; any other is warned of, by its number.
pub proof fn law_port(port: u16, probe: &PortProbe, r: CheckResult<Notice>)
    requires
        call_ensures(port_check, (port, probe), r),
    ensures
        r is Pass <==> probe is Free,
        r is Warn <==> !(probe is Free),
        probe is Free ==> r->Pass_0@.args.contains(("port"@, decimal(port as nat))),
        probe is InUse ==> r->Warn_0@.key == "doctor.port.in_use"@ && r->Warn_0@.args.contains(
            ("port"@, decimal(port as nat)),
        ),
{
    let at = ("port"@, decimal(port as nat));
    if probe is Free {
        assert(r->Pass_0@.args[0] == at);
    } else if probe is InUse {
        assert(r->Warn_0@.args[0] == at);
    }
}

/// A provider is good where its key is in the environment, and is then tried at
/// its address; one without is warned of and not tried.
pub proof fn law_provider(
    provider: &ProviderConfig,
    vars: &Environment,
    url: &str,
    outcome: &Result<(), String>,
    r: (CheckResult<Notice>, Option<String>),
    reached: CheckResult<Notice>,
)
    requires
        call_ensures(provider_check, (provider, vars), r),
        call_ensures(reach_check, (url, outcome), reached),
    ensures
        ({
            let env = provider.api_key_ref;
            let keyed = env is Some && vars@.dom().contains(env->0@) && !is_blank(
                vars@[env->0@]@,
            );
            &&& r.0 is Pass <==> keyed
            &&& r.0 is Warn <==> !keyed
            &&& !keyed ==> r.1 is None
            &&& keyed && provider.base_url is Some && provider.base_url->0@.len() > 0 ==> r.1 is Some
                && r.1->0@ == provider.base_url->0@
            &&& keyed && provider.base_url is None && provider.api@ == "openai"@ ==> r.1 is Some
                && r.1->0@ == "https://api.openai.com"@
            &&& keyed && provider.base_url is None && provider.api@ == "anthropic"@ ==> r.1 is Some
                && r.1->0@ == "https://api.anthropic.com"@
        }),
        reached is Pass <==> outcome is Ok,
        reached is Warn <==> outcome is Err,
{
    reveal_strlit("openai");
    reveal_strlit("anthropic");
    reveal_strlit("https://api.openai.com");
    reveal_strlit("https://api.anthropic.com");
    assert("openai"@.len() == 6);
    assert("anthropic"@.len() == 9);
    assert(r.1.deep_view() is Some == r.1 is Some);
}

/// Encryption is good where it is on and has a key, authentication where there
/// is any; a key that cannot be used ends the checks.
pub proof fn law_security(
    config: &FrankClawConfig,
    vars: &Environment,
    key: Result<Option<Vec<u8>>, KeyProblem>,
    r: Result<Vec<CheckResult<Notice>>, Notice>,
)
    requires
        call_ensures(security_checks, (config, vars), r),
        call_ensures(load_master_key_from_env, (vars,), key),
    ensures
        r is Err <==> config.security.encrypt_sessions && key is Err,
        r is Ok ==> {
            let checks = r->Ok_0@;
            &&& checks.len() == 2
            &&& checks[0] is Pass <==> config.security.encrypt_sessions && key->Ok_0 is Some
            &&& checks[0] is Warn <==> !(checks[0] is Pass)
            &&& checks[1] is Warn <==> config.gateway.auth is Disabled
            &&& checks[1] is Pass <==> !(config.gateway.auth is Disabled)
        },
{
    if r is Ok {
        let v = r->Ok_0;
        assert(v.deep_view().len() == v@.len());
        assert(v.deep_view()[0] == v@[0]@);
        assert(v.deep_view()[1] == v@[1]@);
    }
}

proof fn lemma_counts(checks: Seq<CheckResult<NoticeView>>)
    ensures
        fails(checks) > 0 <==> exists|i: int| 0 <= i < checks.len() && (#[trigger] checks[i]) is Fail,
        warns(checks) > 0 <==> exists|i: int| 0 <= i < checks.len() && (#[trigger] checks[i]) is Warn,
    decreases checks.len(),
{
    reveal(Seq::filter);
    if checks.len() > 0 {
        let front = checks.drop_last();
        lemma_counts(front);
        if fails(front) > 0 {
            let i = choose|i: int| 0 <= i < front.len() && (#[trigger] front[i]) is Fail;
            assert(checks[i] is Fail);
        }
        if warns(front) > 0 {
            let i = choose|i: int| 0 <= i < front.len() && (#[trigger] front[i]) is Warn;
            assert(checks[i] is Warn);
        }
        if exists|i: int| 0 <= i < checks.len() && (#[trigger] checks[i]) is Fail {
            let i = choose|i: int| 0 <= i < checks.len() && (#[trigger] checks[i]) is Fail;
            if i < front.len() {
                assert(front[i] is Fail);
            }
        }
        if exists|i: int| 0 <= i < checks.len() && (#[trigger] checks[i]) is Warn {
            let i = choose|i: int| 0 <= i < checks.len() && (#[trigger] checks[i]) is Warn;
            if i < front.len() {
                assert(front[i] is Warn);
            }
        }
        assert(checks[checks.len() - 1] == checks.last());
    }
}

/// The summary speaks of failures exactly if a check failed, of warnings exactly
/// if none failed and one warned, and says that all is well otherwise.
pub proof fn law_summary(checks: &Vec<&CheckResult<Notice>>, r: Notice)
    requires
        call_ensures(doctor_summary, (checks,), r),
    ensures
        ({
            let failed = exists|i: int|
                0 <= i < checks@.len() && (#[trigger] checks@[i]) is Fail;
            let warned = exists|i: int|
                0 <= i < checks@.len() && (#[trigger] checks@[i]) is Warn;
            &&& failed ==> r.key@ == "doctor.summary.critical"@
            &&& !failed && warned ==> r.key@ == "doctor.summary.warnings"@
            &&& !failed && !warned ==> r.key@ == "doctor.summary.ok"@
        }),
{
    let all = checks.deep_view();
    lemma_counts(all);
    assert(all.len() == checks@.len());
    assert(r@.key == r.key@);
    assert forall|i: int| 0 <= i < all.len() implies (#[trigger] all[i]) == checks@[i]@ by {}
    if exists|i: int| 0 <= i < all.len() && (#[trigger] all[i]) is Fail {
        let i = choose|i: int| 0 <= i < all.len() && (#[trigger] all[i]) is Fail;
        assert(checks@[i] is Fail);
    }
    if exists|i: int| 0 <= i < all.len() && (#[trigger] all[i]) is Warn {
        let i = choose|i: int| 0 <= i < all.len() && (#[trigger] all[i]) is Warn;
        assert(checks@[i] is Warn);
    }
    if exists|i: int| 0 <= i < checks@.len() && (#[trigger] checks@[i]) is Fail {
        let i = choose|i: int| 0 <= i < checks@.len() && (#[trigger] checks@[i]) is Fail;
        assert(all[i] is Fail);
    }
    if exists|i: int| 0 <= i < checks@.len() && (#[trigger] checks@[i]) is Warn {
        let i = choose|i: int| 0 <= i < checks@.len() && (#[trigger] checks@[i]) is Warn;
        assert(all[i] is Warn);
    }
}

/// What the settings as a whole lack is warned of.
pub proof fn law_general_warnings(
    config: &FrankClawConfig,
    vars: &Environment,
    state_dir: &str,
    state_exists: bool,
    exposure: Result<Vec<String>, String>,
    browser: Vec<Notice>,
    key: Result<Option<Vec<u8>>, KeyProblem>,
    r: Result<Vec<Notice>, Notice>,
)
    requires
        call_ensures(
            collect_doctor_warnings,
            (config, vars, state_dir, state_exists, exposure, browser),
            r,
        ),
        call_ensures(load_master_key_from_env, (vars,), key),
    ensures
        config.security.encrypt_sessions && key is Err ==> r is Err,
        exposure is Err ==> r is Err,
        r is Ok ==> {
            let out = r->Ok_0@;
            &&& config.models.providers@.len() == 0 ==> warned(out, "warn.no_providers"@)
            &&& config.channels@.len() == 0 ==> warned(out, "warn.no_channels"@)
            &&& !config.security.encrypt_sessions ==> warned(out, "warn.encrypt_off"@)
            &&& config.security.encrypt_sessions && key is Ok && key->Ok_0 is None ==> warned(
                out,
                "warn.encrypt_no_key"@,
            )
            &&& !state_exists ==> warned(out, "warn.state_missing"@)
        },
{
    if r is Ok {
        let general = general_warnings(*config, vars@, state_dir@, state_exists);
        let providers = flat(config.models.providers@, provider_warning(vars@));
        let channels = flat(config.channels@, channel_warning(vars@));
        let exposed = exposure->Ok_0.deep_view().map_values(
            |w: Seq<char>| crate::cli::notice::plain(w),
        );
        let all = r->Ok_0.deep_view();
        assert(all == general + providers + channels + exposed + browser.deep_view());
        assert forall|i: int| 0 <= i < general.len() implies warned(
            r->Ok_0@,
            (#[trigger] general[i]).key,
        ) by {
            assert(all[i] == general[i]);
            assert(all.contains(general[i]));
            lemma_warned(r->Ok_0, general[i]);
        }
        let a: int = if config.models.providers@.len() == 0 {
            1
        } else {
            0
        };
        let b: int = if config.channels@.len() == 0 {
            a + 1
        } else {
            a
        };
        if config.models.providers@.len() == 0 {
            assert(general[0].key == "warn.no_providers"@);
        }
        if config.channels@.len() == 0 {
            assert(general[a].key == "warn.no_channels"@);
        }
        if !config.security.encrypt_sessions {
            assert(general[b].key == "warn.encrypt_off"@);
        }
        if config.security.encrypt_sessions && key is Ok && key->Ok_0 is None {
            assert(general[b].key == "warn.encrypt_no_key"@);
        }
        if !state_exists {
            assert(general[general.len() - 1].key == "warn.state_missing"@);
        }
    }
}

/// A provider whose key is not in the environment, a secret that stands in a
/// channel's settings, and a variable that a channel names but that is not set
/// are warned of.
pub proof fn law_particular_warnings(
    config: &FrankClawConfig,
    vars: &Environment,
    state_dir: &str,
    state_exists: bool,
    exposure: Result<Vec<String>, String>,
    browser: Vec<Notice>,
    p: int,
    c: int,
    a: int,
    k: int,
    r: Result<Vec<Notice>, Notice>,
)
    requires
        call_ensures(
            collect_doctor_warnings,
            (config, vars, state_dir, state_exists, exposure, browser),
            r,
        ),
        r is Ok,
    ensures
        0 <= p < config.models.providers@.len() && config.models.providers@[p].api_key_ref is Some
            && !vars@.dom().contains(config.models.providers@[p].api_key_ref->0@) ==> warned(
            r->Ok_0@,
            "warn.missing_env"@,
        ),
        0 <= c < config.channels@.len() && 0 <= a < config.channels@[c].1.accounts@.len() && (gives(
            config.channels@[c].1.accounts@[a]@,
            "bot_token"@,
        ) || gives(config.channels@[c].1.accounts@[a]@, "access_token"@)) ==> warned(
            r->Ok_0@,
            "warn.channel_inline_secret"@,
        ),
        0 <= c < config.channels@.len() && 0 <= a < config.channels@[c].1.accounts@.len()
            && config.channels@[c].0@ == "whatsapp"@ && !gives(
            config.channels@[c].1.accounts@[a]@,
            "app_secret"@,
        ) && !gives(config.channels@[c].1.accounts@[a]@, "app_secret_env"@) ==> warned(
            r->Ok_0@,
            "warn.whatsapp_no_secret"@,
        ),
        0 <= k < browser@.len() ==> warned(r->Ok_0@, browser@[k].key@),
{
    let general = general_warnings(*config, vars@, state_dir@, state_exists);
    let providers = flat(config.models.providers@, provider_warning(vars@));
    let channels = flat(config.channels@, channel_warning(vars@));
    let exposed = exposure->Ok_0.deep_view().map_values(
        |w: Seq<char>| crate::cli::notice::plain(w),
    );
    let seen = browser.deep_view();
    let all = r->Ok_0.deep_view();
    assert(all == general + providers + channels + exposed + seen);
    if 0 <= p < config.models.providers@.len() && config.models.providers@[p].api_key_ref is Some
        && !vars@.dom().contains(config.models.providers@[p].api_key_ref->0@) {
        let made = provider_warning(vars@)(config.models.providers@[p]);
        let x = made[0];
        assert(made.contains(x));
        lemma_flat(config.models.providers@, provider_warning(vars@), p, x);
        lemma_either(general, providers, x);
        lemma_either(general + providers, channels, x);
        lemma_either(general + providers + channels, exposed, x);
        lemma_either(general + providers + channels + exposed, seen, x);
        lemma_warned(r->Ok_0, x);
    }
    if 0 <= c < config.channels@.len() && 0 <= a < config.channels@[c].1.accounts@.len() {
        let channel = config.channels@[c];
        let account = channel.1.accounts@[a];
        let own = account_warning(vars@, channel.0@)(account);
        let envs = flat(doctor_settings(), env_warning(vars@, channel.0@, account@));
        let each = inline_warning(channel.0@, account@);
        let secrets = flat(secret_settings(), each);
        let bare = crate::cli::doctor::when(
            channel.0@ == "whatsapp"@ && !crate::cli::audit::has_app_secret(account@),
            crate::cli::notice::note("warn.whatsapp_no_secret"@),
        );
        assert(own == envs + secrets + bare);
        if gives(account@, "bot_token"@) || gives(account@, "access_token"@) {
            let n: int = if gives(account@, "bot_token"@) {
                0
            } else {
                3
            };
            let made = each(secret_settings()[n]);
            let x = made[0];
            assert(made.contains(x));
            lemma_flat(secret_settings(), each, n, x);
            lemma_either(envs, secrets, x);
            lemma_either(envs + secrets, bare, x);
            lemma_of_channel(*config, vars@, c, a, x);
            lemma_either(general + providers, channels, x);
            lemma_either(general + providers + channels, exposed, x);
            lemma_either(general + providers + channels + exposed, seen, x);
            lemma_warned(r->Ok_0, x);
        }
        if channel.0@ == "whatsapp"@ && !gives(account@, "app_secret"@) && !gives(
            account@,
            "app_secret_env"@,
        ) {
            let x = bare[0];
            assert(bare.contains(x));
            lemma_either(envs + secrets, bare, x);
            lemma_of_channel(*config, vars@, c, a, x);
            lemma_either(general + providers, channels, x);
            lemma_either(general + providers + channels, exposed, x);
            lemma_either(general + providers + channels + exposed, seen, x);
            lemma_warned(r->Ok_0, x);
        }
    }
    if 0 <= k < browser@.len() {
        assert(seen.len() == browser@.len());
        assert(seen[k] == browser@[k]@);
        let x = seen[k];
        assert(seen.contains(x));
        lemma_either(general + providers + channels + exposed, seen, x);
        lemma_warned(r->Ok_0, x);
        assert(x.key == browser@[k].key@);
    }
}

proof fn lemma_of_channel(
    config: FrankClawConfig,
    vars: Map<Seq<char>, String>,
    c: int,
    a: int,
    x: NoticeView,
)
    requires
        0 <= c < config.channels@.len(),
        0 <= a < config.channels@[c].1.accounts@.len(),
        account_warning(vars, config.channels@[c].0@)(
            config.channels@[c].1.accounts@[a],
        ).contains(x),
    ensures
        flat(config.channels@, channel_warning(vars)).contains(x),
{
    let channel = config.channels@[c];
    let own = account_warning(vars, channel.0@);
    lemma_flat(channel.1.accounts@, own, a, x);
    let front = crate::cli::doctor::when(
        crate::cli::audit::groups_open(channel.0@, channel.1.extra@),
        crate::cli::notice::note_with("warn.channel_open_groups"@, "channel"@, channel.0@),
    );
    lemma_either(front, flat(channel.1.accounts@, own), x);
    lemma_flat(config.channels@, channel_warning(vars), c, x);
}

/// The browser is tried at the host and the port of its address, on its usual
/// port where none is named; one that is not on this machine is warned of.
pub proof fn law_browser_probe(
    endpoint: &str,
    host: String,
    port: Option<u16>,
    blocked: bool,
    r: BrowserProbe,
)
    requires
        call_ensures(
            browser_probe,
            (
                endpoint,
                Result::<Endpoint, String>::Ok(Endpoint { host: Some(host), port }),
                blocked,
            ),
            r,
        ),
    ensures
        match r.connect {
            Some((h, p)) => h@ == host@ && (port is Some ==> p == port->0) && (port is None ==> p
                == 9222),
            None => false,
        },
        host@ != "127.0.0.1"@ && host@ != "localhost"@ ==> warned(
            r.warnings@,
            "browser.non_loopback"@,
        ),
        blocked ==> warned(r.warnings@, "browser.mutations_blocked"@),
        !blocked && (host@ == "127.0.0.1"@ || host@ == "localhost"@) ==> r.warnings@.len() == 0,
{
    let w = r.warnings.deep_view();
    assert(w.len() == r.warnings@.len());
    if blocked {
        assert(w.contains(w[0]));
        lemma_warned(r.warnings, w[0]);
    }
    if host@ != "127.0.0.1"@ && host@ != "localhost"@ {
        assert(w.contains(w.last()));
        lemma_warned(r.warnings, w.last());
    }
}

/// A browser that does not answer is warned of, behind what was warned of
/// before.
pub proof fn law_unreachable_browser(probe: BrowserProbe, reachable: bool, r: Vec<Notice>)
    requires
        call_ensures(browser_warnings, (probe, reachable), r),
    ensures
        probe.connect is Some && !reachable ==> r@.len() == probe.warnings@.len() + 1
            && r@.last().key@ == "browser.unreachable"@,
        probe.connect is None || reachable ==> r@.len() == probe.warnings@.len(),
{
    assert(r.deep_view().len() == r@.len());
    assert(probe.warnings.deep_view().len() == probe.warnings@.len());
    if probe.connect is Some && !reachable {
        assert(r.deep_view().last() == r@.last()@);
        assert(r@.last()@.key == r@.last().key@);
    }
}

/// A browser is driven exactly if some tool of an agent begins with its name.
pub proof fn law_browser_tools(config: &FrankClawConfig, tools: Vec<String>, r: bool)
    requires
        call_ensures(configured_tools, (config,), tools),
        call_ensures(browser_tools_enabled, (config,), r),
    ensures
        r <==> exists|i: int|
            0 <= i < tools@.len() && "browser."@.is_prefix_of((#[trigger] tools@[i])@),
{
    let all = tools.deep_view();
    assert(all.len() == tools@.len());
    if r {
        let i = choose|i: int| 0 <= i < all.len() && "browser."@.is_prefix_of(#[trigger] all[i]);
        assert(all[i] == tools@[i]@);
    }
    if exists|i: int| 0 <= i < tools@.len() && "browser."@.is_prefix_of((#[trigger] tools@[i])@) {
        let i = choose|i: int|
            0 <= i < tools@.len() && "browser."@.is_prefix_of((#[trigger] tools@[i])@);
        assert(all[i] == tools@[i]@);
    }
}

/// A report on a configuration that cannot be read or is not valid is short and
/// ends with a failure that tells why.
pub proof fn law_report_without_configuration(
    facts: &SystemFacts,
    problem: &ConfigProblem,
    r: DoctorReport,
)
    requires
        call_ensures(run_doctor_without_config, (facts, problem), r),
    ensures
        r.sections@.len() == 2,
        r.sections@[1].checks@.len() == 1,
        r.sections@[1].checks@[0] is Fail,
        problem is Unreadable ==> r.sections@[1].checks@[0]->Fail_0@.args.contains(
            ("error"@, problem->Unreadable_0@),
        ),
        problem is Invalid ==> r.sections@[1].checks@[0]->Fail_0@.args.contains(
            ("error"@, problem->Invalid_0@),
        ),
{
    assert(r@.sections == r.sections.deep_view());
    assert(r.sections.deep_view().len() == r.sections@.len());
    assert(r.sections.deep_view()[1] == r.sections@[1]@);
    let checks = r.sections@[1].checks;
    assert(r.sections@[1]@.checks == checks.deep_view());
    assert(checks.deep_view().len() == checks@.len());
    assert(checks.deep_view()[0] == checks@[0]@);
    let args = checks@[0]->Fail_0@.args;
    assert(args.len() == 1);
    assert(args.contains(args[0]));
}

/// A full report has eight parts, of which each is what its own checks found; a
/// report that could not be completed ends with the reason after the first.
pub proof fn law_full_report(
    facts: &SystemFacts,
    config: &FrankClawConfig,
    vars: &Environment,
    seen: Observed,
    database: Vec<CheckResult<Notice>>,
    port: CheckResult<Notice>,
    providers: Vec<CheckResult<Notice>>,
    channels: Vec<CheckResult<Notice>>,
    security: Result<Vec<CheckResult<Notice>>, Notice>,
    r: DoctorReport,
)
    requires
        seen.reached@.len() == config.models.providers@.len(),
        call_ensures(run_doctor, (facts, config, vars, seen), r),
        call_ensures(database_checks, (&seen.database, seen.database_mode), database),
        call_ensures(port_check, (config.gateway.port, &seen.port), port),
        call_ensures(provider_checks, (config, vars, &seen.reached), providers),
        call_ensures(channel_checks, (config,), channels),
        call_ensures(security_checks, (config, vars), security),
    ensures
        r.end is Err ==> r.sections@.len() == 1,
        security is Err ==> r.end is Err,
        seen.exposure is Err ==> r.end is Err,
        r.end is Ok ==> {
            &&& r.sections@.len() == 8
            &&& r.sections@[3].checks.deep_view() == database.deep_view()
            &&& r.sections@[4].checks@.len() == 1 && r.sections@[4].checks@[0]@ == port@
            &&& r.sections@[5].checks.deep_view() == providers.deep_view()
            &&& r.sections@[6].checks.deep_view() == channels.deep_view()
            &&& security is Ok
            &&& r.sections@[7].checks.deep_view() == security->Ok_0.deep_view()
        },
{
    let v = r.sections.deep_view();
    assert(r@.sections == v);
    assert(v.len() == r.sections@.len());
    if r.end is Ok {
        assert(v[3] == r.sections@[3]@);
        assert(v[4] == r.sections@[4]@);
        assert(v[5] == r.sections@[5]@);
        assert(v[6] == r.sections@[6]@);
        assert(v[7] == r.sections@[7]@);
        let net = r.sections@[4].checks;
        assert(net.deep_view().len() == net@.len());
        assert(net.deep_view()[0] == net@[0]@);
    }
}

/// A report that ends well has no failure and no warning in any of its parts,
/// and one that ends badly has one.
pub proof fn law_end_of_the_report(
    facts: &SystemFacts,
    config: &FrankClawConfig,
    vars: &Environment,
    seen: Observed,
    s: int,
    i: int,
    r: DoctorReport,
)
    requires
        seen.reached@.len() == config.models.providers@.len(),
        call_ensures(run_doctor, (facts, config, vars, seen), r),
        r.end is Ok,
        0 <= s < r.sections@.len(),
        0 <= i < r.sections@[s].checks@.len(),
    ensures
        r.sections@[s].checks@[i] is Fail ==> r.end->Ok_0.key@ == "doctor.summary.critical"@,
        r.sections@[s].checks@[i] is Warn ==> r.end->Ok_0.key@ == "doctor.summary.critical"@
            || r.end->Ok_0.key@ == "doctor.summary.warnings"@,
{
    let v = r.sections.deep_view();
    assert(r@.sections == v);
    assert(v.len() == r.sections@.len());
    assert(v[s] == r.sections@[s]@);
    let checks = r.sections@[s].checks;
    assert(v[s].checks == checks.deep_view());
    assert(checks.deep_view().len() == checks@.len());
    assert(checks.deep_view()[i] == checks@[i]@);
    let x = checks@[i]@;
    assert(section_checks()(v[s]).contains(x));
    lemma_flat(v, section_checks(), s, x);
    let all = all_checks(v);
    let k = choose|k: int| 0 <= k < all.len() && all[k] == x;
    assert(all[k] == x);
    lemma_counts(all);
    assert(r.end->Ok_0@.key == r.end->Ok_0.key@);
}

proof fn lemma_policies(channels: Seq<(ChannelId, ChannelConfig)>, i: int)
    requires
        0 <= i <= channels.len(),
        forall|k: int|
            0 <= k < channels.len() ==> policy_problem((#[trigger] channels[k]).1.extra@) is None,
    ensures
        policy_failure(channels, i) is None,
    decreases channels.len() - i,
{
    if i < channels.len() {
        assert(policy_problem(channels[i].1.extra@) is None);
        lemma_policies(channels, i + 1);
    }
}

/// A configuration with providers whose keys are set, with the web channel
/// alone, with encryption and its key, and with nothing exposed is warned of in
/// nothing.
pub proof fn law_nothing_to_warn_of(
    config: &FrankClawConfig,
    vars: &Environment,
    state_dir: &str,
    exposure: Result<Vec<String>, String>,
    browser: Vec<Notice>,
    key: Result<Option<Vec<u8>>, KeyProblem>,
    policy: Result<ChannelSecurityPolicy, FrankClawError>,
    r: Result<Vec<Notice>, Notice>,
)
    requires
        call_ensures(
            collect_doctor_warnings,
            (config, vars, state_dir, true, exposure, browser),
            r,
        ),
        call_ensures(load_master_key_from_env, (vars,), key),
        key is Ok && key->Ok_0 is Some,
        config.security.encrypt_sessions,
        config.models.providers@.len() > 0,
        forall|i: int|
            0 <= i < config.models.providers@.len() ==> (
            #[trigger] config.models.providers@[i]).api_key_ref is None || vars@.dom().contains(
                config.models.providers@[i].api_key_ref->0@,
            ) && !is_blank(vars@[config.models.providers@[i].api_key_ref->0@]@),
        config.channels@.len() == 1,
        config.channels@[0].0@ == "web"@,
        config.channels@[0].1.accounts@.len() == 0,
        call_ensures(ChannelConfig::security_policy, (&config.channels@[0].1,), policy),
        policy is Ok,
        exposure is Ok && exposure->Ok_0@.len() == 0,
        browser@.len() == 0,
    ensures
        r is Ok,
        r->Ok_0@.len() == 0,
{
    reveal_strlit("web");
    reveal_strlit("telegram");
    reveal_strlit("discord");
    reveal_strlit("slack");
    reveal_strlit("signal");
    reveal_strlit("whatsapp");
    reveal_strlit("email");
    assert("web"@.len() == 3);
    assert("telegram"@.len() == 8 && "discord"@.len() == 7 && "slack"@.len() == 5);
    assert("signal"@.len() == 6 && "whatsapp"@.len() == 8 && "email"@.len() == 5);
    assert forall|k: int| 0 <= k < config.channels@.len() implies policy_problem(
        (#[trigger] config.channels@[k]).1.extra@,
    ) is None by {}
    lemma_policies(config.channels@, 0);
    lemma_flat_none(config.models.providers@, provider_warning(vars@));
    assert forall|k: int| 0 <= k < config.channels@.len() implies channel_warning(vars@)(
        #[trigger] config.channels@[k],
    ).len() == 0 by {
        assert(flat(config.channels@[k].1.accounts@, account_warning(vars@, "web"@)).len() == 0);
    }
    lemma_flat_none(config.channels@, channel_warning(vars@));
    assert(exposure->Ok_0.deep_view().len() == 0);
    assert(browser.deep_view().len() == 0);
    assert(r->Ok_0.deep_view().len() == r->Ok_0@.len());
}

} // verus!
