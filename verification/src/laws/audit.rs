//! The security audit: what is unsafe is reported, as bad as it is, and the
//! worst comes first.

use crate::channels::Environment;
use crate::cli::audit::{
    all_findings, approval_findings, audit_auth, audit_channel_policies, audit_encryption,
    audit_file_permissions, audit_missing_env_vars, audit_network, auth_findings, bash_findings,
    channel_policy, configured_tools, count_severity, encryption_findings, env_findings,
    file_findings, flat, in_category, inline_account, inline_channel, inline_findings,
    inline_setting, law_audit_fails_on_high, law_report_is_complete, law_report_is_sorted,
    network_findings, of_severity, provider_env, provider_key_ref, rank, run_security_audit,
    scanning_findings, secret_settings, ssrf_findings, tool_findings, tools_of, worst_first,
    AuditReport, AuditedFiles, Category, Finding, FindingView, Severity, ToolPosture,
};
use crate::cli::secrets::{load_master_key_from_env, KeyProblem};
use crate::config::{ChannelConfig, ChannelSecurityPolicy, FrankClawConfig};
use crate::error::FrankClawError;
use crate::laws::settings::gives;
use crate::text::{byte_len, is_blank};
use vstd::prelude::*;

verus! {

/// True of a report with a finding of a severity under a message.
pub open spec fn tells(r: AuditReport, severity: Severity, key: Seq<char>) -> bool {
    exists|i: int|
        0 <= i < r.findings@.len() && (#[trigger] r.findings@[i]).severity == severity
            && r.findings@[i].message.key@ == key
}

/// True of a report with a finding of a severity under a message about
/// something that is named in it.
pub open spec fn tells_of(
    r: AuditReport,
    severity: Severity,
    key: Seq<char>,
    name: Seq<char>,
    value: Seq<char>,
) -> bool {
    exists|i: int|
        0 <= i < r.findings@.len() && (#[trigger] r.findings@[i]).severity == severity
            && r.findings@[i].message.key@ == key && r.findings@[i].message@.args.contains(
            (name, value),
        )
}

/// What is in one of two rows is in both together.
pub proof fn lemma_either<A>(a: Seq<A>, b: Seq<A>, x: A)
    ensures
        a.contains(x) || b.contains(x) ==> (a + b).contains(x),
{
    let s = a + b;
    if a.contains(x) {
        let i = choose|i: int| 0 <= i < a.len() && a[i] == x;
        assert(s[i] == x);
    } else if b.contains(x) {
        let i = choose|i: int| 0 <= i < b.len() && b[i] == x;
        assert(s[a.len() + i] == x);
    }
}

/// What one item gives is in what all items give.
pub proof fn lemma_flat<A, B>(items: Seq<A>, each: spec_fn(A) -> Seq<B>, i: int, x: B)
    requires
        0 <= i < items.len(),
        each(items[i]).contains(x),
    ensures
        flat(items, each).contains(x),
    decreases items.len(),
{
    let front = items.drop_last();
    lemma_either(flat(front, each), each(items.last()), x);
    if i < items.len() - 1 {
        assert(front[i] == items[i]);
        lemma_flat(front, each, i, x);
    }
}

/// A finding that was made is in the report.
proof fn lemma_made(
    config: FrankClawConfig,
    vars: Map<Seq<char>, String>,
    posture: ToolPosture,
    scanning: bool,
    files: AuditedFiles,
    r: AuditReport,
    x: FindingView,
)
    requires
        r.findings.deep_view() == worst_first(all_findings(config, vars, posture, scanning, files)),
        auth_findings(config.gateway).contains(x) || inline_findings(config).contains(x)
            || env_findings(config, vars).contains(x) || encryption_findings(
            config.security,
            vars,
        ).contains(x) || network_findings(config.gateway).contains(x) || flat(
            config.channels@,
            channel_policy(),
        ).contains(x) || tool_findings(config, posture).contains(x) || scanning_findings(
            scanning,
        ).contains(x) || file_findings(files).contains(x) || ssrf_findings(
            config.security,
        ).contains(x),
    ensures
        tells(r, x.severity, x.message.key),
        forall|name: Seq<char>, value: Seq<char>| #[trigger]
            x.message.args.contains((name, value)) ==> tells_of(
                r,
                x.severity,
                x.message.key,
                name,
                value,
            ),
{
    let p1 = auth_findings(config.gateway);
    let p2 = inline_findings(config);
    let p3 = env_findings(config, vars);
    let p4 = encryption_findings(config.security, vars);
    let p5 = network_findings(config.gateway);
    let p6 = flat(config.channels@, channel_policy());
    let p7 = tool_findings(config, posture);
    let p8 = scanning_findings(scanning);
    let p9 = file_findings(files);
    let p10 = ssrf_findings(config.security);
    lemma_either(p1, p2, x);
    lemma_either(p1 + p2, p3, x);
    lemma_either(p1 + p2 + p3, p4, x);
    lemma_either(p1 + p2 + p3 + p4, p5, x);
    lemma_either(p1 + p2 + p3 + p4 + p5, p6, x);
    lemma_either(p1 + p2 + p3 + p4 + p5 + p6, p7, x);
    lemma_either(p1 + p2 + p3 + p4 + p5 + p6 + p7, p8, x);
    lemma_either(p1 + p2 + p3 + p4 + p5 + p6 + p7 + p8, p9, x);
    lemma_either(p1 + p2 + p3 + p4 + p5 + p6 + p7 + p8 + p9, p10, x);
    let all = all_findings(config, vars, posture, scanning, files);
    assert(all.contains(x));
    lemma_in_report(all, r, x);
}

proof fn lemma_in_report(all: Seq<FindingView>, r: AuditReport, x: FindingView)
    requires
        r.findings.deep_view() == worst_first(all),
        all.contains(x),
    ensures
        tells(r, x.severity, x.message.key),
        forall|name: Seq<char>, value: Seq<char>| #[trigger]
            x.message.args.contains((name, value)) ==> tells_of(
                r,
                x.severity,
                x.message.key,
                name,
                value,
            ),
{
    broadcast use vstd::seq_lib::group_to_multiset_ensures;

    law_report_is_complete(all);
    let sorted = worst_first(all);
    assert(all.to_multiset().count(x) > 0);
    assert(sorted.to_multiset().count(x) > 0);
    assert(sorted.contains(x));
    let i = choose|i: int| 0 <= i < sorted.len() && sorted[i] == x;
    assert(r.findings.deep_view().len() == r.findings@.len());
    assert(r.findings.deep_view()[i] == r.findings@[i]@);
    assert(r.findings@[i].severity == x.severity);
    assert(r.findings@[i].message@ == x.message);
    assert(r.findings@[i].message@.key == r.findings@[i].message.key@);
}

/// A gateway without authentication is reported, and so is a short token and an
/// empty password.
pub proof fn law_weak_authentication(
    config: &FrankClawConfig,
    vars: &Environment,
    posture: &ToolPosture,
    scanning: bool,
    files: &AuditedFiles,
    r: AuditReport,
)
    requires
        call_ensures(run_security_audit, (config, vars, posture, scanning, files), r),
    ensures
        config.gateway.auth is Disabled ==> tells(r, Severity::High, "audit.auth.disabled"@),
        config.gateway.auth is Token && config.gateway.auth->token is Some && byte_len(
            config.gateway.auth->token->0@,
        ) < 16 ==> tells(r, Severity::Medium, "audit.auth.token_short"@),
        config.gateway.auth is Password && is_blank(config.gateway.auth->hash@) ==> tells(
            r,
            Severity::High,
            "audit.auth.password_empty"@,
        ),
{
    let made = auth_findings(config.gateway);
    if made.len() > 0 {
        assert(made.contains(made[0]));
        lemma_made(*config, vars@, *posture, scanning, *files, r, made[0]);
    }
}

/// A gateway that others can reach is reported where it asks for no proof of
/// identity, and where it does not encrypt what it sends; a gateway that may be
/// sent to private addresses always is.
pub proof fn law_exposure(
    config: &FrankClawConfig,
    vars: &Environment,
    posture: &ToolPosture,
    scanning: bool,
    files: &AuditedFiles,
    r: AuditReport,
)
    requires
        call_ensures(run_security_audit, (config, vars, posture, scanning, files), r),
    ensures
        !(config.gateway.bind is Loopback) && config.gateway.auth is Disabled ==> tells(
            r,
            Severity::Critical,
            "audit.network.exposed_no_auth"@,
        ),
        !(config.gateway.bind is Loopback) && config.gateway.tls is None ==> tells(
            r,
            Severity::High,
            "audit.network.no_tls"@,
        ),
        !config.security.ssrf_protection ==> tells(
            r,
            Severity::Critical,
            "audit.network.ssrf_off"@,
        ),
{
    let made = network_findings(config.gateway);
    if made.len() > 0 {
        assert(made.contains(made[0]));
        lemma_made(*config, vars@, *posture, scanning, *files, r, made[0]);
        assert(made.contains(made.last()));
        lemma_made(*config, vars@, *posture, scanning, *files, r, made.last());
    }
    let open = ssrf_findings(config.security);
    if open.len() > 0 {
        assert(open.contains(open[0]));
        lemma_made(*config, vars@, *posture, scanning, *files, r, open[0]);
    }
}

/// Sessions and files that are not encrypted are reported, and so is a
/// configuration that wants encryption without a key that can be used.
pub proof fn law_encryption(
    config: &FrankClawConfig,
    vars: &Environment,
    posture: &ToolPosture,
    scanning: bool,
    files: &AuditedFiles,
    key: Result<Option<Vec<u8>>, KeyProblem>,
    r: AuditReport,
)
    requires
        call_ensures(run_security_audit, (config, vars, posture, scanning, files), r),
        call_ensures(load_master_key_from_env, (vars,), key),
    ensures
        !config.security.encrypt_sessions ==> tells(
            r,
            Severity::Medium,
            "audit.encrypt.sessions_off"@,
        ),
        config.security.encrypt_sessions && (key is Err || key->Ok_0 is None) ==> tells(
            r,
            Severity::High,
            "audit.encrypt.no_master_key"@,
        ),
        !config.security.encrypt_media ==> tells(r, Severity::Low, "audit.encrypt.media_off"@),
{
    let made = encryption_findings(config.security, vars@);
    if made.len() > 0 {
        assert(made.contains(made[0]));
        lemma_made(*config, vars@, *posture, scanning, *files, r, made[0]);
        assert(made.contains(made.last()));
        lemma_made(*config, vars@, *posture, scanning, *files, r, made.last());
    }
}

/// Files that others than their owner can get at are reported.
pub proof fn law_files(
    config: &FrankClawConfig,
    vars: &Environment,
    posture: &ToolPosture,
    scanning: bool,
    files: &AuditedFiles,
    r: AuditReport,
)
    requires
        call_ensures(run_security_audit, (config, vars, posture, scanning, files), r),
    ensures
        files.config_mode is Some && files.config_mode->0 % 64 != 0 ==> tells(
            r,
            Severity::High,
            "audit.fs.config_world_readable"@,
        ),
        files.state_mode is Some && files.state_mode->0 % 64 != 0 ==> tells(
            r,
            Severity::Medium,
            "audit.fs.state_world_readable"@,
        ),
        files.database_mode is Some && files.database_mode->0 % 64 != 0 ==> tells(
            r,
            Severity::High,
            "audit.fs.db_world_readable"@,
        ),
        !scanning ==> tells(r, Severity::Low, "audit.media.scanning_off"@),
{
    let made = file_findings(*files);
    if files.config_mode is Some && files.config_mode->0 % 64 != 0 {
        assert(made.contains(made[0]));
        lemma_made(*config, vars@, *posture, scanning, *files, r, made[0]);
    }
    if files.state_mode is Some && files.state_mode->0 % 64 != 0 {
        let i: int = if files.config_mode is Some && files.config_mode->0 % 64 != 0 {
            1
        } else {
            0
        };
        assert(made.contains(made[i]));
        lemma_made(*config, vars@, *posture, scanning, *files, r, made[i]);
    }
    if files.database_mode is Some && files.database_mode->0 % 64 != 0 {
        assert(made.contains(made.last()));
        lemma_made(*config, vars@, *posture, scanning, *files, r, made.last());
    }
    let media = scanning_findings(scanning);
    assert(media.contains(media[0]));
    lemma_made(*config, vars@, *posture, scanning, *files, r, media[0]);
}

/// Tools that may do too much are reported: a shell that may run anything, a
/// sandbox that is not there, and changes that need no approval.
pub proof fn law_tools(
    config: &FrankClawConfig,
    vars: &Environment,
    posture: &ToolPosture,
    scanning: bool,
    files: &AuditedFiles,
    tools: Vec<String>,
    i: int,
    r: AuditReport,
)
    requires
        call_ensures(run_security_audit, (config, vars, posture, scanning, files), r),
        call_ensures(configured_tools, (config,), tools),
    ensures
        ({
            let shell = 0 <= i < tools@.len() && tools@[i]@ == "bash"@;
            &&& shell && posture.bash is AllowAll ==> tells(
                r,
                Severity::Critical,
                "audit.tools.bash_allow_all"@,
            )
            &&& shell && posture.sandbox is Off && !(posture.bash is DenyAll) ==> tells(
                r,
                Severity::Medium,
                "audit.tools.no_sandbox"@,
            )
            &&& shell && !(posture.sandbox is Off) && !posture.sandbox_available ==> tells(
                r,
                Severity::High,
                "audit.tools.sandbox_missing"@,
            )
        }),
        posture.approves_destructive ==> tells(
            r,
            Severity::High,
            "audit.tools.destructive_approved"@,
        ),
        posture.approves_mutating && (exists|k: int|
            0 <= k < posture.risks@.len() && !(#[trigger] posture.risks@[k] is ReadOnly)) ==> tells(
            r,
            Severity::Medium,
            "audit.tools.mutating_approved"@,
        ),
{
    let made = tool_findings(*config, *posture);
    let bash = bash_findings(*posture);
    let asks = approval_findings(*posture);
    if 0 <= i < tools@.len() && tools@[i]@ == "bash"@ {
        assert(tools.deep_view()[i] == tools@[i]@);
        assert(tools.deep_view().len() == tools@.len());
        assert(tools_of(*config).contains("bash"@));
        lemma_either(bash, asks, bash[0]);
        assert(bash.contains(bash[0]));
        lemma_made(*config, vars@, *posture, scanning, *files, r, bash[0]);
        lemma_either(bash, asks, bash.last());
        assert(bash.contains(bash.last()));
        lemma_made(*config, vars@, *posture, scanning, *files, r, bash.last());
    }
    let front = if tools_of(*config).contains("bash"@) {
        bash
    } else {
        Seq::empty()
    };
    assert(made == front + asks);
    lemma_either(front, asks, asks.last());
    assert(asks.contains(asks.last()));
    lemma_made(*config, vars@, *posture, scanning, *files, r, asks.last());
    if posture.approves_mutating && (exists|k: int|
        0 <= k < posture.risks@.len() && !(#[trigger] posture.risks@[k] is ReadOnly)) {
        let k = choose|k: int|
            0 <= k < posture.risks@.len() && !(#[trigger] posture.risks@[k] is ReadOnly);
        assert(crate::cli::audit::some_mutating(posture.risks@));
        lemma_either(front, asks, asks[1]);
        assert(asks.contains(asks[1]));
        lemma_made(*config, vars@, *posture, scanning, *files, r, asks[1]);
    }
}

/// A provider without a key, or with one that is not in the environment, is
/// reported by its name.
pub proof fn law_provider_keys(
    config: &FrankClawConfig,
    vars: &Environment,
    posture: &ToolPosture,
    scanning: bool,
    files: &AuditedFiles,
    i: int,
    r: AuditReport,
)
    requires
        call_ensures(run_security_audit, (config, vars, posture, scanning, files), r),
        0 <= i < config.models.providers@.len(),
    ensures
        ({
            let p = config.models.providers@[i];
            &&& p.api_key_ref is None && p.api@ != "ollama"@ ==> tells_of(
                r,
                Severity::Medium,
                "audit.secrets.no_key_ref"@,
                "id"@,
                p.id@,
            )
            &&& p.api_key_ref is Some && (!vars@.dom().contains(p.api_key_ref->0@) || is_blank(
                vars@[p.api_key_ref->0@]@,
            )) ==> tells_of(r, Severity::Medium, "audit.secrets.missing_env"@, "id"@, p.id@)
        }),
{
    let p = config.models.providers@[i];
    if p.api_key_ref is None && p.api@ != "ollama"@ {
        let made = provider_key_ref()(p);
        let x = made[0];
        assert(made.contains(x));
        lemma_flat(config.models.providers@, provider_key_ref(), i, x);
        let own = flat(config.models.providers@, provider_key_ref());
        let rest = flat(config.channels@, inline_channel());
        lemma_either(own, rest, x);
        lemma_inline(*config, x);
        assert(x.message.args[0] == ("id"@, p.id@));
        assert(x.message.args.contains(("id"@, p.id@)));
        lemma_made(*config, vars@, *posture, scanning, *files, r, x);
    }
    if p.api_key_ref is Some && (!vars@.dom().contains(p.api_key_ref->0@) || is_blank(
        vars@[p.api_key_ref->0@]@,
    )) {
        let made = provider_env(vars@)(p);
        let x = made[0];
        assert(made.contains(x));
        lemma_flat(config.models.providers@, provider_env(vars@), i, x);
        lemma_either(
            flat(config.models.providers@, provider_env(vars@)),
            flat(config.channels@, crate::cli::audit::env_channel(vars@)),
            x,
        );
        assert(x.message.args[0] == ("id"@, p.id@));
        assert(x.message.args.contains(("id"@, p.id@)));
        lemma_made(*config, vars@, *posture, scanning, *files, r, x);
    }
}

proof fn lemma_inline(config: FrankClawConfig, x: FindingView)
    requires
        (flat(config.models.providers@, provider_key_ref()) + flat(
            config.channels@,
            inline_channel(),
        )).contains(x),
    ensures
        inline_findings(config).contains(x),
{
    let front = flat(config.models.providers@, provider_key_ref()) + flat(
        config.channels@,
        inline_channel(),
    );
    let all = inline_findings(config);
    let i = choose|i: int| 0 <= i < front.len() && front[i] == x;
    assert(all[i] == x);
}

/// A secret that stands in the configuration of a channel is reported, by the
/// channel and the setting.
pub proof fn law_inline_secrets(
    config: &FrankClawConfig,
    vars: &Environment,
    posture: &ToolPosture,
    scanning: bool,
    files: &AuditedFiles,
    c: int,
    a: int,
    key: Seq<char>,
    r: AuditReport,
)
    requires
        call_ensures(run_security_audit, (config, vars, posture, scanning, files), r),
        0 <= c < config.channels@.len(),
        0 <= a < config.channels@[c].1.accounts@.len(),
        key == "bot_token"@ || key == "token"@ || key == "app_token"@ || key == "access_token"@
            || key == "verify_token"@ || key == "app_secret"@,
        gives(config.channels@[c].1.accounts@[a]@, key),
    ensures
        tells_of(r, Severity::High, "audit.secrets.inline"@, "key"@, key),
        tells_of(
            r,
            Severity::High,
            "audit.secrets.inline"@,
            "channel"@,
            config.channels@[c].0@,
        ),
{
    let channel = config.channels@[c];
    let account = channel.1.accounts@[a];
    let keys = secret_settings();
    let k: int = if key == "bot_token"@ {
        0
    } else if key == "token"@ {
        1
    } else if key == "app_token"@ {
        2
    } else if key == "access_token"@ {
        3
    } else if key == "verify_token"@ {
        4
    } else {
        5
    };
    assert(keys[k].0 == key);
    let each = inline_setting(channel.0@, account@);
    let made = each(keys[k]);
    let x = made[0];
    assert(made.contains(x));
    lemma_flat(keys, each, k, x);
    assert(inline_account(channel.0@)(account).contains(x));
    lemma_flat(channel.1.accounts@, inline_account(channel.0@), a, x);
    assert(inline_channel()(channel).contains(x));
    lemma_flat(config.channels@, inline_channel(), c, x);
    lemma_either(
        flat(config.models.providers@, provider_key_ref()),
        flat(config.channels@, inline_channel()),
        x,
    );
    lemma_inline(*config, x);
    assert(x.message.args[0] == ("channel"@, channel.0@));
    assert(x.message.args[1] == ("key"@, key));
    assert(x.message.args.contains(("channel"@, channel.0@)));
    assert(x.message.args.contains(("key"@, key)));
    lemma_made(*config, vars@, *posture, scanning, *files, r, x);
}

/// A channel that is on is reported where its policy is broken, where any group
/// may write to it unasked, and where it is WhatsApp without a secret to check
/// signatures with.
pub proof fn law_channel_policies(
    config: &FrankClawConfig,
    vars: &Environment,
    posture: &ToolPosture,
    scanning: bool,
    files: &AuditedFiles,
    c: int,
    policy: Result<ChannelSecurityPolicy, FrankClawError>,
    r: AuditReport,
)
    requires
        call_ensures(run_security_audit, (config, vars, posture, scanning, files), r),
        0 <= c < config.channels@.len(),
        config.channels@[c].1.enabled,
        call_ensures(ChannelConfig::security_policy, (&config.channels@[c].1,), policy),
    ensures
        ({
            let id = config.channels@[c].0@;
            let accounts = config.channels@[c].1.accounts@;
            let bridged = id == "telegram"@ || id == "discord"@ || id == "slack"@ || id
                == "signal"@ || id == "whatsapp"@;
            &&& policy is Err ==> tells_of(
                r,
                Severity::High,
                "audit.channels.invalid_policy"@,
                "channel"@,
                id,
            )
            &&& policy is Ok && bridged && !policy->Ok_0.require_mention_for_groups
                && policy->Ok_0.allowed_groups is None ==> tells_of(
                r,
                Severity::Medium,
                "audit.channels.open_groups"@,
                "channel"@,
                id,
            )
            &&& policy is Ok && id == "whatsapp"@ && (forall|k: int|
                0 <= k < accounts.len() ==> !gives((#[trigger] accounts[k])@, "app_secret"@)
                    && !gives(accounts[k]@, "app_secret_env"@)) ==> tells(
                r,
                Severity::High,
                "audit.channels.whatsapp_no_secret"@,
            )
        }),
{
    let channel = config.channels@[c];
    let id = channel.0@;
    let made = channel_policy()(channel);
    if policy is Err {
        let x = made[0];
        assert(made.contains(x));
        lemma_flat(config.channels@, channel_policy(), c, x);
        assert(x.message.args[0] == ("channel"@, id));
        assert(x.message.args.contains(("channel"@, id)));
        lemma_made(*config, vars@, *posture, scanning, *files, r, x);
    } else {
        assert(policy->Ok_0@.allowed_groups == policy->Ok_0.allowed_groups.deep_view());
        if made.len() > 0 {
            let x = made[0];
            assert(made.contains(x));
            lemma_flat(config.channels@, channel_policy(), c, x);
            if crate::cli::audit::groups_open(id, channel.1.extra@) {
                assert(x.message.args[0] == ("channel"@, id));
                assert(x.message.args.contains(("channel"@, id)));
            }
            lemma_made(*config, vars@, *posture, scanning, *files, r, x);
            let y = made.last();
            assert(made.contains(y));
            lemma_flat(config.channels@, channel_policy(), c, y);
            lemma_made(*config, vars@, *posture, scanning, *files, r, y);
        }
        let accounts = channel.1.accounts@;
        if id == "whatsapp"@ && (forall|k: int|
            0 <= k < accounts.len() ==> !gives((#[trigger] accounts[k])@, "app_secret"@) && !gives(
                accounts[k]@,
                "app_secret_env"@,
            )) {
            assert(!crate::cli::audit::some_app_secret(accounts));
        }
    }
}

/// The report goes from the worst to the least, and the audit fails exactly if
/// something critical or high is in it.
pub proof fn law_report(
    config: &FrankClawConfig,
    vars: &Environment,
    posture: &ToolPosture,
    scanning: bool,
    files: &AuditedFiles,
    a: int,
    b: int,
    r: AuditReport,
)
    requires
        call_ensures(run_security_audit, (config, vars, posture, scanning, files), r),
    ensures
        0 <= a < b < r.findings@.len() ==> {
            &&& r.findings@[b].severity is Critical ==> r.findings@[a].severity is Critical
            &&& r.findings@[b].severity is High ==> r.findings@[a].severity is Critical
                || r.findings@[a].severity is High
            &&& r.findings@[a].severity is Info ==> r.findings@[b].severity is Info
            &&& r.findings@[a].severity is Low ==> r.findings@[b].severity is Low
                || r.findings@[b].severity is Info
        },
        r.exit_code == 0 || r.exit_code == 1,
        r.exit_code == 1 <==> exists|i: int|
            0 <= i < r.findings@.len() && ((#[trigger] r.findings@[i]).severity is Critical
                || r.findings@[i].severity is High),
{
    broadcast use vstd::seq_lib::group_to_multiset_ensures;

    let all = all_findings(*config, vars@, *posture, scanning, *files);
    let sorted = worst_first(all);
    assert(r.findings.deep_view().len() == r.findings@.len());
    assert forall|i: int| 0 <= i < r.findings@.len() implies (
    #[trigger] r.findings@[i]).severity == sorted[i].severity by {
        assert(r.findings.deep_view()[i] == r.findings@[i]@);
    }
    if 0 <= a < b < r.findings@.len() {
        law_report_is_sorted(all, a, b);
        assert(r.findings@[a].severity == sorted[a].severity);
        assert(r.findings@[b].severity == sorted[b].severity);
    }
    law_audit_fails_on_high(all);
    law_report_is_complete(all);
    if r.exit_code == 1 {
        let i = choose|i: int|
            0 <= i < all.len() && rank((#[trigger] all[i]).severity) >= rank(Severity::High);
        let x = all[i];
        assert(all.contains(x));
        assert(sorted.to_multiset().count(x) > 0);
        assert(sorted.contains(x));
        let k = choose|k: int| 0 <= k < sorted.len() && sorted[k] == x;
        assert(r.findings@[k].severity == x.severity);
    }
    if exists|i: int|
        0 <= i < r.findings@.len() && ((#[trigger] r.findings@[i]).severity is Critical
            || r.findings@[i].severity is High) {
        let k = choose|i: int|
            0 <= i < r.findings@.len() && ((#[trigger] r.findings@[i]).severity is Critical
                || r.findings@[i].severity is High);
        let x = sorted[k];
        assert(sorted.contains(x));
        assert(all.to_multiset().count(x) > 0);
        assert(all.contains(x));
        let i = choose|i: int| 0 <= i < all.len() && all[i] == x;
        assert(rank(all[i].severity) >= rank(Severity::High));
    }
}

/// An audit of a safe set-up passes: on this machine alone, with a long token,
/// encryption and its key, private files, a denied shell and no channel or
/// provider to go wrong.
pub proof fn law_safe_setup_passes(
    config: &FrankClawConfig,
    vars: &Environment,
    posture: &ToolPosture,
    scanning: bool,
    files: &AuditedFiles,
    key: Result<Option<Vec<u8>>, KeyProblem>,
    r: AuditReport,
)
    requires
        call_ensures(run_security_audit, (config, vars, posture, scanning, files), r),
        call_ensures(load_master_key_from_env, (vars,), key),
        key is Ok && key->Ok_0 is Some,
        config.gateway.bind is Loopback,
        config.gateway.auth is Token,
        config.gateway.auth->token is Some,
        config.security.encrypt_sessions,
        config.security.ssrf_protection,
        config.channels@.len() == 0,
        config.models.providers@.len() == 0,
        files.config_mode is None || files.config_mode->0 % 64 == 0,
        files.database_mode is None || files.database_mode->0 % 64 == 0,
        posture.bash is DenyAll,
        posture.sandbox is Off || posture.sandbox_available,
        !posture.approves_destructive,
    ensures
        r.exit_code == 0,
{
    let all = all_findings(*config, vars@, *posture, scanning, *files);
    law_audit_fails_on_high(all);
    assert(flat(config.models.providers@, provider_key_ref()).len() == 0);
    assert(flat(config.channels@, inline_channel()).len() == 0);
    assert(flat(config.models.providers@, provider_env(vars@)).len() == 0);
    assert(flat(config.channels@, crate::cli::audit::env_channel(vars@)).len() == 0);
    assert(flat(config.channels@, channel_policy()).len() == 0);
    lemma_mild(auth_findings(config.gateway), inline_findings(*config));
    let p2 = auth_findings(config.gateway) + inline_findings(*config);
    lemma_mild(p2, env_findings(*config, vars@));
    let p3 = p2 + env_findings(*config, vars@);
    lemma_mild(p3, encryption_findings(config.security, vars@));
    let p4 = p3 + encryption_findings(config.security, vars@);
    lemma_mild(p4, network_findings(config.gateway));
    let p5 = p4 + network_findings(config.gateway);
    lemma_mild(p5, flat(config.channels@, channel_policy()));
    let p6 = p5 + flat(config.channels@, channel_policy());
    lemma_mild(p6, tool_findings(*config, *posture));
    let p7 = p6 + tool_findings(*config, *posture);
    lemma_mild(p7, scanning_findings(scanning));
    let p8 = p7 + scanning_findings(scanning);
    lemma_mild(p8, file_findings(*files));
    let p9 = p8 + file_findings(*files);
    lemma_mild(p9, ssrf_findings(config.security));
}

/// True where nothing is worse than medium.
pub open spec fn mild(findings: Seq<FindingView>) -> bool {
    forall|i: int| 0 <= i < findings.len() ==> rank((#[trigger] findings[i]).severity) <= 2
}

proof fn lemma_mild(a: Seq<FindingView>, b: Seq<FindingView>)
    ensures
        mild(a) && mild(b) ==> mild(a + b),
{
}

/// Items that give nothing give nothing together.
pub proof fn lemma_flat_none<A, B>(items: Seq<A>, each: spec_fn(A) -> Seq<B>)
    requires
        forall|i: int| 0 <= i < items.len() ==> each(#[trigger] items[i]).len() == 0,
    ensures
        flat(items, each).len() == 0,
    decreases items.len(),
{
    if items.len() > 0 {
        let front = items.drop_last();
        assert forall|i: int| 0 <= i < front.len() implies each(#[trigger] front[i]).len()
            == 0 by {
            assert(front[i] == items[i]);
        }
        lemma_flat_none(front, each);
        assert(each(items[items.len() - 1]).len() == 0);
    }
}

/// Authentication that is sound raises no alarm, and neither does a gateway that
/// only this machine can reach, or files that only their owner can read.
pub proof fn law_no_false_alarm(
    config: &FrankClawConfig,
    files: &AuditedFiles,
    auth: &mut Vec<Finding>,
    network: &mut Vec<Finding>,
    permissions: &mut Vec<Finding>,
)
    requires
        call_ensures(audit_auth, (config, auth), ()),
        call_ensures(audit_network, (config, network), ()),
        call_ensures(audit_file_permissions, (files, permissions), ()),
    ensures
        final(auth)@.len() > old(auth)@.len() <==> config.gateway.auth is Disabled
            || config.gateway.auth is Token && config.gateway.auth->token is Some && byte_len(
            config.gateway.auth->token->0@,
        ) < 16 || config.gateway.auth is Password && is_blank(config.gateway.auth->hash@),
        final(network)@.len() > old(network)@.len() <==> !(config.gateway.bind is Loopback) && (
        config.gateway.auth is Disabled || config.gateway.tls is None),
        final(permissions)@.len() > old(permissions)@.len() <==> files.config_mode is Some
            && files.config_mode->0 % 64 != 0 || files.state_mode is Some && files.state_mode->0
            % 64 != 0 || files.database_mode is Some && files.database_mode->0 % 64 != 0,
{
    assert(final(auth).deep_view().len() == final(auth)@.len());
    assert(old(auth).deep_view().len() == old(auth)@.len());
    assert(final(network).deep_view().len() == final(network)@.len());
    assert(old(network).deep_view().len() == old(network)@.len());
    assert(final(permissions).deep_view().len() == final(permissions)@.len());
    assert(old(permissions).deep_view().len() == old(permissions)@.len());
}

/// Encryption that is on, with a key, raises no alarm; neither does a channel
/// that is off or guarded, nor a provider whose key is in the environment.
pub proof fn law_no_alarm_without_cause(
    config: &FrankClawConfig,
    vars: &Environment,
    key: Result<Option<Vec<u8>>, KeyProblem>,
    encryption: &mut Vec<Finding>,
    channels: &mut Vec<Finding>,
    missing: &mut Vec<Finding>,
)
    requires
        call_ensures(load_master_key_from_env, (vars,), key),
        call_ensures(audit_encryption, (config, vars, encryption), ()),
        call_ensures(audit_channel_policies, (config, channels), ()),
        call_ensures(audit_missing_env_vars, (config, vars, missing), ()),
    ensures
        final(encryption)@.len() == old(encryption)@.len() <==> config.security.encrypt_sessions
            && config.security.encrypt_media && key is Ok && key->Ok_0 is Some,
        (forall|i: int|
            0 <= i < config.channels@.len() ==> !(#[trigger] config.channels@[i]).1.enabled)
            ==> final(channels)@.len() == old(channels)@.len(),
        config.channels@.len() == 0 && (forall|i: int|
            0 <= i < config.models.providers@.len() ==> (
            #[trigger] config.models.providers@[i]).api_key_ref is None || vars@.dom().contains(
                config.models.providers@[i].api_key_ref->0@,
            ) && !is_blank(vars@[config.models.providers@[i].api_key_ref->0@]@))
            ==> final(missing)@.len() == old(missing)@.len(),
{
    assert(final(encryption).deep_view().len() == final(encryption)@.len());
    assert(old(encryption).deep_view().len() == old(encryption)@.len());
    assert(final(channels).deep_view().len() == final(channels)@.len());
    assert(old(channels).deep_view().len() == old(channels)@.len());
    assert(final(missing).deep_view().len() == final(missing)@.len());
    assert(old(missing).deep_view().len() == old(missing)@.len());
    if forall|i: int|
        0 <= i < config.channels@.len() ==> !(#[trigger] config.channels@[i]).1.enabled {
        lemma_flat_none(config.channels@, channel_policy());
    }
    if config.channels@.len() == 0 && (forall|i: int|
        0 <= i < config.models.providers@.len() ==> (
        #[trigger] config.models.providers@[i]).api_key_ref is None || vars@.dom().contains(
            config.models.providers@[i].api_key_ref->0@,
        ) && !is_blank(vars@[config.models.providers@[i].api_key_ref->0@]@)) {
        lemma_flat_none(config.models.providers@, provider_env(vars@));
        assert(flat(config.channels@, crate::cli::audit::env_channel(vars@)).len() == 0);
    }
}

/// The findings of a category are listed by their places, all of them and no
/// others; and a severity is counted as often as it occurs.
pub proof fn law_lists_and_counts(
    findings: &Vec<Finding>,
    category: Category,
    severity: Severity,
    i: int,
    places: Vec<usize>,
    n: usize,
)
    requires
        call_ensures(in_category, (findings, category), places),
        call_ensures(count_severity, (findings, severity), n),
        0 <= i < findings@.len(),
    ensures
        findings@[i].category == category <==> exists|k: int|
            0 <= k < places@.len() && #[trigger] places@[k] == i,
        findings@[i].severity == severity ==> n > 0,
        (forall|k: int| 0 <= k < findings@.len() ==> (#[trigger] findings@[k]).severity != severity)
            ==> n == 0,
        n <= findings@.len(),
{
    let v = findings.deep_view();
    assert(v.len() == findings@.len());
    assert forall|k: int| 0 <= k < v.len() implies (#[trigger] v[k]).severity
        == findings@[k].severity by {}
    lemma_count(v, severity);
    if findings@[i].severity == severity {
        assert(v[i].severity == severity);
    }
    if findings@[i].category == category {
        let k = choose|k: int| 0 <= k < places@.len() && #[trigger] places@[k] == i;
        assert(places@[k] == i);
    }
}

proof fn lemma_count(v: Seq<FindingView>, severity: Severity)
    ensures
        of_severity(v, severity).len() <= v.len(),
        of_severity(v, severity).len() > 0 <==> exists|k: int|
            0 <= k < v.len() && (#[trigger] v[k]).severity == severity,
    decreases v.len(),
{
    if v.len() > 0 {
        let front = v.drop_last();
        lemma_count(front, severity);
        if exists|k: int| 0 <= k < front.len() && (#[trigger] front[k]).severity == severity {
            let k = choose|k: int| 0 <= k < front.len() && (#[trigger] front[k]).severity == severity;
            assert(v[k].severity == severity);
        }
        if exists|k: int| 0 <= k < v.len() && (#[trigger] v[k]).severity == severity {
            let k = choose|k: int| 0 <= k < v.len() && (#[trigger] v[k]).severity == severity;
            if k < front.len() {
                assert(front[k].severity == severity);
            }
        }
        if v.last().severity == severity {
            assert(v[v.len() - 1].severity == severity);
        }
    }
}

} // verus!
