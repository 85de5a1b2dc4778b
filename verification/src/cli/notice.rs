//! Messages to the user, named by key and worded in English.

use crate::text::{chars_of, find, find_char, lemma_find_is, str_eq, string_of};
use vstd::prelude::*;
use vstd::string::*;

verus! {

/// A message to the user: the key of its wording, and what is filled in.
#[derive(Debug)]
pub struct Notice {
    pub key: &'static str,
    pub args: Vec<(&'static str, String)>,
}

/// What a message says.
pub struct NoticeView {
    pub key: Seq<char>,
    pub args: Seq<(Seq<char>, Seq<char>)>,
}

impl View for Notice {
    type V = NoticeView;

    open spec fn view(&self) -> NoticeView {
        NoticeView {
            key: self.key@,
            args: self.args@.map_values(|a: (&'static str, String)| (a.0@, a.1@)),
        }
    }
}

impl DeepView for Notice {
    type V = NoticeView;

    open spec fn deep_view(&self) -> NoticeView {
        self@
    }
}

/// A message with nothing to fill in.
pub open spec fn note(key: Seq<char>) -> NoticeView {
    NoticeView { key, args: Seq::empty() }
}

/// A message with one value.
pub open spec fn note_with(key: Seq<char>, name: Seq<char>, value: Seq<char>) -> NoticeView {
    NoticeView { key, args: seq![(name, value)] }
}

impl NoticeView {
    /// The message with one more value.
    pub open spec fn and(self, name: Seq<char>, value: Seq<char>) -> NoticeView {
        NoticeView { key: self.key, args: self.args.push((name, value)) }
    }
}

/// A text that needs no other wording.
pub open spec fn plain(text: Seq<char>) -> NoticeView {
    note_with("plain"@, "text"@, text)
}

impl Notice {
    /// A message with nothing to fill in.
    pub fn new(key: &'static str) -> (r: Notice)
        ensures
            r@ == note(key@),
    {
        let r = Notice { key, args: Vec::new() };
        assert(r@.args =~= Seq::empty());
        r
    }

    /// A message with one value.
    pub fn with(key: &'static str, name: &'static str, value: &str) -> (r: Notice)
        ensures
            r@ == note_with(key@, name@, value@),
    {
        let r = Notice::new(key).and(name, value);
        assert(r@.args =~= seq![(name@, value@)]);
        r
    }

    /// The message with one more value.
    pub fn and(self, name: &'static str, value: &str) -> (r: Notice)
        ensures
            r@ == self@.and(name@, value@),
    {
        let mut r = self;
        let ghost before = r@;
        r.args.push((name, value.to_owned()));
        assert(r@.args =~= before.args.push((name@, value@)));
        r
    }

    /// A text that needs no other wording.
    pub fn plain(text: &str) -> (r: Notice)
        ensures
            r@ == plain(text@),
    {
        Notice::with("plain", "text", text)
    }

    /// The message in English.
    pub fn text(&self) -> (r: String)
        ensures
            r@ == notice_text(self@),
    {
        expand(english(self.key), &self.args)
    }
}

/// The value that goes by a name; the first, where there are several.
pub open spec fn value_named(args: Seq<(Seq<char>, Seq<char>)>, name: Seq<char>) -> Option<
    Seq<char>,
>
    decreases args.len(),
{
    if args.len() == 0 {
        None
    } else if args[0].0 == name {
        Some(args[0].1)
    } else {
        value_named(args.drop_first(), name)
    }
}

/// A wording with `%{name}` replaced by the value of that name. A name without
/// a value stays as it stands.
pub open spec fn expanded(s: Seq<char>, args: Seq<(Seq<char>, Seq<char>)>) -> Seq<char>
    decreases s.len(),
{
    if s.len() == 0 {
        Seq::empty()
    } else if s.len() > 1 && s[0] == '%' && s[1] == '{' && find(s, '}', 2) < s.len() {
        let end = find(s, '}', 2);
        if end < 2 {
            s
        } else {
            let value = match value_named(args, s.subrange(2, end)) {
                Some(value) => value,
                None => s.take(end + 1),
            };
            value + expanded(s.skip(end + 1), args)
        }
    } else {
        seq![s[0]] + expanded(s.drop_first(), args)
    }
}

/// The message in English.
pub open spec fn notice_text(n: NoticeView) -> Seq<char> {
    expanded(wording(n.key), n.args)
}

fn find_value<'a>(args: &'a Vec<(&'static str, String)>, name: &str) -> (r: Option<&'a str>)
    ensures
        match r {
            Some(value) => value_named(
                args@.map_values(|a: (&'static str, String)| (a.0@, a.1@)),
                name@,
            ) == Some(value@),
            None => value_named(
                args@.map_values(|a: (&'static str, String)| (a.0@, a.1@)),
                name@,
            ) is None,
        },
{
    let ghost all = args@.map_values(|a: (&'static str, String)| (a.0@, a.1@));
    let mut i: usize = 0;
    assert(all.skip(0) =~= all);
    while i < args.len()
        invariant
            i <= args@.len(),
            all == args@.map_values(|a: (&'static str, String)| (a.0@, a.1@)),
            value_named(all.skip(i as int), name@) == value_named(all, name@),
        decreases args@.len() - i,
    {
        proof {
            assert(all.skip(i as int)[0] == all[i as int]);
            assert(all.skip(i as int).drop_first() =~= all.skip(i + 1));
        }
        if str_eq(args[i].0, name) {
            return Some(args[i].1.as_str());
        }
        i = i + 1;
    }
    None
}

fn expand(template: &str, args: &Vec<(&'static str, String)>) -> (r: String)
    ensures
        r@ == expanded(
            template@,
            args@.map_values(|a: (&'static str, String)| (a.0@, a.1@)),
        ),
{
    let v = chars_of(template);
    let ghost all = args@.map_values(|a: (&'static str, String)| (a.0@, a.1@));
    let mut out = String::new();
    let mut i: usize = 0;
    assert(v@.skip(0) =~= v@);
    assert(out@ + expanded(v@, all) =~= expanded(v@, all));
    while i < v.len()
        invariant
            v@ == template@,
            i <= v@.len(),
            all == args@.map_values(|a: (&'static str, String)| (a.0@, a.1@)),
            out@ + expanded(v@.skip(i as int), all) == expanded(template@, all),
        decreases v@.len() - i,
    {
        let ghost rest = v@.skip(i as int);
        let ghost before = out@;
        if v.len() - i > 1 && v[i] == '%' && v[i + 1] == '{' {
            let end: usize = find_char(&v, '}', i + 2);
            proof {
                assert(rest[0] == '%' && rest[1] == '{');
                lemma_find_is(rest, '}', 2, end - i);
            }
            if end < v.len() {
                let name = string_of(&v, i + 2, end);
                assert(name@ =~= rest.subrange(2, end - i));
                let literal = string_of(&v, i, end + 1);
                assert(literal@ =~= rest.take(end - i + 1));
                let value = match find_value(args, name.as_str()) {
                    Some(value) => value,
                    None => literal.as_str(),
                };
                out.append(value);
                proof {
                    assert(rest.skip(end - i + 1) =~= v@.skip(end + 1));
                    assert(out@ + expanded(v@.skip(end + 1), all) =~= before + expanded(rest, all));
                }
                i = end + 1;
                continue ;
            }
        }
        out.push(v[i]);
        proof {
            assert(rest[0] == v@[i as int]);
            assert(rest.drop_first() =~= v@.skip(i + 1));
            assert(out@ + expanded(v@.skip(i + 1), all) =~= before + expanded(rest, all));
        }
        i = i + 1;
    }
    assert(out@ + expanded(v@.skip(i as int), all) =~= out@);
    out
}

/// The English wording of a key; the key itself where there is none.
pub open spec fn wording(key: Seq<char>) -> Seq<char> {
    if key == "plain"@ {
        "%{text}"@
    } else if key == "warn.no_providers"@ {
        "no model providers are configured"@
    } else if key == "warn.no_channels"@ {
        "no channels are configured"@
    } else if key == "warn.encrypt_off"@ {
        "session encryption is turned off"@
    } else if key == "warn.encrypt_no_key"@ {
        "session encryption is on but FRANKCLAW_MASTER_KEY is not set"@
    } else if key == "warn.state_missing"@ {
        "state directory '%{path}' does not exist yet"@
    } else if key == "warn.missing_env"@ {
        "provider '%{id}' needs environment variable '%{env}', which is not set"@
    } else if key == "warn.invalid_channel_policy"@ {
        "channel '%{channel}' has an invalid security policy"@
    } else if key == "warn.channel_open_groups"@ {
        "channel '%{channel}' accepts group messages without mention gating or an allowed group list"@
    } else if key == "warn.channel_missing_env"@ {
        "channel '%{channel}' needs environment variable '%{env}' (%{key}), which is not set"@
    } else if key == "warn.channel_inline_secret"@ {
        "channel '%{channel}' stores '%{key}' inline; use '%{env_key}' instead"@
    } else if key == "warn.whatsapp_no_secret"@ {
        "channel 'whatsapp' has no app_secret configured; webhook signatures are not verified (set WHATSAPP_APP_SECRET)"@
    } else if key == "browser.invalid_url"@ {
        "FRANKCLAW_BROWSER_DEVTOOLS_URL is not a valid URL: %{error}"@
    } else if key == "browser.mutations_blocked"@ {
        "mutating browser tools are configured but blocked; set FRANKCLAW_TOOL_APPROVAL=mutating to allow them"@
    } else if key == "browser.non_loopback"@ {
        "browser DevTools endpoint points at non-loopback host '%{host}'"@
    } else if key == "browser.no_host"@ {
        "browser DevTools endpoint has no host"@
    } else if key == "browser.unreachable"@ {
        "browser DevTools endpoint '%{endpoint}' is unreachable; start it with: docker compose up -d chromium"@
    } else if key == "cmd.status.mutations_enabled"@ {
        "mutations enabled"@
    } else if key == "cmd.status.mutations_gated"@ {
        "mutations gated"@
    } else if key == "cmd.status.read_only"@ {
        "read-only"@
    } else if key == "cmd.onboard.unsupported"@ {
        "unsupported onboard channel '%{channel}'"@
    } else if key == "cmd.config_example.unsupported"@ {
        "unsupported channel example '%{channel}'"@
    } else if key == "cmd.message.editing_chunked_unsupported"@ {
        "editing chunked replies is not supported"@
    } else if key == "cmd.remote.not_public"@ {
        "the gateway is not ready for public exposure"@
    } else if key == "cmd.remote.not_remote"@ {
        "the gateway is not ready for remote exposure"@
    } else if key == "ctx.no_delivery_metadata"@ {
        "the session has no delivery metadata for its last reply"@
    } else if key == "ctx.missing_platform_id"@ {
        "the last reply has no platform message id"@
    } else if key == "ctx.missing_platform_ids"@ {
        "the last reply has no platform message ids"@
    } else if key == "daemon.running"@ {
        "running (PID %{pid})"@
    } else if key == "daemon.not_running"@ {
        "not running (stale PID file for PID %{pid})"@
    } else if key == "setup.invalid_port"@ {
        "the gateway port must be a number from 0 to 65535"@
    } else if key == "setup.encryption_on"@ {
        "Session encryption is on. Generate a master key:"@
    } else if key == "setup.encryption_cmd"@ {
        "  export FRANKCLAW_MASTER_KEY=$(openssl rand -base64 32)"@
    } else if key == "setup.next_steps"@ {
        "Next steps:"@
    } else if key == "setup.export_key"@ {
        "  export %{env}=..."@
    } else if key == "setup.export_channel"@ {
        "  export the channel's environment variables"@
    } else if key == "setup.verify_config"@ {
        "  frankclaw doctor"@
    } else if key == "setup.start_gateway"@ {
        "  frankclaw gateway"@
    } else if key == "doctor.section.system"@ {
        "System"@
    } else if key == "doctor.section.configuration"@ {
        "Configuration"@
    } else if key == "doctor.section.state_directory"@ {
        "State directory"@
    } else if key == "doctor.section.database"@ {
        "Database"@
    } else if key == "doctor.section.network"@ {
        "Network"@
    } else if key == "doctor.section.providers"@ {
        "Providers"@
    } else if key == "doctor.section.channels"@ {
        "Channels"@
    } else if key == "doctor.section.security"@ {
        "Security"@
    } else if key == "doctor.config.critical_issues"@ {
        "Critical issues found."@
    } else if key == "doctor.info.version"@ {
        "FrankClaw %{version}"@
    } else if key == "doctor.info.rust"@ {
        "Rust: %{version}"@
    } else if key == "doctor.info.os"@ {
        "OS: %{os}"@
    } else if key == "doctor.info.arch"@ {
        "Arch: %{arch}"@
    } else if key == "doctor.info.state_dir"@ {
        "State directory: %{path}"@
    } else if key == "doctor.info.exposure"@ {
        "Exposure: %{summary}"@
    } else if key == "doctor.config.load_failed"@ {
        "failed to load the configuration: %{error}"@
    } else if key == "doctor.config.valid"@ {
        "configuration is valid"@
    } else if key == "doctor.config.validation_failed"@ {
        "configuration is invalid: %{error}"@
    } else if key == "doctor.config.no_misconfig"@ {
        "no common misconfigurations found"@
    } else if key == "doctor.state.exists"@ {
        "state directory exists"@
    } else if key == "doctor.state.missing"@ {
        "state directory '%{path}' does not exist yet"@
    } else if key == "doctor.db.valid"@ {
        "session database is readable"@
    } else if key == "doctor.db.error"@ {
        "session database: %{error}"@
    } else if key == "doctor.db.missing"@ {
        "session database does not exist yet"@
    } else if key == "doctor.port.available"@ {
        "port %{port} is available"@
    } else if key == "doctor.port.in_use"@ {
        "port %{port} is in use"@
    } else if key == "doctor.port.check_error"@ {
        "port %{port} could not be checked: %{error}"@
    } else if key == "doctor.provider.none"@ {
        "no model providers are configured"@
    } else if key == "doctor.provider.no_key"@ {
        "provider '%{id}' (%{api}) has no API key"@
    } else if key == "doctor.provider.ok"@ {
        "provider '%{id}' (%{api}) has a key and %{count} models"@
    } else if key == "doctor.provider.reachable"@ {
        "%{url} is reachable"@
    } else if key == "doctor.provider.unreachable"@ {
        "%{url} is unreachable: %{error}"@
    } else if key == "doctor.channel.none"@ {
        "no channels are configured"@
    } else if key == "doctor.channel.enabled"@ {
        "channel '%{id}' is enabled with %{count} accounts"@
    } else if key == "doctor.channel.disabled"@ {
        "channel '%{id}' is disabled"@
    } else if key == "doctor.security.encrypt_ok"@ {
        "session encryption is on and has a master key"@
    } else if key == "doctor.security.encrypt_no_key"@ {
        "session encryption is on but has no master key"@
    } else if key == "doctor.security.encrypt_off"@ {
        "session encryption is off"@
    } else if key == "doctor.security.auth_none"@ {
        "authentication is disabled"@
    } else if key == "doctor.security.auth_token"@ {
        "token authentication"@
    } else if key == "doctor.security.auth_password"@ {
        "password authentication"@
    } else if key == "doctor.security.auth_proxy"@ {
        "trusted proxy authentication"@
    } else if key == "doctor.security.auth_tailscale"@ {
        "Tailscale authentication"@
    } else if key == "doctor.summary.critical"@ {
        "%{fails} critical issues and %{warns} warnings"@
    } else if key == "doctor.summary.warnings"@ {
        "%{warns} warnings"@
    } else if key == "doctor.summary.ok"@ {
        "all checks passed"@
    } else if key == "perms.file_warn"@ {
        "%{label} permissions are %{mode}; they should be 0600"@
    } else if key == "perms.file_ok"@ {
        "%{label} permissions are %{mode}"@
    } else if key == "perms.dir_warn"@ {
        "%{label} permissions are %{mode}; they should be 0700"@
    } else if key == "perms.dir_ok"@ {
        "%{label} permissions are %{mode}"@
    } else if key == "audit.auth.disabled"@ {
        "gateway authentication is disabled"@
    } else if key == "audit.auth.disabled_fix"@ {
        "set gateway.auth to token or password"@
    } else if key == "audit.auth.token_short"@ {
        "the gateway token is shorter than 16 characters"@
    } else if key == "audit.auth.token_short_fix"@ {
        "generate a token with: frankclaw gen-token"@
    } else if key == "audit.auth.password_empty"@ {
        "the gateway password hash is empty"@
    } else if key == "audit.auth.password_empty_fix"@ {
        "generate a hash with: frankclaw hash-password"@
    } else if key == "audit.secrets.no_key_ref"@ {
        "provider '%{id}' has no api_key_ref"@
    } else if key == "audit.secrets.no_key_ref_fix"@ {
        "name the environment variable with the key of provider '%{id}' in api_key_ref"@
    } else if key == "audit.secrets.inline"@ {
        "channel '%{channel}' stores '%{key}' inline"@
    } else if key == "audit.secrets.inline_fix"@ {
        "move '%{key}' to an environment variable and name it in '%{env_key}'"@
    } else if key == "audit.secrets.token_inline"@ {
        "the gateway token is stored inline in the configuration"@
    } else if key == "audit.secrets.token_inline_fix"@ {
        "keep the configuration file readable by its owner only"@
    } else if key == "audit.secrets.missing_env"@ {
        "provider '%{id}' needs environment variable '%{env}', which is not set"@
    } else if key == "audit.secrets.missing_env_fix"@ {
        "export %{env}"@
    } else if key == "audit.secrets.channel_missing_env"@ {
        "channel '%{channel}' needs environment variable '%{env}' (%{key}), which is not set"@
    } else if key == "audit.secrets.channel_missing_env_fix"@ {
        "export %{env}"@
    } else if key == "audit.encrypt.sessions_off"@ {
        "session encryption is disabled"@
    } else if key == "audit.encrypt.sessions_off_fix"@ {
        "set security.encrypt_sessions to true"@
    } else if key == "audit.encrypt.no_master_key"@ {
        "session encryption is on but FRANKCLAW_MASTER_KEY is missing or invalid"@
    } else if key == "audit.encrypt.no_master_key_fix"@ {
        "export FRANKCLAW_MASTER_KEY with 32 random bytes in base64"@
    } else if key == "audit.encrypt.media_off"@ {
        "media encryption is disabled"@
    } else if key == "audit.encrypt.media_off_fix"@ {
        "set security.encrypt_media to true"@
    } else if key == "audit.network.exposed_no_auth"@ {
        "the gateway is network-exposed without authentication"@
    } else if key == "audit.network.exposed_no_auth_fix"@ {
        "set gateway.auth or bind to loopback"@
    } else if key == "audit.network.no_tls"@ {
        "the gateway is network-exposed without TLS"@
    } else if key == "audit.network.no_tls_fix"@ {
        "set gateway.tls or put a TLS proxy in front"@
    } else if key == "audit.network.ssrf_off"@ {
        "SSRF protection is disabled"@
    } else if key == "audit.network.ssrf_off_fix"@ {
        "set security.ssrf_protection to true"@
    } else if key == "audit.channels.invalid_policy"@ {
        "channel '%{channel}' has an invalid security policy"@
    } else if key == "audit.channels.invalid_policy_fix"@ {
        "correct the security settings of the channel"@
    } else if key == "audit.channels.open_groups"@ {
        "channel '%{channel}' accepts group messages without mention gating"@
    } else if key == "audit.channels.open_groups_fix"@ {
        "set require_mention_for_groups or allowed_groups for channel '%{channel}'"@
    } else if key == "audit.channels.whatsapp_no_secret"@ {
        "WhatsApp webhook signatures are not verified"@
    } else if key == "audit.channels.whatsapp_no_secret_fix"@ {
        "set app_secret_env for the WhatsApp account"@
    } else if key == "audit.tools.bash_allow_all"@ {
        "the bash tool may run any command"@
    } else if key == "audit.tools.bash_allow_all_fix"@ {
        "restrict the bash tool to an allowlist"@
    } else if key == "audit.tools.bash_deny_all"@ {
        "the bash tool is enabled but denies every command"@
    } else if key == "audit.tools.bash_deny_all_fix"@ {
        "remove the bash tool or allow some commands"@
    } else if key == "audit.tools.bash_allowlist"@ {
        "the bash tool may run %{count} commands: %{commands}"@
    } else if key == "audit.tools.bash_allowlist_fix"@ {
        "check that each command is needed"@
    } else if key == "audit.tools.no_sandbox"@ {
        "the bash tool runs without a sandbox"@
    } else if key == "audit.tools.no_sandbox_fix"@ {
        "turn on the ai-jail sandbox"@
    } else if key == "audit.tools.sandbox_aijail"@ {
        "the bash tool runs in ai-jail"@
    } else if key == "audit.tools.sandbox_aijail_fix"@ {
        "nothing to do"@
    } else if key == "audit.tools.sandbox_lockdown"@ {
        "the bash tool runs in ai-jail with lockdown"@
    } else if key == "audit.tools.sandbox_lockdown_fix"@ {
        "nothing to do"@
    } else if key == "audit.tools.sandbox_missing"@ {
        "sandbox mode '%{mode}' is configured but ai-jail is not installed"@
    } else if key == "audit.tools.sandbox_missing_fix"@ {
        "install ai-jail"@
    } else if key == "audit.tools.approval_level"@ {
        "tool approval level is %{level}"@
    } else if key == "audit.tools.approval_level_fix"@ {
        "change it with FRANKCLAW_TOOL_APPROVAL"@
    } else if key == "audit.tools.mutating_approved"@ {
        "mutating tools are approved without asking"@
    } else if key == "audit.tools.mutating_approved_fix"@ {
        "lower FRANKCLAW_TOOL_APPROVAL"@
    } else if key == "audit.tools.destructive_approved"@ {
        "destructive tools are approved without asking"@
    } else if key == "audit.tools.destructive_approved_fix"@ {
        "lower FRANKCLAW_TOOL_APPROVAL"@
    } else if key == "audit.media.scanning_on"@ {
        "uploaded files are scanned"@
    } else if key == "audit.media.scanning_on_fix"@ {
        "nothing to do"@
    } else if key == "audit.media.scanning_off"@ {
        "uploaded files are not scanned"@
    } else if key == "audit.media.scanning_off_fix"@ {
        "set VIRUSTOTAL_API_KEY"@
    } else if key == "audit.fs.config_world_readable"@ {
        "the configuration file has permissions %{mode}"@
    } else if key == "audit.fs.config_world_readable_fix"@ {
        "chmod 600 %{path}"@
    } else if key == "audit.fs.state_world_readable"@ {
        "the state directory has permissions %{mode}"@
    } else if key == "audit.fs.state_world_readable_fix"@ {
        "chmod 700 %{path}"@
    } else if key == "audit.fs.db_world_readable"@ {
        "the session database has permissions %{mode}"@
    } else if key == "audit.fs.db_world_readable_fix"@ {
        "chmod 600 %{path}"@
    } else {
        key
    }
}

/// The English wording of a key; the key itself where there is none.
pub fn english(key: &'static str) -> (r: &'static str)
    ensures
        r@ == wording(key@),
{
    if str_eq(key, "plain") {
        "%{text}"
    } else if str_eq(key, "warn.no_providers") {
        "no model providers are configured"
    } else if str_eq(key, "warn.no_channels") {
        "no channels are configured"
    } else if str_eq(key, "warn.encrypt_off") {
        "session encryption is turned off"
    } else if str_eq(key, "warn.encrypt_no_key") {
        "session encryption is on but FRANKCLAW_MASTER_KEY is not set"
    } else if str_eq(key, "warn.state_missing") {
        "state directory '%{path}' does not exist yet"
    } else if str_eq(key, "warn.missing_env") {
        "provider '%{id}' needs environment variable '%{env}', which is not set"
    } else if str_eq(key, "warn.invalid_channel_policy") {
        "channel '%{channel}' has an invalid security policy"
    } else if str_eq(key, "warn.channel_open_groups") {
        "channel '%{channel}' accepts group messages without mention gating or an allowed group list"
    } else if str_eq(key, "warn.channel_missing_env") {
        "channel '%{channel}' needs environment variable '%{env}' (%{key}), which is not set"
    } else if str_eq(key, "warn.channel_inline_secret") {
        "channel '%{channel}' stores '%{key}' inline; use '%{env_key}' instead"
    } else if str_eq(key, "warn.whatsapp_no_secret") {
        "channel 'whatsapp' has no app_secret configured; webhook signatures are not verified (set WHATSAPP_APP_SECRET)"
    } else if str_eq(key, "browser.invalid_url") {
        "FRANKCLAW_BROWSER_DEVTOOLS_URL is not a valid URL: %{error}"
    } else if str_eq(key, "browser.mutations_blocked") {
        "mutating browser tools are configured but blocked; set FRANKCLAW_TOOL_APPROVAL=mutating to allow them"
    } else if str_eq(key, "browser.non_loopback") {
        "browser DevTools endpoint points at non-loopback host '%{host}'"
    } else if str_eq(key, "browser.no_host") {
        "browser DevTools endpoint has no host"
    } else if str_eq(key, "browser.unreachable") {
        "browser DevTools endpoint '%{endpoint}' is unreachable; start it with: docker compose up -d chromium"
    } else if str_eq(key, "cmd.status.mutations_enabled") {
        "mutations enabled"
    } else if str_eq(key, "cmd.status.mutations_gated") {
        "mutations gated"
    } else if str_eq(key, "cmd.status.read_only") {
        "read-only"
    } else if str_eq(key, "cmd.onboard.unsupported") {
        "unsupported onboard channel '%{channel}'"
    } else if str_eq(key, "cmd.config_example.unsupported") {
        "unsupported channel example '%{channel}'"
    } else if str_eq(key, "cmd.message.editing_chunked_unsupported") {
        "editing chunked replies is not supported"
    } else if str_eq(key, "cmd.remote.not_public") {
        "the gateway is not ready for public exposure"
    } else if str_eq(key, "cmd.remote.not_remote") {
        "the gateway is not ready for remote exposure"
    } else if str_eq(key, "ctx.no_delivery_metadata") {
        "the session has no delivery metadata for its last reply"
    } else if str_eq(key, "ctx.missing_platform_id") {
        "the last reply has no platform message id"
    } else if str_eq(key, "ctx.missing_platform_ids") {
        "the last reply has no platform message ids"
    } else if str_eq(key, "daemon.running") {
        "running (PID %{pid})"
    } else if str_eq(key, "daemon.not_running") {
        "not running (stale PID file for PID %{pid})"
    } else if str_eq(key, "setup.invalid_port") {
        "the gateway port must be a number from 0 to 65535"
    } else if str_eq(key, "setup.encryption_on") {
        "Session encryption is on. Generate a master key:"
    } else if str_eq(key, "setup.encryption_cmd") {
        "  export FRANKCLAW_MASTER_KEY=$(openssl rand -base64 32)"
    } else if str_eq(key, "setup.next_steps") {
        "Next steps:"
    } else if str_eq(key, "setup.export_key") {
        "  export %{env}=..."
    } else if str_eq(key, "setup.export_channel") {
        "  export the channel's environment variables"
    } else if str_eq(key, "setup.verify_config") {
        "  frankclaw doctor"
    } else if str_eq(key, "setup.start_gateway") {
        "  frankclaw gateway"
    } else if str_eq(key, "doctor.section.system") {
        "System"
    } else if str_eq(key, "doctor.section.configuration") {
        "Configuration"
    } else if str_eq(key, "doctor.section.state_directory") {
        "State directory"
    } else if str_eq(key, "doctor.section.database") {
        "Database"
    } else if str_eq(key, "doctor.section.network") {
        "Network"
    } else if str_eq(key, "doctor.section.providers") {
        "Providers"
    } else if str_eq(key, "doctor.section.channels") {
        "Channels"
    } else if str_eq(key, "doctor.section.security") {
        "Security"
    } else if str_eq(key, "doctor.config.critical_issues") {
        "Critical issues found."
    } else if str_eq(key, "doctor.info.version") {
        "FrankClaw %{version}"
    } else if str_eq(key, "doctor.info.rust") {
        "Rust: %{version}"
    } else if str_eq(key, "doctor.info.os") {
        "OS: %{os}"
    } else if str_eq(key, "doctor.info.arch") {
        "Arch: %{arch}"
    } else if str_eq(key, "doctor.info.state_dir") {
        "State directory: %{path}"
    } else if str_eq(key, "doctor.info.exposure") {
        "Exposure: %{summary}"
    } else if str_eq(key, "doctor.config.load_failed") {
        "failed to load the configuration: %{error}"
    } else if str_eq(key, "doctor.config.valid") {
        "configuration is valid"
    } else if str_eq(key, "doctor.config.validation_failed") {
        "configuration is invalid: %{error}"
    } else if str_eq(key, "doctor.config.no_misconfig") {
        "no common misconfigurations found"
    } else if str_eq(key, "doctor.state.exists") {
        "state directory exists"
    } else if str_eq(key, "doctor.state.missing") {
        "state directory '%{path}' does not exist yet"
    } else if str_eq(key, "doctor.db.valid") {
        "session database is readable"
    } else if str_eq(key, "doctor.db.error") {
        "session database: %{error}"
    } else if str_eq(key, "doctor.db.missing") {
        "session database does not exist yet"
    } else if str_eq(key, "doctor.port.available") {
        "port %{port} is available"
    } else if str_eq(key, "doctor.port.in_use") {
        "port %{port} is in use"
    } else if str_eq(key, "doctor.port.check_error") {
        "port %{port} could not be checked: %{error}"
    } else if str_eq(key, "doctor.provider.none") {
        "no model providers are configured"
    } else if str_eq(key, "doctor.provider.no_key") {
        "provider '%{id}' (%{api}) has no API key"
    } else if str_eq(key, "doctor.provider.ok") {
        "provider '%{id}' (%{api}) has a key and %{count} models"
    } else if str_eq(key, "doctor.provider.reachable") {
        "%{url} is reachable"
    } else if str_eq(key, "doctor.provider.unreachable") {
        "%{url} is unreachable: %{error}"
    } else if str_eq(key, "doctor.channel.none") {
        "no channels are configured"
    } else if str_eq(key, "doctor.channel.enabled") {
        "channel '%{id}' is enabled with %{count} accounts"
    } else if str_eq(key, "doctor.channel.disabled") {
        "channel '%{id}' is disabled"
    } else if str_eq(key, "doctor.security.encrypt_ok") {
        "session encryption is on and has a master key"
    } else if str_eq(key, "doctor.security.encrypt_no_key") {
        "session encryption is on but has no master key"
    } else if str_eq(key, "doctor.security.encrypt_off") {
        "session encryption is off"
    } else if str_eq(key, "doctor.security.auth_none") {
        "authentication is disabled"
    } else if str_eq(key, "doctor.security.auth_token") {
        "token authentication"
    } else if str_eq(key, "doctor.security.auth_password") {
        "password authentication"
    } else if str_eq(key, "doctor.security.auth_proxy") {
        "trusted proxy authentication"
    } else if str_eq(key, "doctor.security.auth_tailscale") {
        "Tailscale authentication"
    } else if str_eq(key, "doctor.summary.critical") {
        "%{fails} critical issues and %{warns} warnings"
    } else if str_eq(key, "doctor.summary.warnings") {
        "%{warns} warnings"
    } else if str_eq(key, "doctor.summary.ok") {
        "all checks passed"
    } else if str_eq(key, "perms.file_warn") {
        "%{label} permissions are %{mode}; they should be 0600"
    } else if str_eq(key, "perms.file_ok") {
        "%{label} permissions are %{mode}"
    } else if str_eq(key, "perms.dir_warn") {
        "%{label} permissions are %{mode}; they should be 0700"
    } else if str_eq(key, "perms.dir_ok") {
        "%{label} permissions are %{mode}"
    } else if str_eq(key, "audit.auth.disabled") {
        "gateway authentication is disabled"
    } else if str_eq(key, "audit.auth.disabled_fix") {
        "set gateway.auth to token or password"
    } else if str_eq(key, "audit.auth.token_short") {
        "the gateway token is shorter than 16 characters"
    } else if str_eq(key, "audit.auth.token_short_fix") {
        "generate a token with: frankclaw gen-token"
    } else if str_eq(key, "audit.auth.password_empty") {
        "the gateway password hash is empty"
    } else if str_eq(key, "audit.auth.password_empty_fix") {
        "generate a hash with: frankclaw hash-password"
    } else if str_eq(key, "audit.secrets.no_key_ref") {
        "provider '%{id}' has no api_key_ref"
    } else if str_eq(key, "audit.secrets.no_key_ref_fix") {
        "name the environment variable with the key of provider '%{id}' in api_key_ref"
    } else if str_eq(key, "audit.secrets.inline") {
        "channel '%{channel}' stores '%{key}' inline"
    } else if str_eq(key, "audit.secrets.inline_fix") {
        "move '%{key}' to an environment variable and name it in '%{env_key}'"
    } else if str_eq(key, "audit.secrets.token_inline") {
        "the gateway token is stored inline in the configuration"
    } else if str_eq(key, "audit.secrets.token_inline_fix") {
        "keep the configuration file readable by its owner only"
    } else if str_eq(key, "audit.secrets.missing_env") {
        "provider '%{id}' needs environment variable '%{env}', which is not set"
    } else if str_eq(key, "audit.secrets.missing_env_fix") {
        "export %{env}"
    } else if str_eq(key, "audit.secrets.channel_missing_env") {
        "channel '%{channel}' needs environment variable '%{env}' (%{key}), which is not set"
    } else if str_eq(key, "audit.secrets.channel_missing_env_fix") {
        "export %{env}"
    } else if str_eq(key, "audit.encrypt.sessions_off") {
        "session encryption is disabled"
    } else if str_eq(key, "audit.encrypt.sessions_off_fix") {
        "set security.encrypt_sessions to true"
    } else if str_eq(key, "audit.encrypt.no_master_key") {
        "session encryption is on but FRANKCLAW_MASTER_KEY is missing or invalid"
    } else if str_eq(key, "audit.encrypt.no_master_key_fix") {
        "export FRANKCLAW_MASTER_KEY with 32 random bytes in base64"
    } else if str_eq(key, "audit.encrypt.media_off") {
        "media encryption is disabled"
    } else if str_eq(key, "audit.encrypt.media_off_fix") {
        "set security.encrypt_media to true"
    } else if str_eq(key, "audit.network.exposed_no_auth") {
        "the gateway is network-exposed without authentication"
    } else if str_eq(key, "audit.network.exposed_no_auth_fix") {
        "set gateway.auth or bind to loopback"
    } else if str_eq(key, "audit.network.no_tls") {
        "the gateway is network-exposed without TLS"
    } else if str_eq(key, "audit.network.no_tls_fix") {
        "set gateway.tls or put a TLS proxy in front"
    } else if str_eq(key, "audit.network.ssrf_off") {
        "SSRF protection is disabled"
    } else if str_eq(key, "audit.network.ssrf_off_fix") {
        "set security.ssrf_protection to true"
    } else if str_eq(key, "audit.channels.invalid_policy") {
        "channel '%{channel}' has an invalid security policy"
    } else if str_eq(key, "audit.channels.invalid_policy_fix") {
        "correct the security settings of the channel"
    } else if str_eq(key, "audit.channels.open_groups") {
        "channel '%{channel}' accepts group messages without mention gating"
    } else if str_eq(key, "audit.channels.open_groups_fix") {
        "set require_mention_for_groups or allowed_groups for channel '%{channel}'"
    } else if str_eq(key, "audit.channels.whatsapp_no_secret") {
        "WhatsApp webhook signatures are not verified"
    } else if str_eq(key, "audit.channels.whatsapp_no_secret_fix") {
        "set app_secret_env for the WhatsApp account"
    } else if str_eq(key, "audit.tools.bash_allow_all") {
        "the bash tool may run any command"
    } else if str_eq(key, "audit.tools.bash_allow_all_fix") {
        "restrict the bash tool to an allowlist"
    } else if str_eq(key, "audit.tools.bash_deny_all") {
        "the bash tool is enabled but denies every command"
    } else if str_eq(key, "audit.tools.bash_deny_all_fix") {
        "remove the bash tool or allow some commands"
    } else if str_eq(key, "audit.tools.bash_allowlist") {
        "the bash tool may run %{count} commands: %{commands}"
    } else if str_eq(key, "audit.tools.bash_allowlist_fix") {
        "check that each command is needed"
    } else if str_eq(key, "audit.tools.no_sandbox") {
        "the bash tool runs without a sandbox"
    } else if str_eq(key, "audit.tools.no_sandbox_fix") {
        "turn on the ai-jail sandbox"
    } else if str_eq(key, "audit.tools.sandbox_aijail") {
        "the bash tool runs in ai-jail"
    } else if str_eq(key, "audit.tools.sandbox_aijail_fix") {
        "nothing to do"
    } else if str_eq(key, "audit.tools.sandbox_lockdown") {
        "the bash tool runs in ai-jail with lockdown"
    } else if str_eq(key, "audit.tools.sandbox_lockdown_fix") {
        "nothing to do"
    } else if str_eq(key, "audit.tools.sandbox_missing") {
        "sandbox mode '%{mode}' is configured but ai-jail is not installed"
    } else if str_eq(key, "audit.tools.sandbox_missing_fix") {
        "install ai-jail"
    } else if str_eq(key, "audit.tools.approval_level") {
        "tool approval level is %{level}"
    } else if str_eq(key, "audit.tools.approval_level_fix") {
        "change it with FRANKCLAW_TOOL_APPROVAL"
    } else if str_eq(key, "audit.tools.mutating_approved") {
        "mutating tools are approved without asking"
    } else if str_eq(key, "audit.tools.mutating_approved_fix") {
        "lower FRANKCLAW_TOOL_APPROVAL"
    } else if str_eq(key, "audit.tools.destructive_approved") {
        "destructive tools are approved without asking"
    } else if str_eq(key, "audit.tools.destructive_approved_fix") {
        "lower FRANKCLAW_TOOL_APPROVAL"
    } else if str_eq(key, "audit.media.scanning_on") {
        "uploaded files are scanned"
    } else if str_eq(key, "audit.media.scanning_on_fix") {
        "nothing to do"
    } else if str_eq(key, "audit.media.scanning_off") {
        "uploaded files are not scanned"
    } else if str_eq(key, "audit.media.scanning_off_fix") {
        "set VIRUSTOTAL_API_KEY"
    } else if str_eq(key, "audit.fs.config_world_readable") {
        "the configuration file has permissions %{mode}"
    } else if str_eq(key, "audit.fs.config_world_readable_fix") {
        "chmod 600 %{path}"
    } else if str_eq(key, "audit.fs.state_world_readable") {
        "the state directory has permissions %{mode}"
    } else if str_eq(key, "audit.fs.state_world_readable_fix") {
        "chmod 700 %{path}"
    } else if str_eq(key, "audit.fs.db_world_readable") {
        "the session database has permissions %{mode}"
    } else if str_eq(key, "audit.fs.db_world_readable_fix") {
        "chmod 600 %{path}"
    } else {
        key
    }
}

} // verus!
