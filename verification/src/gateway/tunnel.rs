//! Tunnels that expose the gateway: their command lines, and the address in
//! their output.

use crate::channels::Environment;
use crate::error::{config_invalid, ErrorView, FrankClawError};
use crate::text::{
    ascii_lower, cat2, cat3, chars_of, decimal, decimal_of, find_text, find_white, has_text,
    replace, replaced, search, split_words, str_eq, string_of, strip_prefix, to_ascii_lower,
    trimmed, until_white, words_of,
};
use vstd::prelude::*;
use vstd::string::*;

verus! {

/// The provider of a tunnel.
#[derive(Clone, Debug)]
pub enum TunnelConfig {
    /// Cloudflare Tunnel via `cloudflared`.
    Cloudflare { token: String },
    /// ngrok tunnel.
    Ngrok { auth_token: String, domain: Option<String> },
    /// A command with `{host}` and `{port}` placeholders.
    Custom { command: String, url_pattern: Option<String> },
}

/// What a provider is.
pub enum TunnelView {
    Cloudflare(Seq<char>),
    Ngrok(Seq<char>, Option<Seq<char>>),
    Custom(Seq<char>, Option<Seq<char>>),
}

impl View for TunnelConfig {
    type V = TunnelView;

    open spec fn view(&self) -> TunnelView {
        match self {
            TunnelConfig::Cloudflare { token } => TunnelView::Cloudflare(token@),
            TunnelConfig::Ngrok { auth_token, domain } => TunnelView::Ngrok(
                auth_token@,
                domain.deep_view(),
            ),
            TunnelConfig::Custom { command, url_pattern } => TunnelView::Custom(
                command@,
                url_pattern.deep_view(),
            ),
        }
    }
}

/// A tunnel that was started.
#[derive(Debug)]
pub struct Tunnel {
    pub name: String,
    pub public_url: Option<String>,
}

impl Tunnel {
    /// The address of the tunnel, while it runs.
    pub fn public_url(&self) -> (r: Option<String>)
        ensures
            r == self.public_url,
    {
        crate::message::clone_text(&self.public_url)
    }

    /// The name of the provider.
    pub fn name(&self) -> (r: &str)
        ensures
            r@ == self.name@,
    {
        self.name.as_str()
    }

    /// The tunnel was stopped: it has no address any more.
    pub fn stop(&mut self)
        ensures
            final(self).public_url is None,
            final(self).name == old(self).name,
    {
        self.public_url = None;
    }
}

/// The address that follows `prefix` in a line, up to the next white space.
/// `url=` before it does not count.
pub open spec fn url_in(line: Seq<char>, prefix: Seq<char>) -> Option<Seq<char>> {
    let at = find_text(line, prefix, 0);
    if at > line.len() {
        None
    } else {
        let from = if "url="@.is_prefix_of(line.skip(at)) {
            line.skip(at).skip(4)
        } else {
            line.skip(at)
        };
        if has_text(from, "https://"@) {
            Some(until_white(from.skip(find_text(from, "https://"@, 0))))
        } else if has_text(from, "http://"@) {
            Some(until_white(from.skip(find_text(from, "http://"@, 0))))
        } else {
            None
        }
    }
}

fn url_at(v: &Vec<char>, from: usize) -> (r: String)
    requires
        from <= v@.len(),
    ensures
        r@ == until_white(v@.skip(from as int)),
{
    let end: usize = find_white(v, from);
    string_of(v, from, end)
}

/// The address that follows `prefix` in a line, if there is one.
pub fn extract_url_from_line(line: &str, prefix: &str) -> (r: Option<String>)
    ensures
        r.deep_view() == url_in(line@, prefix@),
{
    proof {
        reveal_strlit("url=");
    }
    let v = chars_of(line);
    let at: usize = match search(&v, &chars_of(prefix)) {
        Some(at) => at,
        None => {
            return None;
        },
    };
    let n: usize = line.unicode_len();
    let tail = line.substring_char(at, n);
    assert(tail@ =~= line@.skip(at as int));
    let from = match strip_prefix(tail, "url=") {
        Some(rest) => {
            assert(rest@ =~= tail@.skip(4));
            rest
        },
        None => tail,
    };
    let w = chars_of(from);
    match search(&w, &chars_of("https://")) {
        Some(i) => Some(url_at(&w, i)),
        None => match search(&w, &chars_of("http://")) {
            Some(i) => Some(url_at(&w, i)),
            None => None,
        },
    }
}

/// The provider that the environment asks for.
pub open spec fn tunnel_of(vars: Map<Seq<char>, String>) -> Option<TunnelView> {
    if !vars.dom().contains("FRANKCLAW_TUNNEL"@) {
        None
    } else {
        let provider = ascii_lower(trimmed(vars["FRANKCLAW_TUNNEL"@]@));
        if provider == "cloudflare"@ || provider == "cloudflared"@ {
            if vars.dom().contains("FRANKCLAW_TUNNEL_CF_TOKEN"@) {
                Some(TunnelView::Cloudflare(vars["FRANKCLAW_TUNNEL_CF_TOKEN"@]@))
            } else {
                None
            }
        } else if provider == "ngrok"@ {
            if vars.dom().contains("FRANKCLAW_TUNNEL_NGROK_TOKEN"@) {
                Some(
                    TunnelView::Ngrok(
                        vars["FRANKCLAW_TUNNEL_NGROK_TOKEN"@]@,
                        variable(vars, "FRANKCLAW_TUNNEL_NGROK_DOMAIN"@),
                    ),
                )
            } else {
                None
            }
        } else if provider == "custom"@ {
            if vars.dom().contains("FRANKCLAW_TUNNEL_COMMAND"@) {
                Some(
                    TunnelView::Custom(
                        vars["FRANKCLAW_TUNNEL_COMMAND"@]@,
                        variable(vars, "FRANKCLAW_TUNNEL_URL_PATTERN"@),
                    ),
                )
            } else {
                None
            }
        } else {
            None
        }
    }
}

/// The value of a variable, where it is set.
pub open spec fn variable(vars: Map<Seq<char>, String>, name: Seq<char>) -> Option<Seq<char>> {
    if vars.dom().contains(name) {
        Some(vars[name]@)
    } else {
        None
    }
}

fn get_variable(vars: &Environment, name: &str) -> (r: Option<String>)
    requires
        vars.wf(),
    ensures
        r.deep_view() == variable(vars@, name@),
{
    match vars.get(name) {
        Some(value) => Some(value.clone()),
        None => None,
    }
}

/// The provider that the environment asks for; none where it asks for none, or
/// leaves out what the provider needs.
pub fn tunnel_config_from_env(vars: &Environment) -> (r: Option<TunnelConfig>)
    requires
        vars.wf(),
    ensures
        r is Some == tunnel_of(vars@) is Some,
        r is Some ==> r->0@ == tunnel_of(vars@)->0,
{
    let raw = get_variable(vars, "FRANKCLAW_TUNNEL")?;
    let provider = to_ascii_lower(raw.as_str().trim());
    let provider = provider.as_str();
    if str_eq(provider, "cloudflare") || str_eq(provider, "cloudflared") {
        let token = get_variable(vars, "FRANKCLAW_TUNNEL_CF_TOKEN")?;
        Some(TunnelConfig::Cloudflare { token })
    } else if str_eq(provider, "ngrok") {
        let auth_token = get_variable(vars, "FRANKCLAW_TUNNEL_NGROK_TOKEN")?;
        let domain = get_variable(vars, "FRANKCLAW_TUNNEL_NGROK_DOMAIN");
        Some(TunnelConfig::Ngrok { auth_token, domain })
    } else if str_eq(provider, "custom") {
        let command = get_variable(vars, "FRANKCLAW_TUNNEL_COMMAND")?;
        let url_pattern = get_variable(vars, "FRANKCLAW_TUNNEL_URL_PATTERN");
        Some(TunnelConfig::Custom { command, url_pattern })
    } else {
        None
    }
}

/// A process to start: the program and its arguments.
#[derive(Debug)]
pub struct TunnelCommand {
    pub program: String,
    pub args: Vec<String>,
}

/// The words of the command that starts a tunnel.
pub open spec fn command_words(config: TunnelView, host: Seq<char>, port: u16) -> Seq<Seq<char>> {
    let port = decimal(port as nat);
    match config {
        TunnelView::Cloudflare(token) => seq![
            "cloudflared"@,
            "tunnel"@,
            "--no-autoupdate"@,
            "run"@,
            "--token"@,
            token,
            "--url"@,
            "http://"@ + host + ":"@ + port,
        ],
        TunnelView::Ngrok(_, domain) => {
            let base = seq![
                "ngrok"@,
                "http"@,
                host + ":"@ + port,
                "--log"@,
                "stdout"@,
                "--log-format"@,
                "logfmt"@,
            ];
            match domain {
                Some(domain) => base.push("--domain"@).push(domain),
                None => base,
            }
        },
        TunnelView::Custom(command, _) => words_of(
            replaced(replaced(command, "{host}"@, host), "{port}"@, port),
        ),
    }
}

/// The words of a command.
pub open spec fn words_in(command: TunnelCommand) -> Seq<Seq<char>> {
    seq![command.program@] + command.args.deep_view()
}

fn owned(s: &str) -> (r: String)
    ensures
        r@ == s@,
{
    s.to_owned()
}

/// The command that starts a tunnel to the gateway at `host` and `port`. A
/// command of the user's own has its placeholders filled in; it may not be
/// empty.
pub fn tunnel_command(config: &TunnelConfig, host: &str, port: u16) -> (r: Result<
    TunnelCommand,
    FrankClawError,
>)
    ensures
        match r {
            Ok(command) => words_in(command) == command_words(config@, host@, port),
            Err(e) => command_words(config@, host@, port).len() == 0 && e@
                == ErrorView::ConfigValidation("tunnel command is empty"@),
        },
        command_words(config@, host@, port).len() > 0 ==> r is Ok,
{
    let port_text = decimal_of(port as u64);
    match config {
        TunnelConfig::Cloudflare { token } => {
            let mut args: Vec<String> = Vec::new();
            args.push(owned("tunnel"));
            args.push(owned("--no-autoupdate"));
            args.push(owned("run"));
            args.push(owned("--token"));
            args.push(token.clone());
            args.push(owned("--url"));
            args.push(cat3(cat2("http://", host).as_str(), ":", port_text.as_str()));
            let command = TunnelCommand { program: owned("cloudflared"), args };
            assert(words_in(command) =~= command_words(config@, host@, port));
            Ok(command)
        },
        TunnelConfig::Ngrok { auth_token: _, domain } => {
            let mut args: Vec<String> = Vec::new();
            args.push(owned("http"));
            args.push(cat3(host, ":", port_text.as_str()));
            args.push(owned("--log"));
            args.push(owned("stdout"));
            args.push(owned("--log-format"));
            args.push(owned("logfmt"));
            if let Some(domain) = domain {
                args.push(owned("--domain"));
                args.push(domain.clone());
            }
            let command = TunnelCommand { program: owned("ngrok"), args };
            assert(words_in(command) =~= command_words(config@, host@, port));
            Ok(command)
        },
        TunnelConfig::Custom { command, url_pattern: _ } => {
            proof {
                reveal_strlit("{host}");
                reveal_strlit("{port}");
            }
            let expanded = replace(
                replace(command.as_str(), "{host}", host).as_str(),
                "{port}",
                port_text.as_str(),
            );
            let mut words = split_words(expanded.as_str());
            let ghost all = words.deep_view();
            assert(all.len() == words@.len());
            if words.len() == 0 {
                return Err(config_invalid("tunnel command is empty"));
            }
            let program = words.remove(0);
            let command = TunnelCommand { program, args: words };
            assert(words_in(command) =~= all);
            Ok(command)
        },
    }
}

/// The text before the address in a tunnel's output; none where the output
/// does not tell it.
pub fn url_marker(config: &TunnelConfig) -> (r: Option<&str>)
    ensures
        match config {
            TunnelConfig::Cloudflare { .. } => r is Some && r->0@ == "https://"@,
            TunnelConfig::Ngrok { .. } => r is Some && r->0@ == "url=https://"@,
            TunnelConfig::Custom { url_pattern, .. } => match url_pattern {
                Some(pattern) => r is Some && r->0@ == pattern@,
                None => r is None,
            },
        },
{
    match config {
        TunnelConfig::Cloudflare { .. } => Some("https://"),
        TunnelConfig::Ngrok { .. } => Some("url=https://"),
        TunnelConfig::Custom { url_pattern, .. } => match url_pattern {
            Some(pattern) => Some(pattern.as_str()),
            None => None,
        },
    }
}

/// The address of a tunnel whose output does not tell it: the gateway's own.
pub fn local_url(host: &str, port: u16) -> (r: String)
    ensures
        r@ == "http://"@ + host@ + ":"@ + decimal(port as nat),
{
    cat3(cat2("http://", host).as_str(), ":", decimal_of(port as u64).as_str())
}

/// What the lines of a tunnel's output came to.
#[derive(Debug)]
pub enum TunnelOutput {
    /// A line told the address.
    Url(String),
    /// The output ended.
    Ended,
    /// Nothing came in time.
    TimedOut { secs: u64 },
}

/// The address that a tunnel's output told, or why there is none.
pub fn extract_url_from_stream(output: TunnelOutput, prefix: &str) -> (r: Result<
    String,
    FrankClawError,
>)
    ensures
        match output {
            TunnelOutput::Url(url) => r is Ok && r->Ok_0 == url,
            TunnelOutput::Ended => r is Err && r->Err_0@ == ErrorView::Internal(
                "tunnel output ended without a URL (looking for '"@ + prefix@ + "')"@,
            ),
            TunnelOutput::TimedOut { secs } => r is Err && r->Err_0@ == ErrorView::Internal(
                "tunnel did not output a URL within "@ + decimal(secs as nat) + "s"@,
            ),
        },
{
    match output {
        TunnelOutput::Url(url) => Ok(url),
        TunnelOutput::Ended => Err(
            FrankClawError::Internal {
                msg: cat3("tunnel output ended without a URL (looking for '", prefix, "')"),
            },
        ),
        TunnelOutput::TimedOut { secs } => Err(
            FrankClawError::Internal {
                msg: cat3("tunnel did not output a URL within ", decimal_of(secs).as_str(), "s"),
            },
        ),
    }
}

} // verus!
