//! Tunnels: the provider that the environment asks for, its command line, and
//! the address in its output.

use crate::channels::Environment;
use crate::error::FrankClawError;
use crate::gateway::tunnel::{
    extract_url_from_line, extract_url_from_stream, local_url, tunnel_command,
    tunnel_config_from_env, url_marker, words_in, Tunnel, TunnelCommand, TunnelConfig, TunnelOutput,
};
use crate::laws::terms::stands_in;
use crate::text::{
    decimal, find_text, has_text, is_white, lemma_find_text, lemma_find_text_before, lower_char,
    replace, split_words, trimmed, until_white,
};
use vstd::prelude::*;

verus! {

/// True when the environment names a provider, in any case.
pub open spec fn asks_for(vars: Map<Seq<char>, String>, provider: Seq<char>) -> bool {
    vars.dom().contains("FRANKCLAW_TUNNEL"@) && trimmed(vars["FRANKCLAW_TUNNEL"@]@).map_values(
        |c: char| lower_char(c),
    ) == provider
}

/// A tunnel is the one that the environment asks for, with its own token or
/// command; without those, or with another provider, there is none.
pub proof fn law_tunnel_of_the_environment(vars: &Environment, r: Option<TunnelConfig>)
    requires
        call_ensures(tunnel_config_from_env, (vars,), r),
    ensures
        ({
            let cloudflare = asks_for(vars@, "cloudflare"@) || asks_for(vars@, "cloudflared"@);
            let ngrok = asks_for(vars@, "ngrok"@);
            let custom = asks_for(vars@, "custom"@);
            let cf_token = "FRANKCLAW_TUNNEL_CF_TOKEN"@;
            let ng_token = "FRANKCLAW_TUNNEL_NGROK_TOKEN"@;
            let ng_domain = "FRANKCLAW_TUNNEL_NGROK_DOMAIN"@;
            let command = "FRANKCLAW_TUNNEL_COMMAND"@;
            let pattern = "FRANKCLAW_TUNNEL_URL_PATTERN"@;
            &&& !cloudflare && !ngrok && !custom ==> r is None
            &&& cloudflare ==> (r is Some <==> vars@.dom().contains(cf_token))
            &&& cloudflare && r is Some ==> r->0 is Cloudflare && r->0->token@ == vars@[cf_token]@
            &&& ngrok ==> (r is Some <==> vars@.dom().contains(ng_token))
            &&& ngrok && r is Some ==> r->0 is Ngrok && r->0->auth_token@ == vars@[ng_token]@ && (
            r->0->domain is Some <==> vars@.dom().contains(ng_domain))
            &&& ngrok && r is Some && r->0->domain is Some ==> r->0->domain->0@
                == vars@[ng_domain]@
            &&& custom ==> (r is Some <==> vars@.dom().contains(command))
            &&& custom && r is Some ==> r->0 is Custom && r->0->command@ == vars@[command]@ && (
            r->0->url_pattern is Some <==> vars@.dom().contains(pattern))
            &&& custom && r is Some && r->0->url_pattern is Some ==> r->0->url_pattern->0@
                == vars@[pattern]@
        }),
{
    reveal_strlit("cloudflare");
    reveal_strlit("cloudflared");
    reveal_strlit("ngrok");
    reveal_strlit("custom");
    assert("cloudflare"@.len() == 10);
    assert("cloudflared"@.len() == 11);
    assert("ngrok"@.len() == 5);
    assert("custom"@.len() == 6);
    if vars@.dom().contains("FRANKCLAW_TUNNEL"@) {
        let provider = trimmed(vars@["FRANKCLAW_TUNNEL"@]@);
        assert(provider.map_values(|c: char| lower_char(c)) =~= crate::text::ascii_lower(provider));
    }
}

/// Cloudflare and ngrok are started with the token or the domain that they are
/// given, for the address of the gateway.
pub proof fn law_provider_is_started(
    config: &TunnelConfig,
    host: &str,
    port: u16,
    r: Result<TunnelCommand, FrankClawError>,
)
    requires
        call_ensures(tunnel_command, (config, host, port), r),
        !(config is Custom),
    ensures
        r is Ok,
        config is Cloudflare ==> {
            let args = r->Ok_0.args@;
            &&& r->Ok_0.program@ == "cloudflared"@
            &&& args.len() == 7
            &&& args[0]@ == "tunnel"@
            &&& args[3]@ == "--token"@ && args[4]@ == config->token@
            &&& args[5]@ == "--url"@ && args[6]@ == "http://"@ + host@ + ":"@ + decimal(port as nat)
        },
        config is Ngrok ==> {
            let args = r->Ok_0.args@;
            &&& r->Ok_0.program@ == "ngrok"@
            &&& args.len() >= 6
            &&& args[0]@ == "http"@ && args[1]@ == host@ + ":"@ + decimal(port as nat)
            &&& config->domain is None ==> args.len() == 6
            &&& config->domain is Some ==> args.len() == 8 && args[6]@ == "--domain"@ && args[7]@
                == config->domain->0@
        },
{
    let words = crate::gateway::tunnel::command_words(config@, host@, port);
    assert(words.len() > 0);
    let command = r->Ok_0;
    assert(words_in(command) == words);
    assert(words_in(command)[0] == command.program@);
    assert(words_in(command).len() == command.args@.len() + 1);
    assert forall|i: int| 0 <= i < command.args@.len() implies (#[trigger] command.args@[i])@
        == words[i + 1] by {
        assert(words_in(command)[i + 1] == command.args.deep_view()[i]);
    }
}

/// A command of one's own is run with its placeholders filled in, word by word;
/// one without a word is refused.
pub proof fn law_own_command_is_run(
    config: &TunnelConfig,
    host: &str,
    port: u16,
    command: &str,
    host_mark: &str,
    port_mark: &str,
    port_text: &str,
    with_host: String,
    with_host_ref: &str,
    filled: String,
    filled_ref: &str,
    words: Vec<String>,
    r: Result<TunnelCommand, FrankClawError>,
)
    requires
        call_ensures(tunnel_command, (config, host, port), r),
        config is Custom,
        command@ == config->command@,
        host_mark@ == "{host}"@,
        port_mark@ == "{port}"@,
        port_text@ == decimal(port as nat),
        call_ensures(replace, (command, host_mark, host), with_host),
        with_host_ref@ == with_host@,
        call_ensures(replace, (with_host_ref, port_mark, port_text), filled),
        filled_ref@ == filled@,
        call_ensures(split_words, (filled_ref,), words),
    ensures
        r is Ok <==> words@.len() > 0,
        r is Ok ==> r->Ok_0.program@ == words@[0]@ && r->Ok_0.args@.len() + 1 == words@.len()
            && forall|i: int|
            0 <= i < r->Ok_0.args@.len() ==> (#[trigger] r->Ok_0.args@[i])@ == words@[i + 1]@,
        r is Err ==> r->Err_0 is ConfigValidation,
{
    assert(words.deep_view().len() == words@.len());
    if r is Ok {
        let c = r->Ok_0;
        assert(words_in(c) == words.deep_view());
        assert(words_in(c)[0] == c.program@);
        assert(words_in(c).len() == c.args@.len() + 1);
        assert(words.deep_view()[0] == words@[0]@);
        assert forall|i: int| 0 <= i < c.args@.len() implies (#[trigger] c.args@[i])@
            == words@[i + 1]@ by {
            assert(words_in(c)[i + 1] == c.args.deep_view()[i]);
            assert(words.deep_view()[i + 1] == words@[i + 1]@);
        }
    }
}

proof fn lemma_until_white(s: Seq<char>)
    ensures
        until_white(s).is_prefix_of(s),
        forall|i: int| 0 <= i < until_white(s).len() ==> !is_white(#[trigger] until_white(s)[i]),
        until_white(s).len() < s.len() ==> is_white(s[until_white(s).len() as int]),
    decreases s.len(),
{
    if s.len() > 0 && !is_white(s[0]) {
        let rest = s.drop_first();
        lemma_until_white(rest);
        let u = until_white(s);
        let v = until_white(rest);
        assert(u =~= seq![s[0]] + v);
        assert forall|i: int| 0 <= i < u.len() implies !is_white(#[trigger] u[i]) by {
            if i > 0 {
                assert(u[i] == v[i - 1]);
            }
        }
        assert(u.is_prefix_of(s)) by {
            assert forall|i: int| 0 <= i < u.len() implies u[i] == s[i] by {
                if i > 0 {
                    assert(u[i] == v[i - 1]);
                    assert(v[i - 1] == rest[i - 1]);
                }
            }
            assert(s.take(u.len() as int) =~= u);
        }
        if u.len() < s.len() {
            assert(s[u.len() as int] == rest[v.len() as int]);
        }
    }
}

proof fn lemma_found(s: Seq<char>, p: Seq<char>)
    requires
        find_text(s, p, 0) <= s.len(),
    ensures
        0 <= find_text(s, p, 0),
        p.is_prefix_of(s.skip(find_text(s, p, 0))),
        stands_in(p, s),
{
    lemma_find_text(s, p, 0);
    let at = find_text(s, p, 0);
    let tail = s.skip(at);
    assert(tail =~= p + tail.skip(p.len() as int));
    assert(s =~= (s.take(at) + p) + tail.skip(p.len() as int));
}

proof fn lemma_address(s: Seq<char>, from: Seq<char>, n: int, scheme: Seq<char>)
    requires
        0 <= n <= s.len(),
        from == s.skip(n),
        find_text(from, scheme, 0) <= from.len(),
        forall|i: int| 0 <= i < scheme.len() ==> !is_white(#[trigger] scheme[i]),
    ensures
        ({
            let url = until_white(from.skip(find_text(from, scheme, 0)));
            &&& stands_in(url, s)
            &&& scheme.is_prefix_of(url)
            &&& forall|i: int| 0 <= i < url.len() ==> !is_white(#[trigger] url[i])
        }),
{
    lemma_found(from, scheme);
    let at = find_text(from, scheme, 0);
    let rest = from.skip(at);
    lemma_until_white(rest);
    let url = until_white(rest);
    let back = rest.skip(url.len() as int);
    assert(rest =~= s.skip(n + at));
    assert(rest =~= url + back);
    assert(s =~= (s.take(n + at) + url) + back);
    assert(rest.take(scheme.len() as int) =~= scheme);
    if url.len() < scheme.len() {
        assert(scheme[url.len() as int] == rest[url.len() as int]);
    }
    assert(url.take(scheme.len() as int) =~= scheme);
}

/// An address that is found stands in the line, in which the marker stands too,
/// begins with its scheme and holds no white space.
pub proof fn law_address_is_found(line: &str, prefix: &str, r: Option<String>)
    requires
        call_ensures(extract_url_from_line, (line, prefix), r),
    ensures
        r is Some ==> stands_in(prefix@, line@),
        r is Some ==> stands_in(r->0@, line@),
        r is Some ==> "https://"@.is_prefix_of(r->0@) || "http://"@.is_prefix_of(r->0@),
        r is Some ==> forall|i: int| 0 <= i < r->0@.len() ==> !is_white(#[trigger] r->0@[i]),
{
    if r is Some {
        lemma_scheme();
        let s = line@;
        let at = find_text(s, prefix@, 0);
        lemma_found(s, prefix@);
        let tail = s.skip(at);
        let n: int = if "url="@.is_prefix_of(tail) {
            at + 4
        } else {
            at
        };
        let from = s.skip(n);
        assert("url="@.is_prefix_of(tail) ==> tail.len() >= 4 && from =~= tail.skip(4));
        assert(r.deep_view() == Some(r->0@));
        if has_text(from, "https://"@) {
            lemma_address(s, from, n, "https://"@);
        } else {
            lemma_address(s, from, n, "http://"@);
        }
    }
}

proof fn lemma_scheme()
    ensures
        "url="@.len() == 4,
        forall|i: int| 0 <= i < "https://"@.len() ==> !is_white(#[trigger] "https://"@[i]),
        forall|i: int| 0 <= i < "http://"@.len() ==> !is_white(#[trigger] "http://"@[i]),
{
    reveal_strlit("url=");
    reveal_strlit("https://");
    reveal_strlit("http://");
}

proof fn lemma_stands(s: Seq<char>, p: Seq<char>)
    requires
        stands_in(p, s),
    ensures
        find_text(s, p, 0) <= s.len(),
{
    let (before, after) = choose|before: Seq<char>, after: Seq<char>|
        s == #[trigger] ((before + p) + after);
    let k = before.len() as int;
    assert(s.skip(k) =~= p + after);
    assert(s.skip(k).take(p.len() as int) =~= p);
    lemma_find_text_before(s, p, 0, k);
}

proof fn lemma_begins(s: Seq<char>, p: Seq<char>)
    requires
        p.is_prefix_of(s),
    ensures
        has_text(s, p),
{
    assert(s.skip(0) =~= s);
}

proof fn lemma_marker()
    ensures
        "url=https://"@ == "url="@ + "https://"@,
        "url="@.len() == 4,
        "url="@[0] == 'u',
        "https://"@.len() == 8,
        "https://"@[0] == 'h',
{
    reveal_strlit("url=");
    reveal_strlit("https://");
    reveal_strlit("url=https://");
    assert("url=https://"@ =~= "url="@ + "https://"@);
}

/// A line in which the marker of Cloudflare or of ngrok stands has an address.
pub proof fn law_address_is_not_missed(line: &str, prefix: &str, r: Option<String>)
    requires
        call_ensures(extract_url_from_line, (line, prefix), r),
        prefix@ == "https://"@ || prefix@ == "url=https://"@,
        stands_in(prefix@, line@),
    ensures
        r is Some,
{
    let s = line@;
    let p = prefix@;
    let u = "url="@;
    let h = "https://"@;
    lemma_marker();
    lemma_stands(s, p);
    lemma_found(s, p);
    let tail = s.skip(find_text(s, p, 0));
    assert(tail =~= p + tail.skip(p.len() as int));
    if p == h {
        assert(tail[0] == 'h');
        assert(!u.is_prefix_of(tail));
        lemma_begins(tail, h);
    } else {
        assert(u.is_prefix_of(tail)) by {
            assert(tail =~= u + (h + tail.skip(p.len() as int)));
            assert(tail.take(4) =~= u);
        }
        let from = tail.skip(4);
        assert(from =~= h + tail.skip(p.len() as int));
        assert(from.take(8) =~= h);
        lemma_begins(from, h);
    }
    assert(r.deep_view() is Some);
}

/// The address that the output told is the address of the tunnel; without one
/// there is an error. An own command without a pattern has the gateway's own
/// address.
pub proof fn law_address_of_the_tunnel(
    output: TunnelOutput,
    prefix: &str,
    config: &TunnelConfig,
    host: &str,
    port: u16,
    marker: Option<&str>,
    local: String,
    r: Result<String, FrankClawError>,
)
    requires
        call_ensures(extract_url_from_stream, (output, prefix), r),
        call_ensures(url_marker, (config,), marker),
        call_ensures(local_url, (host, port), local),
    ensures
        r is Ok <==> output is Url,
        r is Ok ==> r->Ok_0@ == output->Url_0@,
        marker is None <==> config is Custom && config->url_pattern is None,
        config is Custom && marker is Some ==> marker->0@ == config->url_pattern->0@,
        config is Ngrok ==> marker->0@ == "url=https://"@,
        config is Cloudflare ==> marker->0@ == "https://"@,
        local@ == "http://"@ + host@ + ":"@ + decimal(port as nat),
{
}

/// A tunnel has its address until it is stopped.
pub proof fn law_stopped_tunnel(
    tunnel: &mut Tunnel,
    before: Option<String>,
    after: &Tunnel,
    r: Option<String>,
)
    requires
        call_ensures(Tunnel::public_url, (&*old(tunnel),), before),
        call_ensures(Tunnel::stop, (tunnel,), ()),
        *after == *final(tunnel),
        call_ensures(Tunnel::public_url, (after,), r),
    ensures
        before == old(tunnel).public_url,
        r is None,
        after.name == old(tunnel).name,
{
}

} // verus!
