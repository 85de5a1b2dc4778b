//! Reloading a configuration: what takes effect at once, what waits for a
//! restart, and when a restart is called for.

use crate::config::{
    channel_index, lemma_channel_index, ChannelConfig, FrankClawConfig, ProviderConfig,
};
use crate::gateway::protocol::{EventFrame, EventType};
use crate::gateway::reload::{
    channel_json, channel_map, provider_json, reload, restart_sensitive_config_changed,
};
use crate::laws::terms::{flag, inner, said};
use crate::types::ChannelId;
use vstd::prelude::*;

verus! {

/// After a reload the gateway, the webhooks, the logging and the pruning are
/// those of the new configuration; the agents, the models, the jobs, the media
/// and the security settings stay as they were.
pub proof fn law_what_is_reloaded(
    current: FrankClawConfig,
    next: FrankClawConfig,
    path: &str,
    r: (FrankClawConfig, EventFrame),
)
    requires
        call_ensures(reload, (current, next, path), r),
    ensures
        r.0.gateway == next.gateway,
        r.0.hooks == next.hooks,
        r.0.logging == next.logging,
        r.0.session.pruning == next.session.pruning,
        r.0.session.scoping == current.session.scoping,
        r.0.session.reset == current.session.reset,
        r.0.agents == current.agents,
        r.0.models == current.models,
        r.0.cron == current.cron,
        r.0.media == current.media,
        r.0.security == current.security,
{
}

/// After a reload there are the same channels, each on or off and with its
/// accounts as before; what else it says comes from the new configuration where
/// that has the channel.
pub proof fn law_reloaded_channels(
    current: FrankClawConfig,
    next: FrankClawConfig,
    path: &str,
    i: int,
    at: int,
    r: (FrankClawConfig, EventFrame),
)
    requires
        call_ensures(reload, (current, next, path), r),
        0 <= i < current.channels@.len(),
    ensures
        r.0.channels@.len() == current.channels@.len(),
        r.0.channels@[i].0 == current.channels@[i].0,
        r.0.channels@[i].1.enabled == current.channels@[i].1.enabled,
        r.0.channels@[i].1.accounts == current.channels@[i].1.accounts,
        0 <= at < next.channels@.len() && next.channels@[at].0@ == current.channels@[i].0@ && (
        forall|k: int|
            0 <= k < at ==> (#[trigger] next.channels@[k]).0@ != current.channels@[i].0@)
            ==> r.0.channels@[i].1.extra@ == next.channels@[at].1.extra@,
        (forall|k: int|
            0 <= k < next.channels@.len() ==> (#[trigger] next.channels@[k]).0@
                != current.channels@[i].0@) ==> r.0.channels@[i].1.extra@
            == current.channels@[i].1.extra@,
{
    let id = current.channels@[i].0@;
    lemma_channel_index(next.channels@, id);
    let found = channel_index(next.channels@, id);
    assert(r.0.channels@[i].0 == current.channels@[i].0);
    if 0 <= at < next.channels@.len() && next.channels@[at].0@ == id && (forall|k: int|
        0 <= k < at ==> (#[trigger] next.channels@[k]).0@ != id) {
        if found < at {
            assert(next.channels@[found].0@ != id);
        }
        if at < found {
            assert(next.channels@[at].0@ != id);
        }
    }
}

/// Everybody is told which file was read, and whether a restart is called for.
pub proof fn law_reload_is_told(
    current: FrankClawConfig,
    next: FrankClawConfig,
    path: &str,
    restart: bool,
    r: (FrankClawConfig, EventFrame),
)
    requires
        call_ensures(reload, (current, next, path), r),
        call_ensures(restart_sensitive_config_changed, (&current, &next), restart),
    ensures
        r.1.event == EventType::ConfigChanged,
        said(r.1.payload@, "path"@) == Some(path@),
        flag(r.1.payload@, "restart_required"@) == Some(restart),
{
    reveal_strlit("path");
    reveal_strlit("restart_required");
    assert("path"@.len() == 4);
    assert("restart_required"@.len() == 16);
}

/// No restart is called for where agents, channels, models, media, security and
/// sessions are the same; one is where the default agent, the default model, a
/// security setting or the scoping of sessions differs.
pub proof fn law_when_to_restart(current: &FrankClawConfig, next: &FrankClawConfig, r: bool)
    requires
        call_ensures(restart_sensitive_config_changed, (current, next), r),
    ensures
        current.agents == next.agents && current.channels@ == next.channels@ && current.models
            == next.models && current.media == next.media && current.security == next.security
            && current.session.scoping@ == next.session.scoping@ && current.session.reset@
            == next.session.reset@ ==> !r,
        current.session.scoping@ != next.session.scoping@ ==> r,
        current.session.reset@ != next.session.reset@ ==> r,
        current.security.ssrf_protection != next.security.ssrf_protection ==> r,
        current.security.encrypt_sessions != next.security.encrypt_sessions ==> r,
        current.security.max_webhook_body_bytes != next.security.max_webhook_body_bytes ==> r,
        current.agents.default_agent@ != next.agents.default_agent@ ==> r,
        current.models.default_model.deep_view() != next.models.default_model.deep_view() ==> r,
{
    reveal_strlit("agents");
    reveal_strlit("channels");
    reveal_strlit("models");
    reveal_strlit("media");
    reveal_strlit("security");
    reveal_strlit("session_scoping");
    reveal_strlit("session_reset");
    assert("agents"@.len() == 6 && "agents"@[0] == 'a');
    assert("channels"@.len() == 8 && "channels"@[0] == 'c');
    assert("models"@.len() == 6 && "models"@[0] == 'm');
    assert("media"@.len() == 5);
    assert("security"@.len() == 8 && "security"@[0] == 's');
    assert("session_scoping"@.len() == 15);
    assert("session_reset"@.len() == 13);
    let a = crate::gateway::reload::fingerprint(*current);
    let b = crate::gateway::reload::fingerprint(*next);
    if a == b {
        lemma_same_fingerprint(*current, *next);
    }
}

proof fn lemma_same_fingerprint(current: FrankClawConfig, next: FrankClawConfig)
    requires
        crate::gateway::reload::fingerprint(current) == crate::gateway::reload::fingerprint(next),
        "agents"@.len() == 6 && "agents"@[0] == 'a',
        "channels"@.len() == 8 && "channels"@[0] == 'c',
        "models"@.len() == 6 && "models"@[0] == 'm',
        "media"@.len() == 5,
        "security"@.len() == 8 && "security"@[0] == 's',
        "session_scoping"@.len() == 15,
        "session_reset"@.len() == 13,
    ensures
        current.session.scoping@ == next.session.scoping@,
        current.session.reset@ == next.session.reset@,
        current.security.ssrf_protection == next.security.ssrf_protection,
        current.security.encrypt_sessions == next.security.encrypt_sessions,
        current.security.max_webhook_body_bytes == next.security.max_webhook_body_bytes,
        current.agents.default_agent@ == next.agents.default_agent@,
        current.models.default_model.deep_view() == next.models.default_model.deep_view(),
{
    let a = crate::gateway::reload::fingerprint(current)->Object_0;
    let b = crate::gateway::reload::fingerprint(next)->Object_0;
    assert(a["session_scoping"@] == current.session.scoping@);
    assert(b["session_scoping"@] == next.session.scoping@);
    assert(a["session_reset"@] == current.session.reset@);
    assert(b["session_reset"@] == next.session.reset@);
    let sa = crate::gateway::reload::security_json(current.security);
    let sb = crate::gateway::reload::security_json(next.security);
    assert(a["security"@] == sa && b["security"@] == sb);
    reveal_strlit("encrypt_sessions");
    reveal_strlit("encrypt_media");
    reveal_strlit("require_auth_for_network");
    reveal_strlit("ssrf_protection");
    reveal_strlit("max_webhook_body_bytes");
    assert("encrypt_sessions"@.len() == 16);
    assert("encrypt_media"@.len() == 13);
    assert("require_auth_for_network"@.len() == 24);
    assert("ssrf_protection"@.len() == 15);
    assert("max_webhook_body_bytes"@.len() == 22);
    assert(sa->Object_0["ssrf_protection"@] == sb->Object_0["ssrf_protection"@]);
    assert(sa->Object_0["encrypt_sessions"@] == sb->Object_0["encrypt_sessions"@]);
    assert(sa->Object_0["max_webhook_body_bytes"@] == sb->Object_0["max_webhook_body_bytes"@]);
    let ga = crate::gateway::reload::agents_json(current.agents);
    let gb = crate::gateway::reload::agents_json(next.agents);
    assert(a["agents"@] == ga && b["agents"@] == gb);
    reveal_strlit("default_agent");
    assert("default_agent"@.len() == 13);
    assert(ga->Object_0["default_agent"@] == gb->Object_0["default_agent"@]);
    let ma = crate::gateway::reload::models_json(current.models);
    let mb = crate::gateway::reload::models_json(next.models);
    assert(a["models"@] == ma && b["models"@] == mb);
    reveal_strlit("providers");
    reveal_strlit("default_model");
    assert("providers"@.len() == 9);
    assert("default_model"@.len() == 13);
    assert(ma->Object_0["default_model"@] == mb->Object_0["default_model"@]);
}

proof fn lemma_channel_map(channels: Seq<(ChannelId, ChannelConfig)>, id: Seq<char>)
    ensures
        channel_map(channels).dom().contains(id) <==> exists|k: int|
            0 <= k < channels.len() && (#[trigger] channels[k]).0@ == id,
    decreases channels.len(),
{
    if channels.len() > 0 {
        let front = channels.drop_last();
        lemma_channel_map(front, id);
        if exists|k: int| 0 <= k < front.len() && (#[trigger] front[k]).0@ == id {
            let k = choose|k: int| 0 <= k < front.len() && (#[trigger] front[k]).0@ == id;
            assert(channels[k].0@ == id);
        }
        if exists|k: int| 0 <= k < channels.len() && (#[trigger] channels[k]).0@ == id {
            let k = choose|k: int| 0 <= k < channels.len() && (#[trigger] channels[k]).0@ == id;
            if k < front.len() {
                assert(front[k].0@ == id);
            }
        }
        if channels.last().0@ == id {
            assert(channels[channels.len() - 1].0@ == id);
        }
    }
}

proof fn lemma_channel_value(channels: Seq<(ChannelId, ChannelConfig)>, k: int)
    requires
        0 <= k < channels.len(),
        forall|i: int, j: int|
            0 <= i < j < channels.len() ==> (#[trigger] channels[i]).0@ != (
            #[trigger] channels[j]).0@,
    ensures
        channel_map(channels)[channels[k].0@] == channel_json(channels[k].1),
        channel_map(channels).dom().contains(channels[k].0@),
    decreases channels.len(),
{
    let front = channels.drop_last();
    if k < channels.len() - 1 {
        assert forall|i: int, j: int| 0 <= i < j < front.len() implies (#[trigger] front[i]).0@ != (
        #[trigger] front[j]).0@ by {
            assert(channels[i].0@ != channels[j].0@);
        }
        lemma_channel_value(front, k);
        assert(channels[k].0@ != channels[channels.len() - 1].0@);
    }
}

/// A restart is called for where a channel comes, goes, or is turned on or off,
/// where a provider changes, and where files are kept otherwise.
pub proof fn law_what_calls_for_a_restart(
    current: &FrankClawConfig,
    next: &FrankClawConfig,
    i: int,
    j: int,
    r: bool,
)
    requires
        call_ensures(restart_sensitive_config_changed, (current, next), r),
        current.wf(),
        next.wf(),
    ensures
        0 <= i < current.channels@.len() && (forall|k: int|
            0 <= k < next.channels@.len() ==> (#[trigger] next.channels@[k]).0@
                != current.channels@[i].0@) ==> r,
        0 <= j < next.channels@.len() && (forall|k: int|
            0 <= k < current.channels@.len() ==> (#[trigger] current.channels@[k]).0@
                != next.channels@[j].0@) ==> r,
        0 <= i < current.channels@.len() && 0 <= j < next.channels@.len() && next.channels@[j].0@
            == current.channels@[i].0@ && next.channels@[j].1.enabled
            != current.channels@[i].1.enabled && inner(
            current.channels@[i].1.extra@,
            "enabled"@,
        ) is None && inner(next.channels@[j].1.extra@, "enabled"@) is None ==> r,
        current.models.providers@.len() != next.models.providers@.len() ==> r,
        0 <= i < current.models.providers@.len() && i < next.models.providers@.len() && (
        current.models.providers@[i].id@ != next.models.providers@[i].id@
            || current.models.providers@[i].api@ != next.models.providers@[i].api@
            || current.models.providers@[i].base_url.deep_view()
            != next.models.providers@[i].base_url.deep_view()
            || current.models.providers@[i].api_key_ref.deep_view()
            != next.models.providers@[i].api_key_ref.deep_view()) ==> r,
        current.media.max_file_size_bytes != next.media.max_file_size_bytes ==> r,
        current.media.ttl_hours != next.media.ttl_hours ==> r,
        current.media.storage_path.deep_view() != next.media.storage_path.deep_view() ==> r,
{
    if !r {
        lemma_same_parts(*current, *next);
        let ca = channel_map(current.channels@);
        let cb = channel_map(next.channels@);
        assert(ca == cb);
        if 0 <= i < current.channels@.len() {
            lemma_channel_value(current.channels@, i);
            lemma_channel_map(next.channels@, current.channels@[i].0@);
        }
        if 0 <= j < next.channels@.len() {
            lemma_channel_value(next.channels@, j);
            lemma_channel_map(current.channels@, next.channels@[j].0@);
        }
        if 0 <= i < current.channels@.len() && 0 <= j < next.channels@.len()
            && next.channels@[j].0@ == current.channels@[i].0@ {
            let a = channel_json(current.channels@[i].1);
            let b = channel_json(next.channels@[j].1);
            assert(a == b);
            reveal_strlit("enabled");
            reveal_strlit("accounts");
            assert("enabled"@.len() == 7);
            assert("accounts"@.len() == 8);
            assert(a->Object_0["enabled"@] == b->Object_0["enabled"@]);
        }
        let pa = current.models.providers@;
        let pb = next.models.providers@;
        let la = Seq::new(pa.len(), |k: int| provider_json(pa[k]));
        let lb = Seq::new(pb.len(), |k: int| provider_json(pb[k]));
        assert(la == lb);
        assert(la.len() == lb.len());
        if 0 <= i < pa.len() && i < pb.len() {
            assert(la[i] == lb[i]);
            lemma_provider(pa[i], pb[i]);
        }
    }
}

proof fn lemma_provider(p: ProviderConfig, q: ProviderConfig)
    requires
        provider_json(p) == provider_json(q),
    ensures
        p.id@ == q.id@,
        p.api@ == q.api@,
        p.base_url.deep_view() == q.base_url.deep_view(),
        p.api_key_ref.deep_view() == q.api_key_ref.deep_view(),
{
    reveal_strlit("id");
    reveal_strlit("api");
    reveal_strlit("base_url");
    reveal_strlit("api_key_ref");
    reveal_strlit("models");
    reveal_strlit("cooldown_secs");
    assert("id"@.len() == 2);
    assert("api"@.len() == 3);
    assert("base_url"@.len() == 8);
    assert("api_key_ref"@.len() == 11);
    assert("models"@.len() == 6);
    assert("cooldown_secs"@.len() == 13);
    let a = provider_json(p)->Object_0;
    let b = provider_json(q)->Object_0;
    assert(a["id"@] == b["id"@]);
    assert(a["api"@] == b["api"@]);
    assert(a["base_url"@] == b["base_url"@]);
    assert(a["api_key_ref"@] == b["api_key_ref"@]);
}

proof fn lemma_same_parts(current: FrankClawConfig, next: FrankClawConfig)
    requires
        crate::gateway::reload::fingerprint(current) == crate::gateway::reload::fingerprint(next),
    ensures
        channel_map(current.channels@) == channel_map(next.channels@),
        Seq::new(
            current.models.providers@.len(),
            |k: int| provider_json(current.models.providers@[k]),
        ) == Seq::new(
            next.models.providers@.len(),
            |k: int| provider_json(next.models.providers@[k]),
        ),
        current.media.max_file_size_bytes == next.media.max_file_size_bytes,
        current.media.ttl_hours == next.media.ttl_hours,
        current.media.storage_path.deep_view() == next.media.storage_path.deep_view(),
{
    reveal_strlit("agents");
    reveal_strlit("channels");
    reveal_strlit("models");
    reveal_strlit("media");
    reveal_strlit("security");
    reveal_strlit("session_scoping");
    reveal_strlit("session_reset");
    assert("agents"@.len() == 6 && "agents"@[0] == 'a');
    assert("channels"@.len() == 8 && "channels"@[0] == 'c');
    assert("models"@.len() == 6 && "models"@[0] == 'm');
    assert("media"@.len() == 5);
    assert("security"@.len() == 8 && "security"@[0] == 's');
    assert("session_scoping"@.len() == 15);
    assert("session_reset"@.len() == 13);
    let a = crate::gateway::reload::fingerprint(current)->Object_0;
    let b = crate::gateway::reload::fingerprint(next)->Object_0;
    assert(a["channels"@] == b["channels"@]);
    assert(a["models"@] == b["models"@]);
    assert(a["media"@] == b["media"@]);
    let ma = crate::gateway::reload::media_json(current.media)->Object_0;
    let mb = crate::gateway::reload::media_json(next.media)->Object_0;
    reveal_strlit("max_file_size_bytes");
    reveal_strlit("ttl_hours");
    reveal_strlit("storage_path");
    assert("max_file_size_bytes"@.len() == 19);
    assert("ttl_hours"@.len() == 9);
    assert("storage_path"@.len() == 12);
    assert(ma["max_file_size_bytes"@] == mb["max_file_size_bytes"@]);
    assert(ma["ttl_hours"@] == mb["ttl_hours"@]);
    assert(ma["storage_path"@] == mb["storage_path"@]);
    let na = crate::gateway::reload::models_json(current.models)->Object_0;
    let nb = crate::gateway::reload::models_json(next.models)->Object_0;
    reveal_strlit("providers");
    reveal_strlit("default_model");
    assert("providers"@.len() == 9);
    assert("default_model"@.len() == 13);
    assert(na["providers"@] == nb["providers"@]);
}

} // verus!
