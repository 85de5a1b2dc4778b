//! Reloading the configuration while the gateway runs.

use crate::config::{
    channel_index, lemma_channel_index, AgentDef, AgentsConfig, ChannelConfig, FrankClawConfig,
    MediaConfig, ModelsConfig, ProviderConfig, SandboxConfig, SecurityConfig,
};
use crate::gateway::protocol::{EventFrame, EventType};
use crate::json::{
    items_view, lemma_items, number, optional_text, same_value, JsonObject, JsonValue, JsonView,
};
use crate::types::{AgentId, ChannelId};
use vstd::prelude::*;

verus! {

/// The JSON form of a list of texts.
pub open spec fn texts_json(v: Seq<Seq<char>>) -> JsonView {
    JsonView::Array(Seq::new(v.len(), |i: int| JsonView::Text(v[i])))
}

fn texts_value(v: &Vec<String>) -> (r: JsonValue)
    ensures
        r@ == texts_json(v.deep_view()),
{
    let mut items: Vec<JsonValue> = Vec::new();
    let mut i: usize = 0;
    while i < v.len()
        invariant
            i <= v@.len(),
            items@.len() == i,
            forall|k: int| 0 <= k < i ==> (#[trigger] items@[k])@ == JsonView::Text(v@[k]@),
        decreases v@.len() - i,
    {
        items.push(JsonValue::text(v[i].as_str()));
        i = i + 1;
    }
    proof {
        lemma_items(items@);
        assert(items_view(items@) =~= Seq::new(
            v.deep_view().len(),
            |i: int| JsonView::Text(v.deep_view()[i]),
        ));
    }
    JsonValue::Array(items)
}

/// The JSON form of a sandbox.
pub open spec fn sandbox_json(s: SandboxConfig) -> JsonView {
    JsonView::Object(
        match s {
            SandboxConfig::Disabled => map!["mode"@ => JsonView::Text("none"@)],
            SandboxConfig::Docker { image, memory_limit_mb, timeout_secs } => map![
                "mode"@ => JsonView::Text("docker"@),
                "image"@ => JsonView::Text(image@),
                "memory_limit_mb"@ => number(memory_limit_mb as nat),
                "timeout_secs"@ => number(timeout_secs as nat),
            ],
            SandboxConfig::Podman { image, memory_limit_mb, timeout_secs } => map![
                "mode"@ => JsonView::Text("podman"@),
                "image"@ => JsonView::Text(image@),
                "memory_limit_mb"@ => number(memory_limit_mb as nat),
                "timeout_secs"@ => number(timeout_secs as nat),
            ],
            SandboxConfig::Bubblewrap { network, timeout_secs } => map![
                "mode"@ => JsonView::Text("bubblewrap"@),
                "network"@ => JsonView::Bool(network),
                "timeout_secs"@ => number(timeout_secs as nat),
            ],
        },
    )
}

fn sandbox_value(s: &SandboxConfig) -> (r: JsonValue)
    ensures
        r@ == sandbox_json(*s),
{
    let mut o = JsonObject::new();
    match s {
        SandboxConfig::Disabled => {
            o.put_text("mode", "none");
        },
        SandboxConfig::Docker { image, memory_limit_mb, timeout_secs } => {
            o.put_text("mode", "docker");
            o.put_text("image", image.as_str());
            o.put_unsigned("memory_limit_mb", *memory_limit_mb);
            o.put_unsigned("timeout_secs", *timeout_secs);
        },
        SandboxConfig::Podman { image, memory_limit_mb, timeout_secs } => {
            o.put_text("mode", "podman");
            o.put_text("image", image.as_str());
            o.put_unsigned("memory_limit_mb", *memory_limit_mb);
            o.put_unsigned("timeout_secs", *timeout_secs);
        },
        SandboxConfig::Bubblewrap { network, timeout_secs } => {
            o.put_text("mode", "bubblewrap");
            o.put_bool("network", *network);
            o.put_unsigned("timeout_secs", *timeout_secs);
        },
    }
    o.finish()
}

/// The JSON form of an agent.
pub open spec fn agent_json(a: AgentDef) -> JsonView {
    JsonView::Object(
        map![
            "name"@ => JsonView::Text(a.name@),
            "model"@ => optional_text(a.model.deep_view()),
            "system_prompt"@ => optional_text(a.system_prompt.deep_view()),
            "workspace"@ => optional_text(a.workspace.deep_view()),
            "sandbox"@ => sandbox_json(a.sandbox),
            "tools"@ => texts_json(a.tools.deep_view()),
            "skills"@ => texts_json(a.skills.deep_view()),
        ],
    )
}

fn agent_value(a: &AgentDef) -> (r: JsonValue)
    ensures
        r@ == agent_json(*a),
{
    let mut o = JsonObject::new();
    o.put_text("name", a.name.as_str());
    o.put("model", JsonValue::optional_text(&a.model));
    o.put("system_prompt", JsonValue::optional_text(&a.system_prompt));
    o.put("workspace", JsonValue::optional_text(&a.workspace));
    o.put("sandbox", sandbox_value(&a.sandbox));
    o.put("tools", texts_value(&a.tools));
    o.put("skills", texts_value(&a.skills));
    o.finish()
}

/// The JSON form of the agents, by name.
pub open spec fn agent_map(agents: Seq<(AgentId, AgentDef)>) -> Map<Seq<char>, JsonView>
    decreases agents.len(),
{
    if agents.len() == 0 {
        Map::empty()
    } else {
        agent_map(agents.drop_last()).insert(agents.last().0@, agent_json(agents.last().1))
    }
}

/// The JSON form of the agents' settings.
pub open spec fn agents_json(a: AgentsConfig) -> JsonView {
    JsonView::Object(
        map![
            "default_agent"@ => JsonView::Text(a.default_agent@),
            "agents"@ => JsonView::Object(agent_map(a.agents@)),
        ],
    )
}

fn agents_value(a: &AgentsConfig) -> (r: JsonValue)
    ensures
        r@ == agents_json(*a),
{
    let mut agents = JsonObject::new();
    let mut i: usize = 0;
    while i < a.agents.len()
        invariant
            i <= a.agents@.len(),
            agents@ == agent_map(a.agents@.take(i as int)),
        decreases a.agents@.len() - i,
    {
        proof {
            let front = a.agents@.take(i + 1);
            assert(front.last() == a.agents@[i as int]);
            assert(front.drop_last() =~= a.agents@.take(i as int));
        }
        agents.put(a.agents[i].0.as_str(), agent_value(&a.agents[i].1));
        i = i + 1;
    }
    assert(a.agents@.take(i as int) =~= a.agents@);
    let mut o = JsonObject::new();
    o.put_text("default_agent", a.default_agent.as_str());
    o.put("agents", agents.finish());
    o.finish()
}

/// The JSON form of a channel's settings: whether it is on, its accounts, and
/// whatever else it says.
pub open spec fn channel_json(c: ChannelConfig) -> JsonView {
    let base = map![
        "enabled"@ => JsonView::Bool(c.enabled),
        "accounts"@ => JsonView::Array(items_view(c.accounts@)),
    ];
    JsonView::Object(
        match c.extra@ {
            JsonView::Object(extra) => base.union_prefer_right(extra),
            _ => base,
        },
    )
}

fn channel_value(c: &ChannelConfig) -> (r: JsonValue)
    ensures
        r@ == channel_json(*c),
{
    let mut accounts: Vec<JsonValue> = Vec::new();
    let mut i: usize = 0;
    while i < c.accounts.len()
        invariant
            i <= c.accounts@.len(),
            accounts@.len() == i,
            forall|k: int| 0 <= k < i ==> (#[trigger] accounts@[k])@ == c.accounts@[k]@,
        decreases c.accounts@.len() - i,
    {
        accounts.push(c.accounts[i].clone());
        i = i + 1;
    }
    proof {
        lemma_items(accounts@);
        lemma_items(c.accounts@);
        assert(items_view(accounts@) =~= items_view(c.accounts@));
    }
    let mut o = JsonObject::new();
    o.put_bool("enabled", c.enabled);
    o.put("accounts", JsonValue::Array(accounts));
    let base = o.finish();
    match &c.extra {
        JsonValue::Object(_) => crate::gateway::methods::merge_metadata(base, &c.extra),
        _ => base,
    }
}

/// The JSON form of the channels, by name.
pub open spec fn channel_map(channels: Seq<(ChannelId, ChannelConfig)>) -> Map<
    Seq<char>,
    JsonView,
>
    decreases channels.len(),
{
    if channels.len() == 0 {
        Map::empty()
    } else {
        channel_map(channels.drop_last()).insert(
            channels.last().0@,
            channel_json(channels.last().1),
        )
    }
}

fn channels_value(channels: &Vec<(ChannelId, ChannelConfig)>) -> (r: JsonValue)
    ensures
        r@ == JsonView::Object(channel_map(channels@)),
{
    let mut o = JsonObject::new();
    let mut i: usize = 0;
    while i < channels.len()
        invariant
            i <= channels@.len(),
            o@ == channel_map(channels@.take(i as int)),
        decreases channels@.len() - i,
    {
        proof {
            let front = channels@.take(i + 1);
            assert(front.last() == channels@[i as int]);
            assert(front.drop_last() =~= channels@.take(i as int));
        }
        o.put(channels[i].0.as_str(), channel_value(&channels[i].1));
        i = i + 1;
    }
    assert(channels@.take(i as int) =~= channels@);
    o.finish()
}

/// The JSON form of a model provider.
pub open spec fn provider_json(p: ProviderConfig) -> JsonView {
    JsonView::Object(
        map![
            "id"@ => JsonView::Text(p.id@),
            "api"@ => JsonView::Text(p.api@),
            "base_url"@ => optional_text(p.base_url.deep_view()),
            "api_key_ref"@ => optional_text(p.api_key_ref.deep_view()),
            "models"@ => texts_json(p.models.deep_view()),
            "cooldown_secs"@ => number(p.cooldown_secs as nat),
        ],
    )
}

fn provider_value(p: &ProviderConfig) -> (r: JsonValue)
    ensures
        r@ == provider_json(*p),
{
    let mut o = JsonObject::new();
    o.put_text("id", p.id.as_str());
    o.put_text("api", p.api.as_str());
    o.put("base_url", JsonValue::optional_text(&p.base_url));
    o.put("api_key_ref", JsonValue::optional_text(&p.api_key_ref));
    o.put("models", texts_value(&p.models));
    o.put_unsigned("cooldown_secs", p.cooldown_secs);
    o.finish()
}

/// The JSON form of the models' settings.
pub open spec fn models_json(m: ModelsConfig) -> JsonView {
    JsonView::Object(
        map![
            "providers"@ => JsonView::Array(
                Seq::new(m.providers@.len(), |i: int| provider_json(m.providers@[i])),
            ),
            "default_model"@ => optional_text(m.default_model.deep_view()),
        ],
    )
}

fn models_value(m: &ModelsConfig) -> (r: JsonValue)
    ensures
        r@ == models_json(*m),
{
    let mut providers: Vec<JsonValue> = Vec::new();
    let mut i: usize = 0;
    while i < m.providers.len()
        invariant
            i <= m.providers@.len(),
            providers@.len() == i,
            forall|k: int|
                0 <= k < i ==> (#[trigger] providers@[k])@ == provider_json(m.providers@[k]),
        decreases m.providers@.len() - i,
    {
        providers.push(provider_value(&m.providers[i]));
        i = i + 1;
    }
    proof {
        lemma_items(providers@);
        assert(items_view(providers@) =~= Seq::new(
            m.providers@.len(),
            |i: int| provider_json(m.providers@[i]),
        ));
    }
    let mut o = JsonObject::new();
    o.put("providers", JsonValue::Array(providers));
    o.put("default_model", JsonValue::optional_text(&m.default_model));
    o.finish()
}

/// The JSON form of the media settings.
pub open spec fn media_json(m: MediaConfig) -> JsonView {
    JsonView::Object(
        map![
            "max_file_size_bytes"@ => number(m.max_file_size_bytes as nat),
            "ttl_hours"@ => number(m.ttl_hours as nat),
            "storage_path"@ => optional_text(m.storage_path.deep_view()),
        ],
    )
}

fn media_value(m: &MediaConfig) -> (r: JsonValue)
    ensures
        r@ == media_json(*m),
{
    let mut o = JsonObject::new();
    o.put_unsigned("max_file_size_bytes", m.max_file_size_bytes);
    o.put_unsigned("ttl_hours", m.ttl_hours);
    o.put("storage_path", JsonValue::optional_text(&m.storage_path));
    o.finish()
}

/// The JSON form of the security settings.
pub open spec fn security_json(s: SecurityConfig) -> JsonView {
    JsonView::Object(
        map![
            "encrypt_sessions"@ => JsonView::Bool(s.encrypt_sessions),
            "encrypt_media"@ => JsonView::Bool(s.encrypt_media),
            "require_auth_for_network"@ => JsonView::Bool(s.require_auth_for_network),
            "ssrf_protection"@ => JsonView::Bool(s.ssrf_protection),
            "max_webhook_body_bytes"@ => number(s.max_webhook_body_bytes as nat),
        ],
    )
}

fn security_value(s: &SecurityConfig) -> (r: JsonValue)
    ensures
        r@ == security_json(*s),
{
    let mut o = JsonObject::new();
    o.put_bool("encrypt_sessions", s.encrypt_sessions);
    o.put_bool("encrypt_media", s.encrypt_media);
    o.put_bool("require_auth_for_network", s.require_auth_for_network);
    o.put_bool("ssrf_protection", s.ssrf_protection);
    o.put_unsigned("max_webhook_body_bytes", s.max_webhook_body_bytes as u64);
    o.finish()
}

/// The part of a configuration that only takes effect after a restart.
pub open spec fn fingerprint(config: FrankClawConfig) -> JsonView {
    JsonView::Object(
        map![
            "agents"@ => agents_json(config.agents),
            "channels"@ => JsonView::Object(channel_map(config.channels@)),
            "models"@ => models_json(config.models),
            "media"@ => media_json(config.media),
            "security"@ => security_json(config.security),
            "session_scoping"@ => config.session.scoping@,
            "session_reset"@ => config.session.reset@,
        ],
    )
}

/// The part of a configuration that only takes effect after a restart.
pub fn config_restart_fingerprint(config: &FrankClawConfig) -> (r: JsonValue)
    ensures
        r@ == fingerprint(*config),
{
    let mut o = JsonObject::new();
    o.put("agents", agents_value(&config.agents));
    o.put("channels", channels_value(&config.channels));
    o.put("models", models_value(&config.models));
    o.put("media", media_value(&config.media));
    o.put("security", security_value(&config.security));
    o.put("session_scoping", config.session.scoping.clone());
    o.put("session_reset", config.session.reset.clone());
    o.finish()
}

/// True when two configurations differ in what only takes effect after a
/// restart.
pub fn restart_sensitive_config_changed(current: &FrankClawConfig, next: &FrankClawConfig) -> (r:
    bool)
    ensures
        r == (fingerprint(*current) != fingerprint(*next)),
{
    !same_value(&config_restart_fingerprint(current), &config_restart_fingerprint(next))
}

/// A channel's settings beyond its accounts, after a reload: those of the new
/// configuration, where it has the channel.
pub open spec fn reloaded_extra(
    current: (ChannelId, ChannelConfig),
    next: Seq<(ChannelId, ChannelConfig)>,
) -> JsonView {
    let i = channel_index(next, current.0@);
    if i < next.len() {
        next[i].1.extra@
    } else {
        current.1.extra@
    }
}

/// True when `r` is the channel `c` after a reload.
pub open spec fn channel_reloaded(
    c: (ChannelId, ChannelConfig),
    next: Seq<(ChannelId, ChannelConfig)>,
    r: (ChannelId, ChannelConfig),
) -> bool {
    &&& r.0 == c.0
    &&& r.1.enabled == c.1.enabled
    &&& r.1.accounts == c.1.accounts
    &&& r.1.extra@ == reloaded_extra(c, next)
}

/// True when `r` is the configuration after a reload: what takes effect at
/// once comes from the new one, and all the rest stays.
pub open spec fn config_reloaded(
    current: FrankClawConfig,
    next: FrankClawConfig,
    r: FrankClawConfig,
) -> bool {
    &&& r.gateway == next.gateway
    &&& r.hooks == next.hooks
    &&& r.logging == next.logging
    &&& r.session.pruning == next.session.pruning
    &&& r.session.scoping == current.session.scoping
    &&& r.session.reset == current.session.reset
    &&& r.agents == current.agents
    &&& r.models == current.models
    &&& r.cron == current.cron
    &&& r.media == current.media
    &&& r.security == current.security
    &&& r.memory == current.memory
    &&& r.understanding == current.understanding
    &&& r.browser_profiles == current.browser_profiles
    &&& r.channels@.len() == current.channels@.len()
    &&& forall|i: int|
        0 <= i < r.channels@.len() ==> channel_reloaded(
            current.channels@[i],
            next.channels@,
            #[trigger] r.channels@[i],
        )
}

/// The configuration after a reload. What takes effect at once comes from
/// `next`: the gateway, hooks, logging and pruning settings, and what channels
/// say beyond their accounts. All the rest stays until a restart.
pub fn merge_reloadable_config(current: FrankClawConfig, next: FrankClawConfig) -> (r:
    FrankClawConfig)
    requires
        current.wf(),
    ensures
        r.wf(),
        config_reloaded(current, next, r),
{
    let mut merged = current;
    let mut i: usize = 0;
    while i < merged.channels.len()
        invariant
            i <= merged.channels@.len(),
            merged == (FrankClawConfig { channels: merged.channels, ..current }),
            merged.channels@.len() == current.channels@.len(),
            forall|k: int|
                0 <= k < i ==> channel_reloaded(
                    current.channels@[k],
                    next.channels@,
                    #[trigger] merged.channels@[k],
                ),
            forall|k: int|
                i <= k < merged.channels@.len() ==> #[trigger] merged.channels@[k]
                    == current.channels@[k],
        decreases merged.channels@.len() - i,
    {
        proof {
            lemma_channel_index(next.channels@, merged.channels@[i as int].0@);
        }
        let ghost before = merged.channels@;
        let found = next.channel(&merged.channels[i].0);
        if let Some(next_channel) = found {
            let mut entry = merged.channels.remove(i);
            entry.1.extra = next_channel.extra.clone();
            merged.channels.insert(i, entry);
            assert(merged.channels@ =~= before.update(i as int, entry));
        }
        i = i + 1;
    }
    merged.gateway = next.gateway;
    merged.hooks = next.hooks;
    merged.logging = next.logging;
    merged.session.pruning = next.session.pruning;
    proof {
        assert forall|a: int, b: int| 0 <= a < b < merged.channels@.len() implies (
        #[trigger] merged.channels@[a]).0@ != (#[trigger] merged.channels@[b]).0@ by {
            assert(current.channels@[a].0@ != current.channels@[b].0@);
        }
    }
    merged
}

/// The event that tells that the configuration was reloaded.
pub fn config_changed(path: &str, restart_required: bool) -> (r: EventFrame)
    ensures
        r.event == EventType::ConfigChanged,
        r.payload@ == JsonView::Object(
            map![
                "path"@ => JsonView::Text(path@),
                "restart_required"@ => JsonView::Bool(restart_required),
            ],
        ),
{
    let mut o = JsonObject::new();
    o.put_text("path", path);
    o.put_bool("restart_required", restart_required);
    EventFrame { event: EventType::ConfigChanged, payload: o.finish() }
}

/// Takes a new configuration that was found valid: the configuration to run
/// on, and the event that tells of it.
pub fn reload(current: FrankClawConfig, next: FrankClawConfig, path: &str) -> (r: (
    FrankClawConfig,
    EventFrame,
))
    requires
        current.wf(),
    ensures
        r.0.wf(),
        config_reloaded(current, next, r.0),
        r.1.event == EventType::ConfigChanged,
        r.1.payload@ == JsonView::Object(
            map![
                "path"@ => JsonView::Text(path@),
                "restart_required"@ => JsonView::Bool(fingerprint(current) != fingerprint(next)),
            ],
        ),
{
    let restart_required = restart_sensitive_config_changed(&current, &next);
    let merged = merge_reloadable_config(current, next);
    (merged, config_changed(path, restart_required))
}

/// After a reload, the agents, the models, the media settings and the security
/// settings, which need a restart, are as before.
pub proof fn law_reload_keeps_restart_settings(
    current: FrankClawConfig,
    next: FrankClawConfig,
    r: FrankClawConfig,
)
    requires
        config_reloaded(current, next, r),
    ensures
        agents_json(r.agents) == agents_json(current.agents),
        models_json(r.models) == models_json(current.models),
        media_json(r.media) == media_json(current.media),
        security_json(r.security) == security_json(current.security),
{
}

} // verus!
