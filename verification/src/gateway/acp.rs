//! The agent communication protocol: JSON-RPC requests of other agents, and
//! the sessions that they hold.

use crate::error::FrankClawError;
use crate::gateway::chat::{ChatRequest, ChatResponse, StreamDelta};
use crate::json::{clone_number, JsonObject, JsonValue, JsonView};
use crate::media::{hyphenated, MediaId};
use crate::text::{byte_len, bytes_len, cat2, cat3, str_eq};
use crate::types::SessionKey;
use dashmap::DashMap;
use vstd::prelude::*;

verus! {

/// `dashmap::DashMap`, a concurrent hash map.
#[verifier::external_type_specification]
#[verifier::external_body]
#[verifier::reject_recursive_types(K)]
#[verifier::reject_recursive_types(V)]
#[verifier::reject_recursive_types(S)]
pub struct ExDashMap<K, V, S>(dashmap::DashMap<K, V, S>);

/// A day in nanoseconds.
pub const DAY_NANOS: u128 = 86_400_000_000_000;

/// Limits of the server.
#[derive(Clone, Copy, Debug, PartialEq, Eq, Structural)]
pub struct AcpServerOptions {
    /// Maximum concurrent sessions.
    pub max_sessions: usize,
    /// Time after which an unused session is dropped, in nanoseconds.
    pub session_ttl: u128,
    /// Sessions that may be created within ten seconds.
    pub rate_limit_per_window: u32,
}

impl Default for AcpServerOptions {
    fn default() -> (r: AcpServerOptions)
        ensures
            r == (AcpServerOptions {
                max_sessions: 5000,
                session_ttl: DAY_NANOS,
                rate_limit_per_window: 120,
            }),
    {
        AcpServerOptions { max_sessions: 5000, session_ttl: DAY_NANOS, rate_limit_per_window: 120 }
    }
}

/// A session of another agent. Times are nanoseconds on one monotonic clock.
#[derive(Debug)]
pub struct AcpSession {
    pub session_id: String,
    pub session_key: SessionKey,
    pub created_at: u64,
    pub last_touched: u64,
}

/// What a session is.
pub struct AcpSessionView {
    pub session_id: Seq<char>,
    pub session_key: Seq<char>,
    pub created_at: u64,
    pub last_touched: u64,
}

impl View for AcpSession {
    type V = AcpSessionView;

    open spec fn view(&self) -> AcpSessionView {
        AcpSessionView {
            session_id: self.session_id@,
            session_key: self.session_key@,
            created_at: self.created_at,
            last_touched: self.last_touched,
        }
    }
}

impl Clone for AcpSession {
    fn clone(&self) -> (r: AcpSession)
        ensures
            r@ == self@,
    {
        AcpSession {
            session_id: self.session_id.clone(),
            session_key: self.session_key.clone(),
            created_at: self.created_at,
            last_touched: self.last_touched,
        }
    }
}

/// The sessions that a `dashmap::DashMap` holds, by identifier.
pub uninterp spec fn sessions_in(sessions: DashMap<String, AcpSession>) -> Map<
    Seq<char>,
    AcpSessionView,
>;

/// `DashMap::new`: a map without entries.
#[verifier::external_body]
fn no_sessions() -> (r: DashMap<String, AcpSession>)
    ensures
        sessions_in(r).dom() == Set::<Seq<char>>::empty(),
{
    DashMap::new()
}

/// `DashMap::insert`: sets the value under a key.
#[verifier::external_body]
fn put_session(sessions: &mut DashMap<String, AcpSession>, id: String, session: AcpSession)
    ensures
        sessions_in(*final(sessions)) == sessions_in(*old(sessions)).insert(id@, session@),
{
    sessions.insert(id, session);
}

/// `DashMap::remove`: takes the entry under a key out of the map.
#[verifier::external_body]
fn drop_session(sessions: &mut DashMap<String, AcpSession>, id: &str)
    ensures
        sessions_in(*final(sessions)) == sessions_in(*old(sessions)).remove(id@),
{
    sessions.remove(id);
}

/// `DashMap::get`, with a copy of the value: the value under a key.
#[verifier::external_body]
fn find_session(sessions: &DashMap<String, AcpSession>, id: &str) -> (r: Option<AcpSession>)
    ensures
        r is Some == sessions_in(*sessions).dom().contains(id@),
        r is Some ==> r->0@ == sessions_in(*sessions)[id@],
{
    sessions.get(id).map(|entry| entry.value().clone())
}

/// True of a set with `n` elements.
pub open spec fn has_size(keys: Set<Seq<char>>, n: nat) -> bool {
    keys.finite() && keys.len() == n
}

/// `DashMap::len`: the number of entries.
#[verifier::external_body]
fn count_sessions(sessions: &DashMap<String, AcpSession>) -> (r: usize)
    ensures
        has_size(sessions_in(*sessions).dom(), r as nat),
{
    sessions.len()
}

/// `DashMap::retain`: drops the sessions that are not fresh at `now`.
#[verifier::external_body]
fn retain_fresh(sessions: &mut DashMap<String, AcpSession>, now: u64, ttl: u128)
    ensures
        sessions_in(*final(sessions)) == sessions_in(*old(sessions)).restrict(
            fresh_keys(sessions_in(*old(sessions)), now, ttl),
        ),
{
    sessions.retain(|_, session| is_fresh(session, now, ttl));
}

/// `DashMap::iter`, in no particular order: the key of every entry, once, and
/// when the session was last used.
#[verifier::external_body]
fn list_sessions(sessions: &DashMap<String, AcpSession>) -> (r: Vec<(String, u64)>)
    ensures
        forall|id: Seq<char>| #[trigger]
            sessions_in(*sessions).dom().contains(id) ==> exists|i: int|
                0 <= i < r@.len() && (#[trigger] r@[i]).0@ == id,
        forall|i: int|
            0 <= i < r@.len() ==> sessions_in(*sessions).dom().contains((#[trigger] r@[i]).0@)
                && sessions_in(*sessions)[r@[i].0@].last_touched == r@[i].1,
{
    sessions.iter().map(|entry| (entry.key().clone(), entry.value().last_touched)).collect()
}

/// True of a session that was used within the time to live.
pub open spec fn fresh(session: AcpSessionView, now: u64, ttl: u128) -> bool {
    crate::gateway::rate_limit::elapsed(session.last_touched, now)
        < ttl
}

/// The identifiers of the sessions that were used within the time to live.
pub open spec fn fresh_keys(
    sessions: Map<Seq<char>, AcpSessionView>,
    now: u64,
    ttl: u128,
) -> Set<Seq<char>> {
    sessions.dom().filter(|id: Seq<char>| fresh(sessions[id], now, ttl))
}

/// True of a session that was used within the time to live.
pub fn is_fresh(session: &AcpSession, now: u64, ttl: u128) -> (r: bool)
    ensures
        r == fresh(session@, now, ttl),
{
    let gone: u64 = if now >= session.last_touched {
        now - session.last_touched
    } else {
        0
    };
    (gone as u128) < ttl
}

/// True when `id` is a session that no other one was left unused longer than.
pub open spec fn least_recent(sessions: Map<Seq<char>, AcpSessionView>, id: Seq<char>) -> bool {
    &&& sessions.dom().contains(id)
    &&& forall|other: Seq<char>| #[trigger]
        sessions.dom().contains(other) ==> sessions[id].last_touched <= sessions[other].last_touched
}

/// What went wrong with a request.
#[derive(Clone, Copy, Debug, PartialEq, Eq, Structural)]
pub enum RpcErrorCode {
    MethodNotFound,
    InvalidParams,
    InternalError,
    RateLimited,
    SessionNotFound,
}

/// A request of another agent.
#[derive(Debug)]
pub struct JsonRpcRequest {
    pub id: Option<JsonValue>,
    pub method: String,
    pub params: JsonValue,
}

/// The answer to a request: a result or an error.
#[derive(Debug)]
pub enum RpcAnswer {
    Success(JsonValue),
    Failure { code: RpcErrorCode, message: String },
    /// A failure behind the request, in the error's own words.
    Broken(FrankClawError),
}

/// What an answer says.
pub enum RpcView {
    Success(JsonView),
    Failure(RpcErrorCode, Seq<char>),
    Broken(crate::error::ErrorView),
}

impl View for RpcAnswer {
    type V = RpcView;

    open spec fn view(&self) -> RpcView {
        match self {
            RpcAnswer::Success(j) => RpcView::Success(j@),
            RpcAnswer::Failure { code, message } => RpcView::Failure(*code, message@),
            RpcAnswer::Broken(e) => RpcView::Broken(e@),
        }
    }
}

fn failure(code: RpcErrorCode, message: &str) -> (r: RpcAnswer)
    ensures
        r@ == RpcView::Failure(code, message@),
{
    RpcAnswer::Failure { code, message: message.to_owned() }
}

/// A call of a tool.
#[derive(Debug)]
pub struct ToolRequest {
    pub session_key: Option<SessionKey>,
    pub tool_name: String,
    pub arguments: JsonValue,
}

/// What a request asks for.
#[derive(Debug)]
pub enum AcpStep {
    /// The answer is known.
    Answer(RpcAnswer),
    /// A turn, in the session of the given identifier where it is not empty.
    Chat { session_id: String, chat: ChatRequest },
    /// The tools that there are.
    ListTools,
    /// A call of a tool.
    CallTool(ToolRequest),
}

/// The text under `key`; empty where there is none.
pub open spec fn text_or_empty(params: JsonView, key: Seq<char>) -> Seq<char> {
    match params.text_member(key) {
        Some(s) => s,
        None => ""@,
    }
}

fn get_text_or_empty<'a>(params: &'a JsonValue, key: &str) -> (r: &'a str)
    ensures
        r@ == text_or_empty(params@, key@),
{
    match params.get_str(key) {
        Some(s) => s,
        None => "",
    }
}

/// The sessions of other agents, and how many were created lately.
pub struct AcpServer {
    pub sessions: DashMap<String, AcpSession>,
    pub options: AcpServerOptions,
    /// When the current window started.
    pub window_start: u64,
    /// The sessions that were created in the current window.
    pub window_count: u32,
}

/// The window and its count after a request to create a session at `now`, and
/// whether it is granted.
pub open spec fn after_rate_check(
    start: u64,
    count: u32,
    limit: u32,
    now: u64,
) -> (u64, u32, bool) {
    if crate::gateway::rate_limit::elapsed(start, now) > 10_000_000_000 {
        (now, 1, true)
    } else if count < limit {
        (start, (count + 1) as u32, true)
    } else {
        (start, count, false)
    }
}

/// The answer for a session that is not there.
pub open spec fn session_unknown(id: Seq<char>) -> RpcView {
    RpcView::Failure(RpcErrorCode::SessionNotFound, "session '"@ + id + "' not found"@)
}

fn unknown_session(id: &str) -> (r: RpcAnswer)
    ensures
        r@ == session_unknown(id@),
{
    failure(RpcErrorCode::SessionNotFound, cat3("session '", id, "' not found").as_str())
}

/// A session that was just used.
pub open spec fn touched(session: AcpSessionView, now: u64) -> AcpSessionView {
    AcpSessionView { last_touched: now, ..session }
}

/// Why a prompt is turned down, if it is.
pub open spec fn prompt_refusal(
    sessions: Map<Seq<char>, AcpSessionView>,
    params: JsonView,
) -> Option<RpcView> {
    let id = text_or_empty(params, "sessionId"@);
    let message = text_or_empty(params, "message"@);
    if message.len() == 0 {
        Some(RpcView::Failure(RpcErrorCode::InvalidParams, "message is required"@))
    } else if byte_len(message) > 2097152 {
        Some(RpcView::Failure(RpcErrorCode::InvalidParams, "message exceeds 2MB limit"@))
    } else if id.len() > 0 && !sessions.dom().contains(id) {
        Some(session_unknown(id))
    } else {
        None
    }
}

/// True when `chat` is the turn that a prompt asks for.
pub open spec fn prompt_asked(
    sessions: Map<Seq<char>, AcpSessionView>,
    params: JsonView,
    chat: ChatRequest,
) -> bool {
    let id = text_or_empty(params, "sessionId"@);
    &&& chat.agent_id is None
    &&& chat.session_key.deep_view() == if id.len() == 0 {
        None
    } else {
        Some(sessions[id].session_key)
    }
    &&& chat.message@ == text_or_empty(params, "message"@)
    &&& chat.attachments@.len() == 0
    &&& chat.model_id.deep_view() == params.text_member("model"@)
    &&& chat.max_tokens == match params.unsigned_member("maxTokens"@) {
        Some(n) => Some(n as u32),
        None => None,
    }
    &&& match chat.temperature {
        Some(t) => params.member("temperature"@) == Some(JsonView::Number(t@)),
        None => !(params.member("temperature"@) matches Some(JsonView::Number(_))),
    }
    &&& chat.thinking_budget is None
    &&& chat.channel_id is None
    &&& chat.channel_capabilities is None
}

/// The sessions after a prompt: the one that it names was just used.
pub open spec fn sessions_after_prompt(
    sessions: Map<Seq<char>, AcpSessionView>,
    params: JsonView,
    now: u64,
) -> Map<Seq<char>, AcpSessionView> {
    let id = text_or_empty(params, "sessionId"@);
    if prompt_refusal(sessions, params) is None && id.len() > 0 {
        sessions.insert(id, touched(sessions[id], now))
    } else {
        sessions
    }
}

/// The sessions after `loadSession`: the one that it names was just used.
pub open spec fn sessions_after_load(
    sessions: Map<Seq<char>, AcpSessionView>,
    params: JsonView,
    now: u64,
) -> Map<Seq<char>, AcpSessionView> {
    let id = text_or_empty(params, "sessionId"@);
    if id.len() > 0 && sessions.dom().contains(id) {
        sessions.insert(id, touched(sessions[id], now))
    } else {
        sessions
    }
}

/// The answer to `loadSession`.
pub open spec fn load_answer(
    sessions: Map<Seq<char>, AcpSessionView>,
    params: JsonView,
) -> RpcView {
    let id = text_or_empty(params, "sessionId"@);
    if id.len() == 0 {
        RpcView::Failure(RpcErrorCode::InvalidParams, "sessionId is required"@)
    } else if sessions.dom().contains(id) {
        RpcView::Success(
            JsonView::Object(
                map!["sessionId"@ => JsonView::Text(id), "loaded"@ => JsonView::Bool(true)],
            ),
        )
    } else {
        session_unknown(id)
    }
}

/// True when `step` is what follows `callTool`: the call, in the session that
/// it names where there is one; or the answer when it names no tool.
pub open spec fn call_follows(
    sessions: Map<Seq<char>, AcpSessionView>,
    params: JsonView,
    step: AcpStep,
) -> bool {
    let name = text_or_empty(params, "name"@);
    let id = text_or_empty(params, "sessionId"@);
    if name.len() == 0 {
        step matches AcpStep::Answer(a) && a@ == RpcView::Failure(
            RpcErrorCode::InvalidParams,
            "tool name is required"@,
        )
    } else {
        step matches AcpStep::CallTool(call) && call.tool_name@ == name && call.arguments@ == (
        match params.member("arguments"@) {
            Some(j) => j,
            None => JsonView::Object(Map::empty()),
        }) && call.session_key.deep_view() == if id.len() > 0 && sessions.dom().contains(id) {
            Some(sessions[id].session_key)
        } else {
            None
        }
    }
}

/// True when `after` is the server after `newSession` at `now`: refused by the
/// rate limit and with the same sessions, or with one more session, which the
/// answer names, and never with more of them than the limit.
pub open spec fn new_session_done(
    before: AcpServer,
    after: AcpServer,
    answer: RpcView,
    now: u64,
) -> bool {
    let (start, count, granted) = after_rate_check(
        before.window_start,
        before.window_count,
        before.options.rate_limit_per_window,
        now,
    );
    &&& after.options == before.options
    &&& after.window_start == start
    &&& after.window_count == count
    &&& !granted ==> after.held() == before.held() && answer == RpcView::Failure(
        RpcErrorCode::RateLimited,
        "session creation rate limit exceeded"@,
    )
    &&& granted ==> exists|n: u128, unused: Seq<char>| #[trigger]
        session_created(before, after.held(), answer, n, unused, now)
    &&& granted && 0 < before.options.max_sessions ==> after.held().dom().len() <= (if before.held().dom().len()
        <= before.options.max_sessions {
        before.options.max_sessions as nat
    } else {
        before.held().dom().len()
    })
}

/// The result of `initialize`.
pub open spec fn greeting(version: Seq<char>) -> JsonView {
    JsonView::Object(
        map![
            "name"@ => JsonView::Text("frankclaw"@),
            "version"@ => JsonView::Text(version),
            "capabilities"@ => JsonView::Object(
                map![
                    "streaming"@ => JsonView::Bool(true),
                    "tools"@ => JsonView::Bool(true),
                    "sessions"@ => JsonView::Bool(true),
                ],
            ),
        ],
    )
}

impl AcpServer {
    /// What the server holds.
    pub open spec fn held(&self) -> Map<Seq<char>, AcpSessionView> {
        sessions_in(self.sessions)
    }

    /// A server without sessions.
    pub fn new(options: AcpServerOptions, now: u64) -> (r: AcpServer)
        ensures
            r.held() == Map::<Seq<char>, AcpSessionView>::empty(),
            r.options == options,
            r.window_start == now,
            r.window_count == 0,
    {
        let r = AcpServer {
            sessions: no_sessions(),
            options,
            window_start: now,
            window_count: 0,
        };
        assert(r.held() =~= Map::empty());
        r
    }

    /// The number of sessions.
    pub fn session_count(&self) -> (r: usize)
        ensures
            r == self.held().dom().len(),
    {
        count_sessions(&self.sessions)
    }

    /// Counts a request to create a session: at most so many within ten
    /// seconds are granted.
    pub fn check_rate_limit(&mut self, now: u64) -> (r: bool)
        ensures
            final(self).sessions == old(self).sessions,
            final(self).options == old(self).options,
            (final(self).window_start, final(self).window_count, r) == after_rate_check(
                old(self).window_start,
                old(self).window_count,
                old(self).options.rate_limit_per_window,
                now,
            ),
    {
        let gone: u64 = if now >= self.window_start {
            now - self.window_start
        } else {
            0
        };
        if gone > 10_000_000_000 {
            self.window_start = now;
            self.window_count = 1;
            true
        } else if self.window_count < self.options.rate_limit_per_window {
            self.window_count = self.window_count + 1;
            true
        } else {
            false
        }
    }

    /// Drops the sessions that were not used within the time to live.
    pub fn evict_expired(&mut self, now: u64)
        ensures
            final(self).held() == old(self).held().restrict(
                fresh_keys(old(self).held(), now, old(self).options.session_ttl),
            ),
            final(self).options == old(self).options,
            final(self).window_start == old(self).window_start,
            final(self).window_count == old(self).window_count,
    {
        retain_fresh(&mut self.sessions, now, self.options.session_ttl);
    }

    /// Drops a session that no other one was left unused longer than, where
    /// there are sessions.
    pub fn evict_lru(&mut self)
        ensures
            final(self).options == old(self).options,
            final(self).window_start == old(self).window_start,
            final(self).window_count == old(self).window_count,
            old(self).held().dom() =~= Set::empty() ==> final(self).held() == old(self).held(),
            !(old(self).held().dom() =~= Set::empty()) ==> exists|id: Seq<char>|
                #![trigger old(self).held().remove(id)]
                least_recent(old(self).held(), id) && final(self).held() == old(
                    self,
                ).held().remove(id),
    {
        let all = list_sessions(&self.sessions);
        let ghost held = self.held();
        if all.len() == 0 {
            proof {
                assert forall|id: Seq<char>| !held.dom().contains(id) by {
                    if held.dom().contains(id) {
                        let i = choose|i: int| 0 <= i < all@.len() && (#[trigger] all@[i]).0@ == id;
                        assert(false);
                    }
                }
                assert(held.dom() =~= Set::empty());
            }
            return ;
        }
        let mut best: usize = 0;
        let mut i: usize = 1;
        while i < all.len()
            invariant
                best < i <= all@.len(),
                forall|k: int| 0 <= k < i ==> all@[best as int].1 <= (#[trigger] all@[k]).1,
            decreases all@.len() - i,
        {
            if all[i].1 < all[best].1 {
                best = i;
            }
            i = i + 1;
        }
        let ghost id = all@[best as int].0@;
        proof {
            assert(held.dom().contains(id));
            assert forall|other: Seq<char>| #[trigger]
                held.dom().contains(other) implies held[id].last_touched
                <= held[other].last_touched by {
                let k = choose|k: int| 0 <= k < all@.len() && (#[trigger] all@[k]).0@ == other;
                assert(all@[best as int].1 <= all@[k].1);
            }
            assert(least_recent(held, id));
        }
        drop_session(&mut self.sessions, all[best].0.as_str());
        assert(self.held() == held.remove(id));
    }

    /// Does `newSession`: creates a session under a random identifier, where
    /// the rate limit grants it, and makes room for it first.
    pub fn handle_new_session(&mut self, now: u64) -> (r: RpcAnswer)
        ensures
            new_session_done(*old(self), *final(self), r@, now),
    {
        let ghost before = self.held();
        let ghost max = self.options.max_sessions as nat;
        // The sessions are finitely many.
        let _before: usize = count_sessions(&self.sessions);
        if !self.check_rate_limit(now) {
            return failure(RpcErrorCode::RateLimited, "session creation rate limit exceeded");
        }
        self.evict_expired(now);
        let ghost kept = self.held();
        proof {
            vstd::set_lib::lemma_len_subset(kept.dom(), before.dom());
        }
        if count_sessions(&self.sessions) >= self.options.max_sessions {
            self.evict_lru();
        }
        let ghost room = self.held();
        let ghost unused = choose|id: Seq<char>| #![trigger kept.remove(id)]
            least_recent(kept, id) && room == kept.remove(id);
        assert(room == room_made(before, self.options, unused, now)) by {
            if kept.dom().len() == 0 {
                assert(kept.dom() =~= Set::empty());
            } else if kept.dom().len() >= max {
                assert(!(kept.dom() =~= Set::empty()));
            }
        }
        proof {
            vstd::set_lib::lemma_len_subset(room.dom(), kept.dom());
            if kept.dom().len() >= max && max > 0 {
                assert(room.dom().len() < kept.dom().len());
            }
        }
        let media_id = MediaId::new();
        let id = media_id.to_text();
        let key = cat2("acp:", id.as_str());
        let session = AcpSession {
            session_id: id.clone(),
            session_key: SessionKey(key),
            created_at: now,
            last_touched: now,
        };
        let ghost made = session@;
        put_session(&mut self.sessions, id.clone(), session);
        let mut o = JsonObject::new();
        o.put_text("sessionId", id.as_str());
        let answer = RpcAnswer::Success(o.finish());
        proof {
            let n = media_id.0;
            assert(self.held() == room.insert(id@, made));
            assert(self.held().dom() =~= room.dom().insert(id@));
            assert(session_created(*old(self), self.held(), answer@, n, unused, now));
        }
        answer
    }

    /// Does `loadSession`: the session was just used.
    pub fn handle_load_session(&mut self, params: &JsonValue, now: u64) -> (r: RpcAnswer)
        ensures
            final(self).options == old(self).options,
            final(self).window_start == old(self).window_start,
            final(self).window_count == old(self).window_count,
            final(self).held() == sessions_after_load(old(self).held(), params@, now),
            r@ == load_answer(old(self).held(), params@),
    {
        let id = get_text_or_empty(params, "sessionId");
        if id.is_empty() {
            return failure(RpcErrorCode::InvalidParams, "sessionId is required");
        }
        match find_session(&self.sessions, id) {
            Some(session) => {
                let mut session = session;
                session.last_touched = now;
                put_session(&mut self.sessions, id.to_owned(), session);
                let mut o = JsonObject::new();
                o.put_text("sessionId", id);
                o.put_bool("loaded", true);
                RpcAnswer::Success(o.finish())
            },
            None => unknown_session(id),
        }
    }

    /// Does the first half of `prompt`: the turn that it asks for, or the
    /// answer when it asks for nothing that can be done.
    pub fn handle_prompt(&mut self, params: &JsonValue, now: u64) -> (r: AcpStep)
        ensures
            final(self).options == old(self).options,
            final(self).window_start == old(self).window_start,
            final(self).window_count == old(self).window_count,
            final(self).held() == sessions_after_prompt(old(self).held(), params@, now),
            match prompt_refusal(old(self).held(), params@) {
                Some(answer) => r matches AcpStep::Answer(a) && a@ == answer,
                None => r matches AcpStep::Chat { session_id, chat } && session_id@
                    == text_or_empty(params@, "sessionId"@) && prompt_asked(
                    old(self).held(),
                    params@,
                    chat,
                ),
            },
    {
        let id = get_text_or_empty(params, "sessionId");
        let message = get_text_or_empty(params, "message");
        if message.is_empty() {
            return AcpStep::Answer(failure(RpcErrorCode::InvalidParams, "message is required"));
        }
        if bytes_len(message) > 2 * 1024 * 1024 {
            return AcpStep::Answer(
                failure(RpcErrorCode::InvalidParams, "message exceeds 2MB limit"),
            );
        }
        let session_key = if id.is_empty() {
            None
        } else {
            match find_session(&self.sessions, id) {
                Some(session) => {
                    let mut session = session;
                    session.last_touched = now;
                    let key = session.session_key.clone();
                    put_session(&mut self.sessions, id.to_owned(), session);
                    Some(key)
                },
                None => {
                    return AcpStep::Answer(unknown_session(id));
                },
            }
        };
        let temperature = match params.get("temperature") {
            Some(JsonValue::Number(n)) => Some(clone_number(n)),
            _ => None,
        };
        let max_tokens = match params.get_u64("maxTokens") {
            Some(n) => Some(n as u32),
            None => None,
        };
        AcpStep::Chat {
            session_id: id.to_owned(),
            chat: ChatRequest {
                agent_id: None,
                session_key,
                message: message.to_owned(),
                attachments: Vec::new(),
                model_id: params.get_text("model"),
                max_tokens,
                temperature,
                thinking_budget: None,
                channel_id: None,
                channel_capabilities: None,
            },
        }
    }

    /// Does the second half of `prompt`: remembers the key of the session, and
    /// answers.
    pub fn handle_prompt_done(
        &mut self,
        session_id: &str,
        outcome: Result<ChatResponse, FrankClawError>,
        now: u64,
    ) -> (r: RpcAnswer)
        ensures
            final(self).options == old(self).options,
            final(self).window_start == old(self).window_start,
            final(self).window_count == old(self).window_count,
            match outcome {
                Ok(response) => {
                    &&& final(self).held() == if session_id@.len() > 0 && old(
                        self,
                    ).held().dom().contains(session_id@) {
                        old(self).held().insert(
                            session_id@,
                            AcpSessionView {
                                session_key: response.session_key@,
                                last_touched: now,
                                ..old(self).held()[session_id@]
                            },
                        )
                    } else {
                        old(self).held()
                    }
                    &&& r@ == RpcView::Success(
                        JsonView::Object(
                            map![
                                "content"@ => JsonView::Text(response.content@),
                                "model"@ => JsonView::Text(response.model_id@),
                                "sessionKey"@ => JsonView::Text(response.session_key@),
                                "usage"@ => response.usage@,
                            ],
                        ),
                    )
                },
                Err(e) => final(self).held() == old(self).held() && r@ == RpcView::Broken(e@),
            },
    {
        match outcome {
            Ok(response) => {
                if !session_id.is_empty() {
                    if let Some(session) = find_session(&self.sessions, session_id) {
                        let mut session = session;
                        session.session_key = response.session_key.clone();
                        session.last_touched = now;
                        put_session(&mut self.sessions, session_id.to_owned(), session);
                    }
                }
                let mut o = JsonObject::new();
                o.put_text("content", response.content.as_str());
                o.put_text("model", response.model_id.as_str());
                o.put_text("sessionKey", response.session_key.as_str());
                o.put("usage", response.usage);
                RpcAnswer::Success(o.finish())
            },
            Err(e) => RpcAnswer::Broken(e),
        }
    }

    /// Does the first half of `callTool`: the call that it asks for, or the
    /// answer when it names no tool.
    pub fn handle_call_tool(&self, params: &JsonValue) -> (r: AcpStep)
        ensures
            call_follows(self.held(), params@, r),
    {
        let name = get_text_or_empty(params, "name");
        if name.is_empty() {
            return AcpStep::Answer(failure(RpcErrorCode::InvalidParams, "tool name is required"));
        }
        let arguments = match params.get("arguments") {
            Some(j) => j.clone(),
            None => JsonObject::new().finish(),
        };
        let id = get_text_or_empty(params, "sessionId");
        let session_key = if id.is_empty() {
            None
        } else {
            match find_session(&self.sessions, id) {
                Some(session) => Some(session.session_key),
                None => None,
            }
        };
        AcpStep::CallTool(ToolRequest { session_key, tool_name: name.to_owned(), arguments })
    }

    /// Does the second half of `listTools`, given the tools in their JSON form.
    pub fn handle_list_tools(tools: Result<JsonValue, FrankClawError>) -> (r: RpcAnswer)
        ensures
            r@ == match tools {
                Ok(tools) => RpcView::Success(JsonView::Object(map!["tools"@ => tools@])),
                Err(e) => RpcView::Broken(e@),
            },
    {
        match tools {
            Ok(tools) => {
                let mut o = JsonObject::new();
                o.put("tools", tools);
                RpcAnswer::Success(o.finish())
            },
            Err(e) => RpcAnswer::Broken(e),
        }
    }

    /// Does the second half of `callTool`, given the name and the output of the
    /// tool.
    pub fn handle_call_tool_done(outcome: Result<(String, JsonValue), FrankClawError>) -> (r:
        RpcAnswer)
        ensures
            r@ == match outcome {
                Ok((name, output)) => RpcView::Success(
                    JsonView::Object(
                        map!["name"@ => JsonView::Text(name@), "output"@ => output@],
                    ),
                ),
                Err(e) => RpcView::Broken(e@),
            },
    {
        match outcome {
            Ok((name, output)) => {
                let mut o = JsonObject::new();
                o.put_text("name", name.as_str());
                o.put("output", output);
                RpcAnswer::Success(o.finish())
            },
            Err(e) => RpcAnswer::Broken(e),
        }
    }

    /// Takes a request: what it asks for, or its answer. `version` is the
    /// version of the program.
    pub fn handle_request(&mut self, req: &JsonRpcRequest, version: &str, now: u64) -> (r: AcpStep)
        ensures
            final(self).options == old(self).options,
            req.method@ != "newSession"@ ==> final(self).window_start == old(self).window_start
                && final(self).window_count == old(self).window_count,
            req.method@ == "initialize"@ ==> final(self).held() == old(self).held() && (
            r matches AcpStep::Answer(a) && a@ == RpcView::Success(greeting(version@))),
            req.method@ == "newSession"@ ==> (r matches AcpStep::Answer(a) && new_session_done(
                *old(self),
                *final(self),
                a@,
                now,
            )),
            req.method@ == "loadSession"@ ==> final(self).held() == sessions_after_load(
                old(self).held(),
                req.params@,
                now,
            ) && (r matches AcpStep::Answer(a) && a@ == load_answer(
                old(self).held(),
                req.params@,
            )),
            req.method@ == "callTool"@ ==> final(self).held() == old(self).held() && call_follows(
                old(self).held(),
                req.params@,
                r,
            ),
            req.method@ == "prompt"@ ==> final(self).held() == sessions_after_prompt(
                old(self).held(),
                req.params@,
                now,
            ) && match prompt_refusal(old(self).held(), req.params@) {
                Some(answer) => r matches AcpStep::Answer(a) && a@ == answer,
                None => r matches AcpStep::Chat { session_id, chat } && session_id@
                    == text_or_empty(req.params@, "sessionId"@) && prompt_asked(
                    old(self).held(),
                    req.params@,
                    chat,
                ),
            },
            req.method@ == "listTools"@ ==> final(self).held() == old(self).held()
                && r is ListTools,
            !known_method(req.method@) ==> final(self).held() == old(self).held() && (
            r matches AcpStep::Answer(a) && a@ == RpcView::Failure(
                RpcErrorCode::MethodNotFound,
                "unknown method '"@ + req.method@ + "'"@,
            )),
    {
        proof {
            reveal_strlit("initialize");
            reveal_strlit("newSession");
            reveal_strlit("loadSession");
            reveal_strlit("prompt");
            reveal_strlit("listTools");
            reveal_strlit("callTool");
            assert("initialize"@.len() == 10 && "initialize"@[0] == 'i');
            assert("newSession"@.len() == 10 && "newSession"@[0] == 'n');
            assert("loadSession"@.len() == 11);
            assert("prompt"@.len() == 6);
            assert("listTools"@.len() == 9);
            assert("callTool"@.len() == 8);
        }
        let method = req.method.as_str();
        if str_eq(method, "initialize") {
            let mut capabilities = JsonObject::new();
            capabilities.put_bool("streaming", true);
            capabilities.put_bool("tools", true);
            capabilities.put_bool("sessions", true);
            let mut o = JsonObject::new();
            o.put_text("name", "frankclaw");
            o.put_text("version", version);
            o.put("capabilities", capabilities.finish());
            AcpStep::Answer(RpcAnswer::Success(o.finish()))
        } else if str_eq(method, "newSession") {
            AcpStep::Answer(self.handle_new_session(now))
        } else if str_eq(method, "loadSession") {
            AcpStep::Answer(self.handle_load_session(&req.params, now))
        } else if str_eq(method, "prompt") {
            self.handle_prompt(&req.params, now)
        } else if str_eq(method, "listTools") {
            AcpStep::ListTools
        } else if str_eq(method, "callTool") {
            self.handle_call_tool(&req.params)
        } else {
            AcpStep::Answer(
                failure(
                    RpcErrorCode::MethodNotFound,
                    cat3("unknown method '", method, "'").as_str(),
                ),
            )
        }
    }
}

/// True of the methods that the server knows.
pub open spec fn known_method(method: Seq<char>) -> bool {
    ||| method == "initialize"@
    ||| method == "newSession"@
    ||| method == "loadSession"@
    ||| method == "prompt"@
    ||| method == "listTools"@
    ||| method == "callTool"@
}

/// The sessions that are left when room is made for another one at `now`: those
/// that were used within the time to live, without `unused` where that is as
/// many as the limit.
pub open spec fn room_made(
    sessions: Map<Seq<char>, AcpSessionView>,
    options: AcpServerOptions,
    unused: Seq<char>,
    now: u64,
) -> Map<Seq<char>, AcpSessionView> {
    let kept = sessions.restrict(fresh_keys(sessions, now, options.session_ttl));
    if kept.dom().len() >= options.max_sessions && kept.dom().len() > 0 {
        kept.remove(unused)
    } else {
        kept
    }
}

/// True when `after` holds the sessions of `before` that are left when room is
/// made, and a new one under the identifier `n`, which the answer names. Room
/// is made by dropping `unused`, which no other session was left unused longer
/// than.
pub open spec fn session_created(
    before: AcpServer,
    after: Map<Seq<char>, AcpSessionView>,
    answer: RpcView,
    n: u128,
    unused: Seq<char>,
    now: u64,
) -> bool {
    let id = hyphenated(n);
    let kept = before.held().restrict(
        fresh_keys(before.held(), now, before.options.session_ttl),
    );
    &&& answer == RpcView::Success(
        JsonView::Object(map!["sessionId"@ => JsonView::Text(id)]),
    )
    &&& kept.dom().len() >= before.options.max_sessions && kept.dom().len() > 0 ==> least_recent(
        kept,
        unused,
    )
    &&& after == room_made(before.held(), before.options, unused, now).insert(
        id,
        AcpSessionView {
            session_id: id,
            session_key: "acp:"@ + id,
            created_at: now,
            last_touched: now,
        },
    )
}

/// The event for a piece of an answer; none for the arguments of a tool call.
pub open spec fn event_json(delta: StreamDelta) -> Option<JsonView> {
    match delta {
        StreamDelta::Text(text) => Some(
            JsonView::Object(
                map!["type"@ => JsonView::Text("text"@), "text"@ => JsonView::Text(text@)],
            ),
        ),
        StreamDelta::ToolCallStart { id, name } => Some(
            JsonView::Object(
                map![
                    "type"@ => JsonView::Text("tool_start"@),
                    "id"@ => JsonView::Text(id@),
                    "name"@ => JsonView::Text(name@),
                ],
            ),
        ),
        StreamDelta::ToolCallDelta { .. } => None,
        StreamDelta::ToolCallEnd { id } => Some(
            JsonView::Object(
                map!["type"@ => JsonView::Text("tool_end"@), "id"@ => JsonView::Text(id@)],
            ),
        ),
        StreamDelta::Done { usage } => Some(
            JsonView::Object(map!["type"@ => JsonView::Text("done"@), "usage"@ => usage@]),
        ),
        StreamDelta::Error(message) => Some(
            JsonView::Object(
                map![
                    "type"@ => JsonView::Text("error"@),
                    "message"@ => JsonView::Text(message@),
                ],
            ),
        ),
    }
}

/// The event for a piece of an answer; none for the arguments of a tool call.
pub fn stream_event(delta: StreamDelta) -> (r: Option<JsonValue>)
    ensures
        r is Some == event_json(delta) is Some,
        r is Some ==> r->0@ == event_json(delta)->0,
{
    let mut o = JsonObject::new();
    match delta {
        StreamDelta::Text(text) => {
            o.put_text("type", "text");
            o.put_text("text", text.as_str());
        },
        StreamDelta::ToolCallStart { id, name } => {
            o.put_text("type", "tool_start");
            o.put_text("id", id.as_str());
            o.put_text("name", name.as_str());
        },
        StreamDelta::ToolCallDelta { .. } => {
            return None;
        },
        StreamDelta::ToolCallEnd { id } => {
            o.put_text("type", "tool_end");
            o.put_text("id", id.as_str());
        },
        StreamDelta::Done { usage } => {
            o.put_text("type", "done");
            o.put("usage", usage);
        },
        StreamDelta::Error(message) => {
            o.put_text("type", "error");
            o.put_text("message", message.as_str());
        },
    }
    Some(o.finish())
}

/// Within a window no more sessions are created than the limit, where the limit
/// is not zero: the count never passes it, and at the limit nothing is granted.
pub proof fn law_creation_is_limited(start: u64, count: u32, limit: u32, now: u64)
    requires
        0 < limit,
        count <= limit,
    ensures
        after_rate_check(start, count, limit, now).1 <= limit,
        count == limit && crate::gateway::rate_limit::elapsed(start, now) <= 10_000_000_000
            ==> after_rate_check(start, count, limit, now) == (start, count, false),
{
}

/// A server that holds no more sessions than its limit holds no more after
/// `newSession`, where the limit is not zero.
pub proof fn law_sessions_are_limited(
    before: AcpServer,
    after: AcpServer,
    answer: RpcView,
    now: u64,
)
    requires
        new_session_done(before, after, answer, now),
        0 < before.options.max_sessions,
        before.held().dom().len() <= before.options.max_sessions,
    ensures
        after.held().dom().len() <= after.options.max_sessions,
{
}

/// A session that was just created is fresh for as long as the time to live.
pub proof fn law_new_session_is_fresh(
    before: AcpServer,
    after: Map<Seq<char>, AcpSessionView>,
    answer: RpcView,
    n: u128,
    unused: Seq<char>,
    now: u64,
    later: u64,
)
    requires
        session_created(before, after, answer, n, unused, now),
        now <= later,
        later - now < before.options.session_ttl,
    ensures
        fresh_keys(after, later, before.options.session_ttl).contains(hyphenated(n)),
{
}

} // verus!
