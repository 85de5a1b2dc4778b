//! Other agents: each prompt goes to the session that it names, sessions come
//! and go by their use, and no more are made than the limits allow.

use crate::error::FrankClawError;
use crate::gateway::acp::{
    fresh_keys, session_created, stream_event, AcpServer, AcpServerOptions, AcpStep, JsonRpcRequest, RpcAnswer,
    RpcErrorCode,
};
use crate::gateway::chat::{ChatResponse, StreamDelta};
use crate::json::{JsonValue, JsonView};
use crate::laws::terms::{flag, inner, said, whole};
use crate::text::byte_len;
use vstd::prelude::*;

verus! {

/// True of parameters that name a session.
pub open spec fn names_session(params: JsonView, id: Seq<char>) -> bool {
    id.len() > 0 && said(params, "sessionId"@) == Some(id)
}

/// True of parameters that name no session.
pub open spec fn names_none(params: JsonView) -> bool {
    said(params, "sessionId"@) is None || said(params, "sessionId"@)->0.len() == 0
}

/// A prompt with a message goes to the session that it names, by that session's
/// key, and the session counts as used; nothing else changes.
pub proof fn law_prompt_goes_to_its_session(
    server: &mut AcpServer,
    params: &JsonValue,
    now: u64,
    id: Seq<char>,
    other: Seq<char>,
    r: AcpStep,
)
    requires
        call_ensures(AcpServer::handle_prompt, (server, params, now), r),
        names_session(params@, id),
        said(params@, "message"@) is Some,
        said(params@, "message"@)->0.len() > 0,
        byte_len(said(params@, "message"@)->0) <= 2 * 1024 * 1024,
    ensures
        r is Chat <==> old(server).held().dom().contains(id),
        r is Chat ==> {
            let chat = r->chat;
            &&& r->session_id@ == id
            &&& chat.session_key is Some
            &&& chat.session_key->0@ == old(server).held()[id].session_key
            &&& chat.message@ == said(params@, "message"@)->0
            &&& chat.agent_id is None
            &&& final(server).held().dom() =~= old(server).held().dom()
            &&& final(server).held()[id].last_touched == now
            &&& final(server).held()[id].session_key == old(server).held()[id].session_key
            &&& final(server).held()[id].created_at == old(server).held()[id].created_at
        },
        r is Answer ==> r->Answer_0 is Failure && r->Answer_0->code
            == RpcErrorCode::SessionNotFound && r->Answer_0->message@ == "session '"@ + id
            + "' not found"@,
        r is Answer ==> final(server).held() == old(server).held(),
        other != id ==> final(server).held().dom().contains(other) == old(server).held().dom().contains(
            other,
        ),
        other != id ==> final(server).held()[other] == old(server).held()[other],
{
    assert(said(params@, "sessionId"@)->0 == id);
    if r is Chat {
        assert(r->chat.session_key.deep_view() == Some(old(server).held()[id].session_key));
    }
}

/// A prompt that names no session has none; one without a message, or with one
/// that is too long, is refused and changes nothing.
pub proof fn law_prompt_needs_a_message(
    server: &mut AcpServer,
    params: &JsonValue,
    now: u64,
    r: AcpStep,
)
    requires
        call_ensures(AcpServer::handle_prompt, (server, params, now), r),
    ensures
        ({
            let message = said(params@, "message"@);
            let missing = message is None || message->0.len() == 0;
            &&& missing || byte_len(message->0) > 2 * 1024 * 1024 ==> r is Answer && r->Answer_0
                is Failure && r->Answer_0->code == RpcErrorCode::InvalidParams
                && final(server).held() == old(server).held()
            &&& !missing && byte_len(message->0) <= 2 * 1024 * 1024 && names_none(params@) ==> r
                is Chat && r->session_id@.len() == 0 && r->chat.session_key is None
                && r->chat.message@ == message->0 && final(server).held() == old(server).held()
        }),
        r is Chat ==> {
            &&& r->chat.model_id is Some <==> said(params@, "model"@) is Some
            &&& r->chat.model_id is Some ==> r->chat.model_id->0@ == said(params@, "model"@)->0
            &&& r->chat.max_tokens is Some <==> whole(params@, "maxTokens"@) is Some
            &&& r->chat.max_tokens is Some && whole(params@, "maxTokens"@)->0 <= u32::MAX
                ==> r->chat.max_tokens->0 == whole(params@, "maxTokens"@)->0
        },
{
    reveal_strlit("");
}

/// The answer of a turn goes back, and the session that it was for remembers the
/// key of the turn; a failure changes nothing.
pub proof fn law_turn_is_remembered(
    server: &mut AcpServer,
    id: &str,
    outcome: Result<ChatResponse, FrankClawError>,
    now: u64,
    other: Seq<char>,
    r: RpcAnswer,
)
    requires
        call_ensures(AcpServer::handle_prompt_done, (server, id, outcome, now), r),
    ensures
        outcome is Ok ==> {
            &&& r is Success
            &&& said(r->Success_0@, "content"@) == Some(outcome->Ok_0.content@)
            &&& said(r->Success_0@, "model"@) == Some(outcome->Ok_0.model_id@)
            &&& said(r->Success_0@, "sessionKey"@) == Some(outcome->Ok_0.session_key@)
            &&& inner(r->Success_0@, "usage"@) == Some(outcome->Ok_0.usage@)
            &&& id@.len() > 0 && old(server).held().dom().contains(id@)
                ==> final(server).held()[id@].session_key == outcome->Ok_0.session_key@
                && final(server).held()[id@].last_touched == now
        },
        outcome is Err ==> r is Broken && r->Broken_0@ == outcome->Err_0@ && final(server).held()
            == old(server).held(),
        final(server).held().dom() =~= old(server).held().dom(),
        other != id@ ==> final(server).held()[other] == old(server).held()[other],
{
    reveal_strlit("content");
    reveal_strlit("model");
    reveal_strlit("sessionKey");
    reveal_strlit("usage");
    assert("content"@.len() == 7);
    assert("model"@.len() == 5 && "model"@[0] == 'm');
    assert("sessionKey"@.len() == 10);
    assert("usage"@.len() == 5 && "usage"@[0] == 'u');
}

/// A session that is there can be loaded, which counts as a use; one that is not
/// cannot, and nothing changes.
pub proof fn law_session_is_loaded(
    server: &mut AcpServer,
    params: &JsonValue,
    now: u64,
    id: Seq<char>,
    r: RpcAnswer,
)
    requires
        call_ensures(AcpServer::handle_load_session, (server, params, now), r),
    ensures
        names_none(params@) ==> r is Failure && r->code == RpcErrorCode::InvalidParams,
        names_session(params@, id) ==> (r is Success <==> old(server).held().dom().contains(id)),
        names_session(params@, id) && r is Success ==> {
            &&& said(r->Success_0@, "sessionId"@) == Some(id)
            &&& flag(r->Success_0@, "loaded"@) == Some(true)
            &&& final(server).held()[id].last_touched == now
            &&& final(server).held()[id].session_key == old(server).held()[id].session_key
        },
        names_session(params@, id) && !(r is Success) ==> r is Failure && r->code
            == RpcErrorCode::SessionNotFound,
        !(r is Success) ==> final(server).held() == old(server).held(),
        final(server).held().dom() =~= old(server).held().dom(),
{
    reveal_strlit("");
    reveal_strlit("sessionId");
    reveal_strlit("loaded");
    assert("sessionId"@.len() == 9);
    assert("loaded"@.len() == 6);
}

/// A tool is called by the name and with the arguments that the request gives,
/// in the session that it names where there is one.
pub proof fn law_tool_is_called(
    server: &AcpServer,
    params: &JsonValue,
    id: Seq<char>,
    r: AcpStep,
)
    requires
        call_ensures(AcpServer::handle_call_tool, (server, params), r),
    ensures
        ({
            let name = said(params@, "name"@);
            let named = name is Some && name->0.len() > 0;
            &&& r is CallTool <==> named
            &&& !named ==> r is Answer && r->Answer_0 is Failure && r->Answer_0->code
                == RpcErrorCode::InvalidParams
            &&& named ==> r->CallTool_0.tool_name@ == name->0
            &&& named && inner(params@, "arguments"@) is Some ==> r->CallTool_0.arguments@ == inner(
                params@,
                "arguments"@,
            )->0
            &&& named && inner(params@, "arguments"@) is None ==> r->CallTool_0.arguments@
                == JsonView::Object(Map::empty())
            &&& named && names_session(params@, id) && server.held().dom().contains(id)
                ==> r->CallTool_0.session_key is Some && r->CallTool_0.session_key->0@
                == server.held()[id].session_key
            &&& named && (names_none(params@) || names_session(params@, id)
                && !server.held().dom().contains(id)) ==> r->CallTool_0.session_key is None
        }),
{
    reveal_strlit("");
    if r is CallTool && names_session(params@, id) && server.held().dom().contains(id) {
        assert(r->CallTool_0.session_key.deep_view() == Some(server.held()[id].session_key));
    }
}

/// What a tool gave out, and which tools there are, goes back; so does a failure.
pub proof fn law_tools_answer(
    name: String,
    output: JsonValue,
    tools: JsonValue,
    error: FrankClawError,
    called: RpcAnswer,
    broken: RpcAnswer,
    told: RpcAnswer,
)
    requires
        call_ensures(
            AcpServer::handle_call_tool_done,
            (Result::<(String, JsonValue), FrankClawError>::Ok((name, output)),),
            called,
        ),
        call_ensures(
            AcpServer::handle_call_tool_done,
            (Result::<(String, JsonValue), FrankClawError>::Err(error),),
            broken,
        ),
        call_ensures(
            AcpServer::handle_list_tools,
            (Result::<JsonValue, FrankClawError>::Ok(tools),),
            told,
        ),
    ensures
        called is Success,
        said(called->Success_0@, "name"@) == Some(name@),
        inner(called->Success_0@, "output"@) == Some(output@),
        broken is Broken && broken->Broken_0@ == error@,
        told is Success && inner(told->Success_0@, "tools"@) == Some(tools@),
{
    reveal_strlit("name");
    reveal_strlit("output");
    assert("name"@.len() == 4);
    assert("output"@.len() == 6);
}

/// Sessions that were not used for the time to live are dropped; the others stay
/// as they are.
pub proof fn law_unused_sessions_expire(server: &mut AcpServer, now: u64, id: Seq<char>)
    requires
        call_ensures(AcpServer::evict_expired, (server, now), ()),
        old(server).held().dom().contains(id),
    ensures
        now - old(server).held()[id].last_touched >= old(server).options.session_ttl
            && old(server).options.session_ttl > 0 ==> !final(server).held().dom().contains(id),
        now - old(server).held()[id].last_touched < old(server).options.session_ttl
            && old(server).options.session_ttl > 0 ==> final(server).held().dom().contains(id)
            && final(server).held()[id] == old(server).held()[id],
{
}

/// One session is dropped, and none that stays was left unused for longer.
pub proof fn law_least_used_goes(server: &mut AcpServer, id: Seq<char>)
    requires
        call_ensures(AcpServer::evict_lru, (server,), ()),
        old(server).held().dom().contains(id),
    ensures
        exists|gone: Seq<char>|
            {
                &&& #[trigger] old(server).held().dom().contains(gone)
                &&& !final(server).held().dom().contains(gone)
                &&& final(server).held() == old(server).held().remove(gone)
                &&& old(server).held()[gone].last_touched <= old(server).held()[id].last_touched
            },
{
    let gone = choose|gone: Seq<char>|
        #![trigger old(server).held().remove(gone)]
        crate::gateway::acp::least_recent(old(server).held(), gone) && final(server).held()
            == old(server).held().remove(gone);
    assert(old(server).held().dom().contains(gone));
    assert(!final(server).held().dom().contains(gone));
}

/// Within ten seconds no more sessions are granted than the limit.
pub proof fn law_rate(server: &mut AcpServer, now: u64, r: bool)
    requires
        call_ensures(AcpServer::check_rate_limit, (server, now), r),
        now >= old(server).window_start,
    ensures
        final(server).held() == old(server).held(),
        now - old(server).window_start <= 10_000_000_000 ==> (r <==> old(server).window_count
            < old(server).options.rate_limit_per_window) && final(server).window_start
            == old(server).window_start,
        now - old(server).window_start <= 10_000_000_000 && r ==> final(server).window_count
            == old(server).window_count + 1,
        now - old(server).window_start <= 10_000_000_000 && !r ==> final(server).window_count
            == old(server).window_count,
        now - old(server).window_start > 10_000_000_000 ==> r && final(server).window_start == now
            && final(server).window_count == 1,
{
}

/// A new session is there under the name that the answer gives, used just now;
/// one that the rate limit refuses leaves the sessions alone.
pub proof fn law_session_is_made(server: &mut AcpServer, now: u64, r: RpcAnswer)
    requires
        call_ensures(AcpServer::handle_new_session, (server, now), r),
        now >= old(server).window_start,
    ensures
        r is Success <==> now - old(server).window_start > 10_000_000_000
            || old(server).window_count < old(server).options.rate_limit_per_window,
        r is Success ==> {
            let id = said(r->Success_0@, "sessionId"@);
            &&& id is Some
            &&& final(server).held().dom().contains(id->0)
            &&& final(server).held()[id->0].session_key == "acp:"@ + id->0
            &&& final(server).held()[id->0].created_at == now
            &&& final(server).held()[id->0].last_touched == now
            &&& forall|other: Seq<char>|
                other != id->0 && #[trigger] final(server).held().dom().contains(other)
                    ==> old(server).held().dom().contains(other) && final(server).held()[other]
                    == old(server).held()[other]
        },
        !(r is Success) ==> r is Failure && r->code == RpcErrorCode::RateLimited
            && final(server).held() == old(server).held(),
        0 < old(server).options.max_sessions && old(server).held().dom().len()
            <= old(server).options.max_sessions && r is Success ==> final(server).held().dom().len()
            <= old(server).options.max_sessions,
{
    if r is Success {
        let (n, unused) = choose|n: u128, unused: Seq<char>| #[trigger]
            session_created(*old(server), final(server).held(), r@, n, unused, now);
        assert(session_created(*old(server), final(server).held(), r@, n, unused, now));
    }
}

/// Each method does what its handler does, and a method that is not known is
/// refused by its name and changes nothing.
pub proof fn law_methods(
    server: &mut AcpServer,
    req: &JsonRpcRequest,
    version: &str,
    now: u64,
    straight: &mut AcpServer,
    prompted: AcpStep,
    r: AcpStep,
)
    requires
        call_ensures(AcpServer::handle_request, (server, req, version, now), r),
        *old(straight) == *old(server),
        call_ensures(AcpServer::handle_prompt, (straight, &req.params, now), prompted),
    ensures
        req.method@ == "initialize"@ ==> r is Answer && r->Answer_0 is Success && said(
            r->Answer_0->Success_0@,
            "version"@,
        ) == Some(version@) && said(r->Answer_0->Success_0@, "name"@) == Some("frankclaw"@),
        req.method@ == "listTools"@ ==> r is ListTools && final(server).held()
            == old(server).held(),
        req.method@ == "prompt"@ ==> final(server).held() == final(straight).held() && (r is Chat
            <==> prompted is Chat),
        req.method@ == "prompt"@ && r is Chat ==> r->session_id@ == prompted->session_id@
            && r->chat.message@ == prompted->chat.message@ && r->chat.session_key.deep_view()
            == prompted->chat.session_key.deep_view(),
        req.method@ == "prompt"@ && r is Answer ==> r->Answer_0@ == prompted->Answer_0@,
        req.method@ == "callTool"@ ==> final(server).held() == old(server).held() && (r is CallTool
            || r is Answer),
        req.method@ == "loadSession"@ ==> r is Answer && final(server).held().dom()
            =~= old(server).held().dom(),
        req.method@ == "newSession"@ ==> r is Answer,
        req.method@ != "initialize"@ && req.method@ != "listTools"@ && req.method@ != "prompt"@
            && req.method@ != "callTool"@ && req.method@ != "loadSession"@ && req.method@
            != "newSession"@ ==> r is Answer && r->Answer_0 is Failure && r->Answer_0->code
            == RpcErrorCode::MethodNotFound && final(server).held() == old(server).held(),
{
    reveal_strlit("version");
    reveal_strlit("name");
    reveal_strlit("capabilities");
    assert("version"@.len() == 7);
    assert("name"@.len() == 4);
    assert("capabilities"@.len() == 12);
}

/// A new server holds nothing, under the limits that it is given.
pub proof fn law_new_server(options: AcpServerOptions, now: u64, r: AcpServer, count: usize)
    requires
        call_ensures(AcpServer::new, (options, now), r),
        call_ensures(AcpServer::session_count, (&r,), count),
    ensures
        count == 0,
        r.options == options,
{
}

/// Each piece of an answer is told by its kind; the arguments of a tool call are
/// not told.
pub proof fn law_pieces_are_told(delta: StreamDelta, r: Option<JsonValue>)
    requires
        call_ensures(stream_event, (delta,), r),
    ensures
        r is None <==> delta is ToolCallDelta,
        delta is Text ==> said(r->0@, "type"@) == Some("text"@) && said(r->0@, "text"@) == Some(
            delta->Text_0@,
        ),
        delta is ToolCallStart ==> said(r->0@, "type"@) == Some("tool_start"@) && said(
            r->0@,
            "id"@,
        ) == Some(delta->ToolCallStart_id@) && said(r->0@, "name"@) == Some(delta->name@),
        delta is ToolCallEnd ==> said(r->0@, "type"@) == Some("tool_end"@) && said(r->0@, "id"@)
            == Some(delta->ToolCallEnd_id@),
        delta is Done ==> said(r->0@, "type"@) == Some("done"@) && inner(r->0@, "usage"@) == Some(
            delta->usage@,
        ),
        delta is Error ==> said(r->0@, "type"@) == Some("error"@) && said(r->0@, "message"@) == Some(
            delta->Error_0@,
        ),
{
    reveal_strlit("type");
    reveal_strlit("text");
    reveal_strlit("id");
    reveal_strlit("name");
    reveal_strlit("usage");
    reveal_strlit("message");
    assert("type"@.len() == 4 && "type"@[1] == 'y');
    assert("text"@.len() == 4 && "text"@[1] == 'e');
    assert("id"@.len() == 2);
    assert("name"@.len() == 4 && "name"@[0] == 'n');
    assert("type"@[0] == 't' && "text"@[0] == 't');
    assert("usage"@.len() == 5);
    assert("message"@.len() == 7);
}

/// Loading a session and calling a tool by their method do what they do by
/// themselves, and a new session that is granted is there.
pub proof fn law_methods_do_their_work(
    server: &mut AcpServer,
    req: &JsonRpcRequest,
    version: &str,
    now: u64,
    loading: &mut AcpServer,
    loaded: RpcAnswer,
    called: AcpStep,
    r: AcpStep,
)
    requires
        call_ensures(AcpServer::handle_request, (server, req, version, now), r),
        *old(loading) == *old(server),
        call_ensures(AcpServer::handle_load_session, (loading, &req.params, now), loaded),
        call_ensures(AcpServer::handle_call_tool, (&*old(server), &req.params), called),
        now >= old(server).window_start,
    ensures
        req.method@ == "loadSession"@ ==> r is Answer && r->Answer_0@ == loaded@
            && final(server).held() == final(loading).held(),
        req.method@ == "callTool"@ ==> (r is CallTool <==> called is CallTool),
        req.method@ == "callTool"@ && r is CallTool ==> r->CallTool_0.tool_name@
            == called->CallTool_0.tool_name@ && r->CallTool_0.arguments@
            == called->CallTool_0.arguments@ && r->CallTool_0.session_key.deep_view()
            == called->CallTool_0.session_key.deep_view(),
        req.method@ == "newSession"@ ==> r is Answer && (r->Answer_0 is Success <==> now
            - old(server).window_start > 10_000_000_000 || old(server).window_count
            < old(server).options.rate_limit_per_window),
        req.method@ == "newSession"@ && r->Answer_0 is Success ==> said(
            r->Answer_0->Success_0@,
            "sessionId"@,
        ) is Some && final(server).held().dom().contains(
            said(r->Answer_0->Success_0@, "sessionId"@)->0,
        ),
{
    if req.method@ == "newSession"@ && r->Answer_0 is Success {
        let answer = r->Answer_0@;
        let (n, unused) = choose|n: u128, unused: Seq<char>| #[trigger]
            session_created(*old(server), final(server).held(), answer, n, unused, now);
        assert(session_created(*old(server), final(server).held(), answer, n, unused, now));
    }
}

/// As long as there is room, a new session drops none that was used within the
/// time to live.
pub proof fn law_new_session_drops_nobody(
    server: &mut AcpServer,
    now: u64,
    id: Seq<char>,
    r: RpcAnswer,
)
    requires
        call_ensures(AcpServer::handle_new_session, (server, now), r),
        old(server).held().dom().finite(),
        old(server).held().dom().len() < old(server).options.max_sessions,
        old(server).held().dom().contains(id),
        old(server).held()[id].last_touched <= now,
        now - old(server).held()[id].last_touched < old(server).options.session_ttl,
    ensures
        final(server).held().dom().contains(id),
        r is Success && said(r->Success_0@, "sessionId"@) != Some(id) ==> final(server).held()[id]
            == old(server).held()[id],
        !(r is Success) ==> final(server).held()[id] == old(server).held()[id],
{
    if r is Success {
        let (n, unused) = choose|n: u128, unused: Seq<char>| #[trigger]
            session_created(*old(server), final(server).held(), r@, n, unused, now);
        assert(session_created(*old(server), final(server).held(), r@, n, unused, now));
        let fresh = fresh_keys(old(server).held(), now, old(server).options.session_ttl);
        let kept = old(server).held().restrict(fresh);
        assert(fresh.contains(id));
        assert(kept.dom().subset_of(old(server).held().dom()));
        vstd::set_lib::lemma_len_subset(kept.dom(), old(server).held().dom());
    }
}

/// Where nothing is set, five thousand sessions are held, for a day each, and a
/// hundred and twenty may be made in a window.
pub proof fn law_default_limits(r: AcpServerOptions)
    requires
        call_ensures(AcpServerOptions::default, (), r),
    ensures
        r.max_sessions == 5000,
        r.session_ttl == 24 * 60 * 60 * 1_000_000_000,
        r.rate_limit_per_window == 120,
{
}

} // verus!
