//! What clients get from the gateway: the turn that they ask for, the session
//! that they name, and an answer under the identifier of their request.

use crate::error::{ErrorView, FrankClawError};
use crate::gateway::chat::{ChatResponse, StreamDelta};
use crate::gateway::methods::{
    chat_cancel, chat_cancel_done, chat_delta, chat_history, chat_send, chat_send_done,
    cron_unavailable, merge_metadata, parse_session_key_param, reply_with, sessions_compact,
    sessions_compact_done, sessions_delete, sessions_get, sessions_list, sessions_patch,
    sessions_patch_done, sessions_reset, tool_approval_done, tool_approval_requested,
    tool_approval_resolve, usage_get, usage_get_done, webhooks_test, webhooks_test_done,
    ApprovalAnswer, ApprovalOutcome, ChatSend, CompactionResult, SessionPage, SessionUsage,
    TranscriptPage,
};
use crate::gateway::protocol::{EventFrame, EventType, RequestFrame, ResponseFrame};
use crate::json::{JsonValue, JsonView};
use crate::laws::terms::{amount, flag, inner, listed, said, whole, word};
use crate::text::{byte_len, decimal, is_blank, trimmed};
use crate::types::{lemma_cut, AgentId, RequestId, SessionKey};
use vstd::prelude::*;

verus! {

/// True of an answer that refuses the request of the given identifier with a
/// code and a reason.
pub open spec fn refuses(r: ResponseFrame, id: RequestId, code: u16, reason: Seq<char>) -> bool {
    r.id == id && r.reply is Refused && r.reply->code == code && r.reply->message@ == reason
}

/// True of an answer that tells the error behind a request.
pub open spec fn reports(r: ResponseFrame, id: RequestId, status: Option<u16>, e: ErrorView) -> bool {
    r.id == id && r.reply is Failed && r.reply->status == status && r.reply->error@ == e
}

/// A turn goes to the session and the agent that the client names, and to none
/// that it does not name.
pub proof fn law_turn_goes_to_its_session(
    request: &RequestFrame,
    max_message_bytes: usize,
    r: Result<ChatSend, ResponseFrame>,
)
    requires
        call_ensures(chat_send, (request, max_message_bytes), r),
        r is Ok,
    ensures
        r->Ok_0.chat.session_key is Some <==> said(request.params@, "session_key"@) is Some,
        r->Ok_0.chat.session_key is Some ==> r->Ok_0.chat.session_key->0@.is_prefix_of(
            said(request.params@, "session_key"@)->0,
        ),
        r->Ok_0.chat.session_key is Some && byte_len(said(request.params@, "session_key"@)->0)
            <= 800 ==> r->Ok_0.chat.session_key->0@ == said(request.params@, "session_key"@)->0,
        r->Ok_0.chat.agent_id is Some <==> said(request.params@, "agent_id"@) is Some,
        r->Ok_0.chat.agent_id is Some ==> r->Ok_0.chat.agent_id->0@.is_prefix_of(
            said(request.params@, "agent_id"@)->0,
        ),
        r->Ok_0.chat.agent_id is Some && byte_len(said(request.params@, "agent_id"@)->0) <= 255
            ==> r->Ok_0.chat.agent_id->0@ == said(request.params@, "agent_id"@)->0,
{
    let params = request.params@;
    if said(params, "session_key"@) is Some {
        lemma_cut(said(params, "session_key"@)->0, 800);
    }
    if said(params, "agent_id"@) is Some {
        lemma_cut(said(params, "agent_id"@)->0, 255);
    }
}

/// A turn is taken exactly if it has a message that is more than white space
/// and no longer than the limit; a refusal says which it was.
pub proof fn law_turn_is_taken(
    request: &RequestFrame,
    max_message_bytes: usize,
    r: Result<ChatSend, ResponseFrame>,
)
    requires
        call_ensures(chat_send, (request, max_message_bytes), r),
    ensures
        ({
            let message = said(request.params@, "message"@);
            let missing = message is None || is_blank(message->0);
            &&& r is Ok <==> !missing && byte_len(message->0) <= max_message_bytes
            &&& missing ==> refuses(r->Err_0, request.id, 400, "message is required"@)
            &&& !missing && r is Err ==> refuses(
                r->Err_0,
                request.id,
                413,
                "message exceeds maximum size ("@ + decimal(max_message_bytes as nat)
                    + " bytes)"@,
            )
        }),
{
}

/// A turn has the message and the model that the client gives, takes the limits
/// from it, is streamed unless the client says no, and can be cancelled under
/// the identifier of the request.
pub proof fn law_turn_says_what_the_client_said(
    request: &RequestFrame,
    max_message_bytes: usize,
    r: Result<ChatSend, ResponseFrame>,
)
    requires
        call_ensures(chat_send, (request, max_message_bytes), r),
        r is Ok,
    ensures
        Some(r->Ok_0.chat.message@) == said(request.params@, "message"@),
        r->Ok_0.chat.model_id is Some <==> said(request.params@, "model_id"@) is Some,
        r->Ok_0.chat.model_id is Some ==> Some(r->Ok_0.chat.model_id->0@) == said(
            request.params@,
            "model_id"@,
        ),
        r->Ok_0.chat.max_tokens is Some <==> whole(request.params@, "max_tokens"@) is Some,
        r->Ok_0.chat.max_tokens is Some && whole(request.params@, "max_tokens"@)->0 <= u32::MAX
            ==> r->Ok_0.chat.max_tokens->0 == whole(request.params@, "max_tokens"@)->0,
        r->Ok_0.chat.temperature is Some <==> inner(request.params@, "temperature"@) is Some
            && inner(request.params@, "temperature"@)->0 is Number,
        r->Ok_0.chat.temperature is Some ==> r->Ok_0.chat.temperature->0@ == inner(
            request.params@,
            "temperature"@,
        )->0->Number_0,
        r->Ok_0.stream == (flag(request.params@, "stream"@) != Some(false)),
        r->Ok_0.chat.attachments@.len() == 0,
        r->Ok_0.chat.thinking_budget is None,
        r->Ok_0.chat.channel_id is None,
        request.id is Text ==> r->Ok_0.run_key@ == request.id->Text_0@,
        request.id is Number ==> r->Ok_0.run_key@ == decimal(request.id->Number_0 as nat),
{
}

/// A method that needs a session gets the one that the client names, and
/// refuses a request that names none.
pub proof fn law_named_session(
    request: &RequestFrame,
    r: Result<SessionKey, ResponseFrame>,
    history: Result<TranscriptPage, ResponseFrame>,
    compact: Result<(SessionKey, Option<AgentId>), ResponseFrame>,
)
    requires
        call_ensures(parse_session_key_param, (request,), r),
        call_ensures(chat_history, (request,), history),
        call_ensures(sessions_compact, (request,), compact),
    ensures
        ({
            let named = said(request.params@, "session_key"@);
            let agent = said(request.params@, "agent_id"@);
            let limit = whole(request.params@, "limit"@);
            let before = whole(request.params@, "before_seq"@);
            &&& named is None ==> r is Err && history is Err && compact is Err && refuses(
                r->Err_0,
                request.id,
                400,
                "session_key is required"@,
            ) && refuses(history->Err_0, request.id, 400, "session_key is required"@) && refuses(
                compact->Err_0,
                request.id,
                400,
                "session_key is required"@,
            )
            &&& named is Some ==> r is Ok && history is Ok && compact is Ok
            &&& named is Some && byte_len(named->0) <= 800 ==> r->Ok_0@ == named->0
                && history->Ok_0.session_key@ == named->0 && compact->Ok_0.0@ == named->0
            &&& named is Some ==> (compact->Ok_0.1 is Some <==> agent is Some)
            &&& named is Some && agent is Some && byte_len(agent->0) <= 255
                ==> compact->Ok_0.1->0@ == agent->0
            &&& named is Some && limit is None ==> history->Ok_0.limit == 100
            &&& named is Some && limit is Some && limit->0 <= usize::MAX ==> history->Ok_0.limit
                == limit->0
            &&& named is Some ==> (history->Ok_0.before_seq is Some <==> before is Some)
            &&& named is Some && before is Some ==> history->Ok_0.before_seq->0 == before->0
        }),
{
    let params = request.params@;
    if said(params, "session_key"@) is Some {
        lemma_cut(said(params, "session_key"@)->0, 800);
    }
    if said(params, "agent_id"@) is Some {
        lemma_cut(said(params, "agent_id"@)->0, 255);
    }
}

/// A list of sessions, and a report on their usage, is one of the agent that the
/// client names, else of the default one; from the place that it names, else
/// from the first; and as many as it names, else fifty. A report is on two
/// hundred at most.
pub proof fn law_pages_of_sessions(request: &RequestFrame, r: SessionPage, usage: SessionPage)
    requires
        call_ensures(sessions_list, (request,), r),
        call_ensures(usage_get, (request,), usage),
    ensures
        ({
            let agent = said(request.params@, "agent_id"@);
            let limit = whole(request.params@, "limit"@);
            let offset = whole(request.params@, "offset"@);
            &&& agent is None ==> r.agent_id@ == "default"@ && usage.agent_id@ == "default"@
            &&& agent is Some && byte_len(agent->0) <= 255 ==> r.agent_id@ == agent->0
                && usage.agent_id@ == agent->0
            &&& limit is None ==> r.limit == 50 && usage.limit == 50
            &&& limit is Some && limit->0 <= usize::MAX ==> r.limit == limit->0
            &&& limit is Some && limit->0 <= 200 ==> usage.limit == limit->0
            &&& usage.limit <= 200
            &&& limit is Some && limit->0 > 200 ==> usage.limit == 200
            &&& offset is None ==> r.offset == 0 && usage.offset == 0
            &&& offset is Some && offset->0 <= usize::MAX ==> r.offset == offset->0 && usage.offset
                == offset->0
        }),
{
    let params = request.params@;
    if said(params, "agent_id"@) is Some {
        lemma_cut(said(params, "agent_id"@)->0, 255);
    }
}

/// What the store found goes back under the name that was asked for; nothing
/// found and a failure each have their answer.
pub proof fn law_found_goes_back(
    id: &RequestId,
    name: &str,
    value: JsonValue,
    error: FrankClawError,
    r: ResponseFrame,
    failed: ResponseFrame,
    session: ResponseFrame,
    none: ResponseFrame,
    broken: ResponseFrame,
)
    requires
        call_ensures(reply_with, (id, name, Result::<JsonValue, FrankClawError>::Ok(value)), r),
        call_ensures(
            reply_with,
            (id, name, Result::<JsonValue, FrankClawError>::Err(error)),
            failed,
        ),
        call_ensures(
            sessions_get,
            (id, Result::<Option<JsonValue>, FrankClawError>::Ok(Some(value))),
            session,
        ),
        call_ensures(
            sessions_get,
            (id, Result::<Option<JsonValue>, FrankClawError>::Ok(None)),
            none,
        ),
        call_ensures(
            sessions_get,
            (id, Result::<Option<JsonValue>, FrankClawError>::Err(error)),
            broken,
        ),
    ensures
        r.id == *id && r.reply is Done,
        inner(r.reply->Done_0@, name@) == Some(value@),
        reports(failed, *id, Some(500), error@),
        session.id == *id && session.reply is Done,
        inner(session.reply->Done_0@, "session"@) == Some(value@),
        refuses(none, *id, 404, "session not found"@),
        reports(broken, *id, Some(500), error@),
{
}

/// True of an event that tells everybody what was done to a session.
pub open spec fn announces(event: EventFrame, key: Seq<char>, action: Seq<char>) -> bool {
    &&& event.event == EventType::SessionUpdated
    &&& said(event.payload@, "session_key"@) == Some(key)
    &&& said(event.payload@, "action"@) == Some(action)
}

/// A session that was reset or deleted is named in the answer and announced; one
/// that was not is not announced, and the answer tells why.
pub proof fn law_changes_are_announced(
    id: &RequestId,
    key: &SessionKey,
    done: Result<(), FrankClawError>,
    reset: (ResponseFrame, Option<EventFrame>),
    deleted: (ResponseFrame, Option<EventFrame>),
)
    requires
        call_ensures(sessions_reset, (id, key, done), reset),
        call_ensures(sessions_delete, (id, key, done), deleted),
    ensures
        done is Ok ==> {
            &&& reset.0.id == *id && reset.0.reply is Done
            &&& said(reset.0.reply->Done_0@, "session_key"@) == Some(key@)
            &&& said(reset.0.reply->Done_0@, "status"@) == Some("reset"@)
            &&& reset.1 is Some && announces(reset.1->0, key@, "reset"@)
            &&& deleted.0.id == *id && deleted.0.reply is Done
            &&& said(deleted.0.reply->Done_0@, "session_key"@) == Some(key@)
            &&& said(deleted.0.reply->Done_0@, "status"@) == Some("deleted"@)
            &&& deleted.1 is Some && announces(deleted.1->0, key@, "deleted"@)
        },
        done is Err ==> reset.1 is None && deleted.1 is None && reports(
            reset.0,
            *id,
            Some(500),
            done->Err_0@,
        ) && reports(deleted.0, *id, Some(500), done->Err_0@),
{
    reveal_strlit("session_key");
    reveal_strlit("status");
    reveal_strlit("action");
    assert("session_key"@.len() == 11);
    assert("status"@.len() == 6);
    assert("action"@.len() == 6);
}

/// A member that the patch names gets the patch's value; any other keeps its
/// own; and there are no more.
pub proof fn law_patch_is_laid_over(
    metadata: JsonValue,
    patch: &JsonValue,
    r: JsonValue,
    key: Seq<char>,
)
    requires
        call_ensures(merge_metadata, (metadata, patch), r),
    ensures
        metadata@ is Object && patch@ is Object ==> r@ is Object,
        metadata@ is Object && patch@ is Object && inner(patch@, key) is Some ==> inner(r@, key)
            == inner(patch@, key),
        metadata@ is Object && patch@ is Object && inner(patch@, key) is None ==> inner(r@, key)
            == inner(metadata@, key),
        !(metadata@ is Object) || !(patch@ is Object) ==> r@ == patch@,
{
}

/// A patch is laid over the metadata of a session that is there; a session that
/// is not there, and a patch that is no object, are refused.
pub proof fn law_session_is_patched(
    request: &RequestFrame,
    metadata: JsonValue,
    patch: &JsonValue,
    merged: JsonValue,
    r: Result<JsonValue, ResponseFrame>,
    none: Result<JsonValue, ResponseFrame>,
)
    requires
        call_ensures(
            sessions_patch,
            (request, Result::<Option<JsonValue>, FrankClawError>::Ok(Some(metadata))),
            r,
        ),
        call_ensures(
            sessions_patch,
            (request, Result::<Option<JsonValue>, FrankClawError>::Ok(None)),
            none,
        ),
        call_ensures(merge_metadata, (metadata, patch), merged),
    ensures
        inner(request.params@, "patch"@) == Some(patch@) && patch@ is Object ==> r is Ok
            && r->Ok_0@ == merged@,
        inner(request.params@, "patch"@) is None || !(inner(request.params@, "patch"@)->0 is Object)
            ==> r is Err && refuses(r->Err_0, request.id, 400, "patch object is required"@),
        none is Err && refuses(none->Err_0, request.id, 404, "session not found"@),
{
}

/// A patched session goes back to the client and is announced; a failure is
/// neither.
pub proof fn law_patched_session_goes_back(
    id: &RequestId,
    key: &SessionKey,
    outcome: Result<JsonValue, FrankClawError>,
    r: (ResponseFrame, Option<EventFrame>),
)
    requires
        call_ensures(sessions_patch_done, (id, key, outcome), r),
    ensures
        outcome is Ok ==> r.0.id == *id && r.0.reply is Done && inner(
            r.0.reply->Done_0@,
            "session"@,
        ) == Some(outcome->Ok_0@) && r.1 is Some && announces(r.1->0, key@, "patched"@),
        outcome is Err ==> r.1 is None && reports(r.0, *id, Some(500), outcome->Err_0@),
{
    reveal_strlit("session_key");
    reveal_strlit("action");
    assert("session_key"@.len() == 11);
    assert("action"@.len() == 6);
}

/// What a compaction did is told in numbers and announced.
pub proof fn law_compaction_is_told(
    id: &RequestId,
    key: &SessionKey,
    outcome: Result<CompactionResult, FrankClawError>,
    r: (ResponseFrame, Option<EventFrame>),
)
    requires
        call_ensures(sessions_compact_done, (id, key, outcome), r),
    ensures
        outcome is Ok ==> {
            let told = r.0.reply->Done_0@;
            &&& r.0.id == *id && r.0.reply is Done
            &&& said(told, "status"@) == Some("ok"@)
            &&& whole(told, "pruned_count"@) == Some(outcome->Ok_0.pruned_count as nat)
            &&& flag(told, "has_summary"@) == Some(outcome->Ok_0.has_summary)
            &&& whole(told, "estimated_tokens_before"@) == Some(
                outcome->Ok_0.estimated_tokens_before as nat,
            )
            &&& whole(told, "estimated_tokens_after"@) == Some(
                outcome->Ok_0.estimated_tokens_after as nat,
            )
            &&& r.1 is Some && announces(r.1->0, key@, "compacted"@)
        },
        outcome is Err ==> r.1 is None && reports(r.0, *id, Some(500), outcome->Err_0@)
            && r.0.reply->prefix@ == "compaction failed: "@,
{
    reveal_strlit("session_key");
    reveal_strlit("action");
    reveal_strlit("status");
    reveal_strlit("pruned_count");
    reveal_strlit("has_summary");
    reveal_strlit("estimated_tokens_before");
    reveal_strlit("estimated_tokens_after");
    assert("session_key"@.len() == 11);
    assert("action"@.len() == 6);
    assert("status"@.len() == 6);
    assert("pruned_count"@.len() == 12);
    assert("has_summary"@.len() == 11);
    assert("estimated_tokens_before"@.len() == 23);
    assert("estimated_tokens_after"@.len() == 22);
}

/// The identifier of a request in JSON.
pub open spec fn names_request(j: JsonView, id: RequestId) -> bool {
    match id {
        RequestId::Number(n) => inner(j, "request_id"@) == Some(amount(n as nat)),
        RequestId::Text(s) => inner(j, "request_id"@) == Some(word(s@)),
    }
}

/// The answer of a turn goes to the client that asked, and everybody is told of
/// it under the identifier of the request.
pub proof fn law_answer_goes_back(
    id: &RequestId,
    response: ChatResponse,
    message: &str,
    r: (ResponseFrame, EventFrame),
    tried: ResponseFrame,
)
    requires
        call_ensures(
            chat_send_done,
            (id, Result::<ChatResponse, FrankClawError>::Ok(response), message),
            r,
        ),
        call_ensures(
            webhooks_test_done,
            (id, Result::<ChatResponse, FrankClawError>::Ok(response)),
            tried,
        ),
    ensures
        r.0.id == *id && r.0.reply is Done,
        said(r.0.reply->Done_0@, "content"@) == Some(response.content@),
        said(r.0.reply->Done_0@, "session_key"@) == Some(response.session_key@),
        said(r.0.reply->Done_0@, "model_id"@) == Some(response.model_id@),
        inner(r.0.reply->Done_0@, "usage"@) == Some(response.usage@),
        r.1.event == EventType::ChatComplete,
        names_request(r.1.payload@, *id),
        said(r.1.payload@, "content"@) == Some(response.content@),
        said(r.1.payload@, "session_key"@) == Some(response.session_key@),
        said(r.1.payload@, "model_id"@) == Some(response.model_id@),
        tried.id == *id && tried.reply is Done && tried.reply->Done_0@ == r.0.reply->Done_0@,
{
    lemma_chat_words();
}

proof fn lemma_chat_words()
    ensures
        "content"@ != "session_key"@,
        "content"@ != "model_id"@,
        "content"@ != "usage"@,
        "content"@ != "request_id"@,
        "session_key"@ != "model_id"@,
        "session_key"@ != "usage"@,
        "session_key"@ != "request_id"@,
        "model_id"@ != "usage"@,
        "model_id"@ != "request_id"@,
        "usage"@ != "request_id"@,
        "message"@ != "request_id"@,
{
    reveal_strlit("content");
    reveal_strlit("session_key");
    reveal_strlit("model_id");
    reveal_strlit("usage");
    reveal_strlit("request_id");
    reveal_strlit("message");
    assert("content"@.len() == 7);
    assert("session_key"@.len() == 11);
    assert("model_id"@.len() == 8);
    assert("usage"@.len() == 5);
    assert("request_id"@.len() == 10);
    assert("message"@.len() == 7);
}

/// A turn that fails is reported with its error; one that the user cancelled
/// counts as aborted, not as an error.
pub proof fn law_failure_is_told(
    id: &RequestId,
    error: FrankClawError,
    message: &str,
    r: (ResponseFrame, EventFrame),
    tried: ResponseFrame,
)
    requires
        call_ensures(
            chat_send_done,
            (id, Result::<ChatResponse, FrankClawError>::Err(error), message),
            r,
        ),
        call_ensures(
            webhooks_test_done,
            (id, Result::<ChatResponse, FrankClawError>::Err(error)),
            tried,
        ),
    ensures
        error is TurnCancelled ==> reports(r.0, *id, Some(499), error@) && r.1.event
            == EventType::ChatAborted,
        !(error is TurnCancelled) ==> reports(r.0, *id, None, error@) && r.1.event
            == EventType::ChatError,
        names_request(r.1.payload@, *id),
        said(r.1.payload@, "message"@) == Some(message@),
        reports(tried, *id, None, error@),
{
    lemma_chat_words();
}

proof fn lemma_delta_words()
    ensures
        "kind"@ != "request_id"@,
        "delta"@ != "request_id"@,
        "delta"@ != "kind"@,
        "tool_call_id"@ != "request_id"@,
        "tool_call_id"@ != "kind"@,
        "tool_name"@ != "request_id"@,
        "tool_name"@ != "kind"@,
        "tool_name"@ != "tool_call_id"@,
        "arguments_delta"@ != "request_id"@,
        "arguments_delta"@ != "kind"@,
        "arguments_delta"@ != "tool_call_id"@,
        "usage"@ != "request_id"@,
        "usage"@ != "kind"@,
        "message"@ != "request_id"@,
        "message"@ != "kind"@,
{
    reveal_strlit("kind");
    reveal_strlit("request_id");
    reveal_strlit("delta");
    reveal_strlit("tool_call_id");
    reveal_strlit("tool_name");
    reveal_strlit("arguments_delta");
    reveal_strlit("usage");
    reveal_strlit("message");
    assert("kind"@.len() == 4);
    assert("request_id"@.len() == 10);
    assert("delta"@.len() == 5);
    assert("tool_call_id"@.len() == 12);
    assert("tool_name"@.len() == 9);
    assert("arguments_delta"@.len() == 15);
    assert("usage"@.len() == 5);
    assert("message"@.len() == 7);
}

/// Each piece of an answer is told as it is, under its kind and the identifier
/// of the request.
pub proof fn law_pieces_are_told(id: &RequestId, delta: StreamDelta, r: EventFrame)
    requires
        call_ensures(chat_delta, (id, delta), r),
    ensures
        r.event == EventType::ChatDelta,
        names_request(r.payload@, *id),
        match delta {
            StreamDelta::Text(text) => said(r.payload@, "kind"@) == Some("text"@) && said(
                r.payload@,
                "delta"@,
            ) == Some(text@),
            StreamDelta::ToolCallStart { id, name } => said(r.payload@, "kind"@) == Some(
                "tool_call_start"@,
            ) && said(r.payload@, "tool_call_id"@) == Some(id@) && said(r.payload@, "tool_name"@)
                == Some(name@),
            StreamDelta::ToolCallDelta { id, arguments } => said(r.payload@, "kind"@) == Some(
                "tool_call_delta"@,
            ) && said(r.payload@, "tool_call_id"@) == Some(id@) && said(
                r.payload@,
                "arguments_delta"@,
            ) == Some(arguments@),
            StreamDelta::ToolCallEnd { id } => said(r.payload@, "kind"@) == Some("tool_call_end"@)
                && said(r.payload@, "tool_call_id"@) == Some(id@),
            StreamDelta::Done { usage } => said(r.payload@, "kind"@) == Some("done"@) && inner(
                r.payload@,
                "usage"@,
            ) == Some(usage@),
            StreamDelta::Error(message) => said(r.payload@, "kind"@) == Some("error"@) && said(
                r.payload@,
                "message"@,
            ) == Some(message@),
        },
{
    lemma_delta_words();
}

/// A turn is cancelled under the name that the client gives, white space aside,
/// and only if it was running.
pub proof fn law_turn_is_cancelled(
    request: &RequestFrame,
    run: &str,
    was_running: bool,
    r: Result<String, ResponseFrame>,
    done: ResponseFrame,
)
    requires
        call_ensures(chat_cancel, (request,), r),
        call_ensures(chat_cancel_done, (&request.id, run, was_running), done),
    ensures
        ({
            let named = said(request.params@, "request_id"@);
            &&& r is Ok <==> named is Some && !is_blank(named->0)
            &&& r is Ok ==> r->Ok_0@ == trimmed(named->0)
            &&& r is Err ==> refuses(r->Err_0, request.id, 400, "request_id is required"@)
        }),
        was_running ==> done.id == request.id && done.reply is Done && said(
            done.reply->Done_0@,
            "request_id"@,
        ) == Some(run@) && said(done.reply->Done_0@, "status"@) == Some("cancelled"@),
        !was_running ==> refuses(
            done,
            request.id,
            404,
            "no active chat run with that request_id"@,
        ),
{
    reveal_strlit("request_id");
    reveal_strlit("status");
    assert("request_id"@.len() == 10);
    assert("status"@.len() == 6);
}

/// A mapping is tried with the payload that the client gives, and both have to
/// be there.
pub proof fn law_mapping_is_tried<'a>(
    request: &'a RequestFrame,
    r: Result<(&'a str, &'a JsonValue), ResponseFrame>,
)
    requires
        call_ensures(webhooks_test, (request,), r),
    ensures
        ({
            let named = said(request.params@, "mapping_id"@);
            let payload = inner(request.params@, "payload"@);
            let missing = named is None || is_blank(named->0);
            &&& r is Ok ==> !missing && payload is Some && r->Ok_0.0@ == named->0 && r->Ok_0.1@
                == payload->0
            &&& missing ==> r is Err && refuses(
                r->Err_0,
                request.id,
                400,
                "mapping_id is required"@,
            )
            &&& !missing && payload is None ==> r is Err && refuses(
                r->Err_0,
                request.id,
                400,
                "payload is required"@,
            )
            &&& !missing && payload is Some ==> r is Ok
        }),
{
}

/// A decision on a tool call is the one that the client names, for the call that
/// it names; nothing but the three names is a decision.
pub proof fn law_decision_is_heard(request: &RequestFrame, r: Result<ApprovalAnswer, ResponseFrame>)
    requires
        call_ensures(tool_approval_resolve, (request,), r),
    ensures
        ({
            let call = said(request.params@, "approval_id"@);
            let name = said(request.params@, "decision"@);
            let missing = call is None || is_blank(call->0);
            &&& r is Ok <==> !missing && (name == Some("allow_once"@) || name == Some(
                "allow_always"@,
            ) || name == Some("deny"@))
            &&& r is Ok ==> r->Ok_0.approval_id@ == trimmed(call->0) && Some(
                r->Ok_0.decision_name@,
            ) == name
            &&& r is Ok ==> (r->Ok_0.decision is AllowOnce <==> name == Some("allow_once"@))
            &&& r is Ok ==> (r->Ok_0.decision is AllowAlways <==> name == Some("allow_always"@))
            &&& r is Ok ==> (r->Ok_0.decision is Deny <==> name == Some("deny"@))
            &&& missing ==> refuses(r->Err_0, request.id, 400, "approval_id is required"@)
            &&& !missing && name is None ==> refuses(
                r->Err_0,
                request.id,
                400,
                "decision is required"@,
            )
            &&& !missing && name is Some && r is Err ==> refuses(
                r->Err_0,
                request.id,
                400,
                "decision must be 'allow_once', 'allow_always', or 'deny'"@,
            )
        }),
{
    reveal_strlit("allow_once");
    reveal_strlit("allow_always");
    reveal_strlit("deny");
    assert("allow_once"@.len() == 10);
    assert("allow_always"@.len() == 12);
    assert("deny"@.len() == 4);
}

/// A decision that a tool call took is told to the client and to everybody; one
/// that came too late, or for no call, only to the client.
pub proof fn law_decision_is_told(
    id: &RequestId,
    answer: &ApprovalAnswer,
    outcome: ApprovalOutcome,
    r: (ResponseFrame, Option<EventFrame>),
)
    requires
        call_ensures(tool_approval_done, (id, answer, outcome), r),
    ensures
        r.1 is Some <==> outcome is Taken,
        outcome is Taken ==> {
            &&& r.0.id == *id && r.0.reply is Done
            &&& said(r.0.reply->Done_0@, "approval_id"@) == Some(answer.approval_id@)
            &&& said(r.0.reply->Done_0@, "decision"@) == Some(answer.decision_name@)
            &&& r.1->0.event == EventType::ToolApprovalResolved
            &&& r.1->0.payload@ == r.0.reply->Done_0@
        },
        outcome is Expired ==> refuses(r.0, *id, 410, "approval request already expired"@),
        outcome is Unknown ==> refuses(r.0, *id, 404, "no pending approval with that ID"@),
{
    reveal_strlit("approval_id");
    reveal_strlit("decision");
    assert("approval_id"@.len() == 11);
    assert("decision"@.len() == 8);
}

/// The tokens of a kind in a session's metadata; none where nothing is noted.
pub open spec fn tokens(metadata: JsonView, key: Seq<char>) -> nat {
    match whole(metadata, key) {
        Some(n) => n,
        None => 0,
    }
}

proof fn lemma_usage_words()
    ensures
        "input_tokens"@.len() == 12,
        "output_tokens"@.len() == 13,
        "total_tokens"@.len() == 12,
        "input_tokens"@[0] == 'i',
        "total_tokens"@[0] == 't',
        "turns"@.len() == 5,
        "cost_usd"@.len() == 8,
        "session_key"@.len() == 11,
        "channel"@.len() == 7,
        "created_at"@.len() == 10,
        "last_message_at"@.len() == 15,
        "last_model"@.len() == 10,
        "created_at"@[0] == 'c',
        "last_model"@[0] == 'l',
        "sessions"@.len() == 8,
        "totals"@.len() == 6,
        "count"@.len() == 5,
{
    reveal_strlit("input_tokens");
    reveal_strlit("output_tokens");
    reveal_strlit("total_tokens");
    reveal_strlit("turns");
    reveal_strlit("cost_usd");
    reveal_strlit("session_key");
    reveal_strlit("channel");
    reveal_strlit("created_at");
    reveal_strlit("last_message_at");
    reveal_strlit("last_model");
    reveal_strlit("sessions");
    reveal_strlit("totals");
    reveal_strlit("count");
}

/// A report on usage has a line for each session, in order, with what is noted
/// of the session; input and output make the total of a line.
pub proof fn law_usage_lines(
    id: &RequestId,
    sessions: &Vec<SessionUsage>,
    cost: JsonValue,
    i: int,
    r: ResponseFrame,
)
    requires
        call_ensures(usage_get_done, (id, sessions, cost), r),
        0 <= i < sessions@.len(),
    ensures
        r.id == *id && r.reply is Done,
        listed(r.reply->Done_0@, "sessions"@) is Some,
        listed(r.reply->Done_0@, "sessions"@)->0.len() == sessions@.len(),
        whole(r.reply->Done_0@, "count"@) == Some(sessions@.len()),
        ({
            let line = listed(r.reply->Done_0@, "sessions"@)->0[i];
            let noted = sessions@[i].metadata@;
            &&& said(line, "session_key"@) == Some(sessions@[i].key@)
            &&& said(line, "channel"@) == Some(sessions@[i].channel@)
            &&& whole(line, "input_tokens"@) == Some(tokens(noted, "total_input_tokens"@))
            &&& whole(line, "output_tokens"@) == Some(tokens(noted, "total_output_tokens"@))
            &&& whole(line, "total_tokens"@) == Some(
                tokens(noted, "total_input_tokens"@) + tokens(noted, "total_output_tokens"@),
            )
            &&& whole(line, "turns"@) == Some(tokens(noted, "total_turns"@))
            &&& inner(line, "cost_usd"@) == Some(sessions@[i].cost_usd@)
            &&& said(noted, "last_model"@) is Some ==> said(line, "last_model"@) == said(
                noted,
                "last_model"@,
            )
        }),
{
    lemma_usage_words();
}

/// One more session adds its tokens and turns to the totals, and nothing adds
/// up to nothing.
pub proof fn law_usage_adds_up(
    id: &RequestId,
    front: &Vec<SessionUsage>,
    all: &Vec<SessionUsage>,
    cost: JsonValue,
    r_front: ResponseFrame,
    r_all: ResponseFrame,
)
    requires
        call_ensures(usage_get_done, (id, front, cost), r_front),
        call_ensures(usage_get_done, (id, all, cost), r_all),
        all@.len() == front@.len() + 1,
        all@.drop_last() == front@,
    ensures
        ({
            let less = inner(r_front.reply->Done_0@, "totals"@);
            let more = inner(r_all.reply->Done_0@, "totals"@);
            let noted = all@.last().metadata@;
            &&& less is Some && more is Some
            &&& whole(less->0, "input_tokens"@) is Some && whole(less->0, "output_tokens"@) is Some
                && whole(less->0, "turns"@) is Some
            &&& whole(more->0, "input_tokens"@) == Some(
                whole(less->0, "input_tokens"@)->0 + tokens(noted, "total_input_tokens"@),
            )
            &&& whole(more->0, "output_tokens"@) == Some(
                whole(less->0, "output_tokens"@)->0 + tokens(noted, "total_output_tokens"@),
            )
            &&& whole(more->0, "turns"@) == Some(
                whole(less->0, "turns"@)->0 + tokens(noted, "total_turns"@),
            )
            &&& whole(more->0, "total_tokens"@) == Some(
                whole(more->0, "input_tokens"@)->0 + whole(more->0, "output_tokens"@)->0,
            )
            &&& inner(more->0, "cost_usd"@) == Some(cost@)
            &&& front@.len() == 0 ==> whole(less->0, "input_tokens"@)->0 == 0 && whole(
                less->0,
                "output_tokens"@,
            )->0 == 0 && whole(less->0, "turns"@)->0 == 0
        }),
{
    lemma_usage_words();
}

/// A tool call that needs approval is shown to everybody as it is.
pub proof fn law_approval_is_asked(request: JsonValue, r: EventFrame)
    requires
        call_ensures(tool_approval_requested, (request,), r),
    ensures
        r.event == EventType::ToolApprovalRequested,
        r.payload@ == request@,
{
}

/// Without a scheduler every method of it is refused.
pub proof fn law_no_scheduler(id: &RequestId, r: ResponseFrame)
    requires
        call_ensures(cron_unavailable, (id,), r),
    ensures
        refuses(r, *id, 503, "cron service not available"@),
{
}

/// A session that could not be looked up is not patched, and the failure is
/// told.
pub proof fn law_failed_lookup(
    request: &RequestFrame,
    error: FrankClawError,
    r: Result<JsonValue, ResponseFrame>,
)
    requires
        call_ensures(
            sessions_patch,
            (request, Result::<Option<JsonValue>, FrankClawError>::Err(error)),
            r,
        ),
    ensures
        r is Err,
        reports(r->Err_0, request.id, Some(500), error@),
{
}

} // verus!
