//! The methods that clients call: what each asks for, and what it is answered.

use crate::error::FrankClawError;
use crate::gateway::canvas::{
    canvas_key, document_markdown, export_document, is_notation_of, next_revision, patch_base,
    patched, shows_document, stored, BlockView, CanvasBlock, CanvasBlockKind, CanvasDocument,
    CanvasExportFormat, CanvasPatch, CanvasStore, DocumentView,
};
use crate::gateway::chat::{ChatRequest, ChatResponse, StreamDelta};
use crate::gateway::protocol::{
    id_json, id_value, session_event, session_updated, EventFrame, EventType, ReplyView,
    RequestFrame, ResponseFrame,
};
use crate::json::{
    clone_number, items_view, lemma_items, number, optional_text, JsonObject, JsonValue, JsonView,
};
use crate::text::{
    blank, byte_len, bytes_len, cat3, chars_of, decimal, decimal_of, is_blank, string_of,
    str_eq, trimmed,
};
use crate::time::{format_instant, instant_text, representable};
use crate::types::{cut, AgentId, RequestId, SessionKey, Timestamp, MAX_ID_LEN, MAX_KEY_LEN};
use vstd::prelude::*;

verus! {

/// The agent that the parameters name.
pub open spec fn agent_param(params: JsonView) -> Option<Seq<char>> {
    match params.text_member("agent_id"@) {
        Some(id) => Some(cut(id, MAX_ID_LEN as int)),
        None => None,
    }
}

fn get_agent(params: &JsonValue) -> (r: Option<AgentId>)
    ensures
        r.deep_view() == agent_param(params@),
{
    match params.get_str("agent_id") {
        Some(id) => Some(AgentId::new(id)),
        None => None,
    }
}

/// The session that the parameters name.
pub open spec fn session_param(params: JsonView) -> Option<Seq<char>> {
    match params.text_member("session_key"@) {
        Some(key) => Some(cut(key, MAX_KEY_LEN as int)),
        None => None,
    }
}

fn get_session(params: &JsonValue) -> (r: Option<SessionKey>)
    ensures
        r.deep_view() == session_param(params@),
{
    match params.get_str("session_key") {
        Some(key) => Some(SessionKey::from_raw(key)),
        None => None,
    }
}

/// The session that a request names; an answer of its own when it names none.
pub fn parse_session_key_param(request: &RequestFrame) -> (r: Result<SessionKey, ResponseFrame>)
    ensures
        match r {
            Ok(key) => session_param(request.params@) == Some(key@),
            Err(response) => session_param(request.params@) is None && response.id == request.id
                && response.reply@ == ReplyView::Refused(400, "session_key is required"@),
        },
{
    match get_session(&request.params) {
        Some(key) => Ok(key),
        None => Err(ResponseFrame::err(&request.id, 400, "session_key is required")),
    }
}

/// A size among the parameters, or what stands in for it.
pub open spec fn size_param(params: JsonView, key: Seq<char>, default: nat) -> usize {
    match params.unsigned_member(key) {
        Some(n) => n as usize,
        None => default as usize,
    }
}

fn get_size(params: &JsonValue, key: &str, default: u64) -> (r: usize)
    ensures
        r == size_param(params@, key@, default as nat),
{
    match params.get_u64(key) {
        Some(n) => n as usize,
        None => default as usize,
    }
}

/// A stretch of an agent's sessions.
#[derive(Debug)]
pub struct SessionPage {
    pub agent_id: AgentId,
    pub limit: usize,
    pub offset: usize,
}

/// The agent that the parameters name, or the default one.
pub open spec fn agent_or_default(params: JsonView) -> Seq<char> {
    match agent_param(params) {
        Some(id) => id,
        None => "default"@,
    }
}

fn get_agent_or_default(params: &JsonValue) -> (r: AgentId)
    ensures
        r@ == agent_or_default(params@),
{
    match get_agent(params) {
        Some(id) => id,
        None => AgentId::default_agent(),
    }
}

/// What `sessions.list` asks for: 50 sessions from the first one on, of the
/// default agent, where the parameters say nothing else.
pub fn sessions_list(request: &RequestFrame) -> (r: SessionPage)
    ensures
        r.agent_id@ == agent_or_default(request.params@),
        r.limit == size_param(request.params@, "limit"@, 50),
        r.offset == size_param(request.params@, "offset"@, 0),
{
    SessionPage {
        agent_id: get_agent_or_default(&request.params),
        limit: get_size(&request.params, "limit", 50),
        offset: get_size(&request.params, "offset", 0),
    }
}

/// The reply that hands out a value under a name, or tells why there is none.
pub open spec fn value_reply(
    name: Seq<char>,
    outcome: Result<JsonValue, FrankClawError>,
) -> ReplyView {
    match outcome {
        Ok(j) => ReplyView::Done(JsonView::Object(map![name => j@])),
        Err(e) => ReplyView::Failed(Some(500u16), ""@, e@),
    }
}

/// The answer that hands out a value under a name: the sessions of
/// `sessions.list`, or the entries of `chat.history`.
pub fn reply_with(id: &RequestId, name: &str, outcome: Result<JsonValue, FrankClawError>) -> (r:
    ResponseFrame)
    ensures
        r.id == *id,
        r.reply@ == value_reply(name@, outcome),
{
    match outcome {
        Ok(j) => {
            let mut o = JsonObject::new();
            o.put(name, j);
            ResponseFrame::ok(id, o.finish())
        },
        Err(e) => ResponseFrame::failed(id, Some(500), "", e),
    }
}

/// A stretch of a session's transcript.
#[derive(Debug)]
pub struct TranscriptPage {
    pub session_key: SessionKey,
    pub limit: usize,
    pub before_seq: Option<u64>,
}

/// What `chat.history` asks for: the last 100 entries where the parameters say
/// nothing else.
pub fn chat_history(request: &RequestFrame) -> (r: Result<TranscriptPage, ResponseFrame>)
    ensures
        match r {
            Ok(page) => session_param(request.params@) == Some(page.session_key@) && page.limit
                == size_param(request.params@, "limit"@, 100) && page.before_seq is Some
                == request.params@.unsigned_member("before_seq"@) is Some && (
            page.before_seq is Some ==> page.before_seq->0 == request.params@.unsigned_member(
                "before_seq"@,
            )->0),
            Err(response) => session_param(request.params@) is None && response.id == request.id
                && response.reply@ == ReplyView::Refused(400, "session_key is required"@),
        },
{
    let session_key = parse_session_key_param(request)?;
    Ok(
        TranscriptPage {
            session_key,
            limit: get_size(&request.params, "limit", 100),
            before_seq: request.params.get_u64("before_seq"),
        },
    )
}

/// The answer to `sessions.get`, given what the store found.
pub fn sessions_get(id: &RequestId, found: Result<Option<JsonValue>, FrankClawError>) -> (r:
    ResponseFrame)
    ensures
        r.id == *id,
        r.reply@ == match found {
            Ok(Some(session)) => ReplyView::Done(JsonView::Object(map!["session"@ => session@])),
            Ok(None) => ReplyView::Refused(404, "session not found"@),
            Err(e) => ReplyView::Failed(Some(500u16), ""@, e@),
        },
{
    match found {
        Ok(Some(session)) => reply_with(id, "session", Ok(session)),
        Ok(None) => ResponseFrame::err(id, 404, "session not found"),
        Err(e) => ResponseFrame::failed(id, Some(500), "", e),
    }
}

/// True when the frames tell that a session was changed, or why it was not.
pub open spec fn session_change(
    id: RequestId,
    key: Seq<char>,
    action: Seq<char>,
    done: Result<(), FrankClawError>,
    r: (ResponseFrame, Option<EventFrame>),
) -> bool {
    &&& r.0.id == id
    &&& match done {
        Ok(_) => r.1 is Some && session_event(r.1->0, key, action) && r.0.reply@ == ReplyView::Done(
            JsonView::Object(
                map!["session_key"@ => JsonView::Text(key), "status"@ => JsonView::Text(action)],
            ),
        ),
        Err(e) => r.1 is None && r.0.reply@ == ReplyView::Failed(Some(500u16), ""@, e@),
    }
}

fn session_changed(
    id: &RequestId,
    key: &SessionKey,
    action: &str,
    done: Result<(), FrankClawError>,
) -> (r: (ResponseFrame, Option<EventFrame>))
    ensures
        session_change(*id, key@, action@, done, r),
{
    match done {
        Ok(_) => {
            let mut o = JsonObject::new();
            o.put_text("session_key", key.as_str());
            o.put_text("status", action);
            (ResponseFrame::ok(id, o.finish()), Some(session_updated(key.as_str(), action)))
        },
        Err(e) => (ResponseFrame::failed(id, Some(500), "", e), None),
    }
}

/// The answer to `sessions.reset` and the event that goes with it.
pub fn sessions_reset(id: &RequestId, key: &SessionKey, done: Result<(), FrankClawError>) -> (r: (
    ResponseFrame,
    Option<EventFrame>,
))
    ensures
        session_change(*id, key@, "reset"@, done, r),
{
    session_changed(id, key, "reset", done)
}

/// The answer to `sessions.delete` and the event that goes with it.
pub fn sessions_delete(id: &RequestId, key: &SessionKey, done: Result<(), FrankClawError>) -> (r: (
    ResponseFrame,
    Option<EventFrame>,
))
    ensures
        session_change(*id, key@, "deleted"@, done, r),
{
    session_changed(id, key, "deleted", done)
}

/// A turn that a client asked for.
#[derive(Debug)]
pub struct ChatSend {
    /// The turn.
    pub chat: ChatRequest,
    /// Whether the client wants to see the answer grow.
    pub stream: bool,
    /// The name under which the turn can be cancelled.
    pub run_key: String,
}

/// Why `chat.send` turns a request down, if it does.
pub open spec fn chat_refusal(params: JsonView, max_message_bytes: usize) -> Option<ReplyView> {
    match params.text_member("message"@) {
        Some(message) => if is_blank(message) {
            Some(ReplyView::Refused(400, "message is required"@))
        } else if byte_len(message) > max_message_bytes {
            Some(
                ReplyView::Refused(
                    413,
                    "message exceeds maximum size ("@ + decimal(max_message_bytes as nat)
                        + " bytes)"@,
                ),
            )
        } else {
            None
        },
        None => Some(ReplyView::Refused(400, "message is required"@)),
    }
}

/// The number under `key`, cut to 32 bits.
pub open spec fn short_param(params: JsonView, key: Seq<char>) -> Option<u32> {
    match params.unsigned_member(key) {
        Some(n) => Some(n as u32),
        None => None,
    }
}

/// The number under `key`, of any kind.
pub open spec fn number_param(params: JsonView, key: Seq<char>) -> Option<JsonView> {
    match params.member(key) {
        Some(JsonView::Number(n)) => Some(JsonView::Number(n)),
        _ => None,
    }
}

/// True when `send` is the turn that the parameters ask for.
pub open spec fn chat_asked(id: RequestId, params: JsonView, send: ChatSend) -> bool {
    let chat = send.chat;
    &&& Some(chat.message@) == params.text_member("message"@)
    &&& chat.agent_id.deep_view() == agent_param(params)
    &&& chat.session_key.deep_view() == session_param(params)
    &&& chat.model_id.deep_view() == params.text_member("model_id"@)
    &&& chat.max_tokens == short_param(params, "max_tokens"@)
    &&& chat.temperature is Some == number_param(params, "temperature"@) is Some
    &&& chat.temperature is Some ==> Some(JsonView::Number(chat.temperature->0@)) == number_param(
        params,
        "temperature"@,
    )
    &&& chat.attachments@.len() == 0
    &&& chat.thinking_budget is None
    &&& chat.channel_id is None
    &&& chat.channel_capabilities is None
    &&& send.stream == (params.bool_member("stream"@) != Some(false))
    &&& send.run_key@ == id.text()
}

/// What `chat.send` asks for, or the answer when it asks for nothing that can
/// be done. A turn is streamed unless the client wants otherwise.
pub fn chat_send(request: &RequestFrame, max_message_bytes: usize) -> (r: Result<
    ChatSend,
    ResponseFrame,
>)
    ensures
        match r {
            Ok(send) => chat_refusal(request.params@, max_message_bytes) is None && chat_asked(
                request.id,
                request.params@,
                send,
            ),
            Err(response) => response.id == request.id && chat_refusal(
                request.params@,
                max_message_bytes,
            ) == Some(response.reply@),
        },
{
    let params = &request.params;
    let message = match params.get_str("message") {
        Some(message) => {
            if blank(message) {
                return Err(ResponseFrame::err(&request.id, 400, "message is required"));
            }
            if bytes_len(message) > max_message_bytes {
                return Err(
                    ResponseFrame::err(
                        &request.id,
                        413,
                        cat3(
                            "message exceeds maximum size (",
                            decimal_of(max_message_bytes as u64).as_str(),
                            " bytes)",
                        ).as_str(),
                    ),
                );
            }
            message.to_owned()
        },
        None => {
            return Err(ResponseFrame::err(&request.id, 400, "message is required"));
        },
    };
    let model_id = match params.get_str("model_id") {
        Some(id) => Some(id.to_owned()),
        None => None,
    };
    let max_tokens = match params.get_u64("max_tokens") {
        Some(n) => Some(n as u32),
        None => None,
    };
    let temperature = match params.get("temperature") {
        Some(JsonValue::Number(n)) => Some(clone_number(n)),
        _ => None,
    };
    let stream = match params.get_bool("stream") {
        Some(b) => b,
        None => true,
    };
    Ok(
        ChatSend {
            chat: ChatRequest {
                agent_id: get_agent(params),
                session_key: get_session(params),
                message,
                attachments: Vec::new(),
                model_id,
                max_tokens,
                temperature,
                thinking_budget: None,
                channel_id: None,
                channel_capabilities: None,
            },
            stream,
            run_key: request.id.to_text(),
        },
    )
}

/// The event that asks the clients to approve a tool call, which is given in its
/// JSON form.
pub fn tool_approval_requested(request: JsonValue) -> (r: EventFrame)
    ensures
        r.event == EventType::ToolApprovalRequested,
        r.payload == request,
{
    EventFrame { event: EventType::ToolApprovalRequested, payload: request }
}

/// The payload of the event for a piece of an answer.
pub open spec fn delta_json(id: RequestId, delta: StreamDelta) -> JsonView {
    let base = map!["request_id"@ => id_json(id)];
    JsonView::Object(
        match delta {
            StreamDelta::Text(text) => base.insert("kind"@, JsonView::Text("text"@)).insert(
                "delta"@,
                JsonView::Text(text@),
            ),
            StreamDelta::ToolCallStart { id, name } => base.insert(
                "kind"@,
                JsonView::Text("tool_call_start"@),
            ).insert("tool_call_id"@, JsonView::Text(id@)).insert(
                "tool_name"@,
                JsonView::Text(name@),
            ),
            StreamDelta::ToolCallDelta { id, arguments } => base.insert(
                "kind"@,
                JsonView::Text("tool_call_delta"@),
            ).insert("tool_call_id"@, JsonView::Text(id@)).insert(
                "arguments_delta"@,
                JsonView::Text(arguments@),
            ),
            StreamDelta::ToolCallEnd { id } => base.insert(
                "kind"@,
                JsonView::Text("tool_call_end"@),
            ).insert("tool_call_id"@, JsonView::Text(id@)),
            StreamDelta::Done { usage } => base.insert("kind"@, JsonView::Text("done"@)).insert(
                "usage"@,
                usage@,
            ),
            StreamDelta::Error(message) => base.insert("kind"@, JsonView::Text("error"@)).insert(
                "message"@,
                JsonView::Text(message@),
            ),
        },
    )
}

/// The event for a piece of an answer.
pub fn chat_delta(request_id: &RequestId, delta: StreamDelta) -> (r: EventFrame)
    ensures
        r.event == EventType::ChatDelta,
        r.payload@ == delta_json(*request_id, delta),
{
    let mut o = JsonObject::new();
    o.put("request_id", id_value(request_id));
    match delta {
        StreamDelta::Text(text) => {
            o.put_text("kind", "text");
            o.put_text("delta", text.as_str());
        },
        StreamDelta::ToolCallStart { id, name } => {
            o.put_text("kind", "tool_call_start");
            o.put_text("tool_call_id", id.as_str());
            o.put_text("tool_name", name.as_str());
        },
        StreamDelta::ToolCallDelta { id, arguments } => {
            o.put_text("kind", "tool_call_delta");
            o.put_text("tool_call_id", id.as_str());
            o.put_text("arguments_delta", arguments.as_str());
        },
        StreamDelta::ToolCallEnd { id } => {
            o.put_text("kind", "tool_call_end");
            o.put_text("tool_call_id", id.as_str());
        },
        StreamDelta::Done { usage } => {
            o.put_text("kind", "done");
            o.put("usage", usage);
        },
        StreamDelta::Error(message) => {
            o.put_text("kind", "error");
            o.put_text("message", message.as_str());
        },
    }
    EventFrame { event: EventType::ChatDelta, payload: o.finish() }
}

/// The JSON form of the answer to a turn.
pub open spec fn chat_result(response: ChatResponse) -> JsonView {
    JsonView::Object(
        map![
            "session_key"@ => JsonView::Text(response.session_key@),
            "model_id"@ => JsonView::Text(response.model_id@),
            "content"@ => JsonView::Text(response.content@),
            "usage"@ => response.usage@,
        ],
    )
}

fn chat_result_value(response: &ChatResponse) -> (r: JsonValue)
    ensures
        r@ == chat_result(*response),
{
    let mut o = JsonObject::new();
    o.put_text("session_key", response.session_key.as_str());
    o.put_text("model_id", response.model_id.as_str());
    o.put_text("content", response.content.as_str());
    o.put("usage", response.usage.clone());
    o.finish()
}

/// The payload of the event for a turn that ended with an answer.
pub open spec fn complete_json(id: RequestId, response: ChatResponse) -> JsonView {
    JsonView::Object(
        map![
            "request_id"@ => id_json(id),
            "session_key"@ => JsonView::Text(response.session_key@),
            "model_id"@ => JsonView::Text(response.model_id@),
            "content"@ => JsonView::Text(response.content@),
        ],
    )
}

/// The answer to `chat.send` and the event that goes with it. `message` is the
/// text of the error, where the turn ended with one. A turn that was cancelled
/// counts as aborted.
pub fn chat_send_done(
    id: &RequestId,
    outcome: Result<ChatResponse, FrankClawError>,
    message: &str,
) -> (r: (ResponseFrame, EventFrame))
    ensures
        r.0.id == *id,
        match outcome {
            Ok(response) => r.0.reply@ == ReplyView::Done(chat_result(response)) && r.1.event
                == EventType::ChatComplete && r.1.payload@ == complete_json(*id, response),
            Err(e) => r.0.reply@ == ReplyView::Failed(
                if e is TurnCancelled {
                    Some(499u16)
                } else {
                    None
                },
                ""@,
                e@,
            ) && r.1.event == (if e is TurnCancelled {
                EventType::ChatAborted
            } else {
                EventType::ChatError
            }) && r.1.payload@ == JsonView::Object(
                map!["request_id"@ => id_json(*id), "message"@ => JsonView::Text(message@)],
            ),
        },
{
    match outcome {
        Ok(response) => {
            let mut o = JsonObject::new();
            o.put("request_id", id_value(id));
            o.put_text("session_key", response.session_key.as_str());
            o.put_text("model_id", response.model_id.as_str());
            o.put_text("content", response.content.as_str());
            let event = EventFrame { event: EventType::ChatComplete, payload: o.finish() };
            (ResponseFrame::ok(id, chat_result_value(&response)), event)
        },
        Err(e) => {
            let cancelled = matches!(e, FrankClawError::TurnCancelled);
            let mut o = JsonObject::new();
            o.put("request_id", id_value(id));
            o.put_text("message", message);
            let event = EventFrame {
                event: if cancelled {
                    EventType::ChatAborted
                } else {
                    EventType::ChatError
                },
                payload: o.finish(),
            };
            let code = if cancelled {
                Some(499u16)
            } else {
                None
            };
            (ResponseFrame::failed(id, code, "", e), event)
        },
    }
}

/// The text under `key`, trimmed, where it holds more than white space.
pub open spec fn filled_param(params: JsonView, key: Seq<char>) -> Option<Seq<char>> {
    match params.text_member(key) {
        Some(s) => if is_blank(s) {
            None
        } else {
            Some(trimmed(s))
        },
        None => None,
    }
}

fn get_filled(params: &JsonValue, key: &str) -> (r: Option<String>)
    ensures
        r.deep_view() == filled_param(params@, key@),
{
    match params.get_str(key) {
        Some(s) => {
            let s = s.trim();
            if s.is_empty() {
                None
            } else {
                Some(s.to_owned())
            }
        },
        None => None,
    }
}

/// The turn that `chat.cancel` names; an answer of its own when it names none.
pub fn chat_cancel(request: &RequestFrame) -> (r: Result<String, ResponseFrame>)
    ensures
        match r {
            Ok(run) => filled_param(request.params@, "request_id"@) == Some(run@),
            Err(response) => filled_param(request.params@, "request_id"@) is None && response.id
                == request.id && response.reply@ == ReplyView::Refused(400, "request_id is required"@),
        },
{
    match get_filled(&request.params, "request_id") {
        Some(run) => Ok(run),
        None => Err(ResponseFrame::err(&request.id, 400, "request_id is required")),
    }
}

/// The answer to `chat.cancel`, given whether the turn was running.
pub fn chat_cancel_done(id: &RequestId, run: &str, was_running: bool) -> (r: ResponseFrame)
    ensures
        r.id == *id,
        r.reply@ == if was_running {
            ReplyView::Done(
                JsonView::Object(
                    map![
                        "request_id"@ => JsonView::Text(run@),
                        "status"@ => JsonView::Text("cancelled"@),
                    ],
                ),
            )
        } else {
            ReplyView::Refused(404, "no active chat run with that request_id"@)
        },
{
    if was_running {
        let mut o = JsonObject::new();
        o.put_text("request_id", run);
        o.put_text("status", "cancelled");
        ResponseFrame::ok(id, o.finish())
    } else {
        ResponseFrame::err(id, 404, "no active chat run with that request_id")
    }
}

/// What `webhooks.test` asks for: the mapping and the payload to try; an
/// answer of its own when one of them is missing.
pub fn webhooks_test(request: &RequestFrame) -> (r: Result<(&str, &JsonValue), ResponseFrame>)
    ensures
        match r {
            Ok((mapping_id, payload)) => request.params@.text_member("mapping_id"@) == Some(
                mapping_id@,
            ) && !is_blank(mapping_id@) && request.params@.member("payload"@) == Some(payload@),
            Err(response) => response.id == request.id && if filled_param(
                request.params@,
                "mapping_id"@,
            ) is None {
                response.reply@ == ReplyView::Refused(400, "mapping_id is required"@)
            } else {
                request.params@.member("payload"@) is None && response.reply@ == ReplyView::Refused(
                    400,
                    "payload is required"@,
                )
            },
        },
{
    let mapping_id = match request.params.get_str("mapping_id") {
        Some(id) => id,
        None => {
            return Err(ResponseFrame::err(&request.id, 400, "mapping_id is required"));
        },
    };
    if blank(mapping_id) {
        return Err(ResponseFrame::err(&request.id, 400, "mapping_id is required"));
    }
    match request.params.get("payload") {
        Some(payload) => Ok((mapping_id, payload)),
        None => Err(ResponseFrame::err(&request.id, 400, "payload is required")),
    }
}

/// The answer to `webhooks.test`, given how the turn ended.
pub fn webhooks_test_done(id: &RequestId, outcome: Result<ChatResponse, FrankClawError>) -> (r:
    ResponseFrame)
    ensures
        r.id == *id,
        r.reply@ == match outcome {
            Ok(response) => ReplyView::Done(chat_result(response)),
            Err(e) => ReplyView::Failed(None, ""@, e@),
        },
{
    match outcome {
        Ok(response) => ResponseFrame::ok(id, chat_result_value(&response)),
        Err(e) => ResponseFrame::failed(id, None, "", e),
    }
}

/// The name of a kind of block.
pub open spec fn kind_name(kind: CanvasBlockKind) -> Seq<char> {
    match kind {
        CanvasBlockKind::Markdown => "markdown"@,
        CanvasBlockKind::Code => "code"@,
        CanvasBlockKind::Note => "note"@,
        CanvasBlockKind::Checklist => "checklist"@,
        CanvasBlockKind::Status => "status"@,
        CanvasBlockKind::Metric => "metric"@,
    }
}

fn kind_text(kind: CanvasBlockKind) -> (r: &'static str)
    ensures
        r@ == kind_name(kind),
{
    match kind {
        CanvasBlockKind::Markdown => "markdown",
        CanvasBlockKind::Code => "code",
        CanvasBlockKind::Note => "note",
        CanvasBlockKind::Checklist => "checklist",
        CanvasBlockKind::Status => "status",
        CanvasBlockKind::Metric => "metric",
    }
}

/// The JSON form of a block.
pub open spec fn block_json(b: BlockView) -> JsonView {
    let base = map![
        "kind"@ => JsonView::Text(kind_name(b.kind)),
        "text"@ => JsonView::Text(b.text),
    ];
    JsonView::Object(
        match b.meta {
            Some(meta) => base.insert("meta"@, meta),
            None => base,
        },
    )
}

fn block_value(b: &CanvasBlock) -> (r: JsonValue)
    ensures
        r@ == block_json(b@),
{
    let mut o = JsonObject::new();
    o.put_text("kind", kind_text(b.kind));
    o.put_text("text", b.text.as_str());
    if let Some(meta) = &b.meta {
        o.put("meta", meta.clone());
    }
    o.finish()
}

/// The JSON form of a document, given the text of the time of its last change.
pub open spec fn document_json_with(d: DocumentView, updated: Seq<char>) -> JsonView {
    JsonView::Object(
        map![
            "id"@ => JsonView::Text(d.id),
            "title"@ => JsonView::Text(d.title),
            "body"@ => JsonView::Text(d.body),
            "session_key"@ => optional_text(d.session_key),
            "blocks"@ => JsonView::Array(
                Seq::new(d.blocks.len(), |i: int| block_json(d.blocks[i])),
            ),
            "revision"@ => number(d.revision),
            "updated_at"@ => JsonView::Text(updated),
        ],
    )
}

/// The JSON form of a document.
pub open spec fn document_json(d: DocumentView) -> JsonView {
    document_json_with(d, instant_text(d.updated_at.secs, d.updated_at.nanos))
}

/// The JSON form of a document.
pub fn document_value(d: &CanvasDocument) -> (r: JsonValue)
    requires
        representable(d.updated_at),
    ensures
        r@ == document_json(d@),
{
    document_value_with(d, format_instant(d.updated_at).as_str())
}

/// The JSON form of a document, given the text of the time of its last change.
pub fn document_value_with(d: &CanvasDocument, updated: &str) -> (r: JsonValue)
    ensures
        r@ == document_json_with(d@, updated@),
{
    let mut blocks: Vec<JsonValue> = Vec::new();
    let mut i: usize = 0;
    while i < d.blocks.len()
        invariant
            i <= d.blocks@.len(),
            blocks@.len() == i,
            forall|k: int| 0 <= k < i ==> (#[trigger] blocks@[k])@ == block_json(d.blocks@[k]@),
        decreases d.blocks@.len() - i,
    {
        blocks.push(block_value(&d.blocks[i]));
        i = i + 1;
    }
    proof {
        lemma_items(blocks@);
        assert(items_view(blocks@) =~= Seq::new(
            d@.blocks.len(),
            |i: int| block_json(d@.blocks[i]),
        ));
    }
    let mut o = JsonObject::new();
    o.put_text("id", d.id.as_str());
    o.put_text("title", d.title.as_str());
    o.put_text("body", d.body.as_str());
    o.put("session_key", JsonValue::optional_text(&d.session_key));
    o.put("blocks", JsonValue::Array(blocks));
    o.put_unsigned("revision", d.revision);
    o.put_text("updated_at", updated);
    o.finish()
}

/// The canvas that the parameters name.
pub open spec fn canvas_param(params: JsonView) -> Seq<char> {
    canvas_key(params.text_member("canvas_id"@), params.text_member("session_key"@))
}

/// The canvas that the parameters name.
pub fn canvas_id_from_params(params: &JsonValue) -> (r: String)
    ensures
        r@ == canvas_param(params@),
{
    CanvasStore::key_for(params.get_str("canvas_id"), params.get_str("session_key"))
}

/// The document under `id`, or null.
pub open spec fn found_json(documents: Map<Seq<char>, CanvasDocument>, id: Seq<char>) -> JsonView {
    if documents.dom().contains(id) {
        document_json(documents[id]@)
    } else {
        JsonView::Null
    }
}

/// The answer to `canvas.get`: the document, or null.
pub fn canvas_get(store: &CanvasStore, request: &RequestFrame) -> (r: ResponseFrame)
    requires
        store.wf(),
    ensures
        r.id == request.id,
        r.reply@ == ReplyView::Done(
            JsonView::Object(
                map!["canvas"@ => found_json(store.documents@, canvas_param(request.params@))],
            ),
        ),
{
    let canvas_id = canvas_id_from_params(&request.params);
    let mut o = JsonObject::new();
    match store.get(canvas_id.as_str()) {
        Some(document) => {
            o.put("canvas", document_value(&document));
        },
        None => {
            o.put("canvas", JsonValue::Null);
        },
    }
    ResponseFrame::ok(&request.id, o.finish())
}

/// A character of an export's file name: letters, digits, `-` and `_` stay.
pub open spec fn name_char(c: char) -> char {
    if 'a' <= c <= 'z' || 'A' <= c <= 'Z' || '0' <= c <= '9' || c == '-' || c == '_' {
        c
    } else {
        '-'
    }
}

/// `s` without the hyphens that it begins with.
pub open spec fn unhyphened_start(s: Seq<char>) -> Seq<char>
    decreases s.len(),
{
    if s.len() > 0 && s[0] == '-' {
        unhyphened_start(s.drop_first())
    } else {
        s
    }
}

/// `s` without the hyphens that it ends with.
pub open spec fn unhyphened_end(s: Seq<char>) -> Seq<char>
    decreases s.len(),
{
    if s.len() > 0 && s.last() == '-' {
        unhyphened_end(s.drop_last())
    } else {
        s
    }
}

/// The file name of an export: every other character becomes a hyphen, and no
/// hyphen begins or ends the name; `canvas` when nothing is left.
pub open spec fn export_name(value: Seq<char>) -> Seq<char> {
    let name = unhyphened_end(unhyphened_start(value.map_values(|c: char| name_char(c))));
    if name.len() == 0 {
        "canvas"@
    } else {
        name
    }
}

/// The file name of an export, without its extension.
pub fn sanitize_canvas_export_name(value: &str) -> (r: String)
    ensures
        r@ == export_name(value@),
{
    let source = chars_of(value);
    let mut v: Vec<char> = Vec::new();
    let mut i: usize = 0;
    while i < source.len()
        invariant
            i <= source@.len(),
            v@.len() == i,
            forall|k: int| 0 <= k < i ==> v@[k] == name_char(source@[k]),
        decreases source@.len() - i,
    {
        let c = source[i];
        let keep = ('a' <= c && c <= 'z') || ('A' <= c && c <= 'Z') || ('0' <= c && c <= '9') || c
            == '-' || c == '_';
        v.push(
            if keep {
                c
            } else {
                '-'
            },
        );
        i = i + 1;
    }
    let ghost mapped = value@.map_values(|c: char| name_char(c));
    assert(v@ =~= mapped);
    let mut from: usize = 0;
    assert(mapped.skip(0) =~= mapped);
    while from < v.len() && v[from] == '-'
        invariant
            from <= v@.len(),
            v@ == mapped,
            unhyphened_start(mapped) == unhyphened_start(mapped.skip(from as int)),
        decreases v@.len() - from,
    {
        assert(mapped.skip(from as int).drop_first() =~= mapped.skip(from + 1));
        from = from + 1;
    }
    let ghost middle = unhyphened_start(mapped);
    assert(middle == mapped.skip(from as int));
    let mut to: usize = v.len();
    assert(mapped.subrange(from as int, to as int) =~= middle);
    while from < to && v[to - 1] == '-'
        invariant
            from <= to <= v@.len(),
            v@ == mapped,
            unhyphened_end(middle) == unhyphened_end(mapped.subrange(from as int, to as int)),
        decreases to - from,
    {
        assert(mapped.subrange(from as int, to as int).drop_last() =~= mapped.subrange(
            from as int,
            to - 1,
        ));
        to = to - 1;
    }
    if from == to {
        "canvas".to_owned()
    } else {
        string_of(&v, from, to)
    }
}

/// The answer to `canvas.export`, where `pretty` is the JSON notation of the
/// document.
pub open spec fn export_reply(
    documents: Map<Seq<char>, CanvasDocument>,
    params: JsonView,
    pretty: Seq<char>,
) -> ReplyView {
    if documents.dom().contains(canvas_param(params)) {
        let document = documents[canvas_param(params)]@;
        let format = export_format(params);
        ReplyView::Done(
            JsonView::Object(
                map![
                    "canvas_id"@ => JsonView::Text(document.id),
                    "format"@ => JsonView::Text(format.label_text()),
                    "mime_type"@ => JsonView::Text(
                        match format {
                            CanvasExportFormat::Json => "application/json; charset=utf-8"@,
                            CanvasExportFormat::Markdown => "text/markdown; charset=utf-8"@,
                        },
                    ),
                    "filename"@ => JsonView::Text(
                        export_name(document.id) + "."@ + format.extension_text(),
                    ),
                    "content"@ => JsonView::Text(
                        match format {
                            CanvasExportFormat::Json => pretty,
                            CanvasExportFormat::Markdown => document_markdown(document),
                        },
                    ),
                ],
            ),
        )
    } else {
        ReplyView::Refused(404, "canvas not found"@)
    }
}

/// The form that `canvas.export` asks for.
pub open spec fn export_format(params: JsonView) -> CanvasExportFormat {
    CanvasExportFormat::named(params.text_member("format"@))
}

/// True when `canvas.export` can answer with the text `pretty`: where it would,
/// the text is a JSON notation of the document.
pub open spec fn export_holds(
    documents: Map<Seq<char>, CanvasDocument>,
    params: JsonView,
    pretty: Seq<char>,
) -> bool {
    documents.dom().contains(canvas_param(params)) && export_format(params) is Json
        ==> shows_document(pretty, documents[canvas_param(params)]@)
}

/// The answer to `canvas.export`; nothing where it would be the text `pretty`
/// and that is no JSON notation of the document.
pub fn canvas_export_checked(store: &CanvasStore, request: &RequestFrame, pretty: &str) -> (r: Option<
    ResponseFrame,
>)
    requires
        store.wf(),
    ensures
        r is Some == export_holds(store.documents@, request.params@, pretty@),
        r is Some ==> r->0.id == request.id && r->0.reply@ == export_reply(
            store.documents@,
            request.params@,
            pretty@,
        ),
{
    let canvas_id = canvas_id_from_params(&request.params);
    if let Some(canvas) = store.get(canvas_id.as_str()) {
        let holds = match CanvasExportFormat::parse(request.params.get_str("format")) {
            CanvasExportFormat::Json => is_notation_of(pretty, &canvas),
            CanvasExportFormat::Markdown => true,
        };
        if !holds {
            return None;
        }
    }
    Some(canvas_export(store, request, pretty))
}

/// The answer to `canvas.export`. `pretty` is the indented JSON notation of the
/// document.
pub fn canvas_export(store: &CanvasStore, request: &RequestFrame, pretty: &str) -> (r:
    ResponseFrame)
    requires
        store.wf(),
        export_holds(store.documents@, request.params@, pretty@),
    ensures
        r.id == request.id,
        r.reply@ == export_reply(store.documents@, request.params@, pretty@),
{
    let canvas_id = canvas_id_from_params(&request.params);
    let canvas = match store.get(canvas_id.as_str()) {
        Some(canvas) => canvas,
        None => {
            return ResponseFrame::err(&request.id, 404, "canvas not found");
        },
    };
    let format = CanvasExportFormat::parse(request.params.get_str("format"));
    let filename = cat3(
        sanitize_canvas_export_name(canvas.id.as_str()).as_str(),
        ".",
        format.extension(),
    );
    let content = export_document(&canvas, format, pretty);
    let mut o = JsonObject::new();
    o.put_text("canvas_id", canvas.id.as_str());
    o.put_text("format", format.label());
    o.put_text("mime_type", format.mime_type());
    o.put_text("filename", filename.as_str());
    o.put_text("content", content.as_str());
    ResponseFrame::ok(&request.id, o.finish())
}

/// The trimmed text under `key`; empty where there is none.
pub open spec fn trimmed_param(params: JsonView, key: Seq<char>) -> Seq<char> {
    match params.text_member(key) {
        Some(s) => trimmed(s),
        None => Seq::empty(),
    }
}

fn get_trimmed(params: &JsonValue, key: &str) -> (r: String)
    ensures
        r@ == trimmed_param(params@, key@),
{
    match params.get_str(key) {
        Some(s) => s.trim().to_owned(),
        None => String::new(),
    }
}

/// True when an event tells that a canvas now holds `canvas`.
pub open spec fn canvas_event(event: EventFrame, id: Seq<char>, canvas: JsonView) -> bool {
    &&& event.event == EventType::CanvasUpdated
    &&& event.payload@ == JsonView::Object(
        map!["canvas_id"@ => JsonView::Text(id), "canvas"@ => canvas],
    )
}

/// The event that tells what a canvas now holds.
pub fn broadcast_canvas_update(canvas_id: &str, canvas: Option<&CanvasDocument>) -> (r: EventFrame)
    requires
        canvas is Some ==> representable(canvas->0.updated_at),
    ensures
        canvas_event(
            r,
            canvas_id@,
            match canvas {
                Some(d) => document_json(d@),
                None => JsonView::Null,
            },
        ),
{
    let mut o = JsonObject::new();
    o.put_text("canvas_id", canvas_id);
    match canvas {
        Some(d) => {
            o.put("canvas", document_value(d));
        },
        None => {
            o.put("canvas", JsonValue::Null);
        },
    }
    EventFrame { event: EventType::CanvasUpdated, payload: o.finish() }
}

/// Why `canvas.set` turns a request down, if it does.
pub open spec fn set_refusal(params: JsonView, blocks: Option<Vec<CanvasBlock>>) -> Option<
    ReplyView,
> {
    if blocks is None {
        Some(ReplyView::Refused(400, "invalid canvas blocks payload"@))
    } else if trimmed_param(params, "title"@).len() == 0 && trimmed_param(params, "body"@).len()
        == 0 && blocks->0@.len() == 0 {
        Some(
            ReplyView::Refused(400, "canvas.set requires a non-empty title, body, or blocks"@),
        )
    } else {
        None
    }
}

/// The document that `canvas.set` stores.
pub open spec fn set_document(
    params: JsonView,
    blocks: Seq<BlockView>,
    revision: nat,
    now: Timestamp,
) -> DocumentView {
    DocumentView {
        id: canvas_param(params),
        title: trimmed_param(params, "title"@),
        body: trimmed_param(params, "body"@),
        session_key: params.text_member("session_key"@),
        blocks,
        revision,
        updated_at: now,
    }
}

/// Does `canvas.set`: stores the document and answers with it. `blocks` are
/// the decoded blocks of the request; none when they cannot be decoded.
pub fn canvas_set(
    store: &mut CanvasStore,
    request: &RequestFrame,
    blocks: Option<Vec<CanvasBlock>>,
    now: Timestamp,
) -> (r: (ResponseFrame, Option<EventFrame>))
    requires
        old(store).wf(),
        representable(now),
        next_revision(old(store).documents@, canvas_param(request.params@)) <= u64::MAX,
    ensures
        final(store).wf(),
        r.0.id == request.id,
        match set_refusal(request.params@, blocks) {
            Some(reply) => r.0.reply@ == reply && r.1 is None && *final(store) == *old(store),
            None => {
                let document = set_document(
                    request.params@,
                    blocks->0.deep_view(),
                    next_revision(old(store).documents@, canvas_param(request.params@)),
                    now,
                );
                &&& stored(old(store).documents@, final(store).documents@, document)
                &&& r.0.reply@ == ReplyView::Done(
                    JsonView::Object(map!["canvas"@ => document_json(document)]),
                )
                &&& r.1 is Some
                &&& canvas_event(r.1->0, document.id, document_json(document))
            },
        },
{
    let params = &request.params;
    let title = get_trimmed(params, "title");
    let body = get_trimmed(params, "body");
    let session_key = match params.get_str("session_key") {
        Some(key) => Some(key.to_owned()),
        None => None,
    };
    let canvas_id = canvas_id_from_params(params);
    let blocks = match blocks {
        Some(blocks) => blocks,
        None => {
            return (
                ResponseFrame::err(&request.id, 400, "invalid canvas blocks payload"),
                None,
            );
        },
    };
    if title.as_str().is_empty() && body.as_str().is_empty() && blocks.len() == 0 {
        return (
            ResponseFrame::err(
                &request.id,
                400,
                "canvas.set requires a non-empty title, body, or blocks",
            ),
            None,
        );
    }
    let document = store.set(
        CanvasDocument {
            id: canvas_id,
            title,
            body,
            session_key,
            blocks,
            revision: 0,
            updated_at: now,
        },
    );
    let event = broadcast_canvas_update(document.id.as_str(), Some(&document));
    let mut o = JsonObject::new();
    o.put("canvas", document_value(&document));
    (ResponseFrame::ok(&request.id, o.finish()), Some(event))
}

/// The session that `canvas.patch` sets: null takes the session away.
pub open spec fn session_change_param(params: JsonView) -> Option<Option<Seq<char>>> {
    match params.member("session_key"@) {
        Some(JsonView::Null) => Some(None),
        Some(JsonView::Text(s)) => Some(Some(s)),
        _ => None,
    }
}

/// The revision under `id`; zero when there is no document.
pub open spec fn current_revision(
    documents: Map<Seq<char>, CanvasDocument>,
    id: Seq<char>,
) -> nat {
    if documents.dom().contains(id) {
        documents[id].revision as nat
    } else {
        0
    }
}

/// Why `canvas.patch` turns a request down, if it does. A client may name the
/// revision that it has seen; another one is a conflict.
pub open spec fn patch_refusal(
    documents: Map<Seq<char>, CanvasDocument>,
    params: JsonView,
    blocks: Option<Vec<CanvasBlock>>,
) -> Option<ReplyView> {
    if blocks is None {
        Some(ReplyView::Refused(400, "invalid canvas blocks payload"@))
    } else if params.text_member("title"@) is None && params.text_member("body"@) is None
        && session_change_param(params) is None && blocks->0@.len() == 0 {
        Some(ReplyView::Refused(400, "canvas.patch requires at least one change"@))
    } else if params.unsigned_member("expected_revision"@) is Some && params.unsigned_member(
        "expected_revision"@,
    )->0 != current_revision(documents, canvas_param(params)) {
        Some(ReplyView::Refused(409, "canvas revision conflict"@))
    } else {
        None
    }
}

/// A document after `canvas.patch`.
pub open spec fn patch_document(
    base: DocumentView,
    params: JsonView,
    blocks: Seq<BlockView>,
    now: Timestamp,
) -> DocumentView {
    DocumentView {
        id: base.id,
        title: match params.text_member("title"@) {
            Some(title) => trimmed(title),
            None => base.title,
        },
        body: match params.text_member("body"@) {
            Some(body) => trimmed(body),
            None => base.body,
        },
        session_key: match session_change_param(params) {
            Some(key) => key,
            None => base.session_key,
        },
        blocks: base.blocks + blocks,
        revision: base.revision + 1,
        updated_at: now,
    }
}

fn trimmed_copy(s: Option<&str>) -> (r: Option<String>)
    ensures
        r.deep_view() == match s {
            Some(s) => Some(trimmed(s@)),
            None => None,
        },
{
    match s {
        Some(s) => Some(s.trim().to_owned()),
        None => None,
    }
}

/// Does `canvas.patch`: changes the document and answers with it. `blocks` are
/// the decoded blocks of the request; none when they cannot be decoded.
pub fn canvas_patch(
    store: &mut CanvasStore,
    request: &RequestFrame,
    blocks: Option<Vec<CanvasBlock>>,
    now: Timestamp,
) -> (r: (ResponseFrame, Option<EventFrame>))
    requires
        old(store).wf(),
        representable(now),
        current_revision(old(store).documents@, canvas_param(request.params@)) < u64::MAX,
    ensures
        final(store).wf(),
        r.0.id == request.id,
        match patch_refusal(old(store).documents@, request.params@, blocks) {
            Some(reply) => r.0.reply@ == reply && r.1 is None && *final(store) == *old(store),
            None => {
                let document = patch_document(
                    patch_base(old(store).documents@, canvas_param(request.params@), now),
                    request.params@,
                    blocks->0.deep_view(),
                    now,
                );
                &&& stored(old(store).documents@, final(store).documents@, document)
                &&& r.0.reply@ == ReplyView::Done(
                    JsonView::Object(map!["canvas"@ => document_json(document)]),
                )
                &&& r.1 is Some
                &&& canvas_event(r.1->0, document.id, document_json(document))
            },
        },
{
    let params = &request.params;
    let title = trimmed_copy(params.get_str("title"));
    let body = trimmed_copy(params.get_str("body"));
    let session_key = match params.get("session_key") {
        Some(JsonValue::Null) => Some(None),
        Some(JsonValue::Text(s)) => Some(Some(s.clone())),
        _ => None,
    };
    let append_blocks = match blocks {
        Some(blocks) => blocks,
        None => {
            return (
                ResponseFrame::err(&request.id, 400, "invalid canvas blocks payload"),
                None,
            );
        },
    };
    if title.is_none() && body.is_none() && session_key.is_none() && append_blocks.len() == 0 {
        return (
            ResponseFrame::err(&request.id, 400, "canvas.patch requires at least one change"),
            None,
        );
    }
    let canvas_id = canvas_id_from_params(params);
    if let Some(expected) = params.get_u64("expected_revision") {
        let current: u64 = match store.get(canvas_id.as_str()) {
            Some(document) => document.revision,
            None => 0,
        };
        if expected != current {
            return (ResponseFrame::err(&request.id, 409, "canvas revision conflict"), None);
        }
    }
    let patch = CanvasPatch { title, body, session_key, append_blocks };
    proof {
        let base = patch_base(store.documents@, canvas_id@, now);
        assert(patched(base, patch, now) == patch_document(
            base,
            params@,
            patch.append_blocks.deep_view(),
            now,
        ));
    }
    let document = store.patch(canvas_id.as_str(), patch, now);
    let event = broadcast_canvas_update(document.id.as_str(), Some(&document));
    let mut o = JsonObject::new();
    o.put("canvas", document_value(&document));
    (ResponseFrame::ok(&request.id, o.finish()), Some(event))
}

/// Does `canvas.clear`: removes the document.
pub fn canvas_clear(store: &mut CanvasStore, request: &RequestFrame) -> (r: (
    ResponseFrame,
    EventFrame,
))
    requires
        old(store).wf(),
    ensures
        final(store).wf(),
        final(store).documents@ == old(store).documents@.remove(canvas_param(request.params@)),
        r.0.id == request.id,
        r.0.reply@ == ReplyView::Done(
            JsonView::Object(
                map![
                    "cleared"@ => JsonView::Bool(true),
                    "canvas_id"@ => JsonView::Text(canvas_param(request.params@)),
                ],
            ),
        ),
        canvas_event(r.1, canvas_param(request.params@), JsonView::Null),
{
    let canvas_id = canvas_id_from_params(&request.params);
    store.clear(canvas_id.as_str());
    let event = broadcast_canvas_update(canvas_id.as_str(), None);
    let mut o = JsonObject::new();
    o.put_bool("cleared", true);
    o.put_text("canvas_id", canvas_id.as_str());
    (ResponseFrame::ok(&request.id, o.finish()), event)
}

/// What `usage.get` asks for: like `sessions.list`, but 200 sessions at most.
pub fn usage_get(request: &RequestFrame) -> (r: SessionPage)
    ensures
        r.agent_id@ == agent_or_default(request.params@),
        r.limit == match request.params@.unsigned_member("limit"@) {
            Some(n) => if n < 200 {
                n as usize
            } else {
                200usize
            },
            None => 50usize,
        },
        r.offset == size_param(request.params@, "offset"@, 0),
{
    let limit: u64 = match request.params.get_u64("limit") {
        Some(n) => n,
        None => 50,
    };
    let limit: u64 = if limit < 200 {
        limit
    } else {
        200
    };
    SessionPage {
        agent_id: get_agent_or_default(&request.params),
        limit: limit as usize,
        offset: get_size(&request.params, "offset", 0),
    }
}

/// A session as `usage.get` reads it. The costs are computed by the caller.
#[derive(Debug)]
pub struct SessionUsage {
    pub key: SessionKey,
    pub channel: String,
    pub created_at: JsonValue,
    pub last_message_at: JsonValue,
    pub metadata: JsonValue,
    pub cost_usd: JsonValue,
}

/// A counter in a session's metadata; zero where there is none.
pub open spec fn counter(metadata: JsonView, key: Seq<char>) -> nat {
    match metadata.unsigned_member(key) {
        Some(n) => n,
        None => 0,
    }
}

fn get_counter(metadata: &JsonValue, key: &str) -> (r: u64)
    ensures
        r == counter(metadata@, key@),
{
    match metadata.get_u64(key) {
        Some(n) => n,
        None => 0,
    }
}

/// A counter summed over sessions.
pub open spec fn counter_sum(sessions: Seq<SessionUsage>, key: Seq<char>) -> nat
    decreases sessions.len(),
{
    if sessions.len() == 0 {
        0
    } else {
        counter_sum(sessions.drop_last(), key) + counter(sessions.last().metadata@, key)
    }
}

proof fn lemma_counter_sum(sessions: Seq<SessionUsage>, key: Seq<char>, i: int)
    requires
        0 <= i < sessions.len(),
    ensures
        counter_sum(sessions.take(i + 1), key) == counter_sum(sessions.take(i), key) + counter(
            sessions[i].metadata@,
            key,
        ),
        counter_sum(sessions.take(i + 1), key) <= counter_sum(sessions, key),
    decreases sessions.len() - i,
{
    assert(sessions.take(i + 1).drop_last() =~= sessions.take(i));
    if i + 1 < sessions.len() {
        lemma_counter_sum(sessions, key, i + 1);
    } else {
        assert(sessions.take(i + 1) =~= sessions);
    }
}

/// The model that a session used last.
pub open spec fn last_model(metadata: JsonView) -> Seq<char> {
    match metadata.text_member("last_model"@) {
        Some(model) => model,
        None => ""@,
    }
}

/// The line of a session in a usage report.
pub open spec fn usage_line(s: SessionUsage) -> JsonView {
    let input = counter(s.metadata@, "total_input_tokens"@);
    let output = counter(s.metadata@, "total_output_tokens"@);
    JsonView::Object(
        map![
            "session_key"@ => JsonView::Text(s.key@),
            "channel"@ => JsonView::Text(s.channel@),
            "created_at"@ => s.created_at@,
            "last_message_at"@ => s.last_message_at@,
            "input_tokens"@ => number(input),
            "output_tokens"@ => number(output),
            "total_tokens"@ => number(input + output),
            "turns"@ => number(counter(s.metadata@, "total_turns"@)),
            "cost_usd"@ => s.cost_usd@,
            "last_model"@ => JsonView::Text(last_model(s.metadata@)),
        ],
    )
}

/// A usage report.
pub open spec fn usage_report(sessions: Seq<SessionUsage>, total_cost: JsonView) -> JsonView {
    let input = counter_sum(sessions, "total_input_tokens"@);
    let output = counter_sum(sessions, "total_output_tokens"@);
    JsonView::Object(
        map![
            "sessions"@ => JsonView::Array(
                Seq::new(sessions.len(), |i: int| usage_line(sessions[i])),
            ),
            "totals"@ => JsonView::Object(
                map![
                    "input_tokens"@ => number(input),
                    "output_tokens"@ => number(output),
                    "total_tokens"@ => number(input + output),
                    "turns"@ => number(counter_sum(sessions, "total_turns"@)),
                    "cost_usd"@ => total_cost,
                ],
            ),
            "count"@ => number(sessions.len()),
        ],
    )
}

fn usage_line_value(s: &SessionUsage) -> (r: JsonValue)
    requires
        counter(s.metadata@, "total_input_tokens"@) + counter(s.metadata@, "total_output_tokens"@)
            <= u64::MAX,
    ensures
        r@ == usage_line(*s),
{
    let input: u64 = get_counter(&s.metadata, "total_input_tokens");
    let output: u64 = get_counter(&s.metadata, "total_output_tokens");
    let mut o = JsonObject::new();
    o.put_text("session_key", s.key.as_str());
    o.put_text("channel", s.channel.as_str());
    o.put("created_at", s.created_at.clone());
    o.put("last_message_at", s.last_message_at.clone());
    o.put_unsigned("input_tokens", input);
    o.put_unsigned("output_tokens", output);
    o.put_unsigned("total_tokens", input + output);
    o.put_unsigned("turns", get_counter(&s.metadata, "total_turns"));
    o.put("cost_usd", s.cost_usd.clone());
    o.put_text(
        "last_model",
        match s.metadata.get_str("last_model") {
            Some(model) => model,
            None => "",
        },
    );
    o.finish()
}

/// The answer to `usage.get`: a line for each session, and the totals.
pub fn usage_get_done(
    id: &RequestId,
    sessions: &Vec<SessionUsage>,
    total_cost: JsonValue,
) -> (r: ResponseFrame)
    requires
        counter_sum(sessions@, "total_input_tokens"@) + counter_sum(
            sessions@,
            "total_output_tokens"@,
        ) <= u64::MAX,
        counter_sum(sessions@, "total_turns"@) <= u64::MAX,
    ensures
        r.id == *id,
        r.reply@ == ReplyView::Done(usage_report(sessions@, total_cost@)),
{
    let mut lines: Vec<JsonValue> = Vec::new();
    let mut input: u64 = 0;
    let mut output: u64 = 0;
    let mut turns: u64 = 0;
    let mut i: usize = 0;
    while i < sessions.len()
        invariant
            i <= sessions@.len(),
            counter_sum(sessions@, "total_input_tokens"@) + counter_sum(
                sessions@,
                "total_output_tokens"@,
            ) <= u64::MAX,
            counter_sum(sessions@, "total_turns"@) <= u64::MAX,
            input == counter_sum(sessions@.take(i as int), "total_input_tokens"@),
            output == counter_sum(sessions@.take(i as int), "total_output_tokens"@),
            turns == counter_sum(sessions@.take(i as int), "total_turns"@),
            lines@.len() == i,
            forall|k: int| 0 <= k < i ==> (#[trigger] lines@[k])@ == usage_line(sessions@[k]),
        decreases sessions@.len() - i,
    {
        proof {
            lemma_counter_sum(sessions@, "total_input_tokens"@, i as int);
            lemma_counter_sum(sessions@, "total_output_tokens"@, i as int);
            lemma_counter_sum(sessions@, "total_turns"@, i as int);
        }
        let s = &sessions[i];
        lines.push(usage_line_value(s));
        input = input + get_counter(&s.metadata, "total_input_tokens");
        output = output + get_counter(&s.metadata, "total_output_tokens");
        turns = turns + get_counter(&s.metadata, "total_turns");
        i = i + 1;
    }
    let count: u64 = lines.len() as u64;
    proof {
        assert(sessions@.take(i as int) =~= sessions@);
        lemma_items(lines@);
        assert(items_view(lines@) =~= Seq::new(sessions@.len(), |i: int| usage_line(sessions@[i])));
    }
    let mut totals = JsonObject::new();
    totals.put_unsigned("input_tokens", input);
    totals.put_unsigned("output_tokens", output);
    totals.put_unsigned("total_tokens", input + output);
    totals.put_unsigned("turns", turns);
    totals.put("cost_usd", total_cost);
    let mut o = JsonObject::new();
    o.put("sessions", JsonValue::Array(lines));
    o.put("totals", totals.finish());
    o.put_unsigned("count", count);
    ResponseFrame::ok(id, o.finish())
}

/// What a user decides about a tool call.
#[derive(Clone, Copy, Debug, PartialEq, Eq, Structural)]
pub enum ApprovalDecision {
    AllowOnce,
    AllowAlways,
    Deny,
}

/// The decision of a given name.
pub open spec fn decision_named(name: Seq<char>) -> Option<ApprovalDecision> {
    if name == "allow_once"@ {
        Some(ApprovalDecision::AllowOnce)
    } else if name == "allow_always"@ {
        Some(ApprovalDecision::AllowAlways)
    } else if name == "deny"@ {
        Some(ApprovalDecision::Deny)
    } else {
        None
    }
}

/// A decision on a tool call that a client sent.
#[derive(Debug)]
pub struct ApprovalAnswer {
    pub approval_id: String,
    pub decision: ApprovalDecision,
    pub decision_name: String,
}

/// Why `tool.approval.resolve` turns a request down, if it does.
pub open spec fn approval_refusal(params: JsonView) -> Option<ReplyView> {
    if filled_param(params, "approval_id"@) is None {
        Some(ReplyView::Refused(400, "approval_id is required"@))
    } else if params.text_member("decision"@) is None {
        Some(ReplyView::Refused(400, "decision is required"@))
    } else if decision_named(params.text_member("decision"@)->0) is None {
        Some(
            ReplyView::Refused(400, "decision must be 'allow_once', 'allow_always', or 'deny'"@),
        )
    } else {
        None
    }
}

/// What `tool.approval.resolve` decides, or the answer when it decides nothing.
pub fn tool_approval_resolve(request: &RequestFrame) -> (r: Result<ApprovalAnswer, ResponseFrame>)
    ensures
        match r {
            Ok(answer) => approval_refusal(request.params@) is None && filled_param(
                request.params@,
                "approval_id"@,
            ) == Some(answer.approval_id@) && request.params@.text_member("decision"@) == Some(
                answer.decision_name@,
            ) && decision_named(answer.decision_name@) == Some(answer.decision),
            Err(response) => response.id == request.id && approval_refusal(request.params@) == Some(
                response.reply@,
            ),
        },
{
    let approval_id = match get_filled(&request.params, "approval_id") {
        Some(id) => id,
        None => {
            return Err(ResponseFrame::err(&request.id, 400, "approval_id is required"));
        },
    };
    let name = match request.params.get_str("decision") {
        Some(name) => name,
        None => {
            return Err(ResponseFrame::err(&request.id, 400, "decision is required"));
        },
    };
    let decision = if str_eq(name, "allow_once") {
        ApprovalDecision::AllowOnce
    } else if str_eq(name, "allow_always") {
        ApprovalDecision::AllowAlways
    } else if str_eq(name, "deny") {
        ApprovalDecision::Deny
    } else {
        return Err(
            ResponseFrame::err(
                &request.id,
                400,
                "decision must be 'allow_once', 'allow_always', or 'deny'",
            ),
        );
    };
    Ok(ApprovalAnswer { approval_id, decision, decision_name: name.to_owned() })
}

/// What became of a decision on a tool call.
#[derive(Clone, Copy, Debug, PartialEq, Eq, Structural)]
pub enum ApprovalOutcome {
    /// The tool call took it.
    Taken,
    /// The tool call no longer waits.
    Expired,
    /// No tool call waits under that name.
    Unknown,
}

/// The JSON form of a decision on a tool call.
pub open spec fn approval_json(answer: ApprovalAnswer) -> JsonView {
    JsonView::Object(
        map![
            "approval_id"@ => JsonView::Text(answer.approval_id@),
            "decision"@ => JsonView::Text(answer.decision_name@),
        ],
    )
}

/// The answer to `tool.approval.resolve` and the event that goes with it.
pub fn tool_approval_done(id: &RequestId, answer: &ApprovalAnswer, outcome: ApprovalOutcome) -> (r:
    (ResponseFrame, Option<EventFrame>))
    ensures
        r.0.id == *id,
        match outcome {
            ApprovalOutcome::Taken => r.0.reply@ == ReplyView::Done(approval_json(*answer))
                && r.1 is Some && r.1->0.event == EventType::ToolApprovalResolved
                && r.1->0.payload@ == approval_json(*answer),
            ApprovalOutcome::Expired => r.0.reply@ == ReplyView::Refused(
                410,
                "approval request already expired"@,
            ) && r.1 is None,
            ApprovalOutcome::Unknown => r.0.reply@ == ReplyView::Refused(
                404,
                "no pending approval with that ID"@,
            ) && r.1 is None,
        },
{
    match outcome {
        ApprovalOutcome::Taken => {
            let mut o = JsonObject::new();
            o.put_text("approval_id", answer.approval_id.as_str());
            o.put_text("decision", answer.decision_name.as_str());
            let payload = o.finish();
            let event = EventFrame {
                event: EventType::ToolApprovalResolved,
                payload: payload.clone(),
            };
            (ResponseFrame::ok(id, payload), Some(event))
        },
        ApprovalOutcome::Expired => (
            ResponseFrame::err(id, 410, "approval request already expired"),
            None,
        ),
        ApprovalOutcome::Unknown => (
            ResponseFrame::err(id, 404, "no pending approval with that ID"),
            None,
        ),
    }
}

/// A session's metadata after a patch: where both are objects, the patch's
/// members over the old ones; else the patch.
pub open spec fn merged_metadata(metadata: JsonView, patch: JsonView) -> JsonView {
    match (metadata, patch) {
        (JsonView::Object(old_members), JsonView::Object(new_members)) => JsonView::Object(
            old_members.union_prefer_right(new_members),
        ),
        _ => patch,
    }
}

/// A session's metadata after a patch.
pub fn merge_metadata(metadata: JsonValue, patch: &JsonValue) -> (r: JsonValue)
    ensures
        r@ == merged_metadata(metadata@, patch@),
{
    match (metadata, patch) {
        (JsonValue::Object(members), JsonValue::Object(incoming)) => {
            let ghost base = crate::json::members_view(members@);
            let mut o = JsonObject { members };
            let mut i: usize = 0;
            assert(base.union_prefer_right(crate::json::members_view(incoming@.take(0))) =~= base);
            while i < incoming.len()
                invariant
                    i <= incoming@.len(),
                    o@ == base.union_prefer_right(
                        crate::json::members_view(incoming@.take(i as int)),
                    ),
                decreases incoming@.len() - i,
            {
                let ghost before = o@;
                o.put(incoming[i].0.as_str(), incoming[i].1.clone());
                proof {
                    let m = incoming@[i as int];
                    crate::json::lemma_members_push(incoming@.take(i as int), m);
                    assert(incoming@.take(i as int).push(m) =~= incoming@.take(i + 1));
                    assert(o@ =~= base.union_prefer_right(
                        crate::json::members_view(incoming@.take(i + 1)),
                    ));
                }
                i = i + 1;
            }
            assert(incoming@.take(i as int) =~= incoming@);
            o.finish()
        },
        (_, patch) => patch.clone(),
    }
}

/// The patch that `sessions.patch` asks for, once the session is found; an
/// answer of its own when the session or the patch is missing.
pub fn sessions_patch<'a>(
    request: &'a RequestFrame,
    found: Result<Option<JsonValue>, FrankClawError>,
) -> (r: Result<JsonValue, ResponseFrame>)
    ensures
        match found {
            Ok(Some(metadata)) => match request.params@.member("patch"@) {
                Some(patch) => if patch is Object {
                    r is Ok && r->Ok_0@ == merged_metadata(metadata@, patch)
                } else {
                    r is Err && r->Err_0.id == request.id && r->Err_0.reply@ == ReplyView::Refused(
                        400,
                        "patch object is required"@,
                    )
                },
                None => r is Err && r->Err_0.id == request.id && r->Err_0.reply@
                    == ReplyView::Refused(400, "patch object is required"@),
            },
            Ok(None) => r is Err && r->Err_0.id == request.id && r->Err_0.reply@
                == ReplyView::Refused(404, "session not found"@),
            Err(e) => r is Err && r->Err_0.id == request.id && r->Err_0.reply@
                == ReplyView::Failed(Some(500u16), ""@, e@),
        },
{
    let metadata = match found {
        Ok(Some(metadata)) => metadata,
        Ok(None) => {
            return Err(ResponseFrame::err(&request.id, 404, "session not found"));
        },
        Err(e) => {
            return Err(ResponseFrame::failed(&request.id, Some(500), "", e));
        },
    };
    match request.params.get("patch") {
        Some(patch) => {
            if patch.is_object() {
                Ok(merge_metadata(metadata, patch))
            } else {
                Err(ResponseFrame::err(&request.id, 400, "patch object is required"))
            }
        },
        None => Err(ResponseFrame::err(&request.id, 400, "patch object is required")),
    }
}

/// The answer to `sessions.patch` and the event that goes with it, given the
/// session as it was stored.
pub fn sessions_patch_done(
    id: &RequestId,
    key: &SessionKey,
    outcome: Result<JsonValue, FrankClawError>,
) -> (r: (ResponseFrame, Option<EventFrame>))
    ensures
        r.0.id == *id,
        r.0.reply@ == value_reply("session"@, outcome),
        match outcome {
            Ok(_) => r.1 is Some && session_event(r.1->0, key@, "patched"@),
            Err(_) => r.1 is None,
        },
{
    let event = match &outcome {
        Ok(_) => Some(session_updated(key.as_str(), "patched")),
        Err(_) => None,
    };
    (reply_with(id, "session", outcome), event)
}

/// What became of a session that was compacted.
#[derive(Clone, Copy, Debug, PartialEq, Eq, Structural)]
pub struct CompactionResult {
    pub pruned_count: u64,
    pub has_summary: bool,
    pub estimated_tokens_before: u64,
    pub estimated_tokens_after: u64,
}

/// What `sessions.compact` asks for; an answer of its own when it names no
/// session.
pub fn sessions_compact(request: &RequestFrame) -> (r: Result<
    (SessionKey, Option<AgentId>),
    ResponseFrame,
>)
    ensures
        match r {
            Ok((key, agent)) => session_param(request.params@) == Some(key@) && agent.deep_view()
                == agent_param(request.params@),
            Err(response) => session_param(request.params@) is None && response.id == request.id
                && response.reply@ == ReplyView::Refused(400, "session_key is required"@),
        },
{
    let key = parse_session_key_param(request)?;
    Ok((key, get_agent(&request.params)))
}

/// The answer to `sessions.compact` and the event that goes with it.
pub fn sessions_compact_done(
    id: &RequestId,
    key: &SessionKey,
    outcome: Result<CompactionResult, FrankClawError>,
) -> (r: (ResponseFrame, Option<EventFrame>))
    ensures
        r.0.id == *id,
        match outcome {
            Ok(result) => r.1 is Some && session_event(r.1->0, key@, "compacted"@) && r.0.reply@
                == ReplyView::Done(
                JsonView::Object(
                    map![
                        "status"@ => JsonView::Text("ok"@),
                        "pruned_count"@ => number(result.pruned_count as nat),
                        "has_summary"@ => JsonView::Bool(result.has_summary),
                        "estimated_tokens_before"@ => number(
                            result.estimated_tokens_before as nat,
                        ),
                        "estimated_tokens_after"@ => number(result.estimated_tokens_after as nat),
                    ],
                ),
            ),
            Err(e) => r.1 is None && r.0.reply@ == ReplyView::Failed(
                Some(500u16),
                "compaction failed: "@,
                e@,
            ),
        },
{
    match outcome {
        Ok(result) => {
            let mut o = JsonObject::new();
            o.put_text("status", "ok");
            o.put_unsigned("pruned_count", result.pruned_count);
            o.put_bool("has_summary", result.has_summary);
            o.put_unsigned("estimated_tokens_before", result.estimated_tokens_before);
            o.put_unsigned("estimated_tokens_after", result.estimated_tokens_after);
            (
                ResponseFrame::ok(id, o.finish()),
                Some(session_updated(key.as_str(), "compacted")),
            )
        },
        Err(e) => (ResponseFrame::failed(id, Some(500), "compaction failed: ", e), None),
    }
}

/// The answer where there is no cron service.
pub fn cron_unavailable(id: &RequestId) -> (r: ResponseFrame)
    ensures
        r.id == *id,
        r.reply@ == ReplyView::Refused(503, "cron service not available"@),
{
    ResponseFrame::err(id, 503, "cron service not available")
}

/// The answer to `cron.list`.
pub fn cron_list(id: &RequestId, jobs: Vec<JsonValue>) -> (r: ResponseFrame)
    ensures
        r.id == *id,
        r.reply@ == ReplyView::Done(
            JsonView::Object(map!["jobs"@ => JsonView::Array(items_view(jobs@))]),
        ),
{
    reply_with(id, "jobs", Ok(JsonValue::Array(jobs)))
}

/// A job that a client wants to add.
#[derive(Debug)]
pub struct NewCronJob {
    pub id: String,
    pub schedule: String,
    pub agent_id: String,
    pub session_key: String,
    pub prompt: String,
}

/// The text under `key`, or what stands in for it.
pub open spec fn text_or(params: JsonView, key: Seq<char>, default: Seq<char>) -> Seq<char> {
    match params.text_member(key) {
        Some(s) => s,
        None => default,
    }
}

fn get_text_or<'a>(params: &'a JsonValue, key: &str, default: &'a str) -> (r: &'a str)
    ensures
        r@ == text_or(params@, key@, default@),
{
    match params.get_str(key) {
        Some(s) => s,
        None => default,
    }
}

/// The session of a new job: the one that is named, else one of its own.
pub open spec fn cron_session(
    session_key: Seq<char>,
    agent_id: Seq<char>,
    id: Seq<char>,
) -> Seq<char> {
    if session_key.len() == 0 {
        agent_id + ":cron:"@ + id
    } else {
        session_key
    }
}

/// What `cron.add` asks for; an answer of its own when the schedule or the
/// prompt is missing. `now_millis` names the job where the client does not.
pub fn cron_add(request: &RequestFrame, now_millis: u64) -> (r: Result<NewCronJob, ResponseFrame>)
    ensures
        match r {
            Ok(job) => {
                let params = request.params@;
                let id = text_or(params, "id"@, "job-"@ + decimal(now_millis as nat));
                let agent = text_or(params, "agent_id"@, "default"@);
                &&& filled_param(params, "schedule"@) == Some(job.schedule@)
                &&& filled_param(params, "prompt"@) == Some(job.prompt@)
                &&& job.id@ == id
                &&& job.agent_id@ == agent
                &&& job.session_key@ == cron_session(
                    text_or(params, "session_key"@, ""@),
                    agent,
                    id,
                )
            },
            Err(response) => response.id == request.id && if filled_param(
                request.params@,
                "schedule"@,
            ) is None {
                response.reply@ == ReplyView::Refused(400, "schedule is required"@)
            } else {
                filled_param(request.params@, "prompt"@) is None && response.reply@
                    == ReplyView::Refused(400, "prompt is required"@)
            },
        },
{
    let params = &request.params;
    let schedule = match get_filled(params, "schedule") {
        Some(s) => s,
        None => {
            return Err(ResponseFrame::err(&request.id, 400, "schedule is required"));
        },
    };
    let prompt = match get_filled(params, "prompt") {
        Some(s) => s,
        None => {
            return Err(ResponseFrame::err(&request.id, 400, "prompt is required"));
        },
    };
    let made_up = crate::text::cat2("job-", decimal_of(now_millis).as_str());
    let agent_id = get_text_or(params, "agent_id", "default");
    let session_key = get_text_or(params, "session_key", "");
    let id = get_text_or(params, "id", made_up.as_str());
    let session = if session_key.is_empty() {
        cat3(agent_id, ":cron:", id)
    } else {
        session_key.to_owned()
    };
    Ok(
        NewCronJob {
            id: id.to_owned(),
            schedule,
            agent_id: agent_id.to_owned(),
            session_key: session,
            prompt,
        },
    )
}

/// The answer to `cron.add`.
pub fn cron_add_done(id: &RequestId, job_id: &str, done: Result<(), FrankClawError>) -> (r:
    ResponseFrame)
    ensures
        r.id == *id,
        r.reply@ == match done {
            Ok(_) => ReplyView::Done(
                JsonView::Object(
                    map!["status"@ => JsonView::Text("ok"@), "id"@ => JsonView::Text(job_id@)],
                ),
            ),
            Err(e) => ReplyView::Failed(Some(400u16), "failed to add job: "@, e@),
        },
{
    match done {
        Ok(_) => {
            let mut o = JsonObject::new();
            o.put_text("status", "ok");
            o.put_text("id", job_id);
            ResponseFrame::ok(id, o.finish())
        },
        Err(e) => ResponseFrame::failed(id, Some(400), "failed to add job: ", e),
    }
}

/// The job that a request names; an answer of its own when it names none.
pub fn cron_job_param(request: &RequestFrame) -> (r: Result<String, ResponseFrame>)
    ensures
        match r {
            Ok(id) => filled_param(request.params@, "id"@) == Some(id@),
            Err(response) => filled_param(request.params@, "id"@) is None && response.id
                == request.id && response.reply@ == ReplyView::Refused(400, "id is required"@),
        },
{
    match get_filled(&request.params, "id") {
        Some(id) => Ok(id),
        None => Err(ResponseFrame::err(&request.id, 400, "id is required")),
    }
}

/// The answer to `cron.remove`, given whether there was such a job.
pub fn cron_remove(id: &RequestId, existed: Result<bool, FrankClawError>) -> (r: ResponseFrame)
    ensures
        r.id == *id,
        r.reply@ == match existed {
            Ok(existed) => ReplyView::Done(
                JsonView::Object(
                    map!["status"@ => JsonView::Text("ok"@), "existed"@ => JsonView::Bool(existed)],
                ),
            ),
            Err(e) => ReplyView::Failed(Some(500u16), "failed to remove job: "@, e@),
        },
{
    match existed {
        Ok(existed) => {
            let mut o = JsonObject::new();
            o.put_text("status", "ok");
            o.put_bool("existed", existed);
            ResponseFrame::ok(id, o.finish())
        },
        Err(e) => ResponseFrame::failed(id, Some(500), "failed to remove job: ", e),
    }
}

/// The index of the first job of a given name; the length when there is none.
pub open spec fn job_index(jobs: Seq<crate::config::CronJob>, id: Seq<char>, i: int) -> int
    decreases jobs.len() - i,
{
    if i < 0 || i >= jobs.len() {
        jobs.len() as int
    } else if jobs[i].id@ == id {
        i
    } else {
        job_index(jobs, id, i + 1)
    }
}

/// Does `cron.run`: the turn that the named job asks for, and the answer that
/// it was started; or the answer that there is no such job.
pub fn cron_run(id: &RequestId, job_id: &str, jobs: &Vec<crate::config::CronJob>) -> (r: (
    ResponseFrame,
    Option<ChatRequest>,
))
    ensures
        r.0.id == *id,
        ({
            let i = job_index(jobs@, job_id@, 0);
            if i < jobs@.len() {
                &&& r.0.reply@ == ReplyView::Done(
                    JsonView::Object(
                        map![
                            "status"@ => JsonView::Text("triggered"@),
                            "id"@ => JsonView::Text(job_id@),
                        ],
                    ),
                )
                &&& r.1 is Some
                &&& r.1->0.agent_id == Some(jobs@[i].agent_id)
                &&& r.1->0.session_key == Some(jobs@[i].session_key)
                &&& r.1->0.message == jobs@[i].prompt
                &&& r.1->0.is_plain()
            } else {
                r.0.reply@ == ReplyView::Refused(404, "job not found"@) && r.1 is None
            }
        }),
{
    let mut i: usize = 0;
    while i < jobs.len()
        invariant
            i <= jobs@.len(),
            job_index(jobs@, job_id@, 0) == job_index(jobs@, job_id@, i as int),
        decreases jobs@.len() - i,
    {
        let job = &jobs[i];
        if str_eq(job.id.as_str(), job_id) {
            let mut o = JsonObject::new();
            o.put_text("status", "triggered");
            o.put_text("id", job_id);
            return (
                ResponseFrame::ok(id, o.finish()),
                Some(
                    ChatRequest::plain(
                        Some(job.agent_id.clone()),
                        Some(job.session_key.clone()),
                        job.prompt.clone(),
                    ),
                ),
            );
        }
        i = i + 1;
    }
    (ResponseFrame::err(id, 404, "job not found"), None)
}

/// The event that tells how a job that a client started went.
pub fn cron_run_done(job_id: &str, succeeded: bool) -> (r: EventFrame)
    ensures
        r.event == EventType::CronRun,
        r.payload@ == JsonView::Object(
            map![
                "job_id"@ => JsonView::Text(job_id@),
                "status"@ => JsonView::Text(
                    if succeeded {
                        "success"@
                    } else {
                        "failed"@
                    },
                ),
            ],
        ),
{
    let mut o = JsonObject::new();
    o.put_text("job_id", job_id);
    o.put_text(
        "status",
        if succeeded {
            "success"
        } else {
            "failed"
        },
    );
    EventFrame { event: EventType::CronRun, payload: o.finish() }
}

/// A patch of a session's metadata sets what it names and keeps the rest.
pub proof fn law_patch_keeps_other_metadata(metadata: JsonView, patch: JsonView, key: Seq<char>)
    requires
        metadata is Object,
        patch is Object,
    ensures
        patch.member(key) is Some ==> merged_metadata(metadata, patch).member(key)
            == patch.member(key),
        patch.member(key) is None ==> merged_metadata(metadata, patch).member(key)
            == metadata.member(key),
{
}

} // verus!
