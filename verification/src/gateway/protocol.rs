//! The frames that clients and the gateway exchange.

use crate::error::{ErrorView, FrankClawError};
use crate::json::{number, JsonObject, JsonValue, JsonView};
use crate::types::RequestId;
use vstd::prelude::*;

verus! {

/// A request of a client.
#[derive(Debug)]
pub struct RequestFrame {
    pub id: RequestId,
    pub params: JsonValue,
}

/// What a request is answered.
#[derive(Debug)]
pub enum Reply {
    /// The result.
    Done(JsonValue),
    /// An error of the request itself.
    Refused { code: u16, message: String },
    /// A failure behind the request: `prefix`, then the error's own text; the
    /// error's own code where none is given.
    Failed { status: Option<u16>, prefix: String, error: FrankClawError },
}

/// What a reply says.
pub enum ReplyView {
    Done(JsonView),
    Refused(u16, Seq<char>),
    Failed(Option<u16>, Seq<char>, ErrorView),
}

impl View for Reply {
    type V = ReplyView;

    open spec fn view(&self) -> ReplyView {
        match self {
            Reply::Done(j) => ReplyView::Done(j@),
            Reply::Refused { code, message } => ReplyView::Refused(*code, message@),
            Reply::Failed { status, prefix, error } => ReplyView::Failed(*status, prefix@, error@),
        }
    }
}

/// The answer to a request.
#[derive(Debug)]
pub struct ResponseFrame {
    pub id: RequestId,
    pub reply: Reply,
}

impl ResponseFrame {
    /// The answer `result`.
    pub fn ok(id: &RequestId, result: JsonValue) -> (r: ResponseFrame)
        ensures
            r.id == *id,
            r.reply@ == ReplyView::Done(result@),
    {
        ResponseFrame { id: id.clone(), reply: Reply::Done(result) }
    }

    /// The error `message`.
    pub fn err(id: &RequestId, code: u16, message: &str) -> (r: ResponseFrame)
        ensures
            r.id == *id,
            r.reply@ == ReplyView::Refused(code, message@),
    {
        ResponseFrame { id: id.clone(), reply: Reply::Refused { code, message: message.to_owned() } }
    }

    /// The failure `error`.
    pub fn failed(id: &RequestId, status: Option<u16>, prefix: &str, error: FrankClawError) -> (r:
        ResponseFrame)
        ensures
            r.id == *id,
            r.reply@ == ReplyView::Failed(status, prefix@, error@),
    {
        ResponseFrame {
            id: id.clone(),
            reply: Reply::Failed { status, prefix: prefix.to_owned(), error },
        }
    }
}

/// What an event tells of.
#[derive(Clone, Copy, Debug, PartialEq, Eq, Structural)]
pub enum EventType {
    ChatDelta,
    ChatComplete,
    ChatError,
    ChatAborted,
    SessionUpdated,
    CanvasUpdated,
    ChannelHealth,
    ConfigChanged,
    CronRun,
    ToolApprovalRequested,
    ToolApprovalResolved,
}

/// A message of the gateway to its clients.
#[derive(Debug)]
pub struct EventFrame {
    pub event: EventType,
    pub payload: JsonValue,
}

/// The JSON form of a request identifier.
pub open spec fn id_json(id: RequestId) -> JsonView {
    match id {
        RequestId::Number(n) => number(n as nat),
        RequestId::Text(s) => JsonView::Text(s@),
    }
}

/// The JSON form of a request identifier.
pub fn id_value(id: &RequestId) -> (r: JsonValue)
    ensures
        r@ == id_json(*id),
{
    match id {
        RequestId::Number(n) => JsonValue::unsigned(*n),
        RequestId::Text(s) => JsonValue::text(s.as_str()),
    }
}

/// The event that tells what happened to a session.
pub open spec fn session_event(event: EventFrame, key: Seq<char>, action: Seq<char>) -> bool {
    &&& event.event == EventType::SessionUpdated
    &&& event.payload@ == JsonView::Object(
        map!["session_key"@ => JsonView::Text(key), "action"@ => JsonView::Text(action)],
    )
}

/// The event that tells what happened to a session.
pub fn session_updated(key: &str, action: &str) -> (r: EventFrame)
    ensures
        session_event(r, key@, action@),
{
    let mut o = JsonObject::new();
    o.put_text("session_key", key);
    o.put_text("action", action);
    EventFrame { event: EventType::SessionUpdated, payload: o.finish() }
}

} // verus!
