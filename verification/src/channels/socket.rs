//! Frames that come in over a platform's socket, and probes of its health.

use crate::error::{ErrorView, FrankClawError};
use crate::json::{json_in, parse_json, parsed_view, JsonValue, JsonView};
use crate::message::HealthStatus;
use crate::text::{cat2, cat3};
use vstd::prelude::*;
use vstd::string::*;
use vstd::utf8::encode_utf8;

verus! {

/// A frame of a socket. A binary frame is its text, or the complaint of the
/// decoder.
#[derive(Debug)]
pub enum SocketFrame {
    Text(String),
    Binary(Result<String, String>),
    Close,
    Other,
}

/// A failure of a platform.
pub fn channel_error(channel: &str, msg: &str) -> (r: FrankClawError)
    ensures
        r@ == ErrorView::Channel(channel@, msg@),
{
    FrankClawError::Channel { channel: channel.to_owned(), msg: msg.to_owned() }
}

/// The text of a frame, or why it has none. `peer` is the name of the other
/// side in the complaint.
pub fn frame_text(channel: &str, peer: &str, frame: SocketFrame) -> (r: Result<
    String,
    FrankClawError,
>)
    ensures
        match frame {
            SocketFrame::Text(text) => r is Ok && r->Ok_0 == text,
            SocketFrame::Binary(Ok(text)) => r is Ok && r->Ok_0 == text,
            SocketFrame::Binary(Err(e)) => r is Err && r->Err_0@ == ErrorView::Channel(
                channel@,
                peer@ + " sent invalid UTF-8: "@ + e@,
            ),
            SocketFrame::Close => r is Err && r->Err_0@ == ErrorView::Channel(
                channel@,
                peer@ + " closed"@,
            ),
            SocketFrame::Other => r is Err && r->Err_0@ == ErrorView::Channel(
                channel@,
                peer@ + " sent unexpected frame type"@,
            ),
        },
{
    match frame {
        SocketFrame::Text(text) => Ok(text),
        SocketFrame::Binary(Ok(text)) => Ok(text),
        SocketFrame::Binary(Err(e)) => Err(
            channel_error(channel, cat3(peer, " sent invalid UTF-8: ", e.as_str()).as_str()),
        ),
        SocketFrame::Close => Err(channel_error(channel, cat2(peer, " closed").as_str())),
        SocketFrame::Other => Err(
            channel_error(channel, cat2(peer, " sent unexpected frame type").as_str()),
        ),
    }
}

/// The document of a frame's text, given what the parse of it came to, or the
/// complaint.
pub open spec fn document_outcome(
    channel: Seq<char>,
    peer: Seq<char>,
    parsed: Result<JsonView, Seq<char>>,
) -> Result<JsonView, ErrorView> {
    match parsed {
        Ok(j) => Ok(j),
        Err(e) => Err(ErrorView::Channel(channel, peer + " sent invalid JSON: "@ + e)),
    }
}

/// The document of a frame's text, given what the parse of it came to.
pub fn frame_document(channel: &str, peer: &str, parsed: Result<JsonValue, String>) -> (r: Result<
    JsonValue,
    FrankClawError,
>)
    ensures
        match document_outcome(channel@, peer@, parsed_view(parsed)) {
            Ok(j) => r is Ok && r->Ok_0@ == j,
            Err(e) => r is Err && r->Err_0@ == e,
        },
{
    match parsed {
        Ok(j) => Ok(j),
        Err(e) => Err(
            channel_error(channel, cat3(peer, " sent invalid JSON: ", e.as_str()).as_str()),
        ),
    }
}

/// What a frame says, or why it says nothing.
pub open spec fn frame_outcome(
    channel: Seq<char>,
    peer: Seq<char>,
    frame: SocketFrame,
) -> Result<JsonView, ErrorView> {
    match frame {
        SocketFrame::Text(text) => document_outcome(channel, peer, json_in(encode_utf8(text@))),
        SocketFrame::Binary(Ok(text)) => document_outcome(
            channel,
            peer,
            json_in(encode_utf8(text@)),
        ),
        SocketFrame::Binary(Err(e)) => Err(
            ErrorView::Channel(channel, peer + " sent invalid UTF-8: "@ + e@),
        ),
        SocketFrame::Close => Err(ErrorView::Channel(channel, peer + " closed"@)),
        SocketFrame::Other => Err(
            ErrorView::Channel(channel, peer + " sent unexpected frame type"@),
        ),
    }
}

/// The document that a frame brings, or why it brings none.
pub fn parse_frame(channel: &str, peer: &str, frame: SocketFrame) -> (r: Result<
    JsonValue,
    FrankClawError,
>)
    ensures
        match frame_outcome(channel@, peer@, frame) {
            Ok(j) => r is Ok && r->Ok_0@ == j,
            Err(e) => r is Err && r->Err_0@ == e,
        },
{
    match frame_text(channel, peer, frame) {
        Ok(text) => frame_document(channel, peer, parse_json(text.as_str().as_bytes())),
        Err(err) => Err(err),
    }
}

/// What a probe of a platform came back with: the status line of its answer,
/// or why there was none.
#[derive(Debug)]
pub enum Probe {
    Answered { success: bool, status: String },
    Unreachable { reason: String },
}

/// True when `h` is the health that a probe shows.
pub open spec fn probe_shows(probe: Probe, h: HealthStatus) -> bool {
    match probe {
        Probe::Answered { success, status } => if success {
            h is Connected
        } else {
            h matches HealthStatus::Degraded { reason } && reason@ == "HTTP "@ + status@
        },
        Probe::Unreachable { reason: why } => h matches HealthStatus::Disconnected { reason }
            && reason@ == why@,
    }
}

/// The health that a probe shows.
pub fn probed_health(probe: Probe) -> (r: HealthStatus)
    ensures
        probe_shows(probe, r),
{
    match probe {
        Probe::Answered { success, status } => if success {
            HealthStatus::Connected
        } else {
            HealthStatus::Degraded { reason: cat2("HTTP ", status.as_str()) }
        },
        Probe::Unreachable { reason } => HealthStatus::Disconnected { reason },
    }
}

/// The text under `key` in a platform's answer, or what stands in for it.
pub open spec fn answer_text(body: JsonView, key: Seq<char>, default: Seq<char>) -> Seq<char> {
    match body.text_member(key) {
        Some(s) => s,
        None => default,
    }
}

/// The text under `key` in a platform's answer, or what stands in for it.
pub fn text_in_answer(body: &JsonValue, key: &str, default: &str) -> (r: String)
    ensures
        r@ == answer_text(body@, key@, default@),
{
    match body.get_str(key) {
        Some(s) => s.to_owned(),
        None => default.to_owned(),
    }
}

} // verus!
