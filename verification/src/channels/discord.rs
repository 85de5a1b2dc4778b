//! Discord: the gateway protocol, and the form of messages.

use crate::channels::socket::{
    answer_text, channel_error, frame_outcome, parse_frame, text_in_answer, SocketFrame,
};
use crate::error::{outcome_is, ErrorView, FrankClawError};
use crate::json::{items_view, lemma_items, number, JsonObject, JsonValue, JsonView};
use crate::message::{
    ChannelCapabilities, DeleteMessageTarget, EditMessageTarget, InboundAttachment,
    InboundAttachmentView, InboundMessage, InboundView, OutboundMessage, SendResult, SendView,
};
use crate::text::{cat2, cat3, str_eq};
use crate::time::{parse_rfc3339, rfc3339_instant};
use crate::types::{ChannelId, Timestamp};
use vstd::prelude::*;

verus! {

/// The events that the bot listens to: guilds, guild messages, direct
/// messages and message contents.
pub const DISCORD_INTENTS: u64 = 37377;

/// The document that a frame of the gateway brings, or why it brings none.
pub fn parse_gateway_message(frame: SocketFrame) -> (r: Result<JsonValue, FrankClawError>)
    ensures
        match frame_outcome("discord"@, "discord gateway"@, frame) {
            Ok(j) => r is Ok && r->Ok_0@ == j,
            Err(e) => r is Err && r->Err_0@ == e,
        },
{
    parse_frame("discord", "discord gateway", frame)
}

/// What the channel can do.
pub fn capabilities() -> (r: ChannelCapabilities)
    ensures
        r == (ChannelCapabilities {
            threads: true,
            groups: true,
            attachments: true,
            edit: true,
            delete: true,
            reactions: false,
            streaming: false,
            inline_buttons: false,
        }),
{
    ChannelCapabilities {
        threads: true,
        groups: true,
        attachments: true,
        edit: true,
        delete: true,
        reactions: false,
        streaming: false,
        inline_buttons: false,
    }
}

/// The address of the gateway that the platform's answer names.
pub fn gateway_url(body: &JsonValue) -> (r: Result<String, FrankClawError>)
    ensures
        match body@.text_member("url"@) {
            Some(url) => r is Ok && r->Ok_0@ == url + "/?v=10&encoding=json"@,
            None => r is Err && r->Err_0@ == ErrorView::Channel(
                "discord"@,
                "discord gateway discovery did not return a url"@,
            ),
        },
{
    match body.get_str("url") {
        Some(url) => Ok(cat2(url, "/?v=10&encoding=json")),
        None => Err(channel_error("discord", "discord gateway discovery did not return a url")),
    }
}

/// The time between heartbeats that the gateway asks for in its greeting.
pub open spec fn hello_interval(hello: JsonView) -> Option<nat> {
    match hello.member("d"@) {
        Some(d) => d.unsigned_member("heartbeat_interval"@),
        None => None,
    }
}

/// The time between heartbeats, in milliseconds, that the gateway asks for in
/// its greeting.
pub fn heartbeat_interval_ms(hello: &JsonValue) -> (r: Result<u64, FrankClawError>)
    ensures
        match hello_interval(hello@) {
            Some(n) => r is Ok && r->Ok_0 == n,
            None => r is Err && r->Err_0@ == ErrorView::Channel(
                "discord"@,
                "discord hello payload missing heartbeat interval"@,
            ),
        },
{
    let found = match hello.get("d") {
        Some(d) => d.get_u64("heartbeat_interval"),
        None => None,
    };
    match found {
        Some(n) => Ok(n),
        None => Err(
            channel_error("discord", "discord hello payload missing heartbeat interval"),
        ),
    }
}

/// The frame by which the bot introduces itself.
pub fn identify(bot_token: &str, os: &str) -> (r: JsonValue)
    ensures
        r@ == JsonView::Object(
            map![
                "op"@ => number(2),
                "d"@ => JsonView::Object(
                    map![
                        "token"@ => JsonView::Text(bot_token@),
                        "intents"@ => number(DISCORD_INTENTS as nat),
                        "properties"@ => JsonView::Object(
                            map![
                                "os"@ => JsonView::Text(os@),
                                "browser"@ => JsonView::Text("frankclaw"@),
                                "device"@ => JsonView::Text("frankclaw"@),
                            ],
                        ),
                    ],
                ),
            ],
        ),
{
    let mut properties = JsonObject::new();
    properties.put_text("os", os);
    properties.put_text("browser", "frankclaw");
    properties.put_text("device", "frankclaw");
    let mut d = JsonObject::new();
    d.put_text("token", bot_token);
    d.put_unsigned("intents", DISCORD_INTENTS);
    d.put("properties", properties.finish());
    let mut o = JsonObject::new();
    o.put_unsigned("op", 2);
    o.put("d", d.finish());
    o.finish()
}

/// A connection to the gateway: the last sequence number seen, below zero
/// before the first one, and who the bot is.
#[derive(Debug)]
pub struct GatewaySession {
    pub seq: i64,
    pub bot_user_id: Option<String>,
}

/// What a session is.
pub struct SessionView {
    pub seq: i64,
    pub bot_user_id: Option<Seq<char>>,
}

impl View for GatewaySession {
    type V = SessionView;

    open spec fn view(&self) -> SessionView {
        SessionView { seq: self.seq, bot_user_id: self.bot_user_id.deep_view() }
    }
}

/// The type of a frame.
pub open spec fn frame_op(payload: JsonView) -> Option<int> {
    payload.signed_member("op"@)
}

/// True of a frame that tells of an event of the given name.
pub open spec fn is_event(payload: JsonView, name: Seq<char>) -> bool {
    frame_op(payload) == Some(0int) && payload.text_member("t"@) == Some(name)
}

/// The session after a frame.
pub open spec fn session_after(session: SessionView, payload: JsonView) -> SessionView {
    SessionView {
        seq: match payload.signed_member("s"@) {
            Some(n) => n as i64,
            None => session.seq,
        },
        bot_user_id: if is_event(payload, "READY"@) {
            match payload.member("d"@) {
                Some(d) => d.text_at("user"@, "id"@),
                None => None,
            }
        } else {
            session.bot_user_id
        },
    }
}

/// Why a frame ends the connection, if it does.
pub open spec fn frame_problem(payload: JsonView) -> Option<ErrorView> {
    if frame_op(payload) == Some(7int) {
        Some(ErrorView::Channel("discord"@, "discord requested reconnect"@))
    } else if frame_op(payload) == Some(9int) {
        Some(ErrorView::Channel("discord"@, "discord gateway session invalid"@))
    } else {
        None
    }
}

/// The message that a frame brings, if it brings one.
pub open spec fn frame_message(
    session: SessionView,
    payload: JsonView,
    now: Timestamp,
) -> Option<InboundView> {
    if is_event(payload, "MESSAGE_CREATE"@) {
        match payload.member("d"@) {
            Some(d) => message_created(d, session.bot_user_id, message_time(d, now)),
            None => None,
        }
    } else {
        None
    }
}

impl GatewaySession {
    /// A new connection. Who the bot is may be known from an earlier one.
    pub fn new(bot_user_id: Option<String>) -> (r: GatewaySession)
        ensures
            r.seq == -1,
            r.bot_user_id == bot_user_id,
    {
        GatewaySession { seq: -1, bot_user_id }
    }

    /// The heartbeat: the last sequence number, or null before the first one.
    pub fn heartbeat(&self) -> (r: JsonValue)
        ensures
            r@ == JsonView::Object(
                map![
                    "op"@ => number(1),
                    "d"@ => if self.seq >= 0 {
                        number(self.seq as nat)
                    } else {
                        JsonView::Null
                    },
                ],
            ),
    {
        let mut o = JsonObject::new();
        o.put_unsigned("op", 1);
        if self.seq >= 0 {
            o.put_unsigned("d", self.seq as u64);
        } else {
            o.put("d", JsonValue::Null);
        }
        o.finish()
    }

    /// Takes a frame: the message that it brings, if any, or why it ends the
    /// connection.
    pub fn on_frame(&mut self, payload: &JsonValue, now: Timestamp) -> (r: Result<
        Option<InboundMessage>,
        FrankClawError,
    >)
        ensures
            final(self)@ == session_after(old(self)@, payload@),
            outcome_is(r, frame_problem(payload@)),
            r is Ok ==> r->Ok_0.deep_view() == frame_message(old(self)@, payload@, now),
    {
        if let Some(next_seq) = payload.get_i64("s") {
            self.seq = next_seq;
        }
        match payload.get_i64("op") {
            Some(op) => {
                if op == 0 {
                    let ready = match payload.get_str("t") {
                        Some(t) => str_eq(t, "READY"),
                        None => false,
                    };
                    let created = match payload.get_str("t") {
                        Some(t) => str_eq(t, "MESSAGE_CREATE"),
                        None => false,
                    };
                    if ready {
                        proof {
                            reveal_strlit("READY");
                            reveal_strlit("MESSAGE_CREATE");
                            assert("READY"@.len() != "MESSAGE_CREATE"@.len());
                        }
                        let user = match payload.get("d") {
                            Some(d) => match d.get_str_at("user", "id") {
                                Some(id) => Some(id.to_owned()),
                                None => None,
                            },
                            None => None,
                        };
                        self.bot_user_id = user;
                        return Ok(None);
                    }
                    if created {
                        let bot = match &self.bot_user_id {
                            Some(id) => Some(id.as_str()),
                            None => None,
                        };
                        return Ok(
                            match payload.get("d") {
                                Some(d) => parse_message_create(d, bot, now),
                                None => None,
                            },
                        );
                    }
                    Ok(None)
                } else if op == 7 {
                    Err(channel_error("discord", "discord requested reconnect"))
                } else if op == 9 {
                    Err(channel_error("discord", "discord gateway session invalid"))
                } else {
                    Ok(None)
                }
            },
            None => Ok(None),
        }
    }
}

/// The file that an entry of a message's attachments describes.
pub open spec fn attachment_in(j: JsonView) -> InboundAttachmentView {
    InboundAttachmentView {
        media_id: None,
        mime_type: answer_text(j, "content_type"@, "application/octet-stream"@),
        filename: j.text_member("filename"@),
        size_bytes: match j.unsigned_member("size"@) {
            Some(n) => Some(n as u64),
            None => None,
        },
        url: j.text_member("url"@),
    }
}

/// The files that come with a message.
pub open spec fn attachments_in(payload: JsonView) -> Seq<InboundAttachmentView> {
    match payload.items_member("attachments"@) {
        Some(items) => Seq::new(items.len(), |i: int| attachment_in(items[i])),
        None => Seq::empty(),
    }
}

fn get_attachments(payload: &JsonValue) -> (r: Vec<InboundAttachment>)
    ensures
        r.deep_view() == attachments_in(payload@),
{
    let mut out: Vec<InboundAttachment> = Vec::new();
    let items = match payload.get_array("attachments") {
        Some(items) => items,
        None => {
            assert(out.deep_view() =~= Seq::empty());
            return out;
        },
    };
    proof {
        lemma_items(items@);
    }
    let mut i: usize = 0;
    while i < items.len()
        invariant
            i <= items@.len(),
            out@.len() == i,
            forall|k: int| 0 <= k < i ==> (#[trigger] out@[k])@ == attachment_in(items@[k]@),
        decreases items@.len() - i,
    {
        let item = &items[i];
        out.push(
            InboundAttachment {
                media_id: None,
                mime_type: text_in_answer(item, "content_type", "application/octet-stream"),
                filename: item.get_text("filename"),
                size_bytes: item.get_u64("size"),
                url: item.get_text("url"),
            },
        );
        i = i + 1;
    }
    assert(out.deep_view() =~= attachments_in(payload@));
    out
}

/// True when a message mentions the user `id`.
pub open spec fn mentions(payload: JsonView, id: Seq<char>) -> bool {
    match payload.items_member("mentions"@) {
        Some(items) => exists|i: int|
            0 <= i < items.len() && (#[trigger] items[i]).text_member("id"@) == Some(id),
        None => false,
    }
}

fn has_mention(payload: &JsonValue, id: &str) -> (r: bool)
    ensures
        r == mentions(payload@, id@),
{
    let items = match payload.get_array("mentions") {
        Some(items) => items,
        None => {
            return false;
        },
    };
    proof {
        lemma_items(items@);
    }
    let ghost view = items_view(items@);
    let mut i: usize = 0;
    while i < items.len()
        invariant
            i <= items@.len(),
            payload@.items_member("mentions"@) == Some(view),
            view.len() == items@.len(),
            forall|k: int| 0 <= k < items@.len() ==> #[trigger] view[k] == items@[k]@,
            forall|k: int| 0 <= k < i ==> (#[trigger] view[k]).text_member("id"@) != Some(id@),
        decreases items@.len() - i,
    {
        assert(view[i as int] == items@[i as int]@);
        if let Some(found) = items[i].get_str("id") {
            if str_eq(found, id) {
                return true;
            }
        }
        i = i + 1;
    }
    false
}

/// True of a message that a bot wrote.
pub open spec fn by_bot(payload: JsonView) -> bool {
    match payload.member("author"@) {
        Some(author) => author.bool_member("bot"@) == Some(true),
        None => false,
    }
}

/// The time of a message; `now` where it names none that can be read.
pub open spec fn message_time(payload: JsonView, now: Timestamp) -> Timestamp {
    match payload.text_member("timestamp"@) {
        Some(text) => match rfc3339_instant(text) {
            Some(ts) => ts,
            None => now,
        },
        None => now,
    }
}

/// The message, of the given time, that a creation event brings. Messages of
/// bots, and those without a channel or an author, bring none.
pub open spec fn message_created(
    payload: JsonView,
    bot_user_id: Option<Seq<char>>,
    timestamp: Timestamp,
) -> Option<InboundView> {
    let channel_id = payload.text_member("channel_id"@);
    let sender_id = payload.text_at("author"@, "id"@);
    if by_bot(payload) || channel_id is None || sender_id is None {
        None
    } else {
        Some(
            InboundView {
                channel: "discord"@,
                account_id: "default"@,
                sender_id: sender_id->0,
                sender_name: payload.text_at("author"@, "username"@),
                thread_id: channel_id,
                is_group: payload.member("guild_id"@) is Some,
                is_mention: bot_user_id is Some && mentions(payload, bot_user_id->0),
                text: payload.text_member("content"@),
                attachments: attachments_in(payload),
                platform_message_id: payload.text_member("id"@),
                timestamp,
            },
        )
    }
}

/// The message that a creation event brings, if it brings one.
pub fn parse_message_create(
    payload: &JsonValue,
    bot_user_id: Option<&str>,
    now: Timestamp,
) -> (r: Option<InboundMessage>)
    ensures
        r.deep_view() == message_created(
            payload@,
            match bot_user_id {
                Some(s) => Some(s@),
                None => None,
            },
            message_time(payload@, now),
        ),
{
    let timestamp = match payload.get_str("timestamp") {
        Some(text) => match parse_rfc3339(text) {
            Some(ts) => ts,
            None => now,
        },
        None => now,
    };
    message_created_at(payload, bot_user_id, timestamp)
}

/// The message, of the given time, that a creation event brings, if it brings
/// one.
pub fn message_created_at(
    payload: &JsonValue,
    bot_user_id: Option<&str>,
    timestamp: Timestamp,
) -> (r: Option<InboundMessage>)
    ensures
        r.deep_view() == message_created(
            payload@,
            match bot_user_id {
                Some(s) => Some(s@),
                None => None,
            },
            timestamp,
        ),
{
    if let Some(author) = payload.get("author") {
        if let Some(bot) = author.get_bool("bot") {
            if bot {
                return None;
            }
        }
    }
    let channel_id = payload.get_text("channel_id")?;
    let sender_id = payload.get_str_at("author", "id")?.to_owned();
    let sender_name = match payload.get_str_at("author", "username") {
        Some(name) => Some(name.to_owned()),
        None => None,
    };
    let is_mention = match bot_user_id {
        Some(id) => has_mention(payload, id),
        None => false,
    };
    Some(
        InboundMessage {
            channel: ChannelId("discord".to_owned()),
            account_id: "default".to_owned(),
            sender_id,
            sender_name,
            thread_id: Some(channel_id),
            is_group: payload.get("guild_id").is_some(),
            is_mention,
            text: payload.get_text("content"),
            attachments: get_attachments(payload),
            platform_message_id: payload.get_text("id"),
            timestamp,
        },
    )
}

/// The request body of a message, given its normalized text. Nobody is
/// notified by a mention in it.
pub open spec fn send_body(text: Seq<char>, reply_to: Option<Seq<char>>) -> JsonView {
    let base = map![
        "content"@ => JsonView::Text(text),
        "allowed_mentions"@ => JsonView::Object(
            map!["parse"@ => JsonView::Array(Seq::empty())],
        ),
    ];
    JsonView::Object(
        match reply_to {
            Some(id) => base.insert(
                "message_reference"@,
                JsonView::Object(map!["message_id"@ => JsonView::Text(id)]),
            ),
            None => base,
        },
    )
}

/// The request body of a message, given its normalized text.
pub fn build_send_body(msg: &OutboundMessage, text: &str) -> (r: JsonValue)
    ensures
        r@ == send_body(text@, msg@.reply_to),
{
    let none: Vec<JsonValue> = Vec::new();
    proof {
        lemma_items(none@);
        assert(items_view(none@) =~= Seq::empty());
    }
    let mut allowed = JsonObject::new();
    allowed.put("parse", JsonValue::Array(none));
    let mut body = JsonObject::new();
    body.put_text("content", text);
    body.put("allowed_mentions", allowed.finish());
    if let Some(reply_to) = &msg.reply_to {
        let mut reference = JsonObject::new();
        reference.put_text("message_id", reply_to.as_str());
        body.put("message_reference", reference.finish());
    }
    body.finish()
}

/// Where a message goes: the thread where there is one, else the recipient.
pub open spec fn target_channel(thread_id: Option<Seq<char>>, to: Seq<char>) -> Seq<char> {
    match thread_id {
        Some(thread) => thread,
        None => to,
    }
}

fn target_of<'a>(thread_id: &'a Option<String>, to: &'a String) -> (r: &'a str)
    ensures
        r@ == target_channel(thread_id.deep_view(), to@),
{
    match thread_id {
        Some(thread) => thread.as_str(),
        None => to.as_str(),
    }
}

/// The path of the request that sends a message.
pub fn send_path(msg: &OutboundMessage) -> (r: String)
    ensures
        r@ == "/channels/"@ + target_channel(msg@.thread_id, msg.to@) + "/messages"@,
{
    cat3("/channels/", target_of(&msg.thread_id, &msg.to), "/messages")
}

/// The channel and the request body of an edit, given the normalized text.
pub fn build_edit_request(target: &EditMessageTarget, text: &str) -> (r: (String, JsonValue))
    ensures
        r.0@ == target_channel(target.thread_id.deep_view(), target.to@),
        r.1@ == JsonView::Object(map!["content"@ => JsonView::Text(text@)]),
{
    let mut body = JsonObject::new();
    body.put_text("content", text);
    (target_of(&target.thread_id, &target.to).to_owned(), body.finish())
}

/// The path of the request that deletes a message.
pub fn delete_path(target: &DeleteMessageTarget) -> (r: String)
    ensures
        r@ == "/channels/"@ + target_channel(target.thread_id.deep_view(), target.to@)
            + "/messages/"@ + target.platform_message_id@,
{
    cat2(
        cat3("/channels/", target_of(&target.thread_id, &target.to), "/messages/").as_str(),
        target.platform_message_id.as_str(),
    )
}

/// What the platform's answer to a message means. `retry_after_secs` is the
/// wait that a rate limit asks for, in whole seconds.
pub fn send_result(
    rate_limited: bool,
    success: bool,
    body: &JsonValue,
    retry_after_secs: Option<u64>,
) -> (r: SendResult)
    ensures
        r@ == if rate_limited {
            SendView::RateLimited(retry_after_secs)
        } else if success {
            SendView::Sent(answer_text(body@, "id"@, ""@))
        } else {
            SendView::Failed(answer_text(body@, "message"@, "unknown discord send failure"@))
        },
{
    if rate_limited {
        SendResult::RateLimited { retry_after_secs }
    } else if success {
        SendResult::Sent { platform_message_id: text_in_answer(body, "id", "") }
    } else {
        SendResult::Failed {
            reason: text_in_answer(body, "message", "unknown discord send failure"),
        }
    }
}

/// What the platform's answer to an edit or a deletion means. `default` is the
/// complaint where the answer holds none.
pub fn change_result(success: bool, body: &JsonValue, default: &str) -> (r: Result<
    (),
    FrankClawError,
>)
    ensures
        outcome_is(
            r,
            if success {
                None
            } else {
                Some(
                    ErrorView::Channel("discord"@, answer_text(body@, "message"@, default@)),
                )
            },
        ),
{
    if success {
        Ok(())
    } else {
        Err(channel_error("discord", text_in_answer(body, "message", default).as_str()))
    }
}

} // verus!
