//! Slack: socket mode events, and the form of messages.

use crate::channels::media_text::{mimes_of, text_or_attachment_placeholder, text_or_placeholder};
use crate::channels::socket::{
    answer_text, channel_error, frame_outcome, parse_frame, text_in_answer, SocketFrame,
};
use crate::error::{outcome_is, ErrorView, FrankClawError};
use crate::json::{lemma_items, JsonObject, JsonValue, JsonView};
use crate::message::{
    clone_text, ChannelCapabilities, DeleteMessageTarget, EditMessageTarget, InboundAttachment,
    InboundAttachmentView, InboundMessage, InboundView, OutboundMessage, SendResult, SendView,
};
use crate::text::{
    before_first, cat3, chars_of, contains, find_text, has_text, lemma_find_text,
    lemma_find_text_before, lemma_find_text_is, parse_unsigned, part_before, search, str_eq,
    string_of, unsigned_of,
};
use crate::time::{parse_unix_timestamp, unix_text_moment};
use crate::types::{ChannelId, Timestamp};
use vstd::prelude::*;

verus! {

/// The document that a frame of the socket brings, or why it brings none.
pub fn parse_socket_frame(frame: SocketFrame) -> (r: Result<JsonValue, FrankClawError>)
    ensures
        match frame_outcome("slack"@, "slack socket mode"@, frame) {
            Ok(j) => r is Ok && r->Ok_0@ == j,
            Err(e) => r is Err && r->Err_0@ == e,
        },
{
    parse_frame("slack", "slack socket mode", frame)
}

/// What the channel can do.
pub fn capabilities() -> (r: ChannelCapabilities)
    ensures
        r == (ChannelCapabilities {
            threads: true,
            groups: true,
            attachments: true,
            edit: true,
            delete: true,
            reactions: false,
            streaming: false,
            inline_buttons: false,
        }),
{
    ChannelCapabilities {
        threads: true,
        groups: true,
        attachments: true,
        edit: true,
        delete: true,
        reactions: false,
        streaming: false,
        inline_buttons: false,
    }
}

/// True of an answer that says that all is well.
pub open spec fn is_ok(body: JsonView) -> bool {
    body.bool_member("ok"@) == Some(true)
}

fn says_ok(body: &JsonValue) -> (r: bool)
    ensures
        r == is_ok(body@),
{
    match body.get_bool("ok") {
        Some(ok) => ok,
        None => false,
    }
}

/// The complaint of an answer; `default` where it holds none.
pub open spec fn complaint(body: JsonView, default: Seq<char>) -> ErrorView {
    ErrorView::Channel("slack"@, answer_text(body, "error"@, default))
}

fn complain(body: &JsonValue, default: &str) -> (r: FrankClawError)
    ensures
        r@ == complaint(body@, default@),
{
    channel_error("slack", text_in_answer(body, "error", default).as_str())
}

/// The address of the socket that the platform's answer names.
pub fn socket_mode_url(body: &JsonValue) -> (r: Result<String, FrankClawError>)
    ensures
        if !is_ok(body@) {
            r is Err && r->Err_0@ == complaint(body@, "slack socket mode request failed"@)
        } else {
            match body@.text_member("url"@) {
                Some(url) => r is Ok && r->Ok_0@ == url,
                None => r is Err && r->Err_0@ == ErrorView::Channel(
                    "slack"@,
                    "slack socket mode response missing url"@,
                ),
            }
        },
{
    if !says_ok(body) {
        return Err(complain(body, "slack socket mode request failed"));
    }
    match body.get_text("url") {
        Some(url) => Ok(url),
        None => Err(channel_error("slack", "slack socket mode response missing url")),
    }
}

/// Who the bot is, by the platform's answer to an authentication test.
pub fn bot_user_id(body: &JsonValue) -> (r: Result<Option<String>, FrankClawError>)
    ensures
        if is_ok(body@) {
            r is Ok && r->Ok_0.deep_view() == body@.text_member("user_id"@)
        } else {
            r is Err && r->Err_0@ == complaint(body@, "slack auth test failed"@)
        },
{
    if says_ok(body) {
        Ok(body.get_text("user_id"))
    } else {
        Err(complain(body, "slack auth test failed"))
    }
}

/// What a frame of the socket asks for: a receipt for its envelope, and the
/// message that it brings.
#[derive(Debug)]
pub struct SocketEvent {
    pub receipt: Option<JsonValue>,
    pub message: Option<InboundMessage>,
}

/// The message that a frame of the socket brings, if it brings one.
pub open spec fn frame_message(
    payload: JsonView,
    bot: Option<Seq<char>>,
    now: Timestamp,
) -> Option<InboundView> {
    if payload.text_member("type"@) == Some("events_api"@) {
        match payload.member("payload"@) {
            Some(inner) => match inner.member("event"@) {
                Some(event) => event_message(event, bot, now),
                None => None,
            },
            None => None,
        }
    } else {
        None
    }
}

/// Takes a frame of the socket.
pub fn on_frame(payload: &JsonValue, bot: Option<&str>, now: Timestamp) -> (r: SocketEvent)
    ensures
        match payload@.text_member("envelope_id"@) {
            Some(id) => r.receipt is Some && r.receipt->0@ == JsonView::Object(
                map!["envelope_id"@ => JsonView::Text(id)],
            ),
            None => r.receipt is None,
        },
        r.message.deep_view() == frame_message(
            payload@,
            match bot {
                Some(s) => Some(s@),
                None => None,
            },
            now,
        ),
{
    let receipt = match payload.get_str("envelope_id") {
        Some(id) => {
            let mut o = JsonObject::new();
            o.put_text("envelope_id", id);
            Some(o.finish())
        },
        None => None,
    };
    let is_event = match payload.get_str("type") {
        Some(t) => str_eq(t, "events_api"),
        None => false,
    };
    let message = if is_event {
        match payload.get("payload") {
            Some(inner) => match inner.get("event") {
                Some(event) => parse_event_message(event, bot, now),
                None => None,
            },
            None => None,
        }
    } else {
        None
    };
    SocketEvent { receipt, message }
}

/// The file that an entry of a message's files describes.
pub open spec fn file_in(j: JsonView) -> InboundAttachmentView {
    InboundAttachmentView {
        media_id: None,
        mime_type: answer_text(j, "mimetype"@, "application/octet-stream"@),
        filename: j.text_member("name"@),
        size_bytes: match j.unsigned_member("size"@) {
            Some(n) => Some(n as u64),
            None => None,
        },
        url: j.text_member("url_private"@),
    }
}

/// The files that come with a message.
pub open spec fn files_in(event: JsonView) -> Seq<InboundAttachmentView> {
    match event.items_member("files"@) {
        Some(items) => Seq::new(items.len(), |i: int| file_in(items[i])),
        None => Seq::empty(),
    }
}

fn get_files(event: &JsonValue) -> (r: Vec<InboundAttachment>)
    ensures
        r.deep_view() == files_in(event@),
{
    let mut out: Vec<InboundAttachment> = Vec::new();
    let items = match event.get_array("files") {
        Some(items) => items,
        None => {
            assert(out.deep_view() =~= Seq::empty());
            return out;
        },
    };
    proof {
        lemma_items(items@);
    }
    let mut i: usize = 0;
    while i < items.len()
        invariant
            i <= items@.len(),
            out@.len() == i,
            forall|k: int| 0 <= k < i ==> (#[trigger] out@[k])@ == file_in(items@[k]@),
        decreases items@.len() - i,
    {
        let item = &items[i];
        out.push(
            InboundAttachment {
                media_id: None,
                mime_type: text_in_answer(item, "mimetype", "application/octet-stream"),
                filename: item.get_text("name"),
                size_bytes: item.get_u64("size"),
                url: item.get_text("url_private"),
            },
        );
        i = i + 1;
    }
    assert(out.deep_view() =~= files_in(event@));
    out
}

/// The address of a conversation: the channel, with the thread where there is
/// one.
pub open spec fn thread_target(channel_id: Seq<char>, thread_ts: Option<Seq<char>>) -> Seq<char> {
    match thread_ts {
        Some(ts) => channel_id + ":thread:"@ + ts,
        None => channel_id,
    }
}

/// The address of a conversation.
pub fn encode_thread_target(channel_id: &str, thread_ts: Option<&str>) -> (r: String)
    ensures
        r@ == thread_target(
            channel_id@,
            match thread_ts {
                Some(s) => Some(s@),
                None => None,
            },
        ),
{
    match thread_ts {
        Some(ts) => cat3(channel_id, ":thread:", ts),
        None => channel_id.to_owned(),
    }
}

/// The channel and the thread of an address. The first `:thread:` parts them.
pub open spec fn target_parts(raw: Seq<char>) -> (Seq<char>, Option<Seq<char>>) {
    let at = find_text(raw, ":thread:"@, 0);
    if at <= raw.len() {
        (raw.take(at), Some(raw.skip(at + ":thread:"@.len())))
    } else {
        (raw, None)
    }
}

/// The channel and the thread of an address; `fallback_to` stands in for a
/// missing one.
pub fn parse_thread_target(thread_id: Option<&str>, fallback_to: &str) -> (r: (
    String,
    Option<String>,
))
    ensures
        (r.0@, r.1.deep_view()) == target_parts(
            match thread_id {
                Some(s) => s@,
                None => fallback_to@,
            },
        ),
{
    let raw = match thread_id {
        Some(s) => s,
        None => fallback_to,
    };
    let v = chars_of(raw);
    let p = chars_of(":thread:");
    match search(&v, &p) {
        Some(at) => {
            let head = string_of(&v, 0, at);
            let n: usize = v.len();
            let tail = string_of(&v, at + p.len(), n);
            proof {
                assert(head@ =~= raw@.take(at as int));
                assert(tail@ =~= raw@.skip(at + p@.len()));
            }
            (head, Some(tail))
        },
        None => (raw.to_owned(), None),
    }
}

/// Parsing gives back the channel and the thread that an address was made of,
/// unless the channel, with the `:thread` that follows it, holds `:thread:`.
pub proof fn law_thread_target_round_trip(channel_id: Seq<char>, thread_ts: Seq<char>)
    requires
        !has_text(channel_id + ":thread"@, ":thread:"@),
    ensures
        target_parts(thread_target(channel_id, Some(thread_ts))) == (channel_id, Some(thread_ts)),
{
    let p = ":thread:"@;
    let n = channel_id.len() as int;
    let head = channel_id + ":thread"@;
    let raw = channel_id + p + thread_ts;
    reveal_strlit(":thread:");
    reveal_strlit(":thread");
    lemma_joined_parts(channel_id, p, thread_ts);
    assert(":thread"@ =~= p.drop_last());
    assert forall|i: int| 0 <= i < n implies !p.is_prefix_of(#[trigger] raw.skip(i)) by {
        if p.is_prefix_of(raw.skip(i)) {
            lemma_earlier_match(channel_id, p, thread_ts, i);
            lemma_find_text_before(head, p, 0, i);
        }
    }
    lemma_find_text_is(raw, p, 0, n);
}

/// A pattern that begins before the one that was put behind `a` lies in `a` and
/// all but the end of that one.
proof fn lemma_earlier_match(a: Seq<char>, p: Seq<char>, b: Seq<char>, i: int)
    requires
        0 <= i < a.len(),
        p.len() > 0,
        p.is_prefix_of((a + p + b).skip(i)),
    ensures
        p.is_prefix_of((a + p.drop_last()).skip(i)),
{
    let raw = (a + p + b).skip(i);
    let head = (a + p.drop_last()).skip(i);
    assert forall|k: int| 0 <= k < p.len() implies p[k] == #[trigger] head[k] by {
        assert(p[k] == raw[k]);
    }
    assert(p =~= head.take(p.len() as int));
}

/// Parsing gives back the channel and the thread that an address was made of,
/// whatever the thread, as long as the channel holds no colon.
pub proof fn law_plain_channel_round_trip(channel_id: Seq<char>, thread_ts: Seq<char>)
    requires
        !channel_id.contains(':'),
    ensures
        target_parts(thread_target(channel_id, Some(thread_ts))) == (channel_id, Some(thread_ts)),
{
    let p = ":thread:"@;
    let head = channel_id + ":thread"@;
    reveal_strlit(":thread:");
    reveal_strlit(":thread");
    lemma_find_text(head, p, 0);
    if has_text(head, p) {
        let at = find_text(head, p, 0);
        assert(p[0] == head.skip(at)[0]);
        assert(p[7] == head.skip(at)[7]);
        if at + 7 < channel_id.len() {
            assert(channel_id[at + 7] == ':');
        }
        assert(at < channel_id.len());
        assert(channel_id[at] == ':');
    }
    law_thread_target_round_trip(channel_id, thread_ts);
}

proof fn lemma_joined_parts(a: Seq<char>, p: Seq<char>, b: Seq<char>)
    ensures
        p.is_prefix_of((a + p + b).skip(a.len() as int)),
        (a + p + b).take(a.len() as int) == a,
        (a + p + b).skip((a.len() + p.len()) as int) == b,
{
    let raw = a + p + b;
    assert(raw.skip(a.len() as int) =~= p + b);
    assert(raw.take(a.len() as int) =~= a);
    assert(raw.skip((a.len() + p.len()) as int) =~= b);
}

/// An address without a thread parses as the channel, as long as `:thread:`
/// does not stand in it.
pub proof fn law_channel_target_round_trip(channel_id: Seq<char>)
    requires
        !has_text(channel_id, ":thread:"@),
    ensures
        target_parts(thread_target(channel_id, None)) == (channel_id, None::<Seq<char>>),
{
}

/// The moment of a message: the whole seconds of its `ts`.
pub open spec fn slack_moment(ts: Seq<char>) -> Option<Timestamp> {
    unix_text_moment(before_first(ts, '.'))
}

/// The moment of a message: the whole seconds of its `ts`.
pub fn parse_slack_timestamp(value: &str) -> (r: Option<Timestamp>)
    ensures
        r == slack_moment(value@),
{
    parse_unix_timestamp(part_before(value, '.').as_str())
}

/// The message that an event brings, if it brings one. Only plain messages of
/// users count.
pub open spec fn event_message(
    event: JsonView,
    bot: Option<Seq<char>>,
    now: Timestamp,
) -> Option<InboundView> {
    let channel = event.text_member("channel"@);
    let user = event.text_member("user"@);
    if event.text_member("type"@) != Some("message"@) || event.text_member("subtype"@) is Some
        || event.text_member("bot_id"@) is Some || channel is None || user is None {
        None
    } else {
        let text = text_or_placeholder(event.text_member("text"@), mimes_of(files_in(event)));
        Some(
            InboundView {
                channel: "slack"@,
                account_id: "default"@,
                sender_id: user->0,
                sender_name: None,
                thread_id: Some(thread_target(channel->0, event.text_member("thread_ts"@))),
                is_group: event.text_member("channel_type"@) != Some("im"@),
                is_mention: bot is Some && text is Some && has_text(
                    text->0,
                    "<@"@ + bot->0 + ">"@,
                ),
                text,
                attachments: files_in(event),
                platform_message_id: event.text_member("ts"@),
                timestamp: match event.text_member("ts"@) {
                    Some(ts) => match slack_moment(ts) {
                        Some(t) => t,
                        None => now,
                    },
                    None => now,
                },
            },
        )
    }
}

/// The message that an event brings, if it brings one.
pub fn parse_event_message(event: &JsonValue, bot: Option<&str>, now: Timestamp) -> (r: Option<
    InboundMessage,
>)
    ensures
        r.deep_view() == event_message(
            event@,
            match bot {
                Some(s) => Some(s@),
                None => None,
            },
            now,
        ),
{
    let is_message = match event.get_str("type") {
        Some(t) => str_eq(t, "message"),
        None => false,
    };
    if !is_message {
        return None;
    }
    if event.get_str("subtype").is_some() || event.get_str("bot_id").is_some() {
        return None;
    }
    let channel_id = event.get_text("channel")?;
    let sender_id = event.get_text("user")?;
    let attachments = get_files(event);
    let text = text_or_attachment_placeholder(event.get_str("text"), &attachments);
    let target = encode_thread_target(channel_id.as_str(), event.get_str("thread_ts"));
    let is_group = match event.get_str("channel_type") {
        Some(t) => !str_eq(t, "im"),
        None => true,
    };
    let is_mention = match bot {
        Some(id) => match &text {
            Some(text) => contains(text.as_str(), cat3("<@", id, ">").as_str()),
            None => false,
        },
        None => false,
    };
    let timestamp = match event.get_str("ts") {
        Some(ts) => match parse_slack_timestamp(ts) {
            Some(t) => t,
            None => now,
        },
        None => now,
    };
    Some(
        InboundMessage {
            channel: ChannelId("slack".to_owned()),
            account_id: "default".to_owned(),
            sender_id,
            sender_name: None,
            thread_id: Some(target),
            is_group,
            is_mention,
            text,
            attachments,
            platform_message_id: event.get_text("ts"),
            timestamp,
        },
    )
}

/// The channel that a message goes to, and the thread: that of its address,
/// else the message that it answers.
pub open spec fn send_target(
    thread_id: Option<Seq<char>>,
    to: Seq<char>,
    reply_to: Option<Seq<char>>,
) -> (Seq<char>, Option<Seq<char>>) {
    let (channel, thread) = target_parts(
        match thread_id {
            Some(t) => t,
            None => to,
        },
    );
    (
        channel,
        if thread is Some {
            thread
        } else {
            reply_to
        },
    )
}

/// The request body of a message, given its normalized text.
pub open spec fn send_body(
    text: Seq<char>,
    target: (Seq<char>, Option<Seq<char>>),
) -> JsonView {
    let base = map![
        "channel"@ => JsonView::Text(target.0),
        "text"@ => JsonView::Text(text),
        "reply_broadcast"@ => JsonView::Bool(false),
    ];
    JsonView::Object(
        match target.1 {
            Some(ts) => base.insert("thread_ts"@, JsonView::Text(ts)),
            None => base,
        },
    )
}

fn as_str_opt(s: &Option<String>) -> (r: Option<&str>)
    ensures
        r is Some == s is Some,
        r is Some ==> r->0@ == s->0@,
{
    match s {
        Some(s) => Some(s.as_str()),
        None => None,
    }
}

/// The request body of a message, given its normalized text.
pub fn build_send_body(msg: &OutboundMessage, text: &str) -> (r: JsonValue)
    ensures
        r@ == send_body(text@, send_target(msg@.thread_id, msg.to@, msg@.reply_to)),
{
    let (channel, thread) = parse_thread_target(as_str_opt(&msg.thread_id), msg.to.as_str());
    let thread = match thread {
        Some(ts) => Some(ts),
        None => clone_text(&msg.reply_to),
    };
    let mut body = JsonObject::new();
    body.put_text("channel", channel.as_str());
    body.put_text("text", text);
    body.put_bool("reply_broadcast", false);
    if let Some(ts) = thread {
        body.put_text("thread_ts", ts.as_str());
    }
    body.finish()
}

/// The channel of an address.
pub open spec fn edit_channel(thread_id: Option<Seq<char>>, to: Seq<char>) -> Seq<char> {
    target_parts(
        match thread_id {
            Some(t) => t,
            None => to,
        },
    ).0
}

/// The request body of an edit, given the normalized text.
pub fn build_edit_body(target: &EditMessageTarget, text: &str) -> (r: JsonValue)
    ensures
        r@ == JsonView::Object(
            map![
                "channel"@ => JsonView::Text(
                    edit_channel(target.thread_id.deep_view(), target.to@),
                ),
                "ts"@ => JsonView::Text(target.platform_message_id@),
                "text"@ => JsonView::Text(text@),
            ],
        ),
{
    let (channel, _thread) = parse_thread_target(
        as_str_opt(&target.thread_id),
        target.to.as_str(),
    );
    let mut body = JsonObject::new();
    body.put_text("channel", channel.as_str());
    body.put_text("ts", target.platform_message_id.as_str());
    body.put_text("text", text);
    body.finish()
}

/// The request body of a deletion.
pub fn build_delete_body(target: &DeleteMessageTarget) -> (r: JsonValue)
    ensures
        r@ == JsonView::Object(
            map![
                "channel"@ => JsonView::Text(
                    edit_channel(target.thread_id.deep_view(), target.to@),
                ),
                "ts"@ => JsonView::Text(target.platform_message_id@),
            ],
        ),
{
    let (channel, _thread) = parse_thread_target(
        as_str_opt(&target.thread_id),
        target.to.as_str(),
    );
    let mut body = JsonObject::new();
    body.put_text("channel", channel.as_str());
    body.put_text("ts", target.platform_message_id.as_str());
    body.finish()
}

/// The wait that a `retry-after` header asks for, in seconds.
pub open spec fn retry_after(header: Option<Seq<char>>) -> Option<u64> {
    match header {
        Some(text) => match unsigned_of(text) {
            Some(n) => if n <= u64::MAX {
                Some(n as u64)
            } else {
                None
            },
            None => None,
        },
        None => None,
    }
}

/// The wait that a `retry-after` header asks for, in seconds.
pub fn parse_retry_after(header: Option<&str>) -> (r: Option<u64>)
    ensures
        r == retry_after(
            match header {
                Some(s) => Some(s@),
                None => None,
            },
        ),
{
    match header {
        Some(text) => parse_unsigned(text),
        None => None,
    }
}

/// What the platform's answer to a message means.
pub fn send_result(rate_limited: bool, retry_header: Option<&str>, body: &JsonValue) -> (r:
    SendResult)
    ensures
        r@ == if rate_limited {
            SendView::RateLimited(
                retry_after(
                    match retry_header {
                        Some(s) => Some(s@),
                        None => None,
                    },
                ),
            )
        } else if is_ok(body@) {
            SendView::Sent(answer_text(body@, "ts"@, ""@))
        } else {
            SendView::Failed(answer_text(body@, "error"@, "unknown slack send failure"@))
        },
{
    if rate_limited {
        SendResult::RateLimited { retry_after_secs: parse_retry_after(retry_header) }
    } else if says_ok(body) {
        SendResult::Sent { platform_message_id: text_in_answer(body, "ts", "") }
    } else {
        SendResult::Failed { reason: text_in_answer(body, "error", "unknown slack send failure") }
    }
}

/// What the platform's answer to an edit or a deletion means. `default` is the
/// complaint where the answer holds none.
pub fn change_result(body: &JsonValue, default: &str) -> (r: Result<(), FrankClawError>)
    ensures
        outcome_is(
            r,
            if is_ok(body@) {
                None
            } else {
                Some(complaint(body@, default@))
            },
        ),
{
    if says_ok(body) {
        Ok(())
    } else {
        Err(complain(body, default))
    }
}

} // verus!
