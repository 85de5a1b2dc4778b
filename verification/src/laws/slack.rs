//! Slack: which events bring a message, what of it arrives, and what goes out.

use crate::channels::media_text::text_or_attachment_placeholder;
use crate::channels::slack::{
    bot_user_id, build_delete_body, build_edit_body, build_send_body, change_result,
    encode_thread_target, files_in, law_plain_channel_round_trip, on_frame, parse_event_message,
    parse_retry_after, parse_slack_timestamp, parse_thread_target, send_result, socket_mode_url,
    SocketEvent,
};
use crate::error::FrankClawError;
use crate::json::{JsonValue, JsonView};
use crate::laws::terms::{flag, inner, listed, said, stands_in, whole};
use crate::message::{
    DeleteMessageTarget, EditMessageTarget, InboundMessage, OutboundMessage, SendResult,
};
use crate::text::{decimal, find_text, has_text, lemma_find_text, lemma_find_text_before, trimmed};
use crate::types::Timestamp;
use vstd::prelude::*;

verus! {

/// True of an event that is a plain message of a person in a channel.
pub open spec fn plain_message(event: JsonView) -> bool {
    &&& said(event, "type"@) == Some("message"@)
    &&& said(event, "subtype"@) is None
    &&& said(event, "bot_id"@) is None
    &&& said(event, "channel"@) is Some
    &&& said(event, "user"@) is Some
}

proof fn lemma_stands_in(text: Seq<char>, part: Seq<char>)
    ensures
        has_text(text, part) <==> stands_in(part, text),
{
    lemma_find_text(text, part, 0);
    if has_text(text, part) {
        let at = find_text(text, part, 0);
        let rest = text.skip(at);
        assert(text =~= (text.take(at) + part) + rest.skip(part.len() as int)) by {
            assert(rest.take(part.len() as int) =~= part);
            assert forall|k: int| 0 <= k < part.len() implies text[at + k] == part[k] by {
                assert(rest[k] == part[k]);
            }
        }
    }
    if stands_in(part, text) {
        let (before, after) = choose|before: Seq<char>, after: Seq<char>|
            text == #[trigger] ((before + part) + after);
        let at = before.len() as int;
        assert(text.skip(at) =~= part + after);
        assert(text.skip(at).take(part.len() as int) =~= part);
        lemma_find_text_before(text, part, 0, at);
    }
}

/// A plain message of a person arrives, with its author, its channel and thread,
/// its identifier and its trimmed text; anything else does not. It is direct
/// exactly in a conversation of two, and a mention exactly where the bot's name
/// stands in it.
pub proof fn law_message_arrives(
    event: &JsonValue,
    bot: Option<&str>,
    now: Timestamp,
    r: Option<InboundMessage>,
)
    requires
        call_ensures(parse_event_message, (event, bot, now), r),
    ensures
        r is Some <==> plain_message(event@),
        r is Some ==> {
            let m = r->0;
            &&& m.channel@ == "slack"@
            &&& m.account_id@ == "default"@
            &&& Some(m.sender_id@) == said(event@, "user"@)
            &&& m.platform_message_id.deep_view() == said(event@, "ts"@)
            &&& m.is_group == (said(event@, "channel_type"@) != Some("im"@))
            &&& said(event@, "thread_ts"@) is None ==> m.thread_id.deep_view() == said(
                event@,
                "channel"@,
            )
            &&& said(event@, "thread_ts"@) is Some ==> m.thread_id.deep_view() == Some(
                said(event@, "channel"@)->0 + ":thread:"@ + said(event@, "thread_ts"@)->0,
            )
            &&& said(event@, "text"@) is Some && trimmed(said(event@, "text"@)->0).len() > 0
                ==> m.text.deep_view() == Some(trimmed(said(event@, "text"@)->0))
            &&& m.is_mention <==> bot is Some && m.text is Some && stands_in(
                "<@"@ + bot->0@ + ">"@,
                m.text->0@,
            )
        },
        r is Some && listed(event@, "files"@) is None ==> r->0.attachments@.len() == 0,
{
    if r is Some {
        let m = r->0;
        if bot is Some && m.text is Some {
            lemma_stands_in(m.text->0@, "<@"@ + bot->0@ + ">"@);
        }
        assert(m@.attachments.len() == m.attachments@.len());
    }
}

/// The files of a message arrive, each with its address, name and type.
pub proof fn law_files_arrive(
    event: &JsonValue,
    bot: Option<&str>,
    now: Timestamp,
    r: Option<InboundMessage>,
    i: int,
)
    requires
        call_ensures(parse_event_message, (event, bot, now), r),
        r is Some,
        listed(event@, "files"@) is Some,
        0 <= i < listed(event@, "files"@)->0.len(),
    ensures
        r->0.attachments@.len() == listed(event@, "files"@)->0.len(),
        r->0.attachments@[i].url.deep_view() == said(
            listed(event@, "files"@)->0[i],
            "url_private"@,
        ),
        r->0.attachments@[i].filename.deep_view() == said(listed(event@, "files"@)->0[i], "name"@),
{
    assert(r->0@.attachments == files_in(event@));
    assert(r->0@.attachments.len() == r->0.attachments@.len());
    assert(r->0@.attachments[i] == r->0.attachments@[i]@);
}

/// A frame brings the message of its event, where it is an event; and each frame
/// with an envelope is confirmed under the identifier of that envelope.
pub proof fn law_frames(
    frame: &JsonValue,
    bot: Option<&str>,
    now: Timestamp,
    r: SocketEvent,
    event: &JsonValue,
    direct: Option<InboundMessage>,
)
    requires
        call_ensures(on_frame, (frame, bot, now), r),
        call_ensures(parse_event_message, (event, bot, now), direct),
    ensures
        said(frame@, "envelope_id"@) is Some ==> r.receipt is Some && said(
            r.receipt->0@,
            "envelope_id"@,
        ) == said(frame@, "envelope_id"@),
        said(frame@, "envelope_id"@) is None ==> r.receipt is None,
        said(frame@, "type"@) != Some("events_api"@) ==> r.message is None,
        said(frame@, "type"@) == Some("events_api"@) && inner(frame@, "payload"@) is Some && inner(
            inner(frame@, "payload"@)->0,
            "event"@,
        ) == Some(event@) ==> r.message.deep_view() == direct.deep_view(),
        r.message is Some ==> inner(frame@, "payload"@) is Some && inner(
            inner(frame@, "payload"@)->0,
            "event"@,
        ) is Some && plain_message(inner(inner(frame@, "payload"@)->0, "event"@)->0),
{
}

/// A conversation's address gives back the channel and the thread that it was
/// made of, where the channel holds no colon.
pub proof fn law_addresses_read_back(
    channel: &str,
    thread: Option<&str>,
    address: &str,
    made: String,
    fallback: &str,
    parts: (String, Option<String>),
)
    requires
        !channel@.contains(':'),
        call_ensures(encode_thread_target, (channel, thread), made),
        address@ == made@,
        call_ensures(parse_thread_target, (Some(address), fallback), parts),
    ensures
        parts.0@ == channel@,
        parts.1.deep_view() == match thread {
            Some(t) => Some(t@),
            None => None,
        },
{
    match thread {
        Some(t) => {
            law_plain_channel_round_trip(channel@, t@);
        },
        None => {
            reveal_strlit(":thread:");
            lemma_find_text(channel@, ":thread:"@, 0);
            if has_text(channel@, ":thread:"@) {
                let at = find_text(channel@, ":thread:"@, 0);
                assert(channel@.skip(at)[0] == ":thread:"@[0]);
                assert(channel@[at] == ':');
            }
        },
    }
}

/// A message goes to the channel of its address, or of its recipient where it
/// has none, into the thread of the address or below the message that it
/// answers; with its text, and to nobody else.
pub proof fn law_message_goes_out(
    msg: &OutboundMessage,
    text: &str,
    address: &str,
    fallback: &str,
    parts: (String, Option<String>),
    body: JsonValue,
)
    requires
        call_ensures(build_send_body, (msg, text), body),
        address@ == (if msg.thread_id is Some {
            msg.thread_id->0@
        } else {
            msg.to@
        }),
        call_ensures(parse_thread_target, (Some(address), fallback), parts),
    ensures
        said(body@, "text"@) == Some(text@),
        said(body@, "channel"@) == Some(parts.0@),
        flag(body@, "reply_broadcast"@) == Some(false),
        parts.1 is Some ==> said(body@, "thread_ts"@) == Some(parts.1->0@),
        parts.1 is None && msg.reply_to is Some ==> said(body@, "thread_ts"@) == Some(
            msg.reply_to->0@,
        ),
        parts.1 is None && msg.reply_to is None ==> inner(body@, "thread_ts"@) is None,
{
    reveal_strlit("channel");
    reveal_strlit("text");
    reveal_strlit("reply_broadcast");
    reveal_strlit("thread_ts");
    assert("channel"@.len() == 7);
    assert("text"@.len() == 4);
    assert("reply_broadcast"@.len() == 15);
    assert("thread_ts"@.len() == 9);
}

/// An edit and a deletion name the channel of the address and the message; the
/// edit brings the new text.
pub proof fn law_changes_go_out(
    edit: &EditMessageTarget,
    text: &str,
    edited: JsonValue,
    delete: &DeleteMessageTarget,
    deleted: JsonValue,
    edit_address: &str,
    delete_address: &str,
    fallback: &str,
    edit_parts: (String, Option<String>),
    delete_parts: (String, Option<String>),
)
    requires
        call_ensures(build_edit_body, (edit, text), edited),
        call_ensures(build_delete_body, (delete,), deleted),
        edit_address@ == (if edit.thread_id is Some {
            edit.thread_id->0@
        } else {
            edit.to@
        }),
        delete_address@ == (if delete.thread_id is Some {
            delete.thread_id->0@
        } else {
            delete.to@
        }),
        call_ensures(parse_thread_target, (Some(edit_address), fallback), edit_parts),
        call_ensures(parse_thread_target, (Some(delete_address), fallback), delete_parts),
    ensures
        said(edited@, "channel"@) == Some(edit_parts.0@),
        said(edited@, "ts"@) == Some(edit.platform_message_id@),
        said(edited@, "text"@) == Some(text@),
        said(deleted@, "channel"@) == Some(delete_parts.0@),
        said(deleted@, "ts"@) == Some(delete.platform_message_id@),
{
    reveal_strlit("channel");
    reveal_strlit("text");
    reveal_strlit("ts");
    assert("channel"@.len() == 7);
    assert("text"@.len() == 4);
    assert("ts"@.len() == 2);
}

/// An answer means what it says: a rate limit, success with the identifier of
/// the message, failure with its complaint.
pub proof fn law_answers(limited: bool, header: Option<&str>, body: &JsonValue, r: SendResult)
    requires
        call_ensures(send_result, (limited, header, body), r),
    ensures
        limited <==> r is RateLimited,
        !limited ==> (flag(body@, "ok"@) == Some(true) <==> r is Sent),
        r is Sent && said(body@, "ts"@) is Some ==> Some(r->platform_message_id@) == said(
            body@,
            "ts"@,
        ),
        r is Failed && said(body@, "error"@) is Some ==> Some(r->reason@) == said(body@, "error"@),
{
    assert(r@ is RateLimited == r is RateLimited);
}

/// The wait that a rate limit asks for is the number in the header.
pub proof fn law_wait(header: &str, n: u64, r: Option<u64>)
    requires
        call_ensures(parse_retry_after, (Some(header),), r),
        header@ == decimal(n as nat),
    ensures
        r == Some(n),
{
    crate::laws::text::lemma_decimal_reads_back(n as nat);
}

/// An edit or a deletion went through, and the connection can be made, exactly
/// where the platform says that all is well.
pub proof fn law_other_answers(
    body: &JsonValue,
    default: &str,
    changed: Result<(), FrankClawError>,
    url: Result<String, FrankClawError>,
    bot: Result<Option<String>, FrankClawError>,
)
    requires
        call_ensures(change_result, (body, default), changed),
        call_ensures(socket_mode_url, (body,), url),
        call_ensures(bot_user_id, (body,), bot),
    ensures
        changed is Ok <==> flag(body@, "ok"@) == Some(true),
        url is Ok <==> flag(body@, "ok"@) == Some(true) && said(body@, "url"@) is Some,
        url is Ok ==> Some(url->Ok_0@) == said(body@, "url"@),
        bot is Ok <==> flag(body@, "ok"@) == Some(true),
        bot is Ok ==> bot->Ok_0.deep_view() == said(body@, "user_id"@),
{
}

/// The type and the size of a file are the ones that its description names.
pub proof fn law_kinds_of_files(
    event: &JsonValue,
    bot: Option<&str>,
    now: Timestamp,
    r: Option<InboundMessage>,
    i: int,
)
    requires
        call_ensures(parse_event_message, (event, bot, now), r),
        r is Some,
        listed(event@, "files"@) is Some,
        0 <= i < listed(event@, "files"@)->0.len(),
    ensures
        ({
            let told = listed(event@, "files"@)->0[i];
            let file = r->0.attachments@[i];
            &&& said(told, "mimetype"@) is Some ==> file.mime_type@ == said(told, "mimetype"@)->0
            &&& said(told, "mimetype"@) is None ==> file.mime_type@ == "application/octet-stream"@
            &&& file.size_bytes is Some <==> whole(told, "size"@) is Some
            &&& whole(told, "size"@) is Some && whole(told, "size"@)->0 <= u64::MAX
                ==> file.size_bytes->0 == whole(told, "size"@)->0
        }),
{
    assert(r->0@.attachments == files_in(event@));
    assert(r->0@.attachments[i] == r->0.attachments@[i]@);
}

/// A message without words says what its files are; its time is that of its
/// identifier, where that is one, else now.
pub proof fn law_wordless_messages(
    event: &JsonValue,
    bot: Option<&str>,
    now: Timestamp,
    ts: &str,
    at: Option<Timestamp>,
    words: Option<String>,
    r: Option<InboundMessage>,
)
    requires
        call_ensures(parse_event_message, (event, bot, now), r),
        r is Some,
        said(event@, "ts"@) is Some ==> ts@ == said(event@, "ts"@)->0,
        call_ensures(parse_slack_timestamp, (ts,), at),
        call_ensures(text_or_attachment_placeholder, (None, &r->0.attachments), words),
    ensures
        said(event@, "text"@) is None || trimmed(said(event@, "text"@)->0).len() == 0
            ==> r->0.text.deep_view() == words.deep_view(),
        said(event@, "ts"@) is Some && at is Some ==> r->0.timestamp == at->0,
        said(event@, "ts"@) is None || at is None ==> r->0.timestamp == now,
        r->0.sender_name is None,
{
    assert(r->0@.attachments == r->0.attachments.deep_view());
    assert(r->0@.sender_name == r->0.sender_name.deep_view());
}

/// A rate limit is told with the wait of its header.
pub proof fn law_limits_are_told(
    header: Option<&str>,
    body: &JsonValue,
    wait: Option<u64>,
    r: SendResult,
)
    requires
        call_ensures(send_result, (true, header, body), r),
        call_ensures(parse_retry_after, (header,), wait),
    ensures
        r is RateLimited,
        r->retry_after_secs == wait,
{
}

/// A change that did not go through is an error of the channel, in the
/// platform's words, else in the given ones.
pub proof fn law_failed_changes(body: &JsonValue, default: &str, r: Result<(), FrankClawError>)
    requires
        call_ensures(change_result, (body, default), r),
        flag(body@, "ok"@) != Some(true),
    ensures
        r is Err,
        r->Err_0 is Channel,
        r->Err_0->channel@ == "slack"@,
        said(body@, "error"@) is Some ==> r->Err_0->Channel_msg@ == said(body@, "error"@)->0,
        said(body@, "error"@) is None ==> r->Err_0->Channel_msg@ == default@,
{
}

} // verus!
