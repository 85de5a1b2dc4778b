//! Discord: which frames bring a message, what of it arrives, and what goes out.

use crate::channels::discord::{
    attachments_in, build_edit_request, build_send_body, change_result, delete_path, gateway_url,
    heartbeat_interval_ms, identify, message_created_at, parse_gateway_message,
    parse_message_create, send_path, send_result, GatewaySession,
};
use crate::channels::socket::{parse_frame, SocketFrame};
use crate::error::FrankClawError;
use crate::json::{JsonValue, JsonView};
use crate::laws::terms::{amount, flag, inner, listed, number_at, said, said_in, whole};
use crate::message::{
    DeleteMessageTarget, EditMessageTarget, InboundMessage, OutboundMessage, SendResult,
};
use crate::time::rfc3339_instant;
use crate::types::Timestamp;
use vstd::prelude::*;

verus! {

/// True of the description of a message that a person wrote in a channel.
pub open spec fn from_a_person(d: JsonView) -> bool {
    &&& said(d, "channel_id"@) is Some
    &&& said_in(d, "author"@, "id"@) is Some
    &&& flag(inner(d, "author"@)->0, "bot"@) != Some(true)
}

/// True of a message that says what its description says.
pub open spec fn tells(m: InboundMessage, d: JsonView, bot: Option<Seq<char>>) -> bool {
    &&& m.channel@ == "discord"@
    &&& m.account_id@ == "default"@
    &&& Some(m.sender_id@) == said_in(d, "author"@, "id"@)
    &&& m.sender_name.deep_view() == said_in(d, "author"@, "username"@)
    &&& m.thread_id.deep_view() == said(d, "channel_id"@)
    &&& m.text.deep_view() == said(d, "content"@)
    &&& m.platform_message_id.deep_view() == said(d, "id"@)
    &&& m.is_group == inner(d, "guild_id"@) is Some
    &&& m.is_mention <==> bot is Some && listed(d, "mentions"@) is Some && exists|k: int|
        0 <= k < listed(d, "mentions"@)->0.len() && said(
            #[trigger] listed(d, "mentions"@)->0[k],
            "id"@,
        ) == bot
}

/// True of messages' files that are what their descriptions say, one for each.
pub open spec fn brings_files(m: InboundMessage, d: JsonView) -> bool {
    match listed(d, "attachments"@) {
        Some(files) => m.attachments@.len() == files.len() && forall|i: int|
            0 <= i < files.len() ==> {
                let a = #[trigger] m.attachments@[i];
                &&& a.url.deep_view() == said(files[i], "url"@)
                &&& a.filename.deep_view() == said(files[i], "filename"@)
                &&& a.mime_type@ == match said(files[i], "content_type"@) {
                    Some(t) => t,
                    None => "application/octet-stream"@,
                }
            },
        None => m.attachments@.len() == 0,
    }
}

/// A message that a person wrote arrives: with its author, channel, content,
/// files and identifier, and as a mention exactly where it mentions the bot.
/// Messages of bots do not arrive.
pub proof fn law_message_arrives(
    d: &JsonValue,
    bot: Option<&str>,
    at: Timestamp,
    r: Option<InboundMessage>,
)
    requires
        call_ensures(message_created_at, (d, bot, at), r),
    ensures
        r is Some <==> from_a_person(d@),
        r is Some ==> tells(
            r->0,
            d@,
            match bot {
                Some(id) => Some(id@),
                None => None,
            },
        ) && brings_files(r->0, d@) && r->0.timestamp == at,
{
    if r is Some {
        let m = r->0;
        let files = attachments_in(d@);
        assert(m@.attachments == files);
        assert(m.attachments.deep_view().len() == m.attachments@.len());
        if listed(d@, "attachments"@) is Some {
            assert forall|i: int| 0 <= i < listed(d@, "attachments"@)->0.len() implies {
                let a = #[trigger] m.attachments@[i];
                let f = listed(d@, "attachments"@)->0[i];
                &&& a.url.deep_view() == said(f, "url"@)
                &&& a.filename.deep_view() == said(f, "filename"@)
                &&& a.mime_type@ == match said(f, "content_type"@) {
                    Some(t) => t,
                    None => "application/octet-stream"@,
                }
            } by {
                assert(files[i] == m.attachments@[i]@);
            }
        }
        if bot is Some && listed(d@, "mentions"@) is Some {
            let items = listed(d@, "mentions"@)->0;
            assert forall|k: int| 0 <= k < items.len() implies #[trigger] items[k].text_member(
                "id"@,
            ) == said(items[k], "id"@) by {}
            if m.is_mention {
                let k = choose|k: int|
                    0 <= k < items.len() && (#[trigger] items[k]).text_member("id"@) == Some(
                        bot->0@,
                    );
                assert(said(listed(d@, "mentions"@)->0[k], "id"@) == Some(bot->0@));
            }
        }
    }
}

/// The frame that tells of a new message brings that message; no other frame
/// brings one. A request to reconnect and an invalid session end the connection.
pub proof fn law_frames(
    session: &mut GatewaySession,
    frame: &JsonValue,
    now: Timestamp,
    r: Result<Option<InboundMessage>, FrankClawError>,
)
    requires
        call_ensures(GatewaySession::on_frame, (session, frame, now), r),
    ensures
        number_at(frame@, "op"@) == Some(7int) || number_at(frame@, "op"@) == Some(9int) <==> r is Err,
        r is Ok ==> (r->Ok_0 is Some <==> number_at(frame@, "op"@) == Some(0int) && said(
            frame@,
            "t"@,
        ) == Some("MESSAGE_CREATE"@) && inner(frame@, "d"@) is Some && from_a_person(
            inner(frame@, "d"@)->0,
        )),
        r is Ok && r->Ok_0 is Some ==> tells(
            r->Ok_0->0,
            inner(frame@, "d"@)->0,
            old(session).bot_user_id.deep_view(),
        ),
{
    if r is Ok && r->Ok_0 is Some {
        let d = inner(frame@, "d"@)->0;
        if old(session).bot_user_id is Some && listed(d, "mentions"@) is Some {
            let bot = old(session).bot_user_id->0@;
            let items = listed(d, "mentions"@)->0;
            assert forall|k: int| 0 <= k < items.len() implies #[trigger] items[k].text_member(
                "id"@,
            ) == said(items[k], "id"@) by {}
            if r->Ok_0->0.is_mention {
                let k = choose|k: int|
                    0 <= k < items.len() && (#[trigger] items[k]).text_member("id"@) == Some(bot);
                assert(said(listed(d, "mentions"@)->0[k], "id"@) == Some(bot));
            }
        }
    }
}

/// The frame that greets the bot tells who it is, and no other frame changes
/// that; the sequence number of the last frame that has one is remembered.
pub proof fn law_session_remembers(
    session: &mut GatewaySession,
    frame: &JsonValue,
    now: Timestamp,
    r: Result<Option<InboundMessage>, FrankClawError>,
)
    requires
        call_ensures(GatewaySession::on_frame, (session, frame, now), r),
    ensures
        number_at(frame@, "op"@) == Some(0int) && said(frame@, "t"@) == Some("READY"@) && inner(
            frame@,
            "d"@,
        ) is Some ==> final(session).bot_user_id.deep_view() == said_in(
            inner(frame@, "d"@)->0,
            "user"@,
            "id"@,
        ),
        said(frame@, "t"@) != Some("READY"@) ==> final(session).bot_user_id.deep_view()
            == old(session).bot_user_id.deep_view(),
        number_at(frame@, "s"@) is Some && i64::MIN <= number_at(frame@, "s"@)->0 <= i64::MAX
            ==> final(session).seq == number_at(frame@, "s"@)->0,
        inner(frame@, "s"@) is None ==> final(session).seq == old(session).seq,
{
    assert(final(session)@.seq == final(session).seq);
}

/// A heartbeat gives back the last sequence number, or null before the first.
pub proof fn law_heartbeat(session: &GatewaySession, r: JsonValue)
    requires
        call_ensures(GatewaySession::heartbeat, (session,), r),
    ensures
        inner(r@, "op"@) == Some(amount(1)),
        session.seq >= 0 ==> inner(r@, "d"@) == Some(amount(session.seq as nat)),
        session.seq < 0 ==> inner(r@, "d"@) == Some(JsonView::Null),
{
    reveal_strlit("op");
    reveal_strlit("d");
    assert("op"@.len() == 2);
    assert("d"@.len() == 1);
}

/// A message goes to its thread, where it has one, and else to its recipient;
/// its body is its text, names the message that it answers, and notifies nobody.
pub proof fn law_message_goes_out(msg: &OutboundMessage, text: &str, body: JsonValue, path: String)
    requires
        call_ensures(build_send_body, (msg, text), body),
        call_ensures(send_path, (msg,), path),
    ensures
        said(body@, "content"@) == Some(text@),
        inner(body@, "allowed_mentions"@) is Some,
        listed(inner(body@, "allowed_mentions"@)->0, "parse"@) == Some(Seq::<JsonView>::empty()),
        msg.reply_to is Some ==> said_in(body@, "message_reference"@, "message_id"@) == Some(
            msg.reply_to->0@,
        ),
        msg.reply_to is None ==> inner(body@, "message_reference"@) is None,
        msg.thread_id is Some ==> path@ == "/channels/"@ + msg.thread_id->0@ + "/messages"@,
        msg.thread_id is None ==> path@ == "/channels/"@ + msg.to@ + "/messages"@,
{
    reveal_strlit("content");
    reveal_strlit("allowed_mentions");
    reveal_strlit("message_reference");
    reveal_strlit("parse");
    reveal_strlit("message_id");
    assert("content"@.len() == 7);
    assert("allowed_mentions"@.len() == 16);
    assert("message_reference"@.len() == 17);
}

/// An edit goes to the channel of the message with the new text, and a deletion
/// names the channel and the message.
pub proof fn law_changes_go_out(
    edit: &EditMessageTarget,
    text: &str,
    edited: (String, JsonValue),
    delete: &DeleteMessageTarget,
    path: String,
)
    requires
        call_ensures(build_edit_request, (edit, text), edited),
        call_ensures(delete_path, (delete,), path),
    ensures
        edit.thread_id is Some ==> edited.0@ == edit.thread_id->0@,
        edit.thread_id is None ==> edited.0@ == edit.to@,
        said(edited.1@, "content"@) == Some(text@),
        delete.thread_id is Some ==> path@ == "/channels/"@ + delete.thread_id->0@ + "/messages/"@
            + delete.platform_message_id@,
        delete.thread_id is None ==> path@ == "/channels/"@ + delete.to@ + "/messages/"@
            + delete.platform_message_id@,
{
}

/// An answer means what it says: a rate limit with its wait, success with the
/// identifier of the message, failure with its complaint.
pub proof fn law_answers(
    limited: bool,
    success: bool,
    body: &JsonValue,
    wait: Option<u64>,
    r: SendResult,
)
    requires
        call_ensures(send_result, (limited, success, body, wait), r),
    ensures
        limited <==> r is RateLimited,
        limited ==> r->retry_after_secs == wait,
        !limited ==> (success <==> r is Sent),
        r is Sent && said(body@, "id"@) is Some ==> Some(r->platform_message_id@) == said(
            body@,
            "id"@,
        ),
        r is Failed && said(body@, "message"@) is Some ==> Some(r->reason@) == said(
            body@,
            "message"@,
        ),
{
    assert(r@ is RateLimited == r is RateLimited);
}

/// An edit or a deletion went through exactly where the platform says so.
pub proof fn law_change_answers(
    success: bool,
    body: &JsonValue,
    default: &str,
    r: Result<(), FrankClawError>,
)
    requires
        call_ensures(change_result, (success, body, default), r),
    ensures
        r is Ok <==> success,
{
}

/// The gateway's address and the pace of the heartbeat are the ones that the
/// platform names.
pub proof fn law_connecting(
    answer: &JsonValue,
    url: Result<String, FrankClawError>,
    hello: &JsonValue,
    pace: Result<u64, FrankClawError>,
)
    requires
        call_ensures(gateway_url, (answer,), url),
        call_ensures(heartbeat_interval_ms, (hello,), pace),
    ensures
        url is Ok <==> said(answer@, "url"@) is Some,
        url is Ok ==> url->Ok_0@ == said(answer@, "url"@)->0 + "/?v=10&encoding=json"@,
        pace is Ok ==> inner(hello@, "d"@) is Some && whole(
            inner(hello@, "d"@)->0,
            "heartbeat_interval"@,
        ) == Some(pace->Ok_0 as nat),
        inner(hello@, "d"@) is Some && whole(inner(hello@, "d"@)->0, "heartbeat_interval"@)
            is Some ==> pace is Ok,
{
}

/// The bot identifies itself with its token.
pub proof fn law_identify(token: &str, os: &str, r: JsonValue)
    requires
        call_ensures(identify, (token, os), r),
    ensures
        inner(r@, "op"@) == Some(amount(2)),
        said_in(r@, "d"@, "token"@) == Some(token@),
{
    reveal_strlit("op");
    reveal_strlit("d");
    reveal_strlit("token");
    reveal_strlit("intents");
    reveal_strlit("properties");
    assert("op"@.len() == 2);
    assert("d"@.len() == 1);
    assert("token"@.len() == 5);
    assert("intents"@.len() == 7);
    assert("properties"@.len() == 10);
}

/// A message that a frame brings is the one of its description: with its files,
/// and with its own time where it has one that can be read, else of now.
pub proof fn law_frames_bring_all(
    session: &mut GatewaySession,
    frame: &JsonValue,
    now: Timestamp,
    d: &JsonValue,
    bot: Option<&str>,
    at: Timestamp,
    direct: Option<InboundMessage>,
    made: Option<InboundMessage>,
    r: Result<Option<InboundMessage>, FrankClawError>,
)
    requires
        call_ensures(GatewaySession::on_frame, (session, frame, now), r),
        number_at(frame@, "op"@) == Some(0int),
        said(frame@, "t"@) == Some("MESSAGE_CREATE"@),
        inner(frame@, "d"@) == Some(d@),
        (match bot {
            Some(id) => Some(id@),
            None => None,
        }) == old(session).bot_user_id.deep_view(),
        at == (if said(d@, "timestamp"@) is Some && rfc3339_instant(
            said(d@, "timestamp"@)->0,
        ) is Some {
            rfc3339_instant(said(d@, "timestamp"@)->0)->0
        } else {
            now
        }),
        call_ensures(message_created_at, (d, bot, at), direct),
        call_ensures(parse_message_create, (d, bot, now), made),
    ensures
        r is Ok,
        r->Ok_0.deep_view() == direct.deep_view(),
        made.deep_view() == direct.deep_view(),
{
}

/// The size of a file is the one that its description names.
pub proof fn law_file_sizes(
    d: &JsonValue,
    bot: Option<&str>,
    at: Timestamp,
    i: int,
    r: Option<InboundMessage>,
)
    requires
        call_ensures(message_created_at, (d, bot, at), r),
        r is Some,
        listed(d@, "attachments"@) is Some,
        0 <= i < listed(d@, "attachments"@)->0.len(),
    ensures
        ({
            let named = whole(listed(d@, "attachments"@)->0[i], "size"@);
            let file = r->0.attachments@[i];
            &&& file.size_bytes is Some <==> named is Some
            &&& named is Some && named->0 <= u64::MAX ==> file.size_bytes->0 == named->0
            &&& file.media_id is None
        }),
{
    let files = attachments_in(d@);
    assert(r->0@.attachments == files);
    assert(files[i] == r->0.attachments@[i]@);
}

/// The bot asks for the events that it can use, as itself.
pub proof fn law_intents(token: &str, os: &str, r: JsonValue)
    requires
        call_ensures(identify, (token, os), r),
    ensures
        inner(r@, "d"@) is Some,
        whole(inner(r@, "d"@)->0, "intents"@) == Some(37377nat),
        said_in(inner(r@, "d"@)->0, "properties"@, "os"@) == Some(os@),
{
    reveal_strlit("op");
    reveal_strlit("d");
    reveal_strlit("token");
    reveal_strlit("intents");
    reveal_strlit("properties");
    reveal_strlit("os");
    reveal_strlit("browser");
    reveal_strlit("device");
    assert("op"@.len() == 2);
    assert("d"@.len() == 1);
    assert("token"@.len() == 5);
    assert("intents"@.len() == 7);
    assert("properties"@.len() == 10);
    assert("os"@.len() == 2);
    assert("browser"@.len() == 7);
    assert("device"@.len() == 6);
}

/// A change that did not go through is an error of the channel, in the
/// platform's words, else in the given ones.
pub proof fn law_failed_changes(body: &JsonValue, default: &str, r: Result<(), FrankClawError>)
    requires
        call_ensures(change_result, (false, body, default), r),
    ensures
        r is Err,
        r->Err_0 is Channel,
        r->Err_0->channel@ == "discord"@,
        said(body@, "message"@) is Some ==> r->Err_0->Channel_msg@ == said(body@, "message"@)->0,
        said(body@, "message"@) is None ==> r->Err_0->Channel_msg@ == default@,
{
}

/// A new connection knows what an earlier one knew of the bot, and has seen no
/// frame.
pub proof fn law_new_connection(bot: Option<String>, session: GatewaySession, beat: JsonValue)
    requires
        call_ensures(GatewaySession::new, (bot,), session),
        call_ensures(GatewaySession::heartbeat, (&session,), beat),
    ensures
        session.bot_user_id == bot,
        inner(beat@, "d"@) == Some(JsonView::Null),
{
    reveal_strlit("op");
    reveal_strlit("d");
    assert("op"@.len() == 2);
    assert("d"@.len() == 1);
}

/// A frame of the gateway is read as any frame is, in the channel's name.
pub proof fn law_gateway_frames(
    frame: SocketFrame,
    channel: &str,
    peer: &str,
    plain: Result<JsonValue, FrankClawError>,
    r: Result<JsonValue, FrankClawError>,
)
    requires
        channel@ == "discord"@,
        peer@ == "discord gateway"@,
        call_ensures(parse_frame, (channel, peer, frame), plain),
        call_ensures(parse_gateway_message, (frame,), r),
    ensures
        r is Ok <==> plain is Ok,
        r is Ok ==> r->Ok_0@ == plain->Ok_0@,
        r is Err ==> r->Err_0@ == plain->Err_0@,
{
}

} // verus!
