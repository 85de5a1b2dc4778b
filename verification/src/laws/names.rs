//! Names: session keys, identifiers of files, times, and the types of files.

use crate::channels::inbound_media::{
    infer_from_extension, infer_from_name, infer_from_url, infer_inbound_mime_type,
};
use crate::channels::media_text::{
    normalize_mime_type, placeholder_for, text_or_attachment_placeholder,
};
use crate::channels::slack::parse_slack_timestamp;
use crate::channels::socket::{
    frame_text, parse_frame, probed_health, text_in_answer, Probe, SocketFrame,
};
use crate::channels::web::WebChannel;
use crate::channels::{loaded_index, ChannelSet, LoadedChannel};
use crate::error::FrankClawError;
use crate::json::{lemma_items, same_value, JsonObject, JsonValue};
use crate::laws::terms::{flag, inner, listed, said, whole};
use crate::media::MediaId;
use crate::message::{ChannelCapabilities, HealthStatus, InboundAttachment};
use crate::text::{
    after_last, ascii_lower, before_first, byte_len, decimal, is_blank, lower_char, signed_of,
    trimmed,
};
use crate::text_map::TextMap;
use crate::time::{is_representable, parse_unix_timestamp};
use crate::types::{
    clamp_id, law_session_key_round_trip, lemma_cut, AgentId, ChannelId, RequestId, SessionKey,
    Timestamp,
};
use vstd::prelude::*;

verus! {

/// The key of a session gives back the agent, the channel and the account that
/// it was made of.
pub proof fn law_key_reads_back(
    agent: &AgentId,
    channel: &ChannelId,
    account: &str,
    key: SessionKey,
    r: Option<(AgentId, ChannelId, String)>,
)
    requires
        call_ensures(SessionKey::new, (agent, channel, account), key),
        call_ensures(SessionKey::parse, (&key,), r),
        !agent@.contains(':'),
        !channel@.contains(':'),
        byte_len(agent@) <= 255,
        byte_len(channel@) <= 255,
    ensures
        match r {
            Some((a, c, t)) => a@ == agent@ && c@ == channel@ && t@ == account@,
            None => false,
        },
{
    law_session_key_round_trip(agent@, channel@, account@);
}

/// Different sessions have different keys.
pub proof fn law_keys_differ(
    agent: &AgentId,
    channel: &ChannelId,
    account: &str,
    agent2: &AgentId,
    channel2: &ChannelId,
    account2: &str,
    key: SessionKey,
    key2: SessionKey,
)
    requires
        call_ensures(SessionKey::new, (agent, channel, account), key),
        call_ensures(SessionKey::new, (agent2, channel2, account2), key2),
        !agent@.contains(':') && !channel@.contains(':'),
        !agent2@.contains(':') && !channel2@.contains(':'),
        byte_len(agent@) <= 255 && byte_len(channel@) <= 255,
        byte_len(agent2@) <= 255 && byte_len(channel2@) <= 255,
    ensures
        key@ == key2@ ==> agent@ == agent2@ && channel@ == channel2@ && account@ == account2@,
{
    law_session_key_round_trip(agent@, channel@, account@);
    law_session_key_round_trip(agent2@, channel2@, account2@);
}

/// A name that fits stays as it is; a longer one keeps as much of its beginning
/// as fits.
pub proof fn law_names_fit(
    s: &str,
    r: String,
    agent: AgentId,
    channel: ChannelId,
    key: SessionKey,
)
    requires
        call_ensures(clamp_id, (s,), r),
        call_ensures(AgentId::new, (s,), agent),
        call_ensures(ChannelId::new, (s,), channel),
        call_ensures(SessionKey::from_raw, (s,), key),
    ensures
        r@.is_prefix_of(s@) && byte_len(r@) <= 255,
        byte_len(s@) <= 255 ==> r@ == s@ && agent@ == s@ && channel@ == s@,
        agent@ == r@ && channel@ == r@,
        key@.is_prefix_of(s@) && byte_len(key@) <= 800,
        byte_len(s@) <= 800 ==> key@ == s@,
        forall|p: Seq<char>|
            #![trigger p.is_prefix_of(s@)]
            p.is_prefix_of(s@) && byte_len(p) <= 255 ==> p.len() <= r@.len(),
{
    lemma_cut(s@, 255);
    lemma_cut(s@, 800);
}

/// The identifier of a file reads back from its text, white space aside.
pub proof fn law_file_id_reads_back(id: &MediaId, text: &str, written: String, r: Option<MediaId>)
    requires
        call_ensures(MediaId::to_text, (id,), written),
        text@ == written@,
        call_ensures(MediaId::parse, (text,), r),
    ensures
        r == Some(*id),
{
}

/// A number of seconds since the Unix epoch is the moment that it says.
pub proof fn law_unix_time(text: &str, secs: i64, dated: bool, r: Option<Timestamp>)
    requires
        call_ensures(parse_unix_timestamp, (text,), r),
        call_ensures(is_representable, (Timestamp { secs, nanos: 0 },), dated),
        signed_of(text@) == Some(secs as int),
    ensures
        r is Some <==> dated,
        r is Some ==> r->0.secs == secs && r->0.nanos == 0,
        0 <= secs <= 8210266876799 ==> dated,
{
}

/// What is put into a map is found there, what is taken out is not, and nothing
/// else changes.
pub proof fn law_map(
    map: &mut TextMap<String>,
    key: &str,
    value: String,
    asked: &str,
    before: Option<&String>,
    middle: &TextMap<String>,
    found: Option<&String>,
    end: &mut TextMap<String>,
    taken: Option<String>,
    after: &TextMap<String>,
    gone: Option<&String>,
)
    requires
        call_ensures(TextMap::<String>::get, (&*old(map), asked), before),
        call_ensures(TextMap::<String>::insert, (map, key, value), ()),
        *middle == *final(map),
        call_ensures(TextMap::<String>::get, (middle, asked), found),
        *old(end) == *middle,
        call_ensures(TextMap::<String>::remove, (end, key), taken),
        *after == *final(end),
        call_ensures(TextMap::<String>::get, (after, asked), gone),
    ensures
        taken == Some(value),
        asked@ == key@ ==> found is Some && *found->0 == value && gone is None,
        asked@ != key@ ==> found is Some == before is Some && gone is Some == before is Some,
        asked@ != key@ && before is Some ==> *found->0 == *before->0 && *gone->0 == *before->0,
{
}

/// What is put into a JSON object is found in it, and nothing else changes.
pub proof fn law_object(
    o: &mut JsonObject,
    key: &str,
    value: JsonValue,
    before: JsonValue,
    end: JsonObject,
    after: JsonValue,
    asked: Seq<char>,
)
    requires
        call_ensures(JsonObject::finish, (*old(o),), before),
        call_ensures(JsonObject::put, (o, key, value), ()),
        end == *final(o),
        call_ensures(JsonObject::finish, (end,), after),
    ensures
        inner(after@, key@) == Some(value@),
        asked != key@ ==> inner(after@, asked) == inner(before@, asked),
{
}

/// A member of a JSON value is the one under its key.
pub proof fn law_member(j: &JsonValue, key: &str, r: Option<&JsonValue>, text: Option<&str>)
    requires
        call_ensures(JsonValue::get, (j, key), r),
        call_ensures(JsonValue::get_str, (j, key), text),
    ensures
        r is Some <==> inner(j@, key@) is Some,
        r is Some ==> r->0@ == inner(j@, key@)->0,
        text is Some <==> said(j@, key@) is Some,
        text is Some ==> text->0@ == said(j@, key@)->0,
{
}

/// A file has the type that is given; without one, the type of its name; without
/// that, the type of its address; else it is any bytes.
pub proof fn law_file_type(
    explicit: Option<&str>,
    filename: Option<&str>,
    url: Option<&str>,
    by_name: Option<String>,
    by_url: Option<String>,
    r: String,
)
    requires
        call_ensures(infer_from_name, (filename,), by_name),
        call_ensures(infer_from_url, (url,), by_url),
        call_ensures(infer_inbound_mime_type, (explicit, filename, url), r),
    ensures
        ({
            let given = explicit is Some && !is_blank(explicit->0@);
            &&& given ==> r@ == trimmed(explicit->0@)
            &&& !given && by_name is Some ==> r@ == by_name->0@
            &&& !given && by_name is None && by_url is Some ==> r@ == by_url->0@
            &&& !given && by_name is None && by_url is None ==> r@ == "application/octet-stream"@
        }),
{
    assert(by_name.deep_view() is Some == by_name is Some);
    assert(by_url.deep_view() is Some == by_url is Some);
}

/// The type of a name is that of what follows its last dot, in lower case; that
/// of an address is the type of its last part, without the query.
pub proof fn law_type_by_extension(
    name: &str,
    ext: &str,
    url: &str,
    path: &str,
    known: Option<&'static str>,
    by_name: Option<String>,
    by_path: Option<String>,
    by_url: Option<String>,
)
    requires
        call_ensures(infer_from_name, (Some(name),), by_name),
        ext@ == trimmed(after_last(trimmed(name@), '.')).map_values(|c: char| lower_char(c)),
        call_ensures(infer_from_extension, (ext,), known),
        call_ensures(infer_from_url, (Some(url),), by_url),
        path@ == after_last(before_first(trimmed(url@), '?'), '/'),
        call_ensures(infer_from_name, (Some(path),), by_path),
    ensures
        by_name is Some <==> known is Some,
        by_name is Some ==> by_name->0@ == known->0@,
        by_url is Some <==> by_path is Some,
        by_url is Some ==> by_url->0@ == by_path->0@,
{
    assert(ext@ =~= ascii_lower(trimmed(after_last(trimmed(name@), '.'))));
    assert(by_name.deep_view() is Some == by_name is Some);
    assert(by_url.deep_view() is Some == by_url is Some);
    assert(by_path.deep_view() is Some == by_path is Some);
}

/// The text of a message is its own, trimmed; a message of files alone says how
/// many there are, or what the only one is; and one with neither has none.
pub proof fn law_text_of_files(
    text: Option<&str>,
    attachments: &Vec<InboundAttachment>,
    mime: &str,
    only: &'static str,
    r: Option<String>,
)
    requires
        call_ensures(text_or_attachment_placeholder, (text, attachments), r),
        attachments@.len() == 1 ==> mime@ == attachments@[0].mime_type@,
        call_ensures(placeholder_for, (mime,), only),
    ensures
        ({
            let own = text is Some && !is_blank(text->0@);
            &&& own ==> r is Some && r->0@ == trimmed(text->0@)
            &&& !own ==> (r is Some <==> attachments@.len() > 0)
            &&& !own && attachments@.len() == 1 ==> r->0@ == only@
            &&& !own && attachments@.len() > 1 ==> r->0@ == "<media:attachments>"@
        }),
        "image/"@.is_prefix_of(mime@) ==> only@ == "<media:image>"@,
{
    assert(attachments.deep_view().len() == attachments@.len());
    if attachments@.len() == 1 {
        assert(attachments.deep_view()[0] == attachments@[0]@);
    }
    assert(r.deep_view() is Some == r is Some);
}

/// A type without its parameters: what stands before the first semicolon,
/// trimmed, in lower case.
pub proof fn law_bare_type(mime: &str, r: String)
    requires
        call_ensures(normalize_mime_type, (mime,), r),
    ensures
        r@ == trimmed(before_first(mime@, ';')).map_values(|c: char| lower_char(c)),
{
    assert(r@ =~= trimmed(before_first(mime@, ';')).map_values(|c: char| lower_char(c)));
}

/// A text frame and a binary one say their text; a frame that closes, is broken
/// or is of another kind is an error of the channel.
pub proof fn law_frames(
    channel: &str,
    peer: &str,
    frame: SocketFrame,
    text: Result<String, FrankClawError>,
    r: Result<JsonValue, FrankClawError>,
)
    requires
        call_ensures(frame_text, (channel, peer, frame), text),
        call_ensures(parse_frame, (channel, peer, frame), r),
    ensures
        frame is Text ==> text is Ok && text->Ok_0@ == frame->Text_0@,
        frame is Binary && frame->Binary_0 is Ok ==> text is Ok && text->Ok_0@
            == frame->Binary_0->Ok_0@,
        frame is Close || frame is Other || frame is Binary && frame->Binary_0 is Err ==> text is Err
            && r is Err && r->Err_0@ == text->Err_0@ && text->Err_0@ is Channel,
        text is Ok ==> match crate::json::json_in(vstd::utf8::encode_utf8(text->Ok_0@)) {
            Ok(j) => r is Ok && r->Ok_0@ == j,
            Err(_) => r is Err && r->Err_0@ is Channel,
        },
{
}

/// A platform that answers well is connected, one that answers badly degraded,
/// and one that cannot be reached disconnected, for the reason that was given.
pub proof fn law_health(probe: Probe, r: HealthStatus)
    requires
        call_ensures(probed_health, (probe,), r),
    ensures
        r is Connected <==> probe is Answered && probe->success,
        r is Degraded <==> probe is Answered && !probe->success,
        r is Degraded ==> r->Degraded_reason@ == "HTTP "@ + probe->status@,
        r is Disconnected <==> probe is Unreachable,
        r is Disconnected ==> r->Disconnected_reason@ == probe->reason@,
{
}

/// The text in an answer is the one under its key, else what stands in for it.
pub proof fn law_text_in_answer(body: &JsonValue, key: &str, default: &str, r: String)
    requires
        call_ensures(text_in_answer, (body, key, default), r),
    ensures
        said(body@, key@) is Some ==> r@ == said(body@, key@)->0,
        said(body@, key@) is None ==> r@ == default@,
{
}

/// The members of a JSON value are read by their kind, and a value of another
/// kind is not read.
pub proof fn law_members(
    j: &JsonValue,
    key: &str,
    truth: Option<bool>,
    amount: Option<u64>,
    list: Option<&Vec<JsonValue>>,
    text: Option<String>,
    whole_number: Option<i64>,
)
    requires
        call_ensures(JsonValue::get_bool, (j, key), truth),
        call_ensures(JsonValue::get_u64, (j, key), amount),
        call_ensures(JsonValue::get_array, (j, key), list),
        call_ensures(JsonValue::get_text, (j, key), text),
        call_ensures(JsonValue::get_i64, (j, key), whole_number),
    ensures
        truth == flag(j@, key@),
        amount is Some <==> whole(j@, key@) is Some,
        amount is Some ==> amount->0 == whole(j@, key@)->0,
        list is Some <==> listed(j@, key@) is Some,
        list is Some ==> list->0@.len() == listed(j@, key@)->0.len() && forall|i: int|
            0 <= i < list->0@.len() ==> (#[trigger] list->0@[i])@ == listed(j@, key@)->0[i],
        text.deep_view() == said(j@, key@),
        whole(j@, key@) is Some && whole(j@, key@)->0 <= i64::MAX ==> whole_number is Some
            && whole_number->0 == whole(j@, key@)->0,
{
    if list is Some {
        lemma_items(list->0@);
    }
}

/// Two JSON values are the same exactly if they say the same.
pub proof fn law_same_value(a: &JsonValue, b: &JsonValue, r: bool, back: bool)
    requires
        call_ensures(same_value, (a, b), r),
        call_ensures(same_value, (b, a), back),
    ensures
        r <==> a@ == b@,
        r == back,
{
}

/// The moment of a Slack message is the whole seconds before the dot.
pub proof fn law_slack_time(
    value: &str,
    secs: &str,
    whole_secs: Option<Timestamp>,
    r: Option<Timestamp>,
)
    requires
        call_ensures(parse_slack_timestamp, (value,), r),
        secs@ == before_first(value@, '.'),
        call_ensures(parse_unix_timestamp, (secs,), whole_secs),
    ensures
        r == whole_secs,
{
}

/// The identifier of a request as text is its text, or its digits.
pub proof fn law_request_id(id: &RequestId, r: String)
    requires
        call_ensures(RequestId::to_text, (id,), r),
    ensures
        id is Text ==> r@ == id->Text_0@,
        id is Number ==> r@ == decimal(id->Number_0 as nat),
{
}

/// A channel that was loaded is found by its name, and none where there is none
/// of that name.
pub proof fn law_loaded_channel(
    set: &ChannelSet,
    id: &ChannelId,
    at: int,
    r: Option<&LoadedChannel>,
)
    requires
        call_ensures(ChannelSet::get, (set, id), r),
    ensures
        0 <= at < set.channels@.len() && set.channels@[at].0@ == id@ && (forall|k: int|
            0 <= k < at ==> (#[trigger] set.channels@[k]).0@ != id@) ==> r is Some && *r->0
            == set.channels@[at].1,
        (forall|k: int| 0 <= k < set.channels@.len() ==> (#[trigger] set.channels@[k]).0@ != id@)
            ==> r is None,
{
    lemma_loaded_index(set.channels@, id@, 0);
    let i = loaded_index(set.channels@, id@, 0);
    if 0 <= at < set.channels@.len() && set.channels@[at].0@ == id@ && (forall|k: int|
        0 <= k < at ==> (#[trigger] set.channels@[k]).0@ != id@) {
        if i < at {
            assert(set.channels@[i].0@ != id@);
        }
        if at < i {
            assert(set.channels@[at].0@ != id@);
        }
    }
}

proof fn lemma_loaded_index(channels: Seq<(ChannelId, LoadedChannel)>, id: Seq<char>, i: int)
    requires
        0 <= i <= channels.len(),
    ensures
        i <= loaded_index(channels, id, i) <= channels.len(),
        loaded_index(channels, id, i) < channels.len() ==> channels[loaded_index(
            channels,
            id,
            i,
        )].0@ == id,
        forall|k: int| i <= k < loaded_index(channels, id, i) ==> (#[trigger] channels[k]).0@ != id,
    decreases channels.len() - i,
{
    if i < channels.len() && channels[i].0@ != id {
        lemma_loaded_index(channels, id, i + 1);
    }
}

proof fn lemma_extensions()
    ensures
        "png"@.len() == 3 && "png"@[0] == 'p' && "png"@[1] == 'n',
        "jpg"@.len() == 3 && "jpg"@[0] == 'j',
        "jpeg"@.len() == 4 && "jpeg"@[0] == 'j' && "jpeg"@[1] == 'p',
        "gif"@.len() == 3 && "gif"@[0] == 'g',
        "webp"@.len() == 4 && "webp"@[0] == 'w' && "webp"@[3] == 'p',
        "svg"@.len() == 3 && "svg"@[0] == 's',
        "mp3"@.len() == 3 && "mp3"@[0] == 'm' && "mp3"@[1] == 'p' && "mp3"@[2] == '3',
        "m4a"@.len() == 3 && "m4a"@[0] == 'm' && "m4a"@[1] == '4',
        "ogg"@.len() == 3 && "ogg"@[0] == 'o' && "ogg"@[2] == 'g',
        "oga"@.len() == 3 && "oga"@[0] == 'o' && "oga"@[2] == 'a',
        "wav"@.len() == 3 && "wav"@[0] == 'w',
        "flac"@.len() == 4 && "flac"@[0] == 'f',
        "mp4"@.len() == 3 && "mp4"@[0] == 'm' && "mp4"@[1] == 'p' && "mp4"@[2] == '4',
        "mov"@.len() == 3 && "mov"@[0] == 'm' && "mov"@[1] == 'o',
        "webm"@.len() == 4 && "webm"@[0] == 'w' && "webm"@[3] == 'm',
        "pdf"@.len() == 3 && "pdf"@[0] == 'p' && "pdf"@[1] == 'd',
        "json"@.len() == 4 && "json"@[0] == 'j' && "json"@[1] == 's',
        "csv"@.len() == 3 && "csv"@[0] == 'c',
        "zip"@.len() == 3 && "zip"@[0] == 'z',
        "md"@.len() == 2,
        "txt"@.len() == 3 && "txt"@[0] == 't',
        "log"@.len() == 3 && "log"@[0] == 'l',
{
    reveal_strlit("png");
    reveal_strlit("jpg");
    reveal_strlit("jpeg");
    reveal_strlit("gif");
    reveal_strlit("webp");
    reveal_strlit("svg");
    reveal_strlit("mp3");
    reveal_strlit("m4a");
    reveal_strlit("ogg");
    reveal_strlit("oga");
    reveal_strlit("wav");
    reveal_strlit("flac");
    reveal_strlit("mp4");
    reveal_strlit("mov");
    reveal_strlit("webm");
    reveal_strlit("pdf");
    reveal_strlit("json");
    reveal_strlit("csv");
    reveal_strlit("zip");
    reveal_strlit("md");
    reveal_strlit("txt");
    reveal_strlit("log");
}

/// Most types are named after their extension: behind `image/` for pictures,
/// `audio/` for sounds, `video/` for films and `application/` for documents.
pub proof fn law_types_are_named_after_extensions(ext: &str, r: Option<&'static str>)
    requires
        call_ensures(infer_from_extension, (ext,), r),
    ensures
        ext@ == "png"@ || ext@ == "gif"@ || ext@ == "webp"@ || ext@ == "jpeg"@ ==> r is Some
            && r->0@ == "image/"@ + ext@,
        ext@ == "ogg"@ || ext@ == "wav"@ || ext@ == "flac"@ ==> r is Some && r->0@ == "audio/"@
            + ext@,
        ext@ == "mp4"@ || ext@ == "webm"@ ==> r is Some && r->0@ == "video/"@ + ext@,
        ext@ == "pdf"@ || ext@ == "json"@ || ext@ == "zip"@ ==> r is Some && r->0@
            == "application/"@ + ext@,
{
    lemma_extensions();
    lemma_type_names();
}

proof fn lemma_type_names()
    ensures
        "image/png"@ == "image/"@ + "png"@,
        "image/gif"@ == "image/"@ + "gif"@,
        "image/webp"@ == "image/"@ + "webp"@,
        "image/jpeg"@ == "image/"@ + "jpeg"@,
        "audio/ogg"@ == "audio/"@ + "ogg"@,
        "audio/wav"@ == "audio/"@ + "wav"@,
        "audio/flac"@ == "audio/"@ + "flac"@,
        "video/mp4"@ == "video/"@ + "mp4"@,
        "video/webm"@ == "video/"@ + "webm"@,
        "application/pdf"@ == "application/"@ + "pdf"@,
        "application/json"@ == "application/"@ + "json"@,
        "application/zip"@ == "application/"@ + "zip"@,
{
    reveal_strlit("image/");
    reveal_strlit("audio/");
    reveal_strlit("video/");
    reveal_strlit("application/");
    reveal_strlit("png");
    reveal_strlit("gif");
    reveal_strlit("webp");
    reveal_strlit("jpeg");
    reveal_strlit("ogg");
    reveal_strlit("wav");
    reveal_strlit("flac");
    reveal_strlit("mp4");
    reveal_strlit("webm");
    reveal_strlit("pdf");
    reveal_strlit("json");
    reveal_strlit("zip");
    reveal_strlit("image/png");
    reveal_strlit("image/gif");
    reveal_strlit("image/webp");
    reveal_strlit("image/jpeg");
    reveal_strlit("audio/ogg");
    reveal_strlit("audio/wav");
    reveal_strlit("audio/flac");
    reveal_strlit("video/mp4");
    reveal_strlit("video/webm");
    reveal_strlit("application/pdf");
    reveal_strlit("application/json");
    reveal_strlit("application/zip");
    assert("image/png"@ =~= "image/"@ + "png"@);
    assert("image/gif"@ =~= "image/"@ + "gif"@);
    assert("image/webp"@ =~= "image/"@ + "webp"@);
    assert("image/jpeg"@ =~= "image/"@ + "jpeg"@);
    assert("audio/ogg"@ =~= "audio/"@ + "ogg"@);
    assert("audio/wav"@ =~= "audio/"@ + "wav"@);
    assert("audio/flac"@ =~= "audio/"@ + "flac"@);
    assert("video/mp4"@ =~= "video/"@ + "mp4"@);
    assert("video/webm"@ =~= "video/"@ + "webm"@);
    assert("application/pdf"@ =~= "application/"@ + "pdf"@);
    assert("application/json"@ =~= "application/"@ + "json"@);
    assert("application/zip"@ =~= "application/"@ + "zip"@);
}

/// Discord and Slack can change what they sent and know threads; WhatsApp and
/// the web can do neither; all of them carry files.
pub proof fn law_what_channels_can_do(
    discord: ChannelCapabilities,
    slack: ChannelCapabilities,
    whatsapp: ChannelCapabilities,
    web: ChannelCapabilities,
)
    requires
        call_ensures(crate::channels::discord::capabilities, (), discord),
        call_ensures(crate::channels::slack::capabilities, (), slack),
        call_ensures(crate::channels::whatsapp::capabilities, (), whatsapp),
        call_ensures(WebChannel::capabilities, (), web),
    ensures
        discord.edit && discord.delete && discord.threads && discord.groups,
        slack.edit && slack.delete && slack.threads && slack.groups,
        !whatsapp.edit && !whatsapp.delete && !whatsapp.threads,
        !web.edit && !web.delete && !web.threads && web.streaming,
        discord.attachments && slack.attachments && whatsapp.attachments && web.attachments,
{
}

} // verus!
