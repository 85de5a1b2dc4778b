//! WhatsApp: which messages of a payload arrive, in which order and with what,
//! and what goes out.

use crate::channels::media_text::{normalize_mime_type, text_or_attachment_placeholder};
use crate::channels::slack::parse_retry_after;
use crate::channels::whatsapp::{
    build_inbound_attachments, build_media_send_body, build_send_body, change_messages,
    changes_messages, classify_whatsapp_send_error, contact_name, contacts_in, entries_messages,
    entry_messages, extract_message_text, is_processable_message_type, message_in, message_text,
    messages_of, parse_webhook_payload, payload_messages, send_result, uploaded_media_id,
    AttachmentKind, WhatsAppChannel,
};
use crate::error::FrankClawError;
use crate::json::{JsonValue, JsonView};
use crate::laws::terms::{inner, listed, said, said_in, whole};
use crate::message::{InboundAttachment, InboundMessage, InboundView, OutboundMessage, SendResult};
use crate::signature::{encode_signature, law_signature_holds};
use crate::text::trimmed;
use crate::time::parse_unix_timestamp;
use crate::types::Timestamp;
use vstd::prelude::*;

verus! {

proof fn lemma_entries_add(a: Seq<JsonView>, b: Seq<JsonView>, now: Timestamp)
    ensures
        entries_messages(a + b, now) == entries_messages(a, now) + entries_messages(b, now),
    decreases b.len(),
{
    if b.len() == 0 {
        assert(a + b =~= a);
        assert(entries_messages(a, now) + Seq::<InboundView>::empty() =~= entries_messages(a, now));
    } else {
        assert((a + b).drop_last() =~= a + b.drop_last());
        lemma_entries_add(a, b.drop_last(), now);
        assert(entries_messages(a + b, now) =~= entries_messages(a, now) + entries_messages(
            b,
            now,
        ));
    }
}

proof fn lemma_changes_add(a: Seq<JsonView>, b: Seq<JsonView>, now: Timestamp)
    ensures
        changes_messages(a + b, now) == changes_messages(a, now) + changes_messages(b, now),
    decreases b.len(),
{
    if b.len() == 0 {
        assert(a + b =~= a);
        assert(changes_messages(a, now) + Seq::<InboundView>::empty() =~= changes_messages(a, now));
    } else {
        assert((a + b).drop_last() =~= a + b.drop_last());
        lemma_changes_add(a, b.drop_last(), now);
        assert(changes_messages(a + b, now) =~= changes_messages(a, now) + changes_messages(
            b,
            now,
        ));
    }
}

proof fn lemma_messages_add(v: JsonView, a: Seq<JsonView>, b: Seq<JsonView>, now: Timestamp)
    ensures
        messages_of(v, a + b, now) == messages_of(v, a, now) + messages_of(v, b, now),
    decreases b.len(),
{
    if b.len() == 0 {
        assert(a + b =~= a);
        assert(messages_of(v, a, now) + Seq::<InboundView>::empty() =~= messages_of(v, a, now));
    } else {
        assert((a + b).drop_last() =~= a + b.drop_last());
        lemma_messages_add(v, a, b.drop_last(), now);
        assert(messages_of(v, a + b, now) =~= messages_of(v, a, now) + messages_of(v, b, now));
    }
}

/// The messages of a payload are those of its first entries and then those of
/// the others.
pub proof fn law_entries_in_order(
    first: &JsonValue,
    others: &JsonValue,
    all: &JsonValue,
    now: Timestamp,
    r_first: Vec<InboundMessage>,
    r_others: Vec<InboundMessage>,
    r_all: Vec<InboundMessage>,
)
    requires
        listed(first@, "entry"@) is Some,
        listed(others@, "entry"@) is Some,
        listed(all@, "entry"@) == Some(
            listed(first@, "entry"@)->0 + listed(others@, "entry"@)->0,
        ),
        call_ensures(parse_webhook_payload, (first, now), r_first),
        call_ensures(parse_webhook_payload, (others, now), r_others),
        call_ensures(parse_webhook_payload, (all, now), r_all),
    ensures
        r_all.deep_view() == r_first.deep_view() + r_others.deep_view(),
{
    lemma_entries_add(listed(first@, "entry"@)->0, listed(others@, "entry"@)->0, now);
}

/// True of a payload with one entry that holds the given changes.
pub open spec fn one_entry(payload: JsonView, changes: Seq<JsonView>) -> bool {
    listed(payload, "entry"@) is Some && listed(payload, "entry"@)->0.len() == 1 && listed(
        listed(payload, "entry"@)->0[0],
        "changes"@,
    ) == Some(changes)
}

proof fn lemma_one_entry(payload: JsonView, changes: Seq<JsonView>, now: Timestamp)
    requires
        one_entry(payload, changes),
    ensures
        payload_messages(payload, now) == changes_messages(changes, now),
{
    let entries = listed(payload, "entry"@)->0;
    assert(entries.drop_last() =~= Seq::empty());
    assert(entries_messages(entries.drop_last(), now) =~= Seq::empty());
    assert(entry_messages(entries[0], now) == changes_messages(changes, now));
    assert(Seq::<InboundView>::empty() + changes_messages(changes, now) =~= changes_messages(
        changes,
        now,
    ));
}

/// The messages of an entry are those of its first changes and then those of the
/// others.
pub proof fn law_changes_in_order(
    first: &JsonValue,
    others: &JsonValue,
    all: &JsonValue,
    a: Seq<JsonView>,
    b: Seq<JsonView>,
    now: Timestamp,
    r_first: Vec<InboundMessage>,
    r_others: Vec<InboundMessage>,
    r_all: Vec<InboundMessage>,
)
    requires
        one_entry(first@, a),
        one_entry(others@, b),
        one_entry(all@, a + b),
        call_ensures(parse_webhook_payload, (first, now), r_first),
        call_ensures(parse_webhook_payload, (others, now), r_others),
        call_ensures(parse_webhook_payload, (all, now), r_all),
    ensures
        r_all.deep_view() == r_first.deep_view() + r_others.deep_view(),
{
    lemma_one_entry(first@, a, now);
    lemma_one_entry(others@, b, now);
    lemma_one_entry(all@, a + b, now);
    lemma_changes_add(a, b, now);
}

/// True of a payload with one change that holds the given value.
pub open spec fn one_change(payload: JsonView, value: JsonView) -> bool {
    exists|change: JsonView|
        one_entry(payload, #[trigger] seq![change]) && inner(change, "value"@) == Some(value)
}

proof fn lemma_one_change(payload: JsonView, value: JsonView, now: Timestamp)
    requires
        one_change(payload, value),
        listed(value, "messages"@) is Some,
    ensures
        payload_messages(payload, now) == messages_of(
            value,
            listed(value, "messages"@)->0,
            now,
        ),
{
    let change = choose|change: JsonView|
        one_entry(payload, #[trigger] seq![change]) && inner(change, "value"@) == Some(value);
    let changes = seq![change];
    lemma_one_entry(payload, changes, now);
    assert(changes.drop_last() =~= Seq::empty());
    assert(changes_messages(changes.drop_last(), now) =~= Seq::empty());
    assert(changes.last() == change);
    assert(Seq::<InboundView>::empty() + change_messages(change, now) =~= change_messages(
        change,
        now,
    ));
}

proof fn lemma_same_value(v: JsonView, w: JsonView, messages: Seq<JsonView>, now: Timestamp)
    requires
        inner(v, "contacts"@) == inner(w, "contacts"@),
        inner(v, "metadata"@) == inner(w, "metadata"@),
    ensures
        messages_of(v, messages, now) == messages_of(w, messages, now),
    decreases messages.len(),
{
    if messages.len() > 0 {
        lemma_same_value(v, w, messages.drop_last(), now);
    }
}

/// The messages of a change are those of its first entries and then those of the
/// others.
pub proof fn law_messages_in_order(
    first: &JsonValue,
    others: &JsonValue,
    all: &JsonValue,
    v_first: JsonView,
    v_others: JsonView,
    v_all: JsonView,
    now: Timestamp,
    r_first: Vec<InboundMessage>,
    r_others: Vec<InboundMessage>,
    r_all: Vec<InboundMessage>,
)
    requires
        one_change(first@, v_first),
        one_change(others@, v_others),
        one_change(all@, v_all),
        inner(v_first, "contacts"@) == inner(v_all, "contacts"@),
        inner(v_first, "metadata"@) == inner(v_all, "metadata"@),
        inner(v_others, "contacts"@) == inner(v_all, "contacts"@),
        inner(v_others, "metadata"@) == inner(v_all, "metadata"@),
        listed(v_first, "messages"@) is Some,
        listed(v_others, "messages"@) is Some,
        listed(v_all, "messages"@) == Some(
            listed(v_first, "messages"@)->0 + listed(v_others, "messages"@)->0,
        ),
        call_ensures(parse_webhook_payload, (first, now), r_first),
        call_ensures(parse_webhook_payload, (others, now), r_others),
        call_ensures(parse_webhook_payload, (all, now), r_all),
    ensures
        r_all.deep_view() == r_first.deep_view() + r_others.deep_view(),
{
    lemma_one_change(first@, v_first, now);
    lemma_one_change(others@, v_others, now);
    lemma_one_change(all@, v_all, now);
    let a = listed(v_first, "messages"@)->0;
    let b = listed(v_others, "messages"@)->0;
    lemma_messages_add(v_all, a, b, now);
    lemma_same_value(v_first, v_all, a, now);
    lemma_same_value(v_others, v_all, b, now);
}

/// True of the kinds of messages that bring something a person said or sent.
pub open spec fn from_a_person(kind: Seq<char>) -> bool {
    seq![
        "text"@,
        "image"@,
        "video"@,
        "audio"@,
        "document"@,
        "sticker"@,
        "interactive"@,
        "button"@,
        "contacts"@,
        "location"@,
    ].contains(kind)
}

proof fn lemma_kinds(kind: Seq<char>)
    ensures
        crate::channels::whatsapp::processable(kind) == from_a_person(kind),
{
    let all = seq![
        "text"@,
        "image"@,
        "video"@,
        "audio"@,
        "document"@,
        "sticker"@,
        "interactive"@,
        "button"@,
        "contacts"@,
        "location"@,
    ];
    assert(all[0] == "text"@ && all[1] == "image"@ && all[2] == "video"@ && all[3] == "audio"@
        && all[4] == "document"@ && all[5] == "sticker"@ && all[6] == "interactive"@ && all[7]
        == "button"@ && all[8] == "contacts"@ && all[9] == "location"@);
    if all.contains(kind) {
        let i = choose|i: int| 0 <= i < all.len() && all[i] == kind;
        assert(all[i] == kind);
    }
}

/// The kinds of messages that are processed are those that bring something a
/// person said or sent.
pub proof fn law_kinds(kind: &str, r: bool)
    requires
        call_ensures(is_processable_message_type, (kind,), r),
    ensures
        r <==> from_a_person(kind@),
{
    lemma_kinds(kind@);
}

/// A text that somebody sent arrives: trimmed, from its sender, under its
/// identifier and for the number that it was sent to. It is direct, and no
/// mention.
pub proof fn law_text_arrives(
    payload: &JsonValue,
    value: JsonView,
    message: JsonView,
    now: Timestamp,
    r: Vec<InboundMessage>,
)
    requires
        one_change(payload@, value),
        listed(value, "messages"@) == Some(seq![message]),
        said(message, "from"@) is Some,
        said(message, "type"@) is Some ==> from_a_person(said(message, "type"@)->0),
        said_in(message, "text"@, "body"@) is Some,
        trimmed(said_in(message, "text"@, "body"@)->0).len() > 0,
        call_ensures(parse_webhook_payload, (payload, now), r),
    ensures
        r@.len() == 1,
        r@[0].channel@ == "whatsapp"@,
        Some(r@[0].sender_id@) == said(message, "from"@),
        r@[0].text.deep_view() == Some(trimmed(said_in(message, "text"@, "body"@)->0)),
        r@[0].platform_message_id.deep_view() == said(message, "id"@),
        !r@[0].is_group,
        !r@[0].is_mention,
        r@[0].thread_id is None,
        said_in(value, "metadata"@, "phone_number_id"@) is Some ==> Some(r@[0].account_id@)
            == said_in(value, "metadata"@, "phone_number_id"@),
        said_in(value, "metadata"@, "phone_number_id"@) is None ==> r@[0].account_id@
            == "default"@,
{
    lemma_one_change(payload@, value, now);
    let messages = seq![message];
    assert(messages.drop_last() =~= Seq::empty());
    assert(messages_of(value, messages.drop_last(), now) =~= Seq::empty());
    assert(messages.last() == message);
    if said(message, "type"@) is Some {
        lemma_kinds(said(message, "type"@)->0);
    }
    assert(message_text(message) == said_in(message, "text"@, "body"@));
    assert(message_in(value, message, now) is Some);
    assert(r.deep_view() =~= seq![message_in(value, message, now)->0]);
    assert(r.deep_view()[0] == r@[0]@);
    assert(r.deep_view().len() == r@.len());
}

/// A message without a sender, or of a kind that brings nothing of a person,
/// does not arrive.
pub proof fn law_others_do_not_arrive(
    payload: &JsonValue,
    value: JsonView,
    message: JsonView,
    now: Timestamp,
    r: Vec<InboundMessage>,
)
    requires
        one_change(payload@, value),
        listed(value, "messages"@) == Some(seq![message]),
        said(message, "from"@) is None || said(message, "type"@) is Some && !from_a_person(
            said(message, "type"@)->0,
        ),
        call_ensures(parse_webhook_payload, (payload, now), r),
    ensures
        r@.len() == 0,
{
    lemma_one_change(payload@, value, now);
    let messages = seq![message];
    assert(messages.drop_last() =~= Seq::empty());
    assert(messages_of(value, messages.drop_last(), now) =~= Seq::empty());
    assert(messages.last() == message);
    if said(message, "type"@) is Some {
        lemma_kinds(said(message, "type"@)->0);
    }
    assert(r.deep_view().len() == r@.len());
}

/// What somebody wrote comes before any caption, and a caption before what was
/// chosen.
pub proof fn law_text_of_a_message(message: &JsonValue, r: Option<&str>)
    requires
        call_ensures(extract_message_text, (message,), r),
    ensures
        ({
            let text = match r {
                Some(t) => Some(t@),
                None => None,
            };
            &&& said_in(message@, "text"@, "body"@) is Some ==> text == said_in(
                message@,
                "text"@,
                "body"@,
            )
            &&& said_in(message@, "text"@, "body"@) is None && said_in(
                message@,
                "image"@,
                "caption"@,
            ) is Some ==> text == said_in(message@, "image"@, "caption"@)
            &&& inner(message@, "text"@) is None && inner(message@, "image"@) is None && inner(
                message@,
                "video"@,
            ) is None && inner(message@, "document"@) is None && inner(message@, "button"@) is None
                && inner(message@, "interactive"@) is None ==> text is None
            &&& inner(message@, "text"@) is None && inner(message@, "image"@) is None && inner(
                message@,
                "video"@,
            ) is None && inner(message@, "document"@) is None && said_in(
                message@,
                "button"@,
                "text"@,
            ) is Some ==> text == said_in(message@, "button"@, "text"@)
        }),
{
}

/// A message without media brings no files; one with an image alone brings that
/// one, under its name.
pub proof fn law_files_of_a_message(message: &JsonValue, r: Vec<InboundAttachment>)
    requires
        call_ensures(build_inbound_attachments, (message,), r),
    ensures
        inner(message@, "image"@) is None && inner(message@, "audio"@) is None && inner(
            message@,
            "video"@,
        ) is None && inner(message@, "document"@) is None && inner(message@, "sticker"@) is None
            ==> r@.len() == 0,
        inner(message@, "image"@) is None && inner(message@, "audio"@) is None && inner(
            message@,
            "video"@,
        ) is None && inner(message@, "document"@) is Some && !(inner(message@, "document"@)->0
            is Null) && inner(message@, "sticker"@) is None ==> r@.len() == 1
            && r@[0].filename.deep_view() == said_in(message@, "document"@, "filename"@),
{
    assert(r.deep_view().len() == r@.len());
    if r@.len() > 0 {
        assert(r.deep_view()[0] == r@[0]@);
    }
}

/// A message goes to its recipient as a text with its words, as an answer to
/// what it answers.
pub proof fn law_message_goes_out(msg: &OutboundMessage, text: &str, body: JsonValue)
    requires
        call_ensures(build_send_body, (msg, text), body),
    ensures
        said(body@, "messaging_product"@) == Some("whatsapp"@),
        said(body@, "to"@) == Some(msg.to@),
        said(body@, "type"@) == Some("text"@),
        said_in(body@, "text"@, "body"@) == Some(text@),
        msg.reply_to is Some ==> said_in(body@, "context"@, "message_id"@) == Some(
            msg.reply_to->0@,
        ),
        msg.reply_to is None ==> inner(body@, "context"@) is None,
{
    reveal_strlit("messaging_product");
    reveal_strlit("recipient_type");
    reveal_strlit("to");
    reveal_strlit("type");
    reveal_strlit("text");
    reveal_strlit("body");
    reveal_strlit("preview_url");
    reveal_strlit("context");
    assert("messaging_product"@.len() == 17);
    assert("recipient_type"@.len() == 14);
    assert("to"@.len() == 2);
    assert("type"@.len() == 4 && "type"@[1] == 'y');
    assert("text"@.len() == 4 && "text"@[1] == 'e');
    assert("body"@.len() == 4);
    assert("preview_url"@.len() == 11);
    assert("context"@.len() == 7);
}

/// A file goes to the recipient under its identifier with the platform, as the
/// kind of file that it is; its caption is the text.
pub proof fn law_file_goes_out(
    msg: &OutboundMessage,
    kind: AttachmentKind,
    filename: &str,
    id: &str,
    text: &str,
    body: JsonValue,
)
    requires
        call_ensures(build_media_send_body, (msg, kind, filename, id, text), body),
    ensures
        said(body@, "to"@) == Some(msg.to@),
        kind == AttachmentKind::Image ==> said(body@, "type"@) == Some("image"@) && said_in(
            body@,
            "image"@,
            "id"@,
        ) == Some(id@) && (text@.len() > 0 ==> said_in(body@, "image"@, "caption"@) == Some(text@)),
        kind == AttachmentKind::Document ==> said(body@, "type"@) == Some("document"@) && said_in(
            body@,
            "document"@,
            "id"@,
        ) == Some(id@) && said_in(body@, "document"@, "filename"@) == Some(filename@) && (
        text@.len() > 0 ==> said_in(body@, "document"@, "caption"@) == Some(text@)),
        kind == AttachmentKind::Audio ==> said(body@, "type"@) == Some("audio"@) && said_in(
            body@,
            "audio"@,
            "id"@,
        ) == Some(id@) && said_in(body@, "audio"@, "caption"@) is None,
        kind == AttachmentKind::Video ==> said(body@, "type"@) == Some("video"@) && said_in(
            body@,
            "video"@,
            "id"@,
        ) == Some(id@) && (text@.len() > 0 ==> said_in(body@, "video"@, "caption"@) == Some(text@)),
{
    reveal_strlit("messaging_product");
    reveal_strlit("recipient_type");
    reveal_strlit("to");
    reveal_strlit("type");
    reveal_strlit("image");
    reveal_strlit("video");
    reveal_strlit("audio");
    reveal_strlit("document");
    reveal_strlit("context");
    reveal_strlit("id");
    reveal_strlit("filename");
    reveal_strlit("caption");
    assert("messaging_product"@.len() == 17);
    assert("recipient_type"@.len() == 14);
    assert("to"@.len() == 2);
    assert("type"@.len() == 4);
    assert("image"@.len() == 5);
    assert("video"@.len() == 5);
    assert("audio"@.len() == 5);
    assert("document"@.len() == 8);
    assert("context"@.len() == 7);
    assert("id"@.len() == 2);
    assert("filename"@.len() == 8);
    assert("caption"@.len() == 7);
}

/// An answer means what it says: a rate limit, success with the identifier of
/// the message, or a failure.
pub proof fn law_answers(
    limited: bool,
    header: Option<&str>,
    success: bool,
    body: &JsonValue,
    r: SendResult,
)
    requires
        call_ensures(send_result, (limited, header, success, body), r),
    ensures
        limited <==> r is RateLimited,
        !limited ==> (success <==> r is Sent),
        r is Sent && listed(body@, "messages"@) is Some && listed(body@, "messages"@)->0.len() > 0
            && said(listed(body@, "messages"@)->0[0], "id"@) is Some ==> Some(
            r->platform_message_id@,
        ) == said(listed(body@, "messages"@)->0[0], "id"@),
        r is Failed && inner(body@, "error"@) is Some && inner(
            inner(body@, "error"@)->0,
            "code"@,
        ) is None && said_in(body@, "error"@, "message"@) is Some ==> Some(r->reason@) == said_in(
            body@,
            "error"@,
            "message"@,
        ),
{
    assert(r@ is RateLimited == r is RateLimited);
}

/// Known errors are told in plain words, each in its own; others as the platform
/// words them.
pub proof fn law_errors_in_plain_words(code: u64, message: &str, r: String)
    requires
        call_ensures(classify_whatsapp_send_error, (code, message), r),
    ensures
        code == 131030 ==> r@ == "recipient phone number is not a WhatsApp user"@,
        code == 131031 ==> r@ == "recipient cannot receive messages (blocked or opt-out)"@,
        code == 131047 ==> r@ == "message failed to send (re-engagement required)"@,
        code == 131051 ==> r@ == "unsupported message type for this recipient"@,
        code == 130429 ==> r@ == "rate limit reached for this phone number"@,
        code != 131030 && code != 131031 && code != 131047 && code != 131051 && code != 130429
            ==> r@ == message@,
{
}

/// An uploaded file is known by the identifier that the platform gives.
pub proof fn law_uploads(success: bool, body: &JsonValue, r: Result<String, FrankClawError>)
    requires
        call_ensures(uploaded_media_id, (success, body), r),
    ensures
        r is Ok <==> success && said(body@, "id"@) is Some,
        r is Ok ==> Some(r->Ok_0@) == said(body@, "id"@),
{
}

/// With an app secret, a body is accepted exactly under the signature that is
/// made for it, and never without one; without an app secret every body is.
pub proof fn law_signed_bodies(
    channel: &WhatsAppChannel,
    body: &[u8],
    header: &str,
    secret: &str,
    made: String,
    with: Result<(), FrankClawError>,
    without: Result<(), FrankClawError>,
)
    requires
        call_ensures(WhatsAppChannel::verify_signature, (channel, body, Some(header)), with),
        call_ensures(WhatsAppChannel::verify_signature, (channel, body, None), without),
        channel.app_secret is Some ==> secret@ == channel.app_secret->0@,
        call_ensures(encode_signature, (secret, body), made),
    ensures
        channel.app_secret is None ==> with is Ok && without is Ok,
        channel.app_secret is Some ==> without is Err,
        channel.app_secret is Some && header@ == made@ ==> with is Ok,
{
    law_signature_holds(secret@, body@);
}

/// The token of a subscription is the right one, white space aside.
pub proof fn law_verify_token(channel: &WhatsAppChannel, candidate: &str, r: bool)
    requires
        call_ensures(WhatsAppChannel::verify_token_matches, (channel, candidate), r),
    ensures
        r <==> trimmed(candidate@) == channel.verify_token@,
{
}

/// The handle of a number holds each credential in its own place.
pub proof fn law_credentials(
    access: String,
    number: &str,
    verify: String,
    secret: Option<String>,
    r: WhatsAppChannel,
    auth: String,
    messages: String,
)
    requires
        call_ensures(WhatsAppChannel::new, (access, number, verify, secret), r),
        call_ensures(WhatsAppChannel::auth_header, (&r,), auth),
        call_ensures(WhatsAppChannel::messages_endpoint, (&r,), messages),
    ensures
        r.access_token@ == access@,
        r.verify_token@ == verify@,
        r.app_secret == secret,
        auth@ == "Bearer "@ + access@,
        messages@ == "https://graph.facebook.com/v19.0/"@ + trimmed(number@) + "/messages"@,
{
}

/// Any message of a person arrives, with the words and the files that it has,
/// at the time that it names; only one with neither does not.
pub proof fn law_messages_arrive(
    payload: &JsonValue,
    value: JsonView,
    message: &JsonValue,
    now: Timestamp,
    words: Option<&str>,
    files: Vec<InboundAttachment>,
    text: Option<String>,
    time: &str,
    at: Option<Timestamp>,
    r: Vec<InboundMessage>,
)
    requires
        one_change(payload@, value),
        listed(value, "messages"@) == Some(seq![message@]),
        said(message@, "from"@) is Some,
        said(message@, "type"@) is Some ==> from_a_person(said(message@, "type"@)->0),
        call_ensures(extract_message_text, (message,), words),
        call_ensures(build_inbound_attachments, (message,), files),
        call_ensures(text_or_attachment_placeholder, (words, &files), text),
        said(message@, "timestamp"@) is Some ==> time@ == said(message@, "timestamp"@)->0,
        call_ensures(parse_unix_timestamp, (time,), at),
        call_ensures(parse_webhook_payload, (payload, now), r),
    ensures
        text is None ==> r@.len() == 0,
        text is Some ==> {
            &&& r@.len() == 1
            &&& Some(r@[0].sender_id@) == said(message@, "from"@)
            &&& r@[0].text.deep_view() == text.deep_view()
            &&& r@[0].attachments.deep_view() == files.deep_view()
            &&& said(message@, "timestamp"@) is Some && at is Some ==> r@[0].timestamp == at->0
            &&& said(message@, "timestamp"@) is None || at is None ==> r@[0].timestamp == now
        },
{
    lemma_one_change(payload@, value, now);
    let messages = seq![message@];
    assert(messages.drop_last() =~= Seq::empty());
    assert(messages_of(value, messages.drop_last(), now) =~= Seq::empty());
    assert(messages.last() == message@);
    if said(message@, "type"@) is Some {
        lemma_kinds(said(message@, "type"@)->0);
    }
    assert(text.deep_view() is Some == text is Some);
    assert(r.deep_view().len() == r@.len());
    if text is Some {
        assert(r.deep_view() =~= seq![message_in(value, message@, now)->0]);
        assert(r.deep_view()[0] == r@[0]@);
    } else {
        assert(r.deep_view() =~= Seq::empty());
    }
}

/// A sender goes by the name of the contact with the sender's number, where
/// there is just one such contact.
pub proof fn law_names_of_senders(
    payload: &JsonValue,
    value: JsonView,
    message: JsonView,
    contact: JsonView,
    now: Timestamp,
    r: Vec<InboundMessage>,
)
    requires
        one_change(payload@, value),
        listed(value, "messages"@) == Some(seq![message]),
        listed(value, "contacts"@) == Some(seq![contact]),
        said(message, "from"@) is Some,
        call_ensures(parse_webhook_payload, (payload, now), r),
        r@.len() > 0,
    ensures
        said(contact, "wa_id"@) == said(message, "from"@) ==> r@[0].sender_name.deep_view()
            == said_in(contact, "profile"@, "name"@),
        said(contact, "wa_id"@) != said(message, "from"@) ==> r@[0].sender_name is None,
{
    lemma_one_change(payload@, value, now);
    let messages = seq![message];
    let contacts = seq![contact];
    assert(messages.drop_last() =~= Seq::empty());
    assert(messages_of(value, messages.drop_last(), now) =~= Seq::empty());
    assert(messages.last() == message);
    assert(contacts.drop_last() =~= Seq::empty());
    assert(contacts.last() == contact);
    assert(contact_name(contacts.drop_last(), said(message, "from"@)->0) is None);
    assert(r.deep_view().len() == r@.len());
    assert(r.deep_view()[0] == r@[0]@);
    assert(r@[0]@.sender_name == r@[0].sender_name.deep_view());
    assert(contacts_in(value) == contacts);
}

/// What was written comes first, then the captions of the image, the video and
/// the document, then the button, and then what was chosen.
pub proof fn law_order_of_texts(message: &JsonValue, r: Option<&str>)
    requires
        call_ensures(extract_message_text, (message,), r),
    ensures
        ({
            let text = match r {
                Some(t) => Some(t@),
                None => None,
            };
            let m = message@;
            let written = said_in(m, "text"@, "body"@);
            let image = said_in(m, "image"@, "caption"@);
            let video = said_in(m, "video"@, "caption"@);
            let document = said_in(m, "document"@, "caption"@);
            let button = said_in(m, "button"@, "text"@);
            let none = written is None && image is None && video is None && document is None
                && button is None;
            &&& written is None && image is None && video is Some ==> text == video
            &&& written is None && image is None && video is None && document is Some ==> text
                == document
            &&& written is None && image is None && video is None && document is None && button
                is Some ==> text == button
            &&& none && inner(m, "interactive"@) is None ==> text is None
            &&& none && inner(m, "interactive"@) is Some && said_in(
                inner(m, "interactive"@)->0,
                "button_reply"@,
                "title"@,
            ) is Some ==> text == said_in(inner(m, "interactive"@)->0, "button_reply"@, "title"@)
            &&& none && inner(m, "interactive"@) is Some && said_in(
                inner(m, "interactive"@)->0,
                "button_reply"@,
                "title"@,
            ) is None && said_in(inner(m, "interactive"@)->0, "list_reply"@, "title"@) is Some
                ==> text == said_in(inner(m, "interactive"@)->0, "list_reply"@, "title"@)
        }),
{
}

/// A message with an image alone brings an image, of the type that is named or
/// of the usual one.
pub proof fn law_images_arrive(
    message: &JsonValue,
    named: &str,
    bare: String,
    r: Vec<InboundAttachment>,
)
    requires
        call_ensures(build_inbound_attachments, (message,), r),
        inner(message@, "image"@) is Some,
        !(inner(message@, "image"@)->0 is Null),
        named@ == (if said_in(message@, "image"@, "mime_type"@) is Some {
            said_in(message@, "image"@, "mime_type"@)->0
        } else {
            "image/jpeg"@
        }),
        call_ensures(normalize_mime_type, (named,), bare),
    ensures
        r@.len() > 0,
        r@[0].mime_type@ == bare@,
        inner(message@, "audio"@) is None && inner(message@, "video"@) is None && inner(
            message@,
            "document"@,
        ) is None && inner(message@, "sticker"@) is None ==> r@.len() == 1,
{
    assert(r.deep_view().len() == r@.len());
    assert(r.deep_view()[0] == r@[0]@);
}

/// A rate limit is told with the wait of its header, and an error in the plain
/// words for its code.
pub proof fn law_failures_are_told(
    header: Option<&str>,
    success: bool,
    body: &JsonValue,
    code: u64,
    message: &str,
    words: String,
    wait: Option<u64>,
    limited: SendResult,
    r: SendResult,
)
    requires
        call_ensures(send_result, (true, header, success, body), limited),
        call_ensures(parse_retry_after, (header,), wait),
        call_ensures(send_result, (false, header, false, body), r),
        inner(body@, "error"@) is Some,
        whole(inner(body@, "error"@)->0, "code"@) == Some(code as nat),
        said_in(body@, "error"@, "message"@) == Some(message@),
        call_ensures(classify_whatsapp_send_error, (code, message), words),
    ensures
        limited is RateLimited,
        limited->retry_after_secs == wait,
        r is Failed,
        r->reason@ == words@,
{
}

} // verus!
