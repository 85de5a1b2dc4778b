//! WhatsApp: webhook payloads, and the form of messages.

use crate::channels::media_text::{
    bare_type, mimes_of, normalize_mime_type, text_or_attachment_placeholder, text_or_placeholder,
};
use crate::channels::slack::{parse_retry_after, retry_after};
use crate::channels::socket::{answer_text, channel_error, text_in_answer};
use crate::error::{outcome_is, ErrorView, FrankClawError};
use crate::json::{items_view, lemma_items, JsonObject, JsonValue, JsonView};
use crate::message::{
    ChannelCapabilities, InboundAttachment, InboundAttachmentView, InboundMessage, InboundView,
    OutboundMessage, SendResult, SendView,
};
use crate::signature::{signature_holds, signature_matches};
use crate::text::{cat2, cat3, same_secret, str_eq, trimmed};
use crate::time::{parse_unix_timestamp, unix_text_moment};
use crate::types::{ChannelId, Timestamp};
use vstd::prelude::*;

verus! {

/// The credentials of a WhatsApp business number.
#[derive(Debug)]
pub struct WhatsAppChannel {
    pub access_token: String,
    pub phone_number_id: String,
    pub verify_token: String,
    pub app_secret: Option<String>,
}

impl WhatsAppChannel {
    /// The credentials, with the number's identifier trimmed.
    pub fn new(
        access_token: String,
        phone_number_id: &str,
        verify_token: String,
        app_secret: Option<String>,
    ) -> (r: WhatsAppChannel)
        ensures
            r.access_token == access_token,
            r.phone_number_id@ == trimmed(phone_number_id@),
            r.verify_token == verify_token,
            r.app_secret == app_secret,
    {
        WhatsAppChannel {
            access_token,
            phone_number_id: phone_number_id.trim().to_owned(),
            verify_token,
            app_secret,
        }
    }

    /// True when the token that a subscription request brings is the right one,
    /// white space around it aside.
    pub fn verify_token_matches(&self, candidate: &str) -> (r: bool)
        ensures
            r == (trimmed(candidate@) == self.verify_token@),
    {
        same_secret(candidate.trim(), self.verify_token.as_str())
    }

    /// Why a webhook body is turned down, if it is. Without an app secret,
    /// bodies are not signed.
    pub open spec fn signature_problem(&self, body: Seq<u8>, header: Option<Seq<char>>) -> Option<
        ErrorView,
    > {
        match self.app_secret {
            Some(secret) => match header {
                Some(header) => if signature_holds(secret@, body, header) {
                    None
                } else {
                    Some(ErrorView::AuthFailed)
                },
                None => Some(ErrorView::AuthRequired),
            },
            None => None,
        }
    }

    /// Checks the signature of a webhook body.
    pub fn verify_signature(&self, body: &[u8], signature_header: Option<&str>) -> (r: Result<
        (),
        FrankClawError,
    >)
        ensures
            outcome_is(
                r,
                self.signature_problem(
                    body@,
                    match signature_header {
                        Some(s) => Some(s@),
                        None => None,
                    },
                ),
            ),
    {
        let secret = match &self.app_secret {
            Some(secret) => secret,
            None => {
                return Ok(());
            },
        };
        match signature_header {
            Some(header) => if signature_matches(secret.as_str(), body, header) {
                Ok(())
            } else {
                Err(FrankClawError::AuthFailed)
            },
            None => Err(FrankClawError::AuthRequired),
        }
    }

    /// The authorization header of requests to the platform.
    pub fn auth_header(&self) -> (r: String)
        ensures
            r@ == "Bearer "@ + self.access_token@,
    {
        cat2("Bearer ", self.access_token.as_str())
    }

    /// The address that messages are posted to.
    pub fn messages_endpoint(&self) -> (r: String)
        ensures
            r@ == "https://graph.facebook.com/v19.0/"@ + self.phone_number_id@ + "/messages"@,
    {
        cat3("https://graph.facebook.com/v19.0/", self.phone_number_id.as_str(), "/messages")
    }

    /// The address that files are posted to.
    pub fn media_endpoint(&self) -> (r: String)
        ensures
            r@ == "https://graph.facebook.com/v19.0/"@ + self.phone_number_id@ + "/media"@,
    {
        cat3("https://graph.facebook.com/v19.0/", self.phone_number_id.as_str(), "/media")
    }

    /// The address that tells whether the number is reachable.
    pub fn health_endpoint(&self) -> (r: String)
        ensures
            r@ == "https://graph.facebook.com/v19.0/"@ + self.phone_number_id@,
    {
        cat2("https://graph.facebook.com/v19.0/", self.phone_number_id.as_str())
    }
}

/// What the channel can do.
pub fn capabilities() -> (r: ChannelCapabilities)
    ensures
        r == (ChannelCapabilities {
            threads: false,
            groups: true,
            attachments: true,
            edit: false,
            delete: false,
            reactions: false,
            streaming: false,
            inline_buttons: false,
        }),
{
    ChannelCapabilities {
        threads: false,
        groups: true,
        attachments: true,
        edit: false,
        delete: false,
        reactions: false,
        streaming: false,
        inline_buttons: false,
    }
}

/// The identifier of an uploaded file, by the platform's answer.
pub fn uploaded_media_id(success: bool, body: &JsonValue) -> (r: Result<String, FrankClawError>)
    ensures
        if !success {
            r is Err && r->Err_0@ == ErrorView::Channel(
                "whatsapp"@,
                match body@.text_at("error"@, "message"@) {
                    Some(message) => message,
                    None => "unknown whatsapp media upload failure"@,
                },
            )
        } else {
            match body@.text_member("id"@) {
                Some(id) => r is Ok && r->Ok_0@ == id,
                None => r is Err && r->Err_0@ == ErrorView::Channel(
                    "whatsapp"@,
                    "whatsapp media upload response missing id"@,
                ),
            }
        },
{
    if !success {
        let message = match body.get_str_at("error", "message") {
            Some(message) => message,
            None => "unknown whatsapp media upload failure",
        };
        return Err(channel_error("whatsapp", message));
    }
    match body.get_text("id") {
        Some(id) => Ok(id),
        None => Err(channel_error("whatsapp", "whatsapp media upload response missing id")),
    }
}

/// True of the message types that carry content of a user: no reactions,
/// status updates or system messages.
pub open spec fn processable(msg_type: Seq<char>) -> bool {
    ||| msg_type == "text"@
    ||| msg_type == "image"@
    ||| msg_type == "video"@
    ||| msg_type == "audio"@
    ||| msg_type == "document"@
    ||| msg_type == "sticker"@
    ||| msg_type == "interactive"@
    ||| msg_type == "button"@
    ||| msg_type == "contacts"@
    ||| msg_type == "location"@
}

/// True of the message types that carry content of a user.
pub fn is_processable_message_type(msg_type: &str) -> (r: bool)
    ensures
        r == processable(msg_type@),
{
    str_eq(msg_type, "text") || str_eq(msg_type, "image") || str_eq(msg_type, "video") || str_eq(
        msg_type,
        "audio",
    ) || str_eq(msg_type, "document") || str_eq(msg_type, "sticker") || str_eq(
        msg_type,
        "interactive",
    ) || str_eq(msg_type, "button") || str_eq(msg_type, "contacts") || str_eq(msg_type, "location")
}

/// The complaint of the platform in plain words, by the code of its error.
pub open spec fn error_text(code: u64, message: Seq<char>) -> Seq<char> {
    if code == 131030 {
        "recipient phone number is not a WhatsApp user"@
    } else if code == 131031 {
        "recipient cannot receive messages (blocked or opt-out)"@
    } else if code == 131047 {
        "message failed to send (re-engagement required)"@
    } else if code == 131051 {
        "unsupported message type for this recipient"@
    } else if code == 130429 {
        "rate limit reached for this phone number"@
    } else {
        message
    }
}

/// The complaint of the platform in plain words.
pub fn classify_whatsapp_send_error(code: u64, message: &str) -> (r: String)
    ensures
        r@ == error_text(code, message@),
{
    if code == 131030 {
        "recipient phone number is not a WhatsApp user".to_owned()
    } else if code == 131031 {
        "recipient cannot receive messages (blocked or opt-out)".to_owned()
    } else if code == 131047 {
        "message failed to send (re-engagement required)".to_owned()
    } else if code == 131051 {
        "unsupported message type for this recipient".to_owned()
    } else if code == 130429 {
        "rate limit reached for this phone number".to_owned()
    } else {
        message.to_owned()
    }
}

/// The identifier of the first message that the platform's answer names.
pub open spec fn sent_id(body: JsonView) -> Seq<char> {
    match body.items_member("messages"@) {
        Some(items) => if items.len() > 0 {
            answer_text(items[0], "id"@, ""@)
        } else {
            ""@
        },
        None => ""@,
    }
}

/// The code of the platform's error; zero where there is none.
pub open spec fn error_code(body: JsonView) -> nat {
    match body.member("error"@) {
        Some(error) => match error.unsigned_member("code"@) {
            Some(n) => n,
            None => 0,
        },
        None => 0,
    }
}

/// What the platform's answer to a message means.
pub fn send_result(
    rate_limited: bool,
    retry_header: Option<&str>,
    success: bool,
    body: &JsonValue,
) -> (r: SendResult)
    ensures
        r@ == if rate_limited {
            SendView::RateLimited(
                retry_after(
                    match retry_header {
                        Some(s) => Some(s@),
                        None => None,
                    },
                ),
            )
        } else if success {
            SendView::Sent(sent_id(body@))
        } else {
            SendView::Failed(
                error_text(
                    error_code(body@) as u64,
                    match body@.text_at("error"@, "message"@) {
                        Some(message) => message,
                        None => "unknown whatsapp send failure"@,
                    },
                ),
            )
        },
{
    if rate_limited {
        return SendResult::RateLimited { retry_after_secs: parse_retry_after(retry_header) };
    }
    if success {
        let id = match body.get_array("messages") {
            Some(items) => {
                proof {
                    lemma_items(items@);
                }
                if items.len() > 0 {
                    assert(items_view(items@)[0] == items@[0]@);
                    text_in_answer(&items[0], "id", "")
                } else {
                    "".to_owned()
                }
            },
            None => "".to_owned(),
        };
        return SendResult::Sent { platform_message_id: id };
    }
    let code: u64 = match body.get("error") {
        Some(error) => match error.get_u64("code") {
            Some(n) => n,
            None => 0,
        },
        None => 0,
    };
    let message = match body.get_str_at("error", "message") {
        Some(message) => message,
        None => "unknown whatsapp send failure",
    };
    SendResult::Failed { reason: classify_whatsapp_send_error(code, message) }
}

/// True when the message has something other than null under `key`.
pub open spec fn has_part(message: JsonView, key: Seq<char>) -> bool {
    message.member(key) is Some && !(message.member(key)->0 is Null)
}

/// The file under `key` of a message, where there is one.
pub open spec fn part_attachment(
    message: JsonView,
    key: Seq<char>,
    fallback: Seq<char>,
) -> InboundAttachmentView {
    let payload = message.member(key)->0;
    InboundAttachmentView {
        media_id: None,
        mime_type: bare_type(answer_text(payload, "mime_type"@, fallback)),
        filename: payload.text_member("filename"@),
        size_bytes: None,
        url: None,
    }
}

/// `found` and then the file under `key` of a message, where there is one.
pub open spec fn with_part(
    found: Seq<InboundAttachmentView>,
    message: JsonView,
    key: Seq<char>,
    fallback: Seq<char>,
) -> Seq<InboundAttachmentView> {
    if has_part(message, key) {
        found.push(part_attachment(message, key, fallback))
    } else {
        found
    }
}

/// The files of a message: image, audio, video, document and sticker, in this
/// order.
pub open spec fn attachments_in(message: JsonView) -> Seq<InboundAttachmentView> {
    let image = with_part(Seq::empty(), message, "image"@, "image/jpeg"@);
    let audio = with_part(image, message, "audio"@, "audio/ogg"@);
    let video = with_part(audio, message, "video"@, "video/mp4"@);
    let document = with_part(video, message, "document"@, "application/octet-stream"@);
    with_part(document, message, "sticker"@, "image/webp"@)
}

fn push_part(
    found: &mut Vec<InboundAttachment>,
    message: &JsonValue,
    key: &str,
    fallback: &str,
)
    ensures
        final(found).deep_view() == with_part(old(found).deep_view(), message@, key@, fallback@),
{
    let ghost before = found.deep_view();
    if let Some(payload) = message.get(key) {
        if !matches!(payload, JsonValue::Null) {
            let attachment = InboundAttachment {
                media_id: None,
                mime_type: normalize_mime_type(
                    text_in_answer(payload, "mime_type", fallback).as_str(),
                ),
                filename: payload.get_text("filename"),
                size_bytes: None,
                url: None,
            };
            found.push(attachment);
            assert(found.deep_view() =~= before.push(attachment@));
        }
    }
}

/// The files of a message.
pub fn build_inbound_attachments(message: &JsonValue) -> (r: Vec<InboundAttachment>)
    ensures
        r.deep_view() == attachments_in(message@),
{
    let mut found: Vec<InboundAttachment> = Vec::new();
    assert(found.deep_view() =~= Seq::empty());
    push_part(&mut found, message, "image", "image/jpeg");
    push_part(&mut found, message, "audio", "audio/ogg");
    push_part(&mut found, message, "video", "video/mp4");
    push_part(&mut found, message, "document", "application/octet-stream");
    push_part(&mut found, message, "sticker", "image/webp");
    found
}

/// The text under `b` under `a` of a message's interactive part.
pub open spec fn interactive_text(message: JsonView, a: Seq<char>, b: Seq<char>) -> Option<
    Seq<char>,
> {
    match message.member("interactive"@) {
        Some(j) => j.text_at(a, b),
        None => None,
    }
}

/// The text of a message: its body, a caption, a button, or a choice.
pub open spec fn message_text(message: JsonView) -> Option<Seq<char>> {
    if message.text_at("text"@, "body"@) is Some {
        message.text_at("text"@, "body"@)
    } else if message.text_at("image"@, "caption"@) is Some {
        message.text_at("image"@, "caption"@)
    } else if message.text_at("video"@, "caption"@) is Some {
        message.text_at("video"@, "caption"@)
    } else if message.text_at("document"@, "caption"@) is Some {
        message.text_at("document"@, "caption"@)
    } else if message.text_at("button"@, "text"@) is Some {
        message.text_at("button"@, "text"@)
    } else if interactive_text(message, "button_reply"@, "title"@) is Some {
        interactive_text(message, "button_reply"@, "title"@)
    } else if interactive_text(message, "list_reply"@, "title"@) is Some {
        interactive_text(message, "list_reply"@, "title"@)
    } else {
        interactive_text(message, "list_reply"@, "description"@)
    }
}

/// The text of a message, if it has one.
pub fn extract_message_text(message: &JsonValue) -> (r: Option<&str>)
    ensures
        r is Some == message_text(message@) is Some,
        r is Some ==> r->0@ == message_text(message@)->0,
{
    if let Some(s) = message.get_str_at("text", "body") {
        return Some(s);
    }
    if let Some(s) = message.get_str_at("image", "caption") {
        return Some(s);
    }
    if let Some(s) = message.get_str_at("video", "caption") {
        return Some(s);
    }
    if let Some(s) = message.get_str_at("document", "caption") {
        return Some(s);
    }
    if let Some(s) = message.get_str_at("button", "text") {
        return Some(s);
    }
    match message.get("interactive") {
        Some(interactive) => {
            if let Some(s) = interactive.get_str_at("button_reply", "title") {
                return Some(s);
            }
            if let Some(s) = interactive.get_str_at("list_reply", "title") {
                return Some(s);
            }
            interactive.get_str_at("list_reply", "description")
        },
        None => None,
    }
}

/// The name of the last contact with the given number, where it has one.
pub open spec fn contact_name(contacts: Seq<JsonView>, wa_id: Seq<char>) -> Option<Seq<char>>
    decreases contacts.len(),
{
    if contacts.len() == 0 {
        None
    } else if contacts.last().text_member("wa_id"@) == Some(wa_id) {
        contacts.last().text_at("profile"@, "name"@)
    } else {
        contact_name(contacts.drop_last(), wa_id)
    }
}

/// The contacts of a change.
pub open spec fn contacts_in(value: JsonView) -> Seq<JsonView> {
    match value.items_member("contacts"@) {
        Some(items) => items,
        None => Seq::empty(),
    }
}

fn find_contact_name(value: &JsonValue, wa_id: &str) -> (r: Option<String>)
    ensures
        r.deep_view() == contact_name(contacts_in(value@), wa_id@),
{
    let contacts = match value.get_array("contacts") {
        Some(items) => items,
        None => {
            return None;
        },
    };
    proof {
        lemma_items(contacts@);
    }
    let ghost view = items_view(contacts@);
    let mut i: usize = contacts.len();
    assert(view.take(i as int) =~= view);
    while i > 0
        invariant
            i <= contacts@.len(),
            view == contacts_in(value@),
            view.len() == contacts@.len(),
            forall|k: int| 0 <= k < contacts@.len() ==> #[trigger] view[k] == contacts@[k]@,
            contact_name(view, wa_id@) == contact_name(view.take(i as int), wa_id@),
        decreases i,
    {
        i = i - 1;
        proof {
            let front = view.take(i + 1);
            assert(front.last() == view[i as int]);
            assert(front.drop_last() =~= view.take(i as int));
        }
        let is_match = match contacts[i].get_str("wa_id") {
            Some(found) => str_eq(found, wa_id),
            None => false,
        };
        if is_match {
            return match contacts[i].get_str_at("profile", "name") {
                Some(name) => Some(name.to_owned()),
                None => None,
            };
        }
    }
    None
}

/// The account that a change is about.
pub open spec fn account_in(value: JsonView) -> Seq<char> {
    match value.text_at("metadata"@, "phone_number_id"@) {
        Some(id) => id,
        None => "default"@,
    }
}

/// The message that an entry of a change brings, if it brings one.
pub open spec fn message_in(value: JsonView, message: JsonView, now: Timestamp) -> Option<
    InboundView,
> {
    let sender = message.text_member("from"@);
    let kind = message.text_member("type"@);
    let text = text_or_placeholder(message_text(message), mimes_of(attachments_in(message)));
    if sender is None || kind is Some && !processable(kind->0) || text is None {
        None
    } else {
        Some(
            InboundView {
                channel: "whatsapp"@,
                account_id: account_in(value),
                sender_id: sender->0,
                sender_name: contact_name(contacts_in(value), sender->0),
                thread_id: None,
                is_group: false,
                is_mention: false,
                text,
                attachments: attachments_in(message),
                platform_message_id: message.text_member("id"@),
                timestamp: match message.text_member("timestamp"@) {
                    Some(ts) => match unix_text_moment(ts) {
                        Some(t) => t,
                        None => now,
                    },
                    None => now,
                },
            },
        )
    }
}

fn parse_message(value: &JsonValue, message: &JsonValue, now: Timestamp) -> (r: Option<
    InboundMessage,
>)
    ensures
        r.deep_view() == message_in(value@, message@, now),
{
    let sender_id = message.get_str("from")?;
    if let Some(kind) = message.get_str("type") {
        if !is_processable_message_type(kind) {
            return None;
        }
    }
    let attachments = build_inbound_attachments(message);
    let text = text_or_attachment_placeholder(extract_message_text(message), &attachments)?;
    let account_id = match value.get_str_at("metadata", "phone_number_id") {
        Some(id) => id.to_owned(),
        None => "default".to_owned(),
    };
    let timestamp = match message.get_str("timestamp") {
        Some(ts) => match parse_unix_timestamp(ts) {
            Some(t) => t,
            None => now,
        },
        None => now,
    };
    Some(
        InboundMessage {
            channel: ChannelId("whatsapp".to_owned()),
            account_id,
            sender_id: sender_id.to_owned(),
            sender_name: find_contact_name(value, sender_id),
            thread_id: None,
            is_group: false,
            is_mention: false,
            text: Some(text),
            attachments,
            platform_message_id: message.get_text("id"),
            timestamp,
        },
    )
}

/// The messages that the entries of a change bring, in order.
pub open spec fn messages_of(value: JsonView, messages: Seq<JsonView>, now: Timestamp) -> Seq<
    InboundView,
>
    decreases messages.len(),
{
    if messages.len() == 0 {
        Seq::empty()
    } else {
        let before = messages_of(value, messages.drop_last(), now);
        match message_in(value, messages.last(), now) {
            Some(m) => before.push(m),
            None => before,
        }
    }
}

/// The messages that a change brings, in order.
pub open spec fn change_messages(change: JsonView, now: Timestamp) -> Seq<InboundView> {
    match change.member("value"@) {
        Some(value) => match value.items_member("messages"@) {
            Some(messages) => messages_of(value, messages, now),
            None => Seq::empty(),
        },
        None => Seq::empty(),
    }
}

/// The messages that the changes of an entry bring, in order.
pub open spec fn changes_messages(changes: Seq<JsonView>, now: Timestamp) -> Seq<InboundView>
    decreases changes.len(),
{
    if changes.len() == 0 {
        Seq::empty()
    } else {
        changes_messages(changes.drop_last(), now) + change_messages(changes.last(), now)
    }
}

/// The messages that an entry brings, in order.
pub open spec fn entry_messages(entry: JsonView, now: Timestamp) -> Seq<InboundView> {
    match entry.items_member("changes"@) {
        Some(changes) => changes_messages(changes, now),
        None => Seq::empty(),
    }
}

/// The messages that the entries of a payload bring, in order.
pub open spec fn entries_messages(entries: Seq<JsonView>, now: Timestamp) -> Seq<InboundView>
    decreases entries.len(),
{
    if entries.len() == 0 {
        Seq::empty()
    } else {
        entries_messages(entries.drop_last(), now) + entry_messages(entries.last(), now)
    }
}

/// The messages that a webhook payload brings, in order.
pub open spec fn payload_messages(payload: JsonView, now: Timestamp) -> Seq<InboundView> {
    match payload.items_member("entry"@) {
        Some(entries) => entries_messages(entries, now),
        None => Seq::empty(),
    }
}

fn push_change(out: &mut Vec<InboundMessage>, change: &JsonValue, now: Timestamp)
    ensures
        final(out).deep_view() == old(out).deep_view() + change_messages(change@, now),
{
    let ghost start = out.deep_view();
    assert(start + Seq::<InboundView>::empty() =~= start);
    let value = match change.get("value") {
        Some(value) => value,
        None => {
            return ;
        },
    };
    let messages = match value.get_array("messages") {
        Some(messages) => messages,
        None => {
            return ;
        },
    };
    proof {
        lemma_items(messages@);
    }
    let ghost view = items_view(messages@);
    let mut i: usize = 0;
    assert(view.take(0) =~= Seq::empty());
    while i < messages.len()
        invariant
            i <= messages@.len(),
            view.len() == messages@.len(),
            forall|k: int| 0 <= k < messages@.len() ==> #[trigger] view[k] == messages@[k]@,
            out.deep_view() == start + messages_of(value@, view.take(i as int), now),
        decreases messages@.len() - i,
    {
        let ghost before = out.deep_view();
        proof {
            let front = view.take(i + 1);
            assert(front.last() == view[i as int]);
            assert(front.drop_last() =~= view.take(i as int));
        }
        if let Some(message) = parse_message(value, &messages[i], now) {
            out.push(message);
            assert(out.deep_view() =~= before.push(message@));
            assert(out.deep_view() =~= start + messages_of(value@, view.take(i + 1), now));
        }
        i = i + 1;
    }
    assert(view.take(i as int) =~= view);
}

fn push_entry(out: &mut Vec<InboundMessage>, entry: &JsonValue, now: Timestamp)
    ensures
        final(out).deep_view() == old(out).deep_view() + entry_messages(entry@, now),
{
    let ghost start = out.deep_view();
    assert(start + Seq::<InboundView>::empty() =~= start);
    let changes = match entry.get_array("changes") {
        Some(changes) => changes,
        None => {
            return ;
        },
    };
    proof {
        lemma_items(changes@);
    }
    let ghost view = items_view(changes@);
    let mut i: usize = 0;
    assert(view.take(0) =~= Seq::empty());
    while i < changes.len()
        invariant
            i <= changes@.len(),
            view.len() == changes@.len(),
            forall|k: int| 0 <= k < changes@.len() ==> #[trigger] view[k] == changes@[k]@,
            out.deep_view() == start + changes_messages(view.take(i as int), now),
        decreases changes@.len() - i,
    {
        proof {
            let front = view.take(i + 1);
            assert(front.last() == view[i as int]);
            assert(front.drop_last() =~= view.take(i as int));
        }
        push_change(out, &changes[i], now);
        assert(out.deep_view() =~= start + changes_messages(view.take(i + 1), now));
        i = i + 1;
    }
    assert(view.take(i as int) =~= view);
}

/// The messages that a webhook payload brings, in order. A message without a
/// time that can be read came at `now`.
pub fn parse_webhook_payload(payload: &JsonValue, now: Timestamp) -> (r: Vec<InboundMessage>)
    ensures
        r.deep_view() == payload_messages(payload@, now),
{
    let mut out: Vec<InboundMessage> = Vec::new();
    assert(out.deep_view() =~= Seq::empty());
    let entries = match payload.get_array("entry") {
        Some(entries) => entries,
        None => {
            return out;
        },
    };
    proof {
        lemma_items(entries@);
    }
    let ghost view = items_view(entries@);
    let mut i: usize = 0;
    assert(view.take(0) =~= Seq::empty());
    while i < entries.len()
        invariant
            i <= entries@.len(),
            view.len() == entries@.len(),
            forall|k: int| 0 <= k < entries@.len() ==> #[trigger] view[k] == entries@[k]@,
            out.deep_view() == entries_messages(view.take(i as int), now),
        decreases entries@.len() - i,
    {
        proof {
            let front = view.take(i + 1);
            assert(front.last() == view[i as int]);
            assert(front.drop_last() =~= view.take(i as int));
        }
        push_entry(&mut out, &entries[i], now);
        i = i + 1;
    }
    assert(view.take(i as int) =~= view);
    out
}

/// `body` with the message that it answers, where there is one.
pub open spec fn with_context(
    body: Map<Seq<char>, JsonView>,
    reply_to: Option<Seq<char>>,
) -> JsonView {
    JsonView::Object(
        match reply_to {
            Some(id) => body.insert(
                "context"@,
                JsonView::Object(map!["message_id"@ => JsonView::Text(id)]),
            ),
            None => body,
        },
    )
}

fn finish_with_context(body: JsonObject, reply_to: &Option<String>) -> (r: JsonValue)
    ensures
        r@ == with_context(body@, reply_to.deep_view()),
{
    let mut body = body;
    if let Some(id) = reply_to {
        let mut context = JsonObject::new();
        context.put_text("message_id", id.as_str());
        body.put("context", context.finish());
    }
    body.finish()
}

/// The request body of a text message, given its normalized text.
pub fn build_send_body(msg: &OutboundMessage, text: &str) -> (r: JsonValue)
    ensures
        r@ == with_context(
            map![
                "messaging_product"@ => JsonView::Text("whatsapp"@),
                "recipient_type"@ => JsonView::Text("individual"@),
                "to"@ => JsonView::Text(msg.to@),
                "type"@ => JsonView::Text("text"@),
                "text"@ => JsonView::Object(
                    map![
                        "body"@ => JsonView::Text(text@),
                        "preview_url"@ => JsonView::Bool(false),
                    ],
                ),
            ],
            msg@.reply_to,
        ),
{
    let mut inner = JsonObject::new();
    inner.put_text("body", text);
    inner.put_bool("preview_url", false);
    let mut body = JsonObject::new();
    body.put_text("messaging_product", "whatsapp");
    body.put_text("recipient_type", "individual");
    body.put_text("to", msg.to.as_str());
    body.put_text("type", "text");
    body.put("text", inner.finish());
    finish_with_context(body, &msg.reply_to)
}

/// The kinds of files that the platform knows.
#[derive(Clone, Copy, Debug, PartialEq, Eq, Structural)]
pub enum AttachmentKind {
    Image,
    Video,
    Audio,
    Document,
}

/// The word for a kind of file.
pub open spec fn kind_word(kind: AttachmentKind) -> Seq<char> {
    match kind {
        AttachmentKind::Image => "image"@,
        AttachmentKind::Video => "video"@,
        AttachmentKind::Audio => "audio"@,
        AttachmentKind::Document => "document"@,
    }
}

/// The description of an uploaded file. A document has a name; anything but
/// audio has a caption, where there is a text.
pub open spec fn media_part(
    kind: AttachmentKind,
    media_id: Seq<char>,
    filename: Seq<char>,
    text: Seq<char>,
) -> JsonView {
    let base = map!["id"@ => JsonView::Text(media_id)];
    let named = if kind == AttachmentKind::Document {
        base.insert("filename"@, JsonView::Text(filename))
    } else {
        base
    };
    JsonView::Object(
        if kind != AttachmentKind::Audio && text.len() > 0 {
            named.insert("caption"@, JsonView::Text(text))
        } else {
            named
        },
    )
}

/// The request body of a message with a file, given the kind and the name of
/// the file, its identifier with the platform, and the normalized text.
pub fn build_media_send_body(
    msg: &OutboundMessage,
    kind: AttachmentKind,
    filename: &str,
    uploaded_media_id: &str,
    text: &str,
) -> (r: JsonValue)
    ensures
        r@ == with_context(
            map![
                "messaging_product"@ => JsonView::Text("whatsapp"@),
                "recipient_type"@ => JsonView::Text("individual"@),
                "to"@ => JsonView::Text(msg.to@),
                "type"@ => JsonView::Text(kind_word(kind)),
                kind_word(kind) => media_part(kind, uploaded_media_id@, filename@, text@),
            ],
            msg@.reply_to,
        ),
{
    let word = match kind {
        AttachmentKind::Image => "image",
        AttachmentKind::Video => "video",
        AttachmentKind::Audio => "audio",
        AttachmentKind::Document => "document",
    };
    let mut part = JsonObject::new();
    part.put_text("id", uploaded_media_id);
    if kind == AttachmentKind::Document {
        part.put_text("filename", filename);
    }
    if kind != AttachmentKind::Audio && !text.is_empty() {
        part.put_text("caption", text);
    }
    let mut body = JsonObject::new();
    body.put_text("messaging_product", "whatsapp");
    body.put_text("recipient_type", "individual");
    body.put_text("to", msg.to.as_str());
    body.put_text("type", word);
    body.put(word, part.finish());
    finish_with_context(body, &msg.reply_to)
}

} // verus!
