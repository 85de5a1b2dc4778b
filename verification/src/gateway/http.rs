//! The gateway's HTTP interface: what each request is answered.

use crate::channels::media_text::{media_placeholder, placeholder_for};
use crate::channels::web::{queue_key, waiting, WebChannel};
use crate::channels::whatsapp::{parse_webhook_payload, payload_messages, WhatsAppChannel};
use crate::config::{AuthMode, BindMode, FrankClawConfig};
use crate::error::{ErrorView, FrankClawError};
use crate::gateway::chat::{ChatRequest, ChatResponse};
use crate::gateway::webhooks::{
    execute_request, mapping_for, message_in, request_problem, resolve_request, signature_problem,
    timestamp_problem, verify_signature, verify_timestamp,
};
use crate::json::{
    json_in, number, parse_json, parsed_view, JsonObject, JsonValue, JsonView,
};
use crate::media::{hyphenated, media_id_of, MediaId};
use crate::message::{
    clone_text, InboundAttachment, InboundAttachmentView, InboundMessage, InboundView,
    OutboundMessage,
};
use crate::text::{
    ascii_lower, blank, cat2, cat3, decimal, decimal_of, is_blank, str_eq, strip_prefix,
    to_ascii_lower, trimmed,
};
use crate::types::{
    clamp_id, cut, AgentId, ChannelId, SessionKey, Timestamp, MAX_ID_LEN, MAX_KEY_LEN,
};
use vstd::prelude::*;

verus! {

/// What a request is answered.
#[derive(Debug)]
pub enum HttpReply {
    /// A bare status.
    Empty { status: u16 },
    /// Plain text.
    Plain { status: u16, text: String },
    /// A JSON document.
    Document { status: u16, body: JsonValue },
    /// A failure: the status of the error, or `fallback` where it has none; the
    /// text of the error, or `message` in its place.
    Failure { error: FrankClawError, fallback: u16, message: Option<String> },
}

/// What a reply says.
pub enum HttpView {
    Empty(u16),
    Plain(u16, Seq<char>),
    Document(u16, JsonView),
    Failure(ErrorView, u16, Option<Seq<char>>),
}

impl View for HttpReply {
    type V = HttpView;

    open spec fn view(&self) -> HttpView {
        match self {
            HttpReply::Empty { status } => HttpView::Empty(*status),
            HttpReply::Plain { status, text } => HttpView::Plain(*status, text@),
            HttpReply::Document { status, body } => HttpView::Document(*status, body@),
            HttpReply::Failure { error, fallback, message } => HttpView::Failure(
                error@,
                *fallback,
                message.deep_view(),
            ),
        }
    }
}

/// A JSON document with one text in it.
pub open spec fn note(status: u16, key: Seq<char>, text: Seq<char>) -> HttpView {
    HttpView::Document(status, JsonView::Object(map![key => JsonView::Text(text)]))
}

fn noted(status: u16, key: &str, text: &str) -> (r: HttpReply)
    ensures
        r@ == note(status, key@, text@),
{
    let mut o = JsonObject::new();
    o.put_text(key, text);
    HttpReply::Document { status, body: o.finish() }
}

/// The headers of a request, in order, with their names in lower case. A value
/// that is not text has none.
#[derive(Debug)]
pub struct Headers {
    pub entries: Vec<(String, Option<String>)>,
}

/// The text of the first header of a given name, from `i` on.
pub open spec fn header_text(
    entries: Seq<(String, Option<String>)>,
    name: Seq<char>,
    i: int,
) -> Option<Seq<char>>
    decreases entries.len() - i,
{
    if i < 0 || i >= entries.len() {
        None
    } else if entries[i].0@ == name {
        entries[i].1.deep_view()
    } else {
        header_text(entries, name, i + 1)
    }
}

impl Headers {
    /// The text of the first header of a given name.
    pub open spec fn text(self, name: Seq<char>) -> Option<Seq<char>> {
        header_text(self.entries@, name, 0)
    }

    /// The text of the first header of a given name.
    pub fn get(&self, name: &str) -> (r: Option<&str>)
        ensures
            r is Some == self.text(name@) is Some,
            r is Some ==> r->0@ == self.text(name@)->0,
    {
        let mut i: usize = 0;
        while i < self.entries.len()
            invariant
                i <= self.entries@.len(),
                header_text(self.entries@, name@, 0) == header_text(
                    self.entries@,
                    name@,
                    i as int,
                ),
            decreases self.entries@.len() - i,
        {
            if str_eq(self.entries[i].0.as_str(), name) {
                return match &self.entries[i].1 {
                    Some(value) => Some(value.as_str()),
                    None => None,
                };
            }
            i = i + 1;
        }
        None
    }
}

/// Credentials in the query of a request.
#[derive(Debug)]
pub struct AuthQuery {
    pub token: Option<String>,
    pub password: Option<String>,
    pub identity: Option<String>,
}

/// What a client shows to prove who it is.
#[derive(Debug)]
pub enum AuthCredential {
    BearerToken(String),
    Password(String),
    ProxyIdentity(String),
    TailscaleIdentity(String),
    Missing,
}

/// What a credential says.
pub enum CredentialView {
    BearerToken(Seq<char>),
    Password(Seq<char>),
    ProxyIdentity(Seq<char>),
    TailscaleIdentity(Seq<char>),
    Missing,
}

impl View for AuthCredential {
    type V = CredentialView;

    open spec fn view(&self) -> CredentialView {
        match self {
            AuthCredential::BearerToken(s) => CredentialView::BearerToken(s@),
            AuthCredential::Password(s) => CredentialView::Password(s@),
            AuthCredential::ProxyIdentity(s) => CredentialView::ProxyIdentity(s@),
            AuthCredential::TailscaleIdentity(s) => CredentialView::TailscaleIdentity(s@),
            AuthCredential::Missing => CredentialView::Missing,
        }
    }
}

/// What follows `prefix` in a header.
pub open spec fn header_after(header: Option<Seq<char>>, prefix: Seq<char>) -> Option<Seq<char>> {
    match header {
        Some(value) => if prefix.is_prefix_of(value) {
            Some(value.skip(prefix.len() as int))
        } else {
            None
        },
        None => None,
    }
}

fn find_header_after<'a>(headers: &'a Headers, name: &str, prefix: &str) -> (r: Option<&'a str>)
    ensures
        r is Some == header_after(headers.text(name@), prefix@) is Some,
        r is Some ==> r->0@ == header_after(headers.text(name@), prefix@)->0,
{
    match headers.get(name) {
        Some(value) => match strip_prefix(value, prefix) {
            Some(rest) => {
                assert(rest@ =~= value@.skip(prefix@.len() as int));
                Some(rest)
            },
            None => None,
        },
        None => None,
    }
}

/// The field of a query, where there is a query.
pub open spec fn query_token(query: Option<AuthQuery>) -> Option<Seq<char>> {
    match query {
        Some(q) => q.token.deep_view(),
        None => None,
    }
}

/// The password of a query, where there is one.
pub open spec fn query_password(query: Option<AuthQuery>) -> Option<Seq<char>> {
    match query {
        Some(q) => q.password.deep_view(),
        None => None,
    }
}

/// The identity of a query, where there is one.
pub open spec fn query_identity(query: Option<AuthQuery>) -> Option<Seq<char>> {
    match query {
        Some(q) => q.identity.deep_view(),
        None => None,
    }
}

/// What a request shows under an authentication mode. The query counts before
/// the headers.
pub open spec fn credential_of(
    headers: Headers,
    query: Option<AuthQuery>,
    mode: AuthMode,
) -> CredentialView {
    match mode {
        AuthMode::Token { .. } => if query_token(query) is Some {
            CredentialView::BearerToken(query_token(query)->0)
        } else if header_after(headers.text("authorization"@), "Bearer "@) is Some {
            CredentialView::BearerToken(
                header_after(headers.text("authorization"@), "Bearer "@)->0,
            )
        } else {
            CredentialView::Missing
        },
        AuthMode::Password { .. } => if query_password(query) is Some {
            CredentialView::Password(query_password(query)->0)
        } else if headers.text("x-frankclaw-password"@) is Some {
            CredentialView::Password(headers.text("x-frankclaw-password"@)->0)
        } else if header_after(headers.text("authorization"@), "Password "@) is Some {
            CredentialView::Password(
                header_after(headers.text("authorization"@), "Password "@)->0,
            )
        } else {
            CredentialView::Missing
        },
        AuthMode::TrustedProxy { identity_header } => if query_identity(query) is Some {
            CredentialView::ProxyIdentity(query_identity(query)->0)
        } else if headers.text(ascii_lower(identity_header@)) is Some {
            CredentialView::ProxyIdentity(headers.text(ascii_lower(identity_header@))->0)
        } else {
            CredentialView::Missing
        },
        AuthMode::Tailscale => if headers.text("tailscale-user-login"@) is Some {
            CredentialView::TailscaleIdentity(headers.text("tailscale-user-login"@)->0)
        } else if headers.text("tailscale-user-name"@) is Some {
            CredentialView::TailscaleIdentity(headers.text("tailscale-user-name"@)->0)
        } else if headers.text("x-tailscale-user-login"@) is Some {
            CredentialView::TailscaleIdentity(headers.text("x-tailscale-user-login"@)->0)
        } else {
            CredentialView::Missing
        },
        AuthMode::Disabled => CredentialView::Missing,
    }
}

/// What a request shows under an authentication mode.
pub fn extract_credential(headers: &Headers, query: Option<&AuthQuery>, mode: &AuthMode) -> (r:
    AuthCredential)
    ensures
        r@ == credential_of(
            *headers,
            match query {
                Some(q) => Some(*q),
                None => None,
            },
            *mode,
        ),
{
    match mode {
        AuthMode::Token { .. } => {
            if let Some(query) = query {
                if let Some(token) = &query.token {
                    return AuthCredential::BearerToken(token.clone());
                }
            }
            if let Some(token) = find_header_after(headers, "authorization", "Bearer ") {
                return AuthCredential::BearerToken(token.to_owned());
            }
        },
        AuthMode::Password { .. } => {
            if let Some(query) = query {
                if let Some(password) = &query.password {
                    return AuthCredential::Password(password.clone());
                }
            }
            if let Some(password) = headers.get("x-frankclaw-password") {
                return AuthCredential::Password(password.to_owned());
            }
            if let Some(password) = find_header_after(headers, "authorization", "Password ") {
                return AuthCredential::Password(password.to_owned());
            }
        },
        AuthMode::TrustedProxy { identity_header } => {
            if let Some(query) = query {
                if let Some(identity) = &query.identity {
                    return AuthCredential::ProxyIdentity(identity.clone());
                }
            }
            let name = to_ascii_lower(identity_header.as_str());
            if let Some(identity) = headers.get(name.as_str()) {
                return AuthCredential::ProxyIdentity(identity.to_owned());
            }
        },
        AuthMode::Tailscale => {
            if let Some(identity) = headers.get("tailscale-user-login") {
                return AuthCredential::TailscaleIdentity(identity.to_owned());
            }
            if let Some(identity) = headers.get("tailscale-user-name") {
                return AuthCredential::TailscaleIdentity(identity.to_owned());
            }
            if let Some(identity) = headers.get("x-tailscale-user-login") {
                return AuthCredential::TailscaleIdentity(identity.to_owned());
            }
        },
        AuthMode::Disabled => {},
    }
    AuthCredential::Missing
}

/// The answer of the readiness probe.
pub fn readiness_handler(shutting_down: bool) -> (r: u16)
    ensures
        r == if shutting_down {
            503u16
        } else {
            200u16
        },
{
    if shutting_down {
        503
    } else {
        200
    }
}

/// The address and port to listen on.
pub open spec fn bind_text(mode: BindMode, port: u16) -> Seq<char> {
    match mode {
        BindMode::Loopback => "127.0.0.1"@ + ":"@ + decimal(port as nat),
        BindMode::Lan => "0.0.0.0"@ + ":"@ + decimal(port as nat),
        BindMode::Address(addr) => addr@ + ":"@ + decimal(port as nat),
    }
}

/// The address and port to listen on.
pub fn resolve_bind_addr(mode: &BindMode, port: u16) -> (r: String)
    ensures
        r@ == bind_text(*mode, port),
{
    let port = decimal_of(port as u64);
    match mode {
        BindMode::Loopback => cat3("127.0.0.1", ":", port.as_str()),
        BindMode::Lan => cat3("0.0.0.0", ":", port.as_str()),
        BindMode::Address(addr) => cat3(addr.as_str(), ":", port.as_str()),
    }
}

/// A file that a browser sends along.
#[derive(Debug)]
pub struct WebInboundAttachment {
    pub media_id: String,
    pub mime_type: String,
    pub filename: Option<String>,
    pub size_bytes: Option<u64>,
}

/// A message that a browser sends.
#[derive(Debug)]
pub struct WebInboundRequest {
    pub sender_id: String,
    pub message: Option<String>,
    pub agent_id: Option<String>,
    pub session_key: Option<String>,
    pub account_id: String,
    pub sender_name: Option<String>,
    pub thread_id: Option<String>,
    pub is_group: bool,
    pub is_mention: bool,
    pub attachments: Vec<WebInboundAttachment>,
}

/// The account of a message that names none.
pub fn default_web_account_id() -> (r: String)
    ensures
        r@ == "default"@,
{
    "default".to_owned()
}

/// The text of a browser's message: its own, trimmed, else a word for its
/// files.
pub open spec fn web_text(
    message: Option<Seq<char>>,
    attachments: Seq<WebInboundAttachment>,
) -> Option<Seq<char>> {
    if message is Some && !is_blank(message->0) {
        Some(trimmed(message->0))
    } else if attachments.len() == 0 {
        None
    } else if attachments.len() > 1 {
        Some("<media:attachments>"@)
    } else {
        Some(media_placeholder(attachments[0].mime_type@))
    }
}

/// The text of a browser's message.
pub fn web_inbound_text_or_placeholder(
    message: Option<&str>,
    attachments: &Vec<WebInboundAttachment>,
) -> (r: Option<String>)
    ensures
        r.deep_view() == web_text(
            match message {
                Some(s) => Some(s@),
                None => None,
            },
            attachments@,
        ),
{
    if let Some(text) = message {
        let text = text.trim();
        if !text.is_empty() {
            return Some(text.to_owned());
        }
    }
    if attachments.len() == 0 {
        None
    } else if attachments.len() > 1 {
        Some("<media:attachments>".to_owned())
    } else {
        Some(placeholder_for(attachments[0].mime_type.as_str()).to_owned())
    }
}

/// The files of a browser's message that name a stored file, in order.
pub open spec fn web_attachments(v: Seq<WebInboundAttachment>) -> Seq<InboundAttachmentView>
    decreases v.len(),
{
    if v.len() == 0 {
        Seq::empty()
    } else {
        let before = web_attachments(v.drop_last());
        match media_id_of(v.last().media_id@) {
            Some(id) => before.push(web_attachment_view(v.last(), id)),
            None => before,
        }
    }
}

/// A file of a browser's message that names the stored file `id`.
pub open spec fn web_attachment_view(a: WebInboundAttachment, id: MediaId) -> InboundAttachmentView {
    InboundAttachmentView {
        media_id: Some(id),
        mime_type: a.mime_type@,
        filename: a.filename.deep_view(),
        size_bytes: a.size_bytes,
        url: Some("/api/media/"@ + a.media_id@),
    }
}

/// A file of a browser's message that names the stored file `id`.
pub fn web_attachment(a: &WebInboundAttachment, id: MediaId) -> (r: InboundAttachment)
    ensures
        r@ == web_attachment_view(*a, id),
{
    InboundAttachment {
        media_id: Some(id),
        mime_type: a.mime_type.clone(),
        filename: clone_text(&a.filename),
        size_bytes: a.size_bytes,
        url: Some(cat2("/api/media/", a.media_id.as_str())),
    }
}

fn get_web_attachments(v: &Vec<WebInboundAttachment>) -> (r: Vec<InboundAttachment>)
    ensures
        r.deep_view() == web_attachments(v@),
{
    let mut out: Vec<InboundAttachment> = Vec::new();
    let mut i: usize = 0;
    assert(out.deep_view() =~= web_attachments(v@.take(0)));
    while i < v.len()
        invariant
            i <= v@.len(),
            out.deep_view() == web_attachments(v@.take(i as int)),
        decreases v@.len() - i,
    {
        let ghost before = out.deep_view();
        proof {
            let front = v@.take(i + 1);
            assert(front.last() == v@[i as int]);
            assert(front.drop_last() =~= v@.take(i as int));
        }
        let a = &v[i];
        if let Some(id) = MediaId::parse(a.media_id.as_str()) {
            let attachment = web_attachment(a, id);
            out.push(attachment);
            assert(out.deep_view() =~= before.push(attachment@));
        }
        i = i + 1;
    }
    assert(v@.take(i as int) =~= v@);
    out
}

/// The message that a browser sent.
pub open spec fn web_message(body: WebInboundRequest, now: Timestamp) -> InboundView {
    InboundView {
        channel: "web"@,
        account_id: cut(body.account_id@, MAX_ID_LEN as int),
        sender_id: cut(body.sender_id@, MAX_ID_LEN as int),
        sender_name: body.sender_name.deep_view(),
        thread_id: body.thread_id.deep_view(),
        is_group: body.is_group,
        is_mention: body.is_mention,
        text: web_text(body.message.deep_view(), body.attachments@),
        attachments: web_attachments(body.attachments@),
        platform_message_id: None,
        timestamp: now,
    }
}

/// A message that a browser sent, and whom it is for.
#[derive(Debug)]
pub struct WebInbound {
    pub inbound: InboundMessage,
    pub agent_id: Option<AgentId>,
    pub session_key: Option<SessionKey>,
}

/// The message that a browser sent, and whom it is for.
pub fn web_inbound_handler(body: WebInboundRequest, now: Timestamp) -> (r: WebInbound)
    ensures
        r.inbound@ == web_message(body, now),
        r.agent_id.deep_view() == match body.agent_id {
            Some(id) => Some(cut(id@, MAX_ID_LEN as int)),
            None => None,
        },
        r.session_key.deep_view() == match body.session_key {
            Some(key) => Some(cut(key@, MAX_KEY_LEN as int)),
            None => None,
        },
{
    let message = match &body.message {
        Some(text) => Some(text.as_str()),
        None => None,
    };
    let text = web_inbound_text_or_placeholder(message, &body.attachments);
    let inbound = InboundMessage {
        channel: ChannelId("web".to_owned()),
        account_id: clamp_id(body.account_id.as_str()),
        sender_id: clamp_id(body.sender_id.as_str()),
        sender_name: clone_text(&body.sender_name),
        thread_id: clone_text(&body.thread_id),
        is_group: body.is_group,
        is_mention: body.is_mention,
        text,
        attachments: get_web_attachments(&body.attachments),
        platform_message_id: None,
        timestamp: now,
    };
    let agent_id = match &body.agent_id {
        Some(id) => Some(AgentId::new(id.as_str())),
        None => None,
    };
    let session_key = match &body.session_key {
        Some(key) => Some(SessionKey::from_raw(key.as_str())),
        None => None,
    };
    WebInbound { inbound, agent_id, session_key }
}

/// The answer to a browser's message: accepted, with the session where there
/// was a turn; or why it was turned down.
pub fn web_inbound_reply(outcome: Result<Option<SessionKey>, FrankClawError>) -> (r: HttpReply)
    ensures
        r@ == match outcome {
            Ok(Some(key)) => HttpView::Document(
                202,
                JsonView::Object(
                    map![
                        "status"@ => JsonView::Text("accepted"@),
                        "session_key"@ => JsonView::Text(key@),
                    ],
                ),
            ),
            Ok(None) => note(202, "status"@, "accepted"@),
            Err(e) => HttpView::Failure(e@, 500, None),
        },
{
    match outcome {
        Ok(Some(key)) => {
            let mut o = JsonObject::new();
            o.put_text("status", "accepted");
            o.put_text("session_key", key.as_str());
            HttpReply::Document { status: 202, body: o.finish() }
        },
        Ok(None) => noted(202, "status", "accepted"),
        Err(error) => HttpReply::Failure { error, fallback: 500, message: None },
    }
}

/// The text, or `default` where it is missing or blank.
pub open spec fn filled_or(text: Option<Seq<char>>, default: Seq<char>) -> Seq<char> {
    if text is Some && !is_blank(text->0) {
        text->0
    } else {
        default
    }
}

fn get_filled_or<'a>(text: Option<&'a str>, default: &'a str) -> (r: &'a str)
    ensures
        r@ == filled_or(
            match text {
                Some(s) => Some(s@),
                None => None,
            },
            default@,
        ),
{
    match text {
        Some(s) => if blank(s) {
            default
        } else {
            s
        },
        None => default,
    }
}

/// Takes the messages that wait for a browser; an answer of its own where
/// there is no web channel.
pub fn web_outbound_handler(
    web: &mut Option<WebChannel>,
    account_id: Option<&str>,
    recipient_id: Option<&str>,
) -> (r: Result<Vec<OutboundMessage>, HttpReply>)
    requires
        (*old(web)) is Some ==> (*old(web))->0.wf(),
    ensures
        ({
            let key = queue_key(
                filled_or(
                    match account_id {
                        Some(s) => Some(s@),
                        None => None,
                    },
                    "default"@,
                ),
                filled_or(
                    match recipient_id {
                        Some(s) => Some(s@),
                        None => None,
                    },
                    "console-browser"@,
                ),
            );
            if (*old(web)) is Some {
                &&& r is Ok
                &&& r->Ok_0@ == waiting((*old(web))->0.outbound@, key)
                &&& (*final(web)) is Some
                &&& (*final(web))->0.wf()
                &&& (*final(web))->0.outbound@ == (*old(web))->0.outbound@.remove(key)
            } else {
                &&& r is Err
                &&& r->Err_0@ == note(404, "error"@, "web channel not configured"@)
                &&& (*final(web)) is None
            }
        }),
{
    match web {
        Some(channel) => {
            let account = get_filled_or(account_id, "default");
            let recipient = get_filled_or(recipient_id, "console-browser");
            Ok(channel.drain_outbound(account, recipient))
        },
        None => Err(noted(404, "error", "web channel not configured")),
    }
}

/// The trimmed text of a header, or `default` where it is missing or blank.
pub open spec fn header_or(header: Option<Seq<char>>, default: Seq<char>) -> Seq<char> {
    if header is Some && !is_blank(header->0) {
        trimmed(header->0)
    } else {
        default
    }
}

fn get_header_or<'a>(headers: &'a Headers, name: &str, default: &'a str) -> (r: &'a str)
    ensures
        r@ == header_or(headers.text(name@), default@),
{
    match headers.get(name) {
        Some(value) => {
            let value = value.trim();
            if value.is_empty() {
                default
            } else {
                value
            }
        },
        None => default,
    }
}

/// The media type and the name under which an upload is stored.
pub fn media_upload_handler(headers: &Headers) -> (r: (&str, &str))
    ensures
        r.0@ == header_or(headers.text("content-type"@), "application/octet-stream"@),
        r.1@ == header_or(headers.text("x-file-name"@), "upload.bin"@),
{
    (
        get_header_or(headers, "content-type", "application/octet-stream"),
        get_header_or(headers, "x-file-name", "upload.bin"),
    )
}

/// A file as the media store keeps it.
#[derive(Debug)]
pub struct StoredMedia {
    pub id: MediaId,
    pub original_name: String,
    pub mime_type: String,
    pub size_bytes: u64,
}

/// The answer to an upload.
pub fn media_upload_reply(outcome: Result<StoredMedia, FrankClawError>) -> (r: HttpReply)
    ensures
        r@ == match outcome {
            Ok(media) => HttpView::Document(
                201,
                JsonView::Object(
                    map![
                        "media_id"@ => JsonView::Text(hyphenated(media.id.0)),
                        "filename"@ => JsonView::Text(media.original_name@),
                        "mime_type"@ => JsonView::Text(media.mime_type@),
                        "size_bytes"@ => number(media.size_bytes as nat),
                        "url"@ => JsonView::Text("/api/media/"@ + hyphenated(media.id.0)),
                    ],
                ),
            ),
            Err(e) => HttpView::Failure(e@, 500, None),
        },
{
    match outcome {
        Ok(media) => {
            let id = media.id.to_text();
            let mut o = JsonObject::new();
            o.put_text("media_id", id.as_str());
            o.put_text("filename", media.original_name.as_str());
            o.put_text("mime_type", media.mime_type.as_str());
            o.put_unsigned("size_bytes", media.size_bytes);
            o.put_text("url", cat2("/api/media/", id.as_str()).as_str());
            HttpReply::Document { status: 201, body: o.finish() }
        },
        Err(error) => HttpReply::Failure { error, fallback: 500, message: None },
    }
}

/// The file that a download asks for; an answer of its own when it names none.
pub fn media_download_handler(media_id: &str) -> (r: Result<MediaId, HttpReply>)
    ensures
        match media_id_of(media_id@) {
            Some(id) => r is Ok && r->Ok_0 == id,
            None => r is Err && r->Err_0@ == note(400, "error"@, "invalid media_id"@),
        },
{
    match MediaId::parse(media_id) {
        Some(id) => Ok(id),
        None => Err(noted(400, "error", "invalid media_id")),
    }
}

/// The answer to a download that found nothing, or failed.
pub fn media_download_missing(error: Option<FrankClawError>) -> (r: HttpReply)
    ensures
        r@ == match error {
            Some(e) => HttpView::Failure(e@, 500, None),
            None => note(404, "error"@, "media not found"@),
        },
{
    match error {
        Some(error) => HttpReply::Failure { error, fallback: 500, message: None },
        None => noted(404, "error", "media not found"),
    }
}

/// The header that names a downloaded file.
pub fn content_disposition(filename: &str) -> (r: String)
    ensures
        r@ == "inline; filename=\""@ + filename@ + "\""@,
{
    cat3("inline; filename=\"", filename, "\"")
}

/// The parameters of a WhatsApp subscription request.
#[derive(Debug)]
pub struct WhatsAppVerifyQuery {
    pub hub_mode: Option<String>,
    pub hub_challenge: Option<String>,
    pub hub_verify_token: Option<String>,
}

/// The answer to a WhatsApp subscription request: the challenge, where the
/// token is right.
pub open spec fn subscription_answer(
    whatsapp: Option<WhatsAppChannel>,
    query: WhatsAppVerifyQuery,
) -> HttpView {
    if whatsapp is None {
        HttpView::Empty(404)
    } else if query.hub_mode.deep_view() != Some("subscribe"@) {
        HttpView::Empty(400)
    } else if query.hub_verify_token is None {
        HttpView::Empty(401)
    } else if trimmed(query.hub_verify_token->0@) != whatsapp->0.verify_token@ {
        HttpView::Empty(401)
    } else {
        HttpView::Plain(
            200,
            match query.hub_challenge {
                Some(challenge) => challenge@,
                None => Seq::empty(),
            },
        )
    }
}

/// The answer to a WhatsApp subscription request.
pub fn whatsapp_webhook_verify_handler(
    whatsapp: Option<&WhatsAppChannel>,
    query: WhatsAppVerifyQuery,
) -> (r: HttpReply)
    ensures
        r@ == subscription_answer(
            match whatsapp {
                Some(w) => Some(*w),
                None => None,
            },
            query,
        ),
{
    let whatsapp = match whatsapp {
        Some(whatsapp) => whatsapp,
        None => {
            return HttpReply::Empty { status: 404 };
        },
    };
    let subscribes = match &query.hub_mode {
        Some(mode) => str_eq(mode.as_str(), "subscribe"),
        None => false,
    };
    if !subscribes {
        return HttpReply::Empty { status: 400 };
    }
    let matches = match &query.hub_verify_token {
        Some(token) => whatsapp.verify_token_matches(token.as_str()),
        None => false,
    };
    if !matches {
        return HttpReply::Empty { status: 401 };
    }
    let text = match query.hub_challenge {
        Some(challenge) => challenge,
        None => String::new(),
    };
    HttpReply::Plain { status: 200, text }
}

/// Why a WhatsApp webhook request is turned down before its body is read, if
/// it is.
pub open spec fn whatsapp_refusal(
    whatsapp: Option<WhatsAppChannel>,
    max_body_bytes: usize,
    body: Seq<u8>,
    signature: Option<Seq<char>>,
) -> Option<HttpView> {
    match whatsapp {
        None => Some(note(404, "error"@, "whatsapp channel not configured"@)),
        Some(channel) => if body.len() > max_body_bytes {
            Some(note(413, "error"@, "webhook body too large"@))
        } else {
            match channel.signature_problem(body, signature) {
                Some(e) => Some(HttpView::Failure(e, 401, None)),
                None => None,
            }
        },
    }
}

/// Checks a WhatsApp webhook request before its body is read: the channel is
/// there, the body is not too large, and its signature holds.
pub fn whatsapp_webhook_gate(
    whatsapp: Option<&WhatsAppChannel>,
    config: &FrankClawConfig,
    headers: &Headers,
    body: &[u8],
) -> (r: Option<HttpReply>)
    ensures
        ({
            let refusal = whatsapp_refusal(
                match whatsapp {
                    Some(w) => Some(*w),
                    None => None,
                },
                config.security.max_webhook_body_bytes,
                body@,
                headers.text("x-hub-signature-256"@),
            );
            r is Some == refusal is Some && (r is Some ==> r->0@ == refusal->0)
        }),
{
    let whatsapp = match whatsapp {
        Some(whatsapp) => whatsapp,
        None => {
            return Some(noted(404, "error", "whatsapp channel not configured"));
        },
    };
    if body.len() > config.security.max_webhook_body_bytes {
        return Some(noted(413, "error", "webhook body too large"));
    }
    match whatsapp.verify_signature(body, headers.get("x-hub-signature-256")) {
        Ok(_) => None,
        Err(error) => Some(HttpReply::Failure { error, fallback: 401, message: None }),
    }
}

/// The answer to a webhook request whose body is not JSON.
pub open spec fn invalid_json(what: Seq<char>, complaint: Seq<char>) -> HttpView {
    note(400, "error"@, "invalid "@ + what + " JSON: "@ + complaint)
}

/// The answer to a webhook request whose body is not JSON. `what` is the
/// webhook's name in the complaint.
pub fn invalid_json_reply(what: &str, complaint: &str) -> (r: HttpReply)
    ensures
        r@ == invalid_json(what@, complaint@),
{
    noted(400, "error", cat2(cat3("invalid ", what, " JSON: ").as_str(), complaint).as_str())
}

/// What to do with a WhatsApp webhook request.
#[derive(Debug)]
pub enum WhatsAppStep {
    /// Process these messages, in order.
    Messages(Vec<InboundMessage>),
    /// Answer this.
    Reply(HttpReply),
}

/// True when `step` is what to do with a WhatsApp webhook body, given what the
/// parse of it came to.
pub open spec fn whatsapp_follows(
    parsed: Result<JsonView, Seq<char>>,
    now: Timestamp,
    step: WhatsAppStep,
) -> bool {
    match parsed {
        Err(complaint) => step is Reply && step->Reply_0@ == invalid_json(
            "whatsapp webhook"@,
            complaint,
        ),
        Ok(payload) => if payload_messages(payload, now).len() == 0 {
            step is Reply && step->Reply_0@ == note(202, "status"@, "ignored"@)
        } else {
            step is Messages && step->Messages_0.deep_view() == payload_messages(payload, now)
        },
    }
}

/// What to do with a WhatsApp webhook body, given what the parse of it came to.
pub fn whatsapp_webhook_payload(parsed: Result<JsonValue, String>, now: Timestamp) -> (r:
    WhatsAppStep)
    ensures
        whatsapp_follows(parsed_view(parsed), now, r),
{
    let payload = match parsed {
        Ok(payload) => payload,
        Err(complaint) => {
            return WhatsAppStep::Reply(
                invalid_json_reply("whatsapp webhook", complaint.as_str()),
            );
        },
    };
    let messages = parse_webhook_payload(&payload, now);
    assert(messages.deep_view().len() == messages@.len());
    if messages.len() == 0 {
        WhatsAppStep::Reply(noted(202, "status", "ignored"))
    } else {
        WhatsAppStep::Messages(messages)
    }
}

/// What to do with a WhatsApp webhook request: the checks, then the body.
pub fn whatsapp_webhook_inbound_handler(
    whatsapp: Option<&WhatsAppChannel>,
    config: &FrankClawConfig,
    headers: &Headers,
    body: &[u8],
    now: Timestamp,
) -> (r: WhatsAppStep)
    ensures
        match whatsapp_refusal(
            match whatsapp {
                Some(w) => Some(*w),
                None => None,
            },
            config.security.max_webhook_body_bytes,
            body@,
            headers.text("x-hub-signature-256"@),
        ) {
            Some(refusal) => r is Reply && r->Reply_0@ == refusal,
            None => whatsapp_follows(json_in(body@), now, r),
        },
{
    match whatsapp_webhook_gate(whatsapp, config, headers, body) {
        Some(reply) => WhatsAppStep::Reply(reply),
        None => whatsapp_webhook_payload(parse_json(body), now),
    }
}

/// The answer once the messages of a WhatsApp webhook request were processed,
/// or one of them failed.
pub fn whatsapp_webhook_done(outcome: Result<(), FrankClawError>) -> (r: HttpReply)
    ensures
        r@ == match outcome {
            Ok(_) => note(202, "status"@, "accepted"@),
            Err(e) => HttpView::Failure(e@, 500, None),
        },
{
    match outcome {
        Ok(_) => noted(202, "status", "accepted"),
        Err(error) => HttpReply::Failure { error, fallback: 500, message: None },
    }
}

/// The largest body that a webhook takes.
pub open spec fn webhook_limit(config: FrankClawConfig) -> usize {
    match config.hooks.max_body_bytes {
        Some(n) => if n < config.security.max_webhook_body_bytes {
            n
        } else {
            config.security.max_webhook_body_bytes
        },
        None => config.security.max_webhook_body_bytes,
    }
}

/// Why a webhook request is turned down before its body is read, if it is.
pub open spec fn webhook_refusal(
    config: FrankClawConfig,
    timestamp: Option<Seq<char>>,
    signature: Option<Seq<char>>,
    body: Seq<u8>,
    now: int,
) -> Option<HttpView> {
    if body.len() > webhook_limit(config) {
        Some(note(413, "error"@, "webhook body too large"@))
    } else if timestamp_problem(timestamp, now) is Some {
        Some(
            HttpView::Failure(
                timestamp_problem(timestamp, now)->0,
                401,
                Some("webhook timestamp expired or invalid"@),
            ),
        )
    } else {
        match signature_problem(config.hooks, body, signature) {
            Some(e) => Some(HttpView::Failure(e, 401, None)),
            None => None,
        }
    }
}

/// Checks a webhook request before its body is read: the body is not too
/// large, its timestamp is near `now`, and its signature holds.
pub fn webhook_gate(config: &FrankClawConfig, headers: &Headers, body: &[u8], now: i64) -> (r:
    Option<HttpReply>)
    ensures
        ({
            let refusal = webhook_refusal(
                *config,
                headers.text("x-frankclaw-timestamp"@),
                headers.text("x-frankclaw-signature"@),
                body@,
                now as int,
            );
            r is Some == refusal is Some && (r is Some ==> r->0@ == refusal->0)
        }),
{
    let cap: usize = config.security.max_webhook_body_bytes;
    let max_body_bytes: usize = match config.hooks.max_body_bytes {
        Some(n) => if n < cap {
            n
        } else {
            cap
        },
        None => cap,
    };
    if body.len() > max_body_bytes {
        return Some(noted(413, "error", "webhook body too large"));
    }
    match verify_timestamp(headers.get("x-frankclaw-timestamp"), now) {
        Ok(_) => {},
        Err(error) => {
            return Some(
                HttpReply::Failure {
                    error,
                    fallback: 401,
                    message: Some("webhook timestamp expired or invalid".to_owned()),
                },
            );
        },
    }
    match verify_signature(config, body, headers.get("x-frankclaw-signature")) {
        Ok(_) => None,
        Err(error) => Some(HttpReply::Failure { error, fallback: 401, message: None }),
    }
}

/// What to do with a webhook request.
#[derive(Debug)]
pub enum WebhookStep {
    /// Take this turn.
    Turn(ChatRequest),
    /// Answer this.
    Reply(HttpReply),
}

/// True when `step` is what to do with a body for the mapping `id`, given what
/// the parse of it came to: the turn that the mapping makes of it, or why there
/// is none.
pub open spec fn webhook_follows(
    config: FrankClawConfig,
    id: Seq<char>,
    parsed: Result<JsonView, Seq<char>>,
    step: WebhookStep,
) -> bool {
    match parsed {
        Err(complaint) => step is Reply && step->Reply_0@ == invalid_json("webhook"@, complaint),
        Ok(payload) => match request_problem(config.hooks, id, payload) {
            Some(e) => step is Reply && step->Reply_0@ == HttpView::Failure(e, 400, None),
            None => {
                let mapping = mapping_for(config.hooks, id)->0;
                &&& step matches WebhookStep::Turn(turn)
                &&& turn.agent_id == mapping.agent_id
                &&& turn.session_key == mapping.session_key
                &&& message_in(mapping, payload) == Some(turn.message@)
                &&& turn.is_plain()
            },
        },
    }
}

/// What to do with a body for the mapping `mapping_id`, given what the parse of
/// it came to.
pub fn webhook_payload(
    config: &FrankClawConfig,
    mapping_id: &str,
    parsed: Result<JsonValue, String>,
) -> (r: WebhookStep)
    ensures
        webhook_follows(*config, mapping_id@, parsed_view(parsed), r),
{
    let payload = match parsed {
        Ok(payload) => payload,
        Err(complaint) => {
            return WebhookStep::Reply(invalid_json_reply("webhook", complaint.as_str()));
        },
    };
    match resolve_request(config, mapping_id, &payload) {
        Ok(request) => WebhookStep::Turn(execute_request(request)),
        Err(error) => WebhookStep::Reply(
            HttpReply::Failure { error, fallback: 400, message: None },
        ),
    }
}

/// What to do with a webhook request: the checks, then the body, then the
/// mapping.
pub fn webhook_handler(
    config: &FrankClawConfig,
    mapping_id: &str,
    headers: &Headers,
    body: &[u8],
    now: i64,
) -> (r: WebhookStep)
    ensures
        match webhook_refusal(
            *config,
            headers.text("x-frankclaw-timestamp"@),
            headers.text("x-frankclaw-signature"@),
            body@,
            now as int,
        ) {
            Some(refusal) => r is Reply && r->Reply_0@ == refusal,
            None => webhook_follows(*config, mapping_id@, json_in(body@), r),
        },
{
    match webhook_gate(config, headers, body, now) {
        Some(reply) => WebhookStep::Reply(reply),
        None => webhook_payload(config, mapping_id, parse_json(body)),
    }
}

/// The answer to a webhook request, given how its turn ended.
pub fn webhook_done(outcome: Result<ChatResponse, FrankClawError>) -> (r: HttpReply)
    ensures
        r@ == match outcome {
            Ok(response) => HttpView::Document(
                200,
                JsonView::Object(
                    map![
                        "session_key"@ => JsonView::Text(response.session_key@),
                        "model_id"@ => JsonView::Text(response.model_id@),
                        "content"@ => JsonView::Text(response.content@),
                    ],
                ),
            ),
            Err(e) => HttpView::Failure(e@, 500, None),
        },
{
    match outcome {
        Ok(response) => {
            let mut o = JsonObject::new();
            o.put_text("session_key", response.session_key.as_str());
            o.put_text("model_id", response.model_id.as_str());
            o.put_text("content", response.content.as_str());
            HttpReply::Document { status: 200, body: o.finish() }
        },
        Err(error) => HttpReply::Failure { error, fallback: 500, message: None },
    }
}

/// The answer to a pairing approval. `approved` is the pairing in its JSON
/// form, or the complaint.
pub fn pairing_approve_handler(approved: Result<JsonValue, String>) -> (r: HttpReply)
    ensures
        r@ == match approved {
            Ok(j) => HttpView::Document(200, JsonView::Object(map!["approved"@ => j@])),
            Err(complaint) => note(400, "error"@, complaint@),
        },
{
    match approved {
        Ok(j) => {
            let mut o = JsonObject::new();
            o.put("approved", j);
            HttpReply::Document { status: 200, body: o.finish() }
        },
        Err(complaint) => noted(400, "error", complaint.as_str()),
    }
}

/// A webhook body that is signed, dated now and small enough is let through.
pub proof fn law_good_webhook_passes(config: FrankClawConfig, body: Seq<u8>, now: int)
    requires
        config.hooks.enabled,
        crate::config::filled(config.hooks.token.deep_view()),
        body.len() <= webhook_limit(config),
    ensures
        webhook_refusal(
            config,
            None,
            Some(crate::signature::signature_text(config.hooks.token->0@, body)),
            body,
            now,
        ) is None,
{
    crate::gateway::webhooks::law_signed_body_accepted(config.hooks, body);
}

} // verus!
