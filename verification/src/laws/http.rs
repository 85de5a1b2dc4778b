//! Requests over HTTP: which credential counts, what a browser's message says,
//! and what waits for the browser.

use crate::channels::web::{queue_key, waiting, WebChannel};
use crate::channels::whatsapp::{parse_webhook_payload, WhatsAppChannel};
use crate::config::{AuthMode, BindMode, FrankClawConfig};
use crate::error::FrankClawError;
use crate::gateway::http::{
    content_disposition, extract_credential, header_text, media_download_handler,
    media_download_missing, media_upload_handler, media_upload_reply, pairing_approve_handler,
    readiness_handler, resolve_bind_addr, web_inbound_handler, web_inbound_reply,
    web_outbound_handler, whatsapp_webhook_done, whatsapp_webhook_gate,
    whatsapp_webhook_inbound_handler, whatsapp_webhook_payload, whatsapp_webhook_verify_handler,
    AuthCredential, AuthQuery, Headers, HttpReply, StoredMedia, WebInbound, WebInboundRequest,
    WhatsAppStep, WhatsAppVerifyQuery,
};
use crate::json::{json_in, parsed_view, JsonValue};
use crate::laws::terms::{inner, said, stands_in, whole};
use crate::media::MediaId;
use crate::message::{InboundMessage, OutboundMessage, SendResult};
use crate::text::{byte_len, decimal, is_blank, lower_char, trimmed};
use crate::types::{lemma_cut, SessionKey, Timestamp};
use vstd::prelude::*;

verus! {

/// True when the first header of a name is the `i`-th.
pub open spec fn first_header(headers: Headers, name: Seq<char>, i: int) -> bool {
    &&& 0 <= i < headers.entries@.len()
    &&& headers.entries@[i].0@ == name
    &&& forall|k: int| 0 <= k < i ==> (#[trigger] headers.entries@[k]).0@ != name
}

proof fn lemma_header_from(headers: Headers, name: Seq<char>, from: int, i: int)
    requires
        first_header(headers, name, i),
        0 <= from <= i,
    ensures
        header_text(headers.entries@, name, from) == headers.entries@[i].1.deep_view(),
    decreases i - from,
{
    if from < i {
        assert(headers.entries@[from].0@ != name);
        lemma_header_from(headers, name, from + 1, i);
    }
}

proof fn lemma_no_header(headers: Headers, name: Seq<char>, from: int)
    requires
        forall|k: int|
            0 <= k < headers.entries@.len() ==> (#[trigger] headers.entries@[k]).0@ != name,
        0 <= from,
    ensures
        header_text(headers.entries@, name, from) is None,
    decreases headers.entries@.len() - from,
{
    if from < headers.entries@.len() {
        assert(headers.entries@[from].0@ != name);
        lemma_no_header(headers, name, from + 1);
    }
}

/// A header is the first one of its name; where none has the name there is none.
pub proof fn law_first_header_counts(headers: &Headers, name: &str, i: int, r: Option<&str>)
    requires
        call_ensures(Headers::get, (headers, name), r),
    ensures
        first_header(*headers, name@, i) ==> (r is Some <==> headers.entries@[i].1 is Some) && (r
            is Some ==> r->0@ == headers.entries@[i].1->0@),
        (forall|k: int|
            0 <= k < headers.entries@.len() ==> (#[trigger] headers.entries@[k]).0@ != name@) ==> r
            is None,
{
    if first_header(*headers, name@, i) {
        lemma_header_from(*headers, name@, 0, i);
    }
    if forall|k: int|
        0 <= k < headers.entries@.len() ==> (#[trigger] headers.entries@[k]).0@ != name@ {
        lemma_no_header(*headers, name@, 0);
    }
}

/// Under token authentication a token of the query counts first, else the one
/// behind `Bearer ` in the authorization header; else there is no credential.
pub proof fn law_token_credential(
    headers: &Headers,
    query: Option<&AuthQuery>,
    mode: &AuthMode,
    name: &str,
    header: Option<&str>,
    token: Seq<char>,
    r: AuthCredential,
)
    requires
        mode is Token,
        name@ == "authorization"@,
        call_ensures(Headers::get, (headers, name), header),
        call_ensures(extract_credential, (headers, query, mode), r),
    ensures
        query is Some && query->0.token is Some ==> r is BearerToken && r->BearerToken_0@
            == query->0.token->0@,
        (query is None || query->0.token is None) && header is Some && header->0@ == "Bearer "@
            + token ==> r is BearerToken && r->BearerToken_0@ == token,
        (query is None || query->0.token is None) && (header is None || !"Bearer "@.is_prefix_of(
            header->0@,
        )) ==> r is Missing,
{
    if header is Some && header->0@ == "Bearer "@ + token {
        assert("Bearer "@.is_prefix_of(header->0@));
        assert(header->0@.skip("Bearer "@.len() as int) =~= token);
    }
}

/// Under password authentication a password of the query counts first, then the
/// one in its own header, then the one behind `Password ` in the authorization
/// header; else there is no credential.
pub proof fn law_password_credential(
    headers: &Headers,
    query: Option<&AuthQuery>,
    mode: &AuthMode,
    own_name: &str,
    name: &str,
    own: Option<&str>,
    header: Option<&str>,
    password: Seq<char>,
    r: AuthCredential,
)
    requires
        mode is Password,
        own_name@ == "x-frankclaw-password"@,
        name@ == "authorization"@,
        call_ensures(Headers::get, (headers, own_name), own),
        call_ensures(Headers::get, (headers, name), header),
        call_ensures(extract_credential, (headers, query, mode), r),
    ensures
        ({
            let asked = query is Some && query->0.password is Some;
            &&& asked ==> r is Password && r->Password_0@ == query->0.password->0@
            &&& !asked && own is Some ==> r is Password && r->Password_0@ == own->0@
            &&& !asked && own is None && header is Some && header->0@ == "Password "@ + password
                ==> r is Password && r->Password_0@ == password
            &&& !asked && own is None && (header is None || !"Password "@.is_prefix_of(
                header->0@,
            )) ==> r is Missing
        }),
{
    if header is Some && header->0@ == "Password "@ + password {
        assert("Password "@.is_prefix_of(header->0@));
        assert(header->0@.skip("Password "@.len() as int) =~= password);
    }
}

/// Behind a trusted proxy an identity of the query counts first, then the header
/// that the proxy sets, whose name counts in lower case.
pub proof fn law_proxy_credential(
    headers: &Headers,
    query: Option<&AuthQuery>,
    mode: &AuthMode,
    name: &str,
    header: Option<&str>,
    r: AuthCredential,
)
    requires
        mode is TrustedProxy,
        name@ == mode->identity_header@.map_values(|c: char| lower_char(c)),
        call_ensures(Headers::get, (headers, name), header),
        call_ensures(extract_credential, (headers, query, mode), r),
    ensures
        ({
            let asked = query is Some && query->0.identity is Some;
            &&& asked ==> r is ProxyIdentity && r->ProxyIdentity_0@ == query->0.identity->0@
            &&& !asked && header is Some ==> r is ProxyIdentity && r->ProxyIdentity_0@ == header->0@
            &&& !asked && header is None ==> r is Missing
        }),
{
    assert(name@ =~= crate::text::ascii_lower(mode->identity_header@));
}

/// Within a tailnet the login counts, then the name, then the older login
/// header; where authentication is off nothing counts.
pub proof fn law_tailnet_credential(
    headers: &Headers,
    query: Option<&AuthQuery>,
    mode: &AuthMode,
    login_name: &str,
    user_name: &str,
    older_name: &str,
    login: Option<&str>,
    user: Option<&str>,
    older: Option<&str>,
    r: AuthCredential,
)
    requires
        login_name@ == "tailscale-user-login"@,
        user_name@ == "tailscale-user-name"@,
        older_name@ == "x-tailscale-user-login"@,
        call_ensures(Headers::get, (headers, login_name), login),
        call_ensures(Headers::get, (headers, user_name), user),
        call_ensures(Headers::get, (headers, older_name), older),
        call_ensures(extract_credential, (headers, query, mode), r),
    ensures
        mode is Disabled ==> r is Missing,
        mode is Tailscale && login is Some ==> r is TailscaleIdentity && r->TailscaleIdentity_0@
            == login->0@,
        mode is Tailscale && login is None && user is Some ==> r is TailscaleIdentity
            && r->TailscaleIdentity_0@ == user->0@,
        mode is Tailscale && login is None && user is None && older is Some ==> r
            is TailscaleIdentity && r->TailscaleIdentity_0@ == older->0@,
        mode is Tailscale && login is None && user is None && older is None ==> r is Missing,
{
}

/// The gateway listens on this machine alone, on every address, or on the one
/// that is configured, at the port that is configured.
pub proof fn law_where_the_gateway_listens(mode: &BindMode, port: u16, r: String)
    requires
        call_ensures(resolve_bind_addr, (mode, port), r),
    ensures
        mode is Loopback ==> r@ == "127.0.0.1:"@ + decimal(port as nat),
        mode is Lan ==> r@ == "0.0.0.0:"@ + decimal(port as nat),
        mode is Address ==> r@ == mode->Address_0@ + ":"@ + decimal(port as nat),
{
    reveal_strlit("127.0.0.1");
    reveal_strlit("0.0.0.0");
    reveal_strlit(":");
    reveal_strlit("127.0.0.1:");
    reveal_strlit("0.0.0.0:");
    assert("127.0.0.1:"@ =~= "127.0.0.1"@ + ":"@);
    assert("0.0.0.0:"@ =~= "0.0.0.0"@ + ":"@);
}

/// The gateway is ready until it shuts down.
pub proof fn law_ready(shutting_down: bool, r: u16)
    requires
        call_ensures(readiness_handler, (shutting_down,), r),
    ensures
        r == 200 <==> !shutting_down,
        r == 503 <==> shutting_down,
{
}

/// A browser's message keeps its sender, its account, its place and its flags,
/// and says its text, trimmed; agent and session are the ones that it names.
pub proof fn law_browser_message(body: WebInboundRequest, now: Timestamp, r: WebInbound)
    requires
        call_ensures(web_inbound_handler, (body, now), r),
    ensures
        r.inbound.channel.0@ == "web"@,
        byte_len(body.sender_id@) <= 255 ==> r.inbound.sender_id@ == body.sender_id@,
        byte_len(body.account_id@) <= 255 ==> r.inbound.account_id@ == body.account_id@,
        r.inbound.sender_name.deep_view() == body.sender_name.deep_view(),
        r.inbound.thread_id.deep_view() == body.thread_id.deep_view(),
        r.inbound.is_group == body.is_group,
        r.inbound.is_mention == body.is_mention,
        r.inbound.timestamp == now,
        body.message is Some && !is_blank(body.message->0@) ==> r.inbound.text is Some
            && r.inbound.text->0@ == trimmed(body.message->0@),
        (body.message is None || is_blank(body.message->0@)) ==> (r.inbound.text is Some
            <==> body.attachments@.len() > 0),
        r.agent_id is Some <==> body.agent_id is Some,
        body.agent_id is Some && byte_len(body.agent_id->0@) <= 255 ==> r.agent_id->0@
            == body.agent_id->0@,
        r.session_key is Some <==> body.session_key is Some,
        body.session_key is Some && byte_len(body.session_key->0@) <= 800 ==> r.session_key->0@
            == body.session_key->0@,
{
    lemma_cut(body.sender_id@, 255);
    lemma_cut(body.account_id@, 255);
    if body.agent_id is Some {
        lemma_cut(body.agent_id->0@, 255);
    }
    if body.session_key is Some {
        lemma_cut(body.session_key->0@, 800);
    }
    let text = r.inbound.text.deep_view();
    assert(r.inbound@.text == text);
    assert(r.inbound@.sender_id == r.inbound.sender_id@);
}

/// A browser is told that its message was taken, and in which session, or why it
/// failed.
pub proof fn law_browser_is_answered(
    key: SessionKey,
    error: FrankClawError,
    r: HttpReply,
    quiet: HttpReply,
    failed: HttpReply,
)
    requires
        call_ensures(
            web_inbound_reply,
            (Result::<Option<SessionKey>, FrankClawError>::Ok(Some(key)),),
            r,
        ),
        call_ensures(
            web_inbound_reply,
            (Result::<Option<SessionKey>, FrankClawError>::Ok(None),),
            quiet,
        ),
        call_ensures(
            web_inbound_reply,
            (Result::<Option<SessionKey>, FrankClawError>::Err(error),),
            failed,
        ),
    ensures
        r is Document && r->Document_status == 202,
        said(r->body@, "session_key"@) == Some(key@),
        said(r->body@, "status"@) == Some("accepted"@),
        quiet is Document && quiet->Document_status == 202,
        said(quiet->body@, "status"@) == Some("accepted"@),
        failed is Failure && failed->Failure_error@ == error@ && failed->fallback == 500,
{
    reveal_strlit("session_key");
    reveal_strlit("status");
    assert("session_key"@.len() == 11);
    assert("status"@.len() == 6);
}

/// A message that is sent comes last of what its recipient fetches, behind what
/// waited before; white space around the names does not count.
pub proof fn law_sent_is_fetched(
    channel: &mut WebChannel,
    msg: OutboundMessage,
    sent: SendResult,
    after: &mut WebChannel,
    account: &str,
    recipient: &str,
    r: Vec<OutboundMessage>,
)
    requires
        call_ensures(WebChannel::send, (channel, msg), sent),
        *old(after) == *final(channel),
        call_ensures(WebChannel::drain_outbound, (after, account, recipient), r),
        trimmed(account@) == trimmed(msg.account_id@),
        trimmed(recipient@) == trimmed(msg.to@),
    ensures
        r@.len() > 0,
        r@.last() == msg,
        sent is Sent,
{
    assert(queue_key(account@, recipient@) == queue_key(msg.account_id@, msg.to@));
    assert(waiting(old(after).outbound@, queue_key(account@, recipient@)).last() == msg);
}

/// What was fetched once is not fetched again, and fetching takes nothing from
/// anybody else.
pub proof fn law_fetched_once(
    channel: &mut WebChannel,
    account: &str,
    recipient: &str,
    r: Vec<OutboundMessage>,
    after: &mut WebChannel,
    account2: &str,
    recipient2: &str,
    r2: Vec<OutboundMessage>,
    straight: &mut WebChannel,
    r3: Vec<OutboundMessage>,
)
    requires
        call_ensures(WebChannel::drain_outbound, (channel, account, recipient), r),
        *old(after) == *final(channel),
        call_ensures(WebChannel::drain_outbound, (after, account2, recipient2), r2),
        *old(straight) == *old(channel),
        call_ensures(WebChannel::drain_outbound, (straight, account2, recipient2), r3),
    ensures
        trimmed(account@) == trimmed(account2@) && trimmed(recipient@) == trimmed(recipient2@)
            ==> r2@.len() == 0,
        queue_key(account@, recipient@) != queue_key(account2@, recipient2@) ==> r2@ == r3@,
{
}

/// Nothing waits on a new channel.
pub proof fn law_new_channel_is_empty(
    channel: &mut WebChannel,
    account: &str,
    recipient: &str,
    r: Vec<OutboundMessage>,
)
    requires
        call_ensures(WebChannel::new, (), *old(channel)),
        call_ensures(WebChannel::drain_outbound, (channel, account, recipient), r),
    ensures
        r@.len() == 0,
{
}

/// A browser fetches what waits for the account and the recipient that it names;
/// where it names none, for the default account and the console.
pub proof fn law_browser_fetches(
    web: &mut Option<WebChannel>,
    account: Option<&str>,
    recipient: Option<&str>,
    r: Result<Vec<OutboundMessage>, HttpReply>,
    channel: &mut WebChannel,
    the_account: &str,
    the_recipient: &str,
    drained: Vec<OutboundMessage>,
)
    requires
        call_ensures(web_outbound_handler, (web, account, recipient), r),
        (*old(web)) is Some ==> *old(channel) == (*old(web))->0,
        account is Some && !is_blank(account->0@) ==> the_account@ == account->0@,
        account is None || is_blank(account->0@) ==> the_account@ == "default"@,
        recipient is Some && !is_blank(recipient->0@) ==> the_recipient@ == recipient->0@,
        recipient is None || is_blank(recipient->0@) ==> the_recipient@ == "console-browser"@,
        call_ensures(WebChannel::drain_outbound, (channel, the_account, the_recipient), drained),
    ensures
        r is Ok <==> (*old(web)) is Some,
        r is Ok ==> r->Ok_0@ == drained@,
        r is Ok ==> (*final(web)) is Some && (*final(web))->0.outbound@ == final(channel).outbound@,
        r is Err ==> r->Err_0 is Document && r->Err_0->Document_status == 404,
{
}

/// An upload keeps the type and the name that its headers give, trimmed.
pub proof fn law_upload_is_named<'a>(
    headers: &'a Headers,
    kind_name: &str,
    file_name: &str,
    kind: Option<&str>,
    file: Option<&str>,
    r: (&'a str, &'a str),
)
    requires
        kind_name@ == "content-type"@,
        file_name@ == "x-file-name"@,
        call_ensures(Headers::get, (headers, kind_name), kind),
        call_ensures(Headers::get, (headers, file_name), file),
        call_ensures(media_upload_handler, (headers,), r),
    ensures
        kind is Some && !is_blank(kind->0@) ==> r.0@ == trimmed(kind->0@),
        kind is None || is_blank(kind->0@) ==> r.0@ == "application/octet-stream"@,
        file is Some && !is_blank(file->0@) ==> r.1@ == trimmed(file->0@),
        file is None || is_blank(file->0@) ==> r.1@ == "upload.bin"@,
{
}

/// The answer to an upload tells what was stored, and where it can be fetched:
/// a download under the identifier that it gives asks for the same file.
pub proof fn law_upload_can_be_fetched(
    media: StoredMedia,
    id: String,
    path_id: &str,
    r: HttpReply,
)
    requires
        call_ensures(MediaId::to_text, (&media.id,), id),
        path_id@ == id@,
        call_ensures(media_upload_reply, (Result::<StoredMedia, FrankClawError>::Ok(media),), r),
    ensures
        r is Document && r->Document_status == 201,
        said(r->body@, "media_id"@) == Some(id@),
        said(r->body@, "filename"@) == Some(media.original_name@),
        said(r->body@, "mime_type"@) == Some(media.mime_type@),
        whole(r->body@, "size_bytes"@) == Some(media.size_bytes as nat),
        said(r->body@, "url"@) == Some("/api/media/"@ + id@),
{
    reveal_strlit("media_id");
    reveal_strlit("filename");
    reveal_strlit("mime_type");
    reveal_strlit("size_bytes");
    reveal_strlit("url");
    assert("media_id"@.len() == 8 && "media_id"@[0] == 'm');
    assert("filename"@.len() == 8 && "filename"@[0] == 'f');
    assert("mime_type"@.len() == 9);
    assert("size_bytes"@.len() == 10);
    assert("url"@.len() == 3);
}

/// A download asks for the file that its text names; a text that names none is
/// a bad request, and a file that is not there is not found.
pub proof fn law_download_is_named(
    text: &str,
    parsed: Option<MediaId>,
    error: FrankClawError,
    r: Result<MediaId, HttpReply>,
    missing: HttpReply,
    failed: HttpReply,
)
    requires
        call_ensures(MediaId::parse, (text,), parsed),
        call_ensures(media_download_handler, (text,), r),
        call_ensures(media_download_missing, (None,), missing),
        call_ensures(media_download_missing, (Some(error),), failed),
    ensures
        parsed is Some ==> r is Ok && r->Ok_0 == parsed->0,
        parsed is None ==> r is Err && r->Err_0 is Document && r->Err_0->Document_status == 400,
        missing is Document && missing->Document_status == 404,
        failed is Failure && failed->Failure_error@ == error@ && failed->fallback == 500,
{
}

/// A subscription is confirmed with its challenge, exactly where it asks to
/// subscribe and shows the token of the channel.
pub proof fn law_subscription(
    whatsapp: Option<&WhatsAppChannel>,
    query: WhatsAppVerifyQuery,
    r: HttpReply,
)
    requires
        call_ensures(whatsapp_webhook_verify_handler, (whatsapp, query), r),
    ensures
        ({
            let asks = query.hub_mode is Some && query.hub_mode->0@ == "subscribe"@;
            let shows = query.hub_verify_token is Some && whatsapp is Some && trimmed(
                query.hub_verify_token->0@,
            ) == whatsapp->0.verify_token@;
            &&& r is Plain <==> whatsapp is Some && asks && shows
            &&& r is Plain ==> r->Plain_status == 200
            &&& r is Plain && query.hub_challenge is Some ==> r->text@ == query.hub_challenge->0@
            &&& r is Plain && query.hub_challenge is None ==> r->text@.len() == 0
            &&& whatsapp is None ==> r is Empty && r->Empty_status == 404
            &&& whatsapp is Some && !asks ==> r is Empty && r->Empty_status == 400
            &&& whatsapp is Some && asks && !shows ==> r is Empty && r->Empty_status == 401
        }),
{
}

/// A WhatsApp body is read only where there is a channel, the body is no longer
/// than the limit, and the channel takes its signature.
pub proof fn law_whatsapp_gate(
    channel: &WhatsAppChannel,
    config: &FrankClawConfig,
    headers: &Headers,
    body: &[u8],
    name: &str,
    signature: Option<&str>,
    signed: Result<(), FrankClawError>,
    r: Option<HttpReply>,
    without: Option<HttpReply>,
)
    requires
        name@ == "x-hub-signature-256"@,
        call_ensures(Headers::get, (headers, name), signature),
        call_ensures(WhatsAppChannel::verify_signature, (channel, body, signature), signed),
        call_ensures(whatsapp_webhook_gate, (Some(channel), config, headers, body), r),
        call_ensures(whatsapp_webhook_gate, (None, config, headers, body), without),
    ensures
        r is None <==> body@.len() <= config.security.max_webhook_body_bytes && signed is Ok,
        body@.len() > config.security.max_webhook_body_bytes ==> r->0 is Document
            && r->0->Document_status == 413,
        body@.len() <= config.security.max_webhook_body_bytes && signed is Err ==> r->0 is Failure
            && r->0->Failure_error@ == signed->Err_0@ && r->0->fallback == 401,
        without is Some && without->0 is Document && without->0->Document_status == 404,
{
}

/// The messages of a WhatsApp body are handed on, all and in order; a body
/// without any is ignored.
pub proof fn law_whatsapp_messages_are_handed_on(
    payload: JsonValue,
    now: Timestamp,
    inside: Vec<InboundMessage>,
    r: WhatsAppStep,
)
    requires
        call_ensures(parse_webhook_payload, (&payload, now), inside),
        call_ensures(
            whatsapp_webhook_payload,
            (Result::<JsonValue, String>::Ok(payload), now),
            r,
        ),
    ensures
        inside@.len() > 0 ==> r is Messages && r->Messages_0.deep_view() == inside.deep_view(),
        inside@.len() == 0 ==> r is Reply && r->Reply_0 is Document && r->Reply_0->Document_status
            == 202 && said(r->Reply_0->body@, "status"@) == Some("ignored"@),
{
    assert(inside.deep_view().len() == inside@.len());
}

/// A pairing that was approved is shown, and one that was not is a bad request
/// with its complaint.
pub proof fn law_pairing_is_answered(
    approved: JsonValue,
    complaint: String,
    r: HttpReply,
    bad: HttpReply,
)
    requires
        call_ensures(pairing_approve_handler, (Result::<JsonValue, String>::Ok(approved),), r),
        call_ensures(pairing_approve_handler, (Result::<JsonValue, String>::Err(complaint),), bad),
    ensures
        r is Document && r->Document_status == 200,
        inner(r->body@, "approved"@) == Some(approved@),
        bad is Document && bad->Document_status == 400,
        said(bad->body@, "error"@) == Some(complaint@),
{
}

/// The files of a browser's message are those that name a stored file: one more
/// comes behind the others where it names one, and is left out where it does
/// not.
pub proof fn law_browser_files(
    front: WebInboundRequest,
    all: WebInboundRequest,
    now: Timestamp,
    id_text: &str,
    id: Option<MediaId>,
    r_front: WebInbound,
    r_all: WebInbound,
)
    requires
        call_ensures(web_inbound_handler, (front, now), r_front),
        call_ensures(web_inbound_handler, (all, now), r_all),
        all.attachments@.len() == front.attachments@.len() + 1,
        all.attachments@.drop_last() == front.attachments@,
        id_text@ == all.attachments@.last().media_id@,
        call_ensures(MediaId::parse, (id_text,), id),
    ensures
        front.attachments@.len() == 0 ==> r_front.inbound.attachments@.len() == 0,
        ({
            let less = r_front.inbound.attachments.deep_view();
            let more = r_all.inbound.attachments.deep_view();
            let file = all.attachments@.last();
            &&& id is None ==> more == less
            &&& id is Some ==> more.len() == less.len() + 1 && more.drop_last() == less
            &&& id is Some ==> more.last().media_id == id && more.last().mime_type
                == file.mime_type@ && more.last().filename == file.filename.deep_view()
                && more.last().size_bytes == file.size_bytes && more.last().url == Some(
                "/api/media/"@ + file.media_id@,
            )
        }),
{
    let less = r_front.inbound.attachments.deep_view();
    let more = r_all.inbound.attachments.deep_view();
    assert(r_front.inbound@.attachments == less);
    assert(r_all.inbound@.attachments == more);
    if front.attachments@.len() == 0 {
        assert(less.len() == r_front.inbound.attachments@.len());
    }
    if id is Some {
        assert(more.drop_last() =~= less);
    }
}

/// A WhatsApp request that is stopped is answered why; any other one becomes
/// what its body becomes.
pub proof fn law_whatsapp_request(
    whatsapp: Option<&WhatsAppChannel>,
    config: &FrankClawConfig,
    headers: &Headers,
    body: &[u8],
    now: Timestamp,
    stopped: Option<HttpReply>,
    parsed: Result<JsonValue, String>,
    inside: WhatsAppStep,
    r: WhatsAppStep,
    done: HttpReply,
    error: FrankClawError,
    failed: HttpReply,
)
    requires
        call_ensures(whatsapp_webhook_gate, (whatsapp, config, headers, body), stopped),
        parsed_view(parsed) == json_in(body@),
        call_ensures(whatsapp_webhook_payload, (parsed, now), inside),
        call_ensures(
            whatsapp_webhook_inbound_handler,
            (whatsapp, config, headers, body, now),
            r,
        ),
        call_ensures(whatsapp_webhook_done, (Result::<(), FrankClawError>::Ok(()),), done),
        call_ensures(whatsapp_webhook_done, (Result::<(), FrankClawError>::Err(error),), failed),
    ensures
        stopped is Some ==> r is Reply && r->Reply_0@ == stopped->0@,
        stopped is None ==> (r is Messages <==> inside is Messages),
        stopped is None && r is Messages ==> r->Messages_0.deep_view()
            == inside->Messages_0.deep_view(),
        stopped is None && r is Reply ==> r->Reply_0@ == inside->Reply_0@,
        done is Document && done->Document_status == 202,
        failed is Failure && failed->Failure_error@ == error@ && failed->fallback == 500,
{
}

/// A file that is downloaded is named as it is stored.
pub proof fn law_download_name(filename: &str, r: String)
    requires
        call_ensures(content_disposition, (filename,), r),
    ensures
        stands_in("\""@ + filename@ + "\""@, r@),
{
    let none = Seq::<char>::empty();
    reveal_strlit("inline; filename=\"");
    reveal_strlit("\"");
    let head = "inline; filename=\""@;
    let n = head.len() - 1;
    assert(head =~= head.take(n) + "\""@);
    assert(r@ =~= (head.take(n) + ("\""@ + filename@ + "\""@)) + none);
}

/// A message that is sent comes behind all that its recipient would have fetched
/// before, and changes nothing for anybody else.
pub proof fn law_queues_keep_their_order(
    channel: &mut WebChannel,
    msg: OutboundMessage,
    sent: SendResult,
    before: &mut WebChannel,
    after: &mut WebChannel,
    account: &str,
    recipient: &str,
    r_before: Vec<OutboundMessage>,
    r_after: Vec<OutboundMessage>,
)
    requires
        call_ensures(WebChannel::send, (channel, msg), sent),
        *old(before) == *old(channel),
        call_ensures(WebChannel::drain_outbound, (before, account, recipient), r_before),
        *old(after) == *final(channel),
        call_ensures(WebChannel::drain_outbound, (after, account, recipient), r_after),
    ensures
        trimmed(account@) == trimmed(msg.account_id@) && trimmed(recipient@) == trimmed(msg.to@)
            ==> r_after@ == r_before@.push(msg),
        queue_key(account@, recipient@) != queue_key(msg.account_id@, msg.to@) ==> r_after@
            == r_before@,
{
    let key = queue_key(account@, recipient@);
    assert(waiting(old(after).outbound@, key) == r_after@);
    assert(waiting(old(before).outbound@, key) == r_before@);
}

proof fn lemma_queues_differ(a: Seq<char>, b: Seq<char>, c: Seq<char>, d: Seq<char>)
    requires
        !trimmed(a).contains(':'),
        !trimmed(c).contains(':'),
        queue_key(a, b) == queue_key(c, d),
    ensures
        trimmed(a) == trimmed(c),
        trimmed(b) == trimmed(d),
{
    reveal_strlit(":");
    let x = trimmed(a);
    let y = trimmed(c);
    let s = queue_key(a, b);
    assert(s[x.len() as int] == ':');
    assert(queue_key(c, d)[y.len() as int] == ':');
    if x.len() < y.len() {
        assert(s[x.len() as int] == y[x.len() as int]);
        assert(y.contains(':'));
    }
    if y.len() < x.len() {
        assert(s[y.len() as int] == x[y.len() as int]);
        assert(x.contains(':'));
    }
    assert(s.take(x.len() as int) =~= x);
    assert(s.take(x.len() as int) =~= y);
    assert(s.skip(x.len() as int + 1) =~= trimmed(b));
    assert(s.skip(x.len() as int + 1) =~= trimmed(d));
}

/// What is sent to one recipient, and what one recipient fetches, is nobody
/// else's: another recipient, or the same one by another account, fetches what
/// would have been fetched anyway.
pub proof fn law_queues_are_private(
    channel: &mut WebChannel,
    msg: OutboundMessage,
    sent: SendResult,
    fetching: &mut WebChannel,
    own_account: &str,
    own_recipient: &str,
    fetched: Vec<OutboundMessage>,
    before: &mut WebChannel,
    after: &mut WebChannel,
    account: &str,
    recipient: &str,
    r_before: Vec<OutboundMessage>,
    r_after: Vec<OutboundMessage>,
)
    requires
        !trimmed(account@).contains(':'),
        !trimmed(own_account@).contains(':'),
        trimmed(account@) != trimmed(own_account@) || trimmed(recipient@) != trimmed(
            own_recipient@,
        ),
        msg.account_id@ == own_account@,
        msg.to@ == own_recipient@,
        call_ensures(WebChannel::send, (channel, msg), sent),
        *old(fetching) == *final(channel),
        call_ensures(
            WebChannel::drain_outbound,
            (fetching, own_account, own_recipient),
            fetched,
        ),
        *old(before) == *old(channel),
        call_ensures(WebChannel::drain_outbound, (before, account, recipient), r_before),
        *old(after) == *final(fetching),
        call_ensures(WebChannel::drain_outbound, (after, account, recipient), r_after),
    ensures
        r_after@ == r_before@,
{
    let own = queue_key(own_account@, own_recipient@);
    let key = queue_key(account@, recipient@);
    if own == key {
        lemma_queues_differ(own_account@, own_recipient@, account@, recipient@);
    }
    assert(waiting(final(channel).outbound@, key) == waiting(old(channel).outbound@, key));
    assert(waiting(final(fetching).outbound@, key) == waiting(final(channel).outbound@, key));
}

} // verus!
