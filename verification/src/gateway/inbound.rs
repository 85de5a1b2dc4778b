//! What becomes of a message that a channel received: who may speak to the
//! agent, the turn that follows, and how the answer gets back.

use crate::config::{
    channel_index, default_policy, policy_of, policy_problem, ChannelDmPolicy,
    ChannelSecurityPolicy, FrankClawConfig, PolicyView,
};
use crate::error::{invalid_request, ErrorView, FrankClawError};
use crate::gateway::chat::ChatRequest;
use crate::gateway::delivery::{
    ChunkRecordView, DeliveryChunkRecord, DeliveryRecord, ReplyChunkView, ReplyView,
    StoredReplyChunk, StoredReplyMetadata,
};
use crate::gateway::protocol::{EventFrame, EventType};
use crate::json::{JsonObject, JsonView};
use crate::message::{
    clone_inbound_attachments, clone_text, ChannelCapabilities, EditMessageTarget, InboundMessage,
    InboundView, OutboundMessage, OutboundView,
};
use crate::text::{byte_len, bytes_len, cat2, cat3, decimal, decimal_of, is_blank, str_eq, trimmed};
use crate::types::{AgentId, SessionKey, Timestamp};
use vstd::prelude::*;
use vstd::string::*;

verus! {

/// The policy of the channel `id`, or the rule that its settings break. A
/// channel that is not configured takes no direct messages.
pub open spec fn policy_for(config: FrankClawConfig, id: Seq<char>) -> Result<
    PolicyView,
    ErrorView,
> {
    let i = channel_index(config.channels@, id);
    if i < config.channels@.len() {
        let extra = config.channels@[i].1.extra@;
        match policy_problem(extra) {
            Some(e) => Err(e),
            None => Ok(policy_of(extra)),
        }
    } else {
        Ok(PolicyView { dm_policy: ChannelDmPolicy::Disabled, ..default_policy() })
    }
}

fn find_policy(config: &FrankClawConfig, inbound: &InboundMessage) -> (r: Result<
    ChannelSecurityPolicy,
    FrankClawError,
>)
    ensures
        match policy_for(*config, inbound.channel@) {
            Ok(policy) => r is Ok && r->Ok_0@ == policy,
            Err(e) => r is Err && r->Err_0@ == e,
        },
{
    proof {
        crate::config::lemma_channel_index(config.channels@, inbound.channel@);
    }
    match config.channel(&inbound.channel) {
        Some(channel) => channel.security_policy(),
        None => {
            let base = ChannelSecurityPolicy::default();
            Ok(
                ChannelSecurityPolicy {
                    dm_policy: ChannelDmPolicy::Disabled,
                    allow_from: base.allow_from,
                    allowed_groups: base.allowed_groups,
                    require_mention_for_groups: base.require_mention_for_groups,
                    max_message_bytes: base.max_message_bytes,
                },
            )
        },
    }
}

/// True when a list names the text, or everything.
pub open spec fn lists(entries: Seq<Seq<char>>, text: Seq<char>) -> bool {
    entries.contains("*"@) || entries.contains(text)
}

fn list_has(entries: &Vec<String>, text: &str) -> (r: bool)
    ensures
        r == entries.deep_view().contains(text@),
{
    let mut i: usize = 0;
    while i < entries.len()
        invariant
            i <= entries@.len(),
            forall|k: int| 0 <= k < i ==> entries.deep_view()[k] != text@,
        decreases entries@.len() - i,
    {
        if str_eq(entries[i].as_str(), text) {
            assert(entries.deep_view()[i as int] == text@);
            return true;
        }
        i = i + 1;
    }
    false
}

/// True when the policy names the sender, or the sender was approved.
pub open spec fn sender_ok(policy: PolicyView, sender: Seq<char>, approved: bool) -> bool {
    lists(policy.allow_from, sender) || approved
}

/// True when the policy names the sender, or the sender was approved.
pub fn sender_allowed(
    policy: &ChannelSecurityPolicy,
    approved: bool,
    inbound: &InboundMessage,
) -> (r: bool)
    ensures
        r == sender_ok(policy@, inbound.sender_id@, approved),
{
    list_has(&policy.allow_from, "*") || list_has(&policy.allow_from, inbound.sender_id.as_str())
        || approved
}

/// True when the policy lets the group of a message through.
pub open spec fn group_ok(policy: PolicyView, thread_id: Option<Seq<char>>) -> bool {
    match policy.allowed_groups {
        Some(groups) => groups.contains("*"@) || thread_id is Some && groups.contains(
            thread_id->0,
        ),
        None => true,
    }
}

/// True when the policy lets the group of a message through.
pub fn group_allowed(policy: &ChannelSecurityPolicy, inbound: &InboundMessage) -> (r: bool)
    ensures
        r == group_ok(policy@, inbound@.thread_id),
{
    match &policy.allowed_groups {
        Some(groups) => {
            if list_has(groups, "*") {
                return true;
            }
            match &inbound.thread_id {
                Some(thread_id) => list_has(groups, thread_id.as_str()),
                None => false,
            }
        },
        None => true,
    }
}

/// What is to be done with a message.
#[derive(Debug)]
pub enum Admission {
    /// Nothing.
    Ignored,
    /// The sender has to be paired first.
    PairingRequired,
    /// The agent gets the text.
    Accepted { text: String },
}

/// What an admission says.
pub enum AdmissionView {
    Ignored,
    PairingRequired,
    Accepted(Seq<char>),
}

impl View for Admission {
    type V = AdmissionView;

    open spec fn view(&self) -> AdmissionView {
        match self {
            Admission::Ignored => AdmissionView::Ignored,
            Admission::PairingRequired => AdmissionView::PairingRequired,
            Admission::Accepted { text } => AdmissionView::Accepted(text@),
        }
    }
}

/// The longest message that a policy takes, in bytes.
pub open spec fn message_limit(policy: PolicyView, max_webhook_body_bytes: usize) -> usize {
    match policy.max_message_bytes {
        Some(n) => if n < max_webhook_body_bytes {
            n
        } else {
            max_webhook_body_bytes
        },
        None => max_webhook_body_bytes,
    }
}

/// What is to be done with a message under a policy, or why it is turned down.
pub open spec fn admission(
    policy: PolicyView,
    max_webhook_body_bytes: usize,
    inbound: InboundView,
    approved: bool,
) -> Result<AdmissionView, ErrorView> {
    let limit = message_limit(policy, max_webhook_body_bytes);
    if inbound.text is None || is_blank(inbound.text->0) {
        Err(ErrorView::InvalidRequest("inbound message text is required"@))
    } else if byte_len(trimmed(inbound.text->0)) > limit {
        Err(ErrorView::RequestTooLarge(limit as nat))
    } else if inbound.is_group {
        if policy.require_mention_for_groups && !inbound.is_mention {
            Ok(AdmissionView::Ignored)
        } else if !group_ok(policy, inbound.thread_id) {
            Ok(AdmissionView::Ignored)
        } else {
            Ok(AdmissionView::Accepted(trimmed(inbound.text->0)))
        }
    } else {
        match policy.dm_policy {
            ChannelDmPolicy::Disabled => Ok(AdmissionView::Ignored),
            ChannelDmPolicy::Open => Ok(AdmissionView::Accepted(trimmed(inbound.text->0))),
            ChannelDmPolicy::Allowlist => if sender_ok(policy, inbound.sender_id, approved) {
                Ok(AdmissionView::Accepted(trimmed(inbound.text->0)))
            } else {
                Ok(AdmissionView::Ignored)
            },
            ChannelDmPolicy::Pairing => if sender_ok(policy, inbound.sender_id, approved) {
                Ok(AdmissionView::Accepted(trimmed(inbound.text->0)))
            } else {
                Ok(AdmissionView::PairingRequired)
            },
        }
    }
}

/// Decides what is to be done with a message. `approved` tells whether the
/// sender was paired with the channel.
pub fn admit_message(
    config: &FrankClawConfig,
    inbound: &InboundMessage,
    approved: bool,
) -> (r: Result<Admission, FrankClawError>)
    ensures
        match policy_for(*config, inbound.channel@) {
            Err(e) => r is Err && r->Err_0@ == e,
            Ok(policy) => match admission(
                policy,
                config.security.max_webhook_body_bytes,
                inbound@,
                approved,
            ) {
                Ok(a) => r is Ok && r->Ok_0@ == a,
                Err(e) => r is Err && r->Err_0@ == e,
            },
        },
{
    let policy = match find_policy(config, inbound) {
        Ok(policy) => policy,
        Err(e) => {
            return Err(e);
        },
    };
    let text = match &inbound.text {
        Some(text) => text.as_str().trim(),
        None => {
            return Err(invalid_request("inbound message text is required"));
        },
    };
    if text.is_empty() {
        return Err(invalid_request("inbound message text is required"));
    }
    let cap: usize = config.security.max_webhook_body_bytes;
    let max_bytes: usize = match policy.max_message_bytes {
        Some(n) => if n < cap {
            n
        } else {
            cap
        },
        None => cap,
    };
    if bytes_len(text) > max_bytes {
        return Err(FrankClawError::RequestTooLarge { max_bytes });
    }
    if inbound.is_group {
        if policy.require_mention_for_groups && !inbound.is_mention {
            return Ok(Admission::Ignored);
        }
        if !group_allowed(&policy, inbound) {
            return Ok(Admission::Ignored);
        }
    } else {
        match policy.dm_policy {
            ChannelDmPolicy::Disabled => {
                return Ok(Admission::Ignored);
            },
            ChannelDmPolicy::Open => {},
            ChannelDmPolicy::Allowlist => {
                if !sender_allowed(&policy, approved, inbound) {
                    return Ok(Admission::Ignored);
                }
            },
            ChannelDmPolicy::Pairing => {
                if !sender_allowed(&policy, approved, inbound) {
                    return Ok(Admission::PairingRequired);
                }
            },
        }
    }
    Ok(Admission::Accepted { text: text.to_owned() })
}

/// A message reaches the agent only where its policy lets it: in a group that
/// is allowed, with a mention where one is required; or directly, on an open
/// channel or from a sender who is named or approved. It is never longer than
/// the limit.
pub proof fn law_accepted_is_permitted(
    policy: PolicyView,
    max_webhook_body_bytes: usize,
    inbound: InboundView,
    approved: bool,
)
    requires
        admission(policy, max_webhook_body_bytes, inbound, approved) is Ok,
        admission(policy, max_webhook_body_bytes, inbound, approved)->Ok_0 is Accepted,
    ensures
        inbound.is_group ==> group_ok(policy, inbound.thread_id) && (
        policy.require_mention_for_groups ==> inbound.is_mention),
        !inbound.is_group ==> policy.dm_policy == ChannelDmPolicy::Open || sender_ok(
            policy,
            inbound.sender_id,
            approved,
        ),
        !inbound.is_group ==> policy.dm_policy != ChannelDmPolicy::Disabled,
        byte_len(admission(policy, max_webhook_body_bytes, inbound, approved)->Ok_0->Accepted_0)
            <= max_webhook_body_bytes,
{
}

/// Messages on a channel that is not configured never reach the agent, unless
/// they come from a group and mention the bot.
pub proof fn law_unknown_channel_is_closed(
    config: FrankClawConfig,
    inbound: InboundView,
    approved: bool,
)
    requires
        channel_index(config.channels@, inbound.channel) >= config.channels@.len(),
        !inbound.is_group || !inbound.is_mention,
    ensures
        policy_for(config, inbound.channel) is Ok,
        ({
            let a = admission(
                policy_for(config, inbound.channel)->Ok_0,
                config.security.max_webhook_body_bytes,
                inbound,
                approved,
            );
            a is Err || a->Ok_0 is Ignored
        }),
{
}

/// A message back to the sender of a message, in the same thread, as an answer
/// to it.
pub open spec fn reply_view(inbound: InboundView, text: Seq<char>) -> OutboundView {
    OutboundView {
        channel: inbound.channel,
        account_id: inbound.account_id,
        to: inbound.sender_id,
        thread_id: inbound.thread_id,
        text,
        attachments: Seq::empty(),
        reply_to: inbound.platform_message_id,
    }
}

/// A message back to the sender of a message.
pub fn reply_to_sender(inbound: &InboundMessage, text: &str) -> (r: OutboundMessage)
    ensures
        r@ == reply_view(inbound@, text@),
{
    let r = OutboundMessage {
        channel: inbound.channel.clone(),
        account_id: inbound.account_id.clone(),
        to: inbound.sender_id.clone(),
        thread_id: clone_text(&inbound.thread_id),
        text: text.to_owned(),
        attachments: Vec::new(),
        reply_to: clone_text(&inbound.platform_message_id),
    };
    assert(r@.attachments =~= Seq::empty());
    r
}

/// The message that tells a sender how to be paired.
pub fn pairing_reply(inbound: &InboundMessage, code: &str) -> (r: OutboundMessage)
    ensures
        r@ == reply_view(
            inbound@,
            "Pairing required. Approve with: frankclaw pairing approve "@ + inbound.channel@
                + " "@ + code@,
        ),
{
    let text = cat2(
        cat3(
            "Pairing required. Approve with: frankclaw pairing approve ",
            inbound.channel.as_str(),
            " ",
        ).as_str(),
        code,
    );
    reply_to_sender(inbound, text.as_str())
}

/// What the sender of a message is told when it could not be processed.
pub open spec fn error_text(err: ErrorView) -> Seq<char> {
    match err {
        ErrorView::RequestTooLarge(_) =>
            "Your message is too long. Please shorten it and try again."@,
        ErrorView::RateLimited(secs) => "Too many requests. Please wait "@ + decimal(secs)
            + " seconds and try again."@,
        _ => "Sorry, I encountered an error processing your message. Please try again later."@,
    }
}

/// The message that tells a sender that a message could not be processed.
pub fn send_error_reply(inbound: &InboundMessage, err: &FrankClawError) -> (r: OutboundMessage)
    ensures
        r@ == reply_view(inbound@, error_text(err@)),
{
    match err {
        FrankClawError::RequestTooLarge { .. } => reply_to_sender(
            inbound,
            "Your message is too long. Please shorten it and try again.",
        ),
        FrankClawError::RateLimited { retry_after_secs } => reply_to_sender(
            inbound,
            cat3(
                "Too many requests. Please wait ",
                decimal_of(*retry_after_secs).as_str(),
                " seconds and try again.",
            ).as_str(),
        ),
        _ => reply_to_sender(
            inbound,
            "Sorry, I encountered an error processing your message. Please try again later.",
        ),
    }
}

/// What the sender of a message is told once it was processed, where there is a
/// channel to tell it on: nothing, or that it failed.
pub fn process_inbound_message(
    inbound: &InboundMessage,
    has_channel: bool,
    outcome: &Result<(), FrankClawError>,
) -> (r: Option<OutboundMessage>)
    ensures
        r is Some == (has_channel && *outcome is Err),
        r is Some ==> r->0@ == reply_view(inbound@, error_text(outcome->Err_0@)),
{
    match outcome {
        Err(err) => if has_channel {
            Some(send_error_reply(inbound, err))
        } else {
            None
        },
        Ok(_) => None,
    }
}

/// What to do with a message.
#[derive(Debug)]
pub enum InboundStep {
    /// Nothing.
    Ignore,
    /// Have the sender paired first.
    Pair,
    /// Take this turn.
    Turn(ChatRequest),
}

/// True when a turn is the one that an accepted text of a message asks for.
pub open spec fn turn_of(
    turn: ChatRequest,
    inbound: InboundMessage,
    text: Seq<char>,
    agent_id: Option<AgentId>,
    session_key: SessionKey,
    channel_capabilities: Option<ChannelCapabilities>,
) -> bool {
    &&& turn.agent_id == agent_id
    &&& turn.session_key == Some(session_key)
    &&& turn.message@ == text
    &&& turn.attachments.deep_view() == inbound@.attachments
    &&& turn.model_id is None
    &&& turn.max_tokens is None
    &&& turn.temperature is None
    &&& turn.thinking_budget is None
    &&& turn.channel_id == Some(inbound.channel)
    &&& turn.channel_capabilities == channel_capabilities
}

/// What to do with a message for an agent and a session: the turn that it asks
/// for, where it is accepted. `approved` tells whether the sender was paired
/// with the channel.
pub fn process_inbound_message_with_target(
    config: &FrankClawConfig,
    inbound: &InboundMessage,
    approved: bool,
    agent_id: Option<AgentId>,
    session_key: SessionKey,
    channel_capabilities: Option<ChannelCapabilities>,
) -> (r: Result<InboundStep, FrankClawError>)
    ensures
        match policy_for(*config, inbound.channel@) {
            Err(e) => r is Err && r->Err_0@ == e,
            Ok(policy) => match admission(
                policy,
                config.security.max_webhook_body_bytes,
                inbound@,
                approved,
            ) {
                Err(e) => r is Err && r->Err_0@ == e,
                Ok(AdmissionView::Ignored) => r is Ok && r->Ok_0 is Ignore,
                Ok(AdmissionView::PairingRequired) => r is Ok && r->Ok_0 is Pair,
                Ok(AdmissionView::Accepted(text)) => r is Ok && r->Ok_0 is Turn && turn_of(
                    r->Ok_0->Turn_0,
                    *inbound,
                    text,
                    agent_id,
                    session_key,
                    channel_capabilities,
                ),
            },
        },
{
    let text = match admit_message(config, inbound, approved) {
        Ok(Admission::Ignored) => {
            return Ok(InboundStep::Ignore);
        },
        Ok(Admission::PairingRequired) => {
            return Ok(InboundStep::Pair);
        },
        Ok(Admission::Accepted { text }) => text,
        Err(err) => {
            return Err(err);
        },
    };
    Ok(
        InboundStep::Turn(
            ChatRequest {
                agent_id,
                session_key: Some(session_key),
                message: text,
                attachments: clone_inbound_attachments(&inbound.attachments),
                model_id: None,
                max_tokens: None,
                temperature: None,
                thinking_budget: None,
                channel_id: Some(inbound.channel.clone()),
                channel_capabilities,
            },
        ),
    )
}

/// The shortest time between two edits of a draft, in milliseconds.
pub const EDIT_INTERVAL_MS: u64 = 1500;

/// An answer that grows in a message which is edited in place. Times are
/// milliseconds on one monotonic clock.
#[derive(Debug)]
pub struct Draft {
    pub message_id: Option<String>,
    pub accumulated: String,
    pub last_edit: u64,
}

/// The text that a draft starts with.
pub fn draft_message(inbound: &InboundMessage) -> (r: OutboundMessage)
    ensures
        r@ == reply_view(inbound@, "..."@),
{
    reply_to_sender(inbound, "...")
}

impl Draft {
    /// A draft that was just sent, under the identifier that it got.
    pub fn new(message_id: Option<String>, now: u64) -> (r: Draft)
        ensures
            r.message_id == message_id,
            r.accumulated@ == Seq::<char>::empty(),
            r.last_edit == now,
    {
        Draft { message_id, accumulated: String::new(), last_edit: now }
    }

    /// Adds a piece of the answer. The result is the message that is now to be
    /// edited to all that was accumulated: when the draft was sent, and long
    /// enough after the last edit was done.
    pub fn on_text(&mut self, text: &str, now: u64) -> (r: Option<EditMessageTarget>)
        ensures
            final(self).accumulated@ == old(self).accumulated@ + text@,
            final(self).message_id == old(self).message_id,
            final(self).last_edit == old(self).last_edit,
            r is Some == (old(self).message_id is Some && now - old(self).last_edit
                >= EDIT_INTERVAL_MS),
            r is Some ==> r->0.account_id@.len() == 0 && r->0.to@.len() == 0
                && r->0.thread_id is None && r->0.platform_message_id == old(self).message_id->0,
    {
        self.accumulated.append(text);
        if now >= self.last_edit && now - self.last_edit >= EDIT_INTERVAL_MS {
            if let Some(id) = &self.message_id {
                return Some(
                    EditMessageTarget {
                        account_id: String::new(),
                        to: String::new(),
                        thread_id: None,
                        platform_message_id: id.clone(),
                    },
                );
            }
        }
        None
    }

    /// Notes that an edit, whether it went through or not, was done at `now`.
    pub fn edited(&mut self, now: u64)
        ensures
            final(self).last_edit == now,
            final(self).accumulated == old(self).accumulated,
            final(self).message_id == old(self).message_id,
    {
        self.last_edit = now;
    }
}

/// How an answer gets back to the sender.
#[derive(Debug)]
pub enum FinalStep {
    /// The draft is edited one last time.
    EditDraft(EditMessageTarget),
    /// The answer is sent.
    Deliver(OutboundMessage),
    /// There is no way to bring it back.
    Nothing,
}

/// How an answer gets back to the sender: by the draft, where the channel can
/// edit messages; else as a message, where there is a channel at all.
pub fn final_step(
    inbound: &InboundMessage,
    has_channel: bool,
    supports_edit: bool,
    draft_id: Option<String>,
    content: &str,
) -> (r: FinalStep)
    ensures
        if has_channel && supports_edit {
            match draft_id {
                Some(id) => r matches FinalStep::EditDraft(target) && target.account_id
                    == inbound.account_id && target.to == inbound.sender_id && target.thread_id
                    == inbound.thread_id && target.platform_message_id == id,
                None => r is Nothing,
            }
        } else if has_channel {
            r matches FinalStep::Deliver(message) && message@ == reply_view(inbound@, content@)
        } else {
            r is Nothing
        },
{
    if !has_channel {
        return FinalStep::Nothing;
    }
    if supports_edit {
        match draft_id {
            Some(id) => FinalStep::EditDraft(
                EditMessageTarget {
                    account_id: inbound.account_id.clone(),
                    to: inbound.sender_id.clone(),
                    thread_id: clone_text(&inbound.thread_id),
                    platform_message_id: id,
                },
            ),
            None => FinalStep::Nothing,
        }
    } else {
        FinalStep::Deliver(reply_to_sender(inbound, content))
    }
}

/// The event that tells that a message was answered.
pub fn chat_complete(inbound: &InboundMessage, session_key: &SessionKey, content: &str) -> (r:
    EventFrame)
    ensures
        r.event == EventType::ChatComplete,
        r.payload@ == JsonView::Object(
            map![
                "channel"@ => JsonView::Text(inbound.channel@),
                "account_id"@ => JsonView::Text(inbound.account_id@),
                "session_key"@ => JsonView::Text(session_key@),
                "content"@ => JsonView::Text(content@),
            ],
        ),
{
    let mut o = JsonObject::new();
    o.put_text("channel", inbound.channel.as_str());
    o.put_text("account_id", inbound.account_id.as_str());
    o.put_text("session_key", session_key.as_str());
    o.put_text("content", content);
    EventFrame { event: EventType::ChatComplete, payload: o.finish() }
}

/// A piece of a delivery as it is kept with the session.
pub open spec fn stored_chunk(c: ChunkRecordView) -> ReplyChunkView {
    ReplyChunkView {
        content: c.text,
        platform_message_id: c.platform_message_id,
        status: c.status.text(),
        attempts: c.attempts,
        retry_after_secs: c.retry_after_secs,
        error: c.error,
    }
}

/// A delivery as it is kept with the session.
pub open spec fn stored_reply(
    inbound: InboundView,
    content: Seq<char>,
    delivery: DeliveryRecord,
    now: Timestamp,
) -> ReplyView {
    let chunks = delivery.chunks.deep_view();
    ReplyView {
        channel: inbound.channel,
        account_id: inbound.account_id,
        recipient_id: inbound.sender_id,
        thread_id: inbound.thread_id,
        reply_to: inbound.platform_message_id,
        content,
        platform_message_id: delivery.platform_message_id.deep_view(),
        status: delivery.status.text(),
        attempts: delivery.attempts as nat,
        retry_after_secs: delivery.retry_after_secs,
        error: delivery.error.deep_view(),
        chunks: Seq::new(chunks.len(), |i: int| stored_chunk(chunks[i])),
        recorded_at: now,
    }
}

fn store_chunk(c: &DeliveryChunkRecord) -> (r: StoredReplyChunk)
    ensures
        r@ == stored_chunk(c@),
{
    StoredReplyChunk {
        content: c.text.clone(),
        platform_message_id: clone_text(&c.platform_message_id),
        status: c.status.as_str().to_owned(),
        attempts: c.attempts,
        retry_after_secs: c.retry_after_secs,
        error: clone_text(&c.error),
    }
}

/// A delivery as it is kept with the session.
pub fn persist_delivery_metadata(
    inbound: &InboundMessage,
    content: &str,
    delivery: &DeliveryRecord,
    now: Timestamp,
) -> (r: StoredReplyMetadata)
    ensures
        r@ == stored_reply(inbound@, content@, *delivery, now),
{
    let mut chunks: Vec<StoredReplyChunk> = Vec::new();
    let mut i: usize = 0;
    while i < delivery.chunks.len()
        invariant
            i <= delivery.chunks@.len(),
            chunks@.len() == i,
            forall|k: int|
                0 <= k < i ==> (#[trigger] chunks@[k])@ == stored_chunk(delivery.chunks@[k]@),
        decreases delivery.chunks@.len() - i,
    {
        chunks.push(store_chunk(&delivery.chunks[i]));
        i = i + 1;
    }
    let r = StoredReplyMetadata {
        channel: inbound.channel.as_str().to_owned(),
        account_id: inbound.account_id.clone(),
        recipient_id: inbound.sender_id.clone(),
        thread_id: clone_text(&inbound.thread_id),
        reply_to: clone_text(&inbound.platform_message_id),
        content: content.to_owned(),
        platform_message_id: clone_text(&delivery.platform_message_id),
        status: delivery.status.as_str().to_owned(),
        attempts: delivery.attempts,
        retry_after_secs: delivery.retry_after_secs,
        error: clone_text(&delivery.error),
        chunks,
        recorded_at: now,
    };
    assert(r@.chunks =~= stored_reply(inbound@, content@, *delivery, now).chunks);
    r
}

} // verus!
