//! Messages that come in: who is heard, what the agent gets to read, and where
//! the answer goes.

use crate::config::{ChannelConfig, ChannelDmPolicy, ChannelSecurityPolicy, FrankClawConfig};
use crate::error::FrankClawError;
use crate::gateway::delivery::{DeliveryRecord, StoredReplyMetadata};
use crate::gateway::inbound::{
    admit_message, chat_complete, draft_message, final_step, group_allowed, pairing_reply,
    persist_delivery_metadata, process_inbound_message, process_inbound_message_with_target,
    reply_to_sender, send_error_reply, sender_allowed, Admission, Draft, FinalStep, InboundStep,
};
use crate::gateway::protocol::{EventFrame, EventType};
use crate::json::JsonView;
use crate::laws::terms::{flag, inner, listed, names, said, stands_in, whole};
use crate::message::{ChannelCapabilities, EditMessageTarget, InboundMessage, OutboundMessage};
use crate::text::{byte_len, decimal, trimmed};
use crate::types::{AgentId, SessionKey, Timestamp};
use vstd::prelude::*;
use vstd::string::*;

verus! {

/// True when the configuration of the channel that a message came on is the
/// `i`-th: the first one under its name.
pub open spec fn configured_at(config: FrankClawConfig, channel: Seq<char>, i: int) -> bool {
    &&& 0 <= i < config.channels@.len()
    &&& config.channels@[i].0@ == channel
    &&& forall|k: int| 0 <= k < i ==> (#[trigger] config.channels@[k]).0@ != channel
}

/// True of a list of strings, or of nothing at all, under `key`.
pub open spec fn strings_or_nothing(settings: JsonView, key: Seq<char>) -> bool {
    inner(settings, key) is None || listed(settings, key) is Some && forall|i: int|
        0 <= i < listed(settings, key)->0.len() ==> (#[trigger] listed(settings, key)->0[i]) is Text
}

/// True of channel settings without a mistake.
pub open spec fn well_set(settings: JsonView) -> bool {
    &&& said(settings, "dm_policy"@) is Some ==> said(settings, "dm_policy"@)->0 == "open"@ || said(
        settings,
        "dm_policy"@,
    )->0 == "allowlist"@ || said(settings, "dm_policy"@)->0 == "pairing"@ || said(
        settings,
        "dm_policy"@,
    )->0 == "disabled"@
    &&& strings_or_nothing(settings, "allow_from"@)
    &&& strings_or_nothing(settings, "groups"@)
    &&& inner(settings, "max_message_bytes"@) is Some ==> whole(settings, "max_message_bytes"@)
        is Some && 0 < whole(settings, "max_message_bytes"@)->0 <= usize::MAX
}

/// True when the settings name the policy `policy` for direct messages. Without
/// a word on it, senders have to be paired.
pub open spec fn direct_policy(settings: JsonView, policy: Seq<char>) -> bool {
    match said(settings, "dm_policy"@) {
        Some(named) => named == policy,
        None => policy == "pairing"@,
    }
}

/// True when the settings list the sender, or everybody.
pub open spec fn lists_sender(settings: JsonView, sender: Seq<char>) -> bool {
    listed(settings, "allow_from"@) is Some && (names(listed(settings, "allow_from"@)->0, sender)
        || names(listed(settings, "allow_from"@)->0, "*"@))
}

/// True when the settings let a group through: they list none at all, or this
/// one, or every one.
pub open spec fn lets_group(settings: JsonView, group: Option<Seq<char>>) -> bool {
    listed(settings, "groups"@) is None || names(listed(settings, "groups"@)->0, "*"@) || group
        is Some && names(listed(settings, "groups"@)->0, group->0)
}

/// True when groups have to mention the bot. They do, unless the settings say
/// no.
pub open spec fn wants_mention(settings: JsonView) -> bool {
    flag(settings, "require_mention_for_groups"@) != Some(false)
}

/// True when the settings let a message through to the agent.
pub open spec fn heard(settings: JsonView, inbound: InboundMessage, approved: bool) -> bool {
    if inbound.is_group {
        lets_group(settings, inbound.thread_id.deep_view()) && (wants_mention(settings)
            ==> inbound.is_mention)
    } else {
        ||| direct_policy(settings, "open"@)
        ||| (direct_policy(settings, "allowlist"@) || direct_policy(settings, "pairing"@)) && (
        lists_sender(settings, inbound.sender_id@) || approved)
    }
}

/// True when a text is not blank and within the limits.
pub open spec fn fits(config: FrankClawConfig, settings: JsonView, text: Seq<char>) -> bool {
    &&& trimmed(text).len() > 0
    &&& byte_len(trimmed(text)) <= config.security.max_webhook_body_bytes
    &&& whole(settings, "max_message_bytes"@) is Some ==> byte_len(trimmed(text)) <= whole(
        settings,
        "max_message_bytes"@,
    )->0
}

proof fn lemma_policy_names()
    ensures
        "open"@ != "allowlist"@,
        "open"@ != "pairing"@,
        "open"@ != "disabled"@,
        "allowlist"@ != "pairing"@,
        "allowlist"@ != "disabled"@,
        "pairing"@ != "disabled"@,
{
    reveal_strlit("open");
    reveal_strlit("allowlist");
    reveal_strlit("pairing");
    reveal_strlit("disabled");
    assert("open"@.len() == 4);
    assert("allowlist"@.len() == 9);
    assert("pairing"@.len() == 7);
    assert("disabled"@.len() == 8);
}

proof fn lemma_names(items: Seq<JsonView>, text: Seq<char>)
    requires
        forall|i: int| 0 <= i < items.len() ==> (#[trigger] items[i]) is Text,
    ensures
        crate::config::texts(items).contains(text) == names(items, text),
{
    let all = crate::config::texts(items);
    if all.contains(text) {
        let i = choose|i: int| 0 <= i < all.len() && all[i] == text;
        assert(items[i] == JsonView::Text(text));
    }
    if names(items, text) {
        let i = choose|i: int| 0 <= i < items.len() && items[i] == JsonView::Text(text);
        assert(all[i] == text);
    }
}

proof fn lemma_settings(config: FrankClawConfig, inbound: InboundMessage, i: int)
    requires
        configured_at(config, inbound.channel@, i),
        well_set(config.channels@[i].1.extra@),
    ensures
        ({
            let settings = config.channels@[i].1.extra@;
            let p = crate::gateway::inbound::policy_for(config, inbound.channel@);
            &&& p is Ok
            &&& (p->Ok_0.dm_policy == ChannelDmPolicy::Open) == direct_policy(settings, "open"@)
            &&& (p->Ok_0.dm_policy == ChannelDmPolicy::Allowlist) == direct_policy(
                settings,
                "allowlist"@,
            )
            &&& (p->Ok_0.dm_policy == ChannelDmPolicy::Pairing) == direct_policy(
                settings,
                "pairing"@,
            )
            &&& (p->Ok_0.allow_from.contains(inbound.sender_id@) || p->Ok_0.allow_from.contains(
                "*"@,
            )) == lists_sender(settings, inbound.sender_id@)
            &&& crate::gateway::inbound::group_ok(p->Ok_0, inbound@.thread_id) == lets_group(
                settings,
                inbound.thread_id.deep_view(),
            )
            &&& p->Ok_0.require_mention_for_groups == wants_mention(settings)
            &&& p->Ok_0.max_message_bytes is Some == whole(settings, "max_message_bytes"@) is Some
            &&& p->Ok_0.max_message_bytes is Some ==> p->Ok_0.max_message_bytes->0 == whole(
                settings,
                "max_message_bytes"@,
            )->0
        }),
{
    let settings = config.channels@[i].1.extra@;
    lemma_first_channel(config, inbound.channel@, i);
    lemma_policy_names();
    if listed(settings, "allow_from"@) is Some {
        lemma_names(listed(settings, "allow_from"@)->0, inbound.sender_id@);
        lemma_names(listed(settings, "allow_from"@)->0, "*"@);
    }
    if listed(settings, "groups"@) is Some {
        lemma_names(listed(settings, "groups"@)->0, "*"@);
        if inbound.thread_id is Some {
            lemma_names(listed(settings, "groups"@)->0, inbound.thread_id->0@);
        }
    }
}

/// A message on a channel reaches the agent exactly where the channel's settings
/// let it, and then with its trimmed text. Direct messages are heard on an open
/// channel, or from senders who are listed or approved; messages of groups where
/// the group is allowed and the bot is mentioned, if it has to be.
pub proof fn law_who_is_heard(
    config: &FrankClawConfig,
    inbound: &InboundMessage,
    approved: bool,
    i: int,
    r: Result<Admission, FrankClawError>,
)
    requires
        call_ensures(admit_message, (config, inbound, approved), r),
        configured_at(*config, inbound.channel@, i),
        well_set(config.channels@[i].1.extra@),
        inbound.text is Some,
        fits(*config, config.channels@[i].1.extra@, inbound.text->0@),
    ensures
        r is Ok,
        r->Ok_0 is Accepted <==> heard(config.channels@[i].1.extra@, *inbound, approved),
        r->Ok_0 is Accepted ==> r->Ok_0->text@ == trimmed(inbound.text->0@),
        r->Ok_0 is PairingRequired <==> !inbound.is_group && direct_policy(
            config.channels@[i].1.extra@,
            "pairing"@,
        ) && !heard(config.channels@[i].1.extra@, *inbound, approved),
{
    lemma_settings(*config, *inbound, i);
    lemma_policy_names();
    assert(r->Ok_0@ is Accepted == r->Ok_0 is Accepted);
}

/// A message without a text that is more than white space is an invalid request,
/// and one that is too long is turned down with the limit, on every channel with
/// settings without a mistake.
pub proof fn law_blank_and_long_are_turned_down(
    config: &FrankClawConfig,
    inbound: &InboundMessage,
    approved: bool,
    i: int,
    r: Result<Admission, FrankClawError>,
)
    requires
        call_ensures(admit_message, (config, inbound, approved), r),
        configured_at(*config, inbound.channel@, i),
        well_set(config.channels@[i].1.extra@),
    ensures
        inbound.text is None || trimmed(inbound.text->0@).len() == 0 ==> r is Err && r->Err_0
            is InvalidRequest,
        inbound.text is Some && trimmed(inbound.text->0@).len() > 0 && !fits(
            *config,
            config.channels@[i].1.extra@,
            inbound.text->0@,
        ) ==> r is Err && r->Err_0 is RequestTooLarge && byte_len(trimmed(inbound.text->0@))
            > r->Err_0->max_bytes,
{
    lemma_settings(*config, *inbound, i);
}

/// On a channel that is not configured no direct message is heard.
pub proof fn law_unconfigured_hears_nobody(
    config: &FrankClawConfig,
    inbound: &InboundMessage,
    approved: bool,
    r: Result<Admission, FrankClawError>,
)
    requires
        call_ensures(admit_message, (config, inbound, approved), r),
        forall|k: int|
            0 <= k < config.channels@.len() ==> (#[trigger] config.channels@[k]).0@
                != inbound.channel@,
        !inbound.is_group,
    ensures
        !(r is Ok && r->Ok_0 is Accepted),
        !(r is Ok && r->Ok_0 is PairingRequired),
{
    lemma_no_channel(*config, inbound.channel@);
    if r is Ok {
        assert(r->Ok_0@ is Ignored);
    }
}

proof fn lemma_no_channel(config: FrankClawConfig, channel: Seq<char>)
    requires
        forall|j: int|
            0 <= j < config.channels@.len() ==> (#[trigger] config.channels@[j]).0@ != channel,
    ensures
        crate::config::channel_index(config.channels@, channel) >= config.channels@.len(),
{
    crate::config::lemma_channel_index(config.channels@, channel);
}

proof fn lemma_first_channel(config: FrankClawConfig, channel: Seq<char>, i: int)
    requires
        configured_at(config, channel, i),
    ensures
        crate::config::channel_index(config.channels@, channel) == i,
{
    crate::config::lemma_channel_index(config.channels@, channel);
    assert(config.channels@[i].0@ == channel);
}

/// A sender is allowed where the list names the sender or everybody, or the
/// sender was approved.
pub proof fn law_sender_allowed(
    policy: &ChannelSecurityPolicy,
    approved: bool,
    inbound: &InboundMessage,
    r: bool,
)
    requires
        call_ensures(sender_allowed, (policy, approved, inbound), r),
    ensures
        r <==> approved || exists|i: int|
            0 <= i < policy.allow_from@.len() && ((#[trigger] policy.allow_from@[i])@
                == inbound.sender_id@ || policy.allow_from@[i]@ == "*"@),
{
    let list = policy.allow_from.deep_view();
    assert(list.len() == policy.allow_from@.len());
    assert forall|i: int| 0 <= i < list.len() implies #[trigger] list[i]
        == policy.allow_from@[i]@ by {}
    if list.contains("*"@) {
        let i = choose|i: int| 0 <= i < list.len() && list[i] == "*"@;
        assert(policy.allow_from@[i]@ == "*"@);
    }
    if list.contains(inbound.sender_id@) {
        let i = choose|i: int| 0 <= i < list.len() && list[i] == inbound.sender_id@;
        assert(policy.allow_from@[i]@ == inbound.sender_id@);
    }
    if exists|i: int|
        0 <= i < policy.allow_from@.len() && ((#[trigger] policy.allow_from@[i])@
            == inbound.sender_id@ || policy.allow_from@[i]@ == "*"@) {
        let i = choose|i: int|
            0 <= i < policy.allow_from@.len() && ((#[trigger] policy.allow_from@[i])@
                == inbound.sender_id@ || policy.allow_from@[i]@ == "*"@);
        assert(list[i] == policy.allow_from@[i]@);
    }
}

/// A group is allowed where no list is set, or where it names the group or every
/// one.
pub proof fn law_group_allowed(policy: &ChannelSecurityPolicy, inbound: &InboundMessage, r: bool)
    requires
        call_ensures(group_allowed, (policy, inbound), r),
    ensures
        policy.allowed_groups is None ==> r,
        policy.allowed_groups is Some ==> (r <==> policy.allowed_groups->0.deep_view().contains(
            "*"@,
        ) || inbound.thread_id is Some && policy.allowed_groups->0.deep_view().contains(
            inbound.thread_id->0@,
        )),
{
}

/// The turn of an accepted message has the text that was admitted, the files of
/// the message, the agent and the session that were asked for, and the channel
/// that it came on; and there is a turn exactly where the message is admitted.
pub proof fn law_turn_of_a_message(
    config: &FrankClawConfig,
    inbound: &InboundMessage,
    approved: bool,
    agent: Option<AgentId>,
    key: SessionKey,
    capabilities: Option<ChannelCapabilities>,
    admitted: Result<Admission, FrankClawError>,
    r: Result<InboundStep, FrankClawError>,
)
    requires
        call_ensures(admit_message, (config, inbound, approved), admitted),
        call_ensures(
            process_inbound_message_with_target,
            (config, inbound, approved, agent, key, capabilities),
            r,
        ),
    ensures
        r is Ok <==> admitted is Ok,
        r is Ok ==> (r->Ok_0 is Turn <==> admitted->Ok_0 is Accepted) && (r->Ok_0 is Pair
            <==> admitted->Ok_0 is PairingRequired),
        r is Ok && r->Ok_0 is Turn ==> ({
            let turn = r->Ok_0->Turn_0;
            &&& turn.message@ == admitted->Ok_0->text@
            &&& turn.agent_id == agent
            &&& turn.session_key == Some(key)
            &&& turn.attachments.deep_view() == inbound.attachments.deep_view()
            &&& turn.channel_id == Some(inbound.channel)
            &&& turn.model_id is None
        }),
{
    if admitted is Ok {
        assert(admitted->Ok_0@ is Accepted == admitted->Ok_0 is Accepted);
    }
}

/// What goes back to the sender of a message goes to the sender, on the channel,
/// the account and the thread of the message, as an answer to it.
pub proof fn law_replies_go_back(inbound: &InboundMessage, text: &str, r: OutboundMessage)
    requires
        call_ensures(reply_to_sender, (inbound, text), r),
    ensures
        r.to@ == inbound.sender_id@,
        r.channel@ == inbound.channel@,
        r.account_id@ == inbound.account_id@,
        r.thread_id.deep_view() == inbound.thread_id.deep_view(),
        r.reply_to.deep_view() == inbound.platform_message_id.deep_view(),
        r.text@ == text@,
        r.attachments@.len() == 0,
{
    assert(r@.attachments.len() == r.attachments@.len());
}

/// The sender who has to be paired is told the code, and the command that uses
/// it.
pub proof fn law_pairing_reply_tells_the_code(
    inbound: &InboundMessage,
    code: &str,
    r: OutboundMessage,
)
    requires
        call_ensures(pairing_reply, (inbound, code), r),
    ensures
        r.to@ == inbound.sender_id@,
        r.thread_id.deep_view() == inbound.thread_id.deep_view(),
        stands_in("frankclaw pairing approve "@ + inbound.channel@ + " "@ + code@, r.text@),
{
    let head = "Pairing required. Approve with: "@;
    reveal_strlit("Pairing required. Approve with: ");
    reveal_strlit("frankclaw pairing approve ");
    reveal_strlit("Pairing required. Approve with: frankclaw pairing approve ");
    assert(head + "frankclaw pairing approve "@
        =~= "Pairing required. Approve with: frankclaw pairing approve "@);
    let part = "frankclaw pairing approve "@ + inbound.channel@ + " "@ + code@;
    assert(r.text@ =~= (head + part) + Seq::<char>::empty());
}

/// A message that could not be processed is answered, where there is a channel
/// to answer on, and only then: one that was too long is told so, and one that
/// was limited is told how long to wait.
pub proof fn law_failures_are_told(
    inbound: &InboundMessage,
    has_channel: bool,
    outcome: &Result<(), FrankClawError>,
    r: Option<OutboundMessage>,
)
    requires
        call_ensures(process_inbound_message, (inbound, has_channel, outcome), r),
    ensures
        r is Some <==> has_channel && *outcome is Err,
        r is Some ==> r->0.to@ == inbound.sender_id@ && r->0.thread_id.deep_view()
            == inbound.thread_id.deep_view() && r->0.text@.len() > 0,
        r is Some && outcome->Err_0 is RequestTooLarge ==> r->0.text@
            == "Your message is too long. Please shorten it and try again."@,
        r is Some && outcome->Err_0 is RateLimited ==> stands_in(
            decimal(outcome->Err_0->retry_after_secs as nat),
            r->0.text@,
        ),
        r is Some && !(outcome->Err_0 is RequestTooLarge) && !(outcome->Err_0 is RateLimited)
            ==> r->0.text@
            == "Sorry, I encountered an error processing your message. Please try again later."@,
{
    reveal_strlit("Your message is too long. Please shorten it and try again.");
    reveal_strlit("Too many requests. Please wait ");
    reveal_strlit(
        "Sorry, I encountered an error processing your message. Please try again later.",
    );
    if r is Some && outcome->Err_0 is RateLimited {
        let n = decimal(outcome->Err_0->retry_after_secs as nat);
        assert(r->0.text@ == ("Too many requests. Please wait "@ + n)
            + " seconds and try again."@);
    }
}

/// A draft grows by each piece of the answer; it is edited at most once in a
/// second and a half, and never before it was sent.
pub proof fn law_draft_grows(draft: &mut Draft, text: &str, now: u64, r: Option<EditMessageTarget>)
    requires
        call_ensures(Draft::on_text, (draft, text, now), r),
    ensures
        final(draft).accumulated@ == old(draft).accumulated@ + text@,
        final(draft).message_id == old(draft).message_id,
        r is Some ==> old(draft).message_id is Some && now >= old(draft).last_edit + 1500
            && r->0.platform_message_id@ == old(draft).message_id->0@,
        old(draft).message_id is Some && now >= old(draft).last_edit + 1500 ==> r is Some,
{
}

/// An answer gets back by the draft where the channel edits messages and the
/// draft was sent, and as a message to the sender where it does not edit.
pub proof fn law_answer_gets_back(
    inbound: &InboundMessage,
    has_channel: bool,
    edits: bool,
    draft: Option<String>,
    content: &str,
    r: FinalStep,
)
    requires
        call_ensures(final_step, (inbound, has_channel, edits, draft, content), r),
    ensures
        has_channel && !edits ==> r is Deliver && r->Deliver_0.text@ == content@
            && r->Deliver_0.to@ == inbound.sender_id@ && r->Deliver_0.thread_id.deep_view()
            == inbound.thread_id.deep_view(),
        has_channel && edits && draft is Some ==> r is EditDraft
            && r->EditDraft_0.platform_message_id@ == draft->0@ && r->EditDraft_0.to@
            == inbound.sender_id@ && r->EditDraft_0.account_id@ == inbound.account_id@,
        !has_channel ==> r is Nothing,
{
}

/// The event on an answered message names the channel, the account, the session
/// and the answer.
pub proof fn law_chat_complete(
    inbound: &InboundMessage,
    key: &SessionKey,
    content: &str,
    r: EventFrame,
)
    requires
        call_ensures(chat_complete, (inbound, key, content), r),
    ensures
        r.event == EventType::ChatComplete,
        said(r.payload@, "channel"@) == Some(inbound.channel@),
        said(r.payload@, "account_id"@) == Some(inbound.account_id@),
        said(r.payload@, "session_key"@) == Some(key@),
        said(r.payload@, "content"@) == Some(content@),
{
    reveal_strlit("channel");
    reveal_strlit("account_id");
    reveal_strlit("session_key");
    reveal_strlit("content");
    assert("channel"@.len() == 7 && "channel"@[1] == 'h');
    assert("content"@.len() == 7 && "content"@[1] == 'o');
    assert("account_id"@.len() == 10);
    assert("session_key"@.len() == 11);
}

/// What is kept of a delivery names the sender as the recipient, the thread and
/// the message that was answered, and how the delivery and each of its parts
/// went.
pub proof fn law_delivery_is_kept(
    inbound: &InboundMessage,
    content: &str,
    delivery: &DeliveryRecord,
    now: Timestamp,
    r: StoredReplyMetadata,
)
    requires
        call_ensures(persist_delivery_metadata, (inbound, content, delivery, now), r),
    ensures
        r.channel@ == inbound.channel@,
        r.account_id@ == inbound.account_id@,
        r.recipient_id@ == inbound.sender_id@,
        r.thread_id.deep_view() == inbound.thread_id.deep_view(),
        r.reply_to.deep_view() == inbound.platform_message_id.deep_view(),
        r.content@ == content@,
        r.platform_message_id.deep_view() == delivery.platform_message_id.deep_view(),
        r.attempts == delivery.attempts,
        r.recorded_at == now,
        r.chunks@.len() == delivery.chunks@.len(),
        forall|i: int|
            0 <= i < r.chunks@.len() ==> (#[trigger] r.chunks@[i]).content@
                == delivery.chunks@[i].text@ && r.chunks@[i].platform_message_id.deep_view()
                == delivery.chunks@[i].platform_message_id.deep_view() && r.chunks@[i].attempts
                == delivery.chunks@[i].attempts,
{
    let kept = r@.chunks;
    assert(kept.len() == r.chunks@.len());
    assert(delivery.chunks.deep_view().len() == delivery.chunks@.len());
    assert forall|i: int| 0 <= i < r.chunks@.len() implies (#[trigger] r.chunks@[i]).content@
        == delivery.chunks@[i].text@ && r.chunks@[i].platform_message_id.deep_view()
        == delivery.chunks@[i].platform_message_id.deep_view() && r.chunks@[i].attempts
        == delivery.chunks@[i].attempts by {
        assert(kept[i] == r.chunks@[i]@);
        assert(delivery.chunks.deep_view()[i] == delivery.chunks@[i]@);
    }
}

/// A draft starts at the sender, without text of its own and under the
/// identifier that it got; an edit that was done counts from then on.
pub proof fn law_draft_starts(
    inbound: &InboundMessage,
    id: Option<String>,
    now: u64,
    later: u64,
    first: OutboundMessage,
    r: Draft,
    draft: &mut Draft,
)
    requires
        call_ensures(draft_message, (inbound,), first),
        call_ensures(Draft::new, (id, now), r),
        call_ensures(Draft::edited, (draft, later), ()),
    ensures
        first.to@ == inbound.sender_id@,
        first.channel@ == inbound.channel@,
        first.account_id@ == inbound.account_id@,
        first.thread_id.deep_view() == inbound.thread_id.deep_view(),
        first.text@ == "..."@,
        r.message_id == id,
        r.accumulated@.len() == 0,
        r.last_edit == now,
        final(draft).last_edit == later,
        final(draft).accumulated@ == old(draft).accumulated@,
        final(draft).message_id == old(draft).message_id,
{
}

/// What went wrong is told to the sender, where the message came from.
pub proof fn law_errors_reach_the_sender(
    inbound: &InboundMessage,
    error: &FrankClawError,
    r: OutboundMessage,
)
    requires
        call_ensures(send_error_reply, (inbound, error), r),
    ensures
        r.to@ == inbound.sender_id@,
        r.channel@ == inbound.channel@,
        r.account_id@ == inbound.account_id@,
        r.thread_id.deep_view() == inbound.thread_id.deep_view(),
        r.text@.len() > 0,
        error is RequestTooLarge ==> r.text@
            == "Your message is too long. Please shorten it and try again."@,
        error is RateLimited ==> r.text@ == "Too many requests. Please wait "@ + decimal(
            error->retry_after_secs as nat,
        ) + " seconds and try again."@,
        !(error is RequestTooLarge) && !(error is RateLimited) ==> r.text@
            == "Sorry, I encountered an error processing your message. Please try again later."@,
{
    reveal_strlit("Your message is too long. Please shorten it and try again.");
    reveal_strlit("Too many requests. Please wait ");
    reveal_strlit(
        "Sorry, I encountered an error processing your message. Please try again later.",
    );
}

/// The limit that a message which is too long is told of is the smaller of the
/// gateway's and the channel's own.
pub proof fn law_limit_is_told(
    config: &FrankClawConfig,
    inbound: &InboundMessage,
    approved: bool,
    i: int,
    r: Result<Admission, FrankClawError>,
)
    requires
        call_ensures(admit_message, (config, inbound, approved), r),
        configured_at(*config, inbound.channel@, i),
        well_set(config.channels@[i].1.extra@),
        r is Err,
        r->Err_0 is RequestTooLarge,
    ensures
        ({
            let own = whole(config.channels@[i].1.extra@, "max_message_bytes"@);
            let all = config.security.max_webhook_body_bytes;
            &&& own is None || own->0 >= all ==> r->Err_0->max_bytes == all
            &&& own is Some && own->0 < all ==> r->Err_0->max_bytes == own->0
        }),
{
    lemma_settings(*config, *inbound, i);
}

/// A channel whose settings are broken hears nobody, and says what is broken.
pub proof fn law_broken_settings(
    config: &FrankClawConfig,
    inbound: &InboundMessage,
    approved: bool,
    i: int,
    policy: Result<ChannelSecurityPolicy, FrankClawError>,
    r: Result<Admission, FrankClawError>,
)
    requires
        call_ensures(admit_message, (config, inbound, approved), r),
        configured_at(*config, inbound.channel@, i),
        call_ensures(ChannelConfig::security_policy, (&config.channels@[i].1,), policy),
        policy is Err,
    ensures
        r is Err,
        r->Err_0@ == policy->Err_0@,
{
    lemma_first_channel(*config, inbound.channel@, i);
}

/// On a channel that is not configured, groups are heard where they mention the
/// bot.
pub proof fn law_unconfigured_groups(
    config: &FrankClawConfig,
    inbound: &InboundMessage,
    approved: bool,
    r: Result<Admission, FrankClawError>,
)
    requires
        call_ensures(admit_message, (config, inbound, approved), r),
        forall|k: int|
            0 <= k < config.channels@.len() ==> (#[trigger] config.channels@[k]).0@
                != inbound.channel@,
        inbound.is_group,
        inbound.text is Some,
        trimmed(inbound.text->0@).len() > 0,
        byte_len(trimmed(inbound.text->0@)) <= config.security.max_webhook_body_bytes,
    ensures
        r is Ok,
        r->Ok_0 is Accepted <==> inbound.is_mention,
        r->Ok_0 is Accepted ==> r->Ok_0->text@ == trimmed(inbound.text->0@),
{
    lemma_no_channel(*config, inbound.channel@);
    assert(r->Ok_0@ is Accepted == r->Ok_0 is Accepted);
}

/// The turn of a message knows what the channel can do and sets no limits of its
/// own.
pub proof fn law_turn_knows_the_channel(
    config: &FrankClawConfig,
    inbound: &InboundMessage,
    approved: bool,
    agent: Option<AgentId>,
    key: SessionKey,
    capabilities: Option<ChannelCapabilities>,
    admitted: Result<Admission, FrankClawError>,
    r: Result<InboundStep, FrankClawError>,
)
    requires
        call_ensures(admit_message, (config, inbound, approved), admitted),
        call_ensures(
            process_inbound_message_with_target,
            (config, inbound, approved, agent, key, capabilities),
            r,
        ),
    ensures
        admitted is Err ==> r is Err && r->Err_0@ == admitted->Err_0@,
        r is Ok ==> (r->Ok_0 is Ignore <==> admitted->Ok_0 is Ignored),
        r is Ok && r->Ok_0 is Turn ==> r->Ok_0->Turn_0.channel_capabilities == capabilities
            && r->Ok_0->Turn_0.max_tokens is None && r->Ok_0->Turn_0.temperature is None
            && r->Ok_0->Turn_0.thinking_budget is None,
{
    if admitted is Ok {
        assert(admitted->Ok_0@ is Ignored == admitted->Ok_0 is Ignored);
    }
}

/// What is kept of a delivery says how it went, in words, with the error and the
/// wait that was asked for; and so does what is kept of each part.
pub proof fn law_outcome_is_kept(
    inbound: &InboundMessage,
    content: &str,
    delivery: &DeliveryRecord,
    now: Timestamp,
    i: int,
    r: StoredReplyMetadata,
)
    requires
        call_ensures(persist_delivery_metadata, (inbound, content, delivery, now), r),
    ensures
        delivery.status is Sent ==> r.status@ == "sent"@,
        delivery.status is RateLimited ==> r.status@ == "rate_limited"@,
        delivery.status is Failed ==> r.status@ == "failed"@,
        r.retry_after_secs == delivery.retry_after_secs,
        r.error.deep_view() == delivery.error.deep_view(),
        0 <= i < delivery.chunks@.len() ==> {
            let part = delivery.chunks@[i];
            &&& part.status is Sent ==> r.chunks@[i].status@ == "sent"@
            &&& part.status is RateLimited ==> r.chunks@[i].status@ == "rate_limited"@
            &&& part.status is Failed ==> r.chunks@[i].status@ == "failed"@
            &&& r.chunks@[i].retry_after_secs == part.retry_after_secs
            &&& r.chunks@[i].error.deep_view() == part.error.deep_view()
        },
{
    let kept = r@.chunks;
    assert(kept.len() == r.chunks@.len());
    assert(delivery.chunks.deep_view().len() == delivery.chunks@.len());
    if 0 <= i < delivery.chunks@.len() {
        assert(kept[i] == r.chunks@[i]@);
        assert(delivery.chunks.deep_view()[i] == delivery.chunks@[i]@);
    }
}

} // verus!
