//! The web channel: replies wait here until the browser fetches them.

use crate::media::{media_id_of, MediaId};
use crate::message::{ChannelCapabilities, OutboundMessage, SendResult};
use crate::text::{cat3, trimmed};
use crate::text_map::TextMap;
use vstd::prelude::*;

verus! {

/// The queue of one recipient: the account and the recipient, trimmed.
pub open spec fn queue_key(account_id: Seq<char>, recipient_id: Seq<char>) -> Seq<char> {
    trimmed(account_id) + ":"@ + trimmed(recipient_id)
}

/// The queue of one recipient.
pub fn outbound_queue_key(account_id: &str, recipient_id: &str) -> (r: String)
    ensures
        r@ == queue_key(account_id@, recipient_id@),
{
    cat3(account_id.trim(), ":", recipient_id.trim())
}

/// The messages that wait in a queue.
pub open spec fn waiting(
    queues: Map<Seq<char>, Vec<OutboundMessage>>,
    key: Seq<char>,
) -> Seq<OutboundMessage> {
    if queues.dom().contains(key) {
        queues[key]@
    } else {
        Seq::empty()
    }
}

/// Replies that wait for their recipients.
#[derive(Debug)]
pub struct WebChannel {
    pub outbound: TextMap<Vec<OutboundMessage>>,
}

impl WebChannel {
    /// True when each recipient has one queue.
    pub open spec fn wf(&self) -> bool {
        self.outbound.wf()
    }

    /// A channel where nothing waits.
    pub fn new() -> (r: WebChannel)
        ensures
            r.wf(),
            r.outbound@ == Map::<Seq<char>, Vec<OutboundMessage>>::empty(),
    {
        WebChannel { outbound: TextMap::new() }
    }

    /// Takes the messages that wait for one recipient, oldest first.
    pub fn drain_outbound(&mut self, account_id: &str, recipient_id: &str) -> (r: Vec<
        OutboundMessage,
    >)
        requires
            old(self).wf(),
        ensures
            final(self).wf(),
            r@ == waiting(old(self).outbound@, queue_key(account_id@, recipient_id@)),
            final(self).outbound@ == old(self).outbound@.remove(
                queue_key(account_id@, recipient_id@),
            ),
    {
        let key = outbound_queue_key(account_id, recipient_id);
        match self.outbound.remove(key.as_str()) {
            Some(messages) => messages,
            None => {
                let none: Vec<OutboundMessage> = Vec::new();
                assert(none@ =~= Seq::empty());
                none
            },
        }
    }

    /// Puts a message at the end of its recipient's queue, under a new random
    /// identifier.
    pub fn send(&mut self, msg: OutboundMessage) -> (r: SendResult)
        requires
            old(self).wf(),
        ensures
            final(self).wf(),
            waiting(final(self).outbound@, queue_key(msg.account_id@, msg.to@)) == waiting(
                old(self).outbound@,
                queue_key(msg.account_id@, msg.to@),
            ).push(msg),
            forall|key: Seq<char>|
                key != queue_key(msg.account_id@, msg.to@) ==> #[trigger] waiting(
                    final(self).outbound@,
                    key,
                ) == waiting(old(self).outbound@, key),
            r is Sent,
            media_id_of(r->platform_message_id@) is Some,
            r->platform_message_id@.len() == 36,
    {
        let id = MediaId::new().to_text();
        let key = outbound_queue_key(msg.account_id.as_str(), msg.to.as_str());
        let ghost before = self.outbound@;
        let mut queue = match self.outbound.remove(key.as_str()) {
            Some(messages) => messages,
            None => Vec::new(),
        };
        assert(queue@ =~= waiting(before, key@));
        queue.push(msg);
        self.outbound.insert(key.as_str(), queue);
        assert(self.outbound@ =~= before.insert(key@, queue));
        SendResult::Sent { platform_message_id: id }
    }

    /// What the channel can do.
    pub fn capabilities() -> (r: ChannelCapabilities)
        ensures
            r == (ChannelCapabilities {
                threads: false,
                groups: false,
                attachments: true,
                edit: false,
                delete: false,
                reactions: false,
                streaming: true,
                inline_buttons: false,
            }),
    {
        ChannelCapabilities {
            threads: false,
            groups: false,
            attachments: true,
            edit: false,
            delete: false,
            reactions: false,
            streaming: true,
            inline_buttons: false,
        }
    }
}

/// A message that was sent to a recipient is fetched by that recipient, last
/// in line, and by nobody else; fetching empties the queue.
pub proof fn law_sent_is_drained(
    before: Map<Seq<char>, Vec<OutboundMessage>>,
    sent: Map<Seq<char>, Vec<OutboundMessage>>,
    msg: OutboundMessage,
    key: Seq<char>,
    other: Seq<char>,
)
    requires
        waiting(sent, key) == waiting(before, key).push(msg),
        waiting(sent, other) == waiting(before, other),
        other != key,
    ensures
        waiting(sent, key).last() == msg,
        waiting(sent.remove(key), key).len() == 0,
        waiting(sent.remove(key), other) == waiting(before, other),
{
}

} // verus!
