//! Messages as channels receive and send them.

use crate::media::MediaId;
use crate::types::{ChannelId, Timestamp};
use vstd::prelude::*;

verus! {

/// A copy of an optional text.
pub fn clone_text(s: &Option<String>) -> (r: Option<String>)
    ensures
        r.deep_view() == s.deep_view(),
        r == *s,
{
    match s {
        Some(s) => Some(s.clone()),
        None => None,
    }
}

/// A file that came with a message.
#[derive(Debug)]
pub struct InboundAttachment {
    pub media_id: Option<MediaId>,
    pub mime_type: String,
    pub filename: Option<String>,
    pub size_bytes: Option<u64>,
    pub url: Option<String>,
}

/// What an inbound attachment says.
pub struct InboundAttachmentView {
    pub media_id: Option<MediaId>,
    pub mime_type: Seq<char>,
    pub filename: Option<Seq<char>>,
    pub size_bytes: Option<u64>,
    pub url: Option<Seq<char>>,
}

impl View for InboundAttachment {
    type V = InboundAttachmentView;

    open spec fn view(&self) -> InboundAttachmentView {
        InboundAttachmentView {
            media_id: self.media_id,
            mime_type: self.mime_type@,
            filename: self.filename.deep_view(),
            size_bytes: self.size_bytes,
            url: self.url.deep_view(),
        }
    }
}

impl DeepView for InboundAttachment {
    type V = InboundAttachmentView;

    open spec fn deep_view(&self) -> InboundAttachmentView {
        self@
    }
}

impl Clone for InboundAttachment {
    fn clone(&self) -> (r: InboundAttachment)
        ensures
            r == *self,
    {
        InboundAttachment {
            media_id: self.media_id,
            mime_type: self.mime_type.clone(),
            filename: clone_text(&self.filename),
            size_bytes: self.size_bytes,
            url: clone_text(&self.url),
        }
    }
}

/// A message that a channel received.
#[derive(Debug)]
pub struct InboundMessage {
    pub channel: ChannelId,
    pub account_id: String,
    pub sender_id: String,
    pub sender_name: Option<String>,
    pub thread_id: Option<String>,
    pub is_group: bool,
    pub is_mention: bool,
    pub text: Option<String>,
    pub attachments: Vec<InboundAttachment>,
    pub platform_message_id: Option<String>,
    pub timestamp: Timestamp,
}

/// What an inbound message says.
pub struct InboundView {
    pub channel: Seq<char>,
    pub account_id: Seq<char>,
    pub sender_id: Seq<char>,
    pub sender_name: Option<Seq<char>>,
    pub thread_id: Option<Seq<char>>,
    pub is_group: bool,
    pub is_mention: bool,
    pub text: Option<Seq<char>>,
    pub attachments: Seq<InboundAttachmentView>,
    pub platform_message_id: Option<Seq<char>>,
    pub timestamp: Timestamp,
}

impl View for InboundMessage {
    type V = InboundView;

    open spec fn view(&self) -> InboundView {
        InboundView {
            channel: self.channel@,
            account_id: self.account_id@,
            sender_id: self.sender_id@,
            sender_name: self.sender_name.deep_view(),
            thread_id: self.thread_id.deep_view(),
            is_group: self.is_group,
            is_mention: self.is_mention,
            text: self.text.deep_view(),
            attachments: self.attachments.deep_view(),
            platform_message_id: self.platform_message_id.deep_view(),
            timestamp: self.timestamp,
        }
    }
}

impl DeepView for InboundMessage {
    type V = InboundView;

    open spec fn deep_view(&self) -> InboundView {
        self@
    }
}

/// A copy of a list of inbound attachments.
pub fn clone_inbound_attachments(v: &Vec<InboundAttachment>) -> (r: Vec<InboundAttachment>)
    ensures
        r.deep_view() == v.deep_view(),
{
    let mut out: Vec<InboundAttachment> = Vec::new();
    let mut i: usize = 0;
    while i < v.len()
        invariant
            i <= v@.len(),
            out@ =~= v@.take(i as int),
        decreases v@.len() - i,
    {
        out.push(v[i].clone());
        i = i + 1;
    }
    assert(out@ =~= v@);
    assert(out.deep_view() =~= v.deep_view());
    out
}

/// A file that goes out with a message.
#[derive(Debug)]
pub struct OutboundAttachment {
    pub media_id: MediaId,
    pub mime_type: String,
    pub filename: Option<String>,
    pub url: Option<String>,
    pub bytes: Vec<u8>,
}

/// What an outbound attachment says.
pub struct OutboundAttachmentView {
    pub media_id: MediaId,
    pub mime_type: Seq<char>,
    pub filename: Option<Seq<char>>,
    pub url: Option<Seq<char>>,
    pub bytes: Seq<u8>,
}

impl View for OutboundAttachment {
    type V = OutboundAttachmentView;

    open spec fn view(&self) -> OutboundAttachmentView {
        OutboundAttachmentView {
            media_id: self.media_id,
            mime_type: self.mime_type@,
            filename: self.filename.deep_view(),
            url: self.url.deep_view(),
            bytes: self.bytes@,
        }
    }
}

impl DeepView for OutboundAttachment {
    type V = OutboundAttachmentView;

    open spec fn deep_view(&self) -> OutboundAttachmentView {
        self@
    }
}

/// A copy of some bytes.
pub fn clone_bytes(v: &Vec<u8>) -> (r: Vec<u8>)
    ensures
        r@ == v@,
{
    let mut out: Vec<u8> = Vec::new();
    out.extend_from_slice(v.as_slice());
    assert(out@ =~= v@);
    out
}

impl Clone for OutboundAttachment {
    fn clone(&self) -> (r: OutboundAttachment)
        ensures
            r@ == self@,
    {
        OutboundAttachment {
            media_id: self.media_id,
            mime_type: self.mime_type.clone(),
            filename: clone_text(&self.filename),
            url: clone_text(&self.url),
            bytes: clone_bytes(&self.bytes),
        }
    }
}

/// A copy of a list of outbound attachments.
pub fn clone_attachments(v: &Vec<OutboundAttachment>) -> (r: Vec<OutboundAttachment>)
    ensures
        r.deep_view() == v.deep_view(),
{
    let mut out: Vec<OutboundAttachment> = Vec::new();
    let mut i: usize = 0;
    while i < v.len()
        invariant
            i <= v@.len(),
            out@.len() == i,
            forall|k: int| 0 <= k < i ==> (#[trigger] out@[k])@ == v@[k]@,
        decreases v@.len() - i,
    {
        out.push(v[i].clone());
        i = i + 1;
    }
    assert(out.deep_view() =~= v.deep_view());
    out
}

/// A message for a channel to send.
#[derive(Debug)]
pub struct OutboundMessage {
    pub channel: ChannelId,
    pub account_id: String,
    pub to: String,
    pub thread_id: Option<String>,
    pub text: String,
    pub attachments: Vec<OutboundAttachment>,
    pub reply_to: Option<String>,
}

/// What an outbound message says.
pub struct OutboundView {
    pub channel: Seq<char>,
    pub account_id: Seq<char>,
    pub to: Seq<char>,
    pub thread_id: Option<Seq<char>>,
    pub text: Seq<char>,
    pub attachments: Seq<OutboundAttachmentView>,
    pub reply_to: Option<Seq<char>>,
}

impl View for OutboundMessage {
    type V = OutboundView;

    open spec fn view(&self) -> OutboundView {
        OutboundView {
            channel: self.channel@,
            account_id: self.account_id@,
            to: self.to@,
            thread_id: self.thread_id.deep_view(),
            text: self.text@,
            attachments: self.attachments.deep_view(),
            reply_to: self.reply_to.deep_view(),
        }
    }
}

impl DeepView for OutboundMessage {
    type V = OutboundView;

    open spec fn deep_view(&self) -> OutboundView {
        self@
    }
}

impl Clone for OutboundMessage {
    fn clone(&self) -> (r: OutboundMessage)
        ensures
            r@ == self@,
    {
        OutboundMessage {
            channel: self.channel.clone(),
            account_id: self.account_id.clone(),
            to: self.to.clone(),
            thread_id: clone_text(&self.thread_id),
            text: self.text.clone(),
            attachments: clone_attachments(&self.attachments),
            reply_to: clone_text(&self.reply_to),
        }
    }
}

/// The answer of a platform to a message.
#[derive(Debug)]
pub enum SendResult {
    Sent { platform_message_id: String },
    RateLimited { retry_after_secs: Option<u64> },
    Failed { reason: String },
}

/// What a send result says.
pub enum SendView {
    Sent(Seq<char>),
    RateLimited(Option<u64>),
    Failed(Seq<char>),
}

impl View for SendResult {
    type V = SendView;

    open spec fn view(&self) -> SendView {
        match self {
            SendResult::Sent { platform_message_id } => SendView::Sent(platform_message_id@),
            SendResult::RateLimited { retry_after_secs } => SendView::RateLimited(
                *retry_after_secs,
            ),
            SendResult::Failed { reason } => SendView::Failed(reason@),
        }
    }
}

/// Where a sent message is, for one who wants to edit it.
#[derive(Debug)]
pub struct EditMessageTarget {
    pub account_id: String,
    pub to: String,
    pub thread_id: Option<String>,
    pub platform_message_id: String,
}

/// Where a sent message is, for one who wants to delete it.
#[derive(Debug)]
pub struct DeleteMessageTarget {
    pub account_id: String,
    pub to: String,
    pub thread_id: Option<String>,
    pub platform_message_id: String,
}

/// What a channel can do.
#[derive(Clone, Copy, Debug, PartialEq, Eq, Structural)]
pub struct ChannelCapabilities {
    pub threads: bool,
    pub groups: bool,
    pub attachments: bool,
    pub edit: bool,
    pub delete: bool,
    pub reactions: bool,
    pub streaming: bool,
    pub inline_buttons: bool,
}

/// How a channel is doing.
#[derive(Debug)]
pub enum HealthStatus {
    Connected,
    Degraded { reason: String },
    Disconnected { reason: String },
    NotConfigured,
}

} // verus!
