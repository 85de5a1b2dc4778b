//! What stands in for the text of a message that is nothing but files.

use crate::message::{InboundAttachment, InboundAttachmentView};
use crate::text::{
    ascii_lower, before_first, is_blank, part_before, starts_with, to_ascii_lower, trimmed,
};
use vstd::prelude::*;

verus! {

/// The word for one file of a media type.
pub open spec fn media_placeholder(mime: Seq<char>) -> Seq<char> {
    if "image/"@.is_prefix_of(mime) {
        "<media:image>"@
    } else if "audio/"@.is_prefix_of(mime) {
        "<media:audio>"@
    } else if "video/"@.is_prefix_of(mime) {
        "<media:video>"@
    } else {
        "<media:attachment>"@
    }
}

/// The word for one file of a media type.
pub fn placeholder_for(mime: &str) -> (r: &'static str)
    ensures
        r@ == media_placeholder(mime@),
{
    if starts_with(mime, "image/") {
        "<media:image>"
    } else if starts_with(mime, "audio/") {
        "<media:audio>"
    } else if starts_with(mime, "video/") {
        "<media:video>"
    } else {
        "<media:attachment>"
    }
}

/// The text of a message: its own, trimmed, else a word for its files.
pub open spec fn text_or_placeholder(
    text: Option<Seq<char>>,
    mimes: Seq<Seq<char>>,
) -> Option<Seq<char>> {
    if text is Some && !is_blank(text->0) {
        Some(trimmed(text->0))
    } else if mimes.len() == 0 {
        None
    } else if mimes.len() > 1 {
        Some("<media:attachments>"@)
    } else {
        Some(media_placeholder(mimes[0]))
    }
}

/// The media types of some attachments.
pub open spec fn mimes_of(attachments: Seq<InboundAttachmentView>) -> Seq<Seq<char>> {
    Seq::new(attachments.len(), |i: int| attachments[i].mime_type)
}

/// The text of a message: its own, trimmed, else a word for its files.
pub fn text_or_attachment_placeholder(
    text: Option<&str>,
    attachments: &Vec<InboundAttachment>,
) -> (r: Option<String>)
    ensures
        r.deep_view() == text_or_placeholder(
            match text {
                Some(s) => Some(s@),
                None => None,
            },
            mimes_of(attachments.deep_view()),
        ),
{
    if let Some(text) = text {
        let text = text.trim();
        if !text.is_empty() {
            return Some(text.to_owned());
        }
    }
    if attachments.len() == 0 {
        None
    } else if attachments.len() > 1 {
        Some("<media:attachments>".to_owned())
    } else {
        assert(mimes_of(attachments.deep_view())[0] == attachments@[0].mime_type@);
        Some(placeholder_for(attachments[0].mime_type.as_str()).to_owned())
    }
}

/// A media type without its parameters, in lower case.
pub open spec fn bare_type(mime: Seq<char>) -> Seq<char> {
    ascii_lower(trimmed(before_first(mime, ';')))
}

/// A media type without its parameters, in lower case.
pub fn normalize_mime_type(mime: &str) -> (r: String)
    ensures
        r@ == bare_type(mime@),
{
    to_ascii_lower(part_before(mime, ';').as_str().trim())
}

} // verus!
