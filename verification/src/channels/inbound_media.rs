//! The media type of a file that came with a message.

use crate::text::{
    after_last, ascii_lower, before_first, is_blank, part_before, rest_after_last, str_eq,
    to_ascii_lower, trimmed,
};
use vstd::prelude::*;

verus! {

/// The media type that a file name extension stands for.
pub open spec fn extension_type(ext: Seq<char>) -> Option<Seq<char>> {
    if ext == "png"@ {
        Some("image/png"@)
    } else if ext == "jpg"@ || ext == "jpeg"@ {
        Some("image/jpeg"@)
    } else if ext == "gif"@ {
        Some("image/gif"@)
    } else if ext == "webp"@ {
        Some("image/webp"@)
    } else if ext == "svg"@ {
        Some("image/svg+xml"@)
    } else if ext == "mp3"@ {
        Some("audio/mpeg"@)
    } else if ext == "m4a"@ {
        Some("audio/mp4"@)
    } else if ext == "ogg"@ || ext == "oga"@ {
        Some("audio/ogg"@)
    } else if ext == "wav"@ {
        Some("audio/wav"@)
    } else if ext == "flac"@ {
        Some("audio/flac"@)
    } else if ext == "mp4"@ {
        Some("video/mp4"@)
    } else if ext == "mov"@ {
        Some("video/quicktime"@)
    } else if ext == "webm"@ {
        Some("video/webm"@)
    } else if ext == "pdf"@ {
        Some("application/pdf"@)
    } else if ext == "json"@ {
        Some("application/json"@)
    } else if ext == "csv"@ {
        Some("text/csv"@)
    } else if ext == "md"@ {
        Some("text/markdown"@)
    } else if ext == "txt"@ || ext == "log"@ {
        Some("text/plain"@)
    } else if ext == "zip"@ {
        Some("application/zip"@)
    } else {
        None
    }
}

/// The media type that a file name extension stands for.
pub fn infer_from_extension(ext: &str) -> (r: Option<&'static str>)
    ensures
        r is Some == extension_type(ext@) is Some,
        r is Some ==> r->0@ == extension_type(ext@)->0,
{
    if str_eq(ext, "png") {
        Some("image/png")
    } else if str_eq(ext, "jpg") || str_eq(ext, "jpeg") {
        Some("image/jpeg")
    } else if str_eq(ext, "gif") {
        Some("image/gif")
    } else if str_eq(ext, "webp") {
        Some("image/webp")
    } else if str_eq(ext, "svg") {
        Some("image/svg+xml")
    } else if str_eq(ext, "mp3") {
        Some("audio/mpeg")
    } else if str_eq(ext, "m4a") {
        Some("audio/mp4")
    } else if str_eq(ext, "ogg") || str_eq(ext, "oga") {
        Some("audio/ogg")
    } else if str_eq(ext, "wav") {
        Some("audio/wav")
    } else if str_eq(ext, "flac") {
        Some("audio/flac")
    } else if str_eq(ext, "mp4") {
        Some("video/mp4")
    } else if str_eq(ext, "mov") {
        Some("video/quicktime")
    } else if str_eq(ext, "webm") {
        Some("video/webm")
    } else if str_eq(ext, "pdf") {
        Some("application/pdf")
    } else if str_eq(ext, "json") {
        Some("application/json")
    } else if str_eq(ext, "csv") {
        Some("text/csv")
    } else if str_eq(ext, "md") {
        Some("text/markdown")
    } else if str_eq(ext, "txt") || str_eq(ext, "log") {
        Some("text/plain")
    } else if str_eq(ext, "zip") {
        Some("application/zip")
    } else {
        None
    }
}

/// The media type of a file, by what follows the last dot of its name.
pub open spec fn name_type(name: Seq<char>) -> Option<Seq<char>> {
    extension_type(ascii_lower(trimmed(after_last(trimmed(name), '.'))))
}

/// The media type of a file, by its name.
pub fn infer_from_name(name: Option<&str>) -> (r: Option<String>)
    ensures
        r.deep_view() == match name {
            Some(name) => name_type(name@),
            None => None,
        },
{
    let name = name?;
    let ext = to_ascii_lower(rest_after_last(name.trim(), '.').as_str().trim());
    match infer_from_extension(ext.as_str()) {
        Some(mime) => Some(mime.to_owned()),
        None => None,
    }
}

/// The media type of a file, by the last part of its address, the query aside.
pub open spec fn url_type(url: Seq<char>) -> Option<Seq<char>> {
    name_type(after_last(before_first(trimmed(url), '?'), '/'))
}

/// The media type of a file, by its address.
pub fn infer_from_url(url: Option<&str>) -> (r: Option<String>)
    ensures
        r.deep_view() == match url {
            Some(url) => url_type(url@),
            None => None,
        },
{
    let url = url?;
    let path = rest_after_last(part_before(url.trim(), '?').as_str(), '/');
    infer_from_name(Some(path.as_str()))
}

/// The media type of a file: the one that is given, else the one that its name
/// or its address suggests.
pub open spec fn inbound_type(
    explicit: Option<Seq<char>>,
    filename: Option<Seq<char>>,
    url: Option<Seq<char>>,
) -> Seq<char> {
    if explicit is Some && !is_blank(explicit->0) {
        trimmed(explicit->0)
    } else if filename is Some && name_type(filename->0) is Some {
        name_type(filename->0)->0
    } else if url is Some && url_type(url->0) is Some {
        url_type(url->0)->0
    } else {
        "application/octet-stream"@
    }
}

/// The media type of a file that came with a message.
pub fn infer_inbound_mime_type(
    explicit: Option<&str>,
    filename: Option<&str>,
    url: Option<&str>,
) -> (r: String)
    ensures
        r@ == inbound_type(
            match explicit {
                Some(s) => Some(s@),
                None => None,
            },
            match filename {
                Some(s) => Some(s@),
                None => None,
            },
            match url {
                Some(s) => Some(s@),
                None => None,
            },
        ),
{
    if let Some(explicit) = explicit {
        let explicit = explicit.trim();
        if !explicit.is_empty() {
            return explicit.to_owned();
        }
    }
    if let Some(mime) = infer_from_name(filename) {
        return mime;
    }
    if let Some(mime) = infer_from_url(url) {
        return mime;
    }
    "application/octet-stream".to_owned()
}

} // verus!
