//! Media identifiers.

use crate::text::{is_white, trimmed, trimmed_end, trimmed_start};
use vstd::arithmetic::power::pow;
use vstd::prelude::*;

verus! {

/// The lower-case hexadecimal digit of a number below sixteen.
pub open spec fn hex_digit(d: int) -> char {
    if d < 10 {
        ('0' as u32 + d) as char
    } else {
        ('a' as u32 + d - 10) as char
    }
}

/// The hyphenated notation of a 128-bit identifier: 32 hexadecimal digits in
/// groups of 8, 4, 4, 4 and 12.
pub open spec fn hyphenated(n: u128) -> Seq<char> {
    Seq::new(
        36,
        |i: int|
            if i == 8 || i == 13 || i == 18 || i == 23 {
                '-'
            } else {
                let hyphens: int = if i < 8 {
                    0
                } else if i < 13 {
                    1
                } else if i < 18 {
                    2
                } else if i < 23 {
                    3
                } else {
                    4
                };
                hex_digit((n as int / pow(16, (31 - (i - hyphens)) as nat)) % 16)
            },
    )
}

/// What `uuid::Uuid::parse_str` makes of a text: the identifier's 128-bit
/// value, or nothing when the text is none of the notations it knows.
pub uninterp spec fn uuid_value(text: Seq<char>) -> Option<u128>;

/// `uuid::Uuid::parse_str`, with the identifier as its 128-bit value.
#[verifier::external_body]
fn parse_uuid(text: &str) -> (r: Option<u128>)
    ensures
        r == uuid_value(text@),
{
    uuid::Uuid::parse_str(text).ok().map(|id| id.as_u128())
}

/// The `Display` of `uuid::Uuid`: the hyphenated notation in lower case,
/// which `parse_str` reads back.
#[verifier::external_body]
fn uuid_text(n: u128) -> (r: String)
    ensures
        r@ == hyphenated(n),
        uuid_value(r@) == Some(n),
{
    uuid::Uuid::from_u128(n).to_string()
}

/// `uuid::Uuid::new_v4`: a random identifier of version 4, variant 1.
#[verifier::external_body]
fn random_uuid() -> (r: u128)
    ensures
        (r >> 76) & 0xf == 4,
        (r >> 62) & 0x3 == 2,
{
    uuid::Uuid::new_v4().as_u128()
}

/// The identifier of a stored file.
#[derive(Clone, Copy, Debug, PartialEq, Eq, Hash, Structural)]
pub struct MediaId(pub u128);

impl MediaId {
    /// A new random identifier of version 4.
    pub fn new() -> (r: MediaId)
        ensures
            (r.0 >> 76) & 0xf == 4,
            (r.0 >> 62) & 0x3 == 2,
    {
        MediaId(random_uuid())
    }

    /// The identifier that a text spells out, white space around it aside.
    pub fn parse(value: &str) -> (r: Option<MediaId>)
        ensures
            r == media_id_of(value@),
    {
        match parse_uuid(value.trim()) {
            Some(n) => Some(MediaId(n)),
            None => None,
        }
    }

    /// The identifier's hyphenated notation.
    pub fn to_text(&self) -> (r: String)
        ensures
            r@ == hyphenated(self.0),
            media_id_of(r@) == Some(*self),
    {
        let r = uuid_text(self.0);
        proof {
            lemma_hyphenated_trimmed(self.0);
        }
        r
    }
}

impl Default for MediaId {
    fn default() -> (r: MediaId)
        ensures
            (r.0 >> 76) & 0xf == 4,
            (r.0 >> 62) & 0x3 == 2,
    {
        MediaId::new()
    }
}

/// What a text means as a media identifier.
pub open spec fn media_id_of(value: Seq<char>) -> Option<MediaId> {
    match uuid_value(trimmed(value)) {
        Some(n) => Some(MediaId(n)),
        None => None,
    }
}

proof fn lemma_hyphenated_trimmed(n: u128)
    ensures
        trimmed(hyphenated(n)) == hyphenated(n),
{
    let s = hyphenated(n);
    assert(!is_white(s[0]));
    assert(!is_white(s[35]));
    assert(trimmed_start(s) == s);
    assert(trimmed_end(s) == s);
}

} // verus!
